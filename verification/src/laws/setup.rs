use std::sync::Arc;

use axum::routing::MethodRouter;
use axum_server::Handle;
use rust_mcp_schema::InitializeResult;
use vstd::prelude::*;

use crate::address::{after_parse, AddressStep};
use crate::components::Components;
use crate::error::{TransportServerError, TransportServerResult};
use crate::files::may_answer;
use crate::laws::assembly::{described, law_description_names_both_urls};
use crate::laws::texts::{law_decimal_reads_as_the_number, number};
use crate::options::HyperServerOptions;
use crate::outside::seconds;
use crate::server::{
    shutdown_signal, Features, HyperServer, InfoStep, McpAppState, Middleware, Route,
    SessionIdSource, ShutdownAction, Signal,
};
use crate::text::{decimal_text, or_default, strip_prefix};

verus! {

/// The text of a port number consists of digits that read as that number.
pub proof fn law_decimal_text(n: u16, r: String)
    requires
        call_ensures(decimal_text, (n,), r),
    ensures
        number(r@) == n,
        forall|i: int| 0 <= i < r@.len() ==> '0' <= #[trigger] r@[i] <= '9',
        r@.len() > 0,
        r@[0] == '0' ==> r@.len() == 1,
{
    law_decimal_reads_as_the_number(n as nat);
}

/// A text that is given wins over the default.
pub proof fn law_or_default(text: Option<String>, default: &str, r: &str)
    requires
        call_ensures(or_default, (&text, default), r),
    ensures
        text matches Some(t) ==> r@ == t@,
        text is None ==> r@ == default@,
{
}

/// What is left once a prefix is taken off gives the text back when the prefix is put
/// before it; nothing is left exactly if the text does not start with the prefix.
pub proof fn law_strip_prefix(text: &str, prefix: &str, r: Option<&str>)
    requires
        call_ensures(strip_prefix, (text, prefix), r),
    ensures
        r matches Some(rest) ==> prefix@ + rest@ == text@,
        r is None <==> !prefix@.is_prefix_of(text@),
{
    if let Some(rest) = r {
        assert((prefix@ + rest@).subrange(0, prefix@.len() as int) =~= prefix@);
    }
}

/// Each endpoint is at the path that was configured for it, or else at its default
/// path.
pub proof fn law_endpoints<C: Components>(
    options: HyperServerOptions<C>,
    streamable_http: &str,
    sse: &str,
    messages: &str,
)
    requires
        call_ensures(
            HyperServerOptions::<C>::streamable_http_endpoint,
            (&options,),
            streamable_http,
        ),
        call_ensures(HyperServerOptions::<C>::sse_endpoint, (&options,), sse),
        call_ensures(HyperServerOptions::<C>::sse_messages_endpoint, (&options,), messages),
    ensures
        options.custom_streamable_http_endpoint matches Some(path) ==> streamable_http@ == path@,
        options.custom_streamable_http_endpoint is None ==> streamable_http@ == "/mcp"@,
        options.custom_sse_endpoint matches Some(path) ==> sse@ == path@,
        options.custom_sse_endpoint is None ==> sse@ == "/sse"@,
        options.custom_messages_endpoint matches Some(path) ==> messages@ == path@,
        options.custom_messages_endpoint is None ==> messages@ == "/messages"@,
{
}

/// Each URL is the base URL followed by the path of the endpoint.
pub proof fn law_urls_are_base_and_endpoint<C: Components>(
    options: HyperServerOptions<C>,
    base: String,
    streamable_http: &str,
    sse: &str,
    messages: &str,
    streamable_http_url: String,
    sse_url: String,
    sse_message_url: String,
)
    requires
        call_ensures(HyperServerOptions::<C>::base_url, (&options,), base),
        call_ensures(
            HyperServerOptions::<C>::streamable_http_endpoint,
            (&options,),
            streamable_http,
        ),
        call_ensures(HyperServerOptions::<C>::sse_endpoint, (&options,), sse),
        call_ensures(HyperServerOptions::<C>::sse_messages_endpoint, (&options,), messages),
        call_ensures(
            HyperServerOptions::<C>::streamable_http_url,
            (&options,),
            streamable_http_url,
        ),
        call_ensures(HyperServerOptions::<C>::sse_url, (&options,), sse_url),
        call_ensures(HyperServerOptions::<C>::sse_message_url, (&options,), sse_message_url),
    ensures
        streamable_http_url@ == base@ + streamable_http@,
        sse_url@ == base@ + sse@,
        sse_message_url@ == base@ + messages@,
{
}

/// The base URL is the scheme, `://`, the host, a colon and the text of the port.
pub proof fn law_base_url<C: Components>(options: HyperServerOptions<C>, r: String, port: String)
    requires
        call_ensures(HyperServerOptions::<C>::base_url, (&options,), r),
        call_ensures(decimal_text, (options.port,), port),
    ensures
        options.enable_ssl ==> r@ == "https://"@ + options.host@ + ":"@ + port@,
        !options.enable_ssl ==> r@ == "http://"@ + options.host@ + ":"@ + port@,
        number(port@) == options.port,
{
    crate::laws::configuration::law_base_url_names_host_and_port(options);
}

/// A server that was configured with nothing is at 127.0.0.1, port 8080, in the clear,
/// with SSE; it pings every 12 seconds and shuts down on signals. Its transport options
/// are the default ones, and nothing else is set.
pub proof fn law_default_options<C: Components>(options: HyperServerOptions<C>)
    requires
        call_ensures(HyperServerOptions::<C>::default, (), options),
    ensures
        options.host@ == "127.0.0.1"@,
        options.port == 8080,
        !options.enable_ssl,
        options.sse_support,
        options.ping_interval == seconds(12),
        options.enable_signal_handler,
        call_ensures(C::TransportOptions::default, (), *options.transport_options),
        !options.dns_rebinding_protection,
        options.allowed_hosts is None,
        options.allowed_origins is None,
        options.custom_streamable_http_endpoint is None,
        options.custom_sse_endpoint is None,
        options.custom_messages_endpoint is None,
        options.ssl_cert_path is None,
        options.ssl_key_path is None,
        options.enable_json_response is None,
        options.health_endpoint is None,
        options.health_handler is None,
        options.session_id_generator is None,
        options.event_store is None,
        options.task_store is None,
        options.client_task_store is None,
        options.auth is None,
        options.message_observer is None,
{
}

/// Requests are checked against DNS rebinding exactly if that was asked for and a list
/// was given.
pub proof fn law_needs_dns_protection<C: Components>(options: HyperServerOptions<C>, r: bool)
    requires
        call_ensures(HyperServerOptions::<C>::needs_dns_protection, (&options,), r),
    ensures
        r <==> options.dns_rebinding_protection && (options.allowed_hosts is Some
            || options.allowed_origins is Some),
{
}

/// Given what the file system says of both paths, options pass exactly if they do not
/// ask for encryption, or both paths are given and name files; otherwise the reason
/// names what is missing first.
pub proof fn law_validate_probed<C: Components>(
    options: HyperServerOptions<C>,
    cert_is_file: bool,
    key_is_file: bool,
    r: TransportServerResult<()>,
)
    requires
        call_ensures(
            HyperServerOptions::<C>::validate_probed,
            (&options, cert_is_file, key_is_file),
            r,
        ),
    ensures
        r is Ok <==> !options.enable_ssl || (options.ssl_cert_path is Some
            && options.ssl_key_path is Some && cert_is_file && key_is_file),
        r matches Err(error) ==> (error matches TransportServerError::InvalidServerOptions(text) && {
            &&& options.ssl_cert_path is None || options.ssl_key_path is None ==> text@
                == "Both 'ssl_cert_path' and 'ssl_key_path' must be provided when SSL is enabled."@
            &&& options.ssl_cert_path is Some && options.ssl_key_path is Some && !cert_is_file
                ==> text@ == "'ssl_cert_path' does not point to a valid or existing file."@
            &&& options.ssl_cert_path is Some && options.ssl_key_path is Some && cert_is_file
                ==> text@ == "'ssl_key_path' does not point to a valid or existing file."@
        }),
{
}

/// Options that ask for encryption pass only if the file system has said of each of
/// the two configured paths that it names a file, and are found wanting for a file only
/// if it has said that there is none at the path of that file.
pub proof fn law_validate<C: Components>(
    options: HyperServerOptions<C>,
    r: TransportServerResult<()>,
)
    requires
        call_ensures(HyperServerOptions::<C>::validate, (&options,), r),
    ensures
        !options.enable_ssl ==> r is Ok,
        options.enable_ssl && (options.ssl_cert_path is None || options.ssl_key_path is None)
            ==> r is Err,
        r is Ok && options.enable_ssl ==> may_answer(options.ssl_cert_path->0@, true)
            && may_answer(options.ssl_key_path->0@, true),
        r matches Err(error) ==> error is InvalidServerOptions,
        r is Err && options.ssl_cert_path is Some && options.ssl_key_path is Some ==> may_answer(
            options.ssl_cert_path->0@,
            false,
        ) || may_answer(options.ssl_key_path->0@, false),
{
}

/// The file system is asked about the configured certificate and the configured key,
/// in that order, and only where encryption is asked for and both are given.
pub proof fn law_files_to_probe<C: Components>(
    options: HyperServerOptions<C>,
    r: Option<(&str, &str)>,
)
    requires
        call_ensures(HyperServerOptions::<C>::files_to_probe, (&options,), r),
    ensures
        r is Some <==> options.enable_ssl && options.ssl_cert_path is Some
            && options.ssl_key_path is Some,
        r matches Some((cert_path, key_path)) ==> cert_path@ == options.ssl_cert_path->0@
            && key_path@ == options.ssl_key_path->0@,
{
}

/// The host that is looked up gives the configured host when its scheme, if it has
/// one, is put back before it.
pub proof fn law_lookup_host<C: Components>(options: HyperServerOptions<C>, r: String)
    requires
        call_ensures(HyperServerOptions::<C>::lookup_host, (&options,), r),
    ensures
        options.host@ == r@ || options.host@ == "http://"@ + r@ || options.host@ == "https://"@ + r@,
        options.host@ == r@ ==> !"http://"@.is_prefix_of(options.host@)
            && !"https://"@.is_prefix_of(options.host@),
{
    reveal_strlit("https://");
    reveal_strlit("http://");
    assert(Seq::<char>::empty() + r@ =~= r@);
}

/// A warning is due exactly if the host names the scheme that is not served, and it
/// names that scheme.
pub proof fn law_scheme_warning<C: Components>(
    options: HyperServerOptions<C>,
    mismatch: bool,
    warning: Option<&'static str>,
)
    requires
        call_ensures(HyperServerOptions::<C>::scheme_mismatch, (&options,), mismatch),
        call_ensures(HyperServerOptions::<C>::scheme_warning, (&options,), warning),
    ensures
        mismatch <==> (options.enable_ssl && "http://"@.is_prefix_of(options.host@)) || (
        !options.enable_ssl && "https://"@.is_prefix_of(options.host@)),
        warning is Some <==> mismatch,
        options.enable_ssl && warning is Some ==> warning->0@
            == "Warning: Ignoring http:// scheme for SSL; using hostname only"@,
        !options.enable_ssl && warning is Some ==> warning->0@
            == "Warning: Ignoring https:// scheme without SSL; using hostname only"@,
{
}

/// Valid options, encrypted or not, lead to a lookup of exactly the configured port, of
/// the host without its scheme, and with the warning that is due; invalid ones to the
/// reason.
pub proof fn law_resolve_validated<C: Components, A>(
    options: HyperServerOptions<C>,
    valid: TransportServerResult<()>,
    step: AddressStep<A>,
    bare: String,
    warned: Option<&'static str>,
)
    requires
        call_ensures(HyperServerOptions::<C>::resolve_validated::<A>, (&options, valid), step),
        call_ensures(HyperServerOptions::<C>::lookup_host, (&options,), bare),
        call_ensures(HyperServerOptions::<C>::scheme_warning, (&options,), warned),
    ensures
        valid is Ok ==> (step matches AddressStep::Lookup { host, port, warning } && {
            &&& port == options.port
            &&& host@ == bare@
            &&& warning is Some <==> warned is Some
            &&& warning is Some ==> warning->0@ == warned->0@
        }),
        valid matches Err(error) ==> step == AddressStep::<A>::Failed(error),
{
}

/// The search begins with a lookup of the configured port and of the host without its
/// scheme, or fails because the options are invalid. Options without encryption are
/// always looked up; options with it, only if the file system has found both files.
pub proof fn law_resolve_server_address<C: Components, A>(
    options: HyperServerOptions<C>,
    step: AddressStep<A>,
    bare: String,
)
    requires
        call_ensures(HyperServerOptions::<C>::resolve_server_address::<A>, (&options,), step),
        call_ensures(HyperServerOptions::<C>::lookup_host, (&options,), bare),
    ensures
        step is Lookup || step is Failed,
        step matches AddressStep::Lookup { host, port, .. } ==> port == options.port && host@
            == bare@,
        step matches AddressStep::Failed(error) ==> error is InvalidServerOptions,
        !options.enable_ssl ==> step is Lookup,
        options.enable_ssl && (options.ssl_cert_path is None || options.ssl_key_path is None)
            ==> step is Failed,
        options.enable_ssl && step is Lookup ==> may_answer(options.ssl_cert_path->0@, true)
            && may_answer(options.ssl_key_path->0@, true),
{
    let prefix = if "http://"@.is_prefix_of(options.host@) {
        "http://"@
    } else if "https://"@.is_prefix_of(options.host@) {
        "https://"@
    } else {
        Seq::<char>::empty()
    };
    if let AddressStep::Lookup { host, .. } = step {
        assert(host@ =~= (prefix + host@).skip(prefix.len() as int));
        assert(bare@ =~= (prefix + bare@).skip(prefix.len() as int));
    }
}

/// The first address that was found is taken; where none was, host and port are read
/// as they were configured; and a lookup that failed ends the search with its message.
pub proof fn law_after_lookup<C: Components, A>(
    options: HyperServerOptions<C>,
    found: Result<Vec<A>, String>,
    step: AddressStep<A>,
    port: String,
)
    requires
        call_ensures(HyperServerOptions::<C>::after_lookup::<A>, (&options, found), step),
        call_ensures(decimal_text, (options.port,), port),
    ensures
        found matches Ok(addresses) ==> {
            &&& addresses@.len() > 0 ==> step == AddressStep::Resolved(addresses@[0])
            &&& addresses@.len() == 0 ==> (step matches AddressStep::Parse(text) && text@
                == options.host@ + ":"@ + port@)
        },
        found matches Err(message) ==> step == AddressStep::<A>::Failed(
            TransportServerError::ServerStartError(message),
        ),
{
}

/// A text that was read as an address gives it; one that was not ends the search with
/// the message.
pub proof fn law_after_parse<A>(parsed: Result<A, String>, step: AddressStep<A>)
    requires
        call_ensures(after_parse::<A>, (parsed,), step),
    ensures
        parsed matches Ok(address) ==> step == AddressStep::Resolved(address),
        parsed matches Err(message) ==> step == AddressStep::<A>::Failed(
            TransportServerError::ServerStartError(message),
        ),
{
}

/// A new server has the checks that were configured, with exactly the configured lists
/// and the configured provider, and no others; no list is lost, and every other part of
/// the configuration is where it is used.
pub proof fn law_new_server<C: Components>(
    details: InitializeResult,
    handler: Arc<C::ServerHandler>,
    options: HyperServerOptions<C>,
    features: Features,
    server: HyperServer<C>,
)
    requires
        call_ensures(HyperServer::<C>::new, (details, handler, options, features), server),
    ensures
        *server.state.server_details == details,
        server.state.handler == handler,
        server.features == features,
        server.app.routes@.len() == 0,
        server.app.http_handler.auth == options.auth,
        server.app.http_handler.health_handler == options.health_handler,
        forall|i: int|
            0 <= i < server.app.http_handler.middlewares@.len() ==> match (
            #[trigger] server.app.http_handler.middlewares@[i]) {
                Middleware::DnsRebindProtector { allowed_hosts, allowed_origins } => {
                    &&& i == 0
                    &&& options.dns_rebinding_protection
                    &&& allowed_hosts == options.allowed_hosts
                    &&& allowed_origins == options.allowed_origins
                },
                Middleware::Auth(provider) => options.auth == Some(provider),
            },
        server.app.http_handler.middlewares@.len() == (if options.dns_rebinding_protection && (
        options.allowed_hosts is Some || options.allowed_origins is Some) {
            1int
        } else {
            0
        }) + (if options.auth is Some {
            1int
        } else {
            0
        }),
        options.dns_rebinding_protection && (options.allowed_hosts is Some
            || options.allowed_origins is Some)
            ==> server.app.http_handler.middlewares@[0] is DnsRebindProtector,
        options.auth is Some ==> server.app.http_handler.middlewares@.last() is Auth,
        options.session_id_generator matches Some(generator) ==> server.state.id_generator
            == SessionIdSource::<C>::Custom(generator),
        options.session_id_generator is None ==> server.state.id_generator is Uuid,
        server.state.stream_id_prefix@ == "s_"@,
        server.state.enable_json_response <==> options.enable_json_response == Some(true),
        server.state.ping_interval == options.ping_interval,
        server.state.transport_options == options.transport_options,
        server.state.event_store == options.event_store,
        server.state.task_store == options.task_store,
        server.state.client_task_store == options.client_task_store,
        server.state.message_observer == options.message_observer,
        call_ensures(C::SessionStore::default, (), *server.state.session_store),
        server.options.host == options.host,
        server.options.port == options.port,
        server.options.enable_ssl == options.enable_ssl,
        server.options.ssl_cert_path == options.ssl_cert_path,
        server.options.ssl_key_path == options.ssl_key_path,
        server.options.custom_streamable_http_endpoint == options.custom_streamable_http_endpoint,
        server.options.custom_sse_endpoint == options.custom_sse_endpoint,
        server.options.custom_messages_endpoint == options.custom_messages_endpoint,
        server.options.sse_support == options.sse_support,
        server.options.enable_signal_handler == options.enable_signal_handler,
        server.options.health_endpoint == options.health_endpoint,
{
}

/// A route that is added comes after those that were added before, and changes
/// nothing else.
pub proof fn law_with_route<C: Components>(
    server: HyperServer<C>,
    path: &'static str,
    route: MethodRouter,
    r: HyperServer<C>,
)
    requires
        call_ensures(HyperServer::<C>::with_route, (server, path, route), r),
    ensures
        r.app.routes@.len() == server.app.routes@.len() + 1,
        r.app.routes@.last() == (Route { path, handlers: route }),
        forall|i: int|
            0 <= i < server.app.routes@.len() ==> #[trigger] r.app.routes@[i]
                == server.app.routes@[i],
        r.app.http_handler == server.app.http_handler,
        r.state == server.state,
        r.options == server.options,
        r.handle == server.handle,
        r.features == server.features,
{
}

/// What a server hands out of itself is its own.
pub proof fn law_server_parts<C: Components>(
    server: HyperServer<C>,
    state: Arc<McpAppState<C>>,
    options: &HyperServerOptions<C>,
    handle: Handle,
    can_serve: bool,
)
    requires
        call_ensures(HyperServer::<C>::state, (&server,), state),
        call_ensures(HyperServer::<C>::options, (&server,), options),
        call_ensures(HyperServer::<C>::server_handle, (&server,), handle),
        call_ensures(HyperServer::<C>::can_serve, (&server,), can_serve),
    ensures
        state == server.state,
        *options == server.options,
        handle == server.handle,
        can_serve <==> !server.options.enable_ssl || server.features.ssl,
{
}

/// A description names the URL of the streamable HTTP endpoint and then, exactly if SSE
/// is built in and supported, that of the SSE endpoint: both with the scheme of the
/// server, the same address, and the paths at which the endpoints are.
pub proof fn law_server_info_at<C: Components>(
    server: HyperServer<C>,
    addr: &str,
    streamable_http: &str,
    sse: &str,
    r: String,
)
    requires
        call_ensures(HyperServer::<C>::server_info_at, (&server, addr), r),
        call_ensures(
            HyperServerOptions::<C>::streamable_http_endpoint,
            (&server.options,),
            streamable_http,
        ),
        call_ensures(HyperServerOptions::<C>::sse_endpoint, (&server.options,), sse),
    ensures
        server.features.sse && server.options.sse_support ==> r@ == "\n• Streamable HTTP "@
            + described(server.options.enable_ssl) + addr@ + streamable_http@ + "\n• SSE "@
            + described(server.options.enable_ssl) + addr@ + sse@,
        !(server.features.sse && server.options.sse_support) ==> r@ == "\n• Streamable HTTP "@
            + described(server.options.enable_ssl) + addr@ + streamable_http@,
{
    law_description_names_both_urls(server, addr@, streamable_http@, sse@);
}

/// A server is described at the address that is given, whether it is given at once or
/// found out first; and an address that cannot be found out is no description.
pub proof fn law_server_info<C: Components>(
    server: HyperServer<C>,
    addr: &str,
    text: String,
    given: InfoStep,
    not_given: InfoStep,
    found: String,
    error: TransportServerError,
    resolved: TransportServerResult<String>,
    failed: TransportServerResult<String>,
)
    requires
        call_ensures(HyperServer::<C>::server_info_at, (&server, addr), text),
        call_ensures(HyperServer::<C>::server_info, (&server, Some(addr)), given),
        call_ensures(HyperServer::<C>::server_info, (&server, None::<&str>), not_given),
        found@ == addr@,
        call_ensures(HyperServer::<C>::server_info_resolved, (&server, Ok(found)), resolved),
        call_ensures(HyperServer::<C>::server_info_resolved, (&server, Err(error)), failed),
    ensures
        given matches InfoStep::Ready(info) && info@ == text@,
        not_given is ResolveAddress,
        resolved matches Ok(info) && info@ == text@,
        failed == Err::<String, TransportServerError>(error),
{
}

/// On any signal the sessions of the server end, and only then is it stopped, through
/// its handle, with five seconds left for open connections.
pub proof fn law_shutdown_signal<C: Components>(
    signal: Signal,
    handle: Handle,
    state: Arc<McpAppState<C>>,
    r: Vec<ShutdownAction<C>>,
)
    requires
        call_ensures(shutdown_signal::<C>, (signal, handle, state), r),
    ensures
        r@.len() == 2,
        r@[0] == ShutdownAction::<C>::ClearSessions(state.session_store),
        r@[1] == (ShutdownAction::<C>::GracefulShutdown { handle, timeout: Some(seconds(5)) }),
{
}

} // verus!

use vstd::prelude::*;

use crate::components::Components;
use crate::options::HyperServerOptions;
use crate::server::{
    availability, kept_options, middleware_chain, HyperServer, McpAppState, Middleware,
    SessionIdSource,
};

verus! {

/// The check against DNS rebinding holds exactly the hosts and exactly the origins
/// that were configured, wherever there is such a check, and authentication is by the
/// provider that was configured.
pub proof fn law_checks_hold_what_was_configured<C: Components>(
    options: HyperServerOptions<C>,
    i: int,
)
    requires
        0 <= i < middleware_chain(options).len(),
    ensures
        match middleware_chain(options)[i] {
            Middleware::DnsRebindProtector { allowed_hosts, allowed_origins } => {
                &&& options.dns_rebinding_protection
                &&& allowed_hosts == options.allowed_hosts
                &&& allowed_origins == options.allowed_origins
                &&& allowed_hosts is Some || allowed_origins is Some
            },
            Middleware::Auth(provider) => options.auth == Some(provider),
        },
{
}

/// Where protection against DNS rebinding was asked for and a list was given, the
/// check comes first; where a provider was given, authentication comes last; and
/// nothing else is checked.
pub proof fn law_configured_checks_are_there<C: Components>(options: HyperServerOptions<C>)
    ensures
        options.dns_rebinding_protection && (options.allowed_hosts is Some
            || options.allowed_origins is Some) ==> middleware_chain(options).len() > 0
            && middleware_chain(options)[0] is DnsRebindProtector,
        options.auth is Some ==> middleware_chain(options).len() > 0 && middleware_chain(
            options,
        ).last() is Auth,
        options.auth is None && (!options.dns_rebinding_protection || (options.allowed_hosts is None
            && options.allowed_origins is None)) ==> middleware_chain(options).len() == 0,
        middleware_chain(options).len() <= 2,
        middleware_chain(options).len() == 2 ==> options.auth is Some
            && options.dns_rebinding_protection,
{
}

/// No list that was configured is lost: each is either in the check against DNS
/// rebinding or still in the options that the server keeps.
pub proof fn law_no_list_is_lost<C: Components>(options: HyperServerOptions<C>)
    ensures
        ({
            let kept = kept_options(options);
            ||| kept.allowed_hosts == options.allowed_hosts && kept.allowed_origins
                == options.allowed_origins
            ||| middleware_chain(options).len() > 0 && middleware_chain(options)[0]
                == (Middleware::<C>::DnsRebindProtector {
                allowed_hosts: options.allowed_hosts,
                allowed_origins: options.allowed_origins,
            }) && kept.allowed_hosts is None && kept.allowed_origins is None
        }),
{
}

/// The options that a server keeps are those that it was made with in every part that
/// is still needed, and hold none of the parts that have moved to where they are used.
pub proof fn law_kept_options<C: Components>(options: HyperServerOptions<C>)
    ensures
        kept_options(options).host == options.host,
        kept_options(options).port == options.port,
        kept_options(options).custom_streamable_http_endpoint
            == options.custom_streamable_http_endpoint,
        kept_options(options).transport_options == options.transport_options,
        kept_options(options).event_store == options.event_store,
        kept_options(options).enable_json_response == options.enable_json_response,
        kept_options(options).ping_interval == options.ping_interval,
        kept_options(options).enable_ssl == options.enable_ssl,
        kept_options(options).ssl_cert_path == options.ssl_cert_path,
        kept_options(options).ssl_key_path == options.ssl_key_path,
        kept_options(options).dns_rebinding_protection == options.dns_rebinding_protection,
        kept_options(options).sse_support == options.sse_support,
        kept_options(options).custom_sse_endpoint == options.custom_sse_endpoint,
        kept_options(options).custom_messages_endpoint == options.custom_messages_endpoint,
        kept_options(options).health_endpoint == options.health_endpoint,
        kept_options(options).health_handler == options.health_handler,
        kept_options(options).enable_signal_handler == options.enable_signal_handler,
        kept_options(options).session_id_generator is None,
        kept_options(options).task_store is None,
        kept_options(options).client_task_store is None,
        kept_options(options).message_observer is None,
        kept_options(options).auth is None,
        options.dns_rebinding_protection && (options.allowed_hosts is Some
            || options.allowed_origins is Some) ==> kept_options(options).allowed_hosts is None
            && kept_options(options).allowed_origins is None,
        !options.dns_rebinding_protection ==> kept_options(options).allowed_hosts
            == options.allowed_hosts && kept_options(options).allowed_origins
            == options.allowed_origins,
{
}

/// The sessions of a server share what it was configured with: its stores, its
/// observer, its settings, and the source of session ids, which are random only where
/// no generator was given. Answers are in JSON only where that was asked for.
pub proof fn law_sessions_share_the_configuration<C: Components>(
    state: McpAppState<C>,
    options: HyperServerOptions<C>,
)
    requires
        state.set_up_by(options),
    ensures
        options.session_id_generator matches Some(generator) ==> state.id_generator
            == SessionIdSource::<C>::Custom(generator),
        options.session_id_generator is None ==> state.id_generator is Uuid,
        state.stream_id_prefix@ == "s_"@,
        state.ping_interval == options.ping_interval,
        state.transport_options == options.transport_options,
        options.enable_json_response matches Some(enabled) ==> state.enable_json_response
            == enabled,
        options.enable_json_response is None ==> !state.enable_json_response,
        state.event_store == options.event_store,
        state.task_store == options.task_store,
        state.client_task_store == options.client_task_store,
        state.message_observer == options.message_observer,
{
}

/// The scheme that the description of a server names is `https` exactly if
/// connections are encrypted, and a server is called an SSL server exactly then.
pub open spec fn described(enable_ssl: bool) -> Seq<char> {
    if enable_ssl {
        "SSL server is available at https://"@
    } else {
        "Server is available at http://"@
    }
}

/// The description of a server that supports SSE ends with a line that names the
/// scheme of the server, the address and the path of the SSE endpoint; the line
/// before it names the same scheme and address, and the path of the streamable HTTP
/// endpoint. Without SSE, the description ends with that line.
pub proof fn law_description_names_both_urls<C: Components>(
    server: HyperServer<C>,
    addr: Seq<char>,
    http_path: Seq<char>,
    sse_path: Seq<char>,
)
    requires
        match server.options.custom_streamable_http_endpoint {
            Some(path) => http_path == path@,
            None => http_path == "/mcp"@,
        },
        match server.options.custom_sse_endpoint {
            Some(path) => sse_path == path@,
            None => sse_path == "/sse"@,
        },
    ensures
        server.features.sse && server.options.sse_support ==> server.info(addr)
            == "\n• Streamable HTTP "@ + described(server.options.enable_ssl) + addr + http_path
            + "\n• SSE "@ + described(server.options.enable_ssl) + addr + sse_path,
        !(server.features.sse && server.options.sse_support) ==> server.info(addr)
            == "\n• Streamable HTTP "@ + described(server.options.enable_ssl) + addr + http_path,
{
    law_line_names_the_url(
        "\n• Streamable HTTP "@,
        server.options.enable_ssl,
        addr,
        http_path,
    );
    law_line_names_the_url("\n• SSE "@, server.options.enable_ssl, addr, sse_path);
    if server.features.sse && server.options.sse_support {
        assert(server.info(addr) =~= "\n• Streamable HTTP "@ + described(
            server.options.enable_ssl,
        ) + addr + http_path + "\n• SSE "@ + described(server.options.enable_ssl) + addr
            + sse_path);
    }
}

/// A line of the description is its bullet, what kind of server there is, and the URL.
pub proof fn law_line_names_the_url(
    bullet: Seq<char>,
    enable_ssl: bool,
    addr: Seq<char>,
    path: Seq<char>,
)
    ensures
        availability(bullet, enable_ssl, addr, path) == bullet + described(enable_ssl) + addr + path,
{
    reveal_strlit("SSL server is available at https://");
    reveal_strlit("Server is available at http://");
    reveal_strlit("SSL server");
    reveal_strlit("Server");
    reveal_strlit(" is available at ");
    reveal_strlit("https");
    reveal_strlit("http");
    reveal_strlit("://");
    assert("SSL server"@ + " is available at "@ + "https"@ + "://"@
        =~= "SSL server is available at https://"@);
    assert("Server"@ + " is available at "@ + "http"@ + "://"@
        =~= "Server is available at http://"@);
    assert(availability(bullet, enable_ssl, addr, path) =~= bullet + described(enable_ssl) + addr
        + path);
}

/// Only encryption can be too much to ask of a server, and only of one that was built
/// without it.
pub proof fn law_servable<C: Components>(server: HyperServer<C>)
    ensures
        !server.servable() <==> server.options.enable_ssl && !server.features.ssl,
{
}

} // verus!

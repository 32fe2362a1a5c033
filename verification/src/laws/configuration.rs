use vstd::prelude::*;

use crate::address::{
    lookup_answer, parse_answer, step_after_lookup, step_after_parse, AddressStep,
    AddressStepView,
};
use crate::components::Components;
use crate::error::{outcome, ErrorView, TransportServerError, TransportServerResult};
use crate::files::may_answer;
use crate::laws::texts::{law_decimal_reads_as_the_number, number};
use crate::options::{scheme, HyperServerOptions};
use crate::outside::seconds;
use crate::text::decimal;

verus! {

/// Whatever else is configured, each endpoint is at the path that was configured
/// for it, and at its default path only where none was.
pub proof fn law_endpoints_are_where_configured<C: Components>(options: HyperServerOptions<C>)
    ensures
        options.custom_streamable_http_endpoint matches Some(path)
            ==> options.streamable_http_path() == path@,
        options.custom_streamable_http_endpoint is None ==> options.streamable_http_path()
            == "/mcp"@,
        options.custom_sse_endpoint matches Some(path) ==> options.sse_path() == path@,
        options.custom_sse_endpoint is None ==> options.sse_path() == "/sse"@,
        options.custom_messages_endpoint matches Some(path) ==> options.messages_path() == path@,
        options.custom_messages_endpoint is None ==> options.messages_path() == "/messages"@,
{
}

/// Two configurations that agree on an endpoint have it at the same path, however
/// they differ otherwise.
pub proof fn law_endpoints_depend_on_nothing_else<C: Components>(
    one: HyperServerOptions<C>,
    other: HyperServerOptions<C>,
)
    ensures
        one.custom_streamable_http_endpoint == other.custom_streamable_http_endpoint
            ==> one.streamable_http_path() == other.streamable_http_path(),
        one.custom_sse_endpoint == other.custom_sse_endpoint ==> one.sse_path()
            == other.sse_path(),
        one.custom_messages_endpoint == other.custom_messages_endpoint ==> one.messages_path()
            == other.messages_path(),
{
}

/// The base URL is the scheme, `://`, the host as it was configured, a colon, and
/// digits that read as the configured port.
pub proof fn law_base_url_names_host_and_port<C: Components>(options: HyperServerOptions<C>)
    ensures
        options.base() == (if options.enable_ssl {
            "https://"@
        } else {
            "http://"@
        }) + options.host@ + ":"@ + decimal(options.port as nat),
        number(decimal(options.port as nat)) == options.port,
        scheme(options.enable_ssl) == (if options.enable_ssl {
            "https"@
        } else {
            "http"@
        }),
{
    reveal_strlit("https://");
    reveal_strlit("http://");
    reveal_strlit("https");
    reveal_strlit("http");
    reveal_strlit("://");
    assert("https"@ + "://"@ =~= "https://"@);
    assert("http"@ + "://"@ =~= "http://"@);
    law_decimal_reads_as_the_number(options.port as nat);
}

/// Protection against DNS rebinding takes both the wish for it and a list; either
/// list will do.
pub proof fn law_dns_protection<C: Components>(options: HyperServerOptions<C>)
    ensures
        !options.dns_rebinding_protection ==> !options.dns_protected(),
        options.allowed_hosts is None && options.allowed_origins is None
            ==> !options.dns_protected(),
        options.dns_rebinding_protection && options.allowed_hosts is Some
            ==> options.dns_protected(),
        options.dns_rebinding_protection && options.allowed_origins is Some
            ==> options.dns_protected(),
{
}

/// The reason for which options are invalid names what is missing: a path that was
/// not given, before a certificate that does not exist, before a key that does not.
pub proof fn law_validation_names_what_is_missing<C: Components>(
    options: HyperServerOptions<C>,
    cert_is_file: bool,
    key_is_file: bool,
)
    ensures
        options.ssl_paths_given() <==> options.ssl_cert_path is Some && options.ssl_key_path is Some,
        options.enable_ssl && (options.ssl_cert_path is None || options.ssl_key_path is None)
            ==> options.validation(cert_is_file, key_is_file) == Err::<(), ErrorView>(
            ErrorView::InvalidServerOptions(
                "Both 'ssl_cert_path' and 'ssl_key_path' must be provided when SSL is enabled."@,
            ),
        ),
        options.enable_ssl && options.ssl_cert_path is Some && options.ssl_key_path is Some
            && !cert_is_file ==> options.validation(cert_is_file, key_is_file) == Err::<
            (),
            ErrorView,
        >(
            ErrorView::InvalidServerOptions(
                "'ssl_cert_path' does not point to a valid or existing file."@,
            ),
        ),
        options.enable_ssl && options.ssl_cert_path is Some && options.ssl_key_path is Some
            && cert_is_file && !key_is_file ==> options.validation(cert_is_file, key_is_file)
            == Err::<(), ErrorView>(
            ErrorView::InvalidServerOptions(
                "'ssl_key_path' does not point to a valid or existing file."@,
            ),
        ),
        options.enable_ssl && options.ssl_cert_path is Some && options.ssl_key_path is Some
            && cert_is_file && key_is_file ==> options.validation(cert_is_file, key_is_file) == Ok::<
            (),
            ErrorView,
        >(()),
        !options.enable_ssl ==> options.validation(cert_is_file, key_is_file) == Ok::<
            (),
            ErrorView,
        >(()),
{
}

/// A certificate is found missing exactly if the file system may say so of the
/// certificate path, and a key exactly if it may say so of the key path, with the
/// certificate found; no other path matters. A path that was not given is found
/// missing without asking.
pub proof fn law_each_file_answers_for_itself<C: Components>(options: HyperServerOptions<C>)
    requires
        options.enable_ssl,
    ensures
        options.may_validate_as(
            Err(
                ErrorView::InvalidServerOptions(
                    "'ssl_cert_path' does not point to a valid or existing file."@,
                ),
            ),
        ) <==> options.ssl_cert_path is Some && options.ssl_key_path is Some && may_answer(
            options.ssl_cert_path->0@,
            false,
        ),
        options.may_validate_as(
            Err(
                ErrorView::InvalidServerOptions(
                    "'ssl_key_path' does not point to a valid or existing file."@,
                ),
            ),
        ) <==> options.ssl_cert_path is Some && options.ssl_key_path is Some && may_answer(
            options.ssl_cert_path->0@,
            true,
        ) && may_answer(options.ssl_key_path->0@, false),
        options.may_validate_as(
            Err(
                ErrorView::InvalidServerOptions(
                    "Both 'ssl_cert_path' and 'ssl_key_path' must be provided when SSL is enabled."@,
                ),
            ),
        ) <==> options.ssl_cert_path is None || options.ssl_key_path is None,
{
    reveal_strlit("'ssl_cert_path' does not point to a valid or existing file.");
    reveal_strlit("'ssl_key_path' does not point to a valid or existing file.");
    reveal_strlit("Both 'ssl_cert_path' and 'ssl_key_path' must be provided when SSL is enabled.");
    assert("'ssl_cert_path' does not point to a valid or existing file."@.len()
        != "'ssl_key_path' does not point to a valid or existing file."@.len());
    if options.ssl_cert_path is Some && options.ssl_key_path is Some {
        if may_answer(options.ssl_cert_path->0@, false) {
            assert(options.validation(false, false) is Err);
        }
        if may_answer(options.ssl_cert_path->0@, true) && may_answer(
            options.ssl_key_path->0@,
            false,
        ) {
            assert(options.validation(true, false) is Err);
        }
    }
}

/// Options that were configured with nothing lead to `http://127.0.0.1:8080`, with
/// the default endpoints; they are valid, ask for no check of requests and for no
/// warning, and hold none of the parts that an application may plug in.
pub proof fn law_defaults<C: Components>(options: HyperServerOptions<C>)
    requires
        options.is_default(),
    ensures
        options.host@ == "127.0.0.1"@,
        options.port == 8080,
        !options.enable_ssl,
        options.streamable_http_path() == "/mcp"@,
        options.sse_path() == "/sse"@,
        options.messages_path() == "/messages"@,
        options.ping_interval == seconds(12),
        options.sse_support,
        options.enable_signal_handler,
        !options.dns_rebinding_protection,
        options.allowed_hosts is None,
        options.allowed_origins is None,
        options.ssl_cert_path is None,
        options.ssl_key_path is None,
        options.enable_json_response is None,
        options.health_endpoint is None,
        options.health_handler is None,
        options.session_id_generator is None,
        options.event_store is None,
        options.task_store is None,
        options.client_task_store is None,
        options.auth is None,
        options.message_observer is None,
        options.may_validate_as(Ok(())),
        options.warning() is None,
{
    reveal_strlit("127.0.0.1");
    reveal_strlit("https://");
    if "https://"@.is_prefix_of(options.host@) {
        assert(options.host@.subrange(0, 8)[0] == 'h');
    }
}

/// Once the options are valid, encrypted or not, what is looked up is the configured
/// port, and a host that gives the configured host when the scheme is put back before
/// it. Otherwise nothing is looked up, and the reason is given.
pub proof fn law_configured_host_and_port_are_looked_up<C: Components, A>(
    options: HyperServerOptions<C>,
    valid: Result<(), ErrorView>,
)
    ensures
        valid is Ok ==> options.first_step::<A>(valid) is Lookup,
        valid matches Err(error) ==> options.first_step::<A>(valid) == AddressStepView::<A>::Failed(
            error,
        ),
        options.first_step::<A>(valid) matches AddressStepView::Lookup { host, port, warning } ==> {
            &&& port == options.port
            &&& "http://"@.is_prefix_of(options.host@) ==> options.host@ == "http://"@ + host
            &&& "https://"@.is_prefix_of(options.host@) ==> options.host@ == "https://"@ + host
            &&& !"http://"@.is_prefix_of(options.host@) && !"https://"@.is_prefix_of(options.host@)
                ==> host == options.host@
            &&& options.enable_ssl && "http://"@.is_prefix_of(options.host@) ==> warning == Some(
                "Warning: Ignoring http:// scheme for SSL; using hostname only"@,
            )
            &&& !options.enable_ssl && "https://"@.is_prefix_of(options.host@) ==> warning == Some(
                "Warning: Ignoring https:// scheme without SSL; using hostname only"@,
            )
            &&& options.enable_ssl && !"http://"@.is_prefix_of(options.host@) ==> warning is None
            &&& !options.enable_ssl && !"https://"@.is_prefix_of(options.host@) ==> warning is None
        },
{
    reveal_strlit("https://");
    reveal_strlit("http://");
    let host = options.host@;
    if "http://"@.is_prefix_of(host) {
        assert(host =~= host.subrange(0, 7) + host.skip(7));
        if "https://"@.is_prefix_of(host) {
            assert(host.subrange(0, 7)[4] == ':');
            assert(host.subrange(0, 8)[4] == 's');
        }
    }
    if "https://"@.is_prefix_of(host) {
        assert(host =~= host.subrange(0, 8) + host.skip(8));
    }
}

/// Configurations whose hosts differ only in a scheme before them are looked up
/// alike if their ports agree, whether or not they ask for encryption.
pub proof fn law_lookup_depends_on_host_and_port_alone<C: Components, A>(
    one: HyperServerOptions<C>,
    other: HyperServerOptions<C>,
    rest: Seq<char>,
)
    requires
        one.port == other.port,
        one.host@ == "http://"@ + rest || one.host@ == "https://"@ + rest,
        other.host@ == "http://"@ + rest || other.host@ == "https://"@ + rest,
    ensures
        match (one.first_step::<A>(Ok(())), other.first_step::<A>(Ok(()))) {
            (
                AddressStepView::Lookup { host, port, .. },
                AddressStepView::Lookup { host: other_host, port: other_port, .. },
            ) => host == rest && other_host == rest && port == other_port,
            _ => false,
        },
{
    crate::laws::law_scheme_before_host_is_ignored(rest);
}

/// The first address that a lookup finds is the one, whatever the others are; where
/// it finds none, host and port are read as an address, as they were configured; and
/// where it fails, the search ends with what it says.
pub proof fn law_answers_of_the_lookup<C: Components, A>(
    options: HyperServerOptions<C>,
    found: Result<Vec<A>, String>,
)
    ensures
        match found {
            Err(message) => step_after_lookup(options.host_and_port(), lookup_answer(found))
                == AddressStepView::<A>::Failed(ErrorView::ServerStartError(message@)),
            Ok(addresses) => {
                &&& addresses@.len() > 0 ==> step_after_lookup(
                    options.host_and_port(),
                    lookup_answer(found),
                ) == AddressStepView::Resolved(addresses@[0])
                &&& addresses@.len() == 0 ==> step_after_lookup(
                    options.host_and_port(),
                    lookup_answer(found),
                ) == AddressStepView::<A>::Parse(
                    options.host@ + ":"@ + decimal(options.port as nat),
                )
            },
        },
{
}

/// A text that can be read as an address gives that address, and one that cannot ends
/// the search with the reason.
pub proof fn law_answers_of_reading<A>(parsed: Result<A, String>)
    ensures
        parsed matches Ok(address) ==> step_after_parse(parse_answer(parsed))
            == AddressStepView::Resolved(address),
        parsed matches Err(message) ==> step_after_parse(parse_answer(parsed))
            == AddressStepView::<A>::Failed(ErrorView::ServerStartError(message@)),
{
}

/// A step of the search is seen as it is: as the same step, with the same texts,
/// port and address.
pub proof fn law_steps_of_the_search_are_seen_whole<A>(
    host: String,
    port: u16,
    warning: &'static str,
    text: String,
    address: A,
    error: TransportServerError,
)
    ensures
        (AddressStep::<A>::Lookup { host, port, warning: None })@ == (AddressStepView::<A>::Lookup {
            host: host@,
            port,
            warning: None,
        }),
        (AddressStep::<A>::Lookup { host, port, warning: Some(warning) })@ == (AddressStepView::<
            A,
        >::Lookup { host: host@, port, warning: Some(warning@) }),
        AddressStep::<A>::Parse(text)@ == AddressStepView::<A>::Parse(text@),
        AddressStep::Resolved(address)@ == AddressStepView::Resolved(address),
        AddressStep::<A>::Failed(error)@ == AddressStepView::<A>::Failed(error@),
{
}

/// An error is seen as it is: as the same error, with the same text.
pub proof fn law_errors_are_seen_whole<T>(text: String, value: T, error: TransportServerError)
    ensures
        TransportServerError::InvalidServerOptions(text)@ == ErrorView::InvalidServerOptions(text@),
        TransportServerError::ServerStartError(text)@ == ErrorView::ServerStartError(text@),
        TransportServerError::SslCertError(text)@ == ErrorView::SslCertError(text@),
        TransportServerError::SessionIdInvalid(text)@ == ErrorView::SessionIdInvalid(text@),
        outcome(Ok::<T, TransportServerError>(value)) == Ok::<T, ErrorView>(value),
        outcome(Err::<T, TransportServerError>(error)) == Err::<T, ErrorView>(error@),
{
}

/// The address that the search ends with is bound to the configured port whenever
/// the lookup and the reading of addresses are true to the port they are given: here
/// `port_of` tells the port of an address.
pub proof fn law_server_is_bound_to_the_configured_port<C: Components, A>(
    options: HyperServerOptions<C>,
    valid: TransportServerResult<()>,
    found: Result<Vec<A>, String>,
    parsed: Result<A, String>,
    port_of: spec_fn(A) -> u16,
    bound: A,
)
    requires
        options.first_step::<A>(outcome(valid)) matches AddressStepView::Lookup { port, .. } ==> (
        found matches Ok(addresses) ==> forall|i: int|
            0 <= i < addresses@.len() ==> port_of(#[trigger] addresses@[i]) == port),
        parsed matches Ok(address) ==> port_of(address) == options.port,
        crate::laws::answered(
            options,
            options.first_step::<A>(outcome(valid)),
            lookup_answer(found),
            parse_answer(parsed),
        ) == AddressStepView::Resolved(bound),
    ensures
        port_of(bound) == options.port,
{
}

} // verus!

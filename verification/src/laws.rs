use std::sync::Arc;

use rust_mcp_schema::TaskStatusNotificationParams;
use vstd::prelude::*;

use crate::address::{bare_host, step_after_lookup, step_after_parse, AddressStepView};
use crate::calls::{
    delivery, delivery_or_drop, lookup_result, RuntimeCall, SessionCall, SessionId, SessionLookup,
};
use crate::components::Components;
use crate::error::{outcome, ErrorView, SdkError, TransportServerResult};
use crate::files::may_answer;
use crate::options::{scheme, HyperServerOptions};
use crate::polling::{PollCall, PollStep, RpcFailure, TaskPoller};
use crate::runtime::{CreateStep, Creation, HyperRuntime, StartOutcome};
use crate::server::{availability, kept_options, middleware_chain, HyperServer, McpAppState};
use crate::serving::{
    action_result, next_step, step_after_action, ActionOutcome, ServeActionView, ServeStepView,
};
use crate::text::text_or;

pub mod assembly;
pub mod configuration;
pub mod delivery;
pub mod lifecycle;
pub mod messages;
pub mod running;
pub mod serving;
pub mod setup;
pub mod texts;

verus! {

/// The URLs of a server begin with `https://` exactly if connections are
/// encrypted, and with `http://` exactly if they are not, whatever the host.
pub proof fn law_scheme_tells_encryption<C: Components>(options: HyperServerOptions<C>)
    ensures
        "https://"@.is_prefix_of(options.base()) <==> options.enable_ssl,
        "http://"@.is_prefix_of(options.base()) <==> !options.enable_ssl,
{
    reveal_strlit("https://");
    reveal_strlit("http://");
    reveal_strlit("https");
    reveal_strlit("http");
    reveal_strlit("://");
    let url = options.base();
    let n: int = scheme(options.enable_ssl).len() as int + 3;
    assert(url.subrange(0, n) =~= scheme(options.enable_ssl) + "://"@);
    if options.enable_ssl {
        assert(url.subrange(0, 8) =~= "https://"@);
        assert(url[4] == 's');
        if "http://"@.is_prefix_of(url) {
            assert(url.subrange(0, 7)[4] == ':');
        }
    } else {
        assert(url.subrange(0, 7) =~= "http://"@);
        assert(url[4] == ':');
        if "https://"@.is_prefix_of(url) {
            assert(url.subrange(0, 8)[4] == 's');
        }
    }
}

/// A scheme before the host is ignored: whichever of the two schemes is put
/// before a text, it is that text which is looked up.
pub proof fn law_scheme_before_host_is_ignored(host: Seq<char>)
    ensures
        bare_host("http://"@ + host) == host,
        bare_host("https://"@ + host) == host,
{
    reveal_strlit("https://");
    reveal_strlit("http://");
    let plain = "http://"@ + host;
    assert(plain.subrange(0, 7) =~= "http://"@);
    assert(plain.skip(7) =~= host);
    let encrypted = "https://"@ + host;
    assert(encrypted.subrange(0, 8) =~= "https://"@);
    assert(encrypted.skip(8) =~= host);
    assert(encrypted[4] == 's');
    if "http://"@.is_prefix_of(encrypted) {
        assert(encrypted.subrange(0, 7)[4] == ':');
    }
}

/// A host without a scheme is looked up as it is.
pub proof fn law_host_without_scheme_is_kept(host: Seq<char>)
    requires
        !"http://"@.is_prefix_of(host),
        !"https://"@.is_prefix_of(host),
    ensures
        bare_host(host) == host,
{
}

/// A warning is due exactly if the host names one of the two schemes, but not that
/// of the server's URLs.
pub proof fn law_warned_of_the_other_scheme<C: Components>(options: HyperServerOptions<C>)
    ensures
        options.warning() is Some <==> ("http://"@.is_prefix_of(options.host@)
            || "https://"@.is_prefix_of(options.host@)) && !(scheme(options.enable_ssl)
            + "://"@).is_prefix_of(options.host@),
{
    reveal_strlit("https://");
    reveal_strlit("http://");
    reveal_strlit("https");
    reveal_strlit("http");
    reveal_strlit("://");
    assert("http"@ + "://"@ =~= "http://"@);
    assert("https"@ + "://"@ =~= "https://"@);
    let host = options.host@;
    if "http://"@.is_prefix_of(host) && "https://"@.is_prefix_of(host) {
        assert(host.subrange(0, 7)[4] == ':');
        assert(host.subrange(0, 8)[4] == 's');
    }
}

/// Options are valid exactly if they do not ask for encryption, or name both
/// files and both exist. Where there is no certificate, the key does not matter.
pub proof fn law_validation<C: Components>(
    options: HyperServerOptions<C>,
    cert_is_file: bool,
    key_is_file: bool,
)
    ensures
        options.validation(cert_is_file, key_is_file) is Ok <==> (options.enable_ssl ==> (
        options.ssl_cert_path is Some && options.ssl_key_path is Some && cert_is_file
            && key_is_file)),
        options.validation(cert_is_file, key_is_file) matches Err(error)
            ==> error is InvalidServerOptions,
        !cert_is_file ==> options.validation(cert_is_file, key_is_file) == options.validation(
            cert_is_file,
            !key_is_file,
        ),
{
}

/// Where SSL is enabled, options pass validation only if the file system has said
/// of each of the two paths, both given, that it names a file. Where SSL is not
/// enabled they pass, whatever the paths.
pub proof fn law_valid_only_with_files<C: Components>(options: HyperServerOptions<C>)
    ensures
        options.may_validate_as(Ok(())) <==> (options.enable_ssl ==> (options.ssl_cert_path is Some
            && options.ssl_key_path is Some && may_answer(options.ssl_cert_path->0@, true)
            && may_answer(options.ssl_key_path->0@, true))),
{
    if options.enable_ssl && options.ssl_paths_given() && may_answer(
        options.ssl_cert_path->0@,
        true,
    ) && may_answer(options.ssl_key_path->0@, true) {
        assert(options.validation(true, true) is Ok);
    }
}

/// The address that is found when every step of the search is answered: with
/// `found` where a lookup is asked for, with `parsed` where a text is to be read.
pub open spec fn answered<C: Components, A>(
    options: HyperServerOptions<C>,
    first: AddressStepView<A>,
    found: Result<Seq<A>, Seq<char>>,
    parsed: Result<A, Seq<char>>,
) -> AddressStepView<A> {
    let second = match first {
        AddressStepView::Lookup { .. } => step_after_lookup(options.host_and_port(), found),
        _ => first,
    };
    match second {
        AddressStepView::Parse(_) => step_after_parse(parsed),
        _ => second,
    }
}

/// The search for the address ends after at most two answers, and with what
/// `resolution` says.
pub proof fn law_search_ends_in_resolution<C: Components, A>(
    options: HyperServerOptions<C>,
    valid: Result<(), ErrorView>,
    found: Result<Seq<A>, Seq<char>>,
    parsed: Result<A, Seq<char>>,
)
    ensures
        answered(options, options.first_step::<A>(valid), found, parsed)
            == match options.resolution(valid, found, parsed) {
            Ok(address) => AddressStepView::Resolved(address),
            Err(error) => AddressStepView::Failed(error),
        },
{
}

/// There is an address exactly if the options are valid, the lookup succeeds,
/// and it finds an address or host and port can be read as one.
pub proof fn law_resolution_succeeds<C: Components, A>(
    options: HyperServerOptions<C>,
    valid: Result<(), ErrorView>,
    found: Result<Seq<A>, Seq<char>>,
    parsed: Result<A, Seq<char>>,
)
    ensures
        options.resolution(valid, found, parsed) is Ok <==> (valid is Ok && found is Ok && (
        found->Ok_0.len() > 0 || parsed is Ok)),
        options.resolution(valid, found, parsed) matches Ok(address) ==> (found->Ok_0.contains(
            address,
        ) || parsed == Ok::<A, Seq<char>>(address)),
{
    if valid is Ok && found is Ok && found->Ok_0.len() > 0 {
        assert(found->Ok_0.contains(found->Ok_0[0]));
    }
}

/// Requests are checked against DNS rebinding exactly if the options ask for it
/// and hold a list, and authenticated exactly if there is a provider. The check
/// against DNS rebinding comes first, and there are no other checks.
pub proof fn law_middlewares<C: Components>(options: HyperServerOptions<C>)
    ensures
        (exists|i: int|
            0 <= i < middleware_chain(options).len() && (
            #[trigger] middleware_chain(options)[i]) is DnsRebindProtector)
            <==> options.dns_protected(),
        (exists|i: int|
            0 <= i < middleware_chain(options).len() && (
            #[trigger] middleware_chain(options)[i]) is Auth) <==> options.auth is Some,
        forall|i: int|
            0 <= i < middleware_chain(options).len() && (
            #[trigger] middleware_chain(options)[i]) is DnsRebindProtector ==> i == 0,
        middleware_chain(options).len() == (if options.dns_protected() {
            1int
        } else {
            0
        }) + (if options.auth is Some {
            1int
        } else {
            0
        }),
{
    let chain = middleware_chain(options);
    if options.dns_protected() {
        assert(chain[0] is DnsRebindProtector);
    }
    if options.auth is Some {
        assert(chain[chain.len() - 1] is Auth);
    }
}

/// The options that a server keeps lead to the same URLs, the same paths, the
/// same verdict of validation and the same address as those that it was made
/// with, and ask as they do for encryption, for SSE and for signals to be watched.
pub proof fn law_server_keeps_what_is_served<C: Components, A>(options: HyperServerOptions<C>)
    ensures
        kept_options(options).base() == options.base(),
        kept_options(options).streamable_http_path() == options.streamable_http_path(),
        kept_options(options).sse_path() == options.sse_path(),
        kept_options(options).messages_path() == options.messages_path(),
        kept_options(options).host_and_port() == options.host_and_port(),
        kept_options(options).enable_ssl == options.enable_ssl,
        kept_options(options).ssl_cert_path == options.ssl_cert_path,
        kept_options(options).ssl_key_path == options.ssl_key_path,
        kept_options(options).sse_support == options.sse_support,
        kept_options(options).enable_signal_handler == options.enable_signal_handler,
        forall|valid: Result<(), ErrorView>|
            kept_options(options).first_step::<A>(valid) == #[trigger] options.first_step::<A>(
                valid,
            ),
        forall|cert_is_file: bool, key_is_file: bool|
            kept_options(options).validation(cert_is_file, key_is_file)
                == #[trigger] options.validation(cert_is_file, key_is_file),
{
}

/// The lists against DNS rebinding move into the check, so the options that a
/// server keeps no longer ask for one; and keeping them again changes nothing.
pub proof fn law_kept_options_hold_no_lists_in_use<C: Components>(options: HyperServerOptions<C>)
    ensures
        !kept_options(options).dns_protected(),
        kept_options(kept_options(options)) == kept_options(options),
{
}

/// Whether connections are encrypted or not, signals are watched exactly if the
/// options say so; the certificate is loaded exactly if they are encrypted, and
/// before anything is announced; the server is announced once, before it serves;
/// and serving is what comes last, once.
pub proof fn law_serving<C: Components>(
    server: HyperServer<C>,
    encrypted: bool,
    addr: Seq<char>,
)
    ensures
        (exists|i: int|
            0 <= i < server.serving(encrypted, addr).len() && (#[trigger] server.serving(
                encrypted,
                addr,
            )[i]) is WatchSignals) <==> server.options.enable_signal_handler,
        forall|i: int|
            0 <= i < server.serving(encrypted, addr).len() ==> ((#[trigger] server.serving(
                encrypted,
                addr,
            )[i]) is LoadTlsConfig <==> encrypted && i == 0),
        forall|i: int|
            0 <= i < server.serving(encrypted, addr).len() ==> ((#[trigger] server.serving(
                encrypted,
                addr,
            )[i]) is Announce <==> i == (if encrypted {
                1int
            } else {
                0
            })),
        forall|i: int|
            0 <= i < server.serving(encrypted, addr).len() ==> ((#[trigger] server.serving(
                encrypted,
                addr,
            )[i]) is Serve <==> i == server.serving(encrypted, addr).len() - 1),
{
    let steps = server.serving(encrypted, addr);
    let announced: int = if encrypted {
        1
    } else {
        0
    };
    if server.options.enable_signal_handler {
        assert(steps[announced + 1] is WatchSignals);
    }
}

/// What is served is the application of this server, at the address that it was
/// told, and through the same handle by which a signal stops it: on a signal the
/// sessions that end are those of this server.
pub proof fn law_server_serves_itself<C: Components>(
    server: HyperServer<C>,
    encrypted: bool,
    addr: Seq<char>,
    i: int,
)
    requires
        0 <= i < server.serving(encrypted, addr).len(),
    ensures
        match server.serving(encrypted, addr)[i] {
            ServeActionView::Serve { app, addr: bound, handle, encrypted: over_tls } => app
                == server.app && bound == addr && handle == server.handle && over_tls == encrypted,
            ServeActionView::WatchSignals { handle, state } => handle == server.handle && state
                == server.state,
            ServeActionView::Announce(text) => text == server.info(addr),
            ServeActionView::LoadTlsConfig { cert_path, key_path } => cert_path == text_or(
                server.options.ssl_cert_path,
                ""@,
            ) && key_path == text_or(server.options.ssl_key_path, ""@),
        },
{
}

/// What is performed, first to last, and how serving ends, where it goes on from
/// `step` and `outcomes` tells what comes of each action.
pub open spec fn performance<C: Components>(
    step: ServeStepView<C>,
    outcomes: spec_fn(ServeActionView<C>) -> ActionOutcome,
) -> (Seq<ServeActionView<C>>, Result<(), ErrorView>)
    decreases
        match step {
            ServeStepView::Perform { remaining, .. } => remaining.len() + 1,
            ServeStepView::Ended(_) => 0,
        },
{
    match step {
        ServeStepView::Perform { action, remaining } => {
            let (performed, result) = performance(
                step_after_action(remaining, outcomes(action)),
                outcomes,
            );
            (seq![action] + performed, result)
        },
        ServeStepView::Ended(result) => (seq![], result),
    }
}

/// Actions are performed in their order until one fails, and no further. Serving
/// ends well exactly if none fails, and then all are performed; otherwise it ends
/// with the reason for which the last one that was performed failed.
pub proof fn law_serving_ends_at_the_first_failure<C: Components>(
    list: Seq<ServeActionView<C>>,
    outcomes: spec_fn(ServeActionView<C>) -> ActionOutcome,
)
    ensures
        performance(next_step(list), outcomes).0.is_prefix_of(list),
        match performance(next_step(list), outcomes).1 {
            Ok(_) => performance(next_step(list), outcomes).0 == list && forall|i: int|
                0 <= i < list.len() ==> outcomes(#[trigger] list[i]) is Done,
            Err(error) => {
                let n = performance(next_step(list), outcomes).0.len();
                &&& 0 < n
                &&& action_result(outcomes(list[n - 1])) == Err::<(), ErrorView>(error)
                &&& forall|i: int| 0 <= i < n - 1 ==> outcomes(#[trigger] list[i]) is Done
            },
        },
    decreases list.len(),
{
    let (performed, result) = performance(next_step(list), outcomes);
    if list.len() > 0 {
        let rest = list.drop_first();
        match action_result(outcomes(list[0])) {
            Ok(_) => {
                law_serving_ends_at_the_first_failure(rest, outcomes);
                let tail = performance(next_step(rest), outcomes).0;
                assert(performed == seq![list[0]] + tail);
                assert(seq![list[0]] + rest =~= list);
                assert(performed =~= list.subrange(0, performed.len() as int)) by {
                    assert forall|i: int| 0 <= i < performed.len() implies performed[i]
                        == list[i] by {
                        if i > 0 {
                            assert(tail[i - 1] == rest.subrange(0, tail.len() as int)[i - 1]);
                        }
                    }
                }
                assert forall|i: int|
                    0 <= i < list.len() && (result is Ok || i < performed.len()
                        - 1) implies outcomes(#[trigger] list[i]) is Done by {
                    if i > 0 {
                        assert(list[i] == rest[i - 1]);
                    }
                }
            },
            Err(error) => {
                assert(performance(
                    ServeStepView::<C>::Ended(Err(error)),
                    outcomes,
                ).0 =~= seq![]);
                assert(performed =~= seq![list[0]]);
                assert(performed =~= list.subrange(0, 1));
            },
        }
    }
}

/// A server whose certificate or private key cannot be loaded performs nothing
/// else: it is not announced, watches no signals and binds to no address. Serving
/// ends with the reason.
pub proof fn law_nothing_is_served_without_the_certificate<C: Components>(
    server: HyperServer<C>,
    addr: Seq<char>,
    outcomes: spec_fn(ServeActionView<C>) -> ActionOutcome,
    message: String,
)
    requires
        outcomes(server.loading()) == ActionOutcome::TlsConfigFailed(message),
    ensures
        performance(next_step(server.serving(true, addr)), outcomes).0 == seq![server.loading()],
        performance(next_step(server.serving(true, addr)), outcomes).1 == Err::<(), ErrorView>(
            ErrorView::SslCertError(message@),
        ),
{
    let list = server.serving(true, addr);
    assert(list[0] == server.loading());
    law_serving_ends_at_the_first_failure(list, outcomes);
    let (performed, result) = performance(next_step(list), outcomes);
    let n = performed.len();
    if result is Ok || n > 1 {
        assert(outcomes(list[0]) is Done);
    }
    assert(performed =~= seq![server.loading()]) by {
        assert(performed[0] == list.subrange(0, n as int)[0]);
    }
}

/// Where nothing fails before the server is to serve, everything is performed, and
/// the result is that of serving: well exactly if the server was stopped.
pub proof fn law_result_is_that_of_serving<C: Components>(
    server: HyperServer<C>,
    encrypted: bool,
    addr: Seq<char>,
    outcomes: spec_fn(ServeActionView<C>) -> ActionOutcome,
)
    requires
        forall|i: int|
            0 <= i < server.serving(encrypted, addr).len() - 1 ==> outcomes(
                #[trigger] server.serving(encrypted, addr)[i],
            ) is Done,
    ensures
        performance(next_step(server.serving(encrypted, addr)), outcomes).0 == server.serving(
            encrypted,
            addr,
        ),
        performance(next_step(server.serving(encrypted, addr)), outcomes).1 == action_result(
            outcomes(server.serving(encrypted, addr).last()),
        ),
{
    let list = server.serving(encrypted, addr);
    law_serving_ends_at_the_first_failure(list, outcomes);
    let (performed, result) = performance(next_step(list), outcomes);
    let n = performed.len();
    match result {
        Ok(nothing) => {
            assert(nothing == ());
            assert(outcomes(list[list.len() - 1]) is Done);
        },
        Err(_) => {
            if n < list.len() {
                assert(outcomes(list[n - 1]) is Done);
            }
            assert(performed =~= list);
        },
    }
}

/// The description of a server always begins with where streamable HTTP is
/// available, and goes on, with where SSE is available, exactly if the server was
/// built with SSE and its options support it.
pub proof fn law_info<C: Components>(server: HyperServer<C>, addr: Seq<char>)
    ensures
        availability(
            "\n• Streamable HTTP "@,
            server.options.enable_ssl,
            addr,
            server.options.streamable_http_path(),
        ).is_prefix_of(server.info(addr)),
        server.info(addr) != availability(
            "\n• Streamable HTTP "@,
            server.options.enable_ssl,
            addr,
            server.options.streamable_http_path(),
        ) <==> server.features.sse && server.options.sse_support,
{
    reveal_strlit("\n• SSE ");
    let line = availability(
        "\n• Streamable HTTP "@,
        server.options.enable_ssl,
        addr,
        server.options.streamable_http_path(),
    );
    assert(server.info(addr).subrange(0, line.len() as int) =~= line);
    if server.features.sse && server.options.sse_support {
        assert(server.info(addr).len() > line.len());
    }
}

/// The runtime of a server stops that server: its handle is the one through which
/// the server is served.
pub proof fn law_runtime_stops_its_server<C: Components>(
    server: HyperServer<C>,
    addr: Seq<char>,
    i: int,
    creation: Creation<C>,
    server_task: C::ServerTask,
)
    requires
        creation.server_handle == server.handle,
        0 <= i < server.serving(server.options.enable_ssl, addr).len(),
        server.serving(server.options.enable_ssl, addr)[i] is Serve,
    ensures
        server.serving(server.options.enable_ssl, addr)[i]->Serve_handle == creation.runtime(
            server_task,
        ).server_handle,
{
}

/// Whether `listed` lists the ids of the live sessions, each once.
pub open spec fn lists_sessions<R>(listed: Seq<Seq<char>>, live: Map<Seq<char>, R>) -> bool {
    &&& listed.no_duplicates()
    &&& forall|id: Seq<char>| listed.contains(id) <==> #[trigger] live.contains_key(id)
}

/// The runtime of the session with the given id, if the session is live.
pub open spec fn live_runtime<R>(live: Map<Seq<char>, R>, session_id: Seq<char>) -> Option<R> {
    if live.contains_key(session_id) {
        Some(live[session_id])
    } else {
        None
    }
}

/// As long as no session begins or ends, a session is listed exactly if looking it
/// up finds its runtime, and exactly if calls to it are not refused; and there are as
/// many ids in the list as there are live sessions. Here `live` tells which sessions
/// a store holds, `store` is the one that `HyperRuntime::sessions` names and `listed`
/// is what it lists; the store answers a lookup by what it holds.
pub proof fn law_listed_exactly_if_found<C: Components>(
    runtime: HyperRuntime<C>,
    live: spec_fn(Arc<C::SessionStore>) -> Map<Seq<char>, Arc<C::SessionRuntime>>,
    store: Arc<C::SessionStore>,
    listed: Seq<Seq<char>>,
    lookup: SessionLookup<C>,
    session_id: Seq<char>,
    call: RuntimeCall,
)
    requires
        store == runtime.state.session_store,
        lists_sessions(listed, live(store)),
        runtime.looks_up(lookup, session_id),
    ensures
        listed.contains(session_id) <==> lookup_result(
            lookup.session_id@,
            live_runtime(live(lookup.session_store), lookup.session_id@),
        ) is Ok,
        listed.contains(session_id) <==> delivery(
            lookup.session_id@,
            call,
            live_runtime(live(lookup.session_store), lookup.session_id@),
        ) is Ok,
        listed.len() == live(store).dom().len(),
{
    listed.unique_seq_to_set();
    assert(listed.to_set() =~= live(store).dom()) by {
        assert forall|id: Seq<char>| listed.to_set().contains(id) <==> live(store).dom().contains(
            id,
        ) by {
            assert(listed.contains(id) <==> live(store).contains_key(id));
        }
    }
    assert(listed.contains(session_id) <==> live(store).contains_key(session_id));
}

/// A call to a session is refused exactly if the session is not found. The
/// refusal names the session, and looking the session up says the same; a call
/// that is not refused reaches the runtime that was found, unchanged.
pub proof fn law_refused_exactly_without_session<R>(
    session_id: Seq<char>,
    call: RuntimeCall,
    found: Option<R>,
)
    ensures
        delivery(session_id, call, found) is Err <==> found is None,
        delivery(session_id, call, found) is Err ==> delivery(session_id, call, found)->Err_0
            == ErrorView::SessionIdInvalid(session_id),
        delivery(session_id, call, found) == match lookup_result(session_id, found) {
            Ok(runtime) => Ok::<(R, RuntimeCall), ErrorView>((runtime, call)),
            Err(error) => Err(error),
        },
{
}

/// Two messages that address the same call to the same session of a server, such
/// as one sent under a former name and one sent under the present name, fare
/// alike: they are looked up in the same store, and the same becomes of them
/// whatever is found.
pub proof fn law_same_address_same_fate<C: Components, R>(
    runtime: HyperRuntime<C>,
    one: SessionCall<C>,
    other: SessionCall<C>,
    session_id: Seq<char>,
    call: RuntimeCall,
    found: Option<R>,
)
    requires
        runtime.addresses(one, session_id, call),
        runtime.addresses(other, session_id, call),
    ensures
        one.lookup.session_store == other.lookup.session_store,
        delivery(one.lookup.session_id@, one.call, found) == delivery(
            other.lookup.session_id@,
            other.call,
            found,
        ),
{
}

/// A status change is told exactly if the task belongs to a session and that
/// session is found: then its runtime sends what was reported, looked up in the
/// store of this server.
pub proof fn law_status_changes_reach_live_sessions<C: Components, R>(
    state: McpAppState<C>,
    params: TaskStatusNotificationParams,
    session_id: Option<SessionId>,
    found: Option<R>,
)
    ensures
        match state.status_notification(params, session_id) {
            Some(sent) => {
                &&& session_id == Some(sent.lookup.session_id)
                &&& sent.lookup.session_store == state.session_store
                &&& delivery_or_drop(sent.call, found) == match found {
                    Some(runtime) => Some((runtime, RuntimeCall::NotifyTaskStatus(params))),
                    None => None,
                }
            },
            None => session_id is None,
        },
{
}

/// The status of a task is asked for exactly if the task belongs to a session and
/// that session is found: then its runtime asks, for that very task, and reports to
/// the store of the poller. Otherwise the request is refused as invalid.
pub proof fn law_polling_needs_a_live_session<C: Components>(
    poller: TaskPoller<C>,
    task_id: String,
    session_id: Option<SessionId>,
    step: PollStep<C>,
    found: Option<Arc<C::SessionRuntime>>,
    r: Result<PollCall<C>, RpcFailure>,
)
    requires
        poller.begins(task_id, session_id, step),
        match step {
            PollStep::LookUp(pending) => pending.ends(found, r),
            PollStep::Refused(failure) => r == Err::<PollCall<C>, RpcFailure>(failure),
        },
    ensures
        r is Ok <==> session_id is Some && found is Some,
        r matches Ok(call) ==> {
            &&& Some(call.runtime) == found
            &&& call.task_id == task_id
            &&& call.session_id == session_id
            &&& call.client_task_store == poller.client_task_store
        },
        r matches Err(failure) ==> failure.code == -32600,
{
}

/// The step that bringing a server up has reached once the task store has been
/// asked for a subscription, if there is one to ask.
pub open spec fn subscription_settled<C: Components>(
    creation: Creation<C>,
    server_task: C::ServerTask,
    subscribed: bool,
) -> CreateStep<C> {
    match creation.spawned_step(server_task) {
        CreateStep::Subscribe { server_task, .. } => creation.subscribed_step(
            server_task,
            subscribed,
        ),
        step => step,
    }
}

/// The step that it has reached once status changes are being forwarded, if they
/// are.
pub open spec fn forwarding_settled<C: Components>(
    creation: Creation<C>,
    server_task: C::ServerTask,
    subscribed: bool,
) -> CreateStep<C> {
    match subscription_settled(creation, server_task, subscribed) {
        CreateStep::ForwardStatusChanges { server_task } => creation.polling_step(server_task),
        step => step,
    }
}

/// The step that it ends with once the outcome of polling is known, if polling
/// was asked for.
pub open spec fn creation_settled<C: Components>(
    creation: Creation<C>,
    server_task: C::ServerTask,
    subscribed: bool,
    polling: Result<(), C::PollingError>,
) -> CreateStep<C> {
    match forwarding_settled(creation, server_task, subscribed) {
        CreateStep::StartPolling { server_task, .. } => creation.polled_step(server_task, polling),
        step => step,
    }
}

/// Once the server is spawned, a runtime is created for it, unless it has a store
/// of client tasks that cannot be polled. The runtime has the state, the handle and
/// the task of this server.
pub proof fn law_creation_ends<C: Components>(
    creation: Creation<C>,
    server_task: C::ServerTask,
    subscribed: bool,
    polling: Result<(), C::PollingError>,
)
    ensures
        creation_settled(creation, server_task, subscribed, polling) == (
        if creation.state.client_task_store is Some && polling is Err {
            CreateStep::<C>::Failed(SdkError::TaskPolling(polling->Err_0))
        } else {
            CreateStep::<C>::Created(creation.runtime(server_task))
        }),
{
}

/// Starting a server that was spawned gives a runtime, the one created for it,
/// exactly if the server has started and its client tasks, if it keeps track of
/// any, can be polled.
pub proof fn law_runtime_exactly_of_a_started_server<C: Components>(
    creation: Creation<C>,
    server_task: C::ServerTask,
    subscribed: bool,
    polling: Result<(), C::PollingError>,
    start: StartOutcome<C>,
    r: Result<HyperRuntime<C>, SdkError<C>>,
)
    requires
        match creation_settled(creation, server_task, subscribed, polling) {
            CreateStep::Created(runtime) => r == start.result(runtime),
            CreateStep::Failed(error) => r == Err::<HyperRuntime<C>, SdkError<C>>(error),
            _ => true,
        },
    ensures
        r is Ok <==> start.reason() is None && (creation.state.client_task_store is Some
            ==> polling is Ok),
        r matches Ok(runtime) ==> runtime == creation.runtime(server_task),
{
}

/// A server that cannot load its certificate, cannot be bound, or breaks down before
/// it is seen to listen, gives that reason instead of a runtime; one that was stopped
/// had started.
pub proof fn law_failed_server_gives_the_reason<C: Components>(
    step: ServeStepView<C>,
    outcomes: spec_fn(ServeActionView<C>) -> ActionOutcome,
    served: TransportServerResult<()>,
    runtime: HyperRuntime<C>,
)
    requires
        outcome(served) == performance(step, outcomes).1,
    ensures
        match performance(step, outcomes).1 {
            Ok(_) => StartOutcome::<C>::Ended(Ok(served)).result(runtime) == Ok::<
                HyperRuntime<C>,
                SdkError<C>,
            >(runtime),
            Err(reason) => StartOutcome::<C>::Ended(Ok(served)).result(runtime) matches Err(
                SdkError::Transport(error),
            ) && error@ == reason,
        },
{
}

/// Status changes are forwarded exactly if there is a task store that offers a
/// subscription, and clients are polled exactly if there is a store of client
/// tasks, whether or not status changes are forwarded.
pub proof fn law_creation_sets_up_tasks<C: Components>(
    creation: Creation<C>,
    server_task: C::ServerTask,
    subscribed: bool,
)
    ensures
        subscription_settled(creation, server_task, subscribed) is ForwardStatusChanges <==> (
        creation.state.task_store is Some && subscribed),
        forwarding_settled(creation, server_task, subscribed) is StartPolling
            <==> creation.state.client_task_store is Some,
        forwarding_settled(creation, server_task, subscribed) matches CreateStep::StartPolling {
            poller,
            ..
        } ==> Some(poller.client_task_store) == creation.state.client_task_store
            && poller.session_store == creation.state.session_store,
{
}

/// A runtime that comes out of a server made with some options hands out the task
/// stores of those options.
pub proof fn law_runtime_has_configured_stores<C: Components>(
    options: HyperServerOptions<C>,
    server: HyperServer<C>,
    creation: Creation<C>,
    server_task: C::ServerTask,
)
    requires
        server.state.set_up_by(options),
        creation.state == server.state,
    ensures
        creation.runtime(server_task).state.task_store == options.task_store,
        creation.runtime(server_task).state.client_task_store == options.client_task_store,
{
}

} // verus!

//! Choosing how to reach a server: one that is already running, or a local
//! one spawned for the occasion.
//!
//! The choice needs outside work at several points: reading the stored
//! address, probing a server, finding a port, spawning a process.  The
//! resolver therefore advances one event at a time: each call takes the
//! answer to the last request and returns the next request or the choice.

use crate::chars::opt_string_view;
use crate::text::{decimal_string, decimal_text, parse_port, port_of_text};
use vstd::prelude::*;
use vstd::string::StringExecFns;

verus! {

/// How the server is reached.
#[derive(Debug, PartialEq, Eq)]
pub enum ServerConnection<C> {
    /// A server that was already running at `url`.
    Existing { url: String },
    /// A local server spawned as `child`, reachable at `url` with
    /// `password`.  Its health has not been checked yet.
    CLI { url: String, password: String, child: C },
}

/// Mathematical content of a [`ServerConnection`].
pub enum ServerConnectionView<C> {
    Existing { url: Seq<char> },
    CLI { url: Seq<char>, password: Seq<char>, child: C },
}

impl<C> View for ServerConnection<C> {
    type V = ServerConnectionView<C>;

    open spec fn view(&self) -> ServerConnectionView<C> {
        match *self {
            ServerConnection::Existing { url } => ServerConnectionView::Existing { url: url@ },
            ServerConnection::CLI { url, password, child } => ServerConnectionView::CLI {
                url: url@,
                password: password@,
                child,
            },
        }
    }
}

/// Where the resolver stands.
#[derive(Debug, PartialEq, Eq)]
pub enum ResolverState {
    /// Nothing has been asked yet.
    Start,
    /// The stored server address has been asked for.
    AwaitingCustomUrl,
    /// The stored server at `url` is being probed; `retried` says whether
    /// this is the second probe, made at the user's wish.
    ProbingCustom { url: String, retried: bool },
    /// The stored server at `url` was not healthy and the user has been
    /// asked whether to try once more.
    AskingRetry { url: String },
    /// The configured port has been asked for.
    AwaitingPortOverride,
    /// A free port has been asked for.
    AwaitingEphemeralPort,
    /// The local server at `url`, on `port`, is being probed.
    ProbingLocal { port: u32, url: String },
    /// A local server for `url` is being spawned with `password`.
    Spawning { url: String, password: String },
    /// The resolver has answered and takes no further events.
    Resolved,
}

/// Mathematical content of a [`ResolverState`].
pub enum ResolverStateView {
    Start,
    AwaitingCustomUrl,
    ProbingCustom { url: Seq<char>, retried: bool },
    AskingRetry { url: Seq<char> },
    AwaitingPortOverride,
    AwaitingEphemeralPort,
    ProbingLocal { port: u32, url: Seq<char> },
    Spawning { url: Seq<char>, password: Seq<char> },
    Resolved,
}

impl View for ResolverState {
    type V = ResolverStateView;

    open spec fn view(&self) -> ResolverStateView {
        match *self {
            ResolverState::Start => ResolverStateView::Start,
            ResolverState::AwaitingCustomUrl => ResolverStateView::AwaitingCustomUrl,
            ResolverState::ProbingCustom { url, retried } => ResolverStateView::ProbingCustom {
                url: url@,
                retried,
            },
            ResolverState::AskingRetry { url } => ResolverStateView::AskingRetry { url: url@ },
            ResolverState::AwaitingPortOverride => ResolverStateView::AwaitingPortOverride,
            ResolverState::AwaitingEphemeralPort => ResolverStateView::AwaitingEphemeralPort,
            ResolverState::ProbingLocal { port, url } => ResolverStateView::ProbingLocal {
                port,
                url: url@,
            },
            ResolverState::Spawning { url, password } => ResolverStateView::Spawning {
                url: url@,
                password: password@,
            },
            ResolverState::Resolved => ResolverStateView::Resolved,
        }
    }
}

/// The answer to a request of the resolver.
#[derive(Debug, PartialEq, Eq)]
pub enum ResolverEvent<C> {
    /// Start resolving.
    Begin,
    /// The stored server address, if one is stored.
    CustomUrl(Option<String>),
    /// Whether the probed server is healthy.
    Health(bool),
    /// Whether the user wants the stored server tried once more.
    Retry(bool),
    /// The port configured when the program was built and the one
    /// configured in the environment it runs in, as far as they are set.
    PortOverride { build_time: Option<String>, run_time: Option<String> },
    /// A port that was free a moment ago.
    EphemeralPort(u16),
    /// The server process has been spawned.
    Spawned(C),
    /// The server process could not be spawned, and why.
    SpawnFailed(String),
}

/// Mathematical content of a [`ResolverEvent`].
pub enum ResolverEventView<C> {
    Begin,
    CustomUrl(Option<Seq<char>>),
    Health(bool),
    Retry(bool),
    PortOverride { build_time: Option<Seq<char>>, run_time: Option<Seq<char>> },
    EphemeralPort(u16),
    Spawned(C),
    SpawnFailed(Seq<char>),
}

impl<C> View for ResolverEvent<C> {
    type V = ResolverEventView<C>;

    open spec fn view(&self) -> ResolverEventView<C> {
        match *self {
            ResolverEvent::Begin => ResolverEventView::Begin,
            ResolverEvent::CustomUrl(url) => ResolverEventView::CustomUrl(opt_string_view(url)),
            ResolverEvent::Health(healthy) => ResolverEventView::Health(healthy),
            ResolverEvent::Retry(again) => ResolverEventView::Retry(again),
            ResolverEvent::PortOverride { build_time, run_time } => ResolverEventView::PortOverride {
                build_time: opt_string_view(build_time),
                run_time: opt_string_view(run_time),
            },
            ResolverEvent::EphemeralPort(port) => ResolverEventView::EphemeralPort(port),
            ResolverEvent::Spawned(child) => ResolverEventView::Spawned(child),
            ResolverEvent::SpawnFailed(reason) => ResolverEventView::SpawnFailed(reason@),
        }
    }
}

/// Outside work that the resolver asks for.
#[derive(Debug, PartialEq, Eq)]
pub enum ResolverRequest {
    /// Read the stored server address; answer with `CustomUrl`.
    FetchCustomUrl,
    /// Probe the server at `url` once, without a credential; answer with
    /// `Health`.
    CheckHealth { url: String },
    /// Tell the user that the stored server at `url` is not healthy and ask
    /// whether to try it once more; answer with `Retry`.
    AskRetry { url: String },
    /// Read the configured port; answer with `PortOverride`.
    ReadPortOverride,
    /// Bind a free local port, read its number and release it; answer with
    /// `EphemeralPort`.
    BindEphemeralPort,
    /// Spawn the server on `hostname` and `port`, protected by `password`;
    /// answer with `Spawned` or `SpawnFailed`.
    Spawn { hostname: String, port: u32, password: String },
}

/// Mathematical content of a [`ResolverRequest`].
pub enum ResolverRequestView {
    FetchCustomUrl,
    CheckHealth { url: Seq<char> },
    AskRetry { url: Seq<char> },
    ReadPortOverride,
    BindEphemeralPort,
    Spawn { hostname: Seq<char>, port: u32, password: Seq<char> },
}

impl View for ResolverRequest {
    type V = ResolverRequestView;

    open spec fn view(&self) -> ResolverRequestView {
        match *self {
            ResolverRequest::FetchCustomUrl => ResolverRequestView::FetchCustomUrl,
            ResolverRequest::CheckHealth { url } => ResolverRequestView::CheckHealth { url: url@ },
            ResolverRequest::AskRetry { url } => ResolverRequestView::AskRetry { url: url@ },
            ResolverRequest::ReadPortOverride => ResolverRequestView::ReadPortOverride,
            ResolverRequest::BindEphemeralPort => ResolverRequestView::BindEphemeralPort,
            ResolverRequest::Spawn { hostname, port, password } => ResolverRequestView::Spawn {
                hostname: hostname@,
                port,
                password: password@,
            },
        }
    }
}

/// What the resolver answers to an event.
#[derive(Debug, PartialEq, Eq)]
pub enum Resolution<C> {
    /// Outside work is needed before the choice can be made.
    Request(ResolverRequest),
    /// The choice is made.
    Connected(ServerConnection<C>),
    /// No server is reachable and none could be spawned; the payload says why.
    SpawnFailed(String),
    /// The event does not answer what the resolver asked; nothing changed.
    Unexpected,
}

/// Mathematical content of a [`Resolution`].
pub enum ResolutionView<C> {
    Request(ResolverRequestView),
    Connected(ServerConnectionView<C>),
    SpawnFailed(Seq<char>),
    Unexpected,
}

impl<C> View for Resolution<C> {
    type V = ResolutionView<C>;

    open spec fn view(&self) -> ResolutionView<C> {
        match *self {
            Resolution::Request(request) => ResolutionView::Request(request@),
            Resolution::Connected(connection) => ResolutionView::Connected(connection@),
            Resolution::SpawnFailed(reason) => ResolutionView::SpawnFailed(reason@),
            Resolution::Unexpected => ResolutionView::Unexpected,
        }
    }
}

/// The address on which a spawned server listens.
pub open spec fn local_hostname() -> Seq<char> {
    "127.0.0.1"@
}

/// The address of the server on `hostname` and `port`.
pub open spec fn server_url_text(hostname: Seq<char>, port: u32) -> Seq<char> {
    "http://"@ + hostname + ":"@ + decimal_text(port as nat)
}

/// The configured port: the build-time setting decides alone when it is
/// there, even if it is no port number; the run-time setting is read only
/// without a build-time one.
pub open spec fn configured_port(build_time: Option<Seq<char>>, run_time: Option<Seq<char>>)
    -> Option<u16> {
    match build_time {
        Some(text) => port_of_text(text),
        None => match run_time {
            Some(text) => port_of_text(text),
            None => None,
        },
    }
}

/// The step that probes for a local server on `port`.
pub open spec fn probe_local<C>(port: u32) -> (ResolverStateView, ResolutionView<C>) {
    let url = server_url_text(local_hostname(), port);
    (
        ResolverStateView::ProbingLocal { port, url },
        ResolutionView::Request(ResolverRequestView::CheckHealth { url }),
    )
}

/// The step that goes on to the local port once no stored server is in
/// reach.
pub open spec fn ask_port<C>() -> (ResolverStateView, ResolutionView<C>) {
    (
        ResolverStateView::AwaitingPortOverride,
        ResolutionView::Request(ResolverRequestView::ReadPortOverride),
    )
}

/// Whether `event` in `state` makes the resolver spawn a server, which is
/// when it needs a fresh password.
pub open spec fn spawns<C>(state: ResolverStateView, event: ResolverEventView<C>) -> bool {
    state is ProbingLocal && event == ResolverEventView::<C>::Health(false)
}

/// The resolver's transition: the state and the answer that follow when
/// `event` arrives in `state`.  `password` is the credential given to a
/// server if this step spawns one.
///
/// A stored server is tried first, and once more if it is not healthy and
/// the user wants it so; if there is none, or it stays unhealthy, the local
/// port is found and probed; only if nothing healthy listens there is a
/// server spawned.  An event that does not answer the pending request
/// changes nothing.
pub open spec fn resolve<C>(
    state: ResolverStateView,
    event: ResolverEventView<C>,
    password: Seq<char>,
) -> (ResolverStateView, ResolutionView<C>) {
    match (state, event) {
        (ResolverStateView::Start, ResolverEventView::Begin) => (
            ResolverStateView::AwaitingCustomUrl,
            ResolutionView::Request(ResolverRequestView::FetchCustomUrl),
        ),
        (ResolverStateView::AwaitingCustomUrl, ResolverEventView::CustomUrl(Some(url))) => (
            ResolverStateView::ProbingCustom { url, retried: false },
            ResolutionView::Request(ResolverRequestView::CheckHealth { url }),
        ),
        (ResolverStateView::AwaitingCustomUrl, ResolverEventView::CustomUrl(None)) => ask_port(),
        (ResolverStateView::ProbingCustom { url, retried }, ResolverEventView::Health(healthy)) => {
            if healthy {
                (
                    ResolverStateView::Resolved,
                    ResolutionView::Connected(ServerConnectionView::Existing { url }),
                )
            } else if retried {
                ask_port()
            } else {
                (
                    ResolverStateView::AskingRetry { url },
                    ResolutionView::Request(ResolverRequestView::AskRetry { url }),
                )
            }
        },
        (ResolverStateView::AskingRetry { url }, ResolverEventView::Retry(again)) => if again {
            (
                ResolverStateView::ProbingCustom { url, retried: true },
                ResolutionView::Request(ResolverRequestView::CheckHealth { url }),
            )
        } else {
            ask_port()
        },
        (
            ResolverStateView::AwaitingPortOverride,
            ResolverEventView::PortOverride { build_time, run_time },
        ) => match configured_port(build_time, run_time) {
            Some(port) => probe_local(port as u32),
            None => (
                ResolverStateView::AwaitingEphemeralPort,
                ResolutionView::Request(ResolverRequestView::BindEphemeralPort),
            ),
        },
        (ResolverStateView::AwaitingEphemeralPort, ResolverEventView::EphemeralPort(port)) => {
            probe_local(port as u32)
        },
        (ResolverStateView::ProbingLocal { port, url }, ResolverEventView::Health(healthy)) => {
            if healthy {
                (
                    ResolverStateView::Resolved,
                    ResolutionView::Connected(ServerConnectionView::Existing { url }),
                )
            } else {
                (
                    ResolverStateView::Spawning { url, password },
                    ResolutionView::Request(
                        ResolverRequestView::Spawn { hostname: local_hostname(), port, password },
                    ),
                )
            }
        },
        (ResolverStateView::Spawning { url, password: given }, ResolverEventView::Spawned(child)) => (
            ResolverStateView::Resolved,
            ResolutionView::Connected(ServerConnectionView::CLI { url, password: given, child }),
        ),
        (ResolverStateView::Spawning { .. }, ResolverEventView::SpawnFailed(reason)) => (
            ResolverStateView::Resolved,
            ResolutionView::SpawnFailed(reason),
        ),
        _ => (state, ResolutionView::Unexpected),
    }
}

/// Whether `c` is a decimal digit or one of `a` to `f`.
pub open spec fn is_lower_hex(c: char) -> bool {
    ('0' <= c && c <= '9') || ('a' <= c && c <= 'f')
}

/// The text of a random (version 4) UUID: 32 lower-case hexadecimal digits in
/// groups of 8, 4, 4, 4 and 12 with a hyphen between the groups, where the
/// third group starts with `4` and the fourth with `8`, `9`, `a` or `b`.
pub open spec fn is_random_uuid_text(text: Seq<char>) -> bool {
    &&& text.len() == 36
    &&& forall|i: int|
        0 <= i < 36 ==> if i == 8 || i == 13 || i == 18 || i == 23 {
            #[trigger] text[i] == '-'
        } else {
            is_lower_hex(text[i])
        }
    &&& text[14] == '4'
    &&& (text[19] == '8' || text[19] == '9' || text[19] == 'a' || text[19] == 'b')
}

/// Calls `uuid::Uuid::new_v4` and writes the result with the `Display` of
/// `uuid::Uuid`.  The contract claims the shape of the text and nothing about
/// which UUID it is: `new_v4` draws 128 random bits and overwrites the
/// version and variant bits, and `Display` prints the hyphenated lower-case
/// form.  `new_v4` gives up only when the operating system has no random
/// bytes to offer.
#[verifier::external_body]
fn random_uuid_text() -> (text: String)
    ensures
        is_random_uuid_text(text@),
{
    uuid::Uuid::new_v4().to_string()
}

/// A fresh password for a server about to be spawned.
pub fn generate_password() -> (password: String)
    ensures
        is_random_uuid_text(password@),
{
    random_uuid_text()
}

/// Builds the address of the server on `hostname` and `port`.
pub fn server_url(hostname: &str, port: u32) -> (url: String)
    ensures
        url@ == server_url_text(hostname@, port),
{
    let mut url = String::from_str("http://");
    url.append(hostname);
    url.append(":");
    let number = decimal_string(port);
    url.append(number.as_str());
    url
}

/// The port configured for the local server, if a valid one is configured.
pub fn get_sidecar_port(build_time: &Option<String>, run_time: &Option<String>) -> (port: Option<
    u16,
>)
    ensures
        port == configured_port(opt_string_view(*build_time), opt_string_view(*run_time)),
{
    match build_time {
        Some(text) => parse_port(text.as_str()),
        None => match run_time {
            Some(text) => parse_port(text.as_str()),
            None => None,
        },
    }
}

/// Goes on to probe for a local server on `port`.
fn start_local_probe<C>(port: u32) -> (next: (ResolverState, Resolution<C>))
    ensures
        (next.0@, next.1@) == probe_local::<C>(port),
{
    let url = server_url("127.0.0.1", port);
    let probed = url.clone();
    (
        ResolverState::ProbingLocal { port, url },
        Resolution::Request(ResolverRequest::CheckHealth { url: probed }),
    )
}

/// Advances the resolver by one event, with `password` as the credential for
/// a server that this step may spawn.
pub fn setup_server_connection_with<C>(
    state: ResolverState,
    event: ResolverEvent<C>,
    password: String,
) -> (next: (ResolverState, Resolution<C>))
    ensures
        (next.0@, next.1@) == resolve(state@, event@, password@),
{
    match state {
        ResolverState::Start => match event {
            ResolverEvent::Begin => (
                ResolverState::AwaitingCustomUrl,
                Resolution::Request(ResolverRequest::FetchCustomUrl),
            ),
            _ => (ResolverState::Start, Resolution::Unexpected),
        },
        ResolverState::AwaitingCustomUrl => match event {
            ResolverEvent::CustomUrl(Some(url)) => {
                let probed = url.clone();
                (
                    ResolverState::ProbingCustom { url, retried: false },
                    Resolution::Request(ResolverRequest::CheckHealth { url: probed }),
                )
            },
            ResolverEvent::CustomUrl(None) => (
                ResolverState::AwaitingPortOverride,
                Resolution::Request(ResolverRequest::ReadPortOverride),
            ),
            _ => (ResolverState::AwaitingCustomUrl, Resolution::Unexpected),
        },
        ResolverState::ProbingCustom { url, retried } => match event {
            ResolverEvent::Health(true) => (
                ResolverState::Resolved,
                Resolution::Connected(ServerConnection::Existing { url }),
            ),
            ResolverEvent::Health(false) => if retried {
                (
                    ResolverState::AwaitingPortOverride,
                    Resolution::Request(ResolverRequest::ReadPortOverride),
                )
            } else {
                let asked = url.clone();
                (
                    ResolverState::AskingRetry { url },
                    Resolution::Request(ResolverRequest::AskRetry { url: asked }),
                )
            },
            _ => (ResolverState::ProbingCustom { url, retried }, Resolution::Unexpected),
        },
        ResolverState::AskingRetry { url } => match event {
            ResolverEvent::Retry(true) => {
                let probed = url.clone();
                (
                    ResolverState::ProbingCustom { url, retried: true },
                    Resolution::Request(ResolverRequest::CheckHealth { url: probed }),
                )
            },
            ResolverEvent::Retry(false) => (
                ResolverState::AwaitingPortOverride,
                Resolution::Request(ResolverRequest::ReadPortOverride),
            ),
            _ => (ResolverState::AskingRetry { url }, Resolution::Unexpected),
        },
        ResolverState::AwaitingPortOverride => match event {
            ResolverEvent::PortOverride { build_time, run_time } => {
                match get_sidecar_port(&build_time, &run_time) {
                    Some(port) => start_local_probe(port as u32),
                    None => (
                        ResolverState::AwaitingEphemeralPort,
                        Resolution::Request(ResolverRequest::BindEphemeralPort),
                    ),
                }
            },
            _ => (ResolverState::AwaitingPortOverride, Resolution::Unexpected),
        },
        ResolverState::AwaitingEphemeralPort => match event {
            ResolverEvent::EphemeralPort(port) => start_local_probe(port as u32),
            _ => (ResolverState::AwaitingEphemeralPort, Resolution::Unexpected),
        },
        ResolverState::ProbingLocal { port, url } => match event {
            ResolverEvent::Health(true) => (
                ResolverState::Resolved,
                Resolution::Connected(ServerConnection::Existing { url }),
            ),
            ResolverEvent::Health(false) => {
                let given = password.clone();
                (
                    ResolverState::Spawning { url, password },
                    Resolution::Request(
                        ResolverRequest::Spawn {
                            hostname: String::from_str("127.0.0.1"),
                            port,
                            password: given,
                        },
                    ),
                )
            },
            _ => (ResolverState::ProbingLocal { port, url }, Resolution::Unexpected),
        },
        ResolverState::Spawning { url, password: given } => match event {
            ResolverEvent::Spawned(child) => (
                ResolverState::Resolved,
                Resolution::Connected(ServerConnection::CLI { url, password: given, child }),
            ),
            ResolverEvent::SpawnFailed(reason) => (
                ResolverState::Resolved,
                Resolution::SpawnFailed(reason),
            ),
            _ => (ResolverState::Spawning { url, password: given }, Resolution::Unexpected),
        },
        ResolverState::Resolved => (ResolverState::Resolved, Resolution::Unexpected),
    }
}

/// Whether `event` in `state` makes the resolver spawn a server.
pub fn needs_password<C>(state: &ResolverState, event: &ResolverEvent<C>) -> (needed: bool)
    ensures
        needed == spawns(state@, event@),
{
    match state {
        ResolverState::ProbingLocal { .. } => match event {
            ResolverEvent::Health(false) => true,
            _ => false,
        },
        _ => false,
    }
}

/// A step that spawns no server does not depend on the password.
pub proof fn lemma_password_only_matters_when_spawning<C>(
    state: ResolverStateView,
    event: ResolverEventView<C>,
    first: Seq<char>,
    second: Seq<char>,
)
    requires
        !spawns(state, event),
    ensures
        resolve(state, event, first) == resolve(state, event, second),
{
}

/// Some text has the shape of a random UUID.
pub proof fn lemma_uuid_shape_exists() -> (sample: Seq<char>)
    ensures
        is_random_uuid_text(sample),
{
    reveal_strlit("00000000-0000-4000-8000-000000000000");
    "00000000-0000-4000-8000-000000000000"@
}

/// Advances the resolver by one event.  A step that spawns a server gives it
/// a freshly generated random password.
pub fn setup_server_connection<C>(state: ResolverState, event: ResolverEvent<C>) -> (next: (
    ResolverState,
    Resolution<C>,
))
    ensures
        exists|password: Seq<char>|
            is_random_uuid_text(password) && (next.0@, next.1@) == #[trigger] resolve(
                state@,
                event@,
                password,
            ),
{
    if needs_password(&state, &event) {
        let password = generate_password();
        let ghost chosen = password@;
        let next = setup_server_connection_with(state, event, password);
        assert((next.0@, next.1@) == resolve(state@, event@, chosen));
        next
    } else {
        let next = setup_server_connection_with(state, event, String::new());
        proof {
            let sample = lemma_uuid_shape_exists();
            lemma_password_only_matters_when_spawning(state@, event@, Seq::empty(), sample);
            assert((next.0@, next.1@) == resolve(state@, event@, sample));
        }
        next
    }
}

/// How often the user can still be asked whether to try the stored server
/// again.
pub open spec fn retries_left(state: ResolverStateView) -> nat {
    match state {
        ResolverStateView::Start => 1,
        ResolverStateView::AwaitingCustomUrl => 1,
        ResolverStateView::ProbingCustom { retried, .. } => if retried {
            0
        } else {
            1
        },
        _ => 0,
    }
}

/// The user is asked at most once whether to try the stored server again:
/// the step that asks uses up the one retry, and no step gives it back.
pub proof fn lemma_single_retry<C>(
    state: ResolverStateView,
    event: ResolverEventView<C>,
    password: Seq<char>,
)
    ensures
        retries_left(resolve(state, event, password).0) <= retries_left(state),
        resolve(state, event, password).1 matches ResolutionView::Request(
            ResolverRequestView::AskRetry { .. },
        ) ==> retries_left(state) == 1 && retries_left(resolve(state, event, password).0) == 0,
{
}

/// A server is spawned only after a probe of the local port has failed, and
/// a server that is already running is reused only after a probe of it has
/// succeeded.
pub proof fn lemma_resolution_follows_probe<C>(
    state: ResolverStateView,
    event: ResolverEventView<C>,
    password: Seq<char>,
)
    ensures
        resolve(state, event, password).1 matches ResolutionView::Request(
            ResolverRequestView::Spawn { .. },
        ) ==> state is ProbingLocal && event == ResolverEventView::<C>::Health(false),
        resolve(state, event, password).1 matches ResolutionView::Connected(
            ServerConnectionView::Existing { url },
        ) ==> event == ResolverEventView::<C>::Health(true) && (state
            == (ResolverStateView::ProbingCustom { url, retried: state->ProbingCustom_retried })
            || state == (ResolverStateView::ProbingLocal { url, port: state->ProbingLocal_port })),
{
}

} // verus!

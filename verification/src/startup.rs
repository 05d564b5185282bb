//! The startup sequence from the first request to the main window.
//!
//! Two things go on side by side.  The *pipeline* resolves the connection,
//! waits for the data file where that is called for, checks the health of a
//! spawned server and publishes the result.  The *presenter* races a short
//! timer against the pipeline: if the pipeline wins, the main window opens
//! at once; if the timer wins, a loading window bridges the wait.
//!
//! [`Startup`] holds both, together with the state that outlives them: the
//! phase log, the result cell and the process slot.  It advances one event
//! at a time and answers each event with the outside work to do next.

use crate::connection::{
    generate_password, is_random_uuid_text, lemma_uuid_shape_exists, needs_password, resolve,
    setup_server_connection_with, spawns, Resolution, ResolutionView, ResolverEvent,
    ResolverEventView, ResolverRequest, ResolverRequestView, ResolverState, ResolverStateView,
    ServerConnection, ServerConnectionView,
};
use crate::health::{
    failure_reason_text, startup_failure_message, startup_failure_text, HealthCheckOutcome,
    HealthCheckOutcomeView, HEALTH_CHECK_TIMEOUT_SECS,
};
use crate::phase::{drained, remaining, InitStep, PhaseBroadcaster, PhaseCursor};
use crate::process::{kill, kill_sidecar, ServerState, ServerStateView};
use crate::readiness::{
    offer, readiness_view, ReadinessBroadcaster, ReadinessView, ServerReadyData,
    ServerReadyDataView,
};
use crate::storage::{data_wait, wait_until_exists, DataWait, DATA_POLL_INTERVAL_SECS};
use vstd::prelude::*;

verus! {

/// Seconds that the pipeline is given before a loading window is shown.
pub const LOADING_DELAY_SECS: u64 = 1;

/// Seconds that a loading window stays up at least.
pub const LOADING_HOLD_SECS: u64 = 1;

/// Where the pipeline stands.
#[derive(Debug, PartialEq, Eq)]
pub enum Stage<C> {
    /// The connection is being resolved.
    Resolving(ResolverState),
    /// A server was spawned; its health check is held back until the data
    /// file exists.
    WaitingOnData { url: String, password: String, child: C },
    /// The health check of the spawned server is running.
    HealthChecking { url: String, password: String, child: C },
    /// Startup has failed for `reason`; the log output is being collected.
    Failing { reason: String },
    /// The result is published.
    Finished,
}

/// Mathematical content of a [`Stage`].
pub enum StageView<C> {
    Resolving(ResolverStateView),
    WaitingOnData { url: Seq<char>, password: Seq<char>, child: C },
    HealthChecking { url: Seq<char>, password: Seq<char>, child: C },
    Failing { reason: Seq<char> },
    Finished,
}

impl<C> View for Stage<C> {
    type V = StageView<C>;

    open spec fn view(&self) -> StageView<C> {
        match *self {
            Stage::Resolving(resolver) => StageView::Resolving(resolver@),
            Stage::WaitingOnData { url, password, child } => StageView::WaitingOnData {
                url: url@,
                password: password@,
                child,
            },
            Stage::HealthChecking { url, password, child } => StageView::HealthChecking {
                url: url@,
                password: password@,
                child,
            },
            Stage::Failing { reason } => StageView::Failing { reason: reason@ },
            Stage::Finished => StageView::Finished,
        }
    }
}

/// Where the presenter stands.
#[derive(Clone, Copy, Debug, PartialEq, Eq, Structural)]
pub enum UiStage {
    /// The timer is running and the pipeline has not finished.
    Racing,
    /// The timer won: the loading window is up.  `settled` says whether it
    /// has been up for its minimum time.
    Loading { settled: bool },
    /// Startup is complete; the loading window has yet to report that it is
    /// done.
    AwaitingAck,
    /// The main window has been asked for.
    Presented,
}

/// What happened outside.
#[derive(Debug, PartialEq, Eq)]
pub enum Event<C> {
    /// An answer to a request of the resolver.
    Connection(ResolverEvent<C>),
    /// The wait before another look at the data file is over; the payload
    /// says whether the file is there now.
    DataFile(bool),
    /// The health check of the spawned server has ended.
    HealthCheck(HealthCheckOutcome),
    /// The recent log output.
    Logs(String),
    /// The loading timer has run out.
    LoadingTimer,
    /// The loading window has been up for its minimum time.
    LoadingSettled,
    /// The loading window reports that it is done.
    LoadingWindowComplete,
}

/// Mathematical content of an [`Event`].
pub enum EventView<C> {
    Connection(ResolverEventView<C>),
    DataFile(bool),
    HealthCheck(HealthCheckOutcomeView),
    Logs(Seq<char>),
    LoadingTimer,
    LoadingSettled,
    LoadingWindowComplete,
}

impl<C> View for Event<C> {
    type V = EventView<C>;

    open spec fn view(&self) -> EventView<C> {
        match *self {
            Event::Connection(answer) => EventView::Connection(answer@),
            Event::DataFile(present) => EventView::DataFile(present),
            Event::HealthCheck(outcome) => EventView::HealthCheck(outcome@),
            Event::Logs(logs) => EventView::Logs(logs@),
            Event::LoadingTimer => EventView::LoadingTimer,
            Event::LoadingSettled => EventView::LoadingSettled,
            Event::LoadingWindowComplete => EventView::LoadingWindowComplete,
        }
    }
}

/// Outside work that startup asks for.  The caller carries the actions of one
/// step out in the order given.
#[derive(Debug, PartialEq, Eq)]
pub enum Action<C> {
    /// Start the loading timer; answer with `LoadingTimer` after `secs`
    /// seconds.
    StartLoadingTimer { secs: u64 },
    /// Do what the resolver asks; answer with `Connection`.
    Connection(ResolverRequest),
    /// Wait `secs` seconds, then look whether the data file exists; answer
    /// with `DataFile`.
    WaitForDataFile { secs: u64 },
    /// Start the health check of the spawned server now and give it
    /// `timeout_secs` seconds; answer with `HealthCheck`.
    RunHealthCheck { timeout_secs: u64 },
    /// Terminate this process, ignoring any error.
    Kill(C),
    /// Fetch the recent log output; answer with `Logs`.
    CollectLogs,
    /// Show the loading window; answer with `LoadingSettled` after
    /// `hold_secs` seconds.
    ShowLoadingWindow { hold_secs: u64 },
    /// Show the main window.
    ShowMainWindow,
    /// Close the loading window.
    CloseLoadingWindow,
}

/// Mathematical content of an [`Action`].
pub enum ActionView<C> {
    StartLoadingTimer { secs: u64 },
    Connection(ResolverRequestView),
    WaitForDataFile { secs: u64 },
    RunHealthCheck { timeout_secs: u64 },
    Kill(C),
    CollectLogs,
    ShowLoadingWindow { hold_secs: u64 },
    ShowMainWindow,
    CloseLoadingWindow,
}

impl<C> View for Action<C> {
    type V = ActionView<C>;

    open spec fn view(&self) -> ActionView<C> {
        match *self {
            Action::StartLoadingTimer { secs } => ActionView::StartLoadingTimer { secs },
            Action::Connection(request) => ActionView::Connection(request@),
            Action::WaitForDataFile { secs } => ActionView::WaitForDataFile { secs },
            Action::RunHealthCheck { timeout_secs } => ActionView::RunHealthCheck { timeout_secs },
            Action::Kill(child) => ActionView::Kill(child),
            Action::CollectLogs => ActionView::CollectLogs,
            Action::ShowLoadingWindow { hold_secs } => ActionView::ShowLoadingWindow { hold_secs },
            Action::ShowMainWindow => ActionView::ShowMainWindow,
            Action::CloseLoadingWindow => ActionView::CloseLoadingWindow,
        }
    }
}

/// Content of a list of actions.
pub open spec fn actions_view<C>(actions: Seq<Action<C>>) -> Seq<ActionView<C>> {
    actions.map_values(|action: Action<C>| action@)
}

/// Mathematical content of a [`Startup`].
pub struct StartupView<C> {
    /// Whether startup waits for the data file of a spawned server.
    pub sqlite_enabled: bool,
    /// Whether the data file existed when startup began.
    pub sqlite_exists: bool,
    /// Where the pipeline stands.
    pub stage: StageView<C>,
    /// Where the presenter stands.
    pub ui: UiStage,
    /// Whether the loading window has reported that it is done.
    pub acknowledged: bool,
    /// Every phase set so far, oldest first.
    pub phases: Seq<InitStep>,
    /// The process slot and the published result.
    pub server: ServerStateView<C>,
}

/// Startup as it begins, and the first work it asks for.
pub open spec fn initial<C>(sqlite_enabled: bool, sqlite_exists: bool) -> (
    StartupView<C>,
    Seq<ActionView<C>>,
) {
    (
        StartupView {
            sqlite_enabled,
            sqlite_exists,
            stage: StageView::Resolving(ResolverStateView::AwaitingCustomUrl),
            ui: UiStage::Racing,
            acknowledged: false,
            phases: seq![InitStep::ServerWaiting],
            server: ServerStateView { child: None, status: None },
        },
        seq![
            ActionView::Connection(ResolverRequestView::FetchCustomUrl),
            ActionView::StartLoadingTimer { secs: LOADING_DELAY_SECS },
        ],
    )
}

/// The presenter's move once the result is published, or once the loading
/// window has settled after that.  The phase becomes `Done` here and nowhere
/// else.
pub open spec fn presented<C>(s: StartupView<C>) -> (StartupView<C>, Seq<ActionView<C>>) {
    match s.ui {
        UiStage::Racing => (
            StartupView { ui: UiStage::Presented, phases: s.phases.push(InitStep::Done), ..s },
            seq![ActionView::ShowMainWindow],
        ),
        UiStage::Loading { settled: true } => if s.acknowledged {
            (
                StartupView { ui: UiStage::Presented, phases: s.phases.push(InitStep::Done), ..s },
                seq![ActionView::ShowMainWindow, ActionView::CloseLoadingWindow],
            )
        } else {
            (
                StartupView { ui: UiStage::AwaitingAck, phases: s.phases.push(InitStep::Done), ..s },
                Seq::empty(),
            )
        },
        _ => (s, Seq::empty()),
    }
}

/// The end of the pipeline: `result` is published and the presenter moves.
pub open spec fn finished<C>(s: StartupView<C>, result: ReadinessView) -> (
    StartupView<C>,
    Seq<ActionView<C>>,
) {
    presented(
        StartupView {
            stage: StageView::Finished,
            server: ServerStateView {
                child: s.server.child,
                status: offer(s.server.status, result),
            },
            ..s
        },
    )
}

/// Whether the health check of a spawned server has to wait for the data
/// file.
pub open spec fn waits_for_data<C>(s: StartupView<C>) -> bool {
    s.sqlite_enabled && !s.sqlite_exists
}

/// The pipeline's move on the resolver's answer.
pub open spec fn connected<C>(
    s: StartupView<C>,
    next: ResolverStateView,
    resolution: ResolutionView<C>,
) -> (StartupView<C>, Seq<ActionView<C>>) {
    match resolution {
        ResolutionView::Request(request) => (
            StartupView { stage: StageView::Resolving(next), ..s },
            seq![ActionView::Connection(request)],
        ),
        ResolutionView::Connected(ServerConnectionView::Existing { url }) => finished(
            s,
            Ok(ServerReadyDataView { url, password: None }),
        ),
        ResolutionView::Connected(ServerConnectionView::CLI { url, password, child }) => {
            if waits_for_data(s) {
                (
                    StartupView {
                        stage: StageView::WaitingOnData { url, password, child },
                        phases: s.phases.push(InitStep::SqliteWaiting),
                        ..s
                    },
                    seq![ActionView::WaitForDataFile { secs: DATA_POLL_INTERVAL_SECS }],
                )
            } else {
                (
                    StartupView { stage: StageView::HealthChecking { url, password, child }, ..s },
                    seq![ActionView::RunHealthCheck { timeout_secs: HEALTH_CHECK_TIMEOUT_SECS }],
                )
            }
        },
        ResolutionView::SpawnFailed(reason) => (
            StartupView { stage: StageView::Failing { reason }, ..s },
            seq![ActionView::CollectLogs],
        ),
        ResolutionView::Unexpected => (s, Seq::empty()),
    }
}

/// The transition of startup: the state and the actions that follow when
/// `event` arrives in `s`.  `password` is the credential given to a server
/// if this step spawns one.  An event that does not fit the state changes
/// nothing and asks for nothing.
pub open spec fn advance<C>(s: StartupView<C>, event: EventView<C>, password: Seq<char>) -> (
    StartupView<C>,
    Seq<ActionView<C>>,
) {
    match (event, s.stage) {
        (EventView::Connection(answer), StageView::Resolving(resolver)) => {
            let (next, resolution) = resolve(resolver, answer, password);
            connected(s, next, resolution)
        },
        (EventView::DataFile(present), StageView::WaitingOnData { url, password, child }) => {
            match data_wait(present) {
                DataWait::Open => (
                    StartupView { stage: StageView::HealthChecking { url, password, child }, ..s },
                    seq![ActionView::RunHealthCheck { timeout_secs: HEALTH_CHECK_TIMEOUT_SECS }],
                ),
                DataWait::Retry { after_secs } => (
                    s,
                    seq![ActionView::WaitForDataFile { secs: after_secs }],
                ),
            }
        },
        (EventView::HealthCheck(outcome), StageView::HealthChecking { url, password, child }) => {
            match failure_reason_text(outcome) {
                None => finished(
                    StartupView {
                        server: ServerStateView { child: Some(child), status: s.server.status },
                        ..s
                    },
                    Ok(ServerReadyDataView { url, password: Some(password) }),
                ),
                Some(reason) => (
                    StartupView { stage: StageView::Failing { reason }, ..s },
                    seq![ActionView::Kill(child), ActionView::CollectLogs],
                ),
            }
        },
        (EventView::Logs(logs), StageView::Failing { reason }) => finished(
            s,
            Err(startup_failure_text(reason, logs)),
        ),
        (EventView::LoadingTimer, _) => if s.ui is Racing {
            (
                StartupView { ui: UiStage::Loading { settled: false }, ..s },
                seq![ActionView::ShowLoadingWindow { hold_secs: LOADING_HOLD_SECS }],
            )
        } else {
            (s, Seq::empty())
        },
        (EventView::LoadingSettled, _) => if s.ui == (UiStage::Loading { settled: false }) {
            let settled = StartupView { ui: UiStage::Loading { settled: true }, ..s };
            if s.stage is Finished {
                presented(settled)
            } else {
                (settled, Seq::empty())
            }
        } else {
            (s, Seq::empty())
        },
        (EventView::LoadingWindowComplete, _) => if s.ui is AwaitingAck {
            (
                StartupView { ui: UiStage::Presented, acknowledged: true, ..s },
                seq![ActionView::ShowMainWindow, ActionView::CloseLoadingWindow],
            )
        } else {
            (StartupView { acknowledged: true, ..s }, Seq::empty())
        },
        _ => (s, Seq::empty()),
    }
}

/// Whether the phase has become `Done`.
pub open spec fn completed<C>(s: StartupView<C>) -> bool {
    s.ui is AwaitingAck || s.ui is Presented
}

/// What holds of startup at every moment of every run.
pub open spec fn wf<C>(s: StartupView<C>) -> bool {
    let waited = seq![InitStep::ServerWaiting, InitStep::SqliteWaiting];
    let before = if completed(s) {
        s.phases.drop_last()
    } else {
        s.phases
    };
    &&& s.phases.len() >= 1
    &&& completed(s) ==> s.phases.len() >= 2 && s.phases.last() == InitStep::Done
    &&& before == seq![InitStep::ServerWaiting] || before == waited
    &&& s.stage is Resolving ==> before == seq![InitStep::ServerWaiting]
    &&& s.stage is WaitingOnData ==> before == waited && waits_for_data(s)
    &&& s.server.status is Some <==> s.stage is Finished
    &&& completed(s) ==> s.stage is Finished
    &&& s.stage is Finished ==> !(s.ui is Racing) && s.ui != (UiStage::Loading { settled: true })
    &&& s.server.child is Some ==> s.server.status is Some && s.server.status->0 is Ok
}

/// The startup sequence with everything that outlives it.
pub struct Startup<C> {
    sqlite_enabled: bool,
    sqlite_exists: bool,
    stage: Stage<C>,
    ui: UiStage,
    acknowledged: bool,
    phase: PhaseBroadcaster,
    server: ServerState<C>,
}

impl<C> View for Startup<C> {
    type V = StartupView<C>;

    closed spec fn view(&self) -> StartupView<C> {
        StartupView {
            sqlite_enabled: self.sqlite_enabled,
            sqlite_exists: self.sqlite_exists,
            stage: self.stage@,
            ui: self.ui,
            acknowledged: self.acknowledged,
            phases: self.phase@,
            server: self.server@,
        }
    }
}

/// No action.
fn no_action<C>() -> (actions: Vec<Action<C>>)
    ensures
        actions_view(actions@) == Seq::<ActionView<C>>::empty(),
{
    let actions: Vec<Action<C>> = Vec::new();
    assert(actions_view(actions@) =~= Seq::<ActionView<C>>::empty());
    actions
}

/// One action.
fn one_action<C>(first: Action<C>) -> (actions: Vec<Action<C>>)
    ensures
        actions_view(actions@) == seq![first@],
{
    let mut actions: Vec<Action<C>> = Vec::new();
    actions.push(first);
    assert(actions_view(actions@) =~= seq![first@]);
    actions
}

/// Two actions, in this order.
fn two_actions<C>(first: Action<C>, second: Action<C>) -> (actions: Vec<Action<C>>)
    ensures
        actions_view(actions@) == seq![first@, second@],
{
    let mut actions: Vec<Action<C>> = Vec::new();
    actions.push(first);
    actions.push(second);
    assert(actions_view(actions@) =~= seq![first@, second@]);
    actions
}

impl<C> Startup<C> {
    /// Begins startup.  `sqlite_enabled` says whether a spawned server is
    /// held back until its data file exists, and `sqlite_exists` whether
    /// that file exists now.  Returns the sequence in its first state and
    /// the first work to do.
    pub fn new(sqlite_enabled: bool, sqlite_exists: bool) -> (start: (Startup<C>, Vec<Action<C>>))
        ensures
            (start.0@, actions_view(start.1@)) == initial::<C>(sqlite_enabled, sqlite_exists),
            wf(start.0@),
    {
        let startup = Startup {
            sqlite_enabled,
            sqlite_exists,
            stage: Stage::Resolving(ResolverState::AwaitingCustomUrl),
            ui: UiStage::Racing,
            acknowledged: false,
            phase: PhaseBroadcaster::new(InitStep::ServerWaiting),
            server: ServerState::new(None, ReadinessBroadcaster::new()),
        };
        let actions = two_actions(
            Action::Connection(ResolverRequest::FetchCustomUrl),
            Action::StartLoadingTimer { secs: LOADING_DELAY_SECS },
        );
        (startup, actions)
    }

    /// The phase log, for observers.
    pub fn phase(&self) -> (phase: &PhaseBroadcaster)
        ensures
            phase@ == self@.phases,
    {
        &self.phase
    }

    /// The process slot and the result cell, for readers.
    pub fn server_state(&self) -> (server: &ServerState<C>)
        ensures
            server@ == self@.server,
    {
        &self.server
    }

    /// Where the presenter stands.
    pub fn ui_stage(&self) -> (ui: UiStage)
        ensures
            ui == self@.ui,
    {
        self.ui
    }

    /// Whether the pipeline has published its result.
    pub fn is_finished(&self) -> (finished: bool)
        ensures
            finished == (self@.stage is Finished),
    {
        match self.stage {
            Stage::Finished => true,
            _ => false,
        }
    }

    /// The presenter's move once the result is published.
    fn present(&mut self) -> (actions: Vec<Action<C>>)
        ensures
            (final(self)@, actions_view(actions@)) == presented(old(self)@),
    {
        match self.ui {
            UiStage::Racing => {
                self.ui = UiStage::Presented;
                self.phase.set(InitStep::Done);
                one_action(Action::ShowMainWindow)
            },
            UiStage::Loading { settled: true } => {
                self.phase.set(InitStep::Done);
                if self.acknowledged {
                    self.ui = UiStage::Presented;
                    two_actions(Action::ShowMainWindow, Action::CloseLoadingWindow)
                } else {
                    self.ui = UiStage::AwaitingAck;
                    no_action()
                }
            },
            _ => no_action(),
        }
    }

    /// Publishes `result` and lets the presenter move.
    fn finish(&mut self, result: Result<ServerReadyData, String>) -> (actions: Vec<Action<C>>)
        ensures
            (final(self)@, actions_view(actions@)) == finished(old(self)@, readiness_view(result)),
    {
        self.stage = Stage::Finished;
        let _accepted = self.server.publish(result);
        self.present()
    }

    /// The pipeline's move on the resolver's answer.
    fn connect(&mut self, next: ResolverState, resolution: Resolution<C>) -> (actions: Vec<
        Action<C>,
    >)
        ensures
            (final(self)@, actions_view(actions@)) == connected(old(self)@, next@, resolution@),
    {
        match resolution {
            Resolution::Request(request) => {
                self.stage = Stage::Resolving(next);
                one_action(Action::Connection(request))
            },
            Resolution::Connected(ServerConnection::Existing { url }) => {
                self.finish(Ok(ServerReadyData { url, password: None }))
            },
            Resolution::Connected(ServerConnection::CLI { url, password, child }) => {
                if self.sqlite_enabled && !self.sqlite_exists {
                    self.stage = Stage::WaitingOnData { url, password, child };
                    self.phase.set(InitStep::SqliteWaiting);
                    one_action(Action::WaitForDataFile { secs: DATA_POLL_INTERVAL_SECS })
                } else {
                    self.stage = Stage::HealthChecking { url, password, child };
                    one_action(Action::RunHealthCheck { timeout_secs: HEALTH_CHECK_TIMEOUT_SECS })
                }
            },
            Resolution::SpawnFailed(reason) => {
                self.stage = Stage::Failing { reason };
                one_action(Action::CollectLogs)
            },
            Resolution::Unexpected => no_action(),
        }
    }

    /// Advances startup by one event, with `password` as the credential for
    /// a server that this step may spawn, and returns the work to do next.
    pub fn step_with(&mut self, event: Event<C>, password: String) -> (actions: Vec<Action<C>>)
        ensures
            (final(self)@, actions_view(actions@)) == advance(old(self)@, event@, password@),
            wf(old(self)@) ==> wf(final(self)@),
    {
        proof {
            if wf(old(self)@) {
                lemma_advance_preserves_wf(old(self)@, event@, password@);
            }
        }
        let mut stage: Stage<C> = Stage::Finished;
        core::mem::swap(&mut self.stage, &mut stage);
        let ghost parked = self@;
        assert(old(self)@ == (StartupView { stage: stage@, ..parked }));
        match event {
            Event::Connection(answer) => match stage {
                Stage::Resolving(resolver) => {
                    let (next, resolution) = setup_server_connection_with(
                        resolver,
                        answer,
                        password,
                    );
                    match resolution {
                        Resolution::Unexpected => {
                            self.stage = Stage::Resolving(next);
                            no_action()
                        },
                        answered => self.connect(next, answered),
                    }
                },
                other => {
                    self.stage = other;
                    no_action()
                },
            },
            Event::DataFile(present) => match stage {
                Stage::WaitingOnData { url, password, child } => match wait_until_exists(present) {
                    DataWait::Open => {
                        self.stage = Stage::HealthChecking { url, password, child };
                        one_action(
                            Action::RunHealthCheck { timeout_secs: HEALTH_CHECK_TIMEOUT_SECS },
                        )
                    },
                    DataWait::Retry { after_secs } => {
                        self.stage = Stage::WaitingOnData { url, password, child };
                        one_action(Action::WaitForDataFile { secs: after_secs })
                    },
                },
                other => {
                    self.stage = other;
                    no_action()
                },
            },
            Event::HealthCheck(outcome) => match stage {
                Stage::HealthChecking { url, password, child } => match outcome.failure_reason() {
                    None => {
                        self.server.set_child(Some(child));
                        self.finish(Ok(ServerReadyData { url, password: Some(password) }))
                    },
                    Some(reason) => {
                        self.stage = Stage::Failing { reason };
                        two_actions(Action::Kill(child), Action::CollectLogs)
                    },
                },
                other => {
                    self.stage = other;
                    no_action()
                },
            },
            Event::Logs(logs) => match stage {
                Stage::Failing { reason } => {
                    let message = startup_failure_message(reason.as_str(), logs.as_str());
                    self.finish(Err(message))
                },
                other => {
                    self.stage = other;
                    no_action()
                },
            },
            Event::LoadingTimer => {
                self.stage = stage;
                match self.ui {
                    UiStage::Racing => {
                        self.ui = UiStage::Loading { settled: false };
                        one_action(Action::ShowLoadingWindow { hold_secs: LOADING_HOLD_SECS })
                    },
                    _ => no_action(),
                }
            },
            Event::LoadingSettled => {
                self.stage = stage;
                match self.ui {
                    UiStage::Loading { settled: false } => {
                        self.ui = UiStage::Loading { settled: true };
                        if self.is_finished() {
                            self.present()
                        } else {
                            no_action()
                        }
                    },
                    _ => no_action(),
                }
            },
            Event::LoadingWindowComplete => {
                self.stage = stage;
                self.acknowledged = true;
                match self.ui {
                    UiStage::AwaitingAck => {
                        self.ui = UiStage::Presented;
                        two_actions(Action::ShowMainWindow, Action::CloseLoadingWindow)
                    },
                    _ => no_action(),
                }
            },
        }
    }

    /// Whether `event` makes startup spawn a server now.
    fn spawns_server(&self, event: &Event<C>) -> (needed: bool)
        ensures
            needed == step_spawns(self@, event@),
    {
        match &self.stage {
            Stage::Resolving(resolver) => match event {
                Event::Connection(answer) => needs_password(resolver, answer),
                _ => false,
            },
            _ => false,
        }
    }

    /// Advances startup by one event and returns the work to do next.  A
    /// step that spawns a server gives it a freshly generated random
    /// password.
    pub fn step(&mut self, event: Event<C>) -> (actions: Vec<Action<C>>)
        ensures
            exists|password: Seq<char>|
                is_random_uuid_text(password) && (final(self)@, actions_view(actions@))
                    == #[trigger] advance(old(self)@, event@, password),
            wf(old(self)@) ==> wf(final(self)@),
    {
        if self.spawns_server(&event) {
            let password = generate_password();
            let ghost chosen = password@;
            let actions = self.step_with(event, password);
            assert((final(self)@, actions_view(actions@)) == advance(old(self)@, event@, chosen));
            actions
        } else {
            let actions = self.step_with(event, String::new());
            proof {
                let sample = lemma_uuid_shape_exists();
                lemma_password_only_matters_when_spawning(
                    old(self)@,
                    event@,
                    Seq::empty(),
                    sample,
                );
                assert((final(self)@, actions_view(actions@)) == advance(
                    old(self)@,
                    event@,
                    sample,
                ));
            }
            actions
        }
    }

    /// Empties the process slot and returns the process that was in it,
    /// which the caller is to terminate.  Meant for the moment the
    /// application exits; with an empty slot nothing happens.
    pub fn kill_sidecar(&mut self) -> (victim: Option<C>)
        ensures
            victim == kill(old(self)@.server.child).1,
            final(self)@ == exited(old(self)@),
            wf(old(self)@) ==> wf(final(self)@),
    {
        kill_sidecar(&mut self.server)
    }

    /// One round of an observer that follows startup to its end.  Appends
    /// to `events` every phase that `cursor` has not yielded yet, and returns
    /// the published result once the observer has both seen `Done` and found
    /// the result; until then it returns `None` and is to be called again
    /// after the next change.
    pub fn await_initialization(&self, cursor: &mut PhaseCursor, events: &mut Vec<InitStep>) -> (ready:
        Option<Result<ServerReadyData, String>>)
        ensures
            final(events)@ == old(events)@ + remaining(old(cursor)@, self@.phases),
            final(cursor)@ == drained(old(cursor)@, self@.phases),
            match ready {
                Some(result) => final(cursor)@.exhausted && self@.server.status == Some(
                    readiness_view(result),
                ),
                None => !final(cursor)@.exhausted || self@.server.status is None,
            },
    {
        cursor.drain(&self.phase, events);
        if cursor.is_exhausted() {
            self.server.status().poll()
        } else {
            None
        }
    }
}

/// Whether `event` in `s` makes startup spawn a server, which is when it
/// needs a fresh password.
pub open spec fn step_spawns<C>(s: StartupView<C>, event: EventView<C>) -> bool {
    s.stage matches StageView::Resolving(resolver) && event matches EventView::Connection(answer)
        && spawns(resolver, answer)
}

/// Startup after the process slot has been emptied for termination.
pub open spec fn exited<C>(s: StartupView<C>) -> StartupView<C> {
    StartupView {
        server: ServerStateView { child: kill(s.server.child).0, status: s.server.status },
        ..s
    }
}

/// A step that spawns no server does not depend on the password.
pub proof fn lemma_password_only_matters_when_spawning<C>(
    s: StartupView<C>,
    event: EventView<C>,
    first: Seq<char>,
    second: Seq<char>,
)
    requires
        !step_spawns(s, event),
    ensures
        advance(s, event, first) == advance(s, event, second),
{
}

/// Every step keeps what holds of startup at every moment.
pub proof fn lemma_advance_preserves_wf<C>(
    s: StartupView<C>,
    event: EventView<C>,
    password: Seq<char>,
)
    requires
        wf(s),
    ensures
        wf(advance(s, event, password).0),
{
    let t = advance(s, event, password).0;
    let alone = seq![InitStep::ServerWaiting];
    let waited = seq![InitStep::ServerWaiting, InitStep::SqliteWaiting];
    assert(alone.push(InitStep::Done).drop_last() == alone);
    assert(waited.push(InitStep::Done).drop_last() == waited);
    assert(alone.push(InitStep::SqliteWaiting) == waited);
    if !completed(s) && completed(t) {
        assert(t.phases == s.phases.push(InitStep::Done));
        assert(t.phases.drop_last() == s.phases);
    }
}

} // verus!

//! What holds of every run of the startup sequence, whatever happens outside
//! and in whatever order.

use crate::connection::{retries_left, ResolverEventView, ResolverRequestView};
use crate::health::{startup_failure_text, HEALTH_CHECK_TIMEOUT_SECS};
use crate::phase::{
    is_progression, lemma_observer_sees_progression, observed, occurrences, InitStep,
};
use crate::readiness::ReadinessView;
use crate::startup::{
    advance, completed, waits_for_data, initial, lemma_advance_preserves_wf, wf, ActionView,
    EventView, StageView, StartupView,
};
use vstd::prelude::*;

verus! {

/// What one step of a run is given: the event and the password for a server
/// that the step may spawn.
pub struct StepInput<C> {
    pub event: EventView<C>,
    pub password: Seq<char>,
}

/// Startup after the steps `inputs`, taken in order from `s`.
pub open spec fn run<C>(s: StartupView<C>, inputs: Seq<StepInput<C>>) -> StartupView<C>
    decreases inputs.len(),
{
    if inputs.len() == 0 {
        s
    } else {
        run(advance(s, inputs[0].event, inputs[0].password).0, inputs.drop_first())
    }
}

/// Whatever happens outside, and in whatever order, startup stays well
/// formed.
pub proof fn lemma_run_preserves_wf<C>(s: StartupView<C>, inputs: Seq<StepInput<C>>)
    requires
        wf(s),
    ensures
        wf(run(s, inputs)),
    decreases inputs.len(),
{
    if inputs.len() > 0 {
        lemma_advance_preserves_wf(s, inputs[0].event, inputs[0].password);
        lemma_run_preserves_wf(
            advance(s, inputs[0].event, inputs[0].password).0,
            inputs.drop_first(),
        );
    }
}

/// The phase log of a well-formed startup starts with `ServerWaiting` and
/// only moves forward; it ends in `Done` exactly when startup is complete.
pub proof fn lemma_phases_progress<C>(s: StartupView<C>)
    requires
        wf(s),
    ensures
        s.phases.len() >= 1,
        s.phases[0] == InitStep::ServerWaiting,
        is_progression(s.phases),
        (s.phases.last() == InitStep::Done) == completed(s),
        s.phases.contains(InitStep::Done) == completed(s),
{
    let alone = seq![InitStep::ServerWaiting];
    let waited = seq![InitStep::ServerWaiting, InitStep::SqliteWaiting];
    if completed(s) {
        let before = s.phases.drop_last();
        assert(s.phases == before.push(InitStep::Done));
        assert(s.phases[s.phases.len() - 1] == InitStep::Done);
    } else {
        if s.phases.contains(InitStep::Done) {
            let i = choose|i: int| 0 <= i < s.phases.len() && s.phases[i] == InitStep::Done;
            assert(false);
        }
    }
}

/// Every step leaves a published result as it is.
pub proof fn lemma_step_keeps_result<C>(s: StartupView<C>, event: EventView<C>, password: Seq<char>)
    requires
        s.server.status is Some,
    ensures
        advance(s, event, password).0.server.status == s.server.status,
{
}

/// Once a result is published, no run changes it: readers that ask at any
/// two later moments get the same result.
pub proof fn lemma_result_is_published_once<C>(s: StartupView<C>, inputs: Seq<StepInput<C>>)
    requires
        s.server.status is Some,
    ensures
        run(s, inputs).server.status == s.server.status,
    decreases inputs.len(),
{
    if inputs.len() > 0 {
        lemma_step_keeps_result(s, inputs[0].event, inputs[0].password);
        lemma_result_is_published_once(
            advance(s, inputs[0].event, inputs[0].password).0,
            inputs.drop_first(),
        );
    }
}

/// In every run from the beginning, an observer that subscribed at any entry
/// `from` of the phase log sees phases in startup order, beginning no earlier
/// than `ServerWaiting`, `SqliteWaiting` at most once, and `Done` exactly
/// once when startup is complete and not before.
pub proof fn lemma_observed_phases_of_any_run<C>(
    sqlite_enabled: bool,
    sqlite_exists: bool,
    inputs: Seq<StepInput<C>>,
    from: int,
)
    requires
        0 <= from < run(initial::<C>(sqlite_enabled, sqlite_exists).0, inputs).phases.len(),
    ensures
        ({
            let end = run(initial::<C>(sqlite_enabled, sqlite_exists).0, inputs);
            let seen = observed(end.phases, from);
            &&& wf(end)
            &&& end.phases[0] == InitStep::ServerWaiting
            &&& is_progression(end.phases)
            &&& is_progression(seen)
            &&& occurrences(seen, InitStep::ServerWaiting) <= 1
            &&& occurrences(seen, InitStep::SqliteWaiting) <= 1
            &&& occurrences(seen, InitStep::Done) == if completed(end) {
                1nat
            } else {
                0nat
            }
        }),
{
    let start = initial::<C>(sqlite_enabled, sqlite_exists).0;
    lemma_run_preserves_wf(start, inputs);
    let end = run(start, inputs);
    lemma_phases_progress(end);
    lemma_observer_sees_progression(end.phases, from);
}

/// The phase becomes `Done` only after the result is published: whenever
/// `Done` is in the log, the result is there for every reader.
pub proof fn lemma_done_follows_publication<C>(s: StartupView<C>)
    requires
        wf(s),
        s.phases.contains(InitStep::Done),
    ensures
        s.server.status is Some,
        s.stage is Finished,
{
    lemma_phases_progress(s);
}

/// The health check of a spawned server is started by the step that enters
/// the stage `HealthChecking`, and by no other: that step asks for the check
/// with the full time allowed and for nothing else.  Where the data file is
/// waited for, the step is the one that finds the file present, so the time
/// allowed to the check never runs during the wait.
pub proof fn lemma_health_check_waits_for_data<C>(
    s: StartupView<C>,
    event: EventView<C>,
    password: Seq<char>,
)
    requires
        wf(s),
    ensures
        ({
            let (t, actions) = advance(s, event, password);
            let starts = t.stage is HealthChecking && !(s.stage is HealthChecking);
            &&& starts ==> actions == seq![
                ActionView::<C>::RunHealthCheck { timeout_secs: HEALTH_CHECK_TIMEOUT_SECS },
            ]
            &&& !starts ==> forall|i: int|
                0 <= i < actions.len() ==> !(#[trigger] actions[i] is RunHealthCheck)
            &&& starts && waits_for_data(s) ==> s.stage is WaitingOnData && event
                == EventView::<C>::DataFile(true)
            &&& starts && !waits_for_data(s) ==> s.stage is Resolving
        }),
{
}

/// The process that a failed health check leaves behind, if `stage` holds
/// one.
pub open spec fn child_at_stake<C>(stage: StageView<C>) -> Option<C> {
    match stage {
        StageView::HealthChecking { child, .. } => Some(child),
        _ => None,
    }
}

/// A failure is published only after the spawned process has been handed out
/// for termination.  The step that meets the failure publishes nothing and
/// asks first for the process to be killed, then for the logs; the failure
/// is published by the later step that brings the logs, and the process slot
/// is empty then.
pub proof fn lemma_failure_is_published_after_kill<C>(
    s: StartupView<C>,
    event: EventView<C>,
    password: Seq<char>,
)
    requires
        wf(s),
    ensures
        ({
            let (t, actions) = advance(s, event, password);
            let fails = t.stage is Failing && !(s.stage is Failing);
            let reports = s.server.status is None && t.server.status is Some
                && t.server.status->0 is Err;
            &&& fails ==> t.server.status is None && actions.len() >= 1 && actions.last()
                == ActionView::<C>::CollectLogs
            &&& fails && s.stage is HealthChecking ==> actions == seq![
                ActionView::Kill(child_at_stake(s.stage)->0),
                ActionView::CollectLogs,
            ]
            &&& reports ==> s.stage is Failing && event is Logs && t.server.child is None
            &&& wf(t) && t.server.status is Some && t.server.status->0 is Err ==> t.server.child
                is None
        }),
{
    lemma_advance_preserves_wf(s, event, password);
}

/// Everything that the steps `inputs`, taken in order from `s`, ask for.
pub open spec fn trace<C>(s: StartupView<C>, inputs: Seq<StepInput<C>>) -> Seq<ActionView<C>>
    decreases inputs.len(),
{
    if inputs.len() == 0 {
        Seq::empty()
    } else {
        let (next, actions) = advance(s, inputs[0].event, inputs[0].password);
        actions + trace(next, inputs.drop_first())
    }
}

/// The kinds of outside work that are to be done once at most.
pub enum Work {
    /// Asking the user whether to try the stored server again.
    AskRetry,
    /// Spawning a server.
    Spawn,
    /// Running the health check of the spawned server.
    HealthCheck,
    /// Terminating the spawned server.
    Kill,
    /// Fetching the log output.
    CollectLogs,
    /// Showing the loading window.
    LoadingWindow,
    /// Showing the main window.
    MainWindow,
    /// Closing the loading window.
    CloseLoadingWindow,
}

/// Whether `action` asks for `work`.
pub open spec fn asks_for<C>(action: ActionView<C>, work: Work) -> bool {
    match work {
        Work::AskRetry => action matches ActionView::Connection(
            ResolverRequestView::AskRetry { .. },
        ),
        Work::Spawn => action matches ActionView::Connection(ResolverRequestView::Spawn { .. }),
        Work::HealthCheck => action is RunHealthCheck,
        Work::Kill => action is Kill,
        Work::CollectLogs => action is CollectLogs,
        Work::LoadingWindow => action is ShowLoadingWindow,
        Work::MainWindow => action is ShowMainWindow,
        Work::CloseLoadingWindow => action is CloseLoadingWindow,
    }
}

/// How often `actions` ask for `work`.
pub open spec fn times<C>(actions: Seq<ActionView<C>>, work: Work) -> nat
    decreases actions.len(),
{
    if actions.len() == 0 {
        0
    } else {
        times(actions.drop_last(), work) + if asks_for(actions.last(), work) {
            1nat
        } else {
            0nat
        }
    }
}

/// How often startup in `s` may still ask for `work`.
pub open spec fn allowance<C>(s: StartupView<C>, work: Work) -> nat {
    let open: nat = 1;
    let spent: nat = 0;
    match work {
        Work::AskRetry => match s.stage {
            StageView::Resolving(resolver) => retries_left(resolver),
            _ => spent,
        },
        Work::Spawn => match s.stage {
            StageView::Resolving(resolver) => if resolver is Spawning || resolver is Resolved {
                spent
            } else {
                open
            },
            _ => spent,
        },
        Work::HealthCheck => if s.stage is Resolving || s.stage is WaitingOnData {
            open
        } else {
            spent
        },
        Work::Kill | Work::CollectLogs => if s.stage is Failing || s.stage is Finished {
            spent
        } else {
            open
        },
        Work::LoadingWindow => if s.ui is Racing {
            open
        } else {
            spent
        },
        Work::MainWindow | Work::CloseLoadingWindow => if s.ui is Presented {
            spent
        } else {
            open
        },
    }
}

/// Counting over two lists of actions adds up.
pub proof fn lemma_times_add<C>(first: Seq<ActionView<C>>, second: Seq<ActionView<C>>, work: Work)
    ensures
        times(first + second, work) == times(first, work) + times(second, work),
    decreases second.len(),
{
    if second.len() == 0 {
        assert(first + second == first);
    } else {
        lemma_times_add(first, second.drop_last(), work);
        assert((first + second).drop_last() == first + second.drop_last());
    }
}

/// A step asks for a kind of work no more often than startup may still ask
/// for it, and uses up the allowance as it asks.
pub proof fn lemma_step_spends_allowance<C>(
    s: StartupView<C>,
    event: EventView<C>,
    password: Seq<char>,
    work: Work,
)
    ensures
        times(advance(s, event, password).1, work) + allowance(advance(s, event, password).0, work)
            <= allowance(s, work),
{
    let actions = advance(s, event, password).1;
    assert(actions.len() <= 2);
    lemma_step_counts(actions, work);
}

/// Over a whole run, too, no kind of work is asked for more often than the
/// allowance at the start of the run permits.
pub proof fn lemma_run_spends_allowance<C>(
    s: StartupView<C>,
    inputs: Seq<StepInput<C>>,
    work: Work,
)
    ensures
        times(trace(s, inputs), work) + allowance(run(s, inputs), work) <= allowance(s, work),
    decreases inputs.len(),
{
    if inputs.len() > 0 {
        let (next, actions) = advance(s, inputs[0].event, inputs[0].password);
        lemma_step_spends_allowance(s, inputs[0].event, inputs[0].password, work);
        lemma_run_spends_allowance(next, inputs.drop_first(), work);
        lemma_times_add(actions, trace(next, inputs.drop_first()), work);
    }
}

/// No work is done twice.  In every run from the beginning the user is asked
/// about a retry once at most, one server at most is spawned, its health is
/// checked once at most, it is killed once at most, the logs are fetched
/// once at most, and each window is shown or closed once at most.
pub proof fn lemma_no_work_is_done_twice<C>(
    sqlite_enabled: bool,
    sqlite_exists: bool,
    inputs: Seq<StepInput<C>>,
    work: Work,
)
    ensures
        times(
            initial::<C>(sqlite_enabled, sqlite_exists).1 + trace(
                initial::<C>(sqlite_enabled, sqlite_exists).0,
                inputs,
            ),
            work,
        ) <= 1,
{
    let (start, first) = initial::<C>(sqlite_enabled, sqlite_exists);
    lemma_run_spends_allowance(start, inputs, work);
    lemma_times_add(first, trace(start, inputs), work);
    lemma_step_counts(first, work);
}

/// A server that was found running is used as it is: in a run that ends
/// with a result that carries no password, no server was spawned, no health
/// check was run and nothing was killed.
pub proof fn lemma_reused_server_spawns_nothing<C>(
    sqlite_enabled: bool,
    sqlite_exists: bool,
    inputs: Seq<StepInput<C>>,
)
    requires
        run(initial::<C>(sqlite_enabled, sqlite_exists).0, inputs).server.status matches Some(
            Ok(data),
        ) && data.password is None,
    ensures
        times(trace(initial::<C>(sqlite_enabled, sqlite_exists).0, inputs), Work::Spawn) == 0,
        times(trace(initial::<C>(sqlite_enabled, sqlite_exists).0, inputs), Work::HealthCheck)
            == 0,
        times(trace(initial::<C>(sqlite_enabled, sqlite_exists).0, inputs), Work::Kill) == 0,
        run(initial::<C>(sqlite_enabled, sqlite_exists).0, inputs).server.child is None,
        !run(initial::<C>(sqlite_enabled, sqlite_exists).0, inputs).phases.contains(
            InitStep::SqliteWaiting,
        ),
{
    let start = initial::<C>(sqlite_enabled, sqlite_exists).0;
    lemma_reuse_leaves_no_trace(start, inputs);
}

/// Startup that has published a result without a password, or may yet do
/// so: no server is spawned and the data file has not been waited for.
pub open spec fn untouched<C>(s: StartupView<C>) -> bool {
    &&& s.server.child is None
    &&& !s.phases.contains(InitStep::SqliteWaiting)
    &&& match s.stage {
        StageView::Resolving(resolver) => !(resolver is Spawning) && !(resolver is Resolved),
        StageView::Finished => s.server.status matches Some(Ok(data)) && data.password is None,
        _ => false,
    }
}

/// From a state with nothing spawned, a run that ends with a result without
/// a password has spawned, checked and killed nothing on its way.
proof fn lemma_reuse_leaves_no_trace<C>(s: StartupView<C>, inputs: Seq<StepInput<C>>)
    requires
        wf(s),
        untouched(s) || (s.server.status is None && !(s.stage is Finished)),
        run(s, inputs).server.status matches Some(Ok(data)) && data.password is None,
    ensures
        untouched(s),
        untouched(run(s, inputs)),
        times(trace(s, inputs), Work::Spawn) == 0,
        times(trace(s, inputs), Work::HealthCheck) == 0,
        times(trace(s, inputs), Work::Kill) == 0,
    decreases inputs.len(),
{
    if inputs.len() == 0 {
    } else {
        let (next, actions) = advance(s, inputs[0].event, inputs[0].password);
        lemma_advance_preserves_wf(s, inputs[0].event, inputs[0].password);
        let rest = inputs.drop_first();
        if !untouched(s) {
            // Once a server has been spawned, or a spawn has failed, the
            // result carries a password or is a failure.
            lemma_spawned_never_reuses(s, inputs);
        } else {
            assert(s.phases.push(InitStep::Done).contains(InitStep::SqliteWaiting) ==> s.phases.contains(
                InitStep::SqliteWaiting,
            )) by {
                if s.phases.push(InitStep::Done).contains(InitStep::SqliteWaiting) {
                    let i = choose|i: int|
                        0 <= i < s.phases.push(InitStep::Done).len() && s.phases.push(
                            InitStep::Done,
                        )[i] == InitStep::SqliteWaiting;
                    assert(s.phases[i] == InitStep::SqliteWaiting);
                }
            }
            if untouched(next) {
                lemma_reuse_leaves_no_trace(next, rest);
            } else {
                lemma_spawned_never_reuses(next, rest);
            }
            lemma_times_add(actions, trace(next, rest), Work::Spawn);
            lemma_times_add(actions, trace(next, rest), Work::HealthCheck);
            lemma_times_add(actions, trace(next, rest), Work::Kill);
            lemma_step_counts(actions, Work::Spawn);
            lemma_step_counts(actions, Work::HealthCheck);
            lemma_step_counts(actions, Work::Kill);
        }
    }
}

/// Startup in which a server is being spawned or has been spawned, or in
/// which spawning has failed: whatever result it has or gets is a failure or
/// carries a password.
pub open spec fn committed<C>(s: StartupView<C>) -> bool {
    match s.stage {
        StageView::Resolving(resolver) => s.server.status is None && (resolver is Spawning
            || resolver is Resolved),
        StageView::Finished => s.server.status is Some && !(s.server.status matches Some(Ok(data))
            && data.password is None),
        _ => s.server.status is None,
    }
}

/// A run from a committed state never ends with a result without a
/// password.
proof fn lemma_spawned_never_reuses<C>(s: StartupView<C>, inputs: Seq<StepInput<C>>)
    requires
        wf(s),
        committed(s) || (!untouched(s) && s.server.status is None && !(s.stage is Finished)),
    ensures
        !(run(s, inputs).server.status matches Some(Ok(data)) && data.password is None),
    decreases inputs.len(),
{
    if inputs.len() > 0 {
        let next = advance(s, inputs[0].event, inputs[0].password).0;
        lemma_advance_preserves_wf(s, inputs[0].event, inputs[0].password);
        lemma_spawned_never_reuses(next, inputs.drop_first());
    }
}

/// How often a list of two actions at most asks for a kind of work.
proof fn lemma_step_counts<C>(actions: Seq<ActionView<C>>, work: Work)
    requires
        actions.len() <= 2,
    ensures
        times(actions, work) == (if actions.len() >= 1 && asks_for(actions[0], work) {
            1nat
        } else {
            0nat
        }) + (if actions.len() == 2 && asks_for(actions[1], work) {
            1nat
        } else {
            0nat
        }),
{
    reveal_with_fuel(times, 3);
    if actions.len() == 1 {
        assert(actions.drop_last().len() == 0);
    } else if actions.len() == 2 {
        assert(actions.drop_last().drop_last().len() == 0);
        assert(actions.drop_last().last() == actions[0]);
    }
}

/// A probe that finds no healthy server is no failure of startup: the step
/// publishes nothing and goes on to the next way of reaching a server.
pub proof fn lemma_failed_probe_is_not_fatal<C>(s: StartupView<C>, password: Seq<char>)
    ensures
        ({
            let (t, actions) = advance(
                s,
                EventView::<C>::Connection(ResolverEventView::Health(false)),
                password,
            );
            &&& t.server == s.server
            &&& t.phases == s.phases
            &&& t.stage is Failing == s.stage is Failing
            &&& t.stage is Finished == s.stage is Finished
        }),
{
}

/// After the result is published startup tries nothing again: the pipeline
/// stays finished and every later step asks for windows at most.
pub proof fn lemma_finished_is_final<C>(s: StartupView<C>, event: EventView<C>, password: Seq<char>)
    requires
        s.stage is Finished,
    ensures
        ({
            let (t, actions) = advance(s, event, password);
            &&& t.stage is Finished
            &&& t.server == s.server
            &&& forall|i: int|
                0 <= i < actions.len() ==> #[trigger] actions[i] is ShowMainWindow || actions[i]
                    is CloseLoadingWindow || actions[i] is ShowLoadingWindow
        }),
{
}

/// Whether `result` is a success, or a failure told in the one form that
/// failures are published in: a reason and the log output, set in the fixed
/// frame of [`startup_failure_text`].
pub open spec fn well_reported(result: ReadinessView) -> bool {
    match result {
        Ok(_) => true,
        Err(message) => exists|reason: Seq<char>, logs: Seq<char>|
            message == #[trigger] startup_failure_text(reason, logs),
    }
}

/// Every failure that a run from the beginning publishes has the one form
/// of [`startup_failure_text`], whatever went wrong.
pub proof fn lemma_failures_are_well_reported<C>(
    sqlite_enabled: bool,
    sqlite_exists: bool,
    inputs: Seq<StepInput<C>>,
)
    ensures
        run(initial::<C>(sqlite_enabled, sqlite_exists).0, inputs).server.status matches Some(
            result,
        ) ==> well_reported(result),
{
    lemma_reports_stay_well_formed(initial::<C>(sqlite_enabled, sqlite_exists).0, inputs);
}

/// A run keeps results well reported.
proof fn lemma_reports_stay_well_formed<C>(s: StartupView<C>, inputs: Seq<StepInput<C>>)
    requires
        s.server.status matches Some(result) ==> well_reported(result),
    ensures
        run(s, inputs).server.status matches Some(result) ==> well_reported(result),
    decreases inputs.len(),
{
    if inputs.len() > 0 {
        let next = advance(s, inputs[0].event, inputs[0].password).0;
        if s.server.status is None && next.server.status is Some && next.server.status->0
            is Err {
            let message = next.server.status->0->Err_0;
            let reason = s.stage->Failing_reason;
            let logs = inputs[0].event->Logs_0;
            assert(message == startup_failure_text(reason, logs));
        }
        lemma_reports_stay_well_formed(next, inputs.drop_first());
    }
}

} // verus!

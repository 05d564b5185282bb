use opencode_desktop::connection::{ResolverEvent, ResolverRequest};
use opencode_desktop::health::HealthCheckOutcome;
use opencode_desktop::phase::{InitStep, PhaseCursor};
use opencode_desktop::readiness::ServerReadyData;
use opencode_desktop::startup::{Action, Event, Startup, UiStage};

fn text(s: &str) -> String {
    s.to_string()
}

fn observe(startup: &Startup<u32>, cursor: &mut PhaseCursor, seen: &mut Vec<InitStep>) {
    let _ = startup.await_initialization(cursor, seen);
}

/// Drives startup up to the request to spawn a server on `port` and returns
/// the password that the request carries.
fn until_spawn(startup: &mut Startup<u32>, port: u16) -> String {
    let asked = startup.step(Event::Connection(ResolverEvent::CustomUrl(None)));
    assert_eq!(asked, vec![Action::Connection(ResolverRequest::ReadPortOverride)]);
    let asked = startup.step(Event::Connection(ResolverEvent::PortOverride {
        build_time: None,
        run_time: None,
    }));
    assert_eq!(asked, vec![Action::Connection(ResolverRequest::BindEphemeralPort)]);
    let asked = startup.step(Event::Connection(ResolverEvent::EphemeralPort(port)));
    assert_eq!(
        asked,
        vec![Action::Connection(ResolverRequest::CheckHealth {
            url: format!("http://127.0.0.1:{port}"),
        })]
    );
    let mut asked = startup.step(Event::Connection(ResolverEvent::Health(false)));
    assert_eq!(asked.len(), 1);
    match asked.remove(0) {
        Action::Connection(ResolverRequest::Spawn { hostname, port: on, password }) => {
            assert_eq!(hostname, "127.0.0.1");
            assert_eq!(on, u32::from(port));
            password
        }
        other => panic!("expected a spawn request, got {other:?}"),
    }
}

#[test]
fn new_startup_asks_for_custom_url_and_timer() {
    let (startup, first) = Startup::<u32>::new(false, true);
    assert_eq!(
        first,
        vec![
            Action::Connection(ResolverRequest::FetchCustomUrl),
            Action::StartLoadingTimer { secs: 1 },
        ]
    );
    assert_eq!(startup.phase().current(), InitStep::ServerWaiting);
    assert_eq!(startup.ui_stage(), UiStage::Racing);
    assert!(!startup.is_finished());
    assert!(startup.server_state().status().poll().is_none());
    assert!(!startup.server_state().has_child());
}

#[test]
fn healthy_custom_url_is_reused() {
    let (mut startup, _) = Startup::<u32>::new(true, false);
    let mut cursor = startup.phase().subscribe();
    let mut seen = Vec::new();
    observe(&startup, &mut cursor, &mut seen);

    let asked = startup.step(Event::Connection(ResolverEvent::CustomUrl(Some(text(
        "https://remote.example",
    )))));
    assert_eq!(
        asked,
        vec![Action::Connection(ResolverRequest::CheckHealth {
            url: text("https://remote.example"),
        })]
    );
    let asked = startup.step(Event::Connection(ResolverEvent::Health(true)));
    assert_eq!(asked, vec![Action::ShowMainWindow]);

    assert!(startup.is_finished());
    assert!(!startup.server_state().has_child());
    assert_eq!(
        startup.server_state().status().poll(),
        Some(Ok(ServerReadyData { url: text("https://remote.example"), password: None }))
    );
    let ready = startup.await_initialization(&mut cursor, &mut seen);
    assert_eq!(seen, vec![InitStep::ServerWaiting, InitStep::Done]);
    assert_eq!(
        ready,
        Some(Ok(ServerReadyData { url: text("https://remote.example"), password: None }))
    );
}

#[test]
fn unhealthy_custom_url_falls_back_to_local_port() {
    let (mut startup, _) = Startup::<u32>::new(false, true);
    startup.step(Event::Connection(ResolverEvent::CustomUrl(Some(text("https://down.example")))));
    let asked = startup.step(Event::Connection(ResolverEvent::Health(false)));
    assert_eq!(
        asked,
        vec![Action::Connection(ResolverRequest::AskRetry { url: text("https://down.example") })]
    );
    let asked = startup.step(Event::Connection(ResolverEvent::Retry(false)));
    assert_eq!(asked, vec![Action::Connection(ResolverRequest::ReadPortOverride)]);
    assert!(!startup.is_finished());
}

#[test]
fn custom_url_is_retried_once_at_most() {
    let (mut startup, _) = Startup::<u32>::new(false, true);
    startup.step(Event::Connection(ResolverEvent::CustomUrl(Some(text("https://slow.example")))));
    startup.step(Event::Connection(ResolverEvent::Health(false)));
    let asked = startup.step(Event::Connection(ResolverEvent::Retry(true)));
    assert_eq!(
        asked,
        vec![Action::Connection(ResolverRequest::CheckHealth { url: text("https://slow.example") })]
    );
    // the second failure is final: no further question
    let asked = startup.step(Event::Connection(ResolverEvent::Health(false)));
    assert_eq!(asked, vec![Action::Connection(ResolverRequest::ReadPortOverride)]);
    assert!(startup.step(Event::Connection(ResolverEvent::Retry(true))).is_empty());
}

#[test]
fn custom_url_that_recovers_on_retry_is_reused() {
    let (mut startup, _) = Startup::<u32>::new(true, false);
    startup.step(Event::Connection(ResolverEvent::CustomUrl(Some(text("https://slow.example")))));
    startup.step(Event::Connection(ResolverEvent::Health(false)));
    startup.step(Event::Connection(ResolverEvent::Retry(true)));
    let asked = startup.step(Event::Connection(ResolverEvent::Health(true)));
    assert_eq!(asked, vec![Action::ShowMainWindow]);
    assert_eq!(
        startup.server_state().status().poll(),
        Some(Ok(ServerReadyData { url: text("https://slow.example"), password: None }))
    );
    assert_eq!(startup.phase().current(), InitStep::Done);
}

#[test]
fn healthy_local_server_is_reused() {
    let (mut startup, _) = Startup::<u32>::new(true, false);
    startup.step(Event::Connection(ResolverEvent::CustomUrl(None)));
    let asked = startup.step(Event::Connection(ResolverEvent::PortOverride {
        build_time: None,
        run_time: Some(text("4096")),
    }));
    assert_eq!(
        asked,
        vec![Action::Connection(ResolverRequest::CheckHealth {
            url: text("http://127.0.0.1:4096"),
        })]
    );
    let asked = startup.step(Event::Connection(ResolverEvent::Health(true)));
    assert_eq!(asked, vec![Action::ShowMainWindow]);
    assert_eq!(
        startup.server_state().status().poll(),
        Some(Ok(ServerReadyData { url: text("http://127.0.0.1:4096"), password: None }))
    );
    assert!(!startup.server_state().has_child());
    assert_eq!(startup.phase().current(), InitStep::Done);
}

#[test]
fn spawned_server_that_reports_healthy_is_retained() {
    let (mut startup, _) = Startup::<u32>::new(false, false);
    let password = until_spawn(&mut startup, 51234);
    assert_eq!(password.len(), 36);

    let asked = startup.step(Event::Connection(ResolverEvent::Spawned(77)));
    assert_eq!(asked, vec![Action::RunHealthCheck { timeout_secs: 30 }]);
    assert!(startup.server_state().status().poll().is_none());
    assert!(!startup.server_state().has_child());

    let asked = startup.step(Event::HealthCheck(HealthCheckOutcome::Healthy));
    assert_eq!(asked, vec![Action::ShowMainWindow]);
    assert!(startup.server_state().has_child());
    assert_eq!(
        startup.server_state().status().poll(),
        Some(Ok(ServerReadyData {
            url: text("http://127.0.0.1:51234"),
            password: Some(password),
        }))
    );
    assert_eq!(startup.kill_sidecar(), Some(77));
    assert_eq!(startup.kill_sidecar(), None);
}

#[test]
fn explicit_health_failure_kills_then_reports() {
    let (mut startup, _) = Startup::<u32>::new(false, false);
    until_spawn(&mut startup, 4000);
    startup.step(Event::Connection(ResolverEvent::Spawned(9)));

    let asked = startup.step(Event::HealthCheck(HealthCheckOutcome::Rejected(text("unauthorized"))));
    assert_eq!(asked, vec![Action::Kill(9), Action::CollectLogs]);
    assert!(startup.server_state().status().poll().is_none());
    assert!(!startup.is_finished());

    let asked = startup.step(Event::Logs(text("line one\nline two")));
    assert_eq!(asked, vec![Action::ShowMainWindow]);
    let result = startup.server_state().status().poll().expect("published");
    let message = result.expect_err("startup failed");
    assert!(message.contains("unauthorized"));
    assert!(message.ends_with("line one\nline two"));
    assert_eq!(
        message,
        "Failed to spawn OpenCode Server (unauthorized). Logs:\nline one\nline two"
    );
    assert!(!startup.server_state().has_child());
    assert_eq!(startup.kill_sidecar(), None);
}

#[test]
fn health_check_timeout_is_reported_after_kill() {
    let (mut startup, _) = Startup::<u32>::new(false, false);
    until_spawn(&mut startup, 4000);
    let asked = startup.step(Event::Connection(ResolverEvent::Spawned(3)));
    assert_eq!(asked, vec![Action::RunHealthCheck { timeout_secs: 30 }]);

    let asked = startup.step(Event::HealthCheck(HealthCheckOutcome::TimedOut));
    assert_eq!(asked, vec![Action::Kill(3), Action::CollectLogs]);
    assert!(startup.server_state().status().poll().is_none());

    startup.step(Event::Logs(text("tail")));
    assert_eq!(
        startup.server_state().status().poll(),
        Some(Err(text("Failed to spawn OpenCode Server (Health check timed out). Logs:\ntail")))
    );
    assert!(!startup.server_state().has_child());
}

#[test]
fn health_check_task_fault_is_reported() {
    let (mut startup, _) = Startup::<u32>::new(false, false);
    until_spawn(&mut startup, 4000);
    startup.step(Event::Connection(ResolverEvent::Spawned(3)));
    let asked = startup.step(Event::HealthCheck(HealthCheckOutcome::TaskFailed(text("panicked"))));
    assert_eq!(asked, vec![Action::Kill(3), Action::CollectLogs]);
    startup.step(Event::Logs(text("")));
    assert_eq!(
        startup.server_state().status().poll(),
        Some(Err(text(
            "Failed to spawn OpenCode Server (Health check task failed: panicked). Logs:\n"
        )))
    );
}

#[test]
fn spawn_failure_is_reported_without_kill() {
    let (mut startup, _) = Startup::<u32>::new(true, false);
    until_spawn(&mut startup, 4000);
    let asked = startup.step(Event::Connection(ResolverEvent::SpawnFailed(text("no such file"))));
    assert_eq!(asked, vec![Action::CollectLogs]);
    assert_eq!(startup.phase().current(), InitStep::ServerWaiting);
    startup.step(Event::Logs(text("log")));
    assert_eq!(
        startup.server_state().status().poll(),
        Some(Err(text("Failed to spawn OpenCode Server (no such file). Logs:\nlog")))
    );
    assert_eq!(startup.phase().current(), InitStep::Done);
}

#[test]
fn missing_data_file_holds_back_the_health_check() {
    let (mut startup, _) = Startup::<u32>::new(true, false);
    let mut cursor = startup.phase().subscribe();
    let mut seen = Vec::new();
    until_spawn(&mut startup, 4000);

    let asked = startup.step(Event::Connection(ResolverEvent::Spawned(5)));
    assert_eq!(asked, vec![Action::WaitForDataFile { secs: 1 }]);
    assert_eq!(startup.phase().current(), InitStep::SqliteWaiting);

    // first look, one second later: still missing
    let asked = startup.step(Event::DataFile(false));
    assert_eq!(asked, vec![Action::WaitForDataFile { secs: 1 }]);
    observe(&startup, &mut cursor, &mut seen);
    assert_eq!(seen, vec![InitStep::ServerWaiting, InitStep::SqliteWaiting]);

    // a health check answer that arrives before the check was started is ignored
    let asked = startup.step(Event::HealthCheck(HealthCheckOutcome::Healthy));
    assert!(asked.is_empty());
    assert!(startup.server_state().status().poll().is_none());

    // second look, two seconds after the spawn: the file is there
    let asked = startup.step(Event::DataFile(true));
    assert_eq!(asked, vec![Action::RunHealthCheck { timeout_secs: 30 }]);
    assert_eq!(startup.phase().current(), InitStep::SqliteWaiting);
    assert!(startup.await_initialization(&mut cursor, &mut seen).is_none());

    let asked = startup.step(Event::HealthCheck(HealthCheckOutcome::Healthy));
    assert_eq!(asked, vec![Action::ShowMainWindow]);
    let ready = startup.await_initialization(&mut cursor, &mut seen);
    assert!(matches!(ready, Some(Ok(_))));
    assert_eq!(seen, vec![InitStep::ServerWaiting, InitStep::SqliteWaiting, InitStep::Done]);
    assert!(cursor.is_exhausted());
}

#[test]
fn present_data_file_skips_the_wait() {
    let (mut startup, _) = Startup::<u32>::new(true, true);
    until_spawn(&mut startup, 4000);
    let asked = startup.step(Event::Connection(ResolverEvent::Spawned(5)));
    assert_eq!(asked, vec![Action::RunHealthCheck { timeout_secs: 30 }]);
    assert_eq!(startup.phase().current(), InitStep::ServerWaiting);
}

#[test]
fn reused_server_never_waits_for_data_file() {
    let (mut startup, _) = Startup::<u32>::new(true, false);
    let mut cursor = startup.phase().subscribe();
    let mut seen = Vec::new();
    startup.step(Event::Connection(ResolverEvent::CustomUrl(Some(text("http://x")))));
    startup.step(Event::Connection(ResolverEvent::Health(true)));
    startup.step(Event::DataFile(false));
    observe(&startup, &mut cursor, &mut seen);
    assert_eq!(seen, vec![InitStep::ServerWaiting, InitStep::Done]);
}

#[test]
fn slow_startup_shows_loading_window_and_waits_for_ack() {
    let (mut startup, _) = Startup::<u32>::new(false, false);
    until_spawn(&mut startup, 4000);
    startup.step(Event::Connection(ResolverEvent::Spawned(5)));

    let asked = startup.step(Event::LoadingTimer);
    assert_eq!(asked, vec![Action::ShowLoadingWindow { hold_secs: 1 }]);
    assert_eq!(startup.ui_stage(), UiStage::Loading { settled: false });
    assert!(startup.step(Event::LoadingTimer).is_empty());

    let asked = startup.step(Event::LoadingSettled);
    assert!(asked.is_empty());
    assert_eq!(startup.ui_stage(), UiStage::Loading { settled: true });

    let asked = startup.step(Event::HealthCheck(HealthCheckOutcome::Healthy));
    assert!(asked.is_empty());
    assert_eq!(startup.ui_stage(), UiStage::AwaitingAck);
    assert_eq!(startup.phase().current(), InitStep::Done);
    assert!(startup.server_state().status().poll().is_some());

    let asked = startup.step(Event::LoadingWindowComplete);
    assert_eq!(asked, vec![Action::ShowMainWindow, Action::CloseLoadingWindow]);
    assert_eq!(startup.ui_stage(), UiStage::Presented);
    assert!(startup.step(Event::LoadingWindowComplete).is_empty());
}

#[test]
fn result_published_while_loading_window_settles_defers_done() {
    let (mut startup, _) = Startup::<u32>::new(false, false);
    startup.step(Event::Connection(ResolverEvent::CustomUrl(Some(text("http://x")))));
    startup.step(Event::LoadingTimer);
    let asked = startup.step(Event::Connection(ResolverEvent::Health(true)));
    assert!(asked.is_empty());
    assert!(startup.is_finished());
    assert!(startup.server_state().status().poll().is_some());
    assert_eq!(startup.phase().current(), InitStep::ServerWaiting);

    let asked = startup.step(Event::LoadingSettled);
    assert!(asked.is_empty());
    assert_eq!(startup.phase().current(), InitStep::Done);
    assert_eq!(startup.ui_stage(), UiStage::AwaitingAck);
}

#[test]
fn early_ack_is_remembered() {
    let (mut startup, _) = Startup::<u32>::new(false, false);
    startup.step(Event::Connection(ResolverEvent::CustomUrl(Some(text("http://x")))));
    startup.step(Event::LoadingTimer);
    assert!(startup.step(Event::LoadingWindowComplete).is_empty());
    startup.step(Event::LoadingSettled);
    let asked = startup.step(Event::Connection(ResolverEvent::Health(true)));
    assert_eq!(asked, vec![Action::ShowMainWindow, Action::CloseLoadingWindow]);
    assert_eq!(startup.ui_stage(), UiStage::Presented);
    assert_eq!(startup.phase().current(), InitStep::Done);
}

#[test]
fn timer_after_fast_startup_is_ignored() {
    let (mut startup, _) = Startup::<u32>::new(false, false);
    startup.step(Event::Connection(ResolverEvent::CustomUrl(Some(text("http://x")))));
    startup.step(Event::Connection(ResolverEvent::Health(true)));
    assert!(startup.step(Event::LoadingTimer).is_empty());
    assert!(startup.step(Event::LoadingSettled).is_empty());
    assert_eq!(startup.ui_stage(), UiStage::Presented);
}

#[test]
fn events_that_do_not_fit_change_nothing() {
    let (mut startup, _) = Startup::<u32>::new(true, false);
    assert!(startup.step(Event::DataFile(true)).is_empty());
    assert!(startup.step(Event::HealthCheck(HealthCheckOutcome::TimedOut)).is_empty());
    assert!(startup.step(Event::Logs(text("x"))).is_empty());
    assert!(startup.step(Event::Connection(ResolverEvent::Health(true))).is_empty());
    assert!(startup.step(Event::Connection(ResolverEvent::Spawned(1))).is_empty());
    assert!(!startup.is_finished());
    assert_eq!(startup.phase().current(), InitStep::ServerWaiting);
    let asked = startup.step(Event::Connection(ResolverEvent::CustomUrl(None)));
    assert_eq!(asked, vec![Action::Connection(ResolverRequest::ReadPortOverride)]);
}

#[test]
fn published_result_survives_later_events() {
    let (mut startup, _) = Startup::<u32>::new(false, false);
    startup.step(Event::Connection(ResolverEvent::CustomUrl(Some(text("http://x")))));
    startup.step(Event::Connection(ResolverEvent::Health(true)));
    let before = startup.server_state().status().poll();
    startup.step(Event::Logs(text("late")));
    startup.step(Event::HealthCheck(HealthCheckOutcome::TimedOut));
    startup.step(Event::Connection(ResolverEvent::Health(false)));
    startup.step(Event::LoadingWindowComplete);
    assert_eq!(startup.server_state().status().poll(), before);
    assert_eq!(before, Some(Ok(ServerReadyData { url: text("http://x"), password: None })));
}

#[test]
fn late_subscriber_sees_only_done() {
    let (mut startup, _) = Startup::<u32>::new(false, false);
    startup.step(Event::Connection(ResolverEvent::CustomUrl(Some(text("http://x")))));
    startup.step(Event::Connection(ResolverEvent::Health(true)));
    let mut cursor = startup.phase().subscribe();
    let mut seen = Vec::new();
    let ready = startup.await_initialization(&mut cursor, &mut seen);
    assert_eq!(seen, vec![InitStep::Done]);
    assert!(ready.is_some());
    let again = startup.await_initialization(&mut cursor, &mut seen);
    assert_eq!(seen, vec![InitStep::Done]);
    assert_eq!(again, ready);
}

#[test]
fn step_with_uses_the_given_password() {
    let (mut startup, _) = Startup::<u32>::new(false, false);
    startup.step(Event::Connection(ResolverEvent::CustomUrl(None)));
    startup.step(Event::Connection(ResolverEvent::PortOverride {
        build_time: Some(text("8080")),
        run_time: Some(text("9090")),
    }));
    let asked = startup.step_with(Event::Connection(ResolverEvent::Health(false)), text("secret"));
    assert_eq!(
        asked,
        vec![Action::Connection(ResolverRequest::Spawn {
            hostname: text("127.0.0.1"),
            port: 8080,
            password: text("secret"),
        })]
    );
    startup.step(Event::Connection(ResolverEvent::Spawned(1)));
    startup.step(Event::HealthCheck(HealthCheckOutcome::Healthy));
    assert_eq!(
        startup.server_state().status().poll(),
        Some(Ok(ServerReadyData {
            url: text("http://127.0.0.1:8080"),
            password: Some(text("secret")),
        }))
    );
}

/// A small deterministic generator of events.
struct Events {
    state: u64,
}

impl Events {
    fn below(&mut self, bound: u64) -> u64 {
        self.state = self.state.wrapping_mul(6364136223846793005).wrapping_add(1442695040888963407);
        (self.state >> 33) % bound
    }

    fn next_event(&mut self) -> Event<u32> {
        match self.below(18) {
            0 => Event::Connection(ResolverEvent::Begin),
            1 => Event::Connection(ResolverEvent::CustomUrl(None)),
            2 => Event::Connection(ResolverEvent::CustomUrl(Some(text("http://stored")))),
            3 | 4 => Event::Connection(ResolverEvent::Health(false)),
            5 => Event::Connection(ResolverEvent::Health(true)),
            6 => Event::Connection(ResolverEvent::Retry(self.below(2) == 0)),
            7 => Event::Connection(ResolverEvent::PortOverride {
                build_time: None,
                run_time: if self.below(2) == 0 { Some(text("7000")) } else { None },
            }),
            8 => Event::Connection(ResolverEvent::EphemeralPort(50123)),
            9 => Event::Connection(ResolverEvent::Spawned(self.below(1000) as u32)),
            10 => Event::Connection(ResolverEvent::SpawnFailed(text("refused"))),
            11 => Event::DataFile(self.below(2) == 0),
            12 => Event::HealthCheck(HealthCheckOutcome::Healthy),
            13 => Event::HealthCheck(HealthCheckOutcome::TimedOut),
            14 => Event::Logs(text("tail")),
            15 => Event::LoadingTimer,
            16 => Event::LoadingSettled,
            _ => Event::LoadingWindowComplete,
        }
    }
}

#[test]
fn no_run_asks_for_any_work_twice() {
    let mut events = Events { state: 2024 };
    let mut finished_runs = 0;
    for round in 0..3000u64 {
        let (mut startup, first) = Startup::<u32>::new(round % 2 == 0, round % 3 == 0);
        let mut asked = first;
        let mut cursor = startup.phase().subscribe();
        let mut seen = Vec::new();
        let mut published = None;
        for _ in 0..60 {
            asked.extend(startup.step(events.next_event()));
            let ready = startup.await_initialization(&mut cursor, &mut seen);
            let status = startup.server_state().status().poll();
            if published.is_some() {
                assert_eq!(status, published, "a published result never changes");
            }
            if startup.phase().current() == InitStep::Done {
                assert!(status.is_some(), "Done only after the result is published");
            }
            if let Some(Err(_)) = status {
                assert!(!startup.server_state().has_child());
            }
            if ready.is_some() {
                assert_eq!(ready, status);
                assert_eq!(seen.last(), Some(&InitStep::Done));
            }
            published = status;
        }
        let count = |wanted: &dyn Fn(&Action<u32>) -> bool| asked.iter().filter(|a| wanted(a)).count();
        assert!(count(&|a| matches!(a, Action::Connection(ResolverRequest::Spawn { .. }))) <= 1);
        assert!(count(&|a| matches!(a, Action::Connection(ResolverRequest::AskRetry { .. }))) <= 1);
        assert!(count(&|a| matches!(a, Action::Connection(ResolverRequest::FetchCustomUrl))) == 1);
        assert!(count(&|a| matches!(a, Action::StartLoadingTimer { .. })) == 1);
        assert!(count(&|a| matches!(a, Action::RunHealthCheck { .. })) <= 1);
        assert!(count(&|a| matches!(a, Action::Kill(_))) <= 1);
        assert!(count(&|a| matches!(a, Action::CollectLogs)) <= 1);
        assert!(count(&|a| matches!(a, Action::ShowLoadingWindow { .. })) <= 1);
        assert!(count(&|a| matches!(a, Action::ShowMainWindow)) <= 1);
        assert!(count(&|a| matches!(a, Action::CloseLoadingWindow)) <= 1);

        let allowed: [&[InitStep]; 4] = [
            &[InitStep::ServerWaiting],
            &[InitStep::ServerWaiting, InitStep::SqliteWaiting],
            &[InitStep::ServerWaiting, InitStep::Done],
            &[InitStep::ServerWaiting, InitStep::SqliteWaiting, InitStep::Done],
        ];
        assert!(allowed.contains(&seen.as_slice()), "{seen:?}");
        if let Some(Ok(data)) = &published {
            if data.password.is_none() {
                assert_eq!(count(&|a| matches!(a, Action::Connection(ResolverRequest::Spawn { .. }))), 0);
                assert!(!seen.contains(&InitStep::SqliteWaiting));
                assert!(!startup.server_state().has_child());
            } else {
                assert!(startup.server_state().has_child());
            }
        }
        if startup.ui_stage() == UiStage::Presented {
            finished_runs += 1;
            assert_eq!(seen.last(), Some(&InitStep::Done));
            assert_eq!(count(&|a| matches!(a, Action::ShowMainWindow)), 1);
        }
    }
    assert!(finished_runs > 100, "only {finished_runs} runs came to an end");
}

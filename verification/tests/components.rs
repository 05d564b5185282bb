use opencode_desktop::apps::{
    check_linux_app, check_macos_app, check_windows_app, macos_app_locations, resolve_app_path,
    Platform,
};
use opencode_desktop::connection::{
    generate_password, get_sidecar_port, server_url, setup_server_connection,
    setup_server_connection_with, Resolution, ResolverEvent, ResolverRequest, ResolverState,
    ServerConnection,
};
use opencode_desktop::display::{get_display_backend, set_display_backend, LinuxDisplayBackend};
use opencode_desktop::health::{
    startup_failure_message, HealthCheckOutcome, HEALTH_CHECK_TIMEOUT_SECS,
};
use opencode_desktop::phase::{InitStep, PhaseBroadcaster, PhasePoll};
use opencode_desktop::process::{kill_sidecar, ProcessHandle, ServerState};
use opencode_desktop::readiness::{clone_readiness, ReadinessBroadcaster, ServerReadyData};
use opencode_desktop::storage::{
    opencode_db_path, sqlite_file_exists, wait_until_exists, DbPathError, DataWait,
    DATA_POLL_INTERVAL_SECS,
};
use opencode_desktop::text::{decimal_string, parse_port};

fn text(s: &str) -> String {
    s.to_string()
}

#[test]
fn init_step_order() {
    assert!(InitStep::ServerWaiting.precedes(InitStep::SqliteWaiting));
    assert!(InitStep::ServerWaiting.precedes(InitStep::Done));
    assert!(InitStep::SqliteWaiting.precedes(InitStep::Done));
    assert!(!InitStep::Done.precedes(InitStep::SqliteWaiting));
    assert!(!InitStep::SqliteWaiting.precedes(InitStep::SqliteWaiting));
    assert!(!InitStep::Done.precedes(InitStep::ServerWaiting));
    assert!(InitStep::Done.is_done());
    assert!(!InitStep::ServerWaiting.is_done());
}

#[test]
fn cursor_yields_current_then_changes_then_is_exhausted() {
    let mut phases = PhaseBroadcaster::new(InitStep::ServerWaiting);
    let mut early = phases.subscribe();
    assert_eq!(early.poll(&phases), PhasePoll::Ready(InitStep::ServerWaiting));
    assert_eq!(early.poll(&phases), PhasePoll::Pending);
    assert_eq!(early.poll(&phases), PhasePoll::Pending);

    phases.set(InitStep::SqliteWaiting);
    let mut middle = phases.subscribe();
    phases.set(InitStep::Done);
    let mut late = phases.subscribe();

    assert_eq!(early.poll(&phases), PhasePoll::Ready(InitStep::SqliteWaiting));
    assert_eq!(early.poll(&phases), PhasePoll::Ready(InitStep::Done));
    assert_eq!(early.poll(&phases), PhasePoll::Exhausted);
    assert!(early.is_exhausted());

    assert_eq!(middle.poll(&phases), PhasePoll::Ready(InitStep::SqliteWaiting));
    assert_eq!(middle.poll(&phases), PhasePoll::Ready(InitStep::Done));
    assert_eq!(middle.poll(&phases), PhasePoll::Exhausted);

    assert_eq!(late.poll(&phases), PhasePoll::Ready(InitStep::Done));
    assert_eq!(late.poll(&phases), PhasePoll::Exhausted);
    assert_eq!(phases.current(), InitStep::Done);
}

#[test]
fn cursor_observes_every_transition_between_polls() {
    let mut phases = PhaseBroadcaster::new(InitStep::ServerWaiting);
    let mut cursor = phases.subscribe();
    phases.set(InitStep::SqliteWaiting);
    phases.set(InitStep::Done);
    let mut seen = vec![];
    cursor.drain(&phases, &mut seen);
    assert_eq!(seen, vec![InitStep::ServerWaiting, InitStep::SqliteWaiting, InitStep::Done]);
    cursor.drain(&phases, &mut seen);
    assert_eq!(seen.len(), 3);
}

#[test]
fn cursor_stops_at_done_even_if_log_goes_on() {
    let mut phases = PhaseBroadcaster::new(InitStep::Done);
    let mut cursor = phases.subscribe();
    phases.set(InitStep::ServerWaiting);
    let mut seen = vec![InitStep::SqliteWaiting];
    cursor.drain(&phases, &mut seen);
    assert_eq!(seen, vec![InitStep::SqliteWaiting, InitStep::Done]);
    assert_eq!(cursor.poll(&phases), PhasePoll::Exhausted);
}

#[test]
fn readiness_is_published_once() {
    let mut cell = ReadinessBroadcaster::new();
    assert!(!cell.is_published());
    assert_eq!(cell.poll(), None);
    let first = Ok(ServerReadyData { url: text("http://a"), password: Some(text("p")) });
    assert!(cell.publish(clone_readiness(&first)));
    assert!(cell.is_published());
    assert_eq!(cell.poll(), Some(clone_readiness(&first)));
    assert!(!cell.publish(Err(text("too late"))));
    assert!(!cell.publish(Ok(ServerReadyData { url: text("http://b"), password: None })));
    assert_eq!(cell.poll(), Some(clone_readiness(&first)));
    assert_eq!(cell.poll(), cell.poll());
}

#[test]
fn readiness_error_is_kept() {
    let mut cell = ReadinessBroadcaster::new();
    assert!(cell.publish(Err(text("boom"))));
    assert!(!cell.publish(Ok(ServerReadyData { url: text("http://a"), password: None })));
    assert_eq!(cell.poll(), Some(Err(text("boom"))));
}

#[test]
fn server_ready_data_clone_is_equal() {
    let data = ServerReadyData { url: text("http://a"), password: Some(text("p")) };
    assert_eq!(data.clone(), data);
    let bare = ServerReadyData { url: text("http://a"), password: None };
    assert_eq!(bare.clone(), bare);
    assert_ne!(bare, data);
}

#[test]
fn process_handle_take_and_kill_twice() {
    let mut slot = ProcessHandle::new(Some(41u32));
    assert!(slot.is_live());
    assert_eq!(slot.take_and_kill(), Some(41));
    assert!(!slot.is_live());
    assert_eq!(slot.take_and_kill(), None);
    assert!(!slot.is_live());
}

#[test]
fn process_handle_replace_drops_stale_occupant() {
    let mut slot = ProcessHandle::new(None);
    assert!(!slot.is_live());
    slot.replace(Some(1u32));
    slot.replace(Some(2u32));
    assert_eq!(slot.take_and_kill(), Some(2));
    slot.replace(Some(3u32));
    slot.replace(None);
    assert_eq!(slot.take_and_kill(), None);
}

#[test]
fn server_state_new_and_set_child() {
    let mut status = ReadinessBroadcaster::new();
    status.publish(Err(text("e")));
    let mut state = ServerState::new(Some(5u32), status);
    assert!(state.has_child());
    assert_eq!(state.status().poll(), Some(Err(text("e"))));
    state.set_child(None);
    assert!(!state.has_child());
    state.set_child(Some(6));
    assert_eq!(kill_sidecar(&mut state), Some(6));
    assert_eq!(kill_sidecar(&mut state), None);
    assert_eq!(state.status().poll(), Some(Err(text("e"))));
    assert!(!state.publish(Err(text("again"))));
}

#[test]
fn failure_reasons() {
    assert_eq!(HealthCheckOutcome::Healthy.failure_reason(), None);
    assert!(HealthCheckOutcome::Healthy.is_healthy());
    assert_eq!(
        HealthCheckOutcome::Rejected(text("unauthorized")).failure_reason(),
        Some(text("unauthorized"))
    );
    assert_eq!(
        HealthCheckOutcome::TaskFailed(text("cancelled")).failure_reason(),
        Some(text("Health check task failed: cancelled"))
    );
    assert_eq!(
        HealthCheckOutcome::TimedOut.failure_reason(),
        Some(text("Health check timed out"))
    );
    assert!(!HealthCheckOutcome::TimedOut.is_healthy());
    assert_eq!(HEALTH_CHECK_TIMEOUT_SECS, 30);
}

#[test]
fn health_check_answers_are_classified() {
    assert_eq!(HealthCheckOutcome::classify(Some(Ok(Ok(())))), HealthCheckOutcome::Healthy);
    assert_eq!(
        HealthCheckOutcome::classify(Some(Ok(Err(text("unauthorized"))))),
        HealthCheckOutcome::Rejected(text("unauthorized"))
    );
    assert_eq!(
        HealthCheckOutcome::classify(Some(Err(text("task 7 panicked")))),
        HealthCheckOutcome::TaskFailed(text("task 7 panicked"))
    );
    assert_eq!(HealthCheckOutcome::classify(None), HealthCheckOutcome::TimedOut);
}

#[test]
fn failure_message_embeds_reason_and_logs() {
    assert_eq!(
        startup_failure_message("unauthorized", "a\nb"),
        "Failed to spawn OpenCode Server (unauthorized). Logs:\na\nb"
    );
    assert_eq!(startup_failure_message("", ""), "Failed to spawn OpenCode Server (). Logs:\n");
}

#[test]
fn decimal_strings() {
    assert_eq!(decimal_string(0), "0");
    assert_eq!(decimal_string(7), "7");
    assert_eq!(decimal_string(10), "10");
    assert_eq!(decimal_string(65535), "65535");
    assert_eq!(decimal_string(1_000_000), "1000000");
    assert_eq!(decimal_string(u32::MAX), "4294967295");
}

#[test]
fn parse_port_accepts_what_a_u16_parse_accepts() {
    let cases = [
        "0", "1", "80", "4096", "65535", "65536", "99999", "+80", "+", "", "-1", "-0", " 80",
        "80 ", "8_0", "0x50", "00080", "0000000000000000000065535", "00000000000000000000065536",
        "+0", "++1", "1+", "１２", "٣", "12a", "a12", "4294967376", "18446744073709551696",
    ];
    for case in cases {
        assert_eq!(parse_port(case), case.parse::<u16>().ok(), "{case:?}");
    }
    assert_eq!(parse_port("4096"), Some(4096));
    assert_eq!(parse_port("+443"), Some(443));
    assert_eq!(parse_port("65536"), None);
}

#[test]
fn sidecar_port_prefers_build_time_setting() {
    assert_eq!(get_sidecar_port(&Some(text("1234")), &Some(text("5678"))), Some(1234));
    assert_eq!(get_sidecar_port(&None, &Some(text("5678"))), Some(5678));
    assert_eq!(get_sidecar_port(&None, &None), None);
    // a build-time setting that is no port still hides the run-time one
    assert_eq!(get_sidecar_port(&Some(text("nope")), &Some(text("5678"))), None);
    assert_eq!(get_sidecar_port(&None, &Some(text("70000"))), None);
}

#[test]
fn server_urls() {
    assert_eq!(server_url("127.0.0.1", 4096), "http://127.0.0.1:4096");
    assert_eq!(server_url("localhost", 0), "http://localhost:0");
}

#[test]
fn generated_password_is_a_random_uuid() {
    let password = generate_password();
    let chars: Vec<char> = password.chars().collect();
    assert_eq!(chars.len(), 36);
    for (i, c) in chars.iter().enumerate() {
        if i == 8 || i == 13 || i == 18 || i == 23 {
            assert_eq!(*c, '-');
        } else {
            assert!(matches!(*c, '0'..='9' | 'a'..='f'), "{c:?} at {i}");
        }
    }
    assert_eq!(chars[14], '4');
    assert!(matches!(chars[19], '8' | '9' | 'a' | 'b'));
    assert_ne!(generate_password(), password);
}

#[test]
fn resolver_walks_through_to_spawn() {
    let (state, answer) = setup_server_connection::<u32>(ResolverState::Start, ResolverEvent::Begin);
    assert_eq!(state, ResolverState::AwaitingCustomUrl);
    assert_eq!(answer, Resolution::Request(ResolverRequest::FetchCustomUrl));

    let (state, answer) =
        setup_server_connection::<u32>(state, ResolverEvent::CustomUrl(Some(text("http://c"))));
    assert_eq!(state, ResolverState::ProbingCustom { url: text("http://c"), retried: false });
    assert_eq!(answer, Resolution::Request(ResolverRequest::CheckHealth { url: text("http://c") }));

    let (state, answer) = setup_server_connection::<u32>(state, ResolverEvent::Health(false));
    assert_eq!(state, ResolverState::AskingRetry { url: text("http://c") });
    assert_eq!(answer, Resolution::Request(ResolverRequest::AskRetry { url: text("http://c") }));

    let (state, answer) = setup_server_connection::<u32>(state, ResolverEvent::Retry(true));
    assert_eq!(state, ResolverState::ProbingCustom { url: text("http://c"), retried: true });
    assert_eq!(answer, Resolution::Request(ResolverRequest::CheckHealth { url: text("http://c") }));

    let (state, answer) = setup_server_connection::<u32>(state, ResolverEvent::Health(false));
    assert_eq!(state, ResolverState::AwaitingPortOverride);
    assert_eq!(answer, Resolution::Request(ResolverRequest::ReadPortOverride));

    let (state, answer) = setup_server_connection::<u32>(
        state,
        ResolverEvent::PortOverride { build_time: None, run_time: Some(text("not a port")) },
    );
    assert_eq!(state, ResolverState::AwaitingEphemeralPort);
    assert_eq!(answer, Resolution::Request(ResolverRequest::BindEphemeralPort));

    let (state, answer) = setup_server_connection::<u32>(state, ResolverEvent::EphemeralPort(50000));
    assert_eq!(
        state,
        ResolverState::ProbingLocal { port: 50000, url: text("http://127.0.0.1:50000") }
    );
    assert_eq!(
        answer,
        Resolution::Request(ResolverRequest::CheckHealth { url: text("http://127.0.0.1:50000") })
    );

    let (state, answer) = setup_server_connection::<u32>(state, ResolverEvent::Health(false));
    let password = match &state {
        ResolverState::Spawning { url, password } => {
            assert_eq!(url, "http://127.0.0.1:50000");
            password.clone()
        }
        other => panic!("unexpected state {other:?}"),
    };
    assert_eq!(password.len(), 36);
    assert_eq!(
        answer,
        Resolution::Request(ResolverRequest::Spawn {
            hostname: text("127.0.0.1"),
            port: 50000,
            password: password.clone(),
        })
    );

    let (state, answer) = setup_server_connection(state, ResolverEvent::Spawned(12u32));
    assert_eq!(state, ResolverState::Resolved);
    assert_eq!(
        answer,
        Resolution::Connected(ServerConnection::CLI {
            url: text("http://127.0.0.1:50000"),
            password,
            child: 12,
        })
    );

    let (state, answer) = setup_server_connection(state, ResolverEvent::Spawned(13u32));
    assert_eq!(state, ResolverState::Resolved);
    assert_eq!(answer, Resolution::Unexpected);
}

#[test]
fn resolver_reuses_healthy_servers() {
    let (state, answer) = setup_server_connection_with::<u32>(
        ResolverState::ProbingCustom { url: text("http://c"), retried: false },
        ResolverEvent::Health(true),
        text("unused"),
    );
    assert_eq!(state, ResolverState::Resolved);
    assert_eq!(answer, Resolution::Connected(ServerConnection::Existing { url: text("http://c") }));

    let (state, answer) = setup_server_connection_with::<u32>(
        ResolverState::ProbingLocal { port: 1, url: text("http://127.0.0.1:1") },
        ResolverEvent::Health(true),
        text("unused"),
    );
    assert_eq!(state, ResolverState::Resolved);
    assert_eq!(
        answer,
        Resolution::Connected(ServerConnection::Existing { url: text("http://127.0.0.1:1") })
    );
}

#[test]
fn resolver_reports_spawn_failure_and_ignores_misfits() {
    let spawning = ResolverState::Spawning { url: text("u"), password: text("p") };
    let (state, answer) = setup_server_connection_with::<u32>(
        spawning,
        ResolverEvent::SpawnFailed(text("denied")),
        text(""),
    );
    assert_eq!(state, ResolverState::Resolved);
    assert_eq!(answer, Resolution::SpawnFailed(text("denied")));

    let (state, answer) = setup_server_connection_with::<u32>(
        ResolverState::AwaitingCustomUrl,
        ResolverEvent::Health(true),
        text(""),
    );
    assert_eq!(state, ResolverState::AwaitingCustomUrl);
    assert_eq!(answer, Resolution::Unexpected);

    let (state, answer) = setup_server_connection_with::<u32>(
        ResolverState::AwaitingCustomUrl,
        ResolverEvent::CustomUrl(None),
        text(""),
    );
    assert_eq!(state, ResolverState::AwaitingPortOverride);
    assert_eq!(answer, Resolution::Request(ResolverRequest::ReadPortOverride));
}

#[test]
fn db_path_follows_data_home_then_home() {
    assert_eq!(
        opencode_db_path(Some("/data"), Some("/home/u")),
        Ok(text("/data/opencode/opencode.db"))
    );
    assert_eq!(
        opencode_db_path(Some("/data/"), None),
        Ok(text("/data/opencode/opencode.db"))
    );
    assert_eq!(
        opencode_db_path(Some(""), Some("/home/u")),
        Ok(text("/home/u/.local/share/opencode/opencode.db"))
    );
    assert_eq!(
        opencode_db_path(None, Some("/home/u/")),
        Ok(text("/home/u/.local/share/opencode/opencode.db"))
    );
    assert_eq!(opencode_db_path(None, Some("/")), Ok(text("/.local/share/opencode/opencode.db")));
    assert_eq!(opencode_db_path(None, None), Err(DbPathError::NoHomeDirectory));
    assert_eq!(opencode_db_path(Some(""), None), Err(DbPathError::NoHomeDirectory));
    assert_eq!(DbPathError::NoHomeDirectory.message(), "cannot determine home directory");
}

#[test]
fn db_path_agrees_with_path_join() {
    for base in ["/data", "/data/", "", "relative/dir", "/"] {
        let joined = std::path::Path::new(base).join("opencode").join("opencode.db");
        if base.is_empty() {
            continue;
        }
        assert_eq!(
            opencode_db_path(Some(base), None).unwrap(),
            joined.to_string_lossy().to_string()
        );
    }
    for home in ["/home/u", "/home/u/", "/", ""] {
        let joined = std::path::Path::new(home)
            .join(".local")
            .join("share")
            .join("opencode")
            .join("opencode.db");
        assert_eq!(
            opencode_db_path(None, Some(home)).unwrap(),
            joined.to_string_lossy().to_string()
        );
    }
}

#[test]
fn unknown_db_path_counts_as_present() {
    assert!(sqlite_file_exists(&Err(DbPathError::NoHomeDirectory), false));
    assert!(sqlite_file_exists(&Err(DbPathError::NoHomeDirectory), true));
    assert!(sqlite_file_exists(&Ok(text("/x")), true));
    assert!(!sqlite_file_exists(&Ok(text("/x")), false));
}

#[test]
fn data_wait_polls_every_second_until_present() {
    assert_eq!(wait_until_exists(false), DataWait::Retry { after_secs: 1 });
    assert_eq!(wait_until_exists(true), DataWait::Open);
    assert_eq!(DATA_POLL_INTERVAL_SECS, 1);
}

#[test]
fn display_backend_round_trip() {
    assert_eq!(get_display_backend(true, Some(true)), Some(LinuxDisplayBackend::Wayland));
    assert_eq!(get_display_backend(true, Some(false)), Some(LinuxDisplayBackend::Auto));
    assert_eq!(get_display_backend(true, None), Some(LinuxDisplayBackend::Auto));
    assert_eq!(get_display_backend(false, Some(true)), None);
    assert_eq!(set_display_backend(true, LinuxDisplayBackend::Wayland), Some(true));
    assert_eq!(set_display_backend(true, LinuxDisplayBackend::Auto), Some(false));
    assert_eq!(set_display_backend(false, LinuxDisplayBackend::Wayland), None);
    assert!(LinuxDisplayBackend::Wayland.prefers_wayland());
    assert!(!LinuxDisplayBackend::Auto.prefers_wayland());
}

#[test]
fn app_checks() {
    assert!(check_linux_app("anything"));
    assert!(check_linux_app(""));
    assert_eq!(
        macos_app_locations("Zed", Some("/Users/u")),
        vec![
            text("/Applications/Zed.app"),
            text("/System/Applications/Zed.app"),
            text("/Users/u/Applications/Zed.app"),
        ]
    );
    assert_eq!(
        macos_app_locations("Zed", None),
        vec![text("/Applications/Zed.app"), text("/System/Applications/Zed.app")]
    );
    assert!(check_macos_app(true, false));
    assert!(check_macos_app(false, true));
    assert!(!check_macos_app(false, false));
    assert!(check_windows_app(&Some(text("C:\\code.exe"))));
    assert!(!check_windows_app(&None));
    assert_eq!(resolve_app_path(Platform::Linux, "code", None), Some(text("code")));
    assert_eq!(resolve_app_path(Platform::MacOs, "code", Some(text("x"))), Some(text("code")));
    assert_eq!(resolve_app_path(Platform::Windows, "code", None), None);
    assert_eq!(
        resolve_app_path(Platform::Windows, "code", Some(text("C:\\code.exe"))),
        Some(text("C:\\code.exe"))
    );
}

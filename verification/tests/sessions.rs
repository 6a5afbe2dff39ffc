use terminal_sessions::commands::{
    close_terminal, create_terminal_session, force_kill_terminal, register_session,
    register_session_as, resize_terminal, restart_terminal_session, send_terminal_input,
    CreateTerminalPayload, CreateTerminalResponse, ForceKillPayload, RestartTerminalPayload,
};
use terminal_sessions::error::{TerminalError, TransportStage};
use terminal_sessions::events::{event_name, TerminalEvent};
use terminal_sessions::exit::{
    exit_event, signed_exit_code, ExitWatcher, WaitOutcome, WatcherPhase,
};
use terminal_sessions::launch::{
    pty_size, DirectoryFacts, HostEnvironment, PtySize, LOGIN_FLAG,
};
use terminal_sessions::registry::{TerminalSession, TerminalState};

fn host() -> HostEnvironment {
    HostEnvironment { shell: None, term: None, colorterm: None, lc_all: None, lang: None }
}

fn facts(home: Option<&str>) -> DirectoryFacts {
    DirectoryFacts {
        requested_exists: false,
        requested_is_dir: false,
        home: home.map(|h| h.to_string()),
        home_exists: true,
        home_is_dir: true,
    }
}

fn three_sessions() -> TerminalState<u32> {
    let mut state = TerminalState::new();
    assert_eq!(state.insert("a".to_string(), 1), None);
    assert_eq!(state.insert("b".to_string(), 2), None);
    assert_eq!(state.insert("c".to_string(), 3), None);
    state
}

#[test]
fn registry_starts_empty() {
    let state: TerminalState<u32> = TerminalState::new();
    assert_eq!(state.len(), 0);
    assert!(state.is_empty());
    assert!(!state.contains("a"));
    assert_eq!(state.get("a"), None);
    assert!(state.session_ids().is_empty());
}

#[test]
fn registry_finds_what_was_inserted() {
    let state = three_sessions();
    assert_eq!(state.len(), 3);
    assert!(!state.is_empty());
    assert_eq!(state.get("b"), Some(&2));
    assert!(state.contains("c"));
    assert!(!state.contains("d"));
    assert_eq!(state.session_ids(), vec!["a".to_string(), "b".to_string(), "c".to_string()]);
}

#[test]
fn registry_insert_replaces_under_the_same_id() {
    let mut state = three_sessions();
    assert_eq!(state.insert("b".to_string(), 20), Some(2));
    assert_eq!(state.len(), 3);
    assert_eq!(state.get("b"), Some(&20));
    assert_eq!(state.session_ids(), vec!["a".to_string(), "b".to_string(), "c".to_string()]);
}

#[test]
fn registry_remove_leaves_the_others() {
    let mut state = three_sessions();
    assert_eq!(state.remove("b"), Some(2));
    assert_eq!(state.len(), 2);
    assert_eq!(state.get("a"), Some(&1));
    assert_eq!(state.get("b"), None);
    assert_eq!(state.get("c"), Some(&3));
    assert_eq!(state.session_ids(), vec!["a".to_string(), "c".to_string()]);
}

#[test]
fn registry_take_all_keeps_the_order() {
    let mut state = three_sessions();
    assert_eq!(state.take_all(), vec![1, 2, 3]);
    assert_eq!(state.len(), 0);
    assert_eq!(state.take_all(), Vec::<u32>::new());
}

#[test]
fn session_holds_its_three_handles() {
    let session = TerminalSession { master: 1u8, writer: "w", child: 3u64 };
    let mut state = TerminalState::new();
    state.insert("s".to_string(), session);
    let found = state.get("s").expect("registered");
    assert_eq!((found.master, found.writer, found.child), (1u8, "w", 3u64));
}

#[test]
fn close_is_idempotent() {
    let mut state = three_sessions();
    assert_eq!(close_terminal("unknown-id", &mut state), None);
    assert_eq!(state.len(), 3);
    assert_eq!(close_terminal("a", &mut state), Some(1));
    assert_eq!(state.len(), 2);
    assert_eq!(close_terminal("a", &mut state), None);
    assert_eq!(state.len(), 2);
    assert_eq!(state.session_ids(), vec!["b".to_string(), "c".to_string()]);
}

#[test]
fn write_to_unknown_session_is_not_found() {
    let state = three_sessions();
    let request = send_terminal_input("unknown-id", "echo hi\n", &state);
    assert_eq!(request.err(), Some(TerminalError::SessionNotFound));
    assert_eq!(TerminalError::SessionNotFound.message(), "Terminal session not found");
}

#[test]
fn write_goes_to_the_named_session_as_raw_bytes() {
    let state = three_sessions();
    let request = send_terminal_input("b", "echo héllo\n", &state).ok().expect("registered");
    assert_eq!(*request.session, 2);
    assert_eq!(request.bytes, "echo héllo\n".as_bytes());
    assert_eq!(state.len(), 3);
}

#[test]
fn resize_names_session_and_size() {
    let state = three_sessions();
    let request = resize_terminal("c", 120, 40, &state).ok().expect("registered");
    assert_eq!(*request.session, 3);
    assert_eq!(request.size, PtySize { rows: 40, cols: 120, pixel_width: 0, pixel_height: 0 });
    assert_eq!(resize_terminal("nope", 1, 1, &state).err(), Some(TerminalError::SessionNotFound));
}

#[test]
fn pty_size_has_no_pixel_size() {
    assert_eq!(pty_size(80, 24), PtySize { rows: 24, cols: 80, pixel_width: 0, pixel_height: 0 });
}

#[test]
fn force_kill_all_removes_every_session_once() {
    let mut state = three_sessions();
    let payload = ForceKillPayload { session_id: None, cwd: None };
    let mut killed = force_kill_terminal(&payload, &mut state);
    killed.sort();
    assert_eq!(killed, vec![1, 2, 3]);
    assert_eq!(state.len(), 0);
    assert_eq!(force_kill_terminal(&payload, &mut state), Vec::<u32>::new());
}

#[test]
fn force_kill_one_removes_only_that_session() {
    let mut state = three_sessions();
    let payload = ForceKillPayload { session_id: Some("b".to_string()), cwd: Some("/x".into()) };
    assert_eq!(force_kill_terminal(&payload, &mut state), vec![2]);
    assert_eq!(state.session_ids(), vec!["a".to_string(), "c".to_string()]);
    assert_eq!(force_kill_terminal(&payload, &mut state), Vec::<u32>::new());
    assert_eq!(state.len(), 2);
}

#[test]
fn create_without_cwd_starts_in_home() {
    let payload = CreateTerminalPayload { cols: 80, rows: 24, cwd: None };
    let plan = create_terminal_session(&payload, &facts(Some("/home/me")), &host(), "1.2.3")
        .expect("home is accessible");
    assert_eq!(plan.size, PtySize { rows: 24, cols: 80, pixel_width: 0, pixel_height: 0 });
    assert_eq!(plan.command.cwd, Some("/home/me".to_string()));
    assert_eq!(plan.command.program, "/bin/zsh");
    assert_eq!(plan.command.args, vec![LOGIN_FLAG.to_string()]);
}

#[test]
fn create_without_cwd_and_home_fails() {
    let payload = CreateTerminalPayload { cols: 80, rows: 24, cwd: None };
    let outcome = create_terminal_session(&payload, &facts(None), &host(), "1.2.3");
    let error = outcome.err().expect("no directory");
    assert_eq!(error, TerminalError::InvalidWorkingDirectory { path: None });
    assert_eq!(error.message(), "Unable to determine working directory");
}

#[test]
fn registered_ids_are_fresh_and_well_formed() {
    let mut state: TerminalState<u32> = TerminalState::new();
    let first = register_session(&mut state, 1);
    let second = register_session(&mut state, 2);
    assert_ne!(first.session_id, second.session_id);
    assert_eq!(state.len(), 2);
    assert_eq!(state.get(&first.session_id), Some(&1));
    assert_eq!(state.get(&second.session_id), Some(&2));
    for id in [&first.session_id, &second.session_id] {
        let chars: Vec<char> = id.chars().collect();
        assert_eq!(chars.len(), 36);
        for (i, c) in chars.iter().enumerate() {
            if i == 8 || i == 13 || i == 18 || i == 23 {
                assert_eq!(*c, '-');
            } else {
                assert!(c.is_ascii_digit() || ('a'..='f').contains(c));
            }
        }
        assert_eq!(chars[14], '4');
        assert!(matches!(chars[19], '8' | '9' | 'a' | 'b'));
    }
}

#[test]
fn register_under_a_given_id() {
    let mut state = three_sessions();
    let created = register_session_as(&mut state, "d".to_string(), 4);
    assert_eq!(created, CreateTerminalResponse { session_id: "d".to_string() });
    assert_eq!(state.get("d"), Some(&4));
    let again = register_session_as(&mut state, "a".to_string(), 10);
    assert_eq!(again.session_id, "a");
    assert_eq!(state.get("a"), Some(&10));
    assert_eq!(state.len(), 4);
}

#[test]
fn restart_closes_the_old_session_and_plans_a_new_one() {
    let mut state = three_sessions();
    let payload = RestartTerminalPayload {
        session_id: "a".to_string(),
        cols: 100,
        rows: 30,
        cwd: "/work".to_string(),
    };
    let mut dirs = facts(Some("/home/me"));
    dirs.requested_exists = true;
    dirs.requested_is_dir = true;
    let restart = restart_terminal_session(&payload, &mut state, &dirs, &host(), "0.1.0");
    assert_eq!(restart.closed, Some(1));
    assert!(!state.contains("a"));
    let plan = restart.plan.expect("the directory is accessible");
    assert_eq!(plan.command.cwd, Some("/work".to_string()));
    assert_eq!(plan.size, PtySize { rows: 30, cols: 100, pixel_width: 0, pixel_height: 0 });
}

#[test]
fn restart_closes_the_old_session_even_if_no_plan_is_possible() {
    let mut state = three_sessions();
    let payload = RestartTerminalPayload {
        session_id: "b".to_string(),
        cols: 100,
        rows: 30,
        cwd: "/gone".to_string(),
    };
    let restart = restart_terminal_session(&payload, &mut state, &facts(None), &host(), "0.1.0");
    assert_eq!(restart.closed, Some(2));
    assert_eq!(state.len(), 2);
    assert_eq!(
        restart.plan.err(),
        Some(TerminalError::InvalidWorkingDirectory { path: Some("/gone".to_string()) })
    );
}

#[test]
fn clean_exit_is_reported_once_and_the_session_leaves() {
    let mut state = three_sessions();
    let mut watcher = ExitWatcher::new();
    assert_eq!(watcher.current_phase(), WatcherPhase::Waiting);
    let event = watcher.child_waited(WaitOutcome::Exited { code: 0, signal: None });
    assert_eq!(event, Some(TerminalEvent::Exit { exit_code: 0, signal: None }));
    assert_eq!(watcher.current_phase(), WatcherPhase::Reported);
    assert_eq!(watcher.session_reported("b", &mut state), Some(2));
    assert_eq!(watcher.current_phase(), WatcherPhase::Terminal);
    assert_eq!(state.get("b"), None);
    assert_eq!(
        send_terminal_input("b", "x", &state).err(),
        Some(TerminalError::SessionNotFound)
    );
}

#[test]
fn repeated_waits_give_no_second_exit_event() {
    let mut watcher = ExitWatcher::new();
    let first = watcher.child_waited(WaitOutcome::Exited { code: 3, signal: None });
    assert_eq!(first, Some(TerminalEvent::Exit { exit_code: 3, signal: None }));
    assert_eq!(watcher.child_waited(WaitOutcome::Exited { code: 3, signal: None }), None);
    assert_eq!(watcher.child_waited(WaitOutcome::Failed), None);
    let mut state = three_sessions();
    assert_eq!(watcher.session_reported("a", &mut state), Some(1));
    assert_eq!(watcher.child_waited(WaitOutcome::Exited { code: 3, signal: None }), None);
    assert_eq!(watcher.session_reported("b", &mut state), None);
    assert_eq!(state.len(), 2);
}

#[test]
fn watcher_that_has_not_reported_removes_nothing() {
    let mut state = three_sessions();
    let mut watcher = ExitWatcher::new();
    assert_eq!(watcher.session_reported("a", &mut state), None);
    assert_eq!(state.len(), 3);
    assert_eq!(watcher.current_phase(), WatcherPhase::Waiting);
}

#[test]
fn report_after_an_explicit_close_finds_nothing_to_remove() {
    let mut state = three_sessions();
    let mut watcher = ExitWatcher::new();
    assert_eq!(close_terminal("a", &mut state), Some(1));
    assert!(watcher.child_waited(WaitOutcome::Exited { code: 1, signal: None }).is_some());
    assert_eq!(watcher.session_reported("a", &mut state), None);
    assert_eq!(watcher.current_phase(), WatcherPhase::Terminal);
}

#[test]
fn signal_is_passed_on_in_the_exit_event() {
    let outcome = WaitOutcome::Exited { code: 1, signal: Some("Killed".to_string()) };
    assert_eq!(
        exit_event(outcome),
        TerminalEvent::Exit { exit_code: 1, signal: Some("Killed".to_string()) }
    );
}

#[test]
fn failed_wait_is_reported_as_a_crash() {
    assert_eq!(
        exit_event(WaitOutcome::Failed),
        TerminalEvent::Exit { exit_code: 1, signal: Some("Terminal crashed".to_string()) }
    );
}

#[test]
fn exit_code_keeps_its_bits() {
    assert_eq!(signed_exit_code(0), 0);
    assert_eq!(signed_exit_code(255), 255);
    assert_eq!(signed_exit_code(0x7fff_ffff), i32::MAX);
    assert_eq!(signed_exit_code(0x8000_0000), i32::MIN);
    assert_eq!(signed_exit_code(0xffff_ffff), -1);
    assert_eq!(signed_exit_code(0xc000_013a), 0xc000_013au32 as i32);
}

#[test]
fn event_stream_is_named_by_the_session() {
    assert_eq!(event_name("abc-123"), "terminal://abc-123");
    assert_eq!(event_name(""), "terminal://");
}

#[test]
fn event_kinds() {
    assert_eq!(TerminalEvent::Data { data: "x".to_string() }.kind(), "data");
    assert_eq!(TerminalEvent::Exit { exit_code: 0, signal: None }.kind(), "exit");
}

#[test]
fn error_messages() {
    let detail = || "boom".to_string();
    assert_eq!(
        TerminalError::InvalidWorkingDirectory { path: Some("/x".to_string()) }.message(),
        "Working directory is not accessible: /x"
    );
    assert_eq!(
        TerminalError::TransportFailed { stage: TransportStage::Allocate, detail: detail() }
            .message(),
        "boom"
    );
    assert_eq!(
        TerminalError::TransportFailed { stage: TransportStage::CloneReader, detail: detail() }
            .message(),
        "Failed to clone PTY reader: boom"
    );
    assert_eq!(
        TerminalError::TransportFailed { stage: TransportStage::TakeWriter, detail: detail() }
            .message(),
        "Failed to take PTY writer: boom"
    );
    assert_eq!(
        TerminalError::SpawnFailed { detail: detail() }.message(),
        "Failed to spawn shell: boom"
    );
    assert_eq!(
        TerminalError::WriteFailed { detail: detail() }.message(),
        "Failed to write to terminal: boom"
    );
    assert_eq!(
        TerminalError::ResizeFailed { detail: detail() }.message(),
        "Failed to resize terminal: boom"
    );
}

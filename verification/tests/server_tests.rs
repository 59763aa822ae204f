use sup::client::{exit_code, request, ClientError};
use sup::config;
use sup::config::{Action, RestartStrategy};
use sup::probe::StatRead;
use sup::process::{Desired, Event, Pending, Process, Signal, State, Step};
use sup::server::{
    decode_request, is_socket_being_used, run, Claim, Endpoint, ProtocolError, Server, ServerError,
    Session, Turn, MAX_REQUEST,
};

fn idle_server(strategy: RestartStrategy) -> Server {
    let mut conf = config::Process::default();
    conf.path = "/bin/sleep".to_string();
    conf.start_seconds = 1;
    conf.restart_strategy = strategy;
    let (process, _) = Process::new(conf);
    run("/run/sup.sock", process, &Endpoint::Vacant).unwrap()
}

fn record_of(pid: u32) -> StatRead {
    StatRead::Contents(format!("{pid} (sleep) R 1"))
}

fn ok_reply() -> Turn {
    Turn::Respond { text: "OK".to_string(), exit: false }
}

/// A server whose child `pid` was started by a client.
fn serving_child(strategy: RestartStrategy, pid: u32) -> Server {
    let mut s = idle_server(strategy);
    assert_eq!(s.handle(b"start"), Turn::Perform(Step::Launch));
    assert_eq!(s.session(), Session::Request(Action::Start));
    assert_eq!(s.resume(Event::Launched(pid)), Turn::Perform(Step::Settle { seconds: 1 }));
    assert_eq!(s.resume(Event::Slept), Turn::Perform(Step::Probe { pid }));
    assert_eq!(s.resume(Event::Probed(record_of(pid))), Turn::Perform(Step::Watch { pid }));
    assert_eq!(s.resume(Event::Watching), ok_reply());
    assert_eq!(s.session(), Session::Idle);
    s
}

const REGISTRY: &str = "Num       RefCount Protocol Flags    Type St Inode Path\n\
0000000000000000: 00000002 00000000 00010000 0001 01 23456 /run/sup.sock\n\
0000000000000000: 00000002 00000000 00010000 0001 01 23457 /run/other.sock\n\
0000000000000000: 00000003 00000000 00000000 0001 03 23458\n";

fn entry(path: &str) -> String {
    format!("0000000000000000: 00000002 00000000 00010000 0001 01 23456 {path}\n")
}

#[test]
fn registry_is_searched_for_the_path_itself() {
    assert!(is_socket_being_used(REGISTRY, "/run/sup.sock"));
    assert!(is_socket_being_used(REGISTRY, "/run/other.sock"));
    assert!(!is_socket_being_used(REGISTRY, "/run/absent.sock"));
    assert!(!is_socket_being_used(REGISTRY, "/run/sup"));
    assert!(!is_socket_being_used(REGISTRY, "sup.sock"));
    assert!(!is_socket_being_used(REGISTRY, "/run/sup.sock.bak"));
    assert!(!is_socket_being_used(REGISTRY, "23456 /run/sup.sock"));
    assert!(!is_socket_being_used(REGISTRY, "23458"));
    assert!(!is_socket_being_used(REGISTRY, ""));
    assert!(!is_socket_being_used("", "/run/sup.sock"));
    assert!(!is_socket_being_used("", ""));
    assert!(!is_socket_being_used("\n", ""));
}

#[test]
fn socket_at_a_longer_path_is_another_socket() {
    let registry = entry("/tmp/sup.sock.bak");
    assert!(!is_socket_being_used(&registry, "/tmp/sup.sock"));
    assert!(is_socket_being_used(&registry, "/tmp/sup.sock.bak"));
    assert!(is_socket_being_used(&entry("/tmp/sup.sock"), "/tmp/sup.sock"));
    assert!(!is_socket_being_used(&entry("/var/tmp/sup.sock"), "/tmp/sup.sock"));
    assert!(!is_socket_being_used(&entry("@/tmp/sup.sock"), "/tmp/sup.sock"));
}

#[test]
fn registry_paths_may_hold_white_space() {
    let registry = entry("/tmp/my sock");
    assert!(is_socket_being_used(&registry, "/tmp/my sock"));
    assert!(!is_socket_being_used(&registry, "/tmp/my"));
    assert!(!is_socket_being_used(&registry, "sock"));
    assert!(!is_socket_being_used(&entry("/tmp/sock "), "/tmp/sock"));
    assert!(is_socket_being_used(&entry("/tmp/sock "), "/tmp/sock "));
}

#[test]
fn registry_lines_may_end_in_carriage_return() {
    let registry = entry("/tmp/a").replace('\n', "\r\n") + &entry("/tmp/b").replace('\n', "");
    assert!(is_socket_being_used(&registry, "/tmp/a"));
    assert!(!is_socket_being_used(&registry, "/tmp/a\r"));
    assert!(is_socket_being_used(&registry, "/tmp/b"));
    assert!(is_socket_being_used(&(entry("/tmp/c").replace('\n', "\r")), "/tmp/c\r"));
}

/// The path that a line names, found with the standard library.
fn path_of_entry(line: &str) -> Option<&str> {
    let field = line.split_whitespace().nth(7)?;
    let at = field.as_ptr() as usize - line.as_ptr() as usize;
    Some(&line[at..])
}

#[test]
fn registry_search_agrees_with_std() {
    let texts = [
        String::new(),
        "\n".to_string(),
        REGISTRY.to_string(),
        entry("/a") + &entry("/b c") + "1 2 3 4 5 6 7\n" + &entry("d"),
        "1 2 3 4 5 6 7 8 9\r\n  1\t2 3 4 5 6 7   x y \n".to_string(),
        "a b c d e f g é\u{a0}ü".to_string(),
    ];
    let needles = ["", "/a", "/b", "/b c", "c", "d", "8 9", "8", "x y ", "x y", "é", "ü", "Path"];
    for text in &texts {
        for needle in needles {
            let want = text.lines().any(|line| path_of_entry(line) == Some(needle));
            assert_eq!(is_socket_being_used(text, needle), want, "{text:?} {needle:?}");
        }
    }
}

#[test]
fn endpoint_in_use_is_refused() {
    let (process, _) = Process::new(config::Process::default());
    let found = Endpoint::Present(REGISTRY.to_string());
    match run("/run/sup.sock", process, &found) {
        Err(e) => {
            assert_eq!(e, ServerError::InUse);
            assert_eq!(e.message(), "sup socket is being used by another process");
        }
        Ok(_) => panic!("a bound endpoint was taken"),
    }
}

#[test]
fn stale_endpoint_is_replaced() {
    let (process, _) = Process::new(config::Process::default());
    let found = Endpoint::Present(REGISTRY.to_string());
    let server = run("/run/stale.sock", process, &found).unwrap();
    assert_eq!(server.claim(), Claim::ReplaceStale);
    assert_eq!(server.session(), Session::Idle);
}

#[test]
fn vacant_endpoint_is_bound() {
    let server = idle_server(RestartStrategy::Always);
    assert_eq!(server.claim(), Claim::Bind);
    assert_eq!(server.process().pid(), None);
}

#[test]
fn requests_are_decoded() {
    assert_eq!(decode_request(b"start"), Ok(Action::Start));
    assert_eq!(decode_request(b"stop"), Ok(Action::Stop));
    assert_eq!(decode_request(b"restart"), Ok(Action::Restart));
    assert_eq!(decode_request(b"reload"), Ok(Action::Reload));
    assert_eq!(decode_request(b"kill"), Ok(Action::Kill));
    assert_eq!(decode_request(b"status"), Ok(Action::Status));
    assert_eq!(decode_request(b"exit"), Ok(Action::Exit));
}

#[test]
fn bad_requests_are_refused() {
    assert_eq!(decode_request(b"serve"), Err(ProtocolError::Unsupported(Action::Serve)));
    assert_eq!(
        decode_request(b"frobnicate"),
        Err(ProtocolError::UnknownAction("frobnicate".to_string()))
    );
    assert_eq!(decode_request(b""), Err(ProtocolError::UnknownAction("".to_string())));
    assert_eq!(decode_request(b"start\n"), Err(ProtocolError::UnknownAction("start\n".to_string())));
    assert_eq!(
        decode_request("größe".as_bytes()),
        Err(ProtocolError::UnknownAction("größe".to_string()))
    );
    assert_eq!(decode_request(&[0xff, 0xfe]), Err(ProtocolError::NotText));
    assert_eq!(decode_request(&[b's', 0xc3]), Err(ProtocolError::NotText));
    assert_eq!(decode_request(&[b'a'; MAX_REQUEST + 1]), Err(ProtocolError::TooLong));
    assert_eq!(
        decode_request(&[b'a'; MAX_REQUEST]),
        Err(ProtocolError::UnknownAction("a".repeat(64)))
    );
}

#[test]
fn protocol_error_messages() {
    assert_eq!(ProtocolError::TooLong.message(), "request is too long");
    assert_eq!(ProtocolError::NotText.message(), "request is not valid UTF-8");
    assert_eq!(
        ProtocolError::Unsupported(Action::Serve).message(),
        "do not support action serve"
    );
    assert_eq!(
        ProtocolError::UnknownAction("frobnicate".to_string()).message(),
        "unknown action 'frobnicate'"
    );
}

#[test]
fn unknown_action_is_answered_and_changes_nothing() {
    let mut s = serving_child(RestartStrategy::Always, 321);
    let before = s.process().state();
    let turn = s.handle(b"frobnicate");
    match turn {
        Turn::Respond { text, exit } => {
            assert!(text.contains("frobnicate"));
            assert_eq!(text, "unknown action 'frobnicate'");
            assert!(!exit);
        }
        other => panic!("unexpected turn {other:?}"),
    }
    assert_eq!(s.process().state(), before);
    assert_eq!(s.session(), Session::Idle);
}

#[test]
fn serve_is_no_request() {
    let mut s = idle_server(RestartStrategy::Always);
    assert_eq!(
        s.handle(b"serve"),
        Turn::Respond { text: "do not support action serve".to_string(), exit: false }
    );
    assert_eq!(s.process().state(), State { pid: None, desired: Desired::Stopped, pending: Pending::Idle });
}

#[test]
fn status_of_never_started_is_not_started() {
    let mut s = idle_server(RestartStrategy::Always);
    assert_eq!(s.handle(b"status"), Turn::Respond { text: "NotStarted".to_string(), exit: false });
}

#[test]
fn status_of_running_child() {
    let mut s = serving_child(RestartStrategy::Always, 321);
    assert_eq!(s.handle(b"status"), Turn::Perform(Step::Probe { pid: 321 }));
    assert_eq!(
        s.resume(Event::Probed(record_of(321))),
        Turn::Respond { text: "Running".to_string(), exit: false }
    );
    assert_eq!(s.handle(b"status"), Turn::Perform(Step::Probe { pid: 321 }));
    assert_eq!(
        s.resume(Event::Probed(StatRead::Contents("321 (sleep) T 1".to_string()))),
        Turn::Respond { text: "Unknown(T)".to_string(), exit: false }
    );
}

#[test]
fn start_failure_is_answered_in_words() {
    let mut s = idle_server(RestartStrategy::Always);
    assert_eq!(s.handle(b"start"), Turn::Perform(Step::Launch));
    assert_eq!(s.resume(Event::Launched(5)), Turn::Perform(Step::Settle { seconds: 1 }));
    assert_eq!(s.resume(Event::Slept), Turn::Perform(Step::Probe { pid: 5 }));
    assert_eq!(
        s.resume(Event::Probed(StatRead::Missing)),
        Turn::Respond { text: "process exited very quickly".to_string(), exit: false }
    );
    assert_eq!(s.session(), Session::Idle);
}

#[test]
fn stop_is_answered_when_the_child_is_gone() {
    let mut s = serving_child(RestartStrategy::Always, 321);
    assert_eq!(
        s.handle(b"stop"),
        Turn::Perform(Step::Send { pid: 321, signal: Signal::Terminate })
    );
    assert_eq!(s.resume(Event::Sent), Turn::Perform(Step::Probe { pid: 321 }));
    assert_eq!(
        s.resume(Event::Probed(record_of(321))),
        Turn::Perform(Step::Pause { millis: 500 })
    );
    assert_eq!(s.resume(Event::Slept), Turn::Perform(Step::Probe { pid: 321 }));
    assert_eq!(s.resume(Event::Probed(StatRead::Missing)), ok_reply());
    assert_eq!(s.process().pid(), None);
    assert_eq!(s.process().desired(), Desired::Stopped);
}

#[test]
fn stop_without_child_is_answered_at_once() {
    let mut s = idle_server(RestartStrategy::Always);
    assert_eq!(s.handle(b"stop"), ok_reply());
    assert_eq!(s.handle(b"kill"), ok_reply());
    assert_eq!(s.handle(b"reload"), ok_reply());
}

#[test]
fn kill_and_reload_send_their_signals() {
    let mut s = serving_child(RestartStrategy::Always, 321);
    assert_eq!(s.handle(b"reload"), Turn::Perform(Step::Send { pid: 321, signal: Signal::Hangup }));
    assert_eq!(s.resume(Event::Sent), ok_reply());
    assert_eq!(s.process().pid(), Some(321));
    assert_eq!(s.handle(b"reload"), Turn::Perform(Step::Send { pid: 321, signal: Signal::Hangup }));
    assert_eq!(
        s.resume(Event::SendFailed),
        Turn::Respond { text: "failed to send SIGHUP to child process".to_string(), exit: false }
    );
    assert_eq!(s.handle(b"kill"), Turn::Perform(Step::Send { pid: 321, signal: Signal::Kill }));
    assert_eq!(s.resume(Event::Sent), Turn::Perform(Step::Probe { pid: 321 }));
    assert_eq!(s.resume(Event::Probed(StatRead::Missing)), ok_reply());
}

#[test]
fn restart_stops_then_starts() {
    let mut s = serving_child(RestartStrategy::Always, 321);
    assert_eq!(
        s.handle(b"restart"),
        Turn::Perform(Step::Send { pid: 321, signal: Signal::Terminate })
    );
    assert_eq!(s.resume(Event::Sent), Turn::Perform(Step::Probe { pid: 321 }));
    assert_eq!(s.resume(Event::Probed(StatRead::Missing)), Turn::Perform(Step::Launch));
    assert_eq!(s.session(), Session::Starting);
    assert_eq!(s.process().desired(), Desired::Running);
    assert_eq!(s.resume(Event::Launched(322)), Turn::Perform(Step::Settle { seconds: 1 }));
    assert_eq!(s.resume(Event::Slept), Turn::Perform(Step::Probe { pid: 322 }));
    assert_eq!(s.resume(Event::Probed(record_of(322))), Turn::Perform(Step::Watch { pid: 322 }));
    assert_eq!(s.resume(Event::Watching), ok_reply());
    assert_eq!(s.process().pid(), Some(322));
}

#[test]
fn restart_without_child_starts() {
    let mut s = idle_server(RestartStrategy::Always);
    assert_eq!(s.handle(b"restart"), Turn::Perform(Step::Launch));
    assert_eq!(s.session(), Session::Starting);
}

#[test]
fn restart_gives_up_when_stop_fails() {
    let mut s = serving_child(RestartStrategy::Always, 321);
    s.handle(b"restart");
    assert_eq!(
        s.resume(Event::SendFailed),
        Turn::Respond { text: "failed to send SIGTERM to child process".to_string(), exit: false }
    );
    assert_eq!(s.session(), Session::Idle);
    assert_eq!(s.process().desired(), Desired::Stopped);
}

#[test]
fn exit_stops_and_ends_the_daemon() {
    let mut s = serving_child(RestartStrategy::Always, 321);
    assert_eq!(
        s.handle(b"exit"),
        Turn::Perform(Step::Send { pid: 321, signal: Signal::Terminate })
    );
    assert_eq!(s.resume(Event::Sent), Turn::Perform(Step::Probe { pid: 321 }));
    assert_eq!(
        s.resume(Event::Probed(StatRead::Missing)),
        Turn::Respond { text: "OK".to_string(), exit: true }
    );
    let mut idle = idle_server(RestartStrategy::Always);
    assert_eq!(idle.handle(b"exit"), Turn::Respond { text: "OK".to_string(), exit: true });
}

#[test]
fn exit_ends_the_daemon_even_when_stop_fails() {
    let mut s = serving_child(RestartStrategy::Always, 321);
    s.handle(b"exit");
    assert_eq!(
        s.resume(Event::SendFailed),
        Turn::Respond { text: "failed to send SIGTERM to child process".to_string(), exit: true }
    );
}

#[test]
fn interrupt_stops_and_exits() {
    let mut s = serving_child(RestartStrategy::Always, 321);
    assert_eq!(s.interrupt(), Turn::Perform(Step::Send { pid: 321, signal: Signal::Terminate }));
    assert_eq!(s.session(), Session::Interrupt);
    assert_eq!(s.resume(Event::Sent), Turn::Perform(Step::Probe { pid: 321 }));
    assert_eq!(s.resume(Event::Probed(StatRead::Missing)), Turn::Exit { code: 0 });

    let mut s = serving_child(RestartStrategy::Always, 321);
    s.interrupt();
    assert_eq!(s.resume(Event::SendFailed), Turn::Exit { code: 1 });

    let mut idle = idle_server(RestartStrategy::Always);
    assert_eq!(idle.interrupt(), Turn::Exit { code: 0 });
}

#[test]
fn child_exit_restarts_by_strategy() {
    let mut s = serving_child(RestartStrategy::OnFailure, 321);
    assert_eq!(s.child_exited(321, true), Turn::Rest);
    assert_eq!(s.process().pid(), None);

    let mut s = serving_child(RestartStrategy::OnFailure, 321);
    assert_eq!(s.child_exited(321, false), Turn::Perform(Step::Launch));
    assert_eq!(s.session(), Session::Reap);
    assert_eq!(s.resume(Event::Launched(400)), Turn::Perform(Step::Settle { seconds: 1 }));
    assert_eq!(s.resume(Event::Slept), Turn::Perform(Step::Probe { pid: 400 }));
    assert_eq!(s.resume(Event::Probed(record_of(400))), Turn::Perform(Step::Watch { pid: 400 }));
    assert_eq!(s.resume(Event::Watching), Turn::Rest);
    assert_eq!(s.process().pid(), Some(400));
}

#[test]
fn failed_restart_after_exit_is_fatal() {
    let mut s = serving_child(RestartStrategy::Always, 321);
    assert_eq!(s.child_exited(321, true), Turn::Perform(Step::Launch));
    assert_eq!(
        s.resume(Event::LaunchFailed("failed to spawn child process".to_string())),
        Turn::Abort { text: "failed to spawn child process".to_string() }
    );
}

#[test]
fn reports_at_rest_are_dropped() {
    let mut s = serving_child(RestartStrategy::Always, 321);
    let before = s.process().state();
    assert_eq!(s.resume(Event::Slept), Turn::Rest);
    assert_eq!(s.resume(Event::Launched(9)), Turn::Rest);
    assert_eq!(s.process().state(), before);
}

#[test]
fn client_sends_the_word_of_the_action() {
    assert_eq!(request(Action::Start), Ok(b"start".to_vec()));
    assert_eq!(request(Action::Status), Ok(b"status".to_vec()));
    assert_eq!(request(Action::Exit), Ok(b"exit".to_vec()));
    let e = request(Action::Serve).unwrap_err();
    assert_eq!(e, ClientError::Unsupported(Action::Serve));
    assert_eq!(e.message(), "client does not support the action serve");
}

#[test]
fn client_requests_are_understood_by_the_server() {
    for action in [
        Action::Start,
        Action::Stop,
        Action::Restart,
        Action::Reload,
        Action::Kill,
        Action::Status,
        Action::Exit,
    ] {
        let bytes = request(action).unwrap();
        assert_eq!(decode_request(&bytes), Ok(action));
    }
}

#[test]
fn client_exit_code_is_zero_for_ok_only() {
    assert_eq!(exit_code("OK"), 0);
    assert_eq!(exit_code("NotStarted"), 1);
    assert_eq!(exit_code("Running"), 1);
    assert_eq!(exit_code("ok"), 1);
    assert_eq!(exit_code("OK\n"), 1);
    assert_eq!(exit_code(""), 1);
    assert_eq!(exit_code("process exited very quickly"), 1);
}

#[test]
fn boot_starts_the_child_of_an_auto_start_supervisor() {
    let mut conf = config::Process::default();
    conf.auto_start = true;
    conf.start_seconds = 2;
    let (process, first) = Process::new(conf);
    assert_eq!(first, Step::Launch);
    let mut s = run("/run/sup.sock", process, &Endpoint::Vacant).unwrap();
    assert_eq!(s.boot(), Turn::Perform(Step::Launch));
    assert_eq!(s.session(), Session::Boot);
    assert_eq!(s.resume(Event::Launched(11)), Turn::Perform(Step::Settle { seconds: 2 }));
    assert_eq!(s.resume(Event::Slept), Turn::Perform(Step::Probe { pid: 11 }));
    assert_eq!(s.resume(Event::Probed(record_of(11))), Turn::Perform(Step::Watch { pid: 11 }));
    assert_eq!(s.resume(Event::Watching), Turn::Rest);
    assert_eq!(s.process().state(), State { pid: Some(11), desired: Desired::Running, pending: Pending::Idle });
}

#[test]
fn boot_that_fails_keeps_the_daemon_from_serving() {
    let mut conf = config::Process::default();
    conf.auto_start = true;
    let (process, _) = Process::new(conf);
    let mut s = run("/run/sup.sock", process, &Endpoint::Vacant).unwrap();
    assert_eq!(s.boot(), Turn::Perform(Step::Launch));
    assert_eq!(s.resume(Event::Launched(11)), Turn::Perform(Step::Settle { seconds: 0 }));
    assert_eq!(s.resume(Event::Slept), Turn::Perform(Step::Probe { pid: 11 }));
    assert_eq!(
        s.resume(Event::Probed(StatRead::Missing)),
        Turn::Abort { text: "process exited very quickly".to_string() }
    );
}

#[test]
fn boot_without_auto_start_rests() {
    let mut s = idle_server(RestartStrategy::Always);
    assert_eq!(s.boot(), Turn::Rest);
    assert_eq!(s.session(), Session::Idle);
}

use redoxer::daemon::{
    child_success, daemon_step, guest_environment, parse_config, signal_writes, DaemonError,
    DaemonState, GuestAction, GuestEvent, PortWrite,
};
use redoxer::exec::run_result_code;

#[test]
fn config_with_one_line_names_the_command() {
    let c = parse_config("true\n").unwrap();
    assert_eq!(c.name, "true");
    assert!(c.args.is_empty());
}

#[test]
fn config_lines_become_arguments_in_order() {
    let c = parse_config("cmd\nfirst\nsecond\n").unwrap();
    assert_eq!(c.name, "cmd");
    assert_eq!(c.args, vec!["first".to_string(), "second".to_string()]);
}

#[test]
fn config_without_trailing_newline_still_parses() {
    let c = parse_config("cmd").unwrap();
    assert_eq!(c.name, "cmd");
    assert!(c.args.is_empty());
}

#[test]
fn empty_config_is_rejected_before_anything_spawns() {
    assert_eq!(parse_config("").unwrap_err(), DaemonError::ConfigError);
    // the failure still reaches the host through the port protocol
    let writes = signal_writes(false);
    let last = *writes.last().unwrap();
    assert_eq!(last, PortWrite { port: 0x501, value: 53 / 2 });
    let emulator_status = 2 * (last.value as i32) + 1;
    assert_eq!(run_result_code(Some(emulator_status)), 1);
}

#[test]
fn terminal_close_before_child_exit_drains_and_kills() {
    let (state, actions) = daemon_step(GuestEvent::PtyClosed, None).unwrap();
    assert_eq!(state, DaemonState::Draining);
    assert_eq!(actions, vec![GuestAction::KillChild, GuestAction::WaitChild]);
}

#[test]
fn child_exit_with_open_terminal_terminates_without_killing() {
    let (state, actions) = daemon_step(GuestEvent::PtyWouldBlock, Some(7)).unwrap();
    assert_eq!(state, DaemonState::Terminated { code: 7 });
    assert!(actions.is_empty());

    let (state, actions) = daemon_step(GuestEvent::PtyData { len: 3 }, Some(0)).unwrap();
    assert_eq!(state, DaemonState::Terminated { code: 0 });
    assert_eq!(actions, vec![GuestAction::ForwardBytes { len: 3 }]);
    assert!(!actions.contains(&GuestAction::KillChild));
}

#[test]
fn terminal_data_is_forwarded_while_child_runs() {
    let (state, actions) = daemon_step(GuestEvent::PtyData { len: 4096 }, None).unwrap();
    assert_eq!(state, DaemonState::Running);
    assert_eq!(actions, vec![GuestAction::ForwardBytes { len: 4096 }]);
}

#[test]
fn heartbeat_timer_is_rescheduled_one_second_later() {
    let (state, actions) = daemon_step(GuestEvent::TimerFired { sec: 41 }, None).unwrap();
    assert_eq!(state, DaemonState::Running);
    assert_eq!(actions, vec![GuestAction::RescheduleTimer { sec: 42 }]);
}

#[test]
fn unknown_event_source_is_a_protocol_violation() {
    assert_eq!(
        daemon_step(GuestEvent::UnknownSource, None).unwrap_err(),
        DaemonError::UnexpectedEvent
    );
}

#[test]
fn scenario_child_success_reaches_host_as_result_zero() {
    // guest configuration "true\n": the child runs and exits 0
    let c = parse_config("true\n").unwrap();
    assert_eq!(c.name, "true");
    let child_code = 0;
    assert!(child_success(child_code));
    let writes = signal_writes(child_success(child_code));
    assert_eq!(
        writes,
        vec![
            PortWrite { port: 0x604, value: 0x2000 },
            PortWrite { port: 0x501, value: 51 / 2 },
        ]
    );
    // the emulator surfaces the completion code as its own exit status
    let emulator_status = 2 * (writes[1].value as i32) + 1;
    assert_eq!(emulator_status, 51);
    assert_eq!(run_result_code(Some(emulator_status)), 0);
}

#[test]
fn scenario_child_failure_reaches_host_as_result_one() {
    // guest configuration "false\n": the child runs and exits 1
    let c = parse_config("false\n").unwrap();
    assert_eq!(c.name, "false");
    let child_code = 1;
    assert!(!child_success(child_code));
    let writes = signal_writes(child_success(child_code));
    let last = *writes.last().unwrap();
    assert_eq!(last, PortWrite { port: 0x501, value: 53 / 2 });
    let emulator_status = 2 * (last.value as i32) + 1;
    assert_eq!(emulator_status, 53);
    assert_eq!(run_result_code(Some(emulator_status)), 1);
}

#[test]
fn forwarded_bytes_skip_the_control_byte_and_keep_order() {
    let packet = vec![7u8, b'h', b'i', b'!', 0, 0];
    assert_eq!(redoxer::daemon::forwarded_bytes(&packet, 4), vec![b'h', b'i', b'!']);
    assert_eq!(redoxer::daemon::forwarded_bytes(&packet, 1), Vec::<u8>::new());
}

#[test]
fn guest_environment_describes_the_terminal() {
    let env = guest_environment("/scheme/pty/0");
    assert_eq!(env.len(), 4);
    assert_eq!(env[0], ("COLUMNS".to_string(), "80".to_string()));
    assert_eq!(env[1], ("LINES".to_string(), "30".to_string()));
    assert_eq!(env[2], ("TERM".to_string(), "xterm-256color".to_string()));
    assert_eq!(env[3], ("TTY".to_string(), "/scheme/pty/0".to_string()));
}

#[test]
fn error_messages_name_the_fault() {
    assert_eq!(
        DaemonError::ConfigError.message(),
        "guest configuration does not specify a command"
    );
    assert_eq!(DaemonError::UnexpectedEvent.message(), "event from an unknown source");
}

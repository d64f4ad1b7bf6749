use probationdesk::cli::{
    cli_entry, CliAction, CliArgs, CliPlan, Data, Interface, LogLevel, LogRecord,
    LoginConfigHandler, PeerInfo, Session, Stream, TestDelay,
};

fn session() -> Session {
    Session::new(LoginConfigHandler::default())
}

fn args() -> CliArgs {
    CliArgs { port_forward: None, connect: None, key: None, server: false, verbose: 0 }
}

#[test]
fn a_session_hands_out_the_handler_it_was_made_with() {
    let lch = LoginConfigHandler { id: "123 456 789".to_string(), password: vec![1, 2, 3], remember: true };
    let session = Session::new(lch.clone());
    assert_eq!(*session.get_lch(), lch);
}

#[test]
fn the_default_handler_knows_nothing() {
    let lch = LoginConfigHandler::default();
    assert_eq!(lch.id, "");
    assert!(lch.password.is_empty());
    assert!(!lch.remember);
}

#[test]
fn an_error_message_is_logged_as_an_error() {
    assert_eq!(
        session().msgbox("custom-error-nocancel", "Connection", "refused", ""),
        LogRecord { level: LogLevel::Error, message: "Connection: refused".to_string() }
    );
    assert_eq!(session().msgbox("error", "", "", "").level, LogLevel::Error);
}

#[test]
fn any_other_message_is_logged_as_information() {
    assert_eq!(
        session().msgbox("input-password", "Password", "Please enter", "https://example.invalid"),
        LogRecord { level: LogLevel::Info, message: "Password: Please enter".to_string() }
    );
    assert_eq!(session().msgbox("Error", "a", "b", "").level, LogLevel::Info);
    assert_eq!(session().msgbox("erro", "a", "b", "").level, LogLevel::Info);
    assert_eq!(session().msgbox("", "a", "b", "").level, LogLevel::Info);
}

#[test]
fn a_login_error_is_left_to_the_caller() {
    assert!(!session().handle_login_error("Wrong Password"));
    assert!(!session().handle_login_error(""));
}

#[test]
fn the_steps_of_the_handshake_leave_the_stream_alone() {
    let mut stream = Stream { open: true, outbox: vec![vec![7, 7]] };
    let s = session();
    s.handle_hash("secret", probationdesk::cli::Hash { salt: "s".to_string(), challenge: "c".to_string() }, &mut stream);
    s.handle_login_from_ui("u".to_string(), "p".to_string(), "pw".to_string(), true, &mut stream);
    s.handle_test_delay(
        TestDelay { time: 17, from_client: false, last_delay: 3, target_bitrate: 900 },
        &mut stream,
    );
    assert_eq!(stream, Stream { open: true, outbox: vec![vec![7, 7]] });
    s.send(Data { bytes: vec![1] });
    s.handle_peer_info(PeerInfo {
        username: "ann".to_string(),
        hostname: "box".to_string(),
        platform: "Windows".to_string(),
    });
    s.set_multiple_windows_session(vec![]);
}

#[test]
fn verbosity_raises_the_log_level() {
    assert_eq!(cli_entry(CliArgs { verbose: 0, ..args() }).log_level, LogLevel::Info);
    assert_eq!(cli_entry(CliArgs { verbose: 1, ..args() }).log_level, LogLevel::Debug);
    assert_eq!(cli_entry(CliArgs { verbose: 2, ..args() }).log_level, LogLevel::Trace);
    assert_eq!(cli_entry(CliArgs { verbose: 255, ..args() }).log_level, LogLevel::Trace);
}

#[test]
fn no_flag_shows_the_help_and_exits_with_zero() {
    assert_eq!(
        cli_entry(args()),
        CliPlan { log_level: LogLevel::Info, action: CliAction::Help, exit_code: 0 }
    );
}

#[test]
fn a_port_forward_goes_before_everything_else() {
    let plan = cli_entry(CliArgs {
        port_forward: Some("123:8080:80:host".to_string()),
        connect: Some("456".to_string()),
        key: Some("k".to_string()),
        server: true,
        verbose: 1,
    });
    assert_eq!(plan.action, CliAction::PortForward("123:8080:80:host".to_string()));
    assert_eq!(plan.exit_code, 0);
}

#[test]
fn a_connection_takes_its_key_or_an_empty_one() {
    let with_key = cli_entry(CliArgs {
        connect: Some("456".to_string()),
        key: Some("token".to_string()),
        server: true,
        ..args()
    });
    assert_eq!(with_key.action, CliAction::Connect { id: "456".to_string(), key: "token".to_string() });
    let without = cli_entry(CliArgs { connect: Some("456".to_string()), ..args() });
    assert_eq!(without.action, CliAction::Connect { id: "456".to_string(), key: String::new() });
    assert_eq!(without.exit_code, 0);
}

#[test]
fn server_mode_is_asked_for_by_its_flag() {
    let plan = cli_entry(CliArgs { server: true, key: Some("unused".to_string()), ..args() });
    assert_eq!(plan.action, CliAction::Server);
    assert_eq!(plan.exit_code, 0);
}

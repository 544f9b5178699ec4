use ftnet::cli::{Command, Launch};
use ftnet::dotftn::{dotftn_dir, init_steps, DotFtnError, InitStep, LOCK_FILE};
use ftnet::expose::{ack_line, on_serve_event, tcp_target, InfoLine, InfoMode, ServeAction, ServeEvent};
use ftnet::keys::StoredSecretError;

#[test]
fn given_dir_is_used() {
    assert_eq!(dotftn_dir(Some("/a"), Some("/b")), Ok("/a"));
    assert_eq!(dotftn_dir(Some("/a"), None), Ok("/a"));
}

#[test]
fn platform_dir_is_used_without_given_dir() {
    assert_eq!(dotftn_dir(None, Some("/b")), Ok("/b"));
}

#[test]
fn no_dir_at_all_is_an_error() {
    assert_eq!(dotftn_dir::<&str>(None, None), Err(DotFtnError::NoDataDir));
    assert_eq!(
        DotFtnError::NoDataDir.message(),
        "dotftn init failed: can not find data dir when dir is not provided"
    );
}

#[test]
fn existing_dir_needs_no_steps() {
    assert!(init_steps(true).is_empty());
}

#[test]
fn new_dir_steps_in_order() {
    assert_eq!(
        init_steps(false),
        vec![
            InitStep::CreateDir,
            InitStep::MakeSubdir("identities".to_string()),
            InitStep::MakeSubdir("logs".to_string()),
            InitStep::CreateLockFile,
            InitStep::CreateDefaultIdentity { in_subdir: "identities".to_string() },
        ]
    );
}

#[test]
fn startup_info_lines() {
    assert_eq!(
        InfoMode::Startup.lines(8080, "abc"),
        vec![
            InfoLine::SharingPort { port: 8080 },
            InfoLine::Run { command: "malai tcp-bridge abc <some-port>".to_string() },
            InfoLine::ConnectHint,
        ]
    );
}

#[test]
fn exit_info_lines() {
    assert_eq!(
        InfoMode::OnExit.lines(8080, "abc"),
        vec![
            InfoLine::Blank,
            InfoLine::Run { command: "malai tcp-bridge abc <some-port>".to_string() },
            InfoLine::ConnectHint,
            InfoLine::PressCtrlCAgain,
        ]
    );
}

#[test]
fn serve_loop_reactions() {
    assert_eq!(on_serve_event(ServeEvent::ShowInfo), ServeAction::ShowExitInfo);
    assert_eq!(on_serve_event(ServeEvent::Incoming), ServeAction::SpawnHandler);
    assert_eq!(on_serve_event(ServeEvent::Cancelled), ServeAction::Stop);
    assert_eq!(on_serve_event(ServeEvent::EndpointClosed), ServeAction::Stop);
}

#[test]
fn tcp_target_joins_host_and_port() {
    assert_eq!(tcp_target("127.0.0.1", 22), "127.0.0.1:22");
    assert_eq!(tcp_target("example.com", 0), "example.com:0");
    assert_eq!(tcp_target("h", 65535), "h:65535");
}

#[test]
fn ack_line_ends_with_newline() {
    assert_eq!(ack_line("ack"), "ack\n");
}

#[test]
fn stored_secret_error_message() {
    assert_eq!(
        StoredSecretError::InvalidLength(31).message(),
        "keyring: secret has invalid length: 31"
    );
    assert_eq!(
        StoredSecretError::InvalidLength(1000).message(),
        "keyring: secret has invalid length: 1000"
    );
}

#[test]
fn supported_commands_launch() {
    assert_eq!(
        Command::ExposeHttp { port: 80, host: "127.0.0.1".to_string() }.launch(),
        Launch::ExposeHttp { host: "127.0.0.1".to_string(), port: 80 }
    );
    assert_eq!(
        Command::HttpBridge { proxy_target: None, port: 8080 }.launch(),
        Launch::HttpBridge { proxy_target: None, port: 8080 }
    );
    assert_eq!(
        Command::ExposeTcp { port: 22, host: "h".to_string() }.launch(),
        Launch::ExposeTcp { host: "h".to_string(), port: 22 }
    );
}

#[test]
fn tcp_bridge_is_unsupported() {
    let c = Command::TcpBridge { proxy_target: "x".to_string(), port: 8081 };
    assert_eq!(c.clone().launch(), Launch::Unsupported(c));
}

#[test]
fn lock_file_name() {
    assert_eq!(LOCK_FILE, "FTNet.lock");
}

use persona_system::{
    CommandLineArgument, Error, ReadSystemState, RecordServedSystemRequest, SocketMode,
    SystemBackend, SystemCommandLine, SystemDaemon, SystemEvent, SystemFrameCodec, SystemHealth,
    SystemReadiness, SystemRequestHandler, SystemRequestSummary, SystemRequestUnimplemented,
    SystemStatus, SystemStatusQuery, SystemSupervisor, SystemTarget, SystemUnimplementedReason,
};

/// Stands in for the contract's operation kinds in these tests.
#[derive(Debug, Clone, Copy, PartialEq, Eq)]
enum Operation {
    SystemStatusQuery,
    FocusSubscription,
}

fn argument(text: &str) -> CommandLineArgument {
    CommandLineArgument {
        encoded: text.as_bytes().to_vec(),
        text: Some(text.to_string()),
        lossy: text.to_string(),
        debug: format!("{text:?}"),
    }
}

#[test]
fn system_command_line_requires_socket_path() {
    let error = SystemCommandLine::from_arguments(Vec::<CommandLineArgument>::new())
        .daemon(None)
        .expect_err("missing socket is typed");

    assert_eq!(error.message(), "system socket path is missing");
    assert_eq!(error, Error::MissingSocket);
}

#[test]
fn system_command_line_takes_one_socket() {
    let daemon = SystemCommandLine::from_arguments(vec![argument("/run/system.sock")])
        .daemon(Some(SocketMode::from_octal(0o600)))
        .expect("one socket argument");
    assert_eq!(daemon.socket(), &b"/run/system.sock".to_vec());
    assert_eq!(daemon.backend(), SystemBackend::Niri);
    assert_eq!(daemon.socket_mode(), Some(SocketMode::from_octal(0o600)));

    let error = SystemCommandLine::from_arguments(vec![argument("a"), argument("b")])
        .daemon(None)
        .expect_err("second argument refused");
    assert_eq!(error, Error::UnexpectedArgument { got: "b".to_string() });
    assert_eq!(error.message(), "unexpected command-line argument: b");
}

#[test]
fn daemon_settings_build_up() {
    let daemon = SystemDaemon::from_socket(b"/tmp/s".to_vec(), None)
        .with_backend(SystemBackend::Niri)
        .with_socket_mode(SocketMode::from_octal(0o640));
    assert_eq!(daemon.socket_mode().map(SocketMode::as_octal), Some(0o640));
    assert_eq!(daemon.socket(), &b"/tmp/s".to_vec());
}

#[test]
fn socket_mode_reads_octal_text() {
    assert_eq!(SocketMode::from_octal_text("600"), Some(SocketMode::from_octal(0o600)));
    assert_eq!(SocketMode::from_octal_text("+17"), Some(SocketMode::from_octal(0o17)));
    assert_eq!(SocketMode::from_octal_text("0"), Some(SocketMode::from_octal(0)));
    assert_eq!(
        SocketMode::from_octal_text("37777777777"),
        Some(SocketMode::from_octal(u32::MAX))
    );
    assert_eq!(SocketMode::from_octal_text("40000000000"), None);
    assert_eq!(SocketMode::from_octal_text(""), None);
    assert_eq!(SocketMode::from_octal_text("+"), None);
    assert_eq!(SocketMode::from_octal_text("-1"), None);
    assert_eq!(SocketMode::from_octal_text("8"), None);
    assert_eq!(SocketMode::from_octal_text("0o600"), None);
    assert_eq!(SocketMode::from_octal_text(" 600"), None);
}

#[test]
fn socket_mode_matches_std_octal_reading() {
    for text in ["600", "+17", "", "+", "-1", "8", "777", "37777777777", "40000000000", "07"] {
        assert_eq!(
            SocketMode::from_octal_text(text).map(SocketMode::as_octal),
            u32::from_str_radix(text, 8).ok(),
            "{text}"
        );
    }
}

#[test]
fn frame_codec_reads_big_endian_length() {
    let codec = SystemFrameCodec::default();
    assert_eq!(codec.maximum_frame_bytes, 1024 * 1024);
    assert_eq!(codec.frame_length([0, 0, 1, 0]), Ok(256));
    assert_eq!(codec.frame_length([0, 16, 0, 0]), Ok(1_048_576));
    assert_eq!(
        codec.frame_length([0, 0x10, 0, 1]),
        Err(Error::UnexpectedSignalFrame {
            got: "frame length 1048577 exceeds 1048576".to_string()
        })
    );
    assert_eq!(
        SystemFrameCodec::new(3).frame_length([0xff, 0xff, 0xff, 0xff]),
        Err(Error::UnexpectedSignalFrame {
            got: "frame length 4294967295 exceeds 3".to_string()
        })
    );
    assert_eq!(SystemFrameCodec::new(0).frame_length([0, 0, 0, 0]), Ok(0));
}

#[test]
fn supervisor_records_served_requests() {
    let mut supervisor: SystemSupervisor<Operation> = SystemSupervisor::new(SystemBackend::Niri);
    let state = supervisor.read_state(ReadSystemState::expecting_at_least(0));
    assert_eq!(state.served_request_count, 0);
    assert_eq!(state.last_operation, None);
    let state = supervisor.record_served_request(RecordServedSystemRequest {
        operation: Operation::FocusSubscription,
    });
    assert_eq!(state.served_request_count, 1);
    assert_eq!(state.last_operation, Some(Operation::FocusSubscription));
    assert_eq!(supervisor.read_state(ReadSystemState::expecting_at_least(5)), state);
}

#[test]
fn status_query_is_answered_running_and_ready() {
    let mut supervisor = SystemSupervisor::new(SystemBackend::Niri);
    let event = SystemRequestHandler::new().event_for_request(
        &mut supervisor,
        SystemRequestSummary {
            operation: Operation::SystemStatusQuery,
            status_query: Some(SystemStatusQuery { backend: SystemBackend::Niri }),
        },
    );
    assert_eq!(
        event,
        SystemEvent::SystemStatus(SystemStatus {
            backend: SystemBackend::Niri,
            health: SystemHealth::Running,
            readiness: SystemReadiness::Ready,
        })
    );
    let state = supervisor.read_state(ReadSystemState::expecting_at_least(1));
    assert_eq!(state.served_request_count, 1);
    assert_eq!(state.last_operation, Some(Operation::SystemStatusQuery));
}

#[test]
fn unbuilt_request_is_answered_typed_unimplemented() {
    let mut supervisor = SystemSupervisor::new(SystemBackend::Niri);
    let event = SystemRequestHandler::new().event_for_request(
        &mut supervisor,
        SystemRequestSummary { operation: Operation::FocusSubscription, status_query: None },
    );
    assert_eq!(
        event,
        SystemEvent::SystemRequestUnimplemented(SystemRequestUnimplemented {
            operation: Operation::FocusSubscription,
            reason: SystemUnimplementedReason::NotBuiltYet,
        })
    );
    let state = supervisor.read_state(ReadSystemState::expecting_at_least(1));
    assert_eq!(SystemRequestHandler::health(&state), SystemHealth::Running);
    assert_eq!(SystemRequestHandler::readiness(&state), SystemReadiness::Ready);
}

#[test]
fn error_messages_read_as_displayed() {
    let target = SystemTarget::niri_window(42);
    assert_eq!(
        Error::TargetNotFound { target }.message(),
        format!("target not found: {target:?}")
    );
    assert_eq!(
        Error::UnsupportedBackend { backend: "sway".to_string() }.message(),
        "unsupported system backend: sway"
    );
    assert_eq!(
        Error::MissingEventSource { name: "niri".to_string() }.message(),
        "missing system event source: niri"
    );
    assert_eq!(
        Error::NiriCommandFailed { detail: "exit 1".to_string() }.message(),
        "niri command failed: exit 1"
    );
    assert_eq!(Error::MissingInput.message(), "missing command-line input");
    assert_eq!(
        Error::InvalidInlineNotaArgument { got: "\"(\\xFF\"".to_string() }.message(),
        "invalid inline nota argument: \"(\\xFF\""
    );
    assert_eq!(
        Error::UnexpectedSignalFrame { got: "frame".to_string() }.message(),
        "unexpected signal frame: frame"
    );
    assert_eq!(
        Error::ActorCall { detail: "stopped".to_string() }.message(),
        "actor call failed: stopped"
    );
    assert_eq!(
        Error::TargetNotFound { target: SystemTarget::niri_window(u64::MAX) }.message(),
        format!("target not found: {:?}", SystemTarget::niri_window(u64::MAX))
    );
}

#[test]
fn supervisor_counts_a_run_of_records_and_reads() {
    let mut supervisor = SystemSupervisor::new(SystemBackend::Niri);
    let operations = [
        Operation::SystemStatusQuery,
        Operation::FocusSubscription,
        Operation::SystemStatusQuery,
    ];
    for operation in operations {
        supervisor.read_state(ReadSystemState::expecting_at_least(0));
        supervisor.record_served_request(RecordServedSystemRequest { operation });
    }
    let state = supervisor.read_state(ReadSystemState::expecting_at_least(3));
    assert_eq!(state.backend, SystemBackend::Niri);
    assert_eq!(state.served_request_count, 3);
    assert_eq!(state.last_operation, Some(Operation::SystemStatusQuery));
}

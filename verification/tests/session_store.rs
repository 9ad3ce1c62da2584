//! Session State Store: descriptor records render and read back
//! identically, and malformed text is rejected.

use hedge_cli::session::{
    parse_client_descriptor, parse_pid_descriptor, render_client_descriptor,
    render_pid_descriptor, ClientDescriptor, LoginMode, PidDescriptor, RemoteAccess,
};

#[test]
fn pid_descriptor_round_trips_when_complete() {
    let d = PidDescriptor {
        pid: 4321,
        port: Some(9000),
        token: Some("one-time-credential".to_string()),
        start_time: 1700000000000,
    };
    let text = render_pid_descriptor(&d);
    assert_eq!(
        text,
        "{\"pid\":4321,\"port\":9000,\"token\":\"one-time-credential\",\"startTime\":1700000000000}"
    );
    let back = parse_pid_descriptor(&text).expect("a rendered record reads back");
    assert_eq!(back.pid, d.pid);
    assert_eq!(back.port, d.port);
    assert_eq!(back.token, d.token);
    assert_eq!(back.start_time, d.start_time);
}

#[test]
fn pid_descriptor_round_trips_when_incomplete() {
    let d = PidDescriptor {
        pid: 1,
        port: None,
        token: None,
        start_time: 0,
    };
    let text = render_pid_descriptor(&d);
    assert_eq!(text, "{\"pid\":1,\"port\":null,\"token\":null,\"startTime\":0}");
    let back = parse_pid_descriptor(&text).expect("a rendered record reads back");
    assert_eq!(back.pid, 1);
    assert!(back.port.is_none());
    assert!(back.token.is_none());
    assert_eq!(back.start_time, 0);
}

#[test]
fn malformed_pid_descriptor_is_rejected() {
    assert!(parse_pid_descriptor("").is_none());
    assert!(parse_pid_descriptor("{}").is_none());
    assert!(parse_pid_descriptor("{\"pid\":-1,\"port\":null,\"token\":null,\"startTime\":0}").is_none());
    assert!(parse_pid_descriptor("{\"pid\":1,\"port\":null,\"token\":null,\"startTime\":0}x").is_none());
    assert!(parse_pid_descriptor("{\"pid\":1,\"port\":99999999999,\"token\":null,\"startTime\":0}")
        .is_none());
}

#[test]
fn local_client_descriptor_round_trips() {
    let d = ClientDescriptor {
        mode: LoginMode::Local,
        remote: None,
    };
    let text = render_client_descriptor(&d);
    assert_eq!(text, "{\"loginOption\":{\"mode\":\"local\",\"remote\":null}}");
    let back = parse_client_descriptor(&text).expect("a rendered record reads back");
    assert!(matches!(back.mode, LoginMode::Local));
    assert!(back.remote.is_none());
}

#[test]
fn remote_client_descriptor_round_trips() {
    let d = ClientDescriptor {
        mode: LoginMode::Remote,
        remote: Some(RemoteAccess {
            host: "192.168.1.2:9000".to_string(),
            token: "remote-credential".to_string(),
        }),
    };
    let text = render_client_descriptor(&d);
    assert_eq!(
        text,
        "{\"loginOption\":{\"mode\":\"remote\",\"remote\":{\"host\":\"192.168.1.2:9000\",\"token\":\"remote-credential\"}}}"
    );
    let back = parse_client_descriptor(&text).expect("a rendered record reads back");
    assert!(matches!(back.mode, LoginMode::Remote));
    let ra = back.remote.expect("a remote record keeps its access");
    assert_eq!(ra.host, "192.168.1.2:9000");
    assert_eq!(ra.token, "remote-credential");
}

#[test]
fn unknown_mode_word_reads_as_local() {
    let back = parse_client_descriptor("{\"loginOption\":{\"mode\":\"browser\",\"remote\":null}}")
        .expect("an unknown mode still reads");
    assert!(matches!(back.mode, LoginMode::Local));
}

#[test]
fn remote_mode_without_remote_record_is_malformed() {
    assert!(parse_client_descriptor("{\"loginOption\":{\"mode\":\"remote\",\"remote\":null}}").is_none());
}

#[test]
fn is_complete_requires_port_and_token_together() {
    let both = PidDescriptor {
        pid: 1,
        port: Some(1),
        token: Some("t".to_string()),
        start_time: 0,
    };
    assert!(both.is_complete());
    let port_only = PidDescriptor {
        pid: 1,
        port: Some(1),
        token: None,
        start_time: 0,
    };
    assert!(!port_only.is_complete());
    let token_only = PidDescriptor {
        pid: 1,
        port: None,
        token: Some("t".to_string()),
        start_time: 0,
    };
    assert!(!token_only.is_complete());
}

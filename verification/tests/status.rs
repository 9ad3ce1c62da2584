//! Status computation: the decision tree over the two descriptors and
//! one probe.

use hedge_cli::channel::ChannelManager;
use hedge_cli::config::{default_config_file, resolve_config};
use hedge_cli::server::{ProbeOutcome, ServerManager, ServerStatusType, StatusStep};
use hedge_cli::session::{ClientDescriptor, LoginMode, PidDescriptor, RemoteAccess};

fn manager() -> ServerManager {
    let config = resolve_config(default_config_file(), "/home/u/.config/Hedge-v3");
    let channel_manager = ChannelManager::new(&config, None);
    ServerManager::new(&config, &channel_manager)
}

fn local_client() -> ClientDescriptor {
    ClientDescriptor {
        mode: LoginMode::Local,
        remote: None,
    }
}

fn remote_client() -> ClientDescriptor {
    ClientDescriptor {
        mode: LoginMode::Remote,
        remote: Some(RemoteAccess {
            host: "192.168.1.2:9000".to_string(),
            token: "remote-credential".to_string(),
        }),
    }
}

fn complete_pid() -> PidDescriptor {
    PidDescriptor {
        pid: 4321,
        port: Some(9000),
        token: Some("tok".to_string()),
        start_time: 1700000000000,
    }
}

#[test]
fn no_client_descriptor_is_not_initialized_without_probe() {
    let mut m = manager();
    let step = m.status_begin(&None, &None);
    match step {
        StatusStep::Done(st) => {
            assert!(st.status == ServerStatusType::NotInitialized);
            assert!(st.pid.is_none());
            assert!(st.host.is_none());
            assert!(st.port.is_none());
            assert!(st.start_time.is_none());
            assert!(!st.remote_mode);
        }
        StatusStep::Probe(_) => panic!("no probe may be issued without a client descriptor"),
    }
}

#[test]
fn local_channel_without_pid_descriptor_is_stop() {
    let mut m = manager();
    let step = m.status_begin(&Some(local_client()), &None);
    match step {
        StatusStep::Done(st) => {
            assert!(st.status == ServerStatusType::Stop);
            assert!(!st.remote_mode);
        }
        StatusStep::Probe(_) => panic!("a stopped channel is never probed"),
    }
}

#[test]
fn incomplete_pid_descriptor_is_starting_without_probe() {
    let mut m = manager();
    let pid = PidDescriptor {
        pid: 77,
        port: None,
        token: None,
        start_time: 5,
    };
    let step = m.status_begin(&Some(local_client()), &Some(pid));
    match step {
        StatusStep::Done(st) => {
            assert!(st.status == ServerStatusType::Starting);
            assert_eq!(st.pid, Some(77));
            assert_eq!(st.start_time, Some(5));
            assert!(st.port.is_none());
        }
        StatusStep::Probe(_) => panic!("an incomplete descriptor is never probed"),
    }
}

#[test]
fn port_without_token_is_still_incomplete() {
    let mut m = manager();
    let pid = PidDescriptor {
        pid: 77,
        port: Some(9000),
        token: None,
        start_time: 5,
    };
    let step = m.status_begin(&Some(local_client()), &Some(pid));
    match step {
        StatusStep::Done(st) => {
            assert!(st.status == ServerStatusType::Starting);
            assert_eq!(st.port, Some(9000));
        }
        StatusStep::Probe(_) => panic!("an incomplete descriptor is never probed"),
    }
}

#[test]
fn unreachable_probe_diverges_between_local_and_remote() {
    // Local channel, complete descriptor, probe fails: still starting.
    let mut m = manager();
    let step = m.status_begin(&Some(local_client()), &Some(complete_pid()));
    let pending = match step {
        StatusStep::Probe(p) => p,
        StatusStep::Done(_) => panic!("a complete descriptor leads to a probe"),
    };
    let st = ServerManager::status_finish(pending, &ProbeOutcome::Unreachable);
    assert!(st.status == ServerStatusType::Starting);

    // Remote channel, same probe failure: connection error.
    let mut m = manager();
    let step = m.status_begin(&Some(remote_client()), &None);
    let pending = match step {
        StatusStep::Probe(p) => p,
        StatusStep::Done(_) => panic!("a remote channel always probes"),
    };
    assert_eq!(pending.host.as_deref(), Some("192.168.1.2:9000"));
    let st = ServerManager::status_finish(pending, &ProbeOutcome::Unreachable);
    assert!(st.status == ServerStatusType::ConnectionError);
    assert!(st.remote_mode);
}

#[test]
fn answered_probe_is_running_only_on_ready() {
    let mut m = manager();
    let step = m.status_begin(&Some(local_client()), &Some(complete_pid()));
    let pending = match step {
        StatusStep::Probe(p) => p,
        StatusStep::Done(_) => panic!("a complete descriptor leads to a probe"),
    };
    let st = ServerManager::status_finish(pending, &ProbeOutcome::Answered("READY".to_string()));
    assert!(st.status == ServerStatusType::Running);

    let mut m = manager();
    let step = m.status_begin(&Some(local_client()), &Some(complete_pid()));
    let pending = match step {
        StatusStep::Probe(p) => p,
        StatusStep::Done(_) => panic!("a complete descriptor leads to a probe"),
    };
    let st = ServerManager::status_finish(pending, &ProbeOutcome::Answered("LOADING".to_string()));
    assert!(st.status == ServerStatusType::Loading);
}

#[test]
fn status_names_are_printed_verbatim() {
    assert_eq!(ServerStatusType::NotInitialized.describe(), "NotInitialized");
    assert_eq!(ServerStatusType::Stop.describe(), "Stop");
    assert_eq!(ServerStatusType::Starting.describe(), "Starting");
    assert_eq!(ServerStatusType::Loading.describe(), "Loading");
    assert_eq!(ServerStatusType::Running.describe(), "Running");
    assert_eq!(ServerStatusType::ConnectionError.describe(), "ConnectionError");
}

#[test]
fn health_plan_carries_address_and_bearer_token() {
    let mut m = manager();
    let step = m.status_begin(&Some(local_client()), &Some(complete_pid()));
    assert!(matches!(step, StatusStep::Probe(_)));
    let plan = m.health_plan();
    assert_eq!(plan.url, "http://localhost:9000/app/health");
    assert_eq!(plan.authorization.as_deref(), Some("Bearer tok"));
    assert!(plan.body.is_none());
}

#[test]
fn remote_address_adopts_the_configured_host() {
    let mut m = manager();
    let _ = m.status_begin(&Some(remote_client()), &None);
    let plan = m.health_plan();
    assert_eq!(plan.url, "http://192.168.1.2:9000/app/health");
    assert_eq!(plan.authorization.as_deref(), Some("Bearer remote-credential"));
}

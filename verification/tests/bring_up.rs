//! Bring-up: spawn decision, discovery poll budget, lease renewals,
//! permanent mode and teardown.

use hedge_cli::channel::ChannelManager;
use hedge_cli::config::{default_config_file, resolve_config};
use hedge_cli::server::{
    maintain_schedule, is_accepted_status, BringUpPlan, ConnectionPoll, HttpMethod, KillDecision,
    PollObservation, ProbeOutcome, ServerManager, MAINTAIN_SIGNAL_INTERVAL_MS, MAINTAIN_SLEEP_MS,
    POLL_ATTEMPTS, POLL_SLEEP_MS, WAITING_SIGNAL_INTERVAL_MS,
};
use hedge_cli::session::{ClientDescriptor, LoginMode, PidDescriptor, RemoteAccess};

fn manager() -> ServerManager {
    let config = resolve_config(default_config_file(), "/home/u/.config/Hedge-v3");
    let channel_manager = ChannelManager::new(&config, Some("work".to_string()));
    ServerManager::new(&config, &channel_manager)
}

fn local_client() -> ClientDescriptor {
    ClientDescriptor {
        mode: LoginMode::Local,
        remote: None,
    }
}

fn complete(port: i32, token: &str) -> Option<PidDescriptor> {
    Some(PidDescriptor {
        pid: 1,
        port: Some(port),
        token: Some(token.to_string()),
        start_time: 0,
    })
}

#[test]
fn unconfigured_channel_fails_bring_up() {
    let mut m = manager();
    let plan = m.bring_up_begin(&None, &None);
    assert_eq!(plan, BringUpPlan::NotInitialized);
}

#[test]
fn remote_channel_returns_immediately() {
    let mut m = manager();
    let client = ClientDescriptor {
        mode: LoginMode::Remote,
        remote: Some(RemoteAccess {
            host: "h:1".to_string(),
            token: "t".to_string(),
        }),
    };
    let plan = m.bring_up_begin(&Some(client), &None);
    assert_eq!(plan, BringUpPlan::Remote);
    let req = m.signal_plan(WAITING_SIGNAL_INTERVAL_MS);
    assert_eq!(req.url, "http://h:1/app/lifetime/signal");
}

#[test]
fn backend_is_spawned_exactly_when_no_descriptor_exists() {
    let mut m = manager();
    let plan = m.bring_up_begin(&Some(local_client()), &None);
    assert_eq!(plan, BringUpPlan::Poll { spawn: true });

    let mut m = manager();
    let plan = m.bring_up_begin(&Some(local_client()), &complete(9000, "t"));
    assert_eq!(plan, BringUpPlan::Poll { spawn: false });
}

#[test]
fn poll_succeeds_once_health_reports_ready_within_budget() {
    let mut m = manager();
    let script = vec![
        PollObservation {
            pid: None,
            health: ProbeOutcome::Unreachable,
        },
        PollObservation {
            pid: complete(9000, "t"),
            health: ProbeOutcome::Unreachable,
        },
        PollObservation {
            pid: complete(9000, "t"),
            health: ProbeOutcome::Answered("LOADING".to_string()),
        },
        PollObservation {
            pid: complete(9001, "tok2"),
            health: ProbeOutcome::Answered("READY".to_string()),
        },
    ];
    assert!(m.run_connection_poll(&script));
    // The access context holds the port and token of the attempt that
    // succeeded.
    let req = m.signal_plan(WAITING_SIGNAL_INTERVAL_MS);
    assert_eq!(req.url, "http://localhost:9001/app/lifetime/signal");
    assert_eq!(req.authorization.as_deref(), Some("Bearer tok2"));
    assert_eq!(req.body.as_deref(), Some("{\"interval\":10000,\"standalone\":true}"));
}

#[test]
fn poll_times_out_when_ready_is_never_reached() {
    let mut m = manager();
    let mut script = Vec::new();
    for _ in 0..100 {
        script.push(PollObservation {
            pid: complete(9000, "t"),
            health: ProbeOutcome::Answered("LOADING".to_string()),
        });
    }
    // Even a later success is beyond the budget of one hundred attempts.
    script.push(PollObservation {
        pid: complete(9000, "t"),
        health: ProbeOutcome::Answered("READY".to_string()),
    });
    assert!(!m.run_connection_poll(&script));
}

#[test]
fn poll_budget_counts_one_hundred_attempts() {
    assert_eq!(POLL_ATTEMPTS, 100);
    assert_eq!(POLL_SLEEP_MS, 100);
    let mut poll = ConnectionPoll::new();
    let mut taken = 0;
    while poll.begin_attempt() {
        taken += 1;
    }
    assert_eq!(taken, 100);
    assert!(!poll.begin_attempt());
}

#[test]
fn maintain_issues_one_immediate_renewal_then_every_sleep() {
    assert_eq!(MAINTAIN_SIGNAL_INTERVAL_MS, 30000);
    assert_eq!(MAINTAIN_SLEEP_MS, 25000);
    let first = maintain_schedule(0);
    assert_eq!(first.sleep_ms, 0);
    assert_eq!(first.interval_ms, 30000);
    for step in 1..50u64 {
        let s = maintain_schedule(step);
        assert_eq!(s.sleep_ms, 25000);
        assert_eq!(s.interval_ms, 30000);
    }
}

#[test]
fn kill_on_remote_channel_is_refused_without_signal() {
    let client = ClientDescriptor {
        mode: LoginMode::Remote,
        remote: Some(RemoteAccess {
            host: "h".to_string(),
            token: "t".to_string(),
        }),
    };
    let d = ServerManager::kill_decision(&Some(client), &complete(9000, "t"));
    assert_eq!(d, KillDecision::RefusedRemote);
}

#[test]
fn kill_signals_the_descriptor_process_and_ignores_absence() {
    let d = ServerManager::kill_decision(&Some(local_client()), &complete(9000, "t"));
    assert_eq!(d, KillDecision::Signal(1));
    let d = ServerManager::kill_decision(&Some(local_client()), &None);
    assert_eq!(d, KillDecision::NoProcess);
}

#[test]
fn permanent_body_is_exact() {
    let m = manager();
    let on = m.permanent_plan(true);
    assert_eq!(
        on.body.as_deref(),
        Some("{\"type\":\"command-line-application\",\"value\":true}")
    );
    assert_eq!(on.url, "/app/lifetime/permanent");
    assert!(matches!(on.method, HttpMethod::Post));
    let off = m.permanent_plan(false);
    assert_eq!(
        off.body.as_deref(),
        Some("{\"type\":\"command-line-application\",\"value\":false}")
    );
}

#[test]
fn accepted_statuses_are_success_and_redirection() {
    assert!(is_accepted_status(200));
    assert!(is_accepted_status(204));
    assert!(is_accepted_status(302));
    assert!(is_accepted_status(399));
    assert!(!is_accepted_status(199));
    assert!(!is_accepted_status(400));
    assert!(!is_accepted_status(500));
}

#[test]
fn spawn_plan_names_binary_argument_and_log() {
    let m = manager();
    let plan = m.spawn_plan();
    assert_eq!(
        plan.bin_path,
        "/home/u/.config/Hedge-v3/server/bin/hedge-v3-server"
    );
    assert_eq!(plan.arg_name, "--channel-path");
    assert_eq!(plan.channel_path, "/home/u/.config/Hedge-v3/appdata/channel/work");
    assert_eq!(
        plan.log_path,
        "/home/u/.config/Hedge-v3/appdata/channel/work/server.log"
    );
}

#[test]
fn descriptor_paths_follow_the_channel_layout() {
    let m = manager();
    assert_eq!(
        m.client_descriptor_path(),
        "/home/u/.config/Hedge-v3/appdata/channel/work/client.dat"
    );
    assert_eq!(
        m.pid_descriptor_path(),
        "/home/u/.config/Hedge-v3/appdata/channel/work/server/PID"
    );
    assert_eq!(
        m.log_path(),
        "/home/u/.config/Hedge-v3/appdata/channel/work/server.log"
    );
}

#[test]
fn address_and_token_are_set_together() {
    // Nothing learned: bare path, no authorization header.
    let m = manager();
    let plan = m.health_plan();
    assert_eq!(plan.url, "/app/health");
    assert!(plan.authorization.is_none());
    // After bring-up both appear at once.
    let mut m = manager();
    let mut script = Vec::new();
    script.push(PollObservation {
        pid: complete(9000, "t"),
        health: ProbeOutcome::Answered("READY".to_string()),
    });
    assert!(m.run_connection_poll(&script));
    let plan = m.health_plan();
    assert_eq!(plan.url, "http://localhost:9000/app/health");
    assert!(plan.authorization.is_some());
}

#[test]
fn poll_budget_edge_is_exact() {
    // Success at the hundredth attempt is still within the budget.
    let mut m = manager();
    let mut script = Vec::new();
    for _ in 0..99 {
        script.push(PollObservation { pid: None, health: ProbeOutcome::Unreachable });
    }
    script.push(PollObservation {
        pid: complete(9000, "t"),
        health: ProbeOutcome::Answered("READY".to_string()),
    });
    assert!(m.run_connection_poll(&script));

    // Success at the hundred-and-first attempt is beyond it.
    let mut m = manager();
    let mut script = Vec::new();
    for _ in 0..100 {
        script.push(PollObservation { pid: None, health: ProbeOutcome::Unreachable });
    }
    script.push(PollObservation {
        pid: complete(9000, "t"),
        health: ProbeOutcome::Answered("READY".to_string()),
    });
    assert!(!m.run_connection_poll(&script));
}

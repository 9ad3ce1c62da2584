//! The Backend Session & Lifecycle Supervisor: computes the service
//! status from the two descriptor records plus one health probe, brings
//! the service up with a bounded discovery poll, keeps it alive through
//! lease renewals, and decides teardown.
//!
//! Network and filesystem work stays with the caller: the supervisor
//! hands out exact request plans and consumes the outcomes, so every
//! decision in between is verified.

use vstd::prelude::*;
use vstd::string::StringExecFns;

use crate::channel::ChannelManager;
use crate::config::LocalConfig;
use crate::session::ClientDescriptor;
use crate::session::LoginMode;
use crate::session::PidDescriptor;
use crate::text::chars_eq;
use crate::text::i32_to_string;
use crate::text::i64_to_string;
use crate::text::path_join;
use crate::text::spec_digits;
use crate::text::spec_int_str;
use crate::text::spec_path_join;

verus! {

/// A probe result, not persisted state.
#[derive(PartialEq, Eq, Structural, Clone, Copy, Debug)]
pub enum ServerStatusType {
    NotInitialized,
    Stop,
    Starting,
    Loading,
    Running,
    ConnectionError,
}

impl ServerStatusType {
    /// The name of the status, as printed.
    pub open spec fn spec_name(self) -> Seq<char> {
        match self {
            ServerStatusType::NotInitialized => "NotInitialized"@,
            ServerStatusType::Stop => "Stop"@,
            ServerStatusType::Starting => "Starting"@,
            ServerStatusType::Loading => "Loading"@,
            ServerStatusType::Running => "Running"@,
            ServerStatusType::ConnectionError => "ConnectionError"@,
        }
    }

    /// Prints the name of the status.
    pub fn describe(&self) -> (r: String)
        ensures
            r@ == self.spec_name(),
    {
        match self {
            ServerStatusType::NotInitialized => String::from_str("NotInitialized"),
            ServerStatusType::Stop => String::from_str("Stop"),
            ServerStatusType::Starting => String::from_str("Starting"),
            ServerStatusType::Loading => String::from_str("Loading"),
            ServerStatusType::Running => String::from_str("Running"),
            ServerStatusType::ConnectionError => String::from_str("ConnectionError"),
        }
    }
}

/// A recomputed snapshot of the service, never cached.
#[derive(Debug)]
pub struct ServerStatus {
    pub remote_mode: bool,
    pub status: ServerStatusType,
    pub pid: Option<i64>,
    pub host: Option<String>,
    pub port: Option<i32>,
    pub start_time: Option<i64>,
}

/// What one health probe came back with: a transport failure, or the
/// status word of the health body.
#[derive(Debug)]
pub enum ProbeOutcome {
    Unreachable,
    Answered(String),
}

impl ProbeOutcome {
    /// The probe reached the backend and it reported itself ready.
    pub open spec fn is_ready(&self) -> bool {
        match self {
            ProbeOutcome::Answered(s) => s@ == "READY"@,
            ProbeOutcome::Unreachable => false,
        }
    }

    /// Decides whether the probe reported readiness.
    pub fn ready(&self) -> (r: bool)
        ensures
            r == self.is_ready(),
    {
        match self {
            ProbeOutcome::Answered(s) => chars_eq(s.as_str(), "READY"),
            ProbeOutcome::Unreachable => false,
        }
    }
}

/// The address and credential of the backend, learned during bring-up and
/// then read-only.  The token is set exactly when the address is set:
/// both become known atomically.
#[derive(Clone, Debug)]
pub struct Access {
    pub remote_mode: bool,
    address: Option<String>,
    token: Option<String>,
}

impl Access {
    /// The base address, when known.
    pub closed spec fn spec_address(&self) -> Option<Seq<char>> {
        match self.address {
            Some(ref a) => Some(a@),
            None => None,
        }
    }

    /// The bearer token, when known.
    pub closed spec fn spec_token(&self) -> Option<Seq<char>> {
        match self.token {
            Some(ref t) => Some(t@),
            None => None,
        }
    }

    /// Whether the context points at a pre-configured remote backend.
    pub closed spec fn spec_remote_mode(&self) -> bool {
        self.remote_mode
    }

    /// Reads whether the context points at a remote backend.
    pub fn is_remote_mode(&self) -> (r: bool)
        ensures
            r == self.spec_remote_mode(),
    {
        self.remote_mode
    }

    /// Address and credential become known together.
    pub closed spec fn wf(&self) -> bool {
        self.address is Some <==> self.token is Some
    }

    /// The invariant kept across every reachable transition: the token is
    /// set exactly when the address is set.
    pub proof fn lemma_token_iff_address(&self)
        requires
            self.wf(),
        ensures
            self.spec_address() is Some <==> self.spec_token() is Some,
    {
    }

    /// A fresh context: nothing known, local mode.
    pub fn new() -> (r: Access)
        ensures
            r.wf(),
            r.spec_address() is None,
            r.spec_token() is None,
            r.spec_remote_mode() == false,
    {
        Access { remote_mode: false, address: None, token: None }
    }
}

/// The milliseconds of the lease renewal sent by the one-shot protocol.
pub const WAITING_SIGNAL_INTERVAL_MS: i64 = 10000;

/// The milliseconds of the lease renewal sent by the maintaining
/// protocol.
pub const MAINTAIN_SIGNAL_INTERVAL_MS: i64 = 30000;

/// The milliseconds the maintaining task sleeps between renewals.
pub const MAINTAIN_SLEEP_MS: u64 = 25000;

/// Number of attempts the discovery poll makes before giving up.
pub const POLL_ATTEMPTS: u64 = 100;

/// Milliseconds slept before each discovery poll attempt.
pub const POLL_SLEEP_MS: u64 = 100;

/// An HTTP method of the access layer.
#[derive(PartialEq, Eq, Structural, Clone, Copy, Debug)]
pub enum HttpMethod {
    Get,
    Post,
    Patch,
    Put,
}

/// An exact request for the caller to perform: method, full URL, the
/// `Authorization` header value when a token is known, and the body when
/// one is sent.
#[derive(Debug)]
pub struct RequestPlan {
    pub method: HttpMethod,
    pub url: String,
    pub authorization: Option<String>,
    pub body: Option<String>,
}

/// The body of a lease renewal: interval in milliseconds, marked as
/// coming from a one-shot command.
pub open spec fn spec_signal_body(interval: int) -> Seq<char> {
    "{\"interval\":"@ + spec_digits(interval) + ",\"standalone\":true}"@
}

/// The body of a permanent-mode change.
pub open spec fn spec_permanent_body(enable: bool) -> Seq<char> {
    "{\"type\":\"command-line-application\",\"value\":"@ + (if enable {
        "true"@
    } else {
        "false"@
    }) + "}"@
}

/// One step of the supervisor's status computation: either the snapshot
/// is already decided, or the caller must probe health and conclude with
/// `status_finish`.
#[derive(Debug)]
pub enum StatusStep {
    Done(ServerStatus),
    Probe(ServerStatus),
}

/// The shared bring-up decision: the channel was never configured, the
/// backend is externally managed, or a discovery poll is needed — after
/// spawning the backend exactly when no process descriptor exists.
#[derive(PartialEq, Eq, Structural, Clone, Copy, Debug)]
pub enum BringUpPlan {
    NotInitialized,
    Remote,
    Poll { spawn: bool },
}

/// What `kill` decides: a remote backend is never killed, a present
/// process descriptor names the process to signal, absence is a silent
/// no-op.
#[derive(PartialEq, Eq, Structural, Clone, Copy, Debug)]
pub enum KillDecision {
    RefusedRemote,
    Signal(i64),
    NoProcess,
}

/// One slot of the maintaining task's endless schedule.
#[derive(PartialEq, Eq, Structural, Clone, Copy, Debug)]
pub struct MaintainStep {
    pub sleep_ms: u64,
    pub interval_ms: i64,
}

/// The maintaining task's schedule: one immediate renewal, then one
/// renewal after every sleep, indefinitely.
pub fn maintain_schedule(step: u64) -> (r: MaintainStep)
    ensures
        r.interval_ms == MAINTAIN_SIGNAL_INTERVAL_MS,
        r.sleep_ms == if step == 0 {
            0u64
        } else {
            MAINTAIN_SLEEP_MS
        },
{
    MaintainStep {
        sleep_ms: if step == 0 {
            0
        } else {
            MAINTAIN_SLEEP_MS
        },
        interval_ms: MAINTAIN_SIGNAL_INTERVAL_MS,
    }
}

/// Whether an HTTP status is taken as success by the access layer:
/// success and redirection classes.
pub fn is_accepted_status(status: u16) -> (r: bool)
    ensures
        r == (200 <= status < 400),
{
    200 <= status && status < 400
}

/// What one discovery poll attempt observed: the re-read process
/// descriptor, and what the health probe would answer.  The probe is
/// performed only when the descriptor is complete.
#[derive(Debug)]
pub struct PollObservation {
    pub pid: Option<PidDescriptor>,
    pub health: ProbeOutcome,
}

/// The attempt finds a complete descriptor and a ready backend.
pub open spec fn attempt_succeeds(ob: PollObservation) -> bool {
    match ob.pid {
        Some(p) => p@.complete() && ob.health.is_ready(),
        None => false,
    }
}

/// The budget of the discovery poll, counted down one attempt at a time.
#[derive(PartialEq, Eq, Structural, Clone, Copy, Debug)]
pub struct ConnectionPoll {
    pub attempts_left: u64,
}

impl ConnectionPoll {
    /// A fresh poll with the full budget.
    pub fn new() -> (r: ConnectionPoll)
        ensures
            r.attempts_left == POLL_ATTEMPTS,
    {
        ConnectionPoll { attempts_left: POLL_ATTEMPTS }
    }

    /// Takes one attempt from the budget; `false` once the budget is
    /// exhausted, which surfaces as the timeout failure.
    pub fn begin_attempt(&mut self) -> (go: bool)
        ensures
            go == (old(self).attempts_left > 0),
            final(self).attempts_left == if go {
                old(self).attempts_left - 1
            } else {
                0int
            },
    {
        if self.attempts_left > 0 {
            self.attempts_left = self.attempts_left - 1;
            true
        } else {
            false
        }
    }
}

/// The orchestrating state machine of one invocation.  It owns the
/// access context; the caller performs the requests it plans.
#[derive(Debug)]
pub struct ServerManager {
    pub server_path: String,
    pub appdata_path: String,
    pub channel: String,
    pub access: Access,
}

impl ServerManager {
    /// A supervisor for the channel in use, with nothing learned yet.
    pub fn new(config: &LocalConfig, channel_manager: &ChannelManager) -> (r: ServerManager)
        ensures
            r.server_path@ == config.work_path.server_path@,
            r.appdata_path@ == config.work_path.appdata_path@,
            r.channel@ == channel_manager.channel@,
            r.access.wf(),
            r.access.spec_address() is None,
            r.access.spec_token() is None,
            r.access.spec_remote_mode() == false,
    {
        ServerManager {
            server_path: config.work_path.server_path.clone(),
            appdata_path: config.work_path.appdata_path.clone(),
            channel: channel_manager.current_channel().to_owned(),
            access: Access::new(),
        }
    }

    /// The channel's own directory.
    pub open spec fn spec_channel_dir(&self) -> Seq<char> {
        spec_path_join(spec_path_join(self.appdata_path@, "channel"@), self.channel@)
    }

    /// Computes the channel's own directory.
    pub fn channel_dir(&self) -> (r: String)
        ensures
            r@ == self.spec_channel_dir(),
    {
        let base = path_join(self.appdata_path.as_str(), "channel");
        path_join(base.as_str(), self.channel.as_str())
    }

    /// Path of the channel's client descriptor file.
    pub fn client_descriptor_path(&self) -> (r: String)
        ensures
            r@ == spec_path_join(self.spec_channel_dir(), "client.dat"@),
    {
        let dir = self.channel_dir();
        path_join(dir.as_str(), "client.dat")
    }

    /// Path of the channel's process descriptor file.
    pub fn pid_descriptor_path(&self) -> (r: String)
        ensures
            r@ == spec_path_join(spec_path_join(self.spec_channel_dir(), "server"@), "PID"@),
    {
        let dir = self.channel_dir();
        let server_dir = path_join(dir.as_str(), "server");
        path_join(server_dir.as_str(), "PID")
    }

    /// Path of the channel's log file.
    pub fn log_path(&self) -> (r: String)
        ensures
            r@ == spec_path_join(self.spec_channel_dir(), "server.log"@),
    {
        let dir = self.channel_dir();
        path_join(dir.as_str(), "server.log")
    }

    /// Learns the local backend's address and token: both at once.
    fn set_access(&mut self, port: i32, token: String)
        ensures
            final(self).access.spec_address() == Some(
                "http://localhost:"@ + spec_int_str(port as int),
            ),
            final(self).access.spec_token() == Some(token@),
            final(self).access.spec_remote_mode() == old(self).access.spec_remote_mode(),
            final(self).access.wf(),
            final(self).server_path == old(self).server_path,
            final(self).appdata_path == old(self).appdata_path,
            final(self).channel == old(self).channel,
    {
        let mut address = String::from_str("http://localhost:");
        let port_s = i32_to_string(port);
        address.append(port_s.as_str());
        self.access.address = Some(address);
        self.access.token = Some(token);
    }

    /// Adopts a remote backend's address and token: both at once.
    fn set_access_remote(&mut self, host: String, token: String)
        ensures
            final(self).access.spec_address() == Some("http://"@ + host@),
            final(self).access.spec_token() == Some(token@),
            final(self).access.spec_remote_mode() == true,
            final(self).access.wf(),
            final(self).server_path == old(self).server_path,
            final(self).appdata_path == old(self).appdata_path,
            final(self).channel == old(self).channel,
    {
        let mut address = String::from_str("http://");
        address.append(host.as_str());
        self.access.address = Some(address);
        self.access.token = Some(token);
        self.access.remote_mode = true;
    }

    /// Begins the status computation: a pure decision tree over the two
    /// descriptors.  No client descriptor means not initialized, with no
    /// probe; a local channel without a process descriptor is stopped; an
    /// incomplete process descriptor means starting, with no probe; only
    /// a remote channel or a complete descriptor leads to a probe, after
    /// adopting address and token.
    pub fn status_begin(
        &mut self,
        client: &Option<ClientDescriptor>,
        pid: &Option<PidDescriptor>,
    ) -> (r: StatusStep)
        requires
            match client {
                Some(c) => c@.wf(),
                None => true,
            },
            old(self).access.wf(),
        ensures
            final(self).access.wf(),
            final(self).server_path == old(self).server_path,
            final(self).appdata_path == old(self).appdata_path,
            final(self).channel == old(self).channel,
            match client {
                None => {
                    &&& r matches StatusStep::Done(st)
                    &&& st.status == ServerStatusType::NotInitialized
                    &&& st.host is None
                    &&& st.pid is None
                    &&& st.port is None
                    &&& st.start_time is None
                    &&& st.remote_mode == false
                    &&& *final(self) == *old(self)
                },
                Some(c) => match c.mode {
                    LoginMode::Remote => {
                        let ra = c.remote->0;
                        &&& r matches StatusStep::Probe(st)
                        &&& st.status == ServerStatusType::NotInitialized
                        &&& (st.host matches Some(h) && h@ == ra.host@)
                        &&& st.pid is None
                        &&& st.port is None
                        &&& st.start_time is None
                        &&& st.remote_mode == true
                        &&& final(self).access.spec_address() == Some("http://"@ + ra.host@)
                        &&& final(self).access.spec_token() == Some(ra.token@)
                        &&& final(self).access.spec_remote_mode() == true
                    },
                    LoginMode::Local => match pid {
                        None => {
                            &&& r matches StatusStep::Done(st)
                            &&& st.status == ServerStatusType::Stop
                            &&& st.host is None
                            &&& st.pid is None
                            &&& st.port is None
                            &&& st.start_time is None
                            &&& st.remote_mode == false
                            &&& *final(self) == *old(self)
                        },
                        Some(p) => if !p@.complete() {
                            &&& r matches StatusStep::Done(st)
                            &&& st.status == ServerStatusType::Starting
                            &&& st.host is None
                            &&& (st.pid matches Some(x) && x == p.pid)
                            &&& st.port == p.port
                            &&& (st.start_time matches Some(t) && t == p.start_time)
                            &&& st.remote_mode == false
                            &&& *final(self) == *old(self)
                        } else {
                            &&& r matches StatusStep::Probe(st)
                            &&& st.status == ServerStatusType::Starting
                            &&& st.host is None
                            &&& (st.pid matches Some(x) && x == p.pid)
                            &&& st.port == p.port
                            &&& (st.start_time matches Some(t) && t == p.start_time)
                            &&& st.remote_mode == false
                            &&& final(self).access.spec_address() == Some(
                                "http://localhost:"@ + spec_int_str(p@.port->0),
                            )
                            &&& final(self).access.spec_token() == Some(p@.token->0)
                            &&& final(self).access.spec_remote_mode() == old(self).access.spec_remote_mode()
                        },
                    },
                },
            },
    {
        match client {
            None => StatusStep::Done(
                ServerStatus {
                    status: ServerStatusType::NotInitialized,
                    host: None,
                    pid: None,
                    port: None,
                    start_time: None,
                    remote_mode: false,
                },
            ),
            Some(c) => match c.mode {
                LoginMode::Remote => {
                    let ra = c.remote.as_ref().unwrap();
                    let host = ra.host.clone();
                    let token = ra.token.clone();
                    self.set_access_remote(host.clone(), token);
                    StatusStep::Probe(
                        ServerStatus {
                            status: ServerStatusType::NotInitialized,
                            host: Some(host),
                            pid: None,
                            port: None,
                            start_time: None,
                            remote_mode: true,
                        },
                    )
                },
                LoginMode::Local => match pid {
                    None => StatusStep::Done(
                        ServerStatus {
                            status: ServerStatusType::Stop,
                            host: None,
                            pid: None,
                            port: None,
                            start_time: None,
                            remote_mode: false,
                        },
                    ),
                    Some(p) => {
                        if !p.is_complete() {
                            StatusStep::Done(
                                ServerStatus {
                                    status: ServerStatusType::Starting,
                                    host: None,
                                    pid: Some(p.pid),
                                    port: p.port,
                                    start_time: Some(p.start_time),
                                    remote_mode: false,
                                },
                            )
                        } else {
                            let port = p.port.unwrap();
                            let token = p.token.as_ref().unwrap().clone();
                            self.set_access(port, token);
                            StatusStep::Probe(
                                ServerStatus {
                                    status: ServerStatusType::Starting,
                                    host: None,
                                    pid: Some(p.pid),
                                    port: p.port,
                                    start_time: Some(p.start_time),
                                    remote_mode: false,
                                },
                            )
                        }
                    },
                },
            },
        }
    }

    /// Concludes the status computation from the probe outcome.  A
    /// transport failure is a connection error on a remote channel but
    /// only "still starting" on a local one; an answered probe is running
    /// exactly when the body reports readiness, loading otherwise.
    pub fn status_finish(pending: ServerStatus, probe: &ProbeOutcome) -> (r: ServerStatus)
        ensures
            r.remote_mode == pending.remote_mode,
            r.pid == pending.pid,
            r.host == pending.host,
            r.port == pending.port,
            r.start_time == pending.start_time,
            r.status == match probe {
                ProbeOutcome::Unreachable => if pending.remote_mode {
                    ServerStatusType::ConnectionError
                } else {
                    ServerStatusType::Starting
                },
                ProbeOutcome::Answered(_) => if probe.is_ready() {
                    ServerStatusType::Running
                } else {
                    ServerStatusType::Loading
                },
            },
    {
        let status = match probe {
            ProbeOutcome::Unreachable => {
                if pending.remote_mode {
                    ServerStatusType::ConnectionError
                } else {
                    ServerStatusType::Starting
                }
            },
            ProbeOutcome::Answered(_) => {
                if probe.ready() {
                    ServerStatusType::Running
                } else {
                    ServerStatusType::Loading
                }
            },
        };
        ServerStatus {
            status,
            remote_mode: pending.remote_mode,
            pid: pending.pid,
            host: pending.host,
            port: pending.port,
            start_time: pending.start_time,
        }
    }

    /// The shared bring-up decision.  An unconfigured channel fails; a
    /// remote channel adopts address and token and is done; a local
    /// channel polls, after spawning the backend exactly when no process
    /// descriptor exists.
    pub fn bring_up_begin(
        &mut self,
        client: &Option<ClientDescriptor>,
        pid: &Option<PidDescriptor>,
    ) -> (r: BringUpPlan)
        requires
            match client {
                Some(c) => c@.wf(),
                None => true,
            },
            old(self).access.wf(),
        ensures
            final(self).access.wf(),
            final(self).server_path == old(self).server_path,
            final(self).appdata_path == old(self).appdata_path,
            final(self).channel == old(self).channel,
            match client {
                None => r == BringUpPlan::NotInitialized && *final(self) == *old(self),
                Some(c) => match c.mode {
                    LoginMode::Remote => {
                        let ra = c.remote->0;
                        r == BringUpPlan::Remote && final(self).access.spec_address() == Some(
                            "http://"@ + ra.host@,
                        ) && final(self).access.spec_token() == Some(ra.token@) && final(self).access.spec_remote_mode() == true
                    },
                    LoginMode::Local => r == (BringUpPlan::Poll { spawn: pid is None }) && *final(self) == *old(self),
                },
            },
    {
        match client {
            None => BringUpPlan::NotInitialized,
            Some(c) => match c.mode {
                LoginMode::Remote => {
                    let ra = c.remote.as_ref().unwrap();
                    let host = ra.host.clone();
                    let token = ra.token.clone();
                    self.set_access_remote(host, token);
                    BringUpPlan::Remote
                },
                LoginMode::Local => BringUpPlan::Poll { spawn: pid.is_none() },
            },
        }
    }

    /// One discovery poll attempt looks at the re-read process
    /// descriptor: a complete one has its port and token adopted and asks
    /// for a probe; anything else changes nothing and the poll goes on.
    pub fn observe_pid(&mut self, pid: &Option<PidDescriptor>) -> (probe: bool)
        requires
            old(self).access.wf(),
        ensures
            final(self).access.wf(),
            final(self).server_path == old(self).server_path,
            final(self).appdata_path == old(self).appdata_path,
            final(self).channel == old(self).channel,
            probe == match pid {
                Some(p) => p@.complete(),
                None => false,
            },
            probe ==> final(self).access.spec_address() == Some(
                "http://localhost:"@ + spec_int_str(pid->0@.port->0),
            ) && final(self).access.spec_token() == Some(pid->0@.token->0) && final(self).access.spec_remote_mode() == old(self).access.spec_remote_mode(),
            !probe ==> *final(self) == *old(self),
    {
        match pid {
            Some(p) => {
                if p.is_complete() {
                    let port = p.port.unwrap();
                    let token = p.token.as_ref().unwrap().clone();
                    self.set_access(port, token);
                    true
                } else {
                    false
                }
            },
            None => false,
        }
    }

    /// Runs the whole discovery poll against a recorded sequence of
    /// observations, one per attempt: succeeds exactly when, within the
    /// budget, some attempt finds a complete descriptor and a ready
    /// backend; exhausting the budget first is the timeout failure.
    pub fn run_connection_poll(&mut self, script: &Vec<PollObservation>) -> (ok: bool)
        requires
            old(self).access.wf(),
        ensures
            final(self).access.wf(),
            final(self).server_path == old(self).server_path,
            final(self).appdata_path == old(self).appdata_path,
            final(self).channel == old(self).channel,
            final(self).access.spec_remote_mode() == old(self).access.spec_remote_mode(),
            ok == exists|i: int|
                0 <= i < script@.len() && i < POLL_ATTEMPTS && attempt_succeeds(script@[i]),
    {
        let mut poll = ConnectionPoll::new();
        let mut i: usize = 0;
        while i < script.len() && i < 100
            invariant
                old(self).access.wf(),
                self.access.wf(),
                self.server_path == old(self).server_path,
                self.appdata_path == old(self).appdata_path,
                self.channel == old(self).channel,
                self.access.spec_remote_mode() == old(self).access.spec_remote_mode(),
                i <= script@.len(),
                i <= 100,
                forall|j: int| 0 <= j < i ==> !attempt_succeeds(script@[j]),
            decreases script@.len() - i,
        {
            let ob = &script[i];
            let probe = self.observe_pid(&ob.pid);
            if probe {
                if ob.health.ready() {
                    proof {
                        assert(attempt_succeeds(script@[i as int]));
                    }
                    return true;
                }
            }
            i = i + 1;
        }
        false
    }

    /// The exact health probe request: the address layer's URL building
    /// and authorization header, no body.
    pub fn health_plan(&self) -> (r: RequestPlan)
        ensures
            r.method == HttpMethod::Get,
            r.url@ == match self.access.spec_address() {
                Some(a) => a + "/app/health"@,
                None => "/app/health"@,
            },
            self.bearer_matches(r.authorization),
            r.body is None,
    {
        RequestPlan {
            method: HttpMethod::Get,
            url: self.build_url("/app/health"),
            authorization: self.bearer_header(),
            body: None,
        }
    }

    /// The exact lease renewal request for the given interval, marked
    /// standalone.
    pub fn signal_plan(&self, interval: i64) -> (r: RequestPlan)
        requires
            interval >= 0,
        ensures
            r.method == HttpMethod::Post,
            r.url@ == match self.access.spec_address() {
                Some(a) => a + "/app/lifetime/signal"@,
                None => "/app/lifetime/signal"@,
            },
            self.bearer_matches(r.authorization),
            r.body matches Some(b) && b@ == spec_signal_body(interval as int),
    {
        let mut body = String::from_str("{\"interval\":");
        let n = i64_to_string(interval);
        body.append(n.as_str());
        body.append(",\"standalone\":true}");
        RequestPlan {
            method: HttpMethod::Post,
            url: self.build_url("/app/lifetime/signal"),
            authorization: self.bearer_header(),
            body: Some(body),
        }
    }

    /// The exact permanent-mode request: tells the backend to stay
    /// resident regardless of lease expiry, or to resume lease-based
    /// shutdown.
    pub fn permanent_plan(&self, enable: bool) -> (r: RequestPlan)
        ensures
            r.method == HttpMethod::Post,
            r.url@ == match self.access.spec_address() {
                Some(a) => a + "/app/lifetime/permanent"@,
                None => "/app/lifetime/permanent"@,
            },
            self.bearer_matches(r.authorization),
            r.body matches Some(b) && b@ == spec_permanent_body(enable),
    {
        let mut body = String::from_str("{\"type\":\"command-line-application\",\"value\":");
        if enable {
            body.append("true");
        } else {
            body.append("false");
        }
        body.append("}");
        proof {
            assert(body@ =~= spec_permanent_body(enable));
        }
        RequestPlan {
            method: HttpMethod::Post,
            url: self.build_url("/app/lifetime/permanent"),
            authorization: self.bearer_header(),
            body: Some(body),
        }
    }

    /// A request plan against an arbitrary path with no body.
    pub fn request_plan(&self, method: HttpMethod, path: &str) -> (r: RequestPlan)
        ensures
            r.method == method,
            r.url@ == match self.access.spec_address() {
                Some(a) => a + path@,
                None => path@,
            },
            self.bearer_matches(r.authorization),
            r.body is None,
    {
        RequestPlan {
            method,
            url: self.build_url(path),
            authorization: self.bearer_header(),
            body: None,
        }
    }

    /// A request plan against an arbitrary path carrying a body.
    pub fn request_plan_with_body(&self, method: HttpMethod, path: &str, body: String) -> (r:
        RequestPlan)
        ensures
            r.method == method,
            r.url@ == match self.access.spec_address() {
                Some(a) => a + path@,
                None => path@,
            },
            self.bearer_matches(r.authorization),
            r.body matches Some(b) && b@ == body@,
    {
        RequestPlan {
            method,
            url: self.build_url(path),
            authorization: self.bearer_header(),
            body: Some(body),
        }
    }

    /// The authorization header carries the bearer token exactly when a
    /// token is known.
    pub open spec fn bearer_matches(&self, authorization: Option<String>) -> bool {
        match (authorization, self.access.spec_token()) {
            (Some(h), Some(t)) => h@ == "Bearer "@ + t,
            (None, None) => true,
            _ => false,
        }
    }

    /// Builds the request URL: the known address followed by the path, or
    /// the bare path when no address is known.
    fn build_url(&self, path: &str) -> (r: String)
        ensures
            r@ == match self.access.spec_address() {
                Some(a) => a + path@,
                None => path@,
            },
    {
        match &self.access.address {
            Some(a) => {
                let mut url = a.clone();
                url.append(path);
                url
            },
            None => path.to_owned(),
        }
    }

    /// The `Authorization` header value, when a token is known.
    fn bearer_header(&self) -> (r: Option<String>)
        ensures
            self.bearer_matches(r),
    {
        match &self.access.token {
            Some(t) => {
                let mut h = String::from_str("Bearer ");
                h.append(t.as_str());
                Some(h)
            },
            None => None,
        }
    }

    /// Decides teardown: killing a remote backend is refused; otherwise
    /// the process named by the descriptor is signalled, and absence is a
    /// silent no-op.
    pub fn kill_decision(
        client: &Option<ClientDescriptor>,
        pid: &Option<PidDescriptor>,
    ) -> (r: KillDecision)
        ensures
            r == match client {
                Some(c) => if c.mode == LoginMode::Remote {
                    KillDecision::RefusedRemote
                } else {
                    match pid {
                        Some(p) => KillDecision::Signal(p.pid),
                        None => KillDecision::NoProcess,
                    }
                },
                None => match pid {
                    Some(p) => KillDecision::Signal(p.pid),
                    None => KillDecision::NoProcess,
                },
            },
    {
        let remote = match client {
            Some(c) => c.mode == LoginMode::Remote,
            None => false,
        };
        if remote {
            KillDecision::RefusedRemote
        } else {
            match pid {
                Some(p) => KillDecision::Signal(p.pid),
                None => KillDecision::NoProcess,
            }
        }
    }

    /// The exact spawn of the backend process: binary, the one argument
    /// pair naming the channel directory, and the log file that receives
    /// both output streams, truncated on each spawn.
    pub fn spawn_plan(&self) -> (r: SpawnPlan)
        ensures
            r.bin_path@ == spec_path_join(self.server_path@, "bin/hedge-v3-server"@),
            r.arg_name@ == "--channel-path"@,
            r.channel_path@ == self.spec_channel_dir(),
            r.log_path@ == spec_path_join(self.spec_channel_dir(), "server.log"@),
    {
        SpawnPlan {
            bin_path: path_join(self.server_path.as_str(), "bin/hedge-v3-server"),
            arg_name: String::from_str("--channel-path"),
            channel_path: self.channel_dir(),
            log_path: self.log_path(),
        }
    }
}

/// The exact backend spawn: what to run, its argument, where its output
/// goes.  The caller performs it detached and never waits on the child.
#[derive(Debug)]
pub struct SpawnPlan {
    pub bin_path: String,
    pub arg_name: String,
    pub channel_path: String,
    pub log_path: String,
}

/// A paged list decoded from the backend.
pub struct ListResult<T> {
    pub total: i32,
    pub result: Vec<T>,
}

/// An id decoded from the backend.
pub struct IdRes {
    pub id: i32,
}

/// The `{code, message}` envelope of a rejecting response.
#[derive(Debug)]
pub struct ErrorResult {
    pub code: String,
    pub message: String,
}

} // verus!

//! Health state and its report as JSON over HTTP.

use vstd::prelude::*;
use vstd::utf8::*;

use crate::decimal::{append_decimal, decimal};
use crate::json::{append_json_bool, append_json_text, json_bool, json_quoted};
use crate::text::opt_text;

verus! {

/// Connection to the exchange.
#[derive(Debug, Clone, Copy, PartialEq, Eq, Structural)]
pub enum GateWsStatus {
    Unknown,
    Connected,
    Disconnected,
}

impl Default for GateWsStatus {
    fn default() -> (r: Self)
        ensures
            r == GateWsStatus::Unknown,
    {
        GateWsStatus::Unknown
    }
}

/// Dashboard server.
#[derive(Debug, Clone, Copy, PartialEq, Eq, Structural)]
pub enum FrontendStatus {
    Unknown,
    Running,
    Stopped,
}

impl Default for FrontendStatus {
    fn default() -> (r: Self)
        ensures
            r == FrontendStatus::Unknown,
    {
        FrontendStatus::Unknown
    }
}

/// Engine.
#[derive(Debug, Clone, Copy, PartialEq, Eq, Structural)]
pub enum EngineStatus {
    Unknown,
    Processing,
    Idle,
}

impl Default for EngineStatus {
    fn default() -> (r: Self)
        ensures
            r == EngineStatus::Unknown,
    {
        EngineStatus::Unknown
    }
}

impl GateWsStatus {
    /// The status in lower case.
    pub open spec fn word(self) -> Seq<char> {
        match self {
            GateWsStatus::Unknown => "unknown"@,
            GateWsStatus::Connected => "connected"@,
            GateWsStatus::Disconnected => "disconnected"@,
        }
    }

    /// The status in lower case.
    pub fn as_str(self) -> (r: &'static str)
        ensures
            r@ == self.word(),
    {
        match self {
            GateWsStatus::Unknown => "unknown",
            GateWsStatus::Connected => "connected",
            GateWsStatus::Disconnected => "disconnected",
        }
    }
}

impl FrontendStatus {
    /// The status in lower case.
    pub open spec fn word(self) -> Seq<char> {
        match self {
            FrontendStatus::Unknown => "unknown"@,
            FrontendStatus::Running => "running"@,
            FrontendStatus::Stopped => "stopped"@,
        }
    }

    /// The status in lower case.
    pub fn as_str(self) -> (r: &'static str)
        ensures
            r@ == self.word(),
    {
        match self {
            FrontendStatus::Unknown => "unknown",
            FrontendStatus::Running => "running",
            FrontendStatus::Stopped => "stopped",
        }
    }
}

impl EngineStatus {
    /// The status in lower case.
    pub open spec fn word(self) -> Seq<char> {
        match self {
            EngineStatus::Unknown => "unknown"@,
            EngineStatus::Processing => "processing"@,
            EngineStatus::Idle => "idle"@,
        }
    }

    /// The status in lower case.
    pub fn as_str(self) -> (r: &'static str)
        ensures
            r@ == self.word(),
    {
        match self {
            EngineStatus::Unknown => "unknown",
            EngineStatus::Processing => "processing",
            EngineStatus::Idle => "idle",
        }
    }
}

/// Outcome of the startup check, which connects to the exchange.
#[derive(Debug, Clone)]
pub enum StartupCheck {
    Reachable,
    /// The connection failed, with the reason.
    Failed(String),
    /// There was no answer within five seconds.
    TimedOut,
}

/// Health of the process.
#[derive(Debug, Clone)]
pub struct HealthState {
    pub gate_ws: GateWsStatus,
    pub frontend_ws: FrontendStatus,
    pub engine: EngineStatus,
    pub startup_ok: bool,
    /// Why the startup check failed.
    pub startup_error: Option<String>,
}

impl Default for HealthState {
    fn default() -> (r: Self)
        ensures
            r.gate_ws == GateWsStatus::Unknown,
            r.frontend_ws == FrontendStatus::Unknown,
            r.engine == EngineStatus::Unknown,
            !r.startup_ok,
            r.startup_error is None,
    {
        HealthState {
            gate_ws: GateWsStatus::Unknown,
            frontend_ws: FrontendStatus::Unknown,
            engine: EngineStatus::Unknown,
            startup_ok: false,
            startup_error: None,
        }
    }
}

/// Health report.
#[derive(Debug, Clone)]
pub struct HealthResponse {
    pub status: String,
    pub gate_ws: String,
    pub frontend_ws: String,
    pub engine: String,
    pub startup_ok: bool,
    pub startup_error: Option<String>,
    pub uptime_s: u64,
}

/// The member for a startup error, which is left out if there is none.
pub open spec fn error_member(e: Option<Seq<char>>) -> Seq<char> {
    match e {
        Some(t) => ",\"startup_error\":"@ + json_quoted(t),
        None => Seq::empty(),
    }
}

/// A health report as JSON.
pub open spec fn report_json(
    status: Seq<char>,
    gate_ws: Seq<char>,
    frontend_ws: Seq<char>,
    engine: Seq<char>,
    startup_ok: bool,
    startup_error: Option<Seq<char>>,
    uptime_s: u64,
) -> Seq<char> {
    "{\"status\":"@ + json_quoted(status) + ",\"gate_ws\":"@ + json_quoted(gate_ws)
        + ",\"frontend_ws\":"@ + json_quoted(frontend_ws) + ",\"engine\":"@ + json_quoted(engine)
        + ",\"startup_ok\":"@ + json_bool(startup_ok) + error_member(startup_error)
        + ",\"uptime_s\":"@ + decimal(uptime_s as nat) + "}"@
}

impl HealthResponse {
    /// The report as JSON.
    pub fn to_json(&self) -> (r: String)
        ensures
            r@ == report_json(
                self.status@,
                self.gate_ws@,
                self.frontend_ws@,
                self.engine@,
                self.startup_ok,
                opt_text(self.startup_error),
                self.uptime_s,
            ),
    {
        let mut out = String::new();
        out.append("{\"status\":");
        append_json_text(&mut out, self.status.as_str());
        out.append(",\"gate_ws\":");
        append_json_text(&mut out, self.gate_ws.as_str());
        out.append(",\"frontend_ws\":");
        append_json_text(&mut out, self.frontend_ws.as_str());
        out.append(",\"engine\":");
        append_json_text(&mut out, self.engine.as_str());
        out.append(",\"startup_ok\":");
        append_json_bool(&mut out, self.startup_ok);
        if let Some(e) = &self.startup_error {
            out.append(",\"startup_error\":");
            append_json_text(&mut out, e.as_str());
        }
        out.append(",\"uptime_s\":");
        append_decimal(&mut out, self.uptime_s);
        out.append("}");
        assert(out@ =~= report_json(
            self.status@,
            self.gate_ws@,
            self.frontend_ws@,
            self.engine@,
            self.startup_ok,
            opt_text(self.startup_error),
            self.uptime_s,
        ));
        out
    }
}

/// Head of an HTTP answer with a body of `len` bytes.
pub open spec fn http_head(content_type: Seq<char>, len: nat) -> Seq<char> {
    "HTTP/1.1 200 OK\r\nContent-Type: "@ + content_type + "\r\nContent-Length: "@ + decimal(len)
        + "\r\nConnection: close\r\n\r\n"@
}

/// Writes the head of an HTTP answer.
pub fn http_head_text(content_type: &str, len: usize) -> (r: String)
    ensures
        r@ == http_head(content_type@, len as nat),
{
    let mut out = String::new();
    out.append("HTTP/1.1 200 OK\r\nContent-Type: ");
    out.append(content_type);
    out.append("\r\nContent-Length: ");
    append_decimal(&mut out, len as u64);
    out.append("\r\nConnection: close\r\n\r\n");
    assert(out@ =~= http_head(content_type@, len as nat));
    out
}

impl HealthState {
    /// The overall status. A failed startup is unhealthy. Otherwise the status is ok with both
    /// connections up, degraded with one, unhealthy with none.
    pub open spec fn overall(self) -> Seq<char> {
        let ws_ok = self.gate_ws == GateWsStatus::Connected;
        let fe_ok = self.frontend_ws == FrontendStatus::Running;
        if !self.startup_ok {
            "unhealthy"@
        } else if ws_ok && fe_ok {
            "ok"@
        } else if ws_ok || fe_ok {
            "degraded"@
        } else {
            "unhealthy"@
        }
    }

    /// The report as JSON for a process that has been up for so many seconds.
    pub open spec fn report(self, uptime_s: u64) -> Seq<char> {
        report_json(
            self.overall(),
            self.gate_ws.word(),
            self.frontend_ws.word(),
            self.engine.word(),
            self.startup_ok,
            opt_text(self.startup_error),
            uptime_s,
        )
    }

    /// The overall status.
    pub fn overall_status(&self) -> (r: &'static str)
        ensures
            r@ == self.overall(),
    {
        if !self.startup_ok {
            return "unhealthy";
        }
        let ws_ok = self.gate_ws == GateWsStatus::Connected;
        let fe_ok = self.frontend_ws == FrontendStatus::Running;
        if ws_ok && fe_ok {
            "ok"
        } else if ws_ok || fe_ok {
            "degraded"
        } else {
            "unhealthy"
        }
    }

    /// The report for a process that has been up for so many seconds.
    pub fn to_response(&self, uptime_s: u64) -> (r: HealthResponse)
        ensures
            r.status@ == self.overall(),
            r.gate_ws@ == self.gate_ws.word(),
            r.frontend_ws@ == self.frontend_ws.word(),
            r.engine@ == self.engine.word(),
            r.startup_ok == self.startup_ok,
            opt_text(r.startup_error) == opt_text(self.startup_error),
            r.uptime_s == uptime_s,
    {
        HealthResponse {
            status: self.overall_status().to_string(),
            gate_ws: self.gate_ws.as_str().to_string(),
            frontend_ws: self.frontend_ws.as_str().to_string(),
            engine: self.engine.as_str().to_string(),
            startup_ok: self.startup_ok,
            startup_error: match &self.startup_error {
                Some(e) => Some(e.clone()),
                None => None,
            },
            uptime_s,
        }
    }

    /// The HTTP answer that reports the health of a process up for so many seconds. Its length is
    /// counted in bytes.
    pub fn http_reply(&self, uptime_s: u64) -> (r: String)
        ensures
            r@ == http_head("application/json"@, encode_utf8(self.report(uptime_s)).len())
                + self.report(uptime_s),
    {
        let body = self.to_response(uptime_s).to_json();
        let mut out = http_head_text("application/json", body.as_str().as_bytes().len());
        out.append(body.as_str());
        out
    }

    /// Notes the outcome of the startup check.
    pub fn record_startup(&mut self, outcome: StartupCheck)
        ensures
            final(self).gate_ws == old(self).gate_ws,
            final(self).frontend_ws == old(self).frontend_ws,
            final(self).engine == old(self).engine,
            final(self).startup_ok <==> outcome is Reachable,
            opt_text(final(self).startup_error) == match outcome {
                StartupCheck::Reachable => None,
                StartupCheck::Failed(e) => Some("TCP connection failed: "@ + e@),
                StartupCheck::TimedOut => Some("TCP connection timed out (>5s)"@),
            },
    {
        match outcome {
            StartupCheck::Reachable => {
                self.startup_ok = true;
                self.startup_error = None;
            },
            StartupCheck::Failed(e) => {
                let mut text = "TCP connection failed: ".to_string();
                text.append(e.as_str());
                self.startup_ok = false;
                self.startup_error = Some(text);
            },
            StartupCheck::TimedOut => {
                self.startup_ok = false;
                self.startup_error = Some("TCP connection timed out (>5s)".to_string());
            },
        }
    }

    /// The message to abort with, if the startup check did not pass.
    pub fn startup_failure(&self) -> (r: Option<String>)
        ensures
            r is None <==> self.startup_ok,
            r matches Some(text) ==> text@ == "Startup self-check FAILED: "@ + match opt_text(
                self.startup_error,
            ) {
                Some(e) => e,
                None => "unknown"@,
            } + ". Aborting."@,
    {
        if self.startup_ok {
            return None;
        }
        let mut text = "Startup self-check FAILED: ".to_string();
        match &self.startup_error {
            Some(e) => {
                text.append(e.as_str());
            },
            None => {
                text.append("unknown");
            },
        }
        text.append(". Aborting.");
        Some(text)
    }
}

/// The process is ok exactly if it started well and both connections are up, degraded exactly if it
/// started well and one of them is, and unhealthy otherwise.
pub proof fn status_follows_the_connections(h: HealthState, r: &'static str)
    requires
        call_ensures(HealthState::overall_status, (&h,), r),
    ensures
        ({
            let gate = h.gate_ws == GateWsStatus::Connected;
            let front = h.frontend_ws == FrontendStatus::Running;
            &&& r@ == "ok"@ <==> h.startup_ok && gate && front
            &&& r@ == "degraded"@ <==> h.startup_ok && gate != front
            &&& r@ == "unhealthy"@ <==> !h.startup_ok || !gate && !front
        }),
{
    reveal_strlit("ok");
    reveal_strlit("degraded");
    reveal_strlit("unhealthy");
    assert("ok"@.len() == 2 && "degraded"@.len() == 8 && "unhealthy"@.len() == 9);
}

/// The report shows the status, each component by its own state, the outcome of the startup and the
/// time up. The answer carries it as JSON with its length in bytes.
#[verifier::rlimit(40)]
pub proof fn reports_show_the_state(h: HealthState, uptime_s: u64, status: &'static str, r: String)
    requires
        call_ensures(HealthState::overall_status, (&h,), status),
        call_ensures(HealthState::http_reply, (&h, uptime_s), r),
    ensures
        ({
            let gate = match h.gate_ws {
                GateWsStatus::Unknown => "unknown"@,
                GateWsStatus::Connected => "connected"@,
                GateWsStatus::Disconnected => "disconnected"@,
            };
            let front = match h.frontend_ws {
                FrontendStatus::Unknown => "unknown"@,
                FrontendStatus::Running => "running"@,
                FrontendStatus::Stopped => "stopped"@,
            };
            let engine = match h.engine {
                EngineStatus::Unknown => "unknown"@,
                EngineStatus::Processing => "processing"@,
                EngineStatus::Idle => "idle"@,
            };
            let error = match h.startup_error {
                Some(e) => ",\"startup_error\":"@ + json_quoted(e@),
                None => Seq::empty(),
            };
            let body = "{\"status\":"@ + json_quoted(status@) + ",\"gate_ws\":"@ + json_quoted(gate)
                + ",\"frontend_ws\":"@ + json_quoted(front) + ",\"engine\":"@ + json_quoted(engine)
                + ",\"startup_ok\":"@ + (if h.startup_ok {
                "true"@
            } else {
                "false"@
            }) + error + ",\"uptime_s\":"@ + decimal(uptime_s as nat) + "}"@;
            r@ == "HTTP/1.1 200 OK\r\nContent-Type: "@ + "application/json"@
                + "\r\nContent-Length: "@ + decimal(encode_utf8(body).len())
                + "\r\nConnection: close\r\n\r\n"@ + body
        }),
{
}

/// A startup check that reached the exchange clears the way; any other outcome stops the process,
/// with the reason it gave. The states of the components stay as they are.
pub proof fn startup_outcomes_decide(
    h: &mut HealthState,
    outcome: StartupCheck,
    r: Option<String>,
    status: &'static str,
)
    requires
        call_ensures(HealthState::record_startup, (h, outcome), ()),
        call_ensures(HealthState::startup_failure, (&*final(h),), r),
        call_ensures(HealthState::overall_status, (&*final(h),), status),
    ensures
        r is None <==> outcome is Reachable,
        outcome matches StartupCheck::Failed(e) ==> r->0@ == "Startup self-check FAILED: "@ + (
        "TCP connection failed: "@ + e@) + ". Aborting."@,
        outcome is TimedOut ==> r->0@ == "Startup self-check FAILED: "@
            + "TCP connection timed out (>5s)"@ + ". Aborting."@,
        !(outcome is Reachable) ==> status@ == "unhealthy"@,
        outcome is Reachable ==> final(h).startup_error is None,
        final(h).gate_ws == old(h).gate_ws,
        final(h).frontend_ws == old(h).frontend_ws,
        final(h).engine == old(h).engine,
{
}

} // verus!

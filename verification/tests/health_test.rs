use gate_arb::health::{EngineStatus, FrontendStatus, GateWsStatus, HealthState, StartupCheck};

#[test]
fn test_health_state_overall() {
    let state = HealthState::default();
    assert_eq!(state.overall_status(), "unhealthy");

    let mut s = HealthState::default();
    s.startup_ok = true;
    s.gate_ws = GateWsStatus::Connected;
    s.frontend_ws = FrontendStatus::Running;
    assert_eq!(s.overall_status(), "ok");

    let mut s = HealthState::default();
    s.startup_ok = true;
    s.gate_ws = GateWsStatus::Disconnected;
    s.frontend_ws = FrontendStatus::Running;
    assert_eq!(s.overall_status(), "degraded");
}

#[test]
fn no_connection_is_unhealthy() {
    let mut s = HealthState::default();
    s.startup_ok = true;
    assert_eq!(s.overall_status(), "unhealthy");
    s.gate_ws = GateWsStatus::Connected;
    assert_eq!(s.overall_status(), "degraded");
    s.frontend_ws = FrontendStatus::Running;
    s.startup_ok = false;
    assert_eq!(s.overall_status(), "unhealthy");
}

#[test]
fn a_report_is_json() {
    let mut s = HealthState::default();
    s.record_startup(StartupCheck::Reachable);
    s.gate_ws = GateWsStatus::Connected;
    s.frontend_ws = FrontendStatus::Stopped;
    s.engine = EngineStatus::Processing;
    assert_eq!(
        s.to_response(12345).to_json(),
        "{\"status\":\"degraded\",\"gate_ws\":\"connected\",\"frontend_ws\":\"stopped\",\
         \"engine\":\"processing\",\"startup_ok\":true,\"uptime_s\":12345}"
    );
}

#[test]
fn a_reply_counts_bytes() {
    let mut s = HealthState::default();
    s.record_startup(StartupCheck::Failed("né".to_string()));
    let reply = s.http_reply(1);
    let body = "{\"status\":\"unhealthy\",\"gate_ws\":\"unknown\",\"frontend_ws\":\"unknown\",\
                \"engine\":\"unknown\",\"startup_ok\":false,\
                \"startup_error\":\"TCP connection failed: né\",\"uptime_s\":1}";
    assert_eq!(
        reply,
        format!(
            "HTTP/1.1 200 OK\r\nContent-Type: application/json\r\nContent-Length: {}\r\n\
             Connection: close\r\n\r\n{}",
            body.len(),
            body
        )
    );
}

#[test]
fn startup_outcomes_are_recorded() {
    let mut s = HealthState::default();
    assert_eq!(
        s.startup_failure().unwrap(),
        "Startup self-check FAILED: unknown. Aborting."
    );
    s.record_startup(StartupCheck::TimedOut);
    assert_eq!(s.startup_error.as_deref(), Some("TCP connection timed out (>5s)"));
    assert_eq!(
        s.startup_failure().unwrap(),
        "Startup self-check FAILED: TCP connection timed out (>5s). Aborting."
    );
    s.record_startup(StartupCheck::Reachable);
    assert!(s.startup_ok);
    assert!(s.startup_error.is_none());
    assert!(s.startup_failure().is_none());
}

#[test]
fn statuses_have_names() {
    assert_eq!(GateWsStatus::default().as_str(), "unknown");
    assert_eq!(GateWsStatus::Disconnected.as_str(), "disconnected");
    assert_eq!(FrontendStatus::default().as_str(), "unknown");
    assert_eq!(FrontendStatus::Running.as_str(), "running");
    assert_eq!(EngineStatus::default().as_str(), "unknown");
    assert_eq!(EngineStatus::Idle.as_str(), "idle");
}

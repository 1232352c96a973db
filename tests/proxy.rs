use rr_proxy::coordinator::{
    next_phase, rewrite_outbound, select_upstream_for, ProxyError, RequestEvent, RequestPhase,
};
use rr_proxy::health::{health_from_probe, record_probe_round, HealthCheckConfig};
use rr_proxy::registry::{ConfigError, Health, UpstreamRegistry};
use pingora_http::RequestHeader;
use rr_proxy::rewrite::{check_virtual_host, rewrite, ForwardingDecision, RewriteError};
use rr_proxy::selector::{SelectionCursor, SelectionError};

fn pool(addrs: &[&str]) -> UpstreamRegistry {
    UpstreamRegistry::new(addrs.iter().map(|a| a.to_string()).collect()).unwrap()
}

fn pick(reg: &UpstreamRegistry, cursor: &mut SelectionCursor) -> Result<String, SelectionError> {
    cursor.select(&reg.snapshot())
}

#[test]
fn registry_rejects_empty_and_duplicate_lists() {
    assert!(matches!(UpstreamRegistry::new(vec![]), Err(ConfigError::EmptyPool)));
    let dup = vec!["1.1.1.1:443".to_string(), "1.0.0.1:443".to_string(), "1.1.1.1:443".to_string()];
    assert!(matches!(UpstreamRegistry::new(dup), Err(ConfigError::DuplicateAddress)));
}

#[test]
fn registry_starts_all_healthy_in_order() {
    let reg = pool(&["1.1.1.1:443", "1.0.0.1:443", "127.0.0.1:343"]);
    let snap = reg.snapshot();
    assert_eq!(reg.len(), 3);
    assert_eq!(snap[0].address, "1.1.1.1:443");
    assert_eq!(snap[2].address, "127.0.0.1:343");
    assert!(snap.iter().all(|u| u.health == Health::Healthy));
}

#[test]
fn round_robin_is_fair_over_stable_pool() {
    let reg = pool(&["A", "B", "C"]);
    let mut cursor = SelectionCursor::new();
    let mut counts = [0usize; 3];
    for _ in 0..10 {
        match pick(&reg, &mut cursor).unwrap().as_str() {
            "A" => counts[0] += 1,
            "B" => counts[1] += 1,
            "C" => counts[2] += 1,
            other => panic!("unexpected upstream {other}"),
        }
    }
    assert_eq!(counts, [4, 3, 3]);
}

#[test]
fn round_robin_cycles_in_pool_order() {
    let reg = pool(&["A", "B", "C"]);
    let mut cursor = SelectionCursor::new();
    let got: Vec<String> = (0..6).map(|_| pick(&reg, &mut cursor).unwrap()).collect();
    assert_eq!(got, vec!["A", "B", "C", "A", "B", "C"]);
}

#[test]
fn unhealthy_upstream_is_skipped() {
    let mut reg = pool(&["A", "B", "C"]);
    reg.set_health(&"B".to_string(), Health::Unhealthy);
    let mut cursor = SelectionCursor::new();
    let got: Vec<String> = (0..9).map(|_| pick(&reg, &mut cursor).unwrap()).collect();
    assert!(got.iter().all(|a| a != "B"));
    for w in got.windows(2) {
        assert_ne!(w[0], w[1]);
    }
    assert_eq!(got, vec!["A", "C", "A", "C", "A", "C", "A", "C", "A"]);
}

#[test]
fn all_unhealthy_fails_until_restored() {
    let mut reg = pool(&["A", "B"]);
    reg.set_health(&"A".to_string(), Health::Unhealthy);
    reg.set_health(&"B".to_string(), Health::Unhealthy);
    let mut cursor = SelectionCursor::new();
    for _ in 0..5 {
        assert_eq!(pick(&reg, &mut cursor), Err(SelectionError::NoHealthyUpstream));
    }
    assert_eq!(cursor.position(), 0);
    reg.set_health(&"B".to_string(), Health::Healthy);
    assert_eq!(pick(&reg, &mut cursor), Ok("B".to_string()));
}

#[test]
fn health_change_visible_to_next_selection() {
    let mut reg = pool(&["A", "B"]);
    let mut cursor = SelectionCursor::new();
    assert_eq!(pick(&reg, &mut cursor), Ok("A".to_string()));
    record_probe_round(&mut reg, &vec![true, false]);
    assert_eq!(pick(&reg, &mut cursor), Ok("A".to_string()));
    record_probe_round(&mut reg, &vec![false, true]);
    assert_eq!(pick(&reg, &mut cursor), Ok("B".to_string()));
}

#[test]
fn unknown_address_report_is_noop() {
    let mut reg = pool(&["A", "B"]);
    reg.set_health(&"Z".to_string(), Health::Unhealthy);
    assert_eq!(reg.len(), 2);
    let snap = reg.snapshot();
    assert_eq!(snap[0].address, "A");
    assert_eq!(snap[1].address, "B");
    assert!(snap.iter().all(|u| u.health == Health::Healthy));
}

#[test]
fn probe_round_maps_results_to_health() {
    let mut reg = pool(&["A", "B", "C"]);
    record_probe_round(&mut reg, &vec![true, false, true]);
    let snap = reg.snapshot();
    assert_eq!(snap[0].health, Health::Healthy);
    assert_eq!(snap[1].health, Health::Unhealthy);
    assert_eq!(snap[2].health, Health::Healthy);
    assert_eq!(health_from_probe(false), Health::Unhealthy);
    assert_eq!(health_from_probe(true), Health::Healthy);
}

#[test]
fn probe_timeout_is_half_the_interval() {
    let c = HealthCheckConfig::default_interval();
    assert_eq!(c.interval_ms(), 1000);
    assert_eq!(c.probe_timeout_ms(), 500);
    let fast = HealthCheckConfig::new(50).unwrap();
    assert_eq!(fast.probe_timeout_ms(), 25);
    let tiny = HealthCheckConfig::new(1).unwrap();
    assert_eq!(tiny.probe_timeout_ms(), 0);
    assert!(HealthCheckConfig::new(0).is_none());
}

fn request() -> RequestHeader {
    let mut req = RequestHeader::build("GET", b"/", None).unwrap();
    req.insert_header("Host", "client.example").unwrap();
    req.insert_header("Accept", "*/*").unwrap();
    req
}

fn host_of(req: &RequestHeader) -> Vec<Vec<u8>> {
    req.headers.get_all("Host").iter().map(|v| v.as_bytes().to_vec()).collect()
}

#[test]
fn rewrite_is_idempotent() {
    let d = ForwardingDecision {
        upstream: "1.1.1.1:443".to_string(),
        virtual_host: "one.one.one.one".to_string(),
    };
    let mut first = request();
    let mut second = request();
    assert_eq!(rewrite(&mut first, &d), Ok(()));
    assert_eq!(rewrite(&mut second, &d), Ok(()));
    assert_eq!(host_of(&first), vec![b"one.one.one.one".to_vec()]);
    assert_eq!(host_of(&first), host_of(&second));
    assert_eq!(rewrite(&mut first, &d), Ok(()));
    assert_eq!(host_of(&first), vec![b"one.one.one.one".to_vec()]);
    assert_eq!(first.headers.keys_len(), 2);
}

#[test]
fn rewrite_replaces_every_host_value() {
    let mut req = request();
    req.append_header("Host", "second.example").unwrap();
    assert_eq!(host_of(&req).len(), 2);
    let d = ForwardingDecision { upstream: "A".to_string(), virtual_host: "vh".to_string() };
    assert_eq!(rewrite(&mut req, &d), Ok(()));
    assert_eq!(host_of(&req), vec![b"vh".to_vec()]);
}

#[test]
fn rewrite_rejects_malformed_host() {
    assert!(!check_virtual_host(""));
    assert!(!check_virtual_host("bad\nhost"));
    assert!(!check_virtual_host("del\u{7f}"));
    assert!(check_virtual_host("tab\tok"));
    assert!(check_virtual_host("one.one.one.one"));
    let d = ForwardingDecision { upstream: "A".to_string(), virtual_host: "x\r\ny".to_string() };
    let mut req = request();
    assert_eq!(rewrite(&mut req, &d), Err(RewriteError::HeaderRejected));
    assert_eq!(host_of(&req), vec![b"client.example".to_vec()]);
}

#[test]
fn rewrite_failure_is_isolated() {
    let reg = pool(&["A", "B"]);
    let mut cursor = SelectionCursor::new();
    let bad = select_upstream_for(&(), &reg, &mut cursor, &"bad\u{0}host".to_string()).unwrap();
    assert_eq!(bad.upstream, "A");
    let mut first = request();
    let err = rewrite_outbound(&mut first, &bad).unwrap_err();
    assert_eq!(err, ProxyError::Internal);
    assert_eq!(err.status_code(), 500);
    let good = select_upstream_for(&(), &reg, &mut cursor, &"one.one.one.one".to_string()).unwrap();
    assert_eq!(good.upstream, "B");
    let mut second = request();
    assert_eq!(rewrite_outbound(&mut second, &good), Ok(()));
    assert_eq!(host_of(&second), vec![b"one.one.one.one".to_vec()]);
    let snap = reg.snapshot();
    assert_eq!(snap.len(), 2);
    assert!(snap.iter().all(|u| u.health == Health::Healthy));
}

#[test]
fn no_healthy_upstream_is_unavailable() {
    let mut reg = pool(&["A"]);
    reg.set_health(&"A".to_string(), Health::Unhealthy);
    let mut cursor = SelectionCursor::new();
    let err = select_upstream_for(&"session", &reg, &mut cursor, &"h".to_string()).unwrap_err();
    assert_eq!(err, ProxyError::Unavailable);
    assert_eq!(err.status_code(), 503);
}

#[test]
fn request_phases_follow_the_machine() {
    let mut p = RequestPhase::Start;
    for e in [
        RequestEvent::Received,
        RequestEvent::UpstreamChosen,
        RequestEvent::RewriteBegun,
        RequestEvent::HeaderAccepted,
        RequestEvent::DispatchAccepted,
    ] {
        p = next_phase(p, e).unwrap();
    }
    assert_eq!(p, RequestPhase::Forwarded);
    assert_eq!(
        next_phase(RequestPhase::Selecting, RequestEvent::NoHealthyUpstream),
        Some(RequestPhase::SelectionFailed)
    );
    assert_eq!(
        next_phase(RequestPhase::Rewriting, RequestEvent::HeaderRejected),
        Some(RequestPhase::RewriteFailed)
    );
    assert_eq!(next_phase(RequestPhase::SelectionFailed, RequestEvent::Received), None);
    assert_eq!(next_phase(RequestPhase::Start, RequestEvent::DispatchAccepted), None);
}

#[test]
fn rewrite_refuses_request_at_header_limit() {
    let mut req = RequestHeader::build("GET", b"/", None).unwrap();
    for i in 0..rr_proxy::request::MAX_HEADER_NAMES {
        req.insert_header(format!("x-h{i}"), "v").unwrap();
    }
    let d = ForwardingDecision { upstream: "A".to_string(), virtual_host: "vh".to_string() };
    assert_eq!(rewrite(&mut req, &d), Err(RewriteError::HeaderRejected));
    assert!(host_of(&req).is_empty());
    assert_eq!(req.headers.keys_len(), rr_proxy::request::MAX_HEADER_NAMES);
}

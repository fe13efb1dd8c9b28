use vigil_local::dispatch::{RETRY_STATUS_AFTER_SECONDS, RETRY_STATUS_TIMES};
use vigil_local::report::{authorization_header, report_path, report_payload, report_request};
use vigil_local::{
    generate_url, status, ConfigProbeService, ConfigProbeServiceNode,
    ConfigProbeServiceReplicaNode, ConfigProbeServiceScriptNode, ConfigReport, DispatchStep,
    Mode, ReplicaURL, ReportReplica, Status,
};

fn service() -> ConfigProbeService {
    ConfigProbeService { id: "web".to_string(), node: Vec::new() }
}

fn node() -> ConfigProbeServiceNode {
    ConfigProbeServiceNode {
        id: "api".to_string(),
        mode: Mode::Poll,
        replicas: None,
        scripts: None,
        http_method: None,
    }
}

fn report() -> ConfigReport {
    ConfigReport { endpoint: "https://status.example.com".to_string(), token: "secret".to_string() }
}

fn bare(url: &str) -> ReportReplica {
    ReportReplica::new_poll(&ConfigProbeServiceReplicaNode::Simple(ReplicaURL::new(url)))
}

/// Drives a delivery whose attempts turn out as `outcomes` says; returns
/// the overall result, the attempts made and the waits between them.
fn deliver(outcomes: &[bool]) -> (Result<(), ()>, usize, Vec<u64>) {
    let mut dispatch = status(&report(), &service(), &node(), &bare("http://a"), Status::Healthy, 60);
    let mut attempts = 0;
    let mut waits = Vec::new();
    loop {
        let delivered = outcomes[attempts];
        attempts += 1;
        let step = dispatch.record(delivered);
        match step.outcome() {
            Some(result) => return (result, attempts, waits),
            None => match step {
                DispatchStep::RetryAfter { seconds } => waits.push(seconds),
                _ => unreachable!(),
            },
        }
    }
}

#[test]
fn url_joins_endpoint_and_path() {
    assert_eq!(generate_url("http://h:8080", "reporter/a/b/"), "http://h:8080/reporter/a/b/");
    assert_eq!(report_path("web", "api"), "reporter/web/api/");
}

#[test]
fn authorization_is_basic_with_empty_user() {
    // base64(":secret")
    assert_eq!(authorization_header("secret"), "Basic OnNlY3JldA==");
    assert_eq!(authorization_header(""), "Basic Og==");
}

#[test]
fn payload_without_label() {
    let body = report_payload(&bare("http://a"), Status::Healthy, 30);
    assert_eq!(body, r#"{"replica":"http://a","health":"healthy","interval":30}"#);
}

#[test]
fn payload_with_label_and_escapes() {
    let replica = ReportReplica::new_poll(&ConfigProbeServiceReplicaNode::Extended {
        url: ReplicaURL::new("tcp://db:5432"),
        label: "main \"db\"".to_string(),
        id: Some("db-1".to_string()),
    });
    let body = report_payload(&replica, Status::Dead, 0);
    assert_eq!(
        body,
        r#"{"replica":"db-1","health":"dead","interval":0,"replica_label":"main \"db\""}"#
    );
    let big = report_payload(&bare("x"), Status::Sick, u64::MAX);
    assert_eq!(big, r#"{"replica":"x","health":"sick","interval":18446744073709551615}"#);
}

#[test]
fn request_carries_all_headers() {
    let req = report_request(&report(), &service(), &node(), &bare("http://a"), Status::Sick, 10);
    assert_eq!(req.url, "https://status.example.com/reporter/web/api/");
    assert_eq!(req.user_agent, "vigil-local/1.0.0");
    assert_eq!(req.authorization, "Basic OnNlY3JldA==");
    assert_eq!(req.content_type, "application/json");
    assert_eq!(req.body, r#"{"replica":"http://a","health":"sick","interval":10}"#);
}

#[test]
fn script_report_falls_back_to_node_id() {
    let bare_script = ConfigProbeServiceScriptNode::Simple("probe-api.sh".to_string());
    let r = ReportReplica::new_script("api", &bare_script);
    assert_eq!(r.id, "api");
    assert_eq!(r.label, None);
    let named = ConfigProbeServiceScriptNode::Extended {
        script: "probe-api.sh".to_string(),
        label: "Check".to_string(),
        id: Some("chk".to_string()),
    };
    let r = ReportReplica::new_script("api", &named);
    assert_eq!(r.id, "chk");
    assert_eq!(r.label.as_deref(), Some("Check"));
}

#[test]
fn delivered_on_first_attempt() {
    let (result, attempts, waits) = deliver(&[true, true, true, true]);
    assert_eq!(result, Ok(()));
    assert_eq!(attempts, 1);
    assert!(waits.is_empty());
}

#[test]
fn delivered_on_fourth_attempt() {
    // HTTP 500 three times, then 200.
    let (result, attempts, waits) = deliver(&[false, false, false, true]);
    assert_eq!(result, Ok(()));
    assert_eq!(attempts, 4);
    assert_eq!(waits, vec![2, 2, 2]);
}

#[test]
fn abandoned_after_four_failures() {
    let (result, attempts, waits) = deliver(&[false, false, false, false, true]);
    assert_eq!(result, Err(()));
    assert_eq!(attempts, 4);
    assert_eq!(waits, vec![2, 2, 2]);
    // The next report is an independent delivery.
    let (next, attempts, _) = deliver(&[true]);
    assert_eq!(next, Ok(()));
    assert_eq!(attempts, 1);
}

#[test]
fn retry_constants() {
    assert_eq!(RETRY_STATUS_TIMES, 4);
    assert_eq!(RETRY_STATUS_AFTER_SECONDS, 2);
}

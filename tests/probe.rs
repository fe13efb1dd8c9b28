use vigil_local::scheduler::{after_attempt, next_delay, remaining_delay, CycleStep};
use vigil_local::verdict::{http_status_succeeded, script_exit_succeeded};
use vigil_local::report::report_payload;
use vigil_local::reader::{substitute_environment, usable_variables};
use vigil_local::{
    aggregate, validate, CheckResult, ConfigMetrics, ConfigProbeServiceReplicaNode,
    ConfigProbeServiceScriptNode, HttpMethod, ReplicaURL, ReportReplica, Status,
};

fn metrics(poll_retry: u8) -> ConfigMetrics {
    ConfigMetrics { interval: 30, poll_retry, poll_delay_dead: 120, poll_delay_sick: 60 }
}

fn result(id: &str, success: bool) -> CheckResult {
    CheckResult { id: id.to_string(), label: None, success, duration_ms: 5 }
}

#[test]
fn aggregate_three_states() {
    assert_eq!(aggregate(&vec![result("a", true), result("b", true)]), Status::Healthy);
    assert_eq!(aggregate(&vec![result("a", false), result("b", false)]), Status::Dead);
    assert_eq!(aggregate(&vec![result("a", true), result("b", false)]), Status::Sick);
    assert_eq!(aggregate(&vec![result("a", false)]), Status::Dead);
}

#[test]
fn aggregate_is_repeatable() {
    let rs = vec![result("a", true), result("b", false), result("c", true)];
    assert_eq!(aggregate(&rs), aggregate(&rs));
    assert_eq!(aggregate(&rs), Status::Sick);
}

#[test]
fn healthy_accepted_with_interval() {
    let m = metrics(3);
    let rs = vec![result("a", true), result("b", true)];
    assert_eq!(after_attempt(&m, 0, &rs), CycleStep::Accept { status: Status::Healthy, delay: 30 });
    assert_eq!(after_attempt(&m, 2, &rs), CycleStep::Accept { status: Status::Healthy, delay: 30 });
}

#[test]
fn three_replicas_one_timeout_is_sick() {
    let m = metrics(1);
    let rs = vec![result("r1", true), result("r2", true), result("r3", false)];
    let step = after_attempt(&m, 0, &rs);
    assert_eq!(step, CycleStep::Accept { status: Status::Sick, delay: 60 });
    let replica = ReportReplica::new_poll(&ConfigProbeServiceReplicaNode::Simple(ReplicaURL::new("http://r3")));
    let body = report_payload(&replica, Status::Sick, 30);
    assert!(body.contains(r#""health":"sick""#));
}

#[test]
fn failing_script_is_dead_after_retries() {
    let m = metrics(3);
    let rs = vec![result("api", false)];
    let mut attempt: u8 = 0;
    let mut tries = 0;
    let accepted = loop {
        tries += 1;
        match after_attempt(&m, attempt, &rs) {
            CycleStep::Retry { attempt: next } => attempt = next,
            CycleStep::Accept { status, delay } => break (status, delay),
        }
    };
    assert_eq!(tries, 3);
    assert_eq!(accepted, (Status::Dead, 120));
}

#[test]
fn mixed_retried_then_recovers() {
    let m = metrics(2);
    let mixed = vec![result("a", true), result("b", false)];
    assert_eq!(after_attempt(&m, 0, &mixed), CycleStep::Retry { attempt: 1 });
    assert_eq!(after_attempt(&m, 1, &mixed), CycleStep::Accept { status: Status::Sick, delay: 60 });
    let ok = vec![result("a", true), result("b", true)];
    assert_eq!(after_attempt(&m, 1, &ok), CycleStep::Accept { status: Status::Healthy, delay: 30 });
}

#[test]
fn delay_table() {
    let m = metrics(1);
    assert_eq!(next_delay(&m, Status::Healthy), 30);
    assert_eq!(next_delay(&m, Status::Sick), 60);
    assert_eq!(next_delay(&m, Status::Dead), 120);
}

#[test]
fn health_words() {
    assert_eq!(Status::Healthy.as_str(), "healthy");
    assert_eq!(Status::Sick.as_str(), "sick");
    assert_eq!(Status::Dead.as_str(), "dead");
}

#[test]
fn check_success_rules() {
    assert!(http_status_succeeded(200));
    assert!(http_status_succeeded(204));
    assert!(!http_status_succeeded(199));
    assert!(!http_status_succeeded(300));
    assert!(!http_status_succeeded(500));
    assert!(script_exit_succeeded(Some(0)));
    assert!(!script_exit_succeeded(Some(1)));
    assert!(!script_exit_succeeded(None));
}

#[test]
fn bare_replica_identifier_defaults_to_url() {
    let r = ConfigProbeServiceReplicaNode::Simple(ReplicaURL::new("http://localhost:8080/health"));
    assert_eq!(r.id(), "http://localhost:8080/health");
    assert_eq!(r.url().get_raw(), "http://localhost:8080/health");
    assert_eq!(r.label(), None);
}

#[test]
fn extended_replica_identifier() {
    let with_id = ConfigProbeServiceReplicaNode::Extended {
        url: ReplicaURL::new("http://a"),
        label: "A".to_string(),
        id: Some("a-1".to_string()),
    };
    assert_eq!(with_id.id(), "a-1");
    assert_eq!(with_id.label(), Some("A"));
    let without_id = ConfigProbeServiceReplicaNode::Extended {
        url: ReplicaURL::new("http://b"),
        label: "B".to_string(),
        id: None,
    };
    assert_eq!(without_id.id(), "http://b");
}

#[test]
fn bare_script_has_no_identifier() {
    let s = ConfigProbeServiceScriptNode::Simple("/bin/check --fast".to_string());
    assert_eq!(s.id(), None);
    assert_eq!(s.label(), None);
    assert_eq!(s.script_content(), "/bin/check --fast");
    let e = ConfigProbeServiceScriptNode::Extended {
        script: "run".to_string(),
        label: "Run".to_string(),
        id: Some("r".to_string()),
    };
    assert_eq!(e.id(), Some("r"));
    assert_eq!(e.label(), Some("Run"));
    assert_eq!(e.script_content(), "run");
}

#[test]
fn validate_accepts_plain_text() {
    assert_eq!(validate("HOME", "key"), Ok(()));
    assert_eq!(validate("", "value"), Ok(()));
}

#[test]
fn validate_rejects_forbidden_characters() {
    assert_eq!(
        validate("a$b", "key"),
        Err("variable key 'a$b' contains forbidden character '$'".to_string())
    );
    assert_eq!(
        validate("x}{", "value"),
        Err("variable value 'x}{' contains forbidden character '{'".to_string())
    );
    assert_eq!(
        validate("}", "value"),
        Err("variable value '}' contains forbidden character '}'".to_string())
    );
}

#[test]
fn default_http_method() {
    assert_eq!(HttpMethod::default_method(), HttpMethod::Get);
}

#[test]
fn delay_accounts_for_cycle_time() {
    assert_eq!(remaining_delay(30, 4), 26);
    assert_eq!(remaining_delay(30, 30), 0);
    assert_eq!(remaining_delay(10, 25), 0);
}

fn var(k: &str, v: &str) -> (String, String) {
    (k.to_string(), v.to_string())
}

#[test]
fn usable_variables_keep_order_and_reasons() {
    let vars = vec![var("A", "1"), var("B$", "2"), var("C", "{x}"), var("D", "4")];
    let (kept, skipped) = usable_variables(&vars);
    assert_eq!(kept, vec![var("A", "1"), var("D", "4")]);
    assert_eq!(
        skipped,
        vec![
            "variable key 'B$' contains forbidden character '$'".to_string(),
            "variable value '{x}' contains forbidden character '{'".to_string(),
        ]
    );
}

#[test]
fn environment_substitution() {
    let vars = vec![var("HOST", "example.com"), var("BAD", "${HOST}")];
    let (text, skipped) =
        substitute_environment("endpoint = \"https://${HOST}/\"\nx = \"${BAD}\"", &vars);
    assert_eq!(text, "endpoint = \"https://example.com/\"\nx = \"${BAD}\"");
    assert_eq!(skipped.len(), 1);
    let (same, none) = substitute_environment("a = \"${X}\"", &Vec::new());
    assert_eq!(same, "a = \"${X}\"");
    assert!(none.is_empty());
}

#[test]
fn substitution_follows_variable_order() {
    let vars = vec![var("A", ""), var("B", "x")];
    let (text, _) = substitute_environment("$${A}{B} ${A}${A}", &vars);
    assert_eq!(text, "x ");
    let reversed = vec![var("B", "x"), var("A", "")];
    let (text, _) = substitute_environment("$${A}{B} ${A}${A}", &reversed);
    assert_eq!(text, "${B} ");
}

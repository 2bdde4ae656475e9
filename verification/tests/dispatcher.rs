use bus_rpc::dispatch::DBusApi;
use bus_rpc::dispatch::DispatchEvent;
use bus_rpc::dispatch::DispatchState;
use bus_rpc::dispatch::SendOutcome;
use bus_rpc::errors::CallErrorKind;
use bus_rpc::errors::RequestPart;
use bus_rpc::wire::Reply;
use bus_rpc::wire::WireValue;

const SERVICE: &str = "org.freedesktop.NetworkManager";
const PATH: &str = "/org/freedesktop/NetworkManager";
const IFACE: &str = "org.freedesktop.NetworkManager";
const METHOD: &str = "GetDevices";
const RETRYABLE: &str = "org.freedesktop.DBus.Error.ServiceUnknown";

fn api() -> DBusApi {
    DBusApi::new(SERVICE.to_string(), vec![RETRYABLE.to_string()], None)
}

fn retryable_failure() -> SendOutcome {
    SendOutcome::Failure {
        error_name: Some(RETRYABLE.to_string()),
        details: "service not running".to_string(),
    }
}

fn hard_failure() -> SendOutcome {
    SendOutcome::Failure {
        error_name: Some("org.freedesktop.DBus.Error.AccessDenied".to_string()),
        details: "rejected".to_string(),
    }
}

fn reply_with(number: i64) -> SendOutcome {
    SendOutcome::Reply { reply: Reply { fields: vec![WireValue::Int { number }] } }
}

#[test]
fn default_timeout_is_fifteen() {
    assert_eq!(api().method_timeout(), 15);
}

#[test]
fn base_is_the_configured_service() {
    assert_eq!(api().base(), SERVICE);
}

#[test]
fn configured_timeout_is_kept() {
    let api = DBusApi::new(SERVICE.to_string(), Vec::new(), Some(3));
    assert_eq!(api.method_timeout(), 3);
}

#[test]
fn retryable_name_lookup() {
    let api = api();
    assert!(api.name_is_retryable(&RETRYABLE.to_string()));
    assert!(!api.name_is_retryable(&"org.freedesktop.DBus.Error.AccessDenied".to_string()));
}

#[test]
fn retryable_errors_then_success_counts_attempts() {
    let api = api();
    let mut outcomes = vec![retryable_failure(), retryable_failure(), retryable_failure()];
    outcomes.push(reply_with(7));
    let (verdict, attempts) = api.run_call_script(outcomes);
    let reply = verdict.unwrap();
    assert!(matches!(reply.fields[0], WireValue::Int { number: 7 }));
    assert_eq!(attempts, 4);
}

#[test]
fn success_on_last_allowed_attempt() {
    let api = api();
    let mut outcomes: Vec<SendOutcome> = (0..9).map(|_| retryable_failure()).collect();
    outcomes.push(reply_with(1));
    let (verdict, attempts) = api.run_call_script(outcomes);
    assert!(verdict.is_ok());
    assert_eq!(attempts, 10);
}

#[test]
fn ten_retryable_errors_exhaust_the_budget() {
    let api = api();
    let outcomes: Vec<SendOutcome> = (0..10).map(|_| retryable_failure()).collect();
    let (verdict, attempts) = api.run_call_script(outcomes);
    assert_eq!(attempts, 10);
    match verdict.unwrap_err() {
        CallErrorKind::RetriesExhausted { ceiling } => assert_eq!(ceiling, 10),
        other => panic!("expected exhaustion, got {:?}", other),
    }
}

#[test]
fn long_retryable_run_never_exceeds_ten_attempts() {
    let api = api();
    let mut outcomes: Vec<SendOutcome> = (0..25).map(|_| retryable_failure()).collect();
    outcomes.push(reply_with(1));
    let (verdict, attempts) = api.run_call_script(outcomes);
    assert!(verdict.is_err());
    assert_eq!(attempts, 10);
}

#[test]
fn non_retryable_error_returns_immediately() {
    let api = api();
    let outcomes = vec![hard_failure(), retryable_failure(), reply_with(1)];
    let (verdict, attempts) = api.run_call_script(outcomes);
    assert_eq!(attempts, 1);
    match verdict.unwrap_err() {
        CallErrorKind::Transport { error_name, details } => {
            assert_eq!(error_name.as_deref(), Some("org.freedesktop.DBus.Error.AccessDenied"));
            assert_eq!(details, "rejected");
        }
        other => panic!("expected transport error, got {:?}", other),
    }
}

#[test]
fn nameless_error_is_never_retried() {
    let api = api();
    let outcomes = vec![
        SendOutcome::Failure { error_name: None, details: "lost connection".to_string() },
        reply_with(1),
    ];
    let (verdict, attempts) = api.run_call_script(outcomes);
    assert_eq!(attempts, 1);
    assert!(matches!(verdict.unwrap_err(), CallErrorKind::Transport { .. }));
}

#[test]
fn step_building_to_sending() {
    let next = api().step(DispatchState::Building, DispatchEvent::Built);
    assert!(matches!(next, DispatchState::Sending { attempt: 1 }));
}

#[test]
fn step_build_failure_is_terminal() {
    let next = api().step(
        DispatchState::Building,
        DispatchEvent::BuildFailed { part: RequestPart::Path },
    );
    match next {
        DispatchState::Failed { error: CallErrorKind::Construction { part } } => {
            assert_eq!(part, RequestPart::Path);
        }
        _ => panic!("expected a failed state with a construction error"),
    }
}

#[test]
fn step_reply_resolves_to_success() {
    let next = api().step(
        DispatchState::Sending { attempt: 1 },
        DispatchEvent::Sent { outcome: reply_with(9) },
    );
    assert!(matches!(next, DispatchState::Success { .. }));
}

#[test]
fn step_retryable_failure_waits() {
    let next = api().step(
        DispatchState::Sending { attempt: 3 },
        DispatchEvent::Sent { outcome: retryable_failure() },
    );
    assert!(matches!(next, DispatchState::RetryWait { attempt: 3 }));
}

#[test]
fn step_wait_elapsed_resends() {
    let next = api().step(DispatchState::RetryWait { attempt: 3 }, DispatchEvent::Waited);
    assert!(matches!(next, DispatchState::Sending { attempt: 4 }));
}

#[test]
fn step_retryable_failure_on_last_attempt_exhausts() {
    let next = api().step(
        DispatchState::Sending { attempt: 10 },
        DispatchEvent::Sent { outcome: retryable_failure() },
    );
    assert!(matches!(
        next,
        DispatchState::Failed { error: CallErrorKind::RetriesExhausted { ceiling: 10 } }
    ));
}

#[test]
fn step_non_retryable_failure_is_terminal() {
    let next = api().step(
        DispatchState::Sending { attempt: 1 },
        DispatchEvent::Sent { outcome: hard_failure() },
    );
    assert!(matches!(next, DispatchState::Failed { error: CallErrorKind::Transport { .. } }));
}

#[test]
fn step_ignores_event_that_does_not_apply() {
    let next = api().step(DispatchState::Building, DispatchEvent::Waited);
    assert!(matches!(next, DispatchState::Building));
}

#[test]
fn build_request_accepts_valid_endpoint() {
    let req = api().build_request(PATH, IFACE, METHOD, Vec::new()).unwrap();
    assert_eq!(req.destination, SERVICE.to_string());
    assert_eq!(req.path, PATH.to_string());
    assert_eq!(req.interface, IFACE.to_string());
    assert_eq!(req.method, METHOD.to_string());
    assert!(req.args.is_empty());
}

#[test]
fn build_request_rejects_malformed_path() {
    let part = api().build_request("not-a-path", IFACE, METHOD, Vec::new()).unwrap_err();
    assert_eq!(part, RequestPart::Path);
}

#[test]
fn build_request_rejects_malformed_interface() {
    let part = api().build_request(PATH, "no dots here!", METHOD, Vec::new()).unwrap_err();
    assert_eq!(part, RequestPart::Interface);
}

#[test]
fn build_request_rejects_malformed_method() {
    let part = api().build_request(PATH, IFACE, "bad method", Vec::new()).unwrap_err();
    assert_eq!(part, RequestPart::Method);
}

#[test]
fn call_returns_reply_for_valid_endpoint() {
    let api = api();
    let reply = api.call(PATH, IFACE, METHOD, vec![reply_with(5)]).unwrap();
    assert!(matches!(reply.fields[0], WireValue::Int { number: 5 }));
}

#[test]
fn call_wraps_terminal_failure_with_context() {
    let api = api();
    let failure = api.call(PATH, IFACE, METHOD, vec![hard_failure()]).unwrap_err();
    assert_eq!(failure.context.path, PATH.to_string());
    assert_eq!(failure.context.interface, IFACE.to_string());
    assert_eq!(failure.context.method, METHOD.to_string());
    assert!(matches!(failure.kind, CallErrorKind::Transport { .. }));
}

#[test]
fn call_with_malformed_path_is_a_construction_failure() {
    let api = api();
    let failure = api.call("still-not-a-path", IFACE, METHOD, vec![reply_with(5)]).unwrap_err();
    assert!(matches!(
        failure.kind,
        CallErrorKind::Construction { part: RequestPart::Path }
    ));
    assert_eq!(failure.context.path, "still-not-a-path".to_string());
}

#[test]
fn call_with_args_carries_retry_semantics() {
    let api = api();
    let outcomes = vec![retryable_failure(), reply_with(2)];
    let reply = api
        .call_with_args(PATH, IFACE, METHOD, vec![WireValue::Str { text: "eth0".to_string() }], outcomes)
        .unwrap();
    assert!(matches!(reply.fields[0], WireValue::Int { number: 2 }));
}

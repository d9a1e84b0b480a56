use windy_pws::{HttpOutcome, RequestError, WindyInstance, classify_outcome};

#[test]
fn non_success_status_keeps_exact_code() {
    let r = classify_outcome(HttpOutcome::Received { status: 404 });
    assert_eq!(r, Err(RequestError::StatusError { status: 404 }));
    let r = classify_outcome(HttpOutcome::Received { status: 503 });
    assert_eq!(r, Err(RequestError::StatusError { status: 503 }));
}

#[test]
fn success_range_is_exactly_2xx() {
    assert_eq!(classify_outcome(HttpOutcome::Received { status: 200 }), Ok(()));
    assert_eq!(classify_outcome(HttpOutcome::Received { status: 204 }), Ok(()));
    assert_eq!(classify_outcome(HttpOutcome::Received { status: 299 }), Ok(()));
    assert_eq!(
        classify_outcome(HttpOutcome::Received { status: 199 }),
        Err(RequestError::StatusError { status: 199 })
    );
    assert_eq!(
        classify_outcome(HttpOutcome::Received { status: 300 }),
        Err(RequestError::StatusError { status: 300 })
    );
}

#[test]
fn timeout_surfaces_as_timeout() {
    let r = classify_outcome(HttpOutcome::TimedOut);
    assert_eq!(r, Err(RequestError::TimeOutError));
}

#[test]
fn other_failures_keep_their_diagnostic() {
    let r = classify_outcome(HttpOutcome::Failed { detail: "connection reset".to_string() });
    assert_eq!(r, Err(RequestError::OtherError { error: "connection reset".to_string() }));
}

#[test]
fn request_url_appends_credential() {
    let instance = WindyInstance::new("testkey".to_string()).expect("client builds");
    assert_eq!(
        instance.request_url(),
        "https://stations.windy.com/pws/update/testkey"
    );
}

#[test]
fn error_messages_match_historical_text() {
    assert_eq!(
        RequestError::StatusError { status: 404 }.message(),
        "send_request failed: failed with status error 404"
    );
    assert_eq!(
        RequestError::TimeOutError.message(),
        "send_request failed: timeout (check your connection to stations.windy.com)"
    );
    assert_eq!(
        RequestError::OtherError { error: "dns failure".to_string() }.message(),
        "send_request failed: dns failure"
    );
}

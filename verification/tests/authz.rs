use snipsnap_lib::authorizer::{decide, extract_credentials, validation_decision};
use snipsnap_lib::response::NonceResetResponse;
use snipsnap_lib::simple_authorizer_response::SimpleAuthorizerResponse;
use snipsnap_lib::table::Table;

fn headers(pairs: &[(&str, &str)]) -> Table<String> {
    let mut t: Table<String> = Table::new();
    for (name, value) in pairs {
        t.insert(String::from(*name), String::from(*value));
    }
    t
}

fn failure_of(decision: &SimpleAuthorizerResponse) -> String {
    assert!(!decision.is_authorized());
    assert_eq!(decision.context().len(), 1);
    decision
        .context()
        .get("failure")
        .expect("Missing context variable")
        .clone()
}

#[test]
fn deny_without_any_headers() {
    let decision = decide(&headers(&[]), Ok(()));
    assert_eq!(failure_of(&decision), "Missing Authorization header");
}

#[test]
fn deny_on_wrong_credential_prefix() {
    let decision = decide(&headers(&[("Authorization", "Token xyz")]), Ok(()));
    assert_eq!(failure_of(&decision), "Invalid Authorization header");
}

#[test]
fn deny_without_user_header() {
    let decision = decide(&headers(&[("Authorization", "Bearer tok")]), Ok(()));
    assert_eq!(failure_of(&decision), "Missing UserId header");
}

#[test]
fn deny_without_device_header() {
    let decision = decide(
        &headers(&[("Authorization", "Bearer tok"), ("X-UserId", "u1")]),
        Ok(()),
    );
    assert_eq!(failure_of(&decision), "Missing DeviceId header");
}

#[test]
fn allow_with_accepting_validator() {
    let decision = decide(
        &headers(&[
            ("Authorization", "Bearer tok"),
            ("X-UserId", "u1"),
            ("X-DeviceId", "dev1"),
        ]),
        Ok(()),
    );
    assert!(decision.is_authorized());
    assert_eq!(decision.context().len(), 0);
}

#[test]
fn deny_with_rejecting_validator() {
    let decision = decide(
        &headers(&[
            ("Authorization", "Bearer tok"),
            ("X-UserId", "u1"),
            ("X-DeviceId", "dev1"),
        ]),
        Err(String::from("bad signature")),
    );
    assert_eq!(
        failure_of(&decision),
        "Token validation error: bad signature"
    );
}

#[test]
fn extracted_credentials_strip_the_prefix() {
    let creds = extract_credentials(&headers(&[
        ("Authorization", "Bearer tok"),
        ("X-UserId", "u1"),
        ("X-DeviceId", "dev1"),
    ]))
    .ok()
    .expect("extraction must succeed");
    assert_eq!(creds.token, "tok");
    assert_eq!(creds.user_id, "u1");
    assert_eq!(creds.device_id, "dev1");
}

#[test]
fn header_lookup_is_case_sensitive() {
    let decision = decide(&headers(&[("authorization", "Bearer tok")]), Ok(()));
    assert_eq!(failure_of(&decision), "Missing Authorization header");
}

#[test]
fn validation_decision_outcomes() {
    let allowed = validation_decision(Ok(()));
    assert!(allowed.is_authorized());
    assert_eq!(allowed.context().len(), 0);
    let denied = validation_decision(Err(String::from("expired")));
    assert_eq!(failure_of(&denied), "Token validation error: expired");
}

#[test]
fn response_accessors_and_setters() {
    let mut context = Table::new();
    context.insert(String::from("exampleKey"), String::from("exampleValue"));
    let mut response = SimpleAuthorizerResponse::new(true, context);
    assert!(response.is_authorized());
    assert_eq!(
        response.context().get("exampleKey"),
        Some(&String::from("exampleValue"))
    );
    response.set_is_authorized(false);
    assert!(!response.is_authorized());
    response.insert_context_var(String::from("exampleKey"), String::from("other"));
    assert_eq!(
        response.context().get("exampleKey"),
        Some(&String::from("other"))
    );
    assert_eq!(response.context().len(), 1);
    response.set_context(Table::new());
    assert_eq!(response.context().len(), 0);
}

#[test]
fn reset_response_reports_success() {
    let body = NonceResetResponse { success: true };
    assert!(body.success);
    assert_eq!(body, NonceResetResponse { success: true });
}

use argon2::password_hash::{PasswordHasher, SaltString};
use argon2::Argon2;
use zero2prod::authentication::{verify_password, DECOY_PASSWORD_HASH};
use zero2prod::domain::SubscriberEmail;
use zero2prod::email_client::{email_endpoint, send_email_request};
use zero2prod::routes::newsletters::{
    confirmed_subscribers, BodyData, Content, PublishError, PublishFlow, PublishStep,
};

fn hash_of(password: &str) -> String {
    let salt = SaltString::new("c29tZXNhbHRzb21lc2FsdA").unwrap();
    Argon2::default()
        .hash_password(password.as_bytes(), &salt)
        .unwrap()
        .to_string()
}

fn header(user: &str, password: &str) -> Vec<u8> {
    format!("Basic {}", base64::encode(format!("{user}:{password}"))).into_bytes()
}

fn body() -> BodyData {
    BodyData {
        title: "Newsletter title".to_string(),
        content: Content {
            text: "Newsletter body as plain text".to_string(),
            html: "<p>Newsletter body as HTML</p>".to_string(),
        },
    }
}

fn assert_is_401_with_challenge(e: &PublishError) {
    assert_eq!(e.status_code(), 401);
    assert_eq!(e.www_authenticate(), Some(r#"Basic realm="publish""#));
}

/// Runs a publication against one stored user and the given confirmed rows;
/// gives the answer's status and the addresses the issue went to.
fn publish(
    authorization: Option<&[u8]>,
    body: Option<BodyData>,
    stored: Option<(uuid::Uuid, String)>,
    rows: Vec<String>,
) -> (u16, Vec<String>) {
    let mut sent = Vec::new();
    let mut flow = match PublishFlow::start(authorization, body, DECOY_PASSWORD_HASH.to_string()) {
        Ok(f) => f,
        Err(e) => return (e.status_code(), sent),
    };
    if let Err(e) = flow.on_stored_credentials(Ok(stored)) {
        return (e.status_code(), sent);
    }
    let (hash, candidate) = flow.password_check();
    let check = verify_password(hash, candidate);
    if let Err(e) = flow.on_password_checked(Ok(check)) {
        return (e.status_code(), sent);
    }
    if let Err(e) = flow.on_confirmed_subscribers(Ok(confirmed_subscribers(rows))) {
        return (e.status_code(), sent);
    }
    while flow.step() == PublishStep::SendIssue {
        sent.push(flow.current_recipient().as_str().to_string());
        assert_eq!(flow.issue().title, "Newsletter title");
        if let Err(e) = flow.on_sent(Ok(())) {
            return (e.status_code(), sent);
        }
    }
    assert!(flow.step() == PublishStep::Published);
    (200, sent)
}

#[test]
fn requests_missing_authorization_are_rejected() {
    let e = PublishFlow::start(None, Some(body()), DECOY_PASSWORD_HASH.to_string())
        .err()
        .unwrap();
    assert_is_401_with_challenge(&e);
}

#[test]
fn non_existing_user_is_rejected() {
    let h = header(&uuid::Uuid::new_v4().to_string(), &uuid::Uuid::new_v4().to_string());
    let mut flow = PublishFlow::start(Some(&h), Some(body()), DECOY_PASSWORD_HASH.to_string())
        .ok()
        .unwrap();
    flow.on_stored_credentials(Ok(None)).ok().unwrap();
    let (hash, candidate) = flow.password_check();
    assert_eq!(hash, DECOY_PASSWORD_HASH);
    let check = verify_password(hash, candidate);
    let e = flow.on_password_checked(Ok(check)).err().unwrap();
    assert_is_401_with_challenge(&e);
}

#[test]
fn invalid_password_is_rejected() {
    let id = uuid::Uuid::new_v4();
    let h = header("admin", &uuid::Uuid::new_v4().to_string());
    let mut flow = PublishFlow::start(Some(&h), Some(body()), DECOY_PASSWORD_HASH.to_string())
        .ok()
        .unwrap();
    flow.on_stored_credentials(Ok(Some((id, hash_of("the real one"))))).ok().unwrap();
    let (hash, candidate) = flow.password_check();
    let check = verify_password(hash, candidate);
    let e = flow.on_password_checked(Ok(check)).err().unwrap();
    assert_is_401_with_challenge(&e);
}

#[test]
fn newsletters_are_not_delivered_to_unconfirmed_subscribers() {
    let id = uuid::Uuid::new_v4();
    let h = header("admin", "s3cret");
    let (status, sent) = publish(Some(&h), Some(body()), Some((id, hash_of("s3cret"))), vec![]);
    assert_eq!(status, 200);
    assert!(sent.is_empty());
}

#[test]
fn newsletters_are_delivered_ton_confirmed_subscibers() {
    let id = uuid::Uuid::new_v4();
    let h = header("admin", "s3cret");
    let (status, sent) = publish(
        Some(&h),
        Some(body()),
        Some((id, hash_of("s3cret"))),
        vec!["ursula_le_guin@gmail.com".to_string()],
    );
    assert_eq!(status, 200);
    assert_eq!(sent, vec!["ursula_le_guin@gmail.com".to_string()]);
}

#[test]
fn issue_goes_once_to_each_confirmed_subscriber_in_order() {
    let id = uuid::Uuid::new_v4();
    let h = header("admin", "s3cret");
    let rows: Vec<String> = (0..5).map(|i| format!("reader{i}@mail.fr")).collect();
    let (status, sent) = publish(Some(&h), Some(body()), Some((id, hash_of("s3cret"))), rows.clone());
    assert_eq!(status, 200);
    assert_eq!(sent, rows);
}

#[test]
fn malformed_stored_addresses_are_skipped() {
    let id = uuid::Uuid::new_v4();
    let h = header("admin", "s3cret");
    let rows = vec![
        "a@mail.fr".to_string(),
        "not-an-email".to_string(),
        "b@mail.fr".to_string(),
    ];
    let (status, sent) = publish(Some(&h), Some(body()), Some((id, hash_of("s3cret"))), rows);
    assert_eq!(status, 200);
    assert_eq!(sent, vec!["a@mail.fr".to_string(), "b@mail.fr".to_string()]);
}

#[test]
fn newsletters_return_400_for_invalid_data() {
    let id = uuid::Uuid::new_v4();
    let h = header("admin", "s3cret");
    let (status, sent) = publish(Some(&h), None, Some((id, hash_of("s3cret"))), vec!["a@mail.fr".to_string()]);
    assert_eq!(status, 400, "Should have returned 400 with a body missing its fields");
    assert!(sent.is_empty());
}

#[test]
fn missing_body_without_credentials_is_still_401() {
    let (status, _) = publish(None, None, None, vec![]);
    assert_eq!(status, 401);
}

#[test]
fn first_failed_send_aborts_with_500() {
    let id = uuid::Uuid::new_v4();
    let h = header("admin", "s3cret");
    let mut flow = PublishFlow::start(Some(&h), Some(body()), DECOY_PASSWORD_HASH.to_string())
        .ok()
        .unwrap();
    flow.on_stored_credentials(Ok(Some((id, hash_of("s3cret"))))).ok().unwrap();
    let (hash, candidate) = flow.password_check();
    let check = verify_password(hash, candidate);
    flow.on_password_checked(Ok(check)).ok().unwrap();
    let rows = vec!["a@mail.fr".to_string(), "b@mail.fr".to_string(), "c@mail.fr".to_string()];
    let skipped = flow.on_confirmed_subscribers(Ok(confirmed_subscribers(rows))).ok().unwrap();
    assert!(skipped.is_empty());
    flow.on_sent(Ok(())).ok().unwrap();
    assert_eq!(flow.current_recipient().as_str(), "b@mail.fr");
    let e = flow.on_sent(Err("transport timed out".to_string())).err().unwrap();
    assert_eq!(e.status_code(), 500);
    assert!(e.www_authenticate().is_none());
    assert!(flow.step() == PublishStep::Failed);
}

#[test]
fn store_failures_answer_500() {
    let h = header("admin", "s3cret");
    let mut flow = PublishFlow::start(Some(&h), Some(body()), DECOY_PASSWORD_HASH.to_string())
        .ok()
        .unwrap();
    let e = flow.on_stored_credentials(Err("pool timed out".to_string())).err().unwrap();
    assert_eq!(e.status_code(), 500);
}

#[test]
fn worker_failure_answers_500() {
    let h = header("admin", "s3cret");
    let mut flow = PublishFlow::start(Some(&h), Some(body()), DECOY_PASSWORD_HASH.to_string())
        .ok()
        .unwrap();
    flow.on_stored_credentials(Ok(None)).ok().unwrap();
    let e = flow.on_password_checked(Err("join error".to_string())).err().unwrap();
    assert_eq!(e.status_code(), 500);
}

#[test]
fn confirmed_rows_are_checked_one_by_one() {
    let r = confirmed_subscribers(vec!["a@mail.fr".to_string(), "bad".to_string()]);
    assert_eq!(r.len(), 2);
    assert_eq!(r[0].as_ref().ok().unwrap().email.as_str(), "a@mail.fr");
    assert!(r[1].is_err());
}

#[test]
fn email_request_fields() {
    let sender = SubscriberEmail::parse("sender@mail.fr".to_string()).ok().unwrap();
    let to = SubscriberEmail::parse("to@mail.fr".to_string()).ok().unwrap();
    let req = send_email_request(&sender, &to, "subject", "<p>html</p>", "text");
    assert_eq!(req.from, "sender@mail.fr");
    assert_eq!(req.to, "to@mail.fr");
    assert_eq!(req.subject, "subject");
    assert_eq!(req.html_body, "<p>html</p>");
    assert_eq!(req.text_body, "text");
    assert_eq!(email_endpoint("http://localhost:1234"), "http://localhost:1234/email");
}

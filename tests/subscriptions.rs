use zero2prod::repository::SubscriptionStatus;
use zero2prod::routes::subscriptions::{
    confirmation_email, error_chain_fmt, generate_subscription_token, FormData, SubscribeError,
    SubscribeFlow, SubscribeStep,
};
use zero2prod::routes::subscriptions_confirm::{
    confirm_after_lookup, confirm_after_update, confirm_start, ConfirmAction, Parameters,
};
use zero2prod::startup::ApplicationBaseUrl;

fn form(name: &str, email: &str) -> FormData {
    FormData {
        name: name.to_string(),
        email: email.to_string(),
    }
}

fn base_url() -> ApplicationBaseUrl {
    ApplicationBaseUrl("http://127.0.0.1:8000".to_string())
}

fn links_in(s: &str) -> Vec<String> {
    s.split(|c: char| c.is_whitespace() || c == '"')
        .filter(|w| w.starts_with("http://"))
        .map(|w| w.to_string())
        .collect()
}

#[test]
fn tokens_are_25_alphanumeric_chars() {
    for _ in 0..50 {
        let t = generate_subscription_token();
        assert_eq!(t.len(), 25);
        assert!(t.chars().all(|c| c.is_ascii_alphanumeric()));
    }
}

#[test]
fn tokens_differ_between_calls() {
    let a = generate_subscription_token();
    let b = generate_subscription_token();
    assert_ne!(a, b);
}

#[test]
fn confirmation_email_text() {
    let e = confirmation_email("http://127.0.0.1:8000", "abc123");
    assert_eq!(e.subject, "Welcome!");
    assert_eq!(
        e.text_body,
        "Welcome to our newsletter!\nVisit http://127.0.0.1:8000/subscriptions/confirm?subscription_token=abc123 to confirm your subscription."
    );
    assert_eq!(
        e.html_body,
        "Welcome to our newsletter!<br />Click <a href=\"http://127.0.0.1:8000/subscriptions/confirm?subscription_token=abc123\">here</a> to confirm your subscription."
    );
}

#[test]
fn subscribe_returns_a_201_for_valid_form_data() {
    let id = uuid::Uuid::new_v4();
    let mut flow = SubscribeFlow::start(form("le guin", "le@mail.fr"), &base_url(), id)
        .ok()
        .unwrap();
    let mut seen = vec![flow.step()];
    while flow.step().status_code().is_none() {
        seen.push(flow.advance(true));
    }
    assert_eq!(flow.step().status_code(), Some(201));
    assert!(seen == vec![
        SubscribeStep::BeginTransaction,
        SubscribeStep::InsertSubscriber,
        SubscribeStep::StoreToken,
        SubscribeStep::Commit,
        SubscribeStep::SendConfirmation,
        SubscribeStep::Created,
    ]);
}

#[test]
fn subscribe_persiste_the_new_subscriber() {
    let id = uuid::Uuid::new_v4();
    let flow = SubscribeFlow::start(form("le guin", "le@mail.fr"), &base_url(), id)
        .ok()
        .unwrap();
    assert_eq!(flow.subscriber_id(), id);
    assert_eq!(flow.email().as_str(), "le@mail.fr");
    assert_eq!(flow.name().as_str(), "le guin");
    assert_eq!(SubscriptionStatus::PendingConfirmation.as_str(), "pending_confirmation");
}

#[test]
fn subscribe_returns_a_400_for_data_missing_or_invalid() {
    let cases = [
        (form("", "dazd@dz.gt"), "name empty"),
        (form("le guin", ""), "mail empty"),
        (form("ursulat", "not-an-email"), "not an email"),
    ];
    for (f, what) in cases {
        let r = SubscribeFlow::start(f, &base_url(), uuid::Uuid::new_v4());
        match r {
            Err(e) => {
                assert!(matches!(e, SubscribeError::ValidationError(_)), "{what}");
                assert_eq!(e.status_code(), 400, "{what}");
            }
            Ok(_) => panic!("accepted: {what}"),
        }
    }
}

#[test]
fn subscribe_sends_email_with_a_link() {
    let flow = SubscribeFlow::start(
        form("le guin", "ursula_le_guin@gmail.com"),
        &base_url(),
        uuid::Uuid::new_v4(),
    )
    .ok()
    .unwrap();
    let email = flow.confirmation_email();
    let html_links = links_in(&email.html_body);
    let text_links = links_in(&email.text_body);
    assert_eq!(html_links.len(), 1);
    assert_eq!(html_links, text_links);
    assert!(html_links[0].ends_with(flow.token()));
}

#[test]
fn failure_before_commit_stops_the_attempt() {
    for failing in 0..4 {
        let mut flow = SubscribeFlow::start(form("le guin", "le@mail.fr"), &base_url(), uuid::Uuid::new_v4())
            .ok()
            .unwrap();
        for _ in 0..failing {
            flow.advance(true);
        }
        let before = flow.step();
        assert!(before != SubscribeStep::SendConfirmation);
        assert!(flow.advance(false) == SubscribeStep::Failed);
        assert_eq!(flow.step().status_code(), Some(500));
        assert!(flow.advance(true) == SubscribeStep::Failed);
    }
}

#[test]
fn failed_send_answers_500() {
    let mut flow = SubscribeFlow::start(form("le guin", "le@mail.fr"), &base_url(), uuid::Uuid::new_v4())
        .ok()
        .unwrap();
    for _ in 0..4 {
        flow.advance(true);
    }
    assert!(flow.step() == SubscribeStep::SendConfirmation);
    assert!(flow.advance(false) == SubscribeStep::Failed);
    assert_eq!(flow.step().status_code(), Some(500));
}

#[test]
fn unexpected_errors_answer_500() {
    assert_eq!(SubscribeError::UnexpectedError("db".to_string()).status_code(), 500);
    assert_eq!(SubscribeError::ValidationError("bad".to_string()).status_code(), 400);
}

#[test]
fn confirmations_without_token_are_rekected_with_400() {
    assert!(matches!(confirm_start(None), ConfirmAction::Respond(400)));
}

#[test]
fn the_link_returned_by_subscriber_returns_a_200_if_called() {
    let id = uuid::Uuid::new_v4();
    let flow = SubscribeFlow::start(form("bla", "bla@email.com"), &base_url(), id)
        .ok()
        .unwrap();
    let link = links_in(&flow.confirmation_email().html_body).remove(0);
    assert!(link.starts_with("http://127.0.0.1:8000/subscriptions/confirm?"));
    let token = link.split("subscription_token=").nth(1).unwrap().to_string();
    let action = confirm_start(Some(Parameters { subscription_token: token.clone() }));
    match action {
        ConfirmAction::LookupToken(t) => assert_eq!(t, flow.token()),
        _ => panic!("expected a lookup"),
    }
    match confirm_after_lookup(Ok(Some(id))) {
        ConfirmAction::ConfirmSubscriber(found) => assert_eq!(found, id),
        _ => panic!("expected a confirmation"),
    }
    assert!(matches!(confirm_after_update(Ok(())), ConfirmAction::Respond(200)));
    assert_eq!(SubscriptionStatus::Confirmed.as_str(), "confirmed");
}

#[test]
fn unknown_token_is_rejected_with_400() {
    assert!(matches!(confirm_after_lookup(Ok(None)), ConfirmAction::Respond(400)));
}

#[test]
fn confirmation_store_failures_answer_500() {
    assert!(matches!(confirm_after_lookup(Err("down".to_string())), ConfirmAction::Respond(500)));
    assert!(matches!(confirm_after_update(Err("down".to_string())), ConfirmAction::Respond(500)));
}

#[test]
fn error_chain_is_written_with_its_causes() {
    let causes = vec!["db failed".to_string(), "connection reset".to_string()];
    assert_eq!(
        error_chain_fmt("store token", &causes),
        "store token\n\nCaused by:\n\tdb failed\nCaused by:\n\tconnection reset\n"
    );
    assert_eq!(error_chain_fmt("alone", &Vec::new()), "alone\n\n");
}

#[test]
fn subscribe_sends_email_for_valid_data() {
    let mut flow = SubscribeFlow::start(
        form("le guin", "ursula_le_guin@gmail.com"),
        &base_url(),
        uuid::Uuid::new_v4(),
    )
    .ok()
    .unwrap();
    let mut sends = 0;
    while flow.step().status_code().is_none() {
        if flow.step() == SubscribeStep::SendConfirmation {
            sends += 1;
            assert_eq!(flow.email().as_str(), "ursula_le_guin@gmail.com");
        }
        flow.advance(true);
    }
    assert_eq!(sends, 1);
}

#[test]
fn subscibre_filas_if_there_is_a_fatal_database_error() {
    let mut flow = SubscribeFlow::start(form("fez", "fez@fe.gt"), &base_url(), uuid::Uuid::new_v4())
        .ok()
        .unwrap();
    flow.advance(true);
    assert!(flow.step() == SubscribeStep::InsertSubscriber);
    flow.advance(false);
    assert_eq!(flow.step().status_code(), Some(500));
}

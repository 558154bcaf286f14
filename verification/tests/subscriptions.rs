use z2prod::domain::NewSubscriber;
use z2prod::routes::subscribe_flow::{subscribe, SubscribeAction, SubscribeEvent, SubscribeFlow};
use z2prod::routes::subscriptions::{
    build_confirmation_link, confirmation_email, error_chain_fmt, generate_subscription_token,
    token_from_bytes,
    FormData, StoreTokenError,
};

/// What one action looks like once its outside work has been done.
enum Seen {
    Begin,
    Insert(String, String, String),
    Store(u128, String),
    Commit,
    Send(String, String, String, String),
    Respond(u16),
}

/// Drives a request to its answer; `outcomes` says, in turn, whether each
/// piece of outside work succeeds.
fn drive(name: &str, email: &str, base_url: &str, outcomes: &[bool], id: u128) -> Vec<Seen> {
    let form = FormData::new(email.to_string(), name.to_string());
    let (mut flow, mut action): (SubscribeFlow, SubscribeAction) = subscribe(form, base_url);
    let mut seen = Vec::new();
    let mut k = 0;
    loop {
        let ok = if k < outcomes.len() { outcomes[k] } else { true };
        k += 1;
        let event = match &action {
            SubscribeAction::BeginTransaction => {
                seen.push(Seen::Begin);
                if ok { SubscribeEvent::Succeeded } else { SubscribeEvent::Failed }
            }
            SubscribeAction::InsertSubscriber { email, name, status } => {
                seen.push(Seen::Insert(email.clone(), name.clone(), status.clone()));
                if ok { SubscribeEvent::SubscriberInserted(id) } else { SubscribeEvent::Failed }
            }
            SubscribeAction::StoreToken { subscriber_id, token } => {
                seen.push(Seen::Store(*subscriber_id, token.clone()));
                if ok { SubscribeEvent::Succeeded } else { SubscribeEvent::Failed }
            }
            SubscribeAction::CommitTransaction => {
                seen.push(Seen::Commit);
                if ok { SubscribeEvent::Succeeded } else { SubscribeEvent::Failed }
            }
            SubscribeAction::SendConfirmationEmail(mail) => {
                seen.push(Seen::Send(
                    mail.recipient.clone(),
                    mail.subject.clone(),
                    mail.html_body.clone(),
                    mail.plain_body.clone(),
                ));
                if ok { SubscribeEvent::Succeeded } else { SubscribeEvent::Failed }
            }
            SubscribeAction::Respond(status) => {
                seen.push(Seen::Respond(*status));
                return seen;
            }
        };
        let (f, a) = flow.step(event);
        flow = f;
        action = a;
    }
}

fn status(seen: &[Seen]) -> u16 {
    match seen.last() {
        Some(Seen::Respond(s)) => *s,
        _ => panic!("the request was not answered"),
    }
}

#[test]
fn subscribe_returns_a_200_for_valid_form_data() {
    let seen = drive("le guin", "ursula_le_guin@gmail.com", "127.0.0.1", &[], 7);
    assert_eq!(200, status(&seen));
    let mut saved = None;
    for s in &seen {
        if let Seen::Insert(email, name, status) = s {
            saved = Some((email.clone(), name.clone(), status.clone()));
        }
    }
    let (email, name, status) = saved.expect("the subscriber was not inserted");
    assert_eq!(status, "pending_confirmation");
    assert_eq!(email, "ursula_le_guin@gmail.com");
    assert_eq!(name, "le guin");
}

#[test]
fn subscribe_returns_a_200_when_fields_are_present_but_empty() {
    let test_cases = vec![
        ("", "ursula_le_guin@gmail.com", "empty name"),
        ("Ursula", "", "empty email"),
        ("Ursula", "definitely-not-an-email", "invalid email"),
    ];
    for (name, email, description) in test_cases {
        let seen = drive(name, email, "127.0.0.1", &[], 1);
        assert_eq!(
            400,
            status(&seen),
            "The API did not return a 400 Bad Request when the payload was {}",
            description
        );
    }
}

#[test]
fn subscribe_emails_a_link_carrying_the_stored_token() {
    let seen = drive("le guin", "ursula_le_guin@gmail.com", "127.0.0.1", &[], 3);
    assert_eq!(200, status(&seen));
    let mut stored = None;
    let mut sent = None;
    for s in &seen {
        match s {
            Seen::Store(id, token) => stored = Some((*id, token.clone())),
            Seen::Send(to, subject, html, plain) => {
                sent = Some((to.clone(), subject.clone(), html.clone(), plain.clone()))
            }
            _ => {}
        }
    }
    let (id, token) = stored.expect("no token stored");
    let (to, subject, html, plain) = sent.expect("no email sent");
    assert_eq!(id, 3);
    assert_eq!(to, "ursula_le_guin@gmail.com");
    assert_eq!(subject, "Welcome!");
    let link = format!("http://127.0.0.1/subscriptions/confirm?subscription_token={}", token);
    assert!(html.contains(&link));
    assert!(plain.contains(&link));
}

#[test]
fn every_failing_step_answers_500() {
    for failing in 0..5 {
        let mut outcomes = vec![true; 5];
        outcomes[failing] = false;
        let seen = drive("le guin", "ursula_le_guin@gmail.com", "localhost:8000", &outcomes, 9);
        assert_eq!(500, status(&seen), "step {} failed", failing);
        assert_eq!(seen.len(), failing + 2);
    }
}

#[test]
fn invalid_form_after_failed_transaction_answers_500() {
    let seen = drive("", "", "localhost", &[false], 1);
    assert_eq!(500, status(&seen));
    assert_eq!(seen.len(), 2);
}

#[test]
fn invalid_form_changes_nothing() {
    let seen = drive("   ", "ursula_le_guin@gmail.com", "localhost", &[], 1);
    assert_eq!(400, status(&seen));
    assert_eq!(seen.len(), 2);
    assert!(matches!(seen[0], Seen::Begin));
}

#[test]
fn email_is_sent_only_after_commit() {
    let seen = drive("le guin", "ursula_le_guin@gmail.com", "localhost", &[], 1);
    let kinds: Vec<u8> = seen
        .iter()
        .map(|s| match s {
            Seen::Begin => 0,
            Seen::Insert(..) => 1,
            Seen::Store(..) => 2,
            Seen::Commit => 3,
            Seen::Send(..) => 4,
            Seen::Respond(_) => 5,
        })
        .collect();
    assert_eq!(kinds, vec![0, 1, 2, 3, 4, 5]);
}

#[test]
fn new_subscriber_keeps_the_submitted_fields() {
    let form = FormData::new("ursula_le_guin@gmail.com".to_string(), "le guin".to_string());
    let s = NewSubscriber::try_from(form).expect("valid form");
    assert_eq!(s.name.as_str(), "le guin");
    assert_eq!(s.email.as_str(), "ursula_le_guin@gmail.com");
}

#[test]
fn new_subscriber_reports_the_name_first() {
    let form = FormData::new("nope".to_string(), " ".to_string());
    match NewSubscriber::try_from(form) {
        Err(e) => assert_eq!(e, "  is not a valid subscriber name."),
        Ok(_) => panic!("accepted a blank name"),
    }
    let form = FormData::new("nope".to_string(), "Ursula".to_string());
    match NewSubscriber::try_from(form) {
        Err(e) => assert_eq!(e, "nope is not a valid subscriber email."),
        Ok(_) => panic!("accepted an invalid email"),
    }
}

#[test]
fn form_data_gives_back_its_fields() {
    let form = FormData::new("a@b".to_string(), "Ann".to_string());
    assert_eq!(form.email(), "a@b");
    assert_eq!(form.name(), "Ann");
}

#[test]
fn subscription_tokens_are_25_alphanumeric_characters() {
    for _ in 0..20 {
        let token = generate_subscription_token();
        assert_eq!(token.chars().count(), 25);
        assert!(token.chars().all(|c| c.is_ascii_alphanumeric()));
    }
}

#[test]
fn subscription_tokens_differ() {
    let a = generate_subscription_token();
    let b = generate_subscription_token();
    assert_ne!(a, b);
}

#[test]
fn confirmation_link_has_exact_shape() {
    assert_eq!(
        build_confirmation_link("127.0.0.1:8000", "abc"),
        "http://127.0.0.1:8000/subscriptions/confirm?subscription_token=abc"
    );
}

#[test]
fn confirmation_email_has_exact_bodies() {
    let form = FormData::new("a@b.c".to_string(), "Ann".to_string());
    let s = NewSubscriber::try_from(form).unwrap();
    let mail = confirmation_email(&s, "host", "tok");
    let link = "http://host/subscriptions/confirm?subscription_token=tok";
    assert_eq!(mail.recipient, "a@b.c");
    assert_eq!(mail.subject, "Welcome!");
    assert_eq!(
        mail.plain_body,
        format!("Welcome to our newsletter!\nVisit {} to confirm your subscription.", link)
    );
    assert_eq!(
        mail.html_body,
        format!(
            "Welcome to our newsletter!<br />Click <a href=\"{}\">here</a> to confirm your subscription.",
            link
        )
    );
}

#[test]
fn error_chain_fmt_without_causes() {
    assert_eq!(error_chain_fmt("boom", &vec![]), "boom\n\n");
}

#[test]
fn error_chain_fmt_lists_causes_in_order() {
    let causes = vec!["disk full".to_string(), "io error".to_string()];
    assert_eq!(
        error_chain_fmt("could not save", &causes),
        "could not save\n\nCaused by:\n\tdisk full\nCaused by:\n\tio error\n"
    );
}

#[test]
fn store_token_error_describes_itself() {
    let e = StoreTokenError("connection reset".to_string());
    assert_eq!(
        e.message(),
        "A database error was encountered while trying to stiore a subscription token."
    );
    assert_eq!(e.source(), "connection reset");
}

#[test]
fn token_from_bytes_reads_each_byte_as_a_character() {
    assert_eq!(token_from_bytes(&b"aZ09x".to_vec()), "aZ09x");
    assert_eq!(token_from_bytes(&Vec::new()), "");
}

use z2prod::domain::{SubscriberEmail, SubscriberName};

#[test]
fn a_valid_name_is_accepted_unchanged() {
    let n = SubscriberName::parse("le guin".to_string()).expect("valid name");
    assert_eq!(n.as_str(), "le guin");
}

#[test]
fn an_empty_name_is_rejected() {
    assert!(SubscriberName::parse("".to_string()).is_err());
}

#[test]
fn a_whitespace_only_name_is_rejected() {
    match SubscriberName::parse(" \t\n\u{3000}".to_string()) {
        Err(e) => assert_eq!(e, " \t\n\u{3000} is not a valid subscriber name."),
        Ok(_) => panic!("accepted a blank name"),
    }
}

#[test]
fn a_name_with_surrounding_spaces_is_kept_as_is() {
    let n = SubscriberName::parse("  Ursula ".to_string()).unwrap();
    assert_eq!(n.as_str(), "  Ursula ");
}

#[test]
fn a_valid_email_is_accepted_unchanged() {
    let e = SubscriberEmail::parse("ursula_le_guin@gmail.com".to_string()).expect("valid email");
    assert_eq!(e.as_str(), "ursula_le_guin@gmail.com");
}

#[test]
fn an_empty_email_is_rejected() {
    match SubscriberEmail::parse("".to_string()) {
        Err(e) => assert_eq!(e, " is not a valid subscriber email."),
        Ok(_) => panic!("accepted an empty email"),
    }
}

#[test]
fn an_email_without_at_is_rejected() {
    assert!(SubscriberEmail::parse("definitely-not-an-email".to_string()).is_err());
}

#[test]
fn an_email_without_local_part_or_domain_is_rejected() {
    assert!(SubscriberEmail::parse("@domain.com".to_string()).is_err());
    assert!(SubscriberEmail::parse("ursula@".to_string()).is_err());
}

#[test]
fn an_email_with_two_ats_is_rejected() {
    assert!(SubscriberEmail::parse("a@b@c".to_string()).is_err());
}

#[test]
fn the_shortest_email_is_accepted() {
    assert!(SubscriberEmail::parse("a@b".to_string()).is_ok());
}

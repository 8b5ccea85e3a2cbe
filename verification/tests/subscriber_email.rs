use news_letter::domain::subscriber_email::{check_email, SubscriberEmail};

#[test]
fn empty_string_is_rejected() {
    let email = "".to_string();
    assert!(SubscriberEmail::parse(email).is_err());
}

#[test]
fn email_missing_at_symbol_is_rejected() {
    let email = "ursuladomain.com".to_string();
    assert!(SubscriberEmail::parse(email).is_err());
}

#[test]
fn email_missing_subject_is_rejected() {
    let email = "@domain.com".to_string();
    assert!(SubscriberEmail::parse(email).is_err());
}

#[test]
fn valid_email_is_parsed_and_kept() {
    let parsed = SubscriberEmail::parse("ursula_le_guin@gmail.com".to_string()).unwrap();
    assert_eq!(parsed.as_ref(), "ursula_le_guin@gmail.com");
}

#[test]
fn several_valid_emails_are_accepted() {
    for email in ["email@here.com", "weirder-email@here.and.there.com", "a.b+c@example.org"] {
        assert!(SubscriberEmail::parse(email.to_string()).is_ok(), "{}", email);
    }
}

#[test]
fn rejection_names_the_text() {
    let err = SubscriberEmail::parse("ursuladomain.com".to_string()).unwrap_err();
    assert_eq!(err, "ursuladomain.com is not a valid subscriber email.");
}

#[test]
fn local_part_with_space_is_rejected() {
    assert!(SubscriberEmail::parse("ursula le guin@gmail.com".to_string()).is_err());
}

#[test]
fn local_part_longer_than_64_is_rejected() {
    let email = format!("{}@domain.com", "a".repeat(65));
    assert!(SubscriberEmail::parse(email).is_err());
    let email = format!("{}@domain.com", "a".repeat(64));
    assert!(SubscriberEmail::parse(email).is_ok());
}

#[test]
fn verdict_decides_check() {
    assert_eq!(check_email("anything".to_string(), true).unwrap(), "anything");
    let err = check_email("x@y.z".to_string(), false).unwrap_err();
    assert_eq!(err, "x@y.z is not a valid subscriber email.");
}

#[test]
fn empty_domain_is_rejected() {
    assert!(SubscriberEmail::parse("abc@".to_string()).is_err());
}

use zero2prod::domain::{NewSubscriber, SubscriberName};
use zero2prod::email::SubscriberEmail;
use zero2prod::routes::subscriptions::{
    conclude, new_subscription_record, parse_subscriber, receive, subscription_record, FormData,
    Intake, STATUS_BAD_REQUEST, STATUS_INTERNAL_SERVER_ERROR, STATUS_OK,
};

fn form(name: &str, email: &str) -> FormData {
    FormData { email: email.to_string(), name: name.to_string() }
}

fn le_guin() -> NewSubscriber {
    NewSubscriber {
        email: SubscriberEmail::parse("ursula_le_guin@gmail.com".to_string()).unwrap(),
        name: SubscriberName::parse("le guin".to_string()).unwrap(),
    }
}

#[test]
fn a_valid_form_becomes_a_subscriber() {
    let subscriber = match parse_subscriber(form("le guin", "ursula_le_guin@gmail.com")) {
        Ok(subscriber) => subscriber,
        Err(e) => panic!("{}", e),
    };
    assert_eq!(subscriber.name.inner_ref(), "le guin");
    assert_eq!(subscriber.email.as_str(), "ursula_le_guin@gmail.com");
}

#[test]
fn the_first_field_that_fails_is_reported() {
    let e = parse_subscriber(form("", "not an email")).err().unwrap();
    assert_eq!(e, " is not a valid subscriber name.");
    let e = parse_subscriber(form("le (guin)", "ursula_le_guin@gmail.com")).err().unwrap();
    assert_eq!(e, "le (guin) is not a valid subscriber name.");
    let e = parse_subscriber(form("le guin", "not an email")).err().unwrap();
    assert_eq!(e, "not an email is not a valid subscriber email.");
    let e = parse_subscriber(form("le guin", "")).err().unwrap();
    assert_eq!(e, " is not a valid subscriber email.");
}

#[test]
fn a_valid_form_is_handed_on_to_be_stored() {
    match receive(Some(form("le guin", "ursula_le_guin@gmail.com"))) {
        Intake::Persist(subscriber) => {
            assert_eq!(subscriber.name.inner_ref(), "le guin");
            assert_eq!(subscriber.email.as_str(), "ursula_le_guin@gmail.com");
        }
        Intake::Respond(status) => panic!("answered with {}", status),
    }
}

#[test]
fn a_form_that_fails_validation_is_answered_with_400() {
    for (name, email) in [
        ("", "ursula_le_guin@gmail.com"),
        ("le guin", ""),
        ("", ""),
        ("le guin", "definitely-not-an-email"),
        ("{le guin}", "ursula_le_guin@gmail.com"),
    ] {
        match receive(Some(form(name, email))) {
            Intake::Respond(status) => assert_eq!(status, 400),
            Intake::Persist(_) => panic!("accepted {:?} {:?}", name, email),
        }
    }
}

#[test]
fn a_body_that_could_not_be_decoded_is_answered_with_400() {
    match receive(None) {
        Intake::Respond(status) => assert_eq!(status, 400),
        Intake::Persist(_) => panic!("accepted a missing form"),
    }
}

#[test]
fn the_answer_follows_the_store() {
    assert_eq!(conclude(true), 200);
    assert_eq!(conclude(false), 500);
    assert_eq!(STATUS_OK, 200);
    assert_eq!(STATUS_BAD_REQUEST, 400);
    assert_eq!(STATUS_INTERNAL_SERVER_ERROR, 500);
}

#[test]
fn a_record_holds_what_it_was_given() {
    let record = subscription_record(&le_guin(), 7, 1_700_000_000_000_000);
    assert_eq!(record.id, 7);
    assert_eq!(record.email, "ursula_le_guin@gmail.com");
    assert_eq!(record.name, "le guin");
    assert_eq!(record.subscribed_at, 1_700_000_000_000_000);
}

#[test]
fn a_new_record_has_a_random_key_and_the_time_of_the_call() {
    let subscriber = le_guin();
    let first = new_subscription_record(&subscriber);
    let second = new_subscription_record(&subscriber);
    assert_eq!(first.email, "ursula_le_guin@gmail.com");
    assert_eq!(first.name, "le guin");
    for record in [&first, &second] {
        assert_eq!((record.id >> 76) & 0xF, 4);
        assert_eq!((record.id >> 62) & 0x3, 2);
        assert_eq!(uuid::Uuid::from_u128(record.id).get_version_num(), 4);
        // after 2020-01-01 and before 2100-01-01
        assert!(record.subscribed_at > 1_577_836_800_000_000);
        assert!(record.subscribed_at < 4_102_444_800_000_000);
    }
    assert_ne!(first.id, second.id);
    assert!(first.subscribed_at <= second.subscribed_at);
}

#[test]
fn a_form_converts_as_it_parses() {
    let subscriber = NewSubscriber::try_from(form("le guin", "ursula_le_guin@gmail.com")).unwrap();
    assert_eq!(subscriber.name.inner_ref(), "le guin");
    assert_eq!(subscriber.email.as_str(), "ursula_le_guin@gmail.com");
    let e = NewSubscriber::try_from(form("le guin", "ursula")).err().unwrap();
    assert_eq!(e, "ursula is not a valid subscriber email.");
    let e = NewSubscriber::try_from(form(" ", "ursula")).err().unwrap();
    assert_eq!(e, "  is not a valid subscriber name.");
}

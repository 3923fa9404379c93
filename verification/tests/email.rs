use zero2prod::email::{alnum_char, domain_is_valid, email_is_valid, local_char, SubscriberEmail};

#[test]
fn ordinary_addresses_are_valid() {
    for s in [
        "ursula_le_guin@gmail.com",
        "a@b",
        "a.b.c@example.co.uk",
        "first.last+tag@sub-domain.example.org",
        ".dots..anywhere.@localhost",
        "!#$%&'*+/=?^_`{|}~-@example.com",
        "x@1.2.3.4",
        "UPPER@EXAMPLE.COM",
    ] {
        assert!(SubscriberEmail::parse(s.to_string()).is_ok(), "{}", s);
        assert!(email_is_valid(s), "{}", s);
    }
}

#[test]
fn malformed_addresses_are_rejected() {
    for s in [
        "",
        "@",
        "ursuladomain.com",
        "@domain.com",
        "ursula@",
        "a@b@c",
        "a b@example.com",
        "a@exa mple.com",
        "a@.example.com",
        "a@example.com.",
        "a@example..com",
        "a@-example.com",
        "a@example-.com",
        "a@example.-com",
        "a@exam_ple.com",
        "a@[127.0.0.1]",
        "ä@example.com",
        "a@exämple.com",
        "a(b)@example.com",
        "\"a\"@example.com",
    ] {
        assert!(SubscriberEmail::parse(s.to_string()).is_err(), "{}", s);
        assert!(!email_is_valid(s), "{}", s);
    }
}

#[test]
fn a_valid_address_is_kept_as_it_was_given() {
    let email = SubscriberEmail::parse("Ursula@Example.com".to_string()).unwrap();
    assert_eq!(email.as_str(), "Ursula@Example.com");
}

#[test]
fn a_rejected_address_is_quoted_in_the_message() {
    let e = SubscriberEmail::parse("ursula".to_string()).unwrap_err();
    assert_eq!(e, "ursula is not a valid subscriber email.");
}

#[test]
fn a_label_has_at_most_63_characters() {
    let ok = format!("a@{}.com", "x".repeat(63));
    let long = format!("a@{}.com", "x".repeat(64));
    assert!(email_is_valid(&ok));
    assert!(!email_is_valid(&long));
    let ok = format!("a@example.{}", "x".repeat(63));
    let long = format!("a@example.{}", "x".repeat(64));
    assert!(email_is_valid(&ok));
    assert!(!email_is_valid(&long));
    let many = format!("a@{}x", "x.".repeat(200));
    assert!(email_is_valid(&many));
    let hyphens = format!("a@x{}x", "-".repeat(61));
    assert!(email_is_valid(&hyphens));
}

#[test]
fn a_domain_is_checked_from_the_given_position() {
    let chars: Vec<char> = "a@b.c".chars().collect();
    assert!(domain_is_valid(&chars, 2));
    assert!(!domain_is_valid(&chars, 0));
    assert!(!domain_is_valid(&chars, 1));
    assert!(!domain_is_valid(&chars, 3));
    assert!(domain_is_valid(&chars, 4));
    assert!(!domain_is_valid(&chars, 5));
}

#[test]
fn letters_and_digits_are_the_ascii_ones() {
    let mut count = 0;
    for n in 0..=0x10FFFFu32 {
        if let Some(c) = char::from_u32(n) {
            assert_eq!(alnum_char(c), c.is_ascii_alphanumeric());
            if local_char(c) {
                count += 1;
                assert!(c.is_ascii_alphanumeric() || ".!#$%&'*+/=?^_`{|}~-".contains(c));
            }
        }
    }
    assert_eq!(count, 62 + 20);
}

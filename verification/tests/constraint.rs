use game_api::constraint::{Constraint, Error, Username, USERNAME_ERROR, USERNAME_REGEX};

#[test]
fn username_accepts_letters_digits_underscores() {
    let u = Username::create("user1234").unwrap();
    assert_eq!(u.as_str(), "user1234");
    assert!(Username::create("a").is_ok());
    assert!(Username::create("A_b_9").is_ok());
    assert!(Username::create("abcdefghijklmnopqrst").is_ok());
}

#[test]
fn username_refuses_bad_shapes() {
    let expected = Error::new(USERNAME_ERROR);
    assert_eq!(Username::create(""), Err(Error::new(USERNAME_ERROR)));
    assert_eq!(Username::create("1abc"), Err(expected));
    assert!(Username::create("_abc").is_err());
    assert!(Username::create("ab-c").is_err());
    assert!(Username::create("ab c").is_err());
    assert!(Username::create("abcdefghijklmnopqrstu").is_err());
    assert!(Username::create("abc\n").is_err());
}

#[test]
fn username_error_message() {
    let e = Username::create("9").unwrap_err();
    assert_eq!(
        e.message(),
        "username must start with a letter, and contain up to 20 alpha-numeric characters"
    );
}

#[test]
fn username_from_match_follows_the_match() {
    assert_eq!(Username::from_match("xyz", Some(true)).unwrap().as_str(), "xyz");
    assert!(Username::from_match("xyz", Some(false)).is_err());
    assert!(Username::from_match("xyz", None).is_err());
}

#[test]
fn username_parses_with_from_str() {
    let u: Username = "Alice".parse().unwrap();
    assert_eq!(u.as_str(), "Alice");
    assert!("4lice".parse::<Username>().is_err());
}

#[test]
fn username_compares_by_text() {
    let a = Username::create("bob").unwrap();
    let b = Username::from_checked("bob".to_string());
    let c = Username::create("carol").unwrap();
    assert!(a.same_as(&b));
    assert!(!a.same_as(&c));
    assert_eq!(a.clone(), b);
}

#[test]
fn username_rule_is_the_pattern_and_message() {
    let c = Constraint::username();
    assert_eq!(c.regex, r"^[a-zA-Z]\w{0,19}$");
    assert_eq!(c.regex, USERNAME_REGEX);
    assert_eq!(c.error, USERNAME_ERROR);
}

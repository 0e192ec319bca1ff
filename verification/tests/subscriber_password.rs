use chat_app::domain::new_subscriber::{FormSignUpData, NewSubscriber};
use chat_app::domain::subscriber_password::{
    check_password_rules, PasswordVerifyError, SubscriberPassword,
};

#[test]
fn valid_password() {
    assert!(SubscriberPassword::parse("Pass123!".to_string()).is_ok());
    assert!(SubscriberPassword::parse("MyP@ssw0rd".to_string()).is_ok());
}

#[test]
fn empty_password() {
    assert!(SubscriberPassword::parse("".to_string()).is_err());
}

#[test]
fn too_short() {
    assert!(SubscriberPassword::parse("Pass1!".to_string()).is_err());
}

#[test]
fn too_long() {
    let long_pass = "P@ssw0rd".repeat(5); // 40 characters
    assert!(SubscriberPassword::parse(long_pass).is_err());
}

#[test]
fn exactly_8_characters() {
    assert!(SubscriberPassword::parse("Pass12!".to_string()).is_ok());
}

#[test]
fn exactly_32_characters() {
    let pass = "P@ssw0rd".repeat(4); // 32 characters
    assert!(SubscriberPassword::parse(pass).is_ok());
}

#[test]
fn no_uppercase() {
    assert!(SubscriberPassword::parse("pass123!".to_string()).is_err());
}

#[test]
fn no_special_char() {
    assert!(SubscriberPassword::parse("Pass1234".to_string()).is_err());
}

#[test]
fn rule_messages_follow_the_order_of_the_checks() {
    assert_eq!(check_password_rules("").unwrap_err(), "Password cannot be empty");
    assert_eq!(
        check_password_rules("Ab!").unwrap_err(),
        "Password must be at most 32 characters and at least 8 characters long"
    );
    assert_eq!(
        check_password_rules(&"A!".repeat(17)).unwrap_err(),
        "Password must be at most 32 characters and at least 8 characters long"
    );
    assert_eq!(
        check_password_rules("abcdefgh!").unwrap_err(),
        "Password must contain atleast one special character and uppercase character"
    );
    assert_eq!(
        check_password_rules("Abcdefgh1").unwrap_err(),
        "Password must contain atleast one special character and uppercase character"
    );
    assert!(check_password_rules("Abcdefg!").is_ok());
}

#[test]
fn length_is_counted_in_bytes() {
    // 6 characters, 9 bytes: 'É' and '€' take more than one byte each.
    assert!(check_password_rules("Éa€b!c").is_ok());
    // 31 characters but 34 bytes.
    let s = format!("É€{}", "a!".repeat(14) + "b");
    assert_eq!(s.chars().count(), 31);
    assert!(check_password_rules(&s).is_err());
}

#[test]
fn unicode_uppercase_counts() {
    assert!(check_password_rules("Ωmega12!").is_ok());
}

#[test]
fn parsed_password_verifies_against_its_hash() {
    let p = SubscriberPassword::parse("Pass123!".to_string()).unwrap();
    assert_eq!(p.plaintext_password, "Pass123!");
    let hash = String::from_utf8(p.hashed_password.clone()).unwrap();
    assert!(hash.starts_with("$argon2id$v=19$"));
    assert_eq!(SubscriberPassword::verify_password(b"Pass123!", hash.clone()), Ok(true));
    assert_eq!(SubscriberPassword::verify_password(b"Pass123?", hash), Ok(false));
}

#[test]
fn new_hashes_with_a_fresh_salt() {
    let a = SubscriberPassword::new("Secret!1").unwrap();
    let b = SubscriberPassword::new("Secret!1").unwrap();
    assert_ne!(a.hashed_password, b.hashed_password);
}

#[test]
fn malformed_hash_is_an_error() {
    assert_eq!(
        SubscriberPassword::verify_password(b"Pass123!", "not a phc string".to_string()),
        Err(PasswordVerifyError::MalformedHash)
    );
    assert_eq!(
        SubscriberPassword::verify_password(b"Pass123!", String::new()),
        Err(PasswordVerifyError::MalformedHash)
    );
}

#[test]
fn new_subscriber_checks_the_password() {
    let form = FormSignUpData {
        email: "ada@example.com".to_string(),
        first_name: "Ada".to_string(),
        last_name: "Lovelace".to_string(),
        password: "short".to_string(),
    };
    assert_eq!(
        NewSubscriber::try_from_form(form).unwrap_err(),
        "Password must be at most 32 characters and at least 8 characters long"
    );
    let form = FormSignUpData {
        email: "ada@example.com".to_string(),
        first_name: "Ada".to_string(),
        last_name: "Lovelace".to_string(),
        password: "Engine#1".to_string(),
    };
    let s = NewSubscriber::try_from_form(form).unwrap();
    assert_eq!(s.email, "ada@example.com");
    assert_eq!(s.first_name, "Ada");
    assert_eq!(s.last_name, "Lovelace");
    assert_eq!(s.password.plaintext_password, "Engine#1");
}

#[test]
fn from_phc_keeps_the_hash_bytes() {
    let p = SubscriberPassword::from_phc("Secret!1", Some("$argon2id$v=19$abc".to_string())).unwrap();
    assert_eq!(p.plaintext_password, "Secret!1");
    assert_eq!(p.hashed_password, b"$argon2id$v=19$abc".to_vec());
    assert!(SubscriberPassword::from_phc("Secret!1", None).is_none());
}

#[test]
fn parse_with_a_salt_draw() {
    let salt = Some((0u8..16).collect::<Vec<u8>>());
    let p = SubscriberPassword::parse_with_salt("Pass123!".to_string(), salt).unwrap();
    assert_eq!(p.plaintext_password, "Pass123!");
    let hash = String::from_utf8(p.hashed_password).unwrap();
    // The salt is the standard base64 of the bytes, without padding.
    assert!(hash.starts_with("$argon2id$v=19$m=19456,t=2,p=1$AAECAwQFBgcICQoLDA0ODw$"));
    assert_eq!(SubscriberPassword::verify_password(b"Pass123!", hash), Ok(true));
    // A refused draw is a hashing failure, once the rules pass.
    assert_eq!(
        SubscriberPassword::parse_with_salt("Pass123!".to_string(), None).unwrap_err(),
        "Failed to hash password"
    );
    assert_eq!(
        SubscriberPassword::parse_with_salt("Pass123!".to_string(), Some(vec![1u8; 8])).unwrap_err(),
        "Failed to hash password"
    );
    // The rules decide first.
    assert_eq!(
        SubscriberPassword::parse_with_salt("short".to_string(), None).unwrap_err(),
        "Password must be at most 32 characters and at least 8 characters long"
    );
}

#[test]
fn same_salt_same_hash() {
    let a = SubscriberPassword::hash_with_salt("Secret!1", Some(vec![3u8; 16])).unwrap();
    let b = SubscriberPassword::hash_with_salt("Secret!1", Some(vec![3u8; 16])).unwrap();
    assert_eq!(a.hashed_password, b.hashed_password);
    assert!(SubscriberPassword::hash_with_salt("Secret!1", None).is_none());
}

#[test]
fn new_subscriber_with_a_salt_draw() {
    let form = || FormSignUpData {
        email: "ada@example.com".to_string(),
        first_name: "Ada".to_string(),
        last_name: "Lovelace".to_string(),
        password: "Engine#1".to_string(),
    };
    let s = NewSubscriber::try_from_form_with_salt(form(), Some(vec![9u8; 16])).unwrap();
    assert_eq!(s.password.plaintext_password, "Engine#1");
    assert_eq!(
        NewSubscriber::try_from_form_with_salt(form(), None).unwrap_err(),
        "Failed to hash password"
    );
}

#[test]
fn stored_hash_depends_on_the_drawn_salt() {
    let a = SubscriberPassword::hash_with_salt("Secret!1", Some(vec![1u8; 16])).unwrap();
    let b = SubscriberPassword::hash_with_salt("Secret!1", Some(vec![2u8; 16])).unwrap();
    assert_ne!(a.hashed_password, b.hashed_password);
    let a = String::from_utf8(a.hashed_password).unwrap();
    // The salt field is the base64 of the drawn bytes.
    assert!(a.starts_with("$argon2id$v=19$m=19456,t=2,p=1$AQEBAQEBAQEBAQEBAQEBAQ$"));
}

#[test]
fn hash_not_starting_with_dollar_is_malformed() {
    assert_eq!(
        SubscriberPassword::verify_password(b"x", "argon2id$v=19$".to_string()),
        Err(PasswordVerifyError::MalformedHash)
    );
}

use auth_service::{Email, LoginAttemptId, ParseError, Password, TwoFACode};
use uuid::Uuid;

#[test]
fn email_empty_string_is_rejected() {
    let email = "".to_string();
    assert!(Email::parse(email).is_err());
}

#[test]
fn email_missing_at_symbol_is_rejected() {
    let email = "ursuladomain.com".to_string();
    assert!(Email::parse(email).is_err());
}

#[test]
fn email_missing_subject_is_rejected() {
    let email = "@domain.com".to_string();
    assert!(Email::parse(email).is_err());
}

#[test]
fn valid_email_is_kept_unchanged() {
    for raw in ["a@x.com", "Test.User@Example.com", "user+tag@sub.domain.org"] {
        let email = Email::parse(raw.to_string()).unwrap();
        assert_eq!(email.as_ref(), raw);
    }
}

#[test]
fn invalid_email_reports_invalid_email() {
    assert!(matches!(Email::parse("no-at-sign".to_string()), Err(ParseError::InvalidEmail)));
}

#[test]
fn password_empty_string_is_rejected() {
    let password = "".to_string();
    assert!(Password::parse(password).is_err());
}

#[test]
fn string_less_than_8_characters_is_rejected() {
    let password = "1234567".to_string();
    assert!(Password::parse(password).is_err());
}

#[test]
fn password_of_eight_or_more_bytes_round_trips() {
    for raw in ["12345678", "password123", "a much longer pass phrase with spaces"] {
        let password = Password::parse(raw.to_string()).unwrap();
        assert_eq!(password.as_ref(), raw);
    }
    assert!(matches!(Password::parse("short".to_string()), Err(ParseError::PasswordTooShort)));
}

#[test]
fn password_length_counts_bytes() {
    // four two-byte characters make eight bytes
    assert!(Password::parse("éééé".to_string()).is_ok());
    assert!(Password::parse("ééé".to_string()).is_err());
}

#[test]
fn test_login_attempt_id_parse_valid_uuid() {
    let valid_uuid = Uuid::new_v4().to_string();

    let result = LoginAttemptId::parse(&valid_uuid);

    assert!(result.is_ok());
    assert_eq!(result.unwrap().as_ref(), valid_uuid.as_str());
}

#[test]
fn test_login_attempt_id_parse_invalid_uuid() {
    let invalid_uuid = "not-a-uuid".to_string();

    let result = LoginAttemptId::parse(&invalid_uuid);

    assert!(result.is_err());
}

#[test]
fn test_login_attempt_id_default() {
    let id = LoginAttemptId::default();

    assert!(Uuid::parse_str(id.as_ref()).is_ok());
    assert_eq!(Uuid::parse_str(id.as_ref()).unwrap().get_version_num(), 4);
    assert_eq!(id.as_ref().len(), 36);
    assert_eq!(&id.as_ref()[14..15], "4");
    assert!(LoginAttemptId::parse(id.as_ref()).unwrap() == id);
}

#[test]
fn test_login_attempt_id_as_ref() {
    let uuid_str = Uuid::new_v4().to_string();
    let id = LoginAttemptId::parse(&uuid_str).unwrap();

    let result = id.as_ref();

    assert_eq!(result, uuid_str.as_str());
}

#[test]
fn login_attempt_id_is_kept_in_hyphenated_form() {
    let id = LoginAttemptId::parse("67E55044-10B1-426F-9247-BB680E5FE0C8").unwrap();
    assert_eq!(id.as_ref(), "67e55044-10b1-426f-9247-bb680e5fe0c8");
    let simple = LoginAttemptId::parse("67e5504410b1426f9247bb680e5fe0c8").unwrap();
    assert_eq!(simple.as_ref(), "67e55044-10b1-426f-9247-bb680e5fe0c8");
}

#[test]
fn test_parse_valid_code() {
    let valid_code = "123456";

    let result = TwoFACode::parse(valid_code);

    assert!(result.is_ok());
    assert_eq!(result.unwrap().as_ref(), "123456");
}

#[test]
fn test_parse_invalid_length() {
    let short_code = "12345";
    let long_code = "1234567";

    let short_result = TwoFACode::parse(short_code);
    let long_result = TwoFACode::parse(long_code);

    assert!(short_result.is_err());
    assert!(long_result.is_err());
}

#[test]
fn test_parse_non_digits() {
    let invalid_code = "12345a";

    let result = TwoFACode::parse(invalid_code);

    assert!(result.is_err());
}

#[test]
fn two_fa_code_with_leading_zeros_is_accepted() {
    assert_eq!(TwoFACode::parse("000000").unwrap().as_ref(), "000000");
    assert_eq!(TwoFACode::parse("012345").unwrap().as_ref(), "012345");
    assert!(matches!(TwoFACode::parse("12 456"), Err(ParseError::InvalidTwoFACode)));
    assert!(TwoFACode::parse("１２３４５６").is_err());
}

#[test]
fn test_default_generates_valid_code() {
    let code = TwoFACode::default();

    assert_eq!(code.as_ref().len(), 6);
    assert!(code.as_ref().chars().all(|c| c.is_ascii_digit()));
}

#[test]
fn test_as_ref() {
    let code = "987654";
    let parsed_code = TwoFACode::parse(code).unwrap();

    let reference = parsed_code.as_ref();

    assert_eq!(reference, code);
}

#[test]
fn domain_values_compare_by_content() {
    let a = Email::parse("a@x.com".to_string()).unwrap();
    let b = Email::parse("a@x.com".to_string()).unwrap();
    let c = Email::parse("A@x.com".to_string()).unwrap();
    assert!(a == b);
    assert!(a != c);
    assert!(a.clone() == a);
    assert!(TwoFACode::parse("123456").unwrap() == TwoFACode::parse("123456").unwrap());
    assert!(TwoFACode::parse("123456").unwrap() != TwoFACode::parse("123457").unwrap());
}

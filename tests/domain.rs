use auth_service::decimal::{read_digits, u32_to_decimal};
use auth_service::email::Email;
use auth_service::errors::ValidationError;
use auth_service::login_attempt_id::LoginAttemptId;
use auth_service::password::Password;
use auth_service::two_fa_code::TwoFACode;

#[test]
fn password_shorter_than_eight_chars_is_refused() {
    for s in ["", "a", "1234567", "ééééééé"] {
        assert_eq!(Password::parse(s.to_string()), Err(ValidationError::PasswordTooShort));
    }
}

#[test]
fn password_of_eight_chars_or_more_round_trips() {
    for s in ["12345678", "password123", "éééééééé"] {
        let p = Password::parse(s.to_string()).expect("accepted");
        assert_eq!(p.as_str(), s);
    }
}

#[test]
fn password_length_counts_chars_not_bytes() {
    // seven characters, fourteen bytes
    assert_eq!(
        Password::parse("ééééééé".to_string()),
        Err(ValidationError::PasswordTooShort)
    );
}

#[test]
fn two_fa_code_outside_range_is_refused() {
    for n in [-1i64, 0, 99999, 1000000, 4294967296, -123456] {
        assert!(TwoFACode::parse(n.to_string()).is_err(), "accepted {}", n);
    }
    assert_eq!(TwoFACode::parse("012345".to_string()), Err(ValidationError::OutOfRangeCode));
    assert_eq!(TwoFACode::parse("000000".to_string()), Err(ValidationError::OutOfRangeCode));
}

#[test]
fn two_fa_code_must_be_exactly_six_digits() {
    for s in ["99999", "1000000", "+123456", "0123456", " 123456", "123456 "] {
        assert_eq!(TwoFACode::parse(s.to_string()), Err(ValidationError::MalformedCode), "{:?}", s);
    }
}

#[test]
fn two_fa_code_in_range_is_accepted() {
    for n in [100000u32, 123456, 999999] {
        let c = TwoFACode::parse(n.to_string()).expect("accepted");
        assert_eq!(c.as_str(), n.to_string());
    }
}

#[test]
fn two_fa_code_that_is_not_a_number_is_malformed() {
    for s in ["", "+", "abcdef", "12 345", "-12345", "4294967296", "１２３４５６"] {
        assert_eq!(TwoFACode::parse(s.to_string()), Err(ValidationError::MalformedCode));
    }
}

#[test]
fn generated_two_fa_code_is_six_digits_in_range() {
    for _ in 0..20 {
        let c = TwoFACode::default();
        assert_eq!(c.as_str().len(), 6);
        let v: u32 = c.as_str().parse().unwrap();
        assert!((100000..=999999).contains(&v));
        assert!(TwoFACode::parse(c.as_str().to_string()).is_ok());
    }
}

#[test]
fn read_digits_reads_only_digit_runs() {
    assert_eq!(read_digits("0"), Some(0));
    assert_eq!(read_digits("007"), Some(7));
    assert_eq!(read_digits("999999999"), Some(999999999));
    for s in ["", "+1", "-1", "12a", " 1"] {
        assert_eq!(read_digits(s), None, "on {:?}", s);
    }
}

#[test]
fn u32_to_decimal_matches_std() {
    for n in [0u32, 9, 10, 100000, 999999, u32::MAX] {
        assert_eq!(u32_to_decimal(n), n.to_string());
    }
}

#[test]
fn email_parse_accepts_addresses_and_refuses_others() {
    let e = Email::parse("bob@example.com".to_string()).expect("valid");
    assert_eq!(e.as_str(), "bob@example.com");
    for s in ["", "bob", "@example.com", "bob@", "bob example.com"] {
        assert_eq!(Email::parse(s.to_string()), Err(ValidationError::MalformedEmail), "{:?}", s);
    }
}

#[test]
fn login_attempt_id_is_read_in_canonical_form() {
    let id = LoginAttemptId::parse("67E55044-10B1-426F-9247-BB680E5FE0C8".to_string())
        .expect("valid uuid");
    assert_eq!(id.as_str(), "67e55044-10b1-426f-9247-bb680e5fe0c8");
}

#[test]
fn malformed_login_attempt_id_is_refused() {
    assert_eq!(
        LoginAttemptId::parse("not-a-uuid".to_string()),
        Err(ValidationError::MalformedLoginAttemptId)
    );
}

#[test]
fn generated_login_attempt_ids_parse_back_and_differ() {
    let a = LoginAttemptId::default();
    let b = LoginAttemptId::default();
    assert_ne!(a, b);
    let again = LoginAttemptId::parse(a.as_str().to_string()).expect("valid");
    assert_eq!(again, a);
}

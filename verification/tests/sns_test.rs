use growl_auth::interface::{AuthenticationError, OTPService};
use growl_auth::otp::SNSService;

fn setup_sns_service() -> SNSService {
    SNSService::new()
}

fn reason(result: Result<(), AuthenticationError>) -> String {
    match result {
        Err(AuthenticationError::InvalidFormat(m)) => m,
        other => panic!("expected an invalid format, got {:?}", other),
    }
}

#[test]
fn test_valid_phone_numbers() {
    let service = setup_sns_service();
    let valid_numbers = vec!["+819012345678", "+12065550100", "+441234567890"];

    for num in valid_numbers {
        assert!(
            service.validation_user_name(num).is_ok(),
            "Expected phone number {} to be valid",
            num
        );
    }
}

#[test]
fn test_invalid_phone_numbers() {
    let service = setup_sns_service();
    let invalid_cases = vec![
        ("", "empty string"),
        ("819012345678", "missing + prefix"),
        ("+81-90-1234-5678", "contains non-digits (hyphens)"),
        ("+81 90 1234 5678", "contains spaces"),
        ("+ABCDEFGHIJKL", "contains alphabets"),
    ];

    for (num, reason) in invalid_cases {
        let result = service.validation_user_name(num);
        assert!(
            result.is_err(),
            "Expected phone number '{}' to be invalid because {}",
            num,
            reason
        );
    }
}

#[test]
fn test_phone_number_length() {
    let service = setup_sns_service();

    // Too short
    assert!(service.validation_user_name("+123").is_err());

    // Too long (over 16 chars including +)
    assert!(service.validation_user_name("+1234567890123456").is_err()); // 17 chars
}

#[test]
fn phone_rejections_name_the_first_failed_check() {
    let service = setup_sns_service();
    assert_eq!(reason(service.validation_user_name("+123")), "Phone number length is invalid");
    assert_eq!(reason(service.validation_user_name("819012345678")), "Phone number must start with '+' (E.164 format)");
    assert_eq!(reason(service.validation_user_name("+ABCDEFGHIJKL")), "Phone number must contain only digits after '+'");
    assert_eq!(reason(service.validation_user_name("+81 90 1234 5678")), "Phone number must contain only digits after '+'");
    assert_eq!(reason(service.validation_user_name("+81-90-12345")), "Phone number must contain only digits after '+'");
}

#[test]
fn phone_length_bounds_are_inclusive() {
    let service = setup_sns_service();
    assert!(service.validation_user_name("+1234").is_ok()); // 5 bytes
    assert!(service.validation_user_name("+123456789012345").is_ok()); // 16 bytes
    assert!(service.validation_user_name("++++1").is_err());
}

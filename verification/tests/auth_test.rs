use growl_auth::cognito::sign_up_call;
use growl_auth::interface::{AuthenticationError, AuthenticationMethod};

#[test]
fn test_sign_up_unsupported_method() {
    let method = AuthenticationMethod::Google {
        id_token: "fake-token".to_string(),
    };

    // Google signup is not implemented yet
    let result = sign_up_call(&method);
    assert!(result.is_err());
    match result {
        Err(AuthenticationError::Unexpected(m)) => assert_eq!(m, "Method not supported for sign_up"),
        other => panic!("unexpected {:?}", other),
    }
}

use oci_bindings::auth::{
    anonymous_auth, basic_auth, bearer_auth, AuthError, Credential, RegistryAuth, RegistryAuthType,
};

#[test]
fn anonymous_resolves_to_anonymous() {
    let auth = anonymous_auth();
    assert_eq!(auth.auth_type, RegistryAuthType::Anonymous);
    assert!(auth.username.is_none() && auth.password.is_none() && auth.token.is_none());
    assert!(matches!(auth.to_native(), Ok(Credential::Anonymous)));
}

#[test]
fn basic_resolves_to_username_and_password() {
    let auth = basic_auth("alice".to_string(), "s3cret".to_string());
    assert_eq!(auth.auth_type, RegistryAuthType::Basic);
    assert!(auth.token.is_none());
    match auth.to_native() {
        Ok(Credential::Basic(u, p)) => {
            assert_eq!(u, "alice");
            assert_eq!(p, "s3cret");
        }
        other => panic!("unexpected {:?}", other),
    }
}

#[test]
fn bearer_resolves_to_token() {
    let auth = bearer_auth("tok".to_string());
    assert_eq!(auth.auth_type, RegistryAuthType::Bearer);
    assert!(auth.username.is_none() && auth.password.is_none());
    match auth.to_native() {
        Ok(Credential::Bearer(t)) => assert_eq!(t, "tok"),
        other => panic!("unexpected {:?}", other),
    }
}

#[test]
fn basic_without_username_is_rejected() {
    let auth = RegistryAuth {
        auth_type: RegistryAuthType::Basic,
        username: None,
        password: Some("p".to_string()),
        token: None,
    };
    assert!(matches!(auth.to_native(), Err(AuthError::MissingUsername)));
}

#[test]
fn basic_without_anything_reports_username_first() {
    let auth = RegistryAuth {
        auth_type: RegistryAuthType::Basic,
        username: None,
        password: None,
        token: Some("ignored".to_string()),
    };
    assert!(matches!(auth.to_native(), Err(AuthError::MissingUsername)));
}

#[test]
fn basic_without_password_is_rejected() {
    let auth = RegistryAuth {
        auth_type: RegistryAuthType::Basic,
        username: Some("u".to_string()),
        password: None,
        token: None,
    };
    assert!(matches!(auth.to_native(), Err(AuthError::MissingPassword)));
}

#[test]
fn bearer_without_token_is_rejected() {
    let auth = RegistryAuth {
        auth_type: RegistryAuthType::Bearer,
        username: Some("u".to_string()),
        password: Some("p".to_string()),
        token: None,
    };
    assert!(matches!(auth.to_native(), Err(AuthError::MissingToken)));
}

#[test]
fn inactive_fields_are_ignored() {
    let auth = RegistryAuth {
        auth_type: RegistryAuthType::Anonymous,
        username: Some("u".to_string()),
        password: None,
        token: Some("t".to_string()),
    };
    assert!(matches!(auth.to_native(), Ok(Credential::Anonymous)));
    let auth = RegistryAuth {
        auth_type: RegistryAuthType::Bearer,
        username: Some("u".to_string()),
        password: None,
        token: Some("t".to_string()),
    };
    match auth.to_native() {
        Ok(Credential::Bearer(t)) => assert_eq!(t, "t"),
        other => panic!("unexpected {:?}", other),
    }
}

#[test]
fn auth_error_messages() {
    assert_eq!(AuthError::MissingUsername.message(), "username required for Basic auth");
    assert_eq!(AuthError::MissingPassword.message(), "password required for Basic auth");
    assert_eq!(AuthError::MissingToken.message(), "token required for Bearer auth");
}

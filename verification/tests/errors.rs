use hc_vault::Auth;

#[test]
fn status_code_mapping() {
    assert!(matches!(
        hc_vault::Error::from_status_code(400),
        hc_vault::Error::InvalidRequest
    ));
    assert!(matches!(
        hc_vault::Error::from_status_code(403),
        hc_vault::Error::Unauthorized
    ));
    assert!(matches!(
        hc_vault::Error::from_status_code(404),
        hc_vault::Error::NotFound
    ));
    assert!(matches!(
        hc_vault::Error::from_status_code(503),
        hc_vault::Error::IsSealed
    ));
    assert!(matches!(
        hc_vault::Error::from_status_code(500),
        hc_vault::Error::Other
    ));
    assert!(matches!(
        hc_vault::Error::from_status_code(999),
        hc_vault::Error::Other
    ));
    assert!(matches!(
        hc_vault::Error::from_status_code(401),
        hc_vault::Error::Other
    ));
}

#[test]
fn error_descriptions() {
    assert_eq!(
        hc_vault::Error::InvalidRequest.describe(),
        "Invalid Request: Invalid or Missing data".to_string()
    );
    assert_eq!(hc_vault::Error::NotFound.describe(), "Not Found".to_string());
    assert_eq!(
        hc_vault::Error::Unauthorized.describe(),
        "Unauthorized".to_string()
    );
    assert_eq!(
        hc_vault::Error::SessionExpired.describe(),
        "Session has expired, no auto login".to_string()
    );
    assert_eq!(hc_vault::Error::Other.describe(), "Unknown error".to_string());
    assert_eq!(
        hc_vault::RenewError::NotEnabled.describe(),
        "The Renew Policy is not enabled".to_string()
    );
    assert_eq!(
        hc_vault::RenewError::NotRenewable.describe(),
        "The current session can not be renewed".to_string()
    );
}

#[test]
fn malformed_base_url_is_a_parse_error() {
    let mut approle =
        hc_vault::approle::Session::new("testID".to_string(), "testSecret".to_string()).unwrap();
    assert!(matches!(
        approle.auth("not a url"),
        Err(hc_vault::Error::ParseError(_))
    ));
    assert!(matches!(
        approle.renew("not a url"),
        Err(hc_vault::Error::ParseError(_))
    ));

    let mut kubernetes =
        hc_vault::kubernetes::Session::new("testRole".to_string(), "testJWT".to_string()).unwrap();
    assert!(matches!(
        kubernetes.auth("::missing-scheme"),
        Err(hc_vault::Error::ParseError(_))
    ));
    assert!(matches!(
        kubernetes.renew("::missing-scheme"),
        Err(hc_vault::Error::ParseError(_))
    ));
}

#[test]
fn default_config_is_local_reauth() {
    let config = hc_vault::Config::default();
    assert_eq!(config.vault_url, "http://localhost:8200".to_string());
    assert!(matches!(config.renew_policy, hc_vault::RenewPolicy::Reauth));
}

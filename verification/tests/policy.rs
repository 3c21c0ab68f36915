#[test]
fn renew_not_enabled() {
    let auth = hc_vault::token::Session::new("testToken".to_string(), 120).unwrap();
    let config = hc_vault::Config {
        vault_url: "http://localhost:8200".to_string(),
        renew_policy: hc_vault::RenewPolicy::Reauth,
    };
    let client = hc_vault::Client::new(config, auth).unwrap();

    match client.renew_wait() {
        Ok(_) => {
            assert!(false);
        }
        Err(e) => {
            if let hc_vault::RenewError::NotEnabled = e {
                assert!(true);
                return;
            }

            assert!(false, "Wrong error returned: {}", e.describe());
        }
    }
}

#[test]
fn renew_cant_renew() {
    let auth = hc_vault::token::Session::new("testToken".to_string(), 120).unwrap();
    let config = hc_vault::Config {
        vault_url: "http://localhost:8200".to_string(),
        renew_policy: hc_vault::RenewPolicy::Renew(75),
    };
    let client = hc_vault::Client::new(config, auth).unwrap();

    match client.renew_wait() {
        Ok(_) => {
            assert!(false);
        }
        Err(e) => {
            if let hc_vault::RenewError::NotRenewable = e {
                assert!(true);
                return;
            }

            assert!(false, "Wrong error returned: {}", e.describe());
        }
    }
}

#[test]
fn renew_wait_leaves_threshold_remaining() {
    // A 60 second lease with 75 percent required to remain waits 15
    // seconds: neither zero nor the whole lease.
    assert_eq!(hc_vault::renew_wait_seconds(60, 75), 15);
    assert_eq!(hc_vault::renew_wait_seconds(3600, 75), 900);
    assert_eq!(hc_vault::renew_wait_seconds(3600, 25), 2700);
    assert_eq!(hc_vault::renew_wait_seconds(60, 100), 0);
    assert_eq!(hc_vault::renew_wait_seconds(60, 0), 60);
    assert_eq!(hc_vault::renew_wait_seconds(0, 50), 0);
    assert_eq!(hc_vault::renew_wait_seconds(10, 75), 2);
}

#[test]
fn disabled_policy_returns_session_expired_without_network() {
    // A zero-duration token is expired at once; under the `Nothing` policy
    // every check reports the expiry and performs no recovery. No server
    // exists here at all, so any attempted call would fail loudly.
    let auth = hc_vault::token::Session::new("testToken".to_string(), 0).unwrap();
    let config = hc_vault::Config {
        vault_url: "http://localhost:8200".to_string(),
        renew_policy: hc_vault::RenewPolicy::Nothing,
    };
    let mut client = hc_vault::Client::new(config, auth).unwrap();

    assert!(matches!(
        client.check_session(),
        Err(hc_vault::Error::SessionExpired)
    ));
    assert!(matches!(
        client.check_session(),
        Err(hc_vault::Error::SessionExpired)
    ));
}

#[test]
fn renew_policy_request_path_reports_session_expired() {
    // The `Renew` policy leaves recovery to the background loop: an
    // expired session on the request path is reported, not re-established.
    let auth = hc_vault::token::Session::new("testToken".to_string(), 0).unwrap();
    let config = hc_vault::Config {
        vault_url: "http://localhost:8200".to_string(),
        renew_policy: hc_vault::RenewPolicy::Renew(75),
    };
    let mut client = hc_vault::Client::new(config, auth).unwrap();

    assert!(matches!(
        client.check_session(),
        Err(hc_vault::Error::SessionExpired)
    ));
}

#[test]
fn reauth_policy_dispatches_to_backend() {
    // Under `Reauth` an expired session is handed to the backend's login;
    // the plain token backend re-authenticates trivially, so the check
    // succeeds without any network.
    let auth = hc_vault::token::Session::new("testToken".to_string(), 0).unwrap();
    let config = hc_vault::Config {
        vault_url: "http://localhost:8200".to_string(),
        renew_policy: hc_vault::RenewPolicy::Reauth,
    };
    let mut client = hc_vault::Client::new(config, auth).unwrap();

    assert!(matches!(client.check_session(), Ok(())));
    assert_eq!(client.get_token(), String::from("testToken"));
}

#[test]
fn valid_session_passes_check_unchanged() {
    let auth = hc_vault::token::Session::new("testToken".to_string(), 120).unwrap();
    let config = hc_vault::Config {
        vault_url: "http://localhost:8200".to_string(),
        ..Default::default()
    };
    let mut client = hc_vault::Client::new(config, auth).unwrap();

    assert!(matches!(client.check_session(), Ok(())));
    assert_eq!(client.get_token(), String::from("testToken"));
    assert_eq!(client.is_expired(), false);
}

use hc_vault::Auth;

fn test_runtime() -> tokio::runtime::Runtime {
    tokio::runtime::Builder::new_multi_thread()
        .enable_all()
        .build()
        .unwrap()
}

#[test]
fn is_expired_false() {
    let session = hc_vault::token::Session::new("testToken".to_string(), 100).unwrap();
    assert_eq!(false, session.is_expired());
}

#[test]
fn is_expired_true() {
    let rt = test_runtime();
    let session = hc_vault::token::Session::new("testToken".to_string(), 1).unwrap();

    rt.block_on(async { tokio::time::sleep(std::time::Duration::from_secs(3)).await });

    assert_eq!(true, session.is_expired());
}

#[test]
fn expiry_boundary() {
    let before = hc_vault::internals::now_timestamp();

    let session = hc_vault::token::Session::new("t".to_string(), 1000).unwrap();
    assert_eq!(session.is_expired(), false);
    assert_eq!(session.expired_at(before), false);
    assert_eq!(session.expired_at(before + 2000), true);

    let expired_session = hc_vault::token::Session::new("t".to_string(), 0).unwrap();
    assert_eq!(expired_session.is_expired(), true);
}

#[test]
fn fresh_approle_session_starts_expired_and_empty() {
    let session =
        hc_vault::approle::Session::new("testID".to_string(), "testSecret".to_string()).unwrap();
    assert_eq!(session.is_expired(), true);
    assert_eq!(session.get_token(), String::from(""));
    assert_eq!(session.is_renewable(), false);
    assert_eq!(session.get_total_duration(), 0);
}

#[test]
fn fresh_kubernetes_session_starts_expired_and_empty() {
    let session =
        hc_vault::kubernetes::Session::new("testRole".to_string(), "testJWT".to_string()).unwrap();
    assert_eq!(session.is_expired(), true);
    assert_eq!(session.get_token(), String::from(""));
    assert_eq!(session.is_renewable(), false);
    assert_eq!(session.get_total_duration(), 0);
}

#[test]
fn token_session_auth_and_renew_are_noops() {
    let mut session = hc_vault::token::Session::new("testToken".to_string(), 120).unwrap();

    assert!(matches!(session.auth("http://localhost:8200"), Ok(())));
    assert!(matches!(session.renew("http://localhost:8200"), Ok(())));

    assert_eq!(session.get_token(), String::from("testToken"));
    assert_eq!(session.get_total_duration(), 120);
    assert_eq!(session.is_renewable(), false);
    assert_eq!(session.is_expired(), false);
}

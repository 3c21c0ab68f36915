use hc_vault::Auth;
use hc_vault::HttpResponse;

fn test_runtime() -> tokio::runtime::Runtime {
    tokio::runtime::Builder::new_multi_thread()
        .enable_all()
        .build()
        .unwrap()
}

fn login_response(status: u16, renewable: bool, lease_duration: u64, token: &str) -> HttpResponse {
    HttpResponse {
        status,
        body: format!(
            "{{\"auth\":{{\"renewable\":{},\"lease_duration\":{},\"token_policies\":[\"test\"],\
             \"accessor\":\"testAccessor\",\"client_token\":\"{}\"}},\
             \"lease_duration\":0,\"renewable\":false,\"lease_id\":\"\"}}",
            renewable, lease_duration, token
        ),
    }
}

fn renew_response(status: u16, renewable: bool, lease_duration: u64, token: &str) -> HttpResponse {
    HttpResponse {
        status,
        body: format!(
            "{{\"auth\":{{\"renewable\":{},\"lease_duration\":{},\"policies\":[\"test\"],\
             \"client_token\":\"{}\"}}}}",
            renewable, lease_duration, token
        ),
    }
}

#[test]
fn successful_login_stores_the_issued_credential() {
    let mut session =
        hc_vault::approle::Session::new("testID".to_string(), "testSecret".to_string()).unwrap();
    assert_eq!(session.is_expired(), true);

    let result = session.apply_login_response(login_response(200, true, 120, "testToken"));
    assert!(matches!(result, Ok(())));
    assert_eq!(session.get_token(), "testToken".to_string());
    assert_eq!(session.get_total_duration(), 120);
    assert_eq!(session.is_renewable(), true);
    assert_eq!(session.is_expired(), false);
}

#[test]
fn failed_login_leaves_the_credential_untouched() {
    let mut session =
        hc_vault::approle::Session::new("testID".to_string(), "testSecret".to_string()).unwrap();

    let not_found = session.apply_login_response(HttpResponse {
        status: 404,
        body: String::new(),
    });
    assert!(matches!(not_found, Err(hc_vault::Error::NotFound)));

    let forbidden = session.apply_login_response(HttpResponse {
        status: 403,
        body: String::new(),
    });
    assert!(matches!(forbidden, Err(hc_vault::Error::Unauthorized)));

    let undecodable = session.apply_login_response(HttpResponse {
        status: 200,
        body: "not json".to_string(),
    });
    assert!(matches!(undecodable, Err(hc_vault::Error::Other)));

    assert_eq!(session.get_token(), String::from(""));
    assert_eq!(session.get_total_duration(), 0);
    assert_eq!(session.is_expired(), true);
}

#[test]
fn successful_renew_refreshes_the_window_and_keeps_the_token() {
    let mut session =
        hc_vault::approle::Session::new("testID".to_string(), "testSecret".to_string()).unwrap();
    session
        .apply_login_response(login_response(200, true, 10, "testToken"))
        .unwrap();

    // The renew response names another token; the lease it extends belongs
    // to the token the call was made with, so that one is kept.
    let result = session.apply_renew_response(renew_response(200, false, 120, "otherToken"));
    assert!(matches!(result, Ok(())));
    assert_eq!(session.get_token(), "testToken".to_string());
    assert_eq!(session.get_total_duration(), 120);
    assert_eq!(session.is_renewable(), false);
}

#[test]
fn failed_renew_leaves_the_credential_untouched() {
    let mut session =
        hc_vault::approle::Session::new("testID".to_string(), "testSecret".to_string()).unwrap();
    session
        .apply_login_response(login_response(200, true, 10, "testToken"))
        .unwrap();

    let sealed = session.apply_renew_response(HttpResponse {
        status: 503,
        body: String::new(),
    });
    assert!(matches!(sealed, Err(hc_vault::Error::IsSealed)));
    assert_eq!(session.get_token(), "testToken".to_string());
    assert_eq!(session.get_total_duration(), 10);
    assert_eq!(session.is_renewable(), true);
}

#[test]
fn applied_login_expires_after_its_lease() {
    let rt = test_runtime();
    let mut session =
        hc_vault::approle::Session::new("testID".to_string(), "testSecret".to_string()).unwrap();
    session
        .apply_login_response(login_response(200, true, 1, "testToken"))
        .unwrap();
    assert_eq!(session.is_expired(), false);

    rt.block_on(async { tokio::time::sleep(std::time::Duration::from_secs(3)).await });

    assert_eq!(session.is_expired(), true);
}

#[test]
fn kubernetes_login_and_renew_apply_the_same_way() {
    let mut session =
        hc_vault::kubernetes::Session::new("testRole".to_string(), "testJWT".to_string()).unwrap();

    let login = session.apply_login_response(login_response(200, true, 120, "testToken"));
    assert!(matches!(login, Ok(())));
    assert_eq!(session.get_token(), "testToken".to_string());
    assert_eq!(session.get_total_duration(), 120);
    assert_eq!(session.is_expired(), false);

    let renew = session.apply_renew_response(renew_response(200, true, 200, "testToken"));
    assert!(matches!(renew, Ok(())));
    assert_eq!(session.get_token(), "testToken".to_string());
    assert_eq!(session.get_total_duration(), 200);

    let rejected = session.apply_login_response(HttpResponse {
        status: 404,
        body: String::new(),
    });
    assert!(matches!(rejected, Err(hc_vault::Error::NotFound)));
    assert_eq!(session.get_token(), "testToken".to_string());
}

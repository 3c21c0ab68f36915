fn test_runtime() -> tokio::runtime::Runtime {
    tokio::runtime::Builder::new_multi_thread()
        .enable_all()
        .build()
        .unwrap()
}

fn make_shared(
    duration: u64,
    policy: hc_vault::RenewPolicy,
) -> hc_vault::SharedClient<hc_vault::token::Session> {
    let auth = hc_vault::token::Session::new("testToken".to_string(), duration).unwrap();
    let config = hc_vault::Config {
        vault_url: "http://localhost:8200".to_string(),
        renew_policy: policy,
    };
    let client = hc_vault::Client::new(config, auth).unwrap();
    hc_vault::SharedClient::new(client)
}

#[test]
fn concurrent_readers_of_a_valid_session() {
    // Five threads read and check one shared, valid session at once: every
    // reader sees the whole published credential, and nobody blocks. The
    // original race of many callers against an expired credential and a
    // login endpoint counting calls needs a live mock server, which this
    // environment cannot run.
    let rt = test_runtime();
    let shared = std::sync::Arc::new(make_shared(120, hc_vault::RenewPolicy::Reauth));
    let barrier = std::sync::Arc::new(std::sync::Barrier::new(5));

    let mut handles = Vec::new();
    for _ in 0..5 {
        let c = std::sync::Arc::clone(&barrier);
        let c_client = std::sync::Arc::clone(&shared);

        handles.push(rt.handle().spawn_blocking(move || {
            c.wait();
            assert_eq!(c_client.get_token(), String::from("testToken"));
            assert_eq!(c_client.is_expired(), false);
            match c_client.check_session() {
                Err(e) => {
                    assert!(false, "Should not return error {}", e.describe());
                }
                Ok(_) => {}
            };
        }));
    }

    for handle in handles {
        rt.block_on(handle).unwrap();
    }

    assert_eq!(shared.get_token(), String::from("testToken"));
}

#[test]
fn expired_session_reported_from_every_thread() {
    let rt = test_runtime();
    let shared = std::sync::Arc::new(make_shared(0, hc_vault::RenewPolicy::Nothing));

    let mut handles = Vec::new();
    for _ in 0..4 {
        let c_client = std::sync::Arc::clone(&shared);
        handles.push(rt.handle().spawn_blocking(move || {
            assert_eq!(c_client.is_expired(), true);
            assert!(matches!(
                c_client.check_session(),
                Err(hc_vault::Error::SessionExpired)
            ));
        }));
    }

    for handle in handles {
        rt.block_on(handle).unwrap();
    }
}

#[test]
fn shared_renew_decisions_match_the_policy() {
    let reauth = make_shared(120, hc_vault::RenewPolicy::Reauth);
    assert!(matches!(
        reauth.renew_wait(),
        Err(hc_vault::RenewError::NotEnabled)
    ));

    let renew = make_shared(120, hc_vault::RenewPolicy::Renew(75));
    assert!(matches!(
        renew.renew_wait(),
        Err(hc_vault::RenewError::NotRenewable)
    ));
    // The plain token backend renews trivially.
    assert!(matches!(renew.renew_now(), Ok(())));
}

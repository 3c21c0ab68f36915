use hc_vault::approle::ApproleLogin;
use hc_vault::approle::ApproleOptions;
use hc_vault::kubernetes::KubernetesLogin;
use hc_vault::kv2::Configuration;

#[test]
fn approle_login_body_is_the_pair_as_json() {
    let login = ApproleLogin {
        role_id: "testID".to_string(),
        secret_id: "testSecret".to_string(),
    };
    assert_eq!(
        hc_vault::approle::login_body(&login),
        "{\"role_id\":\"testID\",\"secret_id\":\"testSecret\"}".to_string()
    );
}

#[test]
fn kubernetes_login_body_is_role_and_jwt_as_json() {
    let login = KubernetesLogin {
        role: "testRole".to_string(),
        jwt: "testJWT".to_string(),
    };
    assert_eq!(
        hc_vault::kubernetes::login_body(&login),
        "{\"role\":\"testRole\",\"jwt\":\"testJWT\"}".to_string()
    );
}

#[test]
fn configuration_body_holds_exactly_the_set_options() {
    let none = Configuration {
        cas_required: None,
        delete_version_after: None,
        max_versions: None,
    };
    assert_eq!(hc_vault::kv2::configuration_body(&none), "{}".to_string());

    let only_max = Configuration {
        cas_required: None,
        delete_version_after: None,
        max_versions: Some(13),
    };
    assert_eq!(
        hc_vault::kv2::configuration_body(&only_max),
        "{\"max_versions\":13}".to_string()
    );

    let only_cas = Configuration {
        cas_required: Some(true),
        delete_version_after: None,
        max_versions: None,
    };
    assert_eq!(
        hc_vault::kv2::configuration_body(&only_cas),
        "{\"cas_required\":true}".to_string()
    );

    let only_delete_after = Configuration {
        cas_required: None,
        delete_version_after: Some("5s".to_string()),
        max_versions: None,
    };
    assert_eq!(
        hc_vault::kv2::configuration_body(&only_delete_after),
        "{\"delete_version_after\":\"5s\"}".to_string()
    );

    let all = Configuration {
        cas_required: Some(true),
        delete_version_after: Some("5s".to_string()),
        max_versions: Some(13),
    };
    assert_eq!(
        hc_vault::kv2::configuration_body(&all),
        "{\"cas_required\":true,\"delete_version_after\":\"5s\",\"max_versions\":13}".to_string()
    );
}

#[test]
fn update_body_wraps_data_and_cas() {
    assert_eq!(
        hc_vault::kv2::update_body("{\"testKey\":\"testValue\"}", None),
        "{\"data\":{\"testKey\":\"testValue\"}}".to_string()
    );
    assert_eq!(
        hc_vault::kv2::update_body("{\"testKey\":\"testValue\"}", Some(2)),
        "{\"data\":{\"testKey\":\"testValue\"},\"options\":{\"cas\":2}}".to_string()
    );
}

#[test]
fn versions_body_lists_the_versions() {
    assert_eq!(
        hc_vault::kv2::versions_body(&vec![0, 4, 6]),
        "{\"versions\":[0,4,6]}".to_string()
    );
    assert_eq!(
        hc_vault::kv2::versions_body(&Vec::new()),
        "{\"versions\":[]}".to_string()
    );
}

#[test]
fn get_path_appends_the_version_query() {
    assert_eq!(
        hc_vault::kv2::get_path("kv", "test", None),
        "kv/data/test".to_string()
    );
    assert_eq!(
        hc_vault::kv2::get_path("kv", "test", Some(123)),
        "kv/data/test?version=123".to_string()
    );
}

#[test]
fn approle_options_body_holds_exactly_the_set_options() {
    let empty = ApproleOptions {
        bind_secret_id: None,
        secret_id_bound_cidrs: None,
        secret_id_num_uses: None,
        secret_id_ttl: None,
        enable_local_secret_ids: None,
        token_ttl: None,
        token_max_ttl: None,
        token_policies: None,
        token_bound_cidrs: None,
        token_explicit_max_ttl: None,
        token_no_default_policy: None,
        token_num_uses: None,
        token_period: None,
        token_type: None,
    };
    assert_eq!(hc_vault::approle::options_body(&empty), "{}".to_string());

    let some = ApproleOptions {
        bind_secret_id: Some(true),
        secret_id_bound_cidrs: None,
        secret_id_num_uses: Some(0),
        secret_id_ttl: Some("30m".to_string()),
        enable_local_secret_ids: None,
        token_ttl: Some(3600),
        token_max_ttl: None,
        token_policies: Some(vec!["default".to_string(), "test".to_string()]),
        token_bound_cidrs: None,
        token_explicit_max_ttl: None,
        token_no_default_policy: Some(false),
        token_num_uses: None,
        token_period: None,
        token_type: Some("service".to_string()),
    };
    assert_eq!(
        hc_vault::approle::options_body(&some),
        "{\"bind_secret_id\":true,\"secret_id_num_uses\":0,\"secret_id_ttl\":\"30m\",\
         \"token_ttl\":3600,\"token_policies\":[\"default\",\"test\"],\
         \"token_no_default_policy\":false,\"token_type\":\"service\"}"
            .to_string()
    );
}

use hc_vault::decode::decode_auth_response;

#[test]
fn reads_the_auth_object_of_a_login_response() {
    let body = "{\"auth\":{\"renewable\":true,\"lease_duration\":120,\
                \"token_policies\":[\"test\"],\"accessor\":\"testAccessor\",\
                \"client_token\":\"testToken\"},\
                \"lease_duration\":0,\"renewable\":false,\"lease_id\":\"\"}";
    let info = decode_auth_response(body).unwrap();
    assert_eq!(info.client_token, "testToken".to_string());
    assert_eq!(info.lease_duration, 120);
    assert_eq!(info.renewable, true);
}

#[test]
fn reads_the_auth_object_of_a_renew_response() {
    let body = "{\"auth\":{\"renewable\":false,\"lease_duration\":10,\
                \"policies\":[\"test\"],\"client_token\":\"testToken\"}}";
    let info = decode_auth_response(body).unwrap();
    assert_eq!(info.client_token, "testToken".to_string());
    assert_eq!(info.lease_duration, 10);
    assert_eq!(info.renewable, false);
}

#[test]
fn rejects_malformed_auth_responses() {
    assert!(decode_auth_response("not json at all").is_none());
    assert!(decode_auth_response("{}").is_none());
    assert!(decode_auth_response("{\"auth\":{}}").is_none());
    // A missing or wrongly typed field invalidates the response.
    assert!(decode_auth_response(
        "{\"auth\":{\"renewable\":true,\"lease_duration\":120}}"
    )
    .is_none());
    assert!(decode_auth_response(
        "{\"auth\":{\"renewable\":\"yes\",\"lease_duration\":120,\"client_token\":\"t\"}}"
    )
    .is_none());
    assert!(decode_auth_response(
        "{\"auth\":{\"renewable\":true,\"lease_duration\":-3,\"client_token\":\"t\"}}"
    )
    .is_none());
}

#[test]
fn reads_a_configuration_response() {
    let body = "{\"data\":{\"cas_required\":true,\"delete_version_after\":\"5s\",\
                \"max_versions\":13}}";
    let config = hc_vault::kv2::decode_configuration(body).unwrap();
    assert_eq!(config.cas_required, Some(true));
    assert_eq!(config.delete_version_after, Some("5s".to_string()));
    assert_eq!(config.max_versions, Some(13));

    let empty = hc_vault::kv2::decode_configuration("{\"data\":{}}").unwrap();
    assert_eq!(empty.cas_required, None);
    assert_eq!(empty.delete_version_after, None);
    assert_eq!(empty.max_versions, None);

    assert!(hc_vault::kv2::decode_configuration("{}").is_none());
    assert!(
        hc_vault::kv2::decode_configuration("{\"data\":{\"max_versions\":\"many\"}}").is_none()
    );
    assert!(
        hc_vault::kv2::decode_configuration("{\"data\":{\"max_versions\":4294967296}}").is_none()
    );
}

#[test]
fn reads_a_database_credentials_response() {
    let body = "{\"lease_id\":\"test_id\",\"lease_duration\":120,\"renewable\":true,\
                \"data\":{\"username\":\"test_username\",\"password\":\"test_password\"}}";
    let creds = hc_vault::database::decode_credentials(body).unwrap();
    assert_eq!(creds.username, "test_username".to_string());
    assert_eq!(creds.password, "test_password".to_string());
    assert_eq!(creds.duration, 120);

    assert!(hc_vault::database::decode_credentials("{\"lease_duration\":120}").is_none());
    assert!(hc_vault::database::decode_credentials(
        "{\"lease_duration\":120,\"data\":{\"username\":\"u\"}}"
    )
    .is_none());
}

use vault_gateway::GatewayError;
use vault_gateway::JsonValue;
use vault_gateway::fetch_secret_request;
use vault_gateway::interpret_value_response;
use vault_gateway::interpret_write_response;
use vault_gateway::list_policies_request;
use vault_gateway::list_secrets_request;
use vault_gateway::read_policy_request;
use vault_gateway::request_url;
use vault_gateway::save_secret_request;

fn sample_doc() -> JsonValue {
    JsonValue::Obj(vec![("key".to_string(), JsonValue::Str("value".to_string()))])
}

#[test]
fn end_to_end_write_scenario() {
    let req = save_secret_request(
        "http://localhost:8200",
        "hvs.test",
        "secret/data/myapp",
        sample_doc(),
    );
    assert_eq!(req.method.verb(), "POST");
    assert_eq!(req.url, "http://localhost:8200/v1/secret/data/myapp");
    assert_eq!(req.header_name, "X-Vault-Token");
    assert_eq!(req.token, "hvs.test");
    assert_eq!(req.body.as_deref(), Some("{\"data\":{\"key\":\"value\"}}"));
    assert!(interpret_write_response(204).is_ok());
}

#[test]
fn fetch_uses_get_and_no_body() {
    let req = fetch_secret_request("http://localhost:8200", "hvs.test", "secret/data/myapp");
    assert_eq!(req.method.verb(), "GET");
    assert_eq!(req.url, "http://localhost:8200/v1/secret/data/myapp");
    assert!(req.body.is_none());
}

#[test]
fn list_uses_list_verb_and_no_body() {
    let req = list_secrets_request("http://localhost:8200", "hvs.test", "secret/metadata");
    assert_eq!(req.method.verb(), "LIST");
    assert_ne!(req.method.verb(), "GET");
    assert!(req.body.is_none());
}

#[test]
fn policy_requests_target_sys_policy() {
    let listing = list_policies_request("http://localhost:8200", "hvs.test");
    assert_eq!(listing.method.verb(), "GET");
    assert_eq!(listing.url, "http://localhost:8200/v1/sys/policy");
    assert!(listing.body.is_none());

    let reading = read_policy_request("http://localhost:8200", "hvs.test", "admin");
    assert_eq!(reading.method.verb(), "GET");
    assert_eq!(reading.url, "http://localhost:8200/v1/sys/policy/admin");
    assert!(reading.body.is_none());
}

#[test]
fn every_request_carries_the_exact_token() {
    let token = "  hvs.with spaces  ";
    let reqs = vec![
        fetch_secret_request("http://h", token, "p"),
        list_secrets_request("http://h", token, "p"),
        save_secret_request("http://h", token, "p", JsonValue::Null),
        list_policies_request("http://h", token),
        read_policy_request("http://h", token, "n"),
    ];
    for req in reqs {
        assert_eq!(req.header_name, "X-Vault-Token");
        assert_eq!(req.token, token);
    }
}

#[test]
fn url_joint_is_normalized() {
    assert_eq!(request_url("http://h:8200", "a/b"), "http://h:8200/v1/a/b");
    assert_eq!(request_url("http://h:8200/", "a/b"), "http://h:8200/v1/a/b");
    assert_eq!(request_url("http://h:8200", "/a/b"), "http://h:8200/v1/a/b");
    assert_eq!(request_url("http://h:8200///", "///a/b"), "http://h:8200/v1/a/b");
    assert_eq!(request_url("", ""), "/v1/");
}

#[test]
fn success_response_passes_body_through() {
    let r = interpret_value_response(200, Some(sample_doc()));
    assert_eq!(r.unwrap(), sample_doc());
    assert!(interpret_value_response(299, Some(JsonValue::Null)).is_ok());
}

#[test]
fn undecodable_success_body_is_a_decode_error() {
    let r = interpret_value_response(200, None);
    assert_eq!(r.unwrap_err(), GatewayError::Decode);
}

#[test]
fn failure_response_carries_decoded_body() {
    let r = interpret_value_response(503, Some(sample_doc()));
    assert_eq!(
        r.unwrap_err(),
        GatewayError::Server { status: 503, body: Some(sample_doc()) },
    );
}

#[test]
fn failure_response_flags_undecodable_body() {
    let r = interpret_value_response(404, None);
    assert_eq!(r.unwrap_err(), GatewayError::Server { status: 404, body: None });
}

#[test]
fn write_failure_discards_the_body() {
    let r = interpret_write_response(500);
    assert_eq!(r.unwrap_err(), GatewayError::Server { status: 500, body: None });
    assert!(interpret_write_response(200).is_ok());
    assert_eq!(
        interpret_write_response(199).unwrap_err(),
        GatewayError::Server { status: 199, body: None },
    );
}

#[test]
fn error_messages_render_each_variant() {
    assert_eq!(
        GatewayError::CredentialBackend("locked".to_string()).message(),
        "credential store error: locked"
    );
    assert_eq!(GatewayError::CredentialNotFound.message(), "no token has been saved");
    assert_eq!(
        GatewayError::Transport("refused".to_string()).message(),
        "transport error: refused"
    );
    assert_eq!(
        GatewayError::Server { status: 404, body: None }.message(),
        "server returned status 404"
    );
    assert_eq!(
        GatewayError::Decode.message(),
        "response body was not valid structured data"
    );
}

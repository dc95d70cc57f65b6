use identity_client::transport::Method;
use identity_client::{create_identity_client, IdentityClient, IdentityClientConfig, TokenResponse};

fn config(access_token: Option<&str>) -> IdentityClientConfig {
    IdentityClientConfig {
        base_url: "https://id.example.com".to_string(),
        client_id: "web".to_string(),
        access_token: access_token.map(|t| t.to_string()),
    }
}

#[test]
fn client_without_token_starts_empty() {
    let client = IdentityClient::new(config(None));
    assert_eq!(client.session_manager.get_access_token(), None);
    assert_eq!(client.session_manager.get_refresh_token(), None);
    assert_eq!(client.session_manager.get_expires_at(), None);
    assert!(!client.session_manager.is_authenticated());
    let prepared = client.transport.get("/v1/ping", None);
    assert_eq!(prepared.url, "https://id.example.com/v1/ping");
    assert_eq!(prepared.headers[1].name, "X-Client-ID");
    assert_eq!(prepared.headers[1].value, "web");
}

#[test]
fn client_with_token_holds_it_unauthenticated() {
    let client = create_identity_client(config(Some("bare")));
    assert_eq!(client.session_manager.get_access_token(), Some("bare".to_string()));
    assert_eq!(client.session_manager.get_refresh_token(), None);
    assert_eq!(client.session_manager.get_expires_at(), None);
    assert!(!client.session_manager.is_authenticated());
    let prepared = client.transport.delete("/v1/ping", None);
    assert_eq!(prepared.method, Method::Delete);
    assert_eq!(prepared.url, "https://id.example.com/v1/ping");
    assert_eq!(prepared.headers[1].value, "web");
}

#[test]
fn next_request_carries_the_token_last_written() {
    let mut client = IdentityClient::new(config(Some("old")));
    client.session_manager.set_tokens(TokenResponse {
        access_token: "new".to_string(),
        refresh_token: "r".to_string(),
        expires_in: 3600,
    });
    let token = client.session_manager.get_access_token();
    let prepared = client.transport.get("/v1/users/me", token.as_deref());
    assert_eq!(prepared.headers.len(), 3);
    assert_eq!(prepared.headers[2].name, "Authorization");
    assert_eq!(prepared.headers[2].value, "Bearer new");

    client.session_manager.clear();
    let token = client.session_manager.get_access_token();
    let prepared = client.transport.get("/v1/users/me", token.as_deref());
    assert_eq!(prepared.headers.len(), 2);
}

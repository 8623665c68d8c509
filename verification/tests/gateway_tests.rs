use page_store::auth::check_publish_auth;
use page_store::config::Config;
use page_store::gateway::fetch;
use page_store::gateway::fetch_response;
use page_store::gateway::html_content_type;
use page_store::gateway::page_ttl;
use page_store::gateway::publish;
use page_store::gateway::publish_error_status;
use page_store::gateway::publish_success_body;
use page_store::gateway::CreatePageResponse;
use page_store::gateway::FetchOutcome;
use page_store::gateway::PublishError;
use page_store::keys::storage_key;
use page_store::keys::PAGE_TTL_SECONDS;
use page_store::store::KeyTtl;
use page_store::store::PageStore;

fn secret_config() -> Config {
    Config::from_env_values(None, None, None, Some(String::from("letmein")))
}

fn good_header() -> Option<String> {
    Some(String::from("letmein"))
}

#[test]
fn round_trip() {
    let mut store = PageStore::new();
    let config = secret_config();
    let body = b"<h1>hi</h1>".to_vec();
    let r = publish(
        &mut store,
        &config,
        &String::from("x"),
        body.clone(),
        &good_header(),
    );
    assert_eq!(r, Ok(CreatePageResponse { success: true }));
    let outcome = fetch(&store, &String::from("x"));
    assert_eq!(outcome, FetchOutcome::Found(body.clone()));
    let resp = fetch_response(outcome);
    assert_eq!(resp.status, 200);
    assert_eq!(resp.body, body);
}

#[test]
fn unpublished_fetch() {
    let store = PageStore::new();
    let outcome = fetch(&store, &String::from("never"));
    assert_eq!(outcome, FetchOutcome::NotFound);
    let resp = fetch_response(outcome);
    assert_eq!(resp.status, 404);
    assert!(resp.body.is_empty());
}

#[test]
fn overwrite() {
    let mut store = PageStore::new();
    let config = secret_config();
    let path = String::from("x");
    let b1 = b"first".to_vec();
    let b2 = b"second".to_vec();
    publish(&mut store, &config, &path, b1, &good_header()).unwrap();
    publish(&mut store, &config, &path, b2.clone(), &good_header()).unwrap();
    assert_eq!(fetch(&store, &path), FetchOutcome::Found(b2));
}

#[test]
fn auth_gate_missing_header() {
    let mut store = PageStore::new();
    let config = secret_config();
    let path = String::from("x");
    let kept = b"kept".to_vec();
    publish(&mut store, &config, &path, kept.clone(), &good_header()).unwrap();
    let r = publish(&mut store, &config, &path, b"intruder".to_vec(), &None);
    assert_eq!(r, Err(PublishError::Unauthorized));
    assert_eq!(publish_error_status(&PublishError::Unauthorized), 401);
    assert_eq!(fetch(&store, &path), FetchOutcome::Found(kept));
}

#[test]
fn auth_gate_wrong_header() {
    let mut store = PageStore::new();
    let config = secret_config();
    let path = String::from("x");
    let kept = b"kept".to_vec();
    publish(&mut store, &config, &path, kept.clone(), &good_header()).unwrap();
    let r = publish(
        &mut store,
        &config,
        &path,
        b"intruder".to_vec(),
        &Some(String::from("guess")),
    );
    assert_eq!(r, Err(PublishError::Unauthorized));
    assert_eq!(fetch(&store, &path), FetchOutcome::Found(kept));
}

#[test]
fn unconfigured_secret() {
    let mut store = PageStore::new();
    let config = Config::from_env_values(None, None, None, None);
    let path = String::from("x");
    let with_header = publish(
        &mut store,
        &config,
        &path,
        b"a".to_vec(),
        &Some(String::from("anything")),
    );
    assert_eq!(with_header, Err(PublishError::Unauthorized));
    let without_header = publish(&mut store, &config, &path, b"a".to_vec(), &None);
    assert_eq!(without_header, Err(PublishError::Unauthorized));
    assert_eq!(fetch(&store, &path), FetchOutcome::NotFound);
}

#[test]
fn ttl_applied() {
    let mut store = PageStore::new();
    let config = secret_config();
    let path = String::from("x");
    publish(&mut store, &config, &path, b"a".to_vec(), &good_header()).unwrap();
    assert_eq!(PAGE_TTL_SECONDS, 2_592_000);
    assert_eq!(page_ttl(&store, &path), KeyTtl::Expires(2_592_000));
}

#[test]
fn independence_of_paths() {
    let mut store = PageStore::new();
    let config = secret_config();
    let other = b"other".to_vec();
    publish(
        &mut store,
        &config,
        &String::from("a"),
        b"first".to_vec(),
        &good_header(),
    )
    .unwrap();
    assert_eq!(fetch(&store, &String::from("b")), FetchOutcome::NotFound);
    publish(
        &mut store,
        &config,
        &String::from("b"),
        other.clone(),
        &good_header(),
    )
    .unwrap();
    publish(
        &mut store,
        &config,
        &String::from("a"),
        b"again".to_vec(),
        &good_header(),
    )
    .unwrap();
    assert_eq!(fetch(&store, &String::from("b")), FetchOutcome::Found(other));
}

#[test]
fn two_publishes_land_in_one_order() {
    let config = secret_config();
    let path = String::from("x");
    let b1 = b"first".to_vec();
    let b2 = b"second".to_vec();

    let mut store = PageStore::new();
    publish(&mut store, &config, &path, b1.clone(), &good_header()).unwrap();
    publish(&mut store, &config, &path, b2.clone(), &good_header()).unwrap();
    assert_eq!(fetch(&store, &path), FetchOutcome::Found(b2.clone()));

    let mut store = PageStore::new();
    publish(&mut store, &config, &path, b2, &good_header()).unwrap();
    publish(&mut store, &config, &path, b1.clone(), &good_header()).unwrap();
    assert_eq!(fetch(&store, &path), FetchOutcome::Found(b1));
}

#[test]
fn storage_key_scheme() {
    assert_eq!(storage_key("abc"), "page:abc");
    assert_eq!(storage_key("x"), "page:x");
}

#[test]
fn config_defaults() {
    let c = Config::from_env_values(None, None, None, None);
    assert_eq!(c.redis_url, "redis://127.0.0.1/");
    assert_eq!(c.host, "127.0.0.1");
    assert_eq!(c.port, "3000");
    assert_eq!(c.secret, None);
    assert_eq!(c.bind_address(), "127.0.0.1:3000");
}

#[test]
fn config_overrides() {
    let c = Config::from_env_values(
        Some(String::from("redis://cache/")),
        Some(String::from("0.0.0.0")),
        Some(String::from("8080")),
        Some(String::from("s")),
    );
    assert_eq!(c.redis_url, "redis://cache/");
    assert_eq!(c.bind_address(), "0.0.0.0:8080");
    assert_eq!(c.secret, Some(String::from("s")));
}

#[test]
fn publish_response_shapes() {
    assert_eq!(publish_success_body(), "{\"success\":true}");
    assert_eq!(publish_error_status(&PublishError::Unauthorized), 401);
    assert_eq!(publish_error_status(&PublishError::Internal), 500);
    assert_eq!(html_content_type(), "text/html");
}

#[test]
fn internal_error_response() {
    let resp = fetch_response(FetchOutcome::Internal);
    assert_eq!(resp.status, 500);
    assert_eq!(resp.body, b"Internal error".to_vec());
}

#[test]
fn field_write_keeps_expiry() {
    let mut store = PageStore::new();
    let key = storage_key("x");
    store.hset_html(&key, b"a".to_vec());
    assert_eq!(store.key_ttl(&key), KeyTtl::NoExpiry);
    assert!(store.expire_key(&key, 60));
    assert_eq!(store.key_ttl(&key), KeyTtl::Expires(60));
    store.hset_html(&key, b"b".to_vec());
    assert_eq!(store.key_ttl(&key), KeyTtl::Expires(60));
    assert_eq!(store.hget_html(&key), Some(b"b".to_vec()));
    let absent = storage_key("y");
    assert!(!store.expire_key(&absent, 60));
    assert_eq!(store.key_ttl(&absent), KeyTtl::Missing);
}

#[test]
fn auth_check_cases() {
    let secret = Some(String::from("s"));
    assert!(check_publish_auth(&secret, &Some(String::from("s"))));
    assert!(!check_publish_auth(&secret, &Some(String::from("S"))));
    assert!(!check_publish_auth(&secret, &None));
    assert!(!check_publish_auth(&None, &Some(String::from("s"))));
    assert!(!check_publish_auth(&None, &None));
}

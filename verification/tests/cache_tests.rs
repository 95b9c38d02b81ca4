use clients::cache::CacheError;
use clients::cache::ClientBackbone;

#[test]
fn test_client_backbone() {
    let mut client = ClientBackbone::new(":memory:").expect("Backbone instantiation failed");

    let records = vec![serde_json::to_vec(&42u32).expect("serialize")];
    client.save("api_cache", &records).expect("Failed to save");
    let cached = client.load_cached("api_cache", "0").expect("Failed to load");

    assert_eq!(cached, Some(serde_json::to_vec(&42u32).unwrap()));
    let decoded: u32 = serde_json::from_slice(&cached.unwrap()).expect("decode");
    assert_eq!(decoded, 42);
}

#[test]
fn round_trip_returns_written_payload() {
    let mut client = ClientBackbone::new(":memory:").expect("open");
    let payload = b"normals for station GHCND:USC00042319".to_vec();
    client
        .put_keyed("api_cache", "https://api/data?station=42319", &payload)
        .expect("put");
    let got = client
        .load_cached("api_cache", "https://api/data?station=42319")
        .expect("get");
    assert_eq!(got, Some(payload));
}

#[test]
fn replace_overwrites_previous_payload() {
    let mut client = ClientBackbone::new(":memory:").expect("open");
    let v1 = b"first".to_vec();
    let v2 = b"second".to_vec();
    client.put_keyed("api_cache", "k", &v1).expect("put v1");
    client.put_keyed("api_cache", "k", &v2).expect("put v2");
    let got = client.load_cached("api_cache", "k").expect("get");
    assert_eq!(got, Some(v2));
    assert_ne!(got, Some(v1));
}

#[test]
fn agency_cache_two_element_list() {
    let mut client = ClientBackbone::new(":memory:").expect("open");
    client.ensure_namespace("agency_cache").expect("namespace");

    let list = vec!["VA0010100".to_string(), "VA0010200".to_string()];
    let payload = serde_json::to_vec(&list).expect("serialize");
    client
        .put_keyed("agency_cache", "https://api/x?state=VA", &payload)
        .expect("put");

    let got = client
        .load_cached("agency_cache", "https://api/x?state=VA")
        .expect("get");
    let decoded: Vec<String> = serde_json::from_slice(&got.expect("hit")).expect("decode");
    assert_eq!(decoded.len(), 2);
    assert_eq!(decoded, list);

    // A different key is a plain miss, not an error.
    let miss = client
        .load_cached("agency_cache", "https://api/x?state=MD")
        .expect("get on other key");
    assert_eq!(miss, None);
}

#[test]
fn save_keys_records_by_position() {
    let mut client = ClientBackbone::new(":memory:").expect("open");
    let records = vec![b"alpha".to_vec(), b"beta".to_vec(), b"gamma".to_vec()];
    client.save("api_cache", &records).expect("save");
    assert_eq!(
        client.load_cached("api_cache", "0").expect("get 0"),
        Some(b"alpha".to_vec())
    );
    assert_eq!(
        client.load_cached("api_cache", "1").expect("get 1"),
        Some(b"beta".to_vec())
    );
    assert_eq!(
        client.load_cached("api_cache", "2").expect("get 2"),
        Some(b"gamma".to_vec())
    );
    assert_eq!(client.load_cached("api_cache", "3").expect("get 3"), None);
}

#[test]
fn save_replaces_positional_records() {
    let mut client = ClientBackbone::new(":memory:").expect("open");
    client
        .save("api_cache", &vec![b"old0".to_vec(), b"old1".to_vec()])
        .expect("first save");
    client.save("api_cache", &vec![b"new0".to_vec()]).expect("second save");
    assert_eq!(
        client.load_cached("api_cache", "0").expect("get"),
        Some(b"new0".to_vec())
    );
    // Position 1 keeps the older batch's record: writes replace by key only.
    assert_eq!(
        client.load_cached("api_cache", "1").expect("get"),
        Some(b"old1".to_vec())
    );
}

#[test]
fn ensure_namespace_rejects_foreign_schema() {
    // A shared in-memory database that already holds a table of the right
    // name but the wrong shape: no primary key on endpoint, so replace
    // semantics could not be promised on it.
    let uri = "file:foreign_schema_cache?mode=memory&cache=shared";
    let raw = rusqlite::Connection::open(uri).expect("open raw");
    raw.execute_batch("CREATE TABLE summary_cache (endpoint TEXT, payload BLOB);")
        .expect("create foreign table");

    let mut client = ClientBackbone::new(uri).expect("open backbone");
    let err = client
        .ensure_namespace("summary_cache")
        .expect_err("foreign schema must be refused");
    assert_eq!(err, CacheError::Storage);

    // A namespace this cache set up itself is accepted again, idempotently.
    client.ensure_namespace("agency_cache").expect("first setup");
    client.ensure_namespace("agency_cache").expect("second setup");
    drop(raw);
}

#[test]
fn namespaces_do_not_interfere() {
    let mut client = ClientBackbone::new(":memory:").expect("open");
    client.ensure_namespace("agency_cache").expect("namespace");
    client
        .put_keyed("api_cache", "shared", &b"from api".to_vec())
        .expect("put");
    client
        .put_keyed("agency_cache", "shared", &b"from agency".to_vec())
        .expect("put");
    assert_eq!(
        client.load_cached("api_cache", "shared").expect("get"),
        Some(b"from api".to_vec())
    );
    assert_eq!(
        client.load_cached("agency_cache", "shared").expect("get"),
        Some(b"from agency".to_vec())
    );
}

#[test]
fn retry_budget_is_three() {
    let client = ClientBackbone::new(":memory:").expect("open");
    assert_eq!(client.max_retries(), 3);
}

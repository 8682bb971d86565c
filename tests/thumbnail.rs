use pcli2_mcp::json::{JsonNumber, JsonValue};
use pcli2_mcp::thumbnail::{
    image_file_key, metadata_from_json, metadata_json, LoadAction, ThumbnailCache,
    ThumbnailCacheConfig, ThumbnailMetadata, DEFAULT_TTL_MS,
};
use pcli2_mcp::tools::{cleanup_reply, thumbnail_reply, thumbnail_source, ThumbnailStep};

fn obj(members: Vec<(&str, JsonValue)>) -> JsonValue {
    JsonValue::Object(members.into_iter().map(|(k, v)| (k.to_string(), v)).collect())
}

fn cache(ttl_ms: u64) -> ThumbnailCache {
    let config = ThumbnailCacheConfig::new("/tmp/thumbs".to_string(), ttl_ms, "localhost", 8080);
    ThumbnailCache::new(config)
}

fn meta_at(at: i64) -> JsonValue {
    metadata_json(&ThumbnailMetadata { cached_at: at, source: "s".to_string(), content_hash: None })
}

const PNG: [u8; 10] = [0x89, b'P', b'N', b'G', b'\r', b'\n', 0x1a, b'\n', 1, 2];

fn content_text(v: &JsonValue) -> String {
    match v.get("content").unwrap() {
        JsonValue::Array(items) => items[0].get("text").unwrap().as_str().unwrap().to_string(),
        _ => panic!("content is not an array"),
    }
}

#[test]
fn test_generate_cache_key() {
    let cache = cache(DEFAULT_TTL_MS);
    let key1 = cache.generate_cache_key("test-source-1");
    let key2 = cache.generate_cache_key("test-source-2");
    assert_ne!(key1, key2);
    assert_eq!(key1.len(), 16);
    assert!(key1.chars().all(|c| c.is_ascii_hexdigit()));
}

#[test]
fn config_builds_base_url() {
    let cache = cache(100);
    assert_eq!(cache.base_url(), "http://localhost:8080/thumbnail");
    assert_eq!(cache.cache_dir(), "/tmp/thumbs");
    assert_eq!(cache.ttl(), 100);
    assert_eq!(cache.thumbnail_url("abc"), "http://localhost:8080/thumbnail/abc");
}

#[test]
fn cache_file_paths() {
    let cache = cache(100);
    assert_eq!(cache.cache_path("00ff"), "/tmp/thumbs/00ff.png");
    assert_eq!(cache.metadata_path("00ff"), "/tmp/thumbs/00ff.meta");
    let slashed = ThumbnailCache::new(ThumbnailCacheConfig::new("/d/".to_string(), 1, "h", 1));
    assert_eq!(slashed.cache_path("k"), "/d/k.png");
}

#[test]
fn metadata_round_trip() {
    let m = ThumbnailMetadata { cached_at: 1_700_000_000_123, source: "asset-1".to_string(), content_hash: None };
    let v = metadata_json(&m);
    assert_eq!(v.get("cached_at"), Some(&JsonValue::Number(JsonNumber::PosInt(1_700_000_000_123))));
    assert_eq!(v.get("content_hash"), Some(&JsonValue::Null));
    let back = metadata_from_json(&v).unwrap();
    assert_eq!(back.cached_at, 1_700_000_000_123);
    assert_eq!(back.source, "asset-1");
    assert_eq!(back.content_hash, None);
}

#[test]
fn malformed_metadata_counts_as_expired() {
    let cache = cache(1000);
    let bad = obj(vec![("cached_at", JsonValue::Str("yesterday".to_string())), ("source", JsonValue::Str("s".to_string()))]);
    assert!(metadata_from_json(&bad).is_none());
    assert!(cache.is_expired_at(Some(&bad), 0));
    assert!(cache.is_expired_at(None, 0));
}

#[test]
fn ttl_boundary() {
    let cache = cache(100);
    let meta = meta_at(5_000);
    assert!(!cache.is_expired_at(Some(&meta), 5_000));
    assert!(!cache.is_expired_at(Some(&meta), 5_099));
    assert!(!cache.is_expired_at(Some(&meta), 5_100));
    assert!(cache.is_expired_at(Some(&meta), 5_101));
    assert!(cache.is_expired_at(Some(&meta), 5_150));
}

#[test]
fn load_actions() {
    let cache = cache(100);
    let meta = meta_at(5_000);
    assert_eq!(cache.load_action_at(false, Some(&meta), 5_000), LoadAction::NotFound);
    assert_eq!(cache.load_action_at(true, Some(&meta), 5_050), LoadAction::Read);
    assert_eq!(cache.load_action_at(true, Some(&meta), 5_150), LoadAction::Expired);
    assert_eq!(cache.load_action_at(true, None, 5_000), LoadAction::Expired);
}

#[test]
fn fresh_metadata_is_loadable_now() {
    let cache = cache(DEFAULT_TTL_MS);
    let m = cache.new_metadata("asset");
    assert!(m.cached_at > 1_600_000_000_000);
    let v = metadata_json(&m);
    assert_eq!(cache.load_action(true, Some(&v)), LoadAction::Read);
    assert!(!cache.is_expired(Some(&v)));
}

#[test]
fn cleanup_selects_only_expired() {
    let cache = cache(100);
    let candidates = vec![
        ("old".to_string(), Some(meta_at(1_000))),
        ("new".to_string(), Some(meta_at(4_990))),
        ("broken".to_string(), None),
    ];
    assert_eq!(cache.expired_keys_at(&candidates, 5_000), vec!["old", "broken"]);
    assert!(cache.expired_keys_at(&vec![], 5_000).is_empty());
}

#[test]
fn image_file_keys() {
    assert_eq!(image_file_key("0123abcd.png"), Some("0123abcd".to_string()));
    assert_eq!(image_file_key("0123abcd.meta"), None);
    assert_eq!(image_file_key(".png"), None);
    assert_eq!(image_file_key("a.b.png"), Some("a.b".to_string()));
}

#[test]
fn thumbnail_as_data_url() {
    let args = obj(vec![("uuid", JsonValue::Str("u".to_string())), ("response_mode", JsonValue::Str("data_url".to_string()))]);
    match thumbnail_source(&args, Ok(PNG[..8].to_vec()), true) {
        ThumbnailStep::Done(Ok(src)) => assert_eq!(src, "data:image/png;base64,iVBORw0KGgo="),
        other => panic!("unexpected {:?}", other),
    }
}

#[test]
fn thumbnail_saved_to_cache() {
    let args = obj(vec![("path", JsonValue::Str("/Root/a.stl".to_string()))]);
    match thumbnail_source(&args, Ok(PNG.to_vec()), true) {
        ThumbnailStep::Save { source, bytes } => {
            assert_eq!(source, "/Root/a.stl");
            assert_eq!(bytes, PNG.to_vec());
        }
        other => panic!("unexpected {:?}", other),
    }
    match thumbnail_source(&args, Ok(PNG.to_vec()), false) {
        ThumbnailStep::Done(Ok(src)) => assert!(src.starts_with("data:image/png;base64,iVBORw0KGgo")),
        other => panic!("unexpected {:?}", other),
    }
}

#[test]
fn thumbnail_rejects_non_png() {
    let args = obj(vec![]);
    match thumbnail_source(&args, Ok(b"GIF89a..".to_vec()), true) {
        ThumbnailStep::Done(Err(m)) => assert_eq!(m, "Thumbnail output was not a valid PNG file."),
        other => panic!("unexpected {:?}", other),
    }
    match thumbnail_source(&args, Err("gone".to_string()), true) {
        ThumbnailStep::Done(Err(m)) => assert_eq!(m, "Failed to read thumbnail output: gone"),
        other => panic!("unexpected {:?}", other),
    }
}

#[test]
fn thumbnail_page_embeds_source() {
    let page = thumbnail_reply(Ok("http://h:1/thumbnail/k".to_string())).unwrap();
    let html = content_text(&page);
    assert!(html.starts_with("<!DOCTYPE html>"));
    assert!(html.contains("<img src=\"http://h:1/thumbnail/k\" alt=\"Asset Thumbnail\""));
    assert_eq!(thumbnail_reply(Err("x".to_string())).unwrap_err(), "x");
}

#[test]
fn cleanup_replies() {
    assert_eq!(content_text(&cleanup_reply(None).unwrap()), "Thumbnail cache is not available");
    assert_eq!(content_text(&cleanup_reply(Some(Ok(3))).unwrap()), "Cleaned up 3 expired thumbnail(s)");
    assert_eq!(
        cleanup_reply(Some(Err("disk".to_string()))).unwrap_err(),
        "Thumbnail cache cleanup failed: disk"
    );
}

#[test]
fn cache_key_depends_on_source_and_time() {
    let cache = cache(DEFAULT_TTL_MS);
    let a = cache.cache_key_at("asset", 1_700_000_000_000);
    assert_eq!(a, cache.cache_key_at("asset", 1_700_000_000_000));
    assert_ne!(a, cache.cache_key_at("asset", 1_700_000_000_001));
    assert_ne!(a, cache.cache_key_at("other", 1_700_000_000_000));
    assert_eq!(a.len(), 16);
    assert!(a.chars().all(|c| c.is_ascii_hexdigit() && !c.is_ascii_uppercase()));
}

#[test]
fn encoding_decision() {
    let data = obj(vec![("response_mode", JsonValue::Str("data_url".to_string()))]);
    let url = obj(vec![("response_mode", JsonValue::Str("url".to_string()))]);
    assert!(pcli2_mcp::tools::encodes_thumbnail(&data, true));
    assert!(!pcli2_mcp::tools::encodes_thumbnail(&url, true));
    assert!(pcli2_mcp::tools::encodes_thumbnail(&url, false));
}

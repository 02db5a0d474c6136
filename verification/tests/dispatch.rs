use miniserver::asset::is_root_key;
use miniserver::asset::resolve_asset_path;
use miniserver::cache::CacheMap;
use miniserver::dispatch::RequestTarget;
use miniserver::dispatch::is_service_key;
use miniserver::dispatch::not_found_sentinel;
use miniserver::dispatch::service_response;
use miniserver::dispatch::settle_miss;
use miniserver::dispatch::undefined_sentinel;
use miniserver::dispatch::unpack;

fn key(s: &str) -> String {
    s.to_string()
}

#[test]
fn dispatch_unpack_absolute_path_and_other() {
    let t = RequestTarget::AbsolutePath(key("/img/logo.png"));
    assert_eq!(unpack(&t), "/img/logo.png");
    assert_eq!(unpack(&RequestTarget::Other), "/");
}

#[test]
fn dispatch_service_marker_detection() {
    assert!(is_service_key(&key("/service")));
    assert!(is_service_key(&key("service")));
    assert!(is_service_key(&key("/api/service/run")));
    assert!(is_service_key(&key("/webservices")));
    assert!(!is_service_key(&key("/")));
    assert!(!is_service_key(&key("/servic")));
    assert!(!is_service_key(&key("/SERVICE")));
    assert!(is_service_key(&key("héllo/service/ünicode")));
    assert!(!is_service_key(&key("")));
}

#[test]
fn dispatch_sentinels_spell_their_words() {
    assert_eq!(undefined_sentinel(), b"undefined".to_vec());
    assert_eq!(not_found_sentinel(), b"Not Found".to_vec());
}

#[test]
fn dispatch_unconfigured_bridge_yields_undefined() {
    // No bridge configured: a reserved-path request gets the fixed sentinel.
    let reply = service_response(None);
    assert_eq!(reply, b"undefined".to_vec());
}

#[test]
fn dispatch_bridge_reply_passes_verbatim() {
    let reply = service_response(Some(b"raw bytes\n".to_vec()));
    assert_eq!(reply, b"raw bytes\n".to_vec());
}

#[test]
fn dispatch_root_request_fills_cache_with_document() {
    // GET / with an empty cache and a default document holding "hello":
    // the response is "hello" and the key "/" is cached afterwards.
    let mut cache = CacheMap::new();
    let k = unpack(&RequestTarget::AbsolutePath(key("/")));
    assert!(!is_service_key(&k));
    assert!(cache.lookup(&k).is_none());
    let body = settle_miss(&mut cache, &k, Some(b"hello".to_vec()));
    assert_eq!(body, b"hello".to_vec());
    assert_eq!(cache.lookup(&k), Some(b"hello".to_vec()));
}

#[test]
fn dispatch_missing_asset_not_cached() {
    let mut cache = CacheMap::new();
    let body = settle_miss(&mut cache, &key("/nope"), None);
    assert_eq!(body, b"Not Found".to_vec());
    assert!(!cache.contains(&key("/nope")));
    assert_eq!(cache.len(), 0);
}

#[test]
fn dispatch_fill_happens_once_per_key() {
    // First serve misses and fills; the second serve is a hit with the
    // same bytes and needs no asset read.
    let mut cache = CacheMap::new();
    let k = key("/page");
    assert!(cache.lookup(&k).is_none());
    let first = settle_miss(&mut cache, &k, Some(b"data".to_vec()));
    let second = cache.lookup(&k).expect("filled key must hit");
    assert_eq!(first, second);
}

#[test]
fn asset_path_resolution() {
    assert_eq!(resolve_asset_path(&key("/")), "./html/index.html");
    assert_eq!(resolve_asset_path(&key("/style.css")), "./style.css");
    assert_eq!(resolve_asset_path(&key("/html/a.html")), "./html/a.html");
    assert!(is_root_key(&key("/")));
    assert!(!is_root_key(&key("/a")));
}

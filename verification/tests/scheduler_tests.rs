use cache_filter::codec::{decode_blob, encode_blob};
use cache_filter::config::{FilterConfig, DEFAULT_CACHE_REFRESH_SECS};
use cache_filter::records::QuotaRecord;
use cache_filter::scheduler::{
    on_configure, on_sync_response, plan_tick, rearm_after_cache_write, rearm_after_dispatch,
    SyncCall, SyncUpdate, INITIALISATION_TICK_SECS,
};

#[test]
fn configure_arms_initialisation_tick_and_clears_cache() {
    let doc = b"{\"cache_refresh_interval\":120}".to_vec();
    let init = on_configure(Some(&doc)).expect("a JSON object must configure the instance");
    assert_eq!(init.tick_secs, INITIALISATION_TICK_SECS);
    assert!(init.reset_cache);
    assert_eq!(init.config.cache_refresh_secs, 120);
}

#[test]
fn configure_fails_without_a_document_or_on_a_malformed_one() {
    assert!(on_configure(None).is_none());
    assert!(on_configure(Some(&b"not json".to_vec())).is_none());
    assert!(on_configure(Some(&b"[1,2,3]".to_vec())).is_none());
    assert!(on_configure(Some(&b"42".to_vec())).is_none());
}

#[test]
fn config_document_options_override_their_defaults() {
    let doc = b"{\"management_service_target\":\"quota-master\",\
                 \"auth_path\":\"/check\",\
                 \"auth_authority\":\"authz\",\
                 \"cache_path\":\"/blob\",\
                 \"cache_authority\":\"blobs\",\
                 \"cache_refresh_interval\":77}"
        .to_vec();
    let c = FilterConfig::from_document(&doc).expect("a JSON object must parse");
    assert_eq!(c.management_service_target, "quota-master");
    assert_eq!(c.auth_path, "/check");
    assert_eq!(c.auth_authority, "authz");
    assert_eq!(c.cache_path, "/blob");
    assert_eq!(c.cache_authority, "blobs");
    assert_eq!(c.cache_refresh_secs, 77);
}

#[test]
fn absent_or_mistyped_options_fall_back_to_their_defaults() {
    let c = FilterConfig::from_document(b"{}").expect("the empty object must parse");
    assert_eq!(c.management_service_target, "management-service");
    assert_eq!(c.auth_path, "/auth");
    assert_eq!(c.auth_authority, "ext_authz");
    assert_eq!(c.cache_path, "/cache");
    assert_eq!(c.cache_authority, "cache_service");
    assert_eq!(c.cache_refresh_secs, DEFAULT_CACHE_REFRESH_SECS);

    let c = FilterConfig::from_document(b"{\"auth_path\":7,\"cache_refresh_interval\":\"soon\"}")
        .expect("a JSON object must parse");
    assert_eq!(c.auth_path, "/auth");
    assert_eq!(c.cache_refresh_secs, DEFAULT_CACHE_REFRESH_SECS);

    let d = FilterConfig::default();
    assert_eq!(d.management_service_target, "management-service");
    assert_eq!(d.cache_refresh_secs, DEFAULT_CACHE_REFRESH_SECS);
}

#[test]
fn uninitialised_cache_pulls_and_initialised_cache_pushes() {
    assert!(matches!(plan_tick(None), SyncCall::Pull));
    let blob = b"opaque blob bytes".to_vec();
    match plan_tick(Some(blob.clone())) {
        SyncCall::Push { blob: pushed } => assert_eq!(pushed, blob),
        SyncCall::Pull => panic!("an initialised cache must be pushed, not pulled"),
    }
}

#[test]
fn failed_dispatch_rearms_the_short_tick_and_success_the_cadence() {
    let mut config = FilterConfig::default();
    config.cache_refresh_secs = 360;
    assert_eq!(rearm_after_dispatch(&config, true), 360);
    assert_eq!(rearm_after_dispatch(&config, false), INITIALISATION_TICK_SECS);
}

#[test]
fn sync_response_overwrites_cache_verbatim() {
    let body = b"whatever the service sent".to_vec();
    match on_sync_response(Some(body.clone())) {
        SyncUpdate::WriteCache { blob } => assert_eq!(blob, body),
        SyncUpdate::Skip => panic!("a response body must be written to the cache"),
    }
    assert!(matches!(on_sync_response(None), SyncUpdate::Skip));
}

#[test]
fn failed_cache_write_rearms_the_short_tick() {
    assert_eq!(rearm_after_cache_write(false), Some(INITIALISATION_TICK_SECS));
    assert_eq!(rearm_after_cache_write(true), None);
}

#[test]
fn echoed_sync_cycle_leaves_used_counts_unchanged() {
    let records = vec![
        QuotaRecord { path: b"/foo".to_vec(), quota: 100, used: 42 },
        QuotaRecord { path: b"/bar".to_vec(), quota: 50, used: 7 },
    ];
    let cache = encode_blob(&records);
    // The tick pushes the cache verbatim...
    let pushed = match plan_tick(Some(cache.clone())) {
        SyncCall::Push { blob } => blob,
        SyncCall::Pull => panic!("an initialised cache must be pushed"),
    };
    // ...the management service echoes it back unchanged...
    let echoed = pushed;
    // ...and the response is written verbatim, so nothing moved.
    let written = match on_sync_response(Some(echoed)) {
        SyncUpdate::WriteCache { blob } => blob,
        SyncUpdate::Skip => panic!("a response body must be written"),
    };
    assert_eq!(written, cache);
    let after = decode_blob(&written).unwrap();
    assert_eq!(after[0].used, 42);
    assert_eq!(after[1].used, 7);
}

use cache_filter::admission::{
    auth_status_outcome, decide_request, default_tracked_paths, diagnostic_header,
    get_cache_record, on_auth_response, response_body, response_status, update_cache_record,
    AuthOutcome, HeaderDecision, LocalResponse,
};
use cache_filter::codec::{decode_blob, encode_blob, BLOB_VERSION};
use cache_filter::json::encode_auth_request;
use cache_filter::records::QuotaRecord;
use cache_filter::request::{RequestContext, RequestPhase};

fn record(path: &[u8], quota: u64, used: u64) -> QuotaRecord {
    QuotaRecord { path: path.to_vec(), quota, used }
}

fn sample_blob() -> Vec<u8> {
    encode_blob(&vec![record(b"/foo", 100, 3), record(b"/bar", 50, 50)])
}

#[test]
fn empty_cache_foo_dispatches_then_resumes() {
    let tracked_paths = default_tracked_paths();
    let d = decide_request(&tracked_paths, None, &b"/foo".to_vec(), Some(&b"X".to_vec()));
    match d {
        HeaderDecision::DispatchAuth { body } => {
            assert_eq!(body, b"{\"token\":\"X\",\"path\":\"/foo\"}".to_vec());
        }
        _ => panic!("expected an authorization dispatch on a cache miss"),
    }
    let outcome = on_auth_response(Some(&b"{\"status\":200}".to_vec()));
    assert_eq!(outcome, AuthOutcome::Resume);
}

#[test]
fn exhausted_bar_rejected_with_429_and_no_dispatch() {
    let tracked_paths = default_tracked_paths();
    let blob = encode_blob(&vec![record(b"/bar", 50, 50)]);
    let d = decide_request(&tracked_paths, Some(&blob), &b"/bar".to_vec(), Some(&b"X".to_vec()));
    match d {
        HeaderDecision::Reject(r) => {
            assert_eq!(r, LocalResponse::QuotaExhausted);
            assert_eq!(response_status(&r), 429);
            assert_eq!(response_body(&r), "Service quota reached.\n");
        }
        _ => panic!("expected an immediate local rejection at quota"),
    }
}

#[test]
fn backend_401_maps_to_unauthorized() {
    let outcome = on_auth_response(Some(&b"{\"status\":401}".to_vec()));
    match outcome {
        AuthOutcome::Reject(r) => {
            assert_eq!(r, LocalResponse::Unauthorized);
            assert_eq!(response_status(&r), 401);
            assert_eq!(response_body(&r), "Unauthorized\n");
        }
        AuthOutcome::Resume => panic!("a 401 must not resume the request"),
    }
}

#[test]
fn backend_429_maps_to_quota_reached() {
    let outcome = on_auth_response(Some(&b"{\"status\":429}".to_vec()));
    match outcome {
        AuthOutcome::Reject(r) => {
            assert_eq!(response_status(&r), 429);
            assert_eq!(response_body(&r), "Service Quota Reached\n");
        }
        AuthOutcome::Resume => panic!("a 429 must not resume the request"),
    }
}

#[test]
fn malformed_or_alien_responses_map_to_500() {
    for body in [
        &b"{\"status\":302}"[..],
        b"{}",
        b"not json at all",
        b"",
        b"{\"status\":\"200\"}",
        b"{\"status\":-1}",
    ] {
        let outcome = on_auth_response(Some(&body.to_vec()));
        match outcome {
            AuthOutcome::Reject(r) => {
                assert_eq!(r, LocalResponse::Unavailable);
                assert_eq!(response_status(&r), 500);
                assert_eq!(response_body(&r), "Service Unavailable\n");
            }
            AuthOutcome::Resume => panic!("a malformed response must not resume the request"),
        }
    }
    assert_eq!(on_auth_response(None), AuthOutcome::Reject(LocalResponse::Unavailable));
}

#[test]
fn missing_authorization_rejected_whatever_the_cache_holds() {
    let tracked_paths = default_tracked_paths();
    let blob = sample_blob();
    for cache in [None, Some(&blob)] {
        let d = decide_request(&tracked_paths, cache, &b"/foo".to_vec(), None);
        match d {
            HeaderDecision::Reject(r) => {
                assert_eq!(r, LocalResponse::Forbidden);
                assert_eq!(response_status(&r), 403);
                assert_eq!(response_body(&r), "Access forbidden.\n");
            }
            _ => panic!("a request without Authorization must be rejected locally"),
        }
    }
}

#[test]
fn untracked_path_dispatches_and_ignores_cache() {
    let tracked_paths = default_tracked_paths();
    let blob = sample_blob();
    let expected = b"{\"token\":\"T\",\"path\":\"/elsewhere\"}".to_vec();
    for cache in [None, Some(&blob)] {
        let d = decide_request(&tracked_paths, cache, &b"/elsewhere".to_vec(), Some(&b"T".to_vec()));
        match d {
            HeaderDecision::DispatchAuth { body } => assert_eq!(body, expected),
            _ => panic!("an untracked path must always go to the authorization backend"),
        }
    }
}

#[test]
fn admitted_request_increments_used_by_exactly_one() {
    let tracked_paths = default_tracked_paths();
    let blob = sample_blob();
    let d = decide_request(&tracked_paths, Some(&blob), &b"/foo".to_vec(), Some(&b"X".to_vec()));
    match d {
        HeaderDecision::Admit { new_blob } => {
            let records = decode_blob(&new_blob).expect("the written-back blob must decode");
            assert_eq!(records.len(), 2);
            assert_eq!(records[0].path, b"/foo".to_vec());
            assert_eq!(records[0].quota, 100);
            assert_eq!(records[0].used, 4);
            assert_eq!(records[1].path, b"/bar".to_vec());
            assert_eq!(records[1].quota, 50);
            assert_eq!(records[1].used, 50);
        }
        _ => panic!("a request under quota must be admitted"),
    }
}

#[test]
fn unknown_path_in_tracked_set_falls_back_to_authorization() {
    let mut tracked_paths = default_tracked_paths();
    tracked_paths.push(b"/baz".to_vec());
    let blob = sample_blob();
    let d = decide_request(&tracked_paths, Some(&blob), &b"/baz".to_vec(), Some(&b"K".to_vec()));
    match d {
        HeaderDecision::DispatchAuth { body } => {
            assert_eq!(body, b"{\"token\":\"K\",\"path\":\"/baz\"}".to_vec());
        }
        _ => panic!("a record must never be synthesized for an unknown path"),
    }
}

#[test]
fn malformed_blob_is_treated_as_cache_miss() {
    let tracked_paths = default_tracked_paths();
    let garbage = b"certainly not a blob".to_vec();
    let d = decide_request(&tracked_paths, Some(&garbage), &b"/foo".to_vec(), Some(&b"X".to_vec()));
    assert!(matches!(d, HeaderDecision::DispatchAuth { .. }));
}

#[test]
fn blob_round_trip_preserves_every_record() {
    let records = vec![
        record(b"/foo", 100, 3),
        record(b"/bar", 50, 50),
        record(b"", 0, 0),
        record(b"/baz", u64::MAX, u64::MAX - 1),
    ];
    let blob = encode_blob(&records);
    let decoded = decode_blob(&blob).expect("an encoded blob must decode");
    assert_eq!(decoded.len(), records.len());
    for (d, r) in decoded.iter().zip(records.iter()) {
        assert_eq!(d.path, r.path);
        assert_eq!(d.quota, r.quota);
        assert_eq!(d.used, r.used);
    }
}

#[test]
fn empty_record_set_round_trips() {
    let blob = encode_blob(&Vec::new());
    let decoded = decode_blob(&blob).expect("the empty blob must decode");
    assert!(decoded.is_empty());
}

#[test]
fn blob_layout_is_exactly_as_documented() {
    let blob = encode_blob(&vec![record(b"/a", 2, 1)]);
    let mut expected = vec![BLOB_VERSION];
    expected.extend_from_slice(&1u64.to_le_bytes());
    expected.extend_from_slice(&2u64.to_le_bytes());
    expected.extend_from_slice(b"/a");
    expected.extend_from_slice(&2u64.to_le_bytes());
    expected.extend_from_slice(&1u64.to_le_bytes());
    assert_eq!(blob, expected);
}

#[test]
fn malformed_blobs_are_rejected() {
    assert!(decode_blob(b"").is_none());
    assert!(decode_blob(&[BLOB_VERSION]).is_none());
    let good = encode_blob(&vec![record(b"/a", 2, 1)]);
    let mut wrong_version = good.clone();
    wrong_version[0] = wrong_version[0].wrapping_add(1);
    assert!(decode_blob(&wrong_version).is_none());
    let truncated = &good[..good.len() - 1];
    assert!(decode_blob(truncated).is_none());
    let mut trailing = good.clone();
    trailing.push(0);
    assert!(decode_blob(&trailing).is_none());
}

#[test]
fn auth_request_escapes_token_and_path() {
    let body = encode_auth_request(b"a\"b\\c\nd", b"/foo");
    assert_eq!(body, b"{\"token\":\"a\\\"b\\\\c\\u000ad\",\"path\":\"/foo\"}".to_vec());
}

#[test]
fn get_cache_record_reads_only_tracked_known_paths() {
    let tracked_paths = default_tracked_paths();
    let blob = sample_blob();
    let hit = get_cache_record(&tracked_paths, Some(&blob), &b"/bar".to_vec());
    let hit = hit.expect("a tracked_paths, cached path must be found");
    assert_eq!(hit.path, b"/bar".to_vec());
    assert_eq!(hit.quota, 50);
    assert_eq!(hit.used, 50);
    // An untracked path never reads the cache, even when the blob would know it.
    let blob2 = encode_blob(&vec![record(b"/elsewhere", 9, 0)]);
    assert!(get_cache_record(&tracked_paths, Some(&blob2), &b"/elsewhere".to_vec()).is_none());
    assert!(get_cache_record(&tracked_paths, None, &b"/foo".to_vec()).is_none());
    assert!(get_cache_record(&tracked_paths, Some(&b"junk".to_vec()), &b"/foo".to_vec()).is_none());
}

#[test]
fn update_cache_record_raises_used_once() {
    let blob = sample_blob();
    let updated = update_cache_record(&blob, &b"/foo".to_vec());
    let updated = updated.expect("a known path must be updatable");
    let records = decode_blob(&updated).unwrap();
    assert_eq!(records[0].used, 4);
    assert_eq!(records[1].used, 50);
    assert!(update_cache_record(&blob, &b"/unknown".to_vec()).is_none());
    assert!(update_cache_record(&b"junk".to_vec(), &b"/foo".to_vec()).is_none());
}

#[test]
fn status_mapping_is_exact() {
    assert_eq!(auth_status_outcome(Some(200)), AuthOutcome::Resume);
    assert_eq!(auth_status_outcome(Some(401)), AuthOutcome::Reject(LocalResponse::Unauthorized));
    assert_eq!(
        auth_status_outcome(Some(429)),
        AuthOutcome::Reject(LocalResponse::UpstreamQuotaExhausted)
    );
    assert_eq!(auth_status_outcome(Some(500)), AuthOutcome::Reject(LocalResponse::Unavailable));
    assert_eq!(auth_status_outcome(Some(0)), AuthOutcome::Reject(LocalResponse::Unavailable));
    assert_eq!(auth_status_outcome(None), AuthOutcome::Reject(LocalResponse::Unavailable));
}

#[test]
fn diagnostic_header_identifies_the_filter() {
    let (name, value) = diagnostic_header();
    assert_eq!(name, "x-powered-by");
    assert_eq!(value, "cache-filter");
}

#[test]
fn request_lifecycle_resolves_exactly_once() {
    let mut ctx = RequestContext::new();
    assert_eq!(ctx.phase(), RequestPhase::AwaitingHeaders);
    let tracked_paths = default_tracked_paths();
    let d = ctx.on_request_headers(&tracked_paths, None, &b"/foo".to_vec(), Some(&b"X".to_vec()));
    assert!(matches!(d, HeaderDecision::DispatchAuth { .. }));
    assert_eq!(ctx.phase(), RequestPhase::PendingAuth);
    let o = ctx.on_authorization_response(Some(&b"{\"status\":200}".to_vec()));
    assert_eq!(o, AuthOutcome::Resume);
    assert_eq!(ctx.phase(), RequestPhase::Resolved);
}

#[test]
fn locally_rejected_request_resolves_immediately() {
    let mut ctx = RequestContext::new();
    let tracked_paths = default_tracked_paths();
    let d = ctx.on_request_headers(&tracked_paths, None, &b"/foo".to_vec(), None);
    assert!(matches!(d, HeaderDecision::Reject(LocalResponse::Forbidden)));
    assert_eq!(ctx.phase(), RequestPhase::Resolved);
}

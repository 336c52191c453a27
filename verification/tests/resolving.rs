use std::collections::HashMap;
use thumbs_cache::key::s3_key;
use thumbs_cache::quality::{quality_at, Quality, LADDER_LEN};
use thumbs_cache::resolver::{after_fetch, after_lookup, begin, CacheRead, Next, Outcome};
use thumbs_cache::response::{cache_status, content_type, fallback_response, image_response, response_head};
use thumbs_cache::upstream::{classify_reply, thumbnail_url, url_fragment, Reply};

const ID: &str = "aGb3AlQrN9E";

fn not_found() -> Reply {
    Reply::Answered { status: 404, body: Some(b"Not Found".to_vec()) }
}

fn image(bytes: &[u8]) -> Reply {
    Reply::Answered { status: 200, body: Some(bytes.to_vec()) }
}

fn copy_of(reply: &Reply) -> Reply {
    match reply {
        Reply::Failed { carried } => Reply::Failed { carried: *carried },
        Reply::Answered { status, body } => Reply::Answered { status: *status, body: body.clone() },
    }
}

fn all_of(reply: fn() -> Reply) -> Vec<Reply> {
    (0..LADDER_LEN).map(|_| reply()).collect()
}

struct Run {
    outcome: Outcome,
    store: Option<String>,
    looked_up: Vec<String>,
    fetched: Vec<String>,
}

/// Drives one resolution against a cache and a table of upstream replies.
fn resolve(id: &str, cache: &HashMap<String, Vec<u8>>, failing_reads: bool, upstream: &[Reply]) -> Run {
    let mut looked_up = Vec::new();
    let mut fetched = Vec::new();
    let mut next = begin(id);
    loop {
        next = match next {
            Next::Lookup { tier, key } => {
                let read = match cache.get(&key) {
                    Some(bytes) => CacheRead::Found(bytes.clone()),
                    None if failing_reads => CacheRead::Failed,
                    None => CacheRead::Absent,
                };
                looked_up.push(key);
                after_lookup(id, tier, read)
            }
            Next::Fetch { tier, url } => {
                fetched.push(url);
                after_fetch(id, tier, copy_of(&upstream[tier]))
            }
            Next::Finish { outcome, store } => {
                return Run { outcome, store, looked_up, fetched };
            }
        };
    }
}

fn all_keys(id: &str) -> Vec<String> {
    (0..LADDER_LEN).map(|tier| s3_key(id, &quality_at(tier))).collect()
}

#[test]
fn scenario_fresh_at_tier_four_then_hit() {
    let mut cache: HashMap<String, Vec<u8>> = HashMap::new();
    let upstream = vec![not_found(), not_found(), not_found(), not_found(), image(b"hq-webp"), image(b"hq-jpg")];
    let first = resolve(ID, &cache, false, &upstream);
    assert_eq!(first.outcome, Outcome::Fresh { data: b"hq-webp".to_vec(), quality: Quality::WebpHq });
    assert_eq!(first.store, Some("aG.hqdefault.aGb3AlQrN9E.webp".to_string()));
    assert_eq!(first.looked_up, all_keys(ID));
    assert_eq!(
        first.fetched,
        vec![
            "https://i.ytimg.com/vi_webp/aGb3AlQrN9E/maxresdefault.webp".to_string(),
            "https://i.ytimg.com/vi/aGb3AlQrN9E/maxresdefault.jpg".to_string(),
            "https://i.ytimg.com/vi_webp/aGb3AlQrN9E/sddefault.webp".to_string(),
            "https://i.ytimg.com/vi/aGb3AlQrN9E/sddefault.jpg".to_string(),
            "https://i.ytimg.com/vi_webp/aGb3AlQrN9E/hqdefault.webp".to_string(),
        ]
    );
    if let Outcome::Fresh { data, .. } = &first.outcome {
        cache.insert(first.store.clone().unwrap(), data.clone());
    }
    let second = resolve(ID, &cache, false, &upstream);
    assert_eq!(second.outcome, Outcome::Hit { data: b"hq-webp".to_vec(), quality: Quality::WebpHq });
    assert_eq!(second.store, None);
    assert!(second.fetched.is_empty());
    assert_eq!(second.looked_up, all_keys(ID)[..5].to_vec());
}

#[test]
fn scenario_transport_error_at_tier_one_aborts() {
    let cache: HashMap<String, Vec<u8>> = HashMap::new();
    let upstream = vec![
        not_found(),
        Reply::Failed { carried: None },
        image(b"sd-webp"),
        image(b"sd-jpg"),
        image(b"hq-webp"),
        image(b"hq-jpg"),
    ];
    let run = resolve(ID, &cache, false, &upstream);
    assert_eq!(run.outcome, Outcome::UpstreamFailure { status: 500 });
    assert_eq!(run.store, None);
    assert_eq!(run.fetched.len(), 2);
    assert_eq!(run.fetched[1], "https://i.ytimg.com/vi/aGb3AlQrN9E/maxresdefault.jpg");
    let head = response_head(&run.outcome);
    assert_eq!(head.status, 500);
    assert!(head.fallback);
}

#[test]
fn scenario_unexpected_status_aborts_with_that_status() {
    let cache: HashMap<String, Vec<u8>> = HashMap::new();
    let upstream = vec![
        not_found(),
        Reply::Answered { status: 503, body: Some(Vec::new()) },
        image(b"sd-webp"),
        image(b"sd-jpg"),
        image(b"hq-webp"),
        image(b"hq-jpg"),
    ];
    let run = resolve(ID, &cache, false, &upstream);
    assert_eq!(run.outcome, Outcome::UpstreamFailure { status: 503 });
    assert_eq!(run.fetched.len(), 2);
    assert_eq!(response_head(&run.outcome).status, 503);
}

#[test]
fn scenario_all_tiers_missing_is_exhausted() {
    let cache: HashMap<String, Vec<u8>> = HashMap::new();
    let upstream = all_of(not_found);
    let run = resolve(ID, &cache, false, &upstream);
    assert_eq!(run.outcome, Outcome::Exhausted);
    assert_eq!(run.store, None);
    assert_eq!(run.looked_up.len(), 6);
    assert_eq!(run.fetched.len(), 6);
    let head = response_head(&run.outcome);
    assert_eq!(head.status, 500);
    assert!(head.fallback);
    assert_eq!(head.content_type, "image/webp");
    assert_eq!(head.cache_status, None);
}

#[test]
fn invalid_identifier_touches_nothing() {
    let mut cache: HashMap<String, Vec<u8>> = HashMap::new();
    cache.insert("..".to_string(), b"x".to_vec());
    let upstream = all_of(|| image(b"a"));
    for id in ["", "short", "aGb3AlQrN9F", "aGb3.lQrN9E", "aGb3AlQrN9EE"] {
        let run = resolve(id, &cache, false, &upstream);
        assert_eq!(run.outcome, Outcome::ValidationFailure);
        assert_eq!(run.store, None);
        assert!(run.looked_up.is_empty());
        assert!(run.fetched.is_empty());
        assert_eq!(response_head(&run.outcome).status, 400);
    }
}

#[test]
fn cache_sweep_checks_every_tier() {
    for tier in 0..LADDER_LEN {
        let mut cache: HashMap<String, Vec<u8>> = HashMap::new();
        cache.insert(s3_key(ID, &quality_at(tier)), vec![tier as u8, 7]);
        let upstream = all_of(|| image(b"better"));
        let run = resolve(ID, &cache, false, &upstream);
        assert_eq!(run.outcome, Outcome::Hit { data: vec![tier as u8, 7], quality: quality_at(tier) });
        assert_eq!(run.looked_up.len(), tier + 1);
        assert!(run.fetched.is_empty());
        assert_eq!(run.store, None);
    }
}

#[test]
fn best_cached_tier_wins() {
    let mut cache: HashMap<String, Vec<u8>> = HashMap::new();
    cache.insert(s3_key(ID, &Quality::JpgHq), b"low".to_vec());
    cache.insert(s3_key(ID, &Quality::JpgSd), b"mid".to_vec());
    let run = resolve(ID, &cache, false, &all_of(not_found));
    assert_eq!(run.outcome, Outcome::Hit { data: b"mid".to_vec(), quality: Quality::JpgSd });
}

#[test]
fn failed_cache_reads_count_as_misses() {
    let cache: HashMap<String, Vec<u8>> = HashMap::new();
    let upstream = vec![image(b"top"), not_found(), not_found(), not_found(), not_found(), not_found()];
    let run = resolve(ID, &cache, true, &upstream);
    assert_eq!(run.outcome, Outcome::Fresh { data: b"top".to_vec(), quality: Quality::WebpMaxres });
    assert_eq!(run.looked_up.len(), 6);
    assert_eq!(run.fetched.len(), 1);
    assert_eq!(run.store, Some("aG.maxresdefault.aGb3AlQrN9E.webp".to_string()));
}

#[test]
fn fresh_at_every_tier() {
    for tier in 0..LADDER_LEN {
        let cache: HashMap<String, Vec<u8>> = HashMap::new();
        let mut upstream = all_of(not_found);
        upstream[tier] = image(&[tier as u8]);
        let run = resolve(ID, &cache, false, &upstream);
        assert_eq!(run.outcome, Outcome::Fresh { data: vec![tier as u8], quality: quality_at(tier) });
        assert_eq!(run.fetched.len(), tier + 1);
        assert_eq!(run.store, Some(s3_key(ID, &quality_at(tier))));
    }
}

#[test]
fn steps_one_by_one() {
    assert_eq!(begin(ID), Next::Lookup { tier: 0, key: "aG.maxresdefault.aGb3AlQrN9E.webp".to_string() });
    assert_eq!(begin("nope"), Next::Finish { outcome: Outcome::ValidationFailure, store: None });
    assert_eq!(
        after_lookup(ID, 0, CacheRead::Absent),
        Next::Lookup { tier: 1, key: "aG.maxresdefault.aGb3AlQrN9E.jpg".to_string() }
    );
    assert_eq!(
        after_lookup(ID, 5, CacheRead::Absent),
        Next::Fetch { tier: 0, url: "https://i.ytimg.com/vi_webp/aGb3AlQrN9E/maxresdefault.webp".to_string() }
    );
    assert_eq!(
        after_lookup(ID, 3, CacheRead::Found(vec![1, 2])),
        Next::Finish { outcome: Outcome::Hit { data: vec![1, 2], quality: Quality::JpgSd }, store: None }
    );
    assert_eq!(
        after_fetch(ID, 2, not_found()),
        Next::Fetch { tier: 3, url: "https://i.ytimg.com/vi/aGb3AlQrN9E/sddefault.jpg".to_string() }
    );
    assert_eq!(after_fetch(ID, 5, not_found()), Next::Finish { outcome: Outcome::Exhausted, store: None });
    assert_eq!(
        after_fetch(ID, 5, image(b"img")),
        Next::Finish {
            outcome: Outcome::Fresh { data: b"img".to_vec(), quality: Quality::JpgHq },
            store: Some("aG.hqdefault.aGb3AlQrN9E.jpg".to_string()),
        }
    );
    assert_eq!(
        after_fetch(ID, 0, Reply::Failed { carried: Some(404) }),
        Next::Fetch { tier: 1, url: "https://i.ytimg.com/vi/aGb3AlQrN9E/maxresdefault.jpg".to_string() }
    );
}

#[test]
fn replies_are_classified() {
    assert_eq!(classify_reply(image(b"abc")), Ok(b"abc".to_vec()));
    assert_eq!(classify_reply(Reply::Answered { status: 200, body: Some(Vec::new()) }), Ok(Vec::new()));
    assert_eq!(classify_reply(Reply::Answered { status: 200, body: None }), Err(500));
    assert_eq!(classify_reply(not_found()), Err(404));
    assert_eq!(classify_reply(Reply::Answered { status: 404, body: None }), Err(404));
    assert_eq!(classify_reply(Reply::Answered { status: 204, body: Some(b"x".to_vec()) }), Err(204));
    assert_eq!(classify_reply(Reply::Answered { status: 301, body: Some(b"x".to_vec()) }), Err(301));
    assert_eq!(classify_reply(Reply::Answered { status: 429, body: None }), Err(429));
    assert_eq!(classify_reply(Reply::Failed { carried: None }), Err(500));
    assert_eq!(classify_reply(Reply::Failed { carried: Some(502) }), Err(502));
}

#[test]
fn upstream_addresses() {
    assert_eq!(
        thumbnail_url("aGb3AlQrN9E", &Quality::WebpMaxres),
        "https://i.ytimg.com/vi_webp/aGb3AlQrN9E/maxresdefault.webp"
    );
    assert_eq!(
        thumbnail_url("v5Zo0mUO-GE", &Quality::JpgMaxres),
        "https://i.ytimg.com/vi/v5Zo0mUO-GE/maxresdefault.jpg"
    );
    assert_eq!(
        thumbnail_url("OVoqDpjN_Do", &Quality::WebpSd),
        "https://i.ytimg.com/vi_webp/OVoqDpjN_Do/sddefault.webp"
    );
    assert_eq!(
        thumbnail_url("vgD1tVd9ubA", &Quality::JpgSd),
        "https://i.ytimg.com/vi/vgD1tVd9ubA/sddefault.jpg"
    );
    assert_eq!(
        thumbnail_url("6xKLBne1CoI", &Quality::WebpHq),
        "https://i.ytimg.com/vi_webp/6xKLBne1CoI/hqdefault.webp"
    );
    assert_eq!(
        thumbnail_url("VLM5ECY07nw", &Quality::JpgHq),
        "https://i.ytimg.com/vi/VLM5ECY07nw/hqdefault.jpg"
    );
    assert_eq!(url_fragment(&Quality::WebpSd), "sddefault.webp");
    assert_eq!(url_fragment(&Quality::JpgMaxres), "maxresdefault.jpg");
}

#[test]
fn response_heads() {
    assert_eq!(content_type(&Quality::WebpMaxres), "image/webp");
    assert_eq!(content_type(&Quality::WebpSd), "image/webp");
    assert_eq!(content_type(&Quality::WebpHq), "image/webp");
    assert_eq!(content_type(&Quality::JpgMaxres), "image/jpeg");
    assert_eq!(content_type(&Quality::JpgSd), "image/jpeg");
    assert_eq!(content_type(&Quality::JpgHq), "image/jpeg");
    assert_eq!(cache_status(true), "ThumbsCache; hit");
    assert_eq!(cache_status(false), "ThumbsCache; fwd=uri-miss; stored");

    let hit = response_head(&Outcome::Hit { data: vec![1], quality: Quality::JpgSd });
    assert_eq!(hit.status, 200);
    assert_eq!(hit.content_type, "image/jpeg");
    assert_eq!(hit.cache_status, Some("ThumbsCache; hit"));
    assert!(!hit.fallback);
    assert_eq!(hit, image_response(&Quality::JpgSd, true));

    let fresh = response_head(&Outcome::Fresh { data: vec![1], quality: Quality::WebpHq });
    assert_eq!(fresh.status, 200);
    assert_eq!(fresh.content_type, "image/webp");
    assert_eq!(fresh.cache_status, Some("ThumbsCache; fwd=uri-miss; stored"));
    assert!(!fresh.fallback);

    let invalid = response_head(&Outcome::ValidationFailure);
    assert_eq!(invalid, fallback_response(400));
    assert_eq!(invalid.status, 400);
    assert_eq!(invalid.content_type, "image/webp");
    assert_eq!(invalid.cache_status, None);
    assert!(invalid.fallback);

    assert_eq!(response_head(&Outcome::UpstreamFailure { status: 403 }).status, 403);
    assert_eq!(response_head(&Outcome::Exhausted).status, 500);
}

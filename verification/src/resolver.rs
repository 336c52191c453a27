//! The cache-aside resolver, as a machine that is told what the cache and
//! upstream answered and says what to ask next. Whoever drives it performs
//! the reads; every decision is taken here.
//!
//! A resolution sweeps the cache over the whole ladder, best tier first,
//! and ends at the first hit. Only after a miss on every tier it sweeps
//! upstream in the same order: the image ends the sweep, "not found" moves
//! on, and any other failure ends the resolution at once with its status.

use crate::key::{key_text, s3_key};
use crate::quality::{ladder, quality_at, Quality, LADDER_LEN};
use crate::upstream::{
    classify_reply, reply_result, result_view, thumbnail_url, url_text, Reply, STATUS_NOT_FOUND,
};
use crate::video_id::{is_video_id, validate_video_id};
use vstd::prelude::*;

verus! {

/// How a resolution ended.
#[derive(Debug, PartialEq, Eq)]
pub enum Outcome {
    /// The cache held the image in `quality`.
    Hit { data: Vec<u8>, quality: Quality },
    /// Upstream supplied the image in `quality`; the cache did not hold any.
    Fresh { data: Vec<u8>, quality: Quality },
    /// The identifier is not well formed. Nothing was looked up or fetched.
    ValidationFailure,
    /// Upstream failed with `status`, other than by "not found".
    UpstreamFailure { status: u16 },
    /// Upstream has the image in no tier.
    Exhausted,
}

/// `Outcome` over sequences.
pub enum OutcomeView {
    Hit { data: Seq<u8>, quality: Quality },
    Fresh { data: Seq<u8>, quality: Quality },
    ValidationFailure,
    UpstreamFailure { status: u16 },
    Exhausted,
}

impl View for Outcome {
    type V = OutcomeView;

    open spec fn view(&self) -> OutcomeView {
        match *self {
            Outcome::Hit { data, quality } => OutcomeView::Hit { data: data@, quality },
            Outcome::Fresh { data, quality } => OutcomeView::Fresh { data: data@, quality },
            Outcome::ValidationFailure => OutcomeView::ValidationFailure,
            Outcome::UpstreamFailure { status } => OutcomeView::UpstreamFailure { status },
            Outcome::Exhausted => OutcomeView::Exhausted,
        }
    }
}

/// What a read of one key from the cache came to.
#[derive(Debug, PartialEq, Eq)]
pub enum CacheRead {
    /// The cache holds these bytes under the key.
    Found(Vec<u8>),
    /// The cache holds nothing under the key.
    Absent,
    /// The backend failed. For the resolution this counts as a miss.
    Failed,
}

/// The bytes that a cache read contributes to a resolution, if any.
pub open spec fn cache_read_bytes(read: CacheRead) -> Option<Seq<u8>> {
    match read {
        CacheRead::Found(data) => Some(data@),
        CacheRead::Absent => None,
        CacheRead::Failed => None,
    }
}

/// What the driver has to do next.
#[derive(Debug, PartialEq, Eq)]
pub enum Next {
    /// Read `key` from the cache and report with `after_lookup` for `tier`.
    Lookup { tier: usize, key: String },
    /// Fetch `url` and report with `after_fetch` for `tier`.
    Fetch { tier: usize, url: String },
    /// Answer with `outcome`. Where `store` holds a key, write the image
    /// to the cache under it, without making the answer wait.
    Finish { outcome: Outcome, store: Option<String> },
}

/// `Next` over sequences.
pub enum NextView {
    Lookup { tier: int, key: Seq<char> },
    Fetch { tier: int, url: Seq<char> },
    Finish { outcome: OutcomeView, store: Option<Seq<char>> },
}

impl View for Next {
    type V = NextView;

    open spec fn view(&self) -> NextView {
        match *self {
            Next::Lookup { tier, key } => NextView::Lookup { tier: tier as int, key: key@ },
            Next::Fetch { tier, url } => NextView::Fetch { tier: tier as int, url: url@ },
            Next::Finish { outcome, store } => NextView::Finish {
                outcome: outcome@,
                store: match store {
                    Some(key) => Some(key@),
                    None => None,
                },
            },
        }
    }
}

/// The request that opens the cache sweep at `tier`.
pub open spec fn lookup_at(video_id: Seq<char>, tier: int) -> NextView {
    NextView::Lookup { tier, key: key_text(video_id, ladder()[tier]) }
}

/// The request that fetches `tier` from upstream.
pub open spec fn fetch_at(video_id: Seq<char>, tier: int) -> NextView {
    NextView::Fetch { tier, url: url_text(video_id, ladder()[tier]) }
}

/// The end of a resolution that stores nothing.
pub open spec fn finish_with(outcome: OutcomeView) -> NextView {
    NextView::Finish { outcome, store: None }
}

/// The first step: an identifier that is not well formed ends the
/// resolution at once, any other opens the cache sweep at the best tier.
pub open spec fn first_step(video_id: Seq<char>) -> NextView {
    if is_video_id(video_id) {
        lookup_at(video_id, 0)
    } else {
        finish_with(OutcomeView::ValidationFailure)
    }
}

/// The step after the cache answered for `tier`: bytes are a hit; a miss
/// moves to the next tier, and after the last tier to upstream.
pub open spec fn step_after_lookup(
    video_id: Seq<char>,
    tier: int,
    found: Option<Seq<u8>>,
) -> NextView {
    match found {
        Some(data) => finish_with(OutcomeView::Hit { data, quality: ladder()[tier] }),
        None => if tier + 1 < LADDER_LEN {
            lookup_at(video_id, tier + 1)
        } else {
            fetch_at(video_id, 0)
        },
    }
}

/// The step after upstream answered for `tier`: the image ends the
/// resolution and is to be stored under the key of that tier; "not found"
/// moves to the next tier, and after the last tier the ladder is
/// exhausted; any other status ends the resolution as a failure.
pub open spec fn step_after_fetch(
    video_id: Seq<char>,
    tier: int,
    result: Result<Seq<u8>, u16>,
) -> NextView {
    match result {
        Ok(data) => NextView::Finish {
            outcome: OutcomeView::Fresh { data, quality: ladder()[tier] },
            store: Some(key_text(video_id, ladder()[tier])),
        },
        Err(status) => if status != STATUS_NOT_FOUND {
            finish_with(OutcomeView::UpstreamFailure { status })
        } else if tier + 1 < LADDER_LEN {
            fetch_at(video_id, tier + 1)
        } else {
            finish_with(OutcomeView::Exhausted)
        },
    }
}

/// Opens a resolution for `video_id`.
pub fn begin(video_id: &str) -> (next: Next)
    ensures
        next@ == first_step(video_id@),
{
    if validate_video_id(video_id) {
        let quality = quality_at(0);
        Next::Lookup { tier: 0, key: s3_key(video_id, &quality) }
    } else {
        Next::Finish { outcome: Outcome::ValidationFailure, store: None }
    }
}

/// Takes the cache's answer for `tier` and says what follows.
pub fn after_lookup(video_id: &str, tier: usize, read: CacheRead) -> (next: Next)
    requires
        is_video_id(video_id@),
        tier < LADDER_LEN,
    ensures
        next@ == step_after_lookup(video_id@, tier as int, cache_read_bytes(read)),
{
    match read {
        CacheRead::Found(data) => Next::Finish {
            outcome: Outcome::Hit { data, quality: quality_at(tier) },
            store: None,
        },
        CacheRead::Absent | CacheRead::Failed => {
            if tier + 1 < LADDER_LEN {
                let quality = quality_at(tier + 1);
                Next::Lookup { tier: tier + 1, key: s3_key(video_id, &quality) }
            } else {
                let quality = quality_at(0);
                Next::Fetch { tier: 0, url: thumbnail_url(video_id, &quality) }
            }
        },
    }
}

/// Takes upstream's answer for `tier` and says what follows.
pub fn after_fetch(video_id: &str, tier: usize, reply: Reply) -> (next: Next)
    requires
        is_video_id(video_id@),
        tier < LADDER_LEN,
    ensures
        next@ == step_after_fetch(video_id@, tier as int, reply_result(reply@)),
{
    let result = classify_reply(reply);
    assert(result_view(result) == reply_result(reply@));
    match result {
        Ok(data) => {
            let quality = quality_at(tier);
            Next::Finish {
                outcome: Outcome::Fresh { data, quality },
                store: Some(s3_key(video_id, &quality)),
            }
        },
        Err(status) => {
            if status != STATUS_NOT_FOUND {
                Next::Finish { outcome: Outcome::UpstreamFailure { status }, store: None }
            } else if tier + 1 < LADDER_LEN {
                let quality = quality_at(tier + 1);
                Next::Fetch { tier: tier + 1, url: thumbnail_url(video_id, &quality) }
            } else {
                Next::Finish { outcome: Outcome::Exhausted, store: None }
            }
        },
    }
}

} // verus!

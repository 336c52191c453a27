//! What a whole resolution comes to, given what the cache holds and what
//! upstream answers, and the proof that driving the resolver's steps
//! arrives there.

use crate::key::{key_text, law_keys_differ_by_quality};
use crate::quality::{ladder, LADDER_LEN};
use crate::resolver::{
    fetch_at, first_step, lookup_at, step_after_fetch, step_after_lookup, NextView, OutcomeView,
};
use crate::upstream::STATUS_NOT_FOUND;
use crate::video_id::is_video_id;
use vstd::prelude::*;

verus! {

/// The cache as the resolver sees it: bytes by key.
pub type CacheModel = Map<Seq<char>, Seq<u8>>;

/// Upstream as the resolver sees it for one video: the result of a fetch
/// of each tier.
pub type UpstreamModel = Seq<Result<Seq<u8>, u16>>;

/// A finished resolution: its outcome, the number of cache reads and of
/// upstream fetches it took, and the key under which the image is to be
/// stored, if it is.
pub struct Trace {
    pub outcome: OutcomeView,
    pub lookups: int,
    pub fetches: int,
    pub stored: Option<Seq<char>>,
}

/// What a read of `key` gives.
pub open spec fn cached(cache: CacheModel, key: Seq<char>) -> Option<Seq<u8>> {
    if cache.contains_key(key) {
        Some(cache[key])
    } else {
        None
    }
}

/// What the cache holds of `tier` of a video.
pub open spec fn cached_tier(cache: CacheModel, video_id: Seq<char>, tier: int) -> Option<
    Seq<u8>,
> {
    cached(cache, key_text(video_id, ladder()[tier]))
}

/// The steps still to come after `next`, at most.
pub open spec fn steps_left(next: NextView) -> int {
    match next {
        NextView::Lookup { tier, .. } => 2 * LADDER_LEN - tier,
        NextView::Fetch { tier, .. } => LADDER_LEN - tier,
        NextView::Finish { .. } => 0,
    }
}

/// Drives the resolver from `next` to its end: each read it asks for is
/// answered from `cache`, each fetch from `upstream`, and the answer is
/// handed to the step for that tier. `lookups` and `fetches` count what
/// was asked so far.
pub open spec fn drive(
    video_id: Seq<char>,
    cache: CacheModel,
    upstream: UpstreamModel,
    next: NextView,
    lookups: int,
    fetches: int,
) -> Trace
    decreases steps_left(next),
{
    match next {
        NextView::Finish { outcome, store } => Trace { outcome, lookups, fetches, stored: store },
        NextView::Lookup { tier, key } => if 0 <= tier < LADDER_LEN {
            drive(
                video_id,
                cache,
                upstream,
                step_after_lookup(video_id, tier, cached(cache, key)),
                lookups + 1,
                fetches,
            )
        } else {
            arbitrary()
        },
        NextView::Fetch { tier, url } => if 0 <= tier < LADDER_LEN {
            drive(
                video_id,
                cache,
                upstream,
                step_after_fetch(video_id, tier, upstream[tier]),
                lookups,
                fetches + 1,
            )
        } else {
            arbitrary()
        },
    }
}

/// A whole resolution of `video_id`, driven from its first step.
pub open spec fn run(video_id: Seq<char>, cache: CacheModel, upstream: UpstreamModel) -> Trace {
    drive(video_id, cache, upstream, first_step(video_id), 0, 0)
}

/// The first tier from `from` on that the cache holds, or the ladder's
/// length if it holds none of them.
pub open spec fn first_cached(cache: CacheModel, video_id: Seq<char>, from: int) -> int
    decreases LADDER_LEN - from,
{
    if from >= LADDER_LEN {
        LADDER_LEN as int
    } else if cached_tier(cache, video_id, from) is Some {
        from
    } else {
        first_cached(cache, video_id, from + 1)
    }
}

/// The first tier from `from` on for which upstream answers anything but
/// "not found", or the ladder's length if there is none.
pub open spec fn first_decisive(upstream: UpstreamModel, from: int) -> int
    decreases LADDER_LEN - from,
{
    if from >= LADDER_LEN {
        LADDER_LEN as int
    } else if upstream[from] != Err::<Seq<u8>, u16>(STATUS_NOT_FOUND) {
        from
    } else {
        first_decisive(upstream, from + 1)
    }
}

/// The end of an upstream sweep that starts at `from`, after `lookups`
/// cache reads: decided by the first tier that answers anything but "not
/// found", with one fetch for each tier up to it.
pub open spec fn upstream_sweep(
    video_id: Seq<char>,
    upstream: UpstreamModel,
    from: int,
    lookups: int,
) -> Trace {
    let tier = first_decisive(upstream, from);
    if tier >= LADDER_LEN {
        Trace { outcome: OutcomeView::Exhausted, lookups, fetches: LADDER_LEN as int, stored: None }
    } else {
        match upstream[tier] {
            Ok(data) => Trace {
                outcome: OutcomeView::Fresh { data, quality: ladder()[tier] },
                lookups,
                fetches: tier + 1,
                stored: Some(key_text(video_id, ladder()[tier])),
            },
            Err(status) => Trace {
                outcome: OutcomeView::UpstreamFailure { status },
                lookups,
                fetches: tier + 1,
                stored: None,
            },
        }
    }
}

/// The end of a cache sweep that starts at `from`: a hit at the first
/// tier that the cache holds, with one read for each tier up to it and no
/// fetch; else a full upstream sweep after a read of every tier.
pub open spec fn cache_sweep(
    video_id: Seq<char>,
    cache: CacheModel,
    upstream: UpstreamModel,
    from: int,
) -> Trace {
    let tier = first_cached(cache, video_id, from);
    if tier >= LADDER_LEN {
        upstream_sweep(video_id, upstream, 0, LADDER_LEN as int)
    } else {
        Trace {
            outcome: OutcomeView::Hit {
                data: cached_tier(cache, video_id, tier).unwrap(),
                quality: ladder()[tier],
            },
            lookups: tier + 1,
            fetches: 0,
            stored: None,
        }
    }
}

/// What resolving `video_id` comes to.
pub open spec fn resolution(
    video_id: Seq<char>,
    cache: CacheModel,
    upstream: UpstreamModel,
) -> Trace {
    if is_video_id(video_id) {
        cache_sweep(video_id, cache, upstream, 0)
    } else {
        Trace { outcome: OutcomeView::ValidationFailure, lookups: 0, fetches: 0, stored: None }
    }
}

/// A tier that the cache holds, with none held between `from` and it, is
/// `first_cached`.
pub proof fn lemma_first_cached_is(cache: CacheModel, video_id: Seq<char>, from: int, hit: int)
    requires
        0 <= from <= hit < LADDER_LEN,
        cached_tier(cache, video_id, hit) is Some,
        forall|tier: int| from <= tier < hit ==> cached_tier(cache, video_id, tier) is None,
    ensures
        first_cached(cache, video_id, from) == hit,
    decreases hit - from,
{
    if from < hit {
        lemma_first_cached_is(cache, video_id, from + 1, hit);
    }
}

/// A cache that holds no tier from `from` on has no first one.
pub proof fn lemma_first_cached_none(cache: CacheModel, video_id: Seq<char>, from: int)
    requires
        0 <= from <= LADDER_LEN,
        forall|tier: int| from <= tier < LADDER_LEN ==> cached_tier(cache, video_id, tier) is None,
    ensures
        first_cached(cache, video_id, from) == LADDER_LEN,
    decreases LADDER_LEN - from,
{
    if from < LADDER_LEN {
        lemma_first_cached_none(cache, video_id, from + 1);
    }
}

/// A tier that answers anything but "not found", with "not found" on every
/// tier between `from` and it, is `first_decisive`.
pub proof fn lemma_first_decisive_is(upstream: UpstreamModel, from: int, tier: int)
    requires
        0 <= from <= tier < LADDER_LEN,
        upstream[tier] != Err::<Seq<u8>, u16>(STATUS_NOT_FOUND),
        forall|t: int| from <= t < tier ==> upstream[t] == Err::<Seq<u8>, u16>(STATUS_NOT_FOUND),
    ensures
        first_decisive(upstream, from) == tier,
    decreases tier - from,
{
    if from < tier {
        lemma_first_decisive_is(upstream, from + 1, tier);
    }
}

/// Where every tier from `from` on answers "not found", none is decisive.
pub proof fn lemma_first_decisive_none(upstream: UpstreamModel, from: int)
    requires
        0 <= from <= LADDER_LEN,
        forall|t: int|
            from <= t < LADDER_LEN ==> upstream[t] == Err::<Seq<u8>, u16>(STATUS_NOT_FOUND),
    ensures
        first_decisive(upstream, from) == LADDER_LEN,
    decreases LADDER_LEN - from,
{
    if from < LADDER_LEN {
        lemma_first_decisive_none(upstream, from + 1);
    }
}

/// Driving the fetches from `tier` on arrives at the upstream sweep's end.
pub proof fn lemma_drive_fetches(
    video_id: Seq<char>,
    cache: CacheModel,
    upstream: UpstreamModel,
    tier: int,
    lookups: int,
)
    requires
        0 <= tier < LADDER_LEN,
    ensures
        drive(video_id, cache, upstream, fetch_at(video_id, tier), lookups, tier)
            == upstream_sweep(video_id, upstream, tier, lookups),
    decreases LADDER_LEN - tier,
{
    let after = step_after_fetch(video_id, tier, upstream[tier]);
    assert(drive(video_id, cache, upstream, fetch_at(video_id, tier), lookups, tier) == drive(
        video_id,
        cache,
        upstream,
        after,
        lookups,
        tier + 1,
    ));
    if upstream[tier] == Err::<Seq<u8>, u16>(STATUS_NOT_FOUND) {
        if tier + 1 < LADDER_LEN {
            lemma_drive_fetches(video_id, cache, upstream, tier + 1, lookups);
        } else {
            assert(first_decisive(upstream, tier + 1) == LADDER_LEN);
        }
    }
}

/// Driving the reads from `tier` on arrives at the cache sweep's end.
pub proof fn lemma_drive_lookups(
    video_id: Seq<char>,
    cache: CacheModel,
    upstream: UpstreamModel,
    tier: int,
)
    requires
        0 <= tier < LADDER_LEN,
    ensures
        drive(video_id, cache, upstream, lookup_at(video_id, tier), tier, 0) == cache_sweep(
            video_id,
            cache,
            upstream,
            tier,
        ),
    decreases LADDER_LEN - tier,
{
    let found = cached_tier(cache, video_id, tier);
    let after = step_after_lookup(video_id, tier, found);
    assert(drive(video_id, cache, upstream, lookup_at(video_id, tier), tier, 0) == drive(
        video_id,
        cache,
        upstream,
        after,
        tier + 1,
        0,
    ));
    if found is None {
        if tier + 1 < LADDER_LEN {
            lemma_drive_lookups(video_id, cache, upstream, tier + 1);
        } else {
            assert(first_cached(cache, video_id, tier + 1) == LADDER_LEN);
            lemma_drive_fetches(video_id, cache, upstream, 0, LADDER_LEN as int);
        }
    }
}

/// The resolver's steps, driven to the end, resolve as `resolution` says:
/// the cache is swept before upstream, each sweep walks the ladder from
/// its first entry and skips none, and the first hit, the first image or
/// the first failure ends it.
pub proof fn law_run_is_resolution(
    video_id: Seq<char>,
    cache: CacheModel,
    upstream: UpstreamModel,
)
    ensures
        run(video_id, cache, upstream) == resolution(video_id, cache, upstream),
{
    if is_video_id(video_id) {
        lemma_drive_lookups(video_id, cache, upstream, 0);
    }
}

/// An identifier that is not well formed is refused before any read of
/// the cache and any fetch.
pub proof fn law_invalid_id_touches_nothing(
    video_id: Seq<char>,
    cache: CacheModel,
    upstream: UpstreamModel,
)
    requires
        !is_video_id(video_id),
    ensures
        run(video_id, cache, upstream) == (Trace {
            outcome: OutcomeView::ValidationFailure,
            lookups: 0,
            fetches: 0,
            stored: None,
        }),
{
}

/// A tier that the cache holds is served from the cache, whatever better
/// tiers upstream may have, provided the cache holds no better one; no
/// fetch is made.
pub proof fn law_cached_tier_is_hit(
    video_id: Seq<char>,
    cache: CacheModel,
    upstream: UpstreamModel,
    tier: int,
)
    requires
        is_video_id(video_id),
        0 <= tier < LADDER_LEN,
        cached_tier(cache, video_id, tier) is Some,
        forall|better: int| 0 <= better < tier ==> cached_tier(cache, video_id, better) is None,
    ensures
        run(video_id, cache, upstream) == (Trace {
            outcome: OutcomeView::Hit {
                data: cached_tier(cache, video_id, tier).unwrap(),
                quality: ladder()[tier],
            },
            lookups: tier + 1,
            fetches: 0,
            stored: None,
        }),
{
    law_run_is_resolution(video_id, cache, upstream);
    lemma_first_cached_is(cache, video_id, 0, tier);
}

/// With nothing of the video in the cache, "not found" on every tier
/// above `tier` and the image at `tier`, the resolution is fresh at
/// `tier`, after one fetch for each tier down to it, and asks for the
/// image to be stored under that tier's key. Once it is stored, the same
/// resolution is a hit at `tier` with the same bytes and without a fetch,
/// whatever upstream would answer by then.
pub proof fn law_fresh_then_hit(
    video_id: Seq<char>,
    cache: CacheModel,
    upstream: UpstreamModel,
    later: UpstreamModel,
    tier: int,
    data: Seq<u8>,
)
    requires
        is_video_id(video_id),
        upstream.len() == LADDER_LEN,
        0 <= tier < LADDER_LEN,
        forall|t: int| 0 <= t < LADDER_LEN ==> cached_tier(cache, video_id, t) is None,
        forall|t: int| 0 <= t < tier ==> upstream[t] == Err::<Seq<u8>, u16>(STATUS_NOT_FOUND),
        upstream[tier] == Ok::<Seq<u8>, u16>(data),
    ensures
        run(video_id, cache, upstream) == (Trace {
            outcome: OutcomeView::Fresh { data, quality: ladder()[tier] },
            lookups: LADDER_LEN as int,
            fetches: tier + 1,
            stored: Some(key_text(video_id, ladder()[tier])),
        }),
        run(video_id, cache.insert(key_text(video_id, ladder()[tier]), data), later) == (Trace {
            outcome: OutcomeView::Hit { data, quality: ladder()[tier] },
            lookups: tier + 1,
            fetches: 0,
            stored: None,
        }),
{
    law_run_is_resolution(video_id, cache, upstream);
    lemma_first_cached_none(cache, video_id, 0);
    lemma_first_decisive_is(upstream, 0, tier);
    let stored = cache.insert(key_text(video_id, ladder()[tier]), data);
    assert forall|better: int| 0 <= better < tier implies cached_tier(
        stored,
        video_id,
        better,
    ) is None by {
        law_keys_differ_by_quality(video_id, ladder()[better], ladder()[tier]);
        assert(cached_tier(cache, video_id, better) is None);
    }
    law_cached_tier_is_hit(video_id, stored, later, tier);
}

/// With nothing of the video in the cache, "not found" on every tier
/// above `tier` and a failure with another status at `tier`, the
/// resolution fails with that status after one fetch for each tier down
/// to `tier`: no tier below it is tried, and nothing is stored.
pub proof fn law_failure_aborts_sweep(
    video_id: Seq<char>,
    cache: CacheModel,
    upstream: UpstreamModel,
    tier: int,
    status: u16,
)
    requires
        is_video_id(video_id),
        upstream.len() == LADDER_LEN,
        0 <= tier < LADDER_LEN,
        forall|t: int| 0 <= t < LADDER_LEN ==> cached_tier(cache, video_id, t) is None,
        forall|t: int| 0 <= t < tier ==> upstream[t] == Err::<Seq<u8>, u16>(STATUS_NOT_FOUND),
        upstream[tier] == Err::<Seq<u8>, u16>(status),
        status != STATUS_NOT_FOUND,
    ensures
        run(video_id, cache, upstream) == (Trace {
            outcome: OutcomeView::UpstreamFailure { status },
            lookups: LADDER_LEN as int,
            fetches: tier + 1,
            stored: None,
        }),
{
    law_run_is_resolution(video_id, cache, upstream);
    lemma_first_cached_none(cache, video_id, 0);
    lemma_first_decisive_is(upstream, 0, tier);
}

/// With nothing of the video in the cache and "not found" on every tier,
/// the resolution is exhausted after a fetch of every tier.
pub proof fn law_all_missing_is_exhausted(
    video_id: Seq<char>,
    cache: CacheModel,
    upstream: UpstreamModel,
)
    requires
        is_video_id(video_id),
        upstream.len() == LADDER_LEN,
        forall|t: int| 0 <= t < LADDER_LEN ==> cached_tier(cache, video_id, t) is None,
        forall|t: int|
            0 <= t < LADDER_LEN ==> upstream[t] == Err::<Seq<u8>, u16>(STATUS_NOT_FOUND),
    ensures
        run(video_id, cache, upstream) == (Trace {
            outcome: OutcomeView::Exhausted,
            lookups: LADDER_LEN as int,
            fetches: LADDER_LEN as int,
            stored: None,
        }),
{
    law_run_is_resolution(video_id, cache, upstream);
    lemma_first_cached_none(cache, video_id, 0);
    lemma_first_decisive_none(upstream, 0);
}

} // verus!

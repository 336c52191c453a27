//! What goes out for each outcome of a resolution: status, content type
//! and cache status. The body is the image, or the fixed fallback image
//! where there is none.

use crate::quality::Quality;
use crate::resolver::{Outcome, OutcomeView};
use crate::upstream::{STATUS_BAD_REQUEST, STATUS_OK, STATUS_SERVER_ERROR};
use vstd::prelude::*;

verus! {

/// The media type of a variant's encoding.
pub open spec fn content_type_text(quality: Quality) -> Seq<char> {
    if quality.is_webp() {
        "image/webp"@
    } else {
        "image/jpeg"@
    }
}

/// The cache-status line: a hit, or a miss that was forwarded and stored.
pub open spec fn cache_status_text(cache_hit: bool) -> Seq<char> {
    if cache_hit {
        "ThumbsCache; hit"@
    } else {
        "ThumbsCache; fwd=uri-miss; stored"@
    }
}

/// The media type of the fallback image.
pub open spec fn fallback_content_type_text() -> Seq<char> {
    "image/webp"@
}

/// The status that answers an outcome: 200 with an image, 400 for a
/// malformed identifier, upstream's own status where it failed, and 500
/// where no tier has the image.
pub open spec fn outcome_status(outcome: OutcomeView) -> u16 {
    match outcome {
        OutcomeView::Hit { .. } => STATUS_OK,
        OutcomeView::Fresh { .. } => STATUS_OK,
        OutcomeView::ValidationFailure => STATUS_BAD_REQUEST,
        OutcomeView::UpstreamFailure { status } => status,
        OutcomeView::Exhausted => STATUS_SERVER_ERROR,
    }
}

/// Whether the outcome carries an image; else the fallback image goes out.
pub open spec fn outcome_has_image(outcome: OutcomeView) -> bool {
    outcome is Hit || outcome is Fresh
}

/// The headers of a response, before its body.
#[derive(Clone, Copy, Debug, PartialEq, Eq)]
pub struct Head {
    pub status: u16,
    pub content_type: &'static str,
    /// Present with an image only.
    pub cache_status: Option<&'static str>,
    /// Whether the body is the fallback image.
    pub fallback: bool,
}

/// The headers that `outcome` is answered with.
pub open spec fn head_matches(head: Head, outcome: OutcomeView) -> bool {
    &&& head.status == outcome_status(outcome)
    &&& head.fallback == !outcome_has_image(outcome)
    &&& match outcome {
        OutcomeView::Hit { quality, .. } => {
            &&& head.content_type@ == content_type_text(quality)
            &&& head.cache_status matches Some(line)
            &&& line@ == cache_status_text(true)
        },
        OutcomeView::Fresh { quality, .. } => {
            &&& head.content_type@ == content_type_text(quality)
            &&& head.cache_status matches Some(line)
            &&& line@ == cache_status_text(false)
        },
        _ => {
            &&& head.content_type@ == fallback_content_type_text()
            &&& head.cache_status is None
        },
    }
}

/// The media type to serve `quality` with.
pub fn content_type(quality: &Quality) -> (media: &'static str)
    ensures
        media@ == content_type_text(*quality),
{
    match quality {
        Quality::WebpMaxres | Quality::WebpSd | Quality::WebpHq => "image/webp",
        Quality::JpgMaxres | Quality::JpgSd | Quality::JpgHq => "image/jpeg",
    }
}

/// The cache-status line of a response that carries an image.
pub fn cache_status(cache_hit: bool) -> (line: &'static str)
    ensures
        line@ == cache_status_text(cache_hit),
{
    if cache_hit {
        "ThumbsCache; hit"
    } else {
        "ThumbsCache; fwd=uri-miss; stored"
    }
}

/// The headers of the response that carries the image of `quality`.
pub fn image_response(quality: &Quality, cache_hit: bool) -> (head: Head)
    ensures
        head.status == STATUS_OK,
        head.content_type@ == content_type_text(*quality),
        head.cache_status matches Some(line) && line@ == cache_status_text(cache_hit),
        !head.fallback,
{
    Head {
        status: STATUS_OK,
        content_type: content_type(quality),
        cache_status: Some(cache_status(cache_hit)),
        fallback: false,
    }
}

/// The headers of the response that carries the fallback image.
pub fn fallback_response(status: u16) -> (head: Head)
    ensures
        head.status == status,
        head.content_type@ == fallback_content_type_text(),
        head.cache_status is None,
        head.fallback,
{
    Head { status, content_type: "image/webp", cache_status: None, fallback: true }
}

/// The headers that answer `outcome`.
pub fn response_head(outcome: &Outcome) -> (head: Head)
    ensures
        head_matches(head, outcome@),
{
    match outcome {
        Outcome::Hit { quality, .. } => image_response(quality, true),
        Outcome::Fresh { quality, .. } => image_response(quality, false),
        Outcome::ValidationFailure => fallback_response(STATUS_BAD_REQUEST),
        Outcome::UpstreamFailure { status } => fallback_response(*status),
        Outcome::Exhausted => fallback_response(STATUS_SERVER_ERROR),
    }
}

} // verus!

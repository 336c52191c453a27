//! The upstream image host: where each variant lives, and how to read
//! what a request for it came to.

use crate::quality::Quality;
use vstd::prelude::*;

verus! {

/// Status of a response that carries the image.
pub const STATUS_OK: u16 = 200;

/// Status with which upstream says that a variant does not exist. It moves
/// a sweep on to the next tier and is no failure.
pub const STATUS_NOT_FOUND: u16 = 404;

/// Status reported for an identifier that is not well formed.
pub const STATUS_BAD_REQUEST: u16 = 400;

/// Status reported where the failure has no status of its own, and where
/// no tier has the image.
pub const STATUS_SERVER_ERROR: u16 = 500;

/// The host directory of a variant's encoding.
pub open spec fn base_text(quality: Quality) -> Seq<char> {
    if quality.is_webp() {
        "https://i.ytimg.com/vi_webp"@
    } else {
        "https://i.ytimg.com/vi"@
    }
}

/// The file name of a variant on the host: slug, dot, extension.
pub open spec fn fragment_text(quality: Quality) -> Seq<char> {
    quality.slug_text() + seq!['.'] + quality.extension_text()
}

/// The address of a variant of a video's thumbnail.
pub open spec fn url_text(video_id: Seq<char>, quality: Quality) -> Seq<char> {
    base_text(quality) + seq!['/'] + video_id + seq!['/'] + fragment_text(quality)
}

/// The file name under which upstream serves `quality`.
pub fn url_fragment(quality: &Quality) -> (fragment: String)
    ensures
        fragment@ == fragment_text(*quality),
{
    let mut fragment = String::from_str(quality.slug());
    fragment.append(".");
    fragment.append(quality.file_extension());
    proof {
        reveal_strlit(".");
        assert("."@ == seq!['.']);
    }
    fragment
}

/// The address to fetch `quality` of `video_id` from.
pub fn thumbnail_url(video_id: &str, quality: &Quality) -> (url: String)
    ensures
        url@ == url_text(video_id@, *quality),
{
    let base = match quality {
        Quality::WebpMaxres | Quality::WebpSd | Quality::WebpHq => "https://i.ytimg.com/vi_webp",
        Quality::JpgMaxres | Quality::JpgSd | Quality::JpgHq => "https://i.ytimg.com/vi",
    };
    let fragment = url_fragment(quality);
    let mut url = String::from_str(base);
    url.append("/");
    url.append(video_id);
    url.append("/");
    url.append(fragment.as_str());
    proof {
        reveal_strlit("/");
        assert("/"@ == seq!['/']);
        assert(url@ == url_text(video_id@, *quality));
    }
    url
}

/// What one request to upstream came to, as the HTTP client reports it.
#[derive(Debug, PartialEq, Eq)]
pub enum Reply {
    /// No response arrived. `carried` is the status that the client's error
    /// carries, if it carries one.
    Failed { carried: Option<u16> },
    /// A response arrived with `status`. `body` is what was read of it, or
    /// `None` where reading it failed.
    Answered { status: u16, body: Option<Vec<u8>> },
}

/// `Reply` over sequences.
pub enum ReplyView {
    Failed { carried: Option<u16> },
    Answered { status: u16, body: Option<Seq<u8>> },
}

impl View for Reply {
    type V = ReplyView;

    open spec fn view(&self) -> ReplyView {
        match *self {
            Reply::Failed { carried } => ReplyView::Failed { carried },
            Reply::Answered { status, body } => ReplyView::Answered {
                status,
                body: match body {
                    Some(bytes) => Some(bytes@),
                    None => None,
                },
            },
        }
    }
}

/// The result of a request: the image, or the status that stands for what
/// went wrong. Only a response with status 200 whose body was read gives
/// the image. Another status is passed on as it is; a request that failed
/// gives its own status or 500; a body that could not be read gives 500.
pub open spec fn reply_result(reply: ReplyView) -> Result<Seq<u8>, u16> {
    match reply {
        ReplyView::Failed { carried: Some(status) } => Err(status),
        ReplyView::Failed { carried: None } => Err(STATUS_SERVER_ERROR),
        ReplyView::Answered { status, body } => if status != STATUS_OK {
            Err(status)
        } else {
            match body {
                Some(bytes) => Ok(bytes),
                None => Err(STATUS_SERVER_ERROR),
            }
        },
    }
}

/// The bytes of a fetch result, as a sequence.
pub open spec fn result_view(result: Result<Vec<u8>, u16>) -> Result<Seq<u8>, u16> {
    match result {
        Ok(bytes) => Ok(bytes@),
        Err(status) => Err(status),
    }
}

/// Reads a reply as the image or a failure status.
pub fn classify_reply(reply: Reply) -> (result: Result<Vec<u8>, u16>)
    ensures
        result_view(result) == reply_result(reply@),
{
    match reply {
        Reply::Failed { carried: Some(status) } => Err(status),
        Reply::Failed { carried: None } => Err(STATUS_SERVER_ERROR),
        Reply::Answered { status, body } => {
            if status != STATUS_OK {
                Err(status)
            } else {
                match body {
                    Some(bytes) => Ok(bytes),
                    None => Err(STATUS_SERVER_ERROR),
                }
            }
        },
    }
}

} // verus!

//! The closed catalog of thumbnail variants and their fallback order.

use crate::text::{dot_fields, same_text, split_fields};
use vstd::prelude::*;

verus! {

/// One thumbnail variant: a resolution tier in one encoding.
#[derive(Clone, Copy, Debug, PartialEq, Eq, Structural)]
pub enum Quality {
    WebpMaxres,
    JpgMaxres,
    WebpSd,
    JpgSd,
    WebpHq,
    JpgHq,
}

/// Number of entries in the fallback ladder.
pub const LADDER_LEN: usize = 6;

/// The fallback ladder: every variant once, best first. Lookups and
/// fetches walk it from the front.
pub open spec fn ladder() -> Seq<Quality> {
    seq![
        Quality::WebpMaxres,
        Quality::JpgMaxres,
        Quality::WebpSd,
        Quality::JpgSd,
        Quality::WebpHq,
        Quality::JpgHq,
    ]
}

/// The variant that a resolution slug and a file extension name together,
/// if they name one.
pub open spec fn quality_of(slug: Seq<char>, extension: Seq<char>) -> Option<Quality> {
    if extension == "webp"@ {
        if slug == "maxresdefault"@ {
            Some(Quality::WebpMaxres)
        } else if slug == "sddefault"@ {
            Some(Quality::WebpSd)
        } else if slug == "hqdefault"@ {
            Some(Quality::WebpHq)
        } else {
            None
        }
    } else if extension == "jpg"@ {
        if slug == "maxresdefault"@ {
            Some(Quality::JpgMaxres)
        } else if slug == "sddefault"@ {
            Some(Quality::JpgSd)
        } else if slug == "hqdefault"@ {
            Some(Quality::JpgHq)
        } else {
            None
        }
    } else {
        None
    }
}

/// The variant that a cache key was stored under: the key must have
/// exactly four fields, of which the second is the slug and the fourth the
/// extension. The first and third field are not looked at.
pub open spec fn quality_from_key(key: Seq<char>) -> Option<Quality> {
    let fields = dot_fields(key);
    if fields.len() == 4 {
        quality_of(fields[1], fields[3])
    } else {
        None
    }
}

impl Quality {
    /// Whether the variant is encoded as WebP (else it is JPEG).
    pub open spec fn is_webp(self) -> bool {
        self is WebpMaxres || self is WebpSd || self is WebpHq
    }

    /// The file extension of the variant's encoding.
    pub open spec fn extension_text(self) -> Seq<char> {
        if self.is_webp() {
            "webp"@
        } else {
            "jpg"@
        }
    }

    /// The resolution slug of the variant.
    pub open spec fn slug_text(self) -> Seq<char> {
        match self {
            Quality::WebpMaxres | Quality::JpgMaxres => "maxresdefault"@,
            Quality::WebpSd | Quality::JpgSd => "sddefault"@,
            Quality::WebpHq | Quality::JpgHq => "hqdefault"@,
        }
    }

    /// The variant's place in the ladder, 0 for the best.
    pub open spec fn tier_of(self) -> int {
        match self {
            Quality::WebpMaxres => 0,
            Quality::JpgMaxres => 1,
            Quality::WebpSd => 2,
            Quality::JpgSd => 3,
            Quality::WebpHq => 4,
            Quality::JpgHq => 5,
        }
    }

    /// What a log line calls the variant: slug, a space, extension.
    pub open spec fn label_text(self) -> Seq<char> {
        self.slug_text() + seq![' '] + self.extension_text()
    }

    pub fn file_extension(&self) -> (extension: &'static str)
        ensures
            extension@ == self.extension_text(),
    {
        match self {
            Quality::WebpMaxres | Quality::WebpSd | Quality::WebpHq => "webp",
            Quality::JpgMaxres | Quality::JpgSd | Quality::JpgHq => "jpg",
        }
    }

    pub fn slug(&self) -> (slug: &'static str)
        ensures
            slug@ == self.slug_text(),
    {
        match self {
            Quality::WebpMaxres | Quality::JpgMaxres => "maxresdefault",
            Quality::WebpSd | Quality::JpgSd => "sddefault",
            Quality::WebpHq | Quality::JpgHq => "hqdefault",
        }
    }

    /// The variant's place in the ladder.
    pub fn tier(&self) -> (tier: usize)
        ensures
            tier == self.tier_of(),
            tier < LADDER_LEN,
            ladder()[tier as int] == *self,
    {
        match self {
            Quality::WebpMaxres => 0,
            Quality::JpgMaxres => 1,
            Quality::WebpSd => 2,
            Quality::JpgSd => 3,
            Quality::WebpHq => 4,
            Quality::JpgHq => 5,
        }
    }

    /// The variant that `slug` and `extension` name, if any.
    pub fn from_parts(slug: &str, extension: &str) -> (quality: Option<Quality>)
        ensures
            quality == quality_of(slug@, extension@),
    {
        if same_text(extension, "webp") {
            if same_text(slug, "maxresdefault") {
                Some(Quality::WebpMaxres)
            } else if same_text(slug, "sddefault") {
                Some(Quality::WebpSd)
            } else if same_text(slug, "hqdefault") {
                Some(Quality::WebpHq)
            } else {
                None
            }
        } else if same_text(extension, "jpg") {
            if same_text(slug, "maxresdefault") {
                Some(Quality::JpgMaxres)
            } else if same_text(slug, "sddefault") {
                Some(Quality::JpgSd)
            } else if same_text(slug, "hqdefault") {
                Some(Quality::JpgHq)
            } else {
                None
            }
        } else {
            None
        }
    }

    /// Reads the variant back from a cache key. A key that is not of the
    /// stored form has no variant; that is an answer, not a failure.
    pub fn from_s3_key(key: &str) -> (quality: Option<Quality>)
        ensures
            quality == quality_from_key(key@),
    {
        let parts = split_fields(key);
        if parts.len() != 4 {
            return None;
        }
        Quality::from_parts(parts[1], parts[3])
    }

    /// The text that stands for the variant in log lines.
    pub fn to_string(&self) -> (label: String)
        ensures
            label@ == self.label_text(),
    {
        let mut label = String::from_str(self.slug());
        label.append(" ");
        label.append(self.file_extension());
        proof {
            reveal_strlit(" ");
            assert(" "@ == seq![' ']);
        }
        label
    }
}

/// The variant at position `tier` of the ladder.
pub fn quality_at(tier: usize) -> (quality: Quality)
    requires
        tier < LADDER_LEN,
    ensures
        quality == ladder()[tier as int],
        quality.tier_of() == tier,
{
    if tier == 0 {
        Quality::WebpMaxres
    } else if tier == 1 {
        Quality::JpgMaxres
    } else if tier == 2 {
        Quality::WebpSd
    } else if tier == 3 {
        Quality::JpgSd
    } else if tier == 4 {
        Quality::WebpHq
    } else {
        Quality::JpgHq
    }
}

/// The whole ladder, in fallback order.
pub fn supported_qualities() -> (all: Vec<Quality>)
    ensures
        all@ == ladder(),
{
    let mut all: Vec<Quality> = Vec::new();
    let mut tier: usize = 0;
    while tier < LADDER_LEN
        invariant
            tier <= LADDER_LEN,
            all@ == ladder().take(tier as int),
        decreases LADDER_LEN - tier,
    {
        all.push(quality_at(tier));
        proof {
            assert(ladder().take(tier as int).push(ladder()[tier as int]) == ladder().take(
                tier + 1,
            ));
        }
        tier += 1;
    }
    proof {
        assert(ladder().take(LADDER_LEN as int) == ladder());
    }
    all
}

/// Slug and extension together name the variant they came from: no two
/// entries of the ladder share both.
pub proof fn lemma_parts_name_quality(quality: Quality)
    ensures
        quality_of(quality.slug_text(), quality.extension_text()) == Some(quality),
{
    reveal_strlit("webp");
    reveal_strlit("jpg");
    reveal_strlit("maxresdefault");
    reveal_strlit("sddefault");
    reveal_strlit("hqdefault");
    assert("webp"@.len() != "jpg"@.len());
    assert("maxresdefault"@.len() != "sddefault"@.len());
    assert("maxresdefault"@.len() != "hqdefault"@.len());
    assert("sddefault"@[0] != "hqdefault"@[0]);
}

} // verus!

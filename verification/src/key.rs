//! Cache keys: the one name under which a variant of a video's thumbnail
//! is stored, and the laws that tie keys to variants.

use crate::quality::{lemma_parts_name_quality, quality_from_key, quality_of, Quality};
use crate::text::{dot_fields, dot_free, lemma_fields_of_dot_free, lemma_fields_of_join};
use crate::video_id::{is_video_id, lemma_video_id_dot_free};
use vstd::prelude::*;

verus! {

/// The cache key of a variant of a video's thumbnail: the identifier's
/// first two characters, the slug, the identifier and the extension,
/// joined by dots.
pub open spec fn key_text(video_id: Seq<char>, quality: Quality) -> Seq<char> {
    video_id.take(2) + seq!['.'] + quality.slug_text() + seq!['.'] + video_id + seq!['.']
        + quality.extension_text()
}

/// Builds the cache key for `quality` of `video_id`. The identifier must
/// have the two characters that the key begins with.
pub fn s3_key(video_id: &str, quality: &Quality) -> (key: String)
    requires
        video_id@.len() >= 2,
    ensures
        key@ == key_text(video_id@, *quality),
{
    let mut key = String::from_str(video_id.substring_char(0, 2));
    key.append(".");
    key.append(quality.slug());
    key.append(".");
    key.append(video_id);
    key.append(".");
    key.append(quality.file_extension());
    proof {
        reveal_strlit(".");
        assert("."@ == seq!['.']);
    }
    key
}

/// Slugs and extensions hold no dot.
pub proof fn lemma_parts_dot_free(quality: Quality)
    ensures
        dot_free(quality.slug_text()),
        dot_free(quality.extension_text()),
{
    reveal_strlit("webp");
    reveal_strlit("jpg");
    reveal_strlit("maxresdefault");
    reveal_strlit("sddefault");
    reveal_strlit("hqdefault");
}

/// The fields of a key built from a dot-free identifier of two characters
/// or more are the four parts it was built from.
pub proof fn lemma_key_fields(video_id: Seq<char>, quality: Quality)
    requires
        video_id.len() >= 2,
        dot_free(video_id),
    ensures
        dot_fields(key_text(video_id, quality)) == seq![
            video_id.take(2),
            quality.slug_text(),
            video_id,
            quality.extension_text(),
        ],
{
    let prefix = video_id.take(2);
    let slug = quality.slug_text();
    let extension = quality.extension_text();
    lemma_parts_dot_free(quality);
    assert forall|i: int| 0 <= i < prefix.len() implies prefix[i] != '.' by {
        assert(prefix[i] == video_id[i]);
    }
    lemma_fields_of_dot_free(prefix);
    lemma_fields_of_dot_free(slug);
    lemma_fields_of_dot_free(video_id);
    lemma_fields_of_dot_free(extension);
    let tail2 = video_id + seq!['.'] + extension;
    let tail3 = slug + seq!['.'] + tail2;
    lemma_fields_of_join(video_id, extension);
    lemma_fields_of_join(slug, tail2);
    lemma_fields_of_join(prefix, tail3);
    assert(key_text(video_id, quality) == prefix + seq!['.'] + tail3);
    assert(dot_fields(key_text(video_id, quality)) == seq![prefix, slug, video_id, extension]);
}

/// Round trip on the variant: the key built for a variant of a valid
/// identifier reads back as that variant.
pub proof fn law_key_round_trip(video_id: Seq<char>, quality: Quality)
    requires
        is_video_id(video_id),
    ensures
        quality_from_key(key_text(video_id, quality)) == Some(quality),
{
    lemma_video_id_dot_free(video_id);
    lemma_key_fields(video_id, quality);
    lemma_parts_name_quality(quality);
}

/// A key of the wrong shape has no variant: one whose number of fields is
/// not four, or whose second and fourth field name no variant together.
pub proof fn law_malformed_key_has_no_quality(key: Seq<char>)
    requires
        dot_fields(key).len() != 4 || quality_of(dot_fields(key)[1], dot_fields(key)[3]) is None,
    ensures
        quality_from_key(key) is None,
{
}

/// A key reads back as a variant exactly when it has four fields of which
/// the second is that variant's slug and the fourth its extension.
pub proof fn law_quality_from_key_exact(key: Seq<char>, quality: Quality)
    ensures
        quality_from_key(key) == Some(quality) <==> {
            &&& dot_fields(key).len() == 4
            &&& dot_fields(key)[1] == quality.slug_text()
            &&& dot_fields(key)[3] == quality.extension_text()
        },
{
    lemma_parts_name_quality(quality);
}

/// Distinct variants of one valid identifier are stored under distinct
/// keys, so a write for one tier never overwrites another.
pub proof fn law_keys_differ_by_quality(video_id: Seq<char>, first: Quality, second: Quality)
    requires
        is_video_id(video_id),
        first != second,
    ensures
        key_text(video_id, first) != key_text(video_id, second),
{
    law_key_round_trip(video_id, first);
    law_key_round_trip(video_id, second);
}

} // verus!

//! The syntax of a video identifier.

use crate::text::dot_free;
use vstd::prelude::*;

verus! {

/// Length of every valid identifier.
pub const VIDEO_ID_LEN: usize = 11;

/// A character allowed anywhere in an identifier: an ASCII letter or
/// digit, `_` or `-`.
pub open spec fn is_id_char(c: char) -> bool {
    ||| ('A' <= c && c <= 'Z')
    ||| ('a' <= c && c <= 'z')
    ||| ('0' <= c && c <= '9')
    ||| c == '_'
    ||| c == '-'
}

/// A character allowed in the last place of an identifier. An identifier
/// encodes 64 bits in 11 characters of 6 bits each, so the last character
/// carries four bits only and is one of sixteen.
pub open spec fn is_final_id_char(c: char) -> bool {
    ||| c == 'A' || c == 'E' || c == 'I' || c == 'M'
    ||| c == 'Q' || c == 'U' || c == 'Y' || c == 'c'
    ||| c == 'g' || c == 'k' || c == 'o' || c == 's'
    ||| c == 'w' || c == '0' || c == '4' || c == '8'
}

/// The identifier syntax: ten identifier characters, then one final
/// identifier character, and nothing else.
pub open spec fn is_video_id(s: Seq<char>) -> bool {
    &&& s.len() == VIDEO_ID_LEN
    &&& forall|i: int| 0 <= i < VIDEO_ID_LEN - 1 ==> is_id_char(#[trigger] s[i])
    &&& is_final_id_char(s[VIDEO_ID_LEN - 1])
}

fn id_char(c: char) -> (ok: bool)
    ensures
        ok == is_id_char(c),
{
    ('A' <= c && c <= 'Z')
        || ('a' <= c && c <= 'z')
        || ('0' <= c && c <= '9')
        || c == '_'
        || c == '-'
}

fn final_id_char(c: char) -> (ok: bool)
    ensures
        ok == is_final_id_char(c),
{
    c == 'A' || c == 'E' || c == 'I' || c == 'M'
        || c == 'Q' || c == 'U' || c == 'Y' || c == 'c'
        || c == 'g' || c == 'k' || c == 'o' || c == 's'
        || c == 'w' || c == '0' || c == '4' || c == '8'
}

/// Whether `video_id` is a well-formed identifier. Nothing but a text that
/// passes here may be used to build a cache key or an upstream address.
pub fn validate_video_id(video_id: &str) -> (ok: bool)
    ensures
        ok == is_video_id(video_id@),
{
    if video_id.unicode_len() != VIDEO_ID_LEN {
        return false;
    }
    let mut i: usize = 0;
    while i < VIDEO_ID_LEN - 1
        invariant
            video_id@.len() == VIDEO_ID_LEN,
            i <= VIDEO_ID_LEN - 1,
            forall|j: int| 0 <= j < i ==> is_id_char(#[trigger] video_id@[j]),
        decreases VIDEO_ID_LEN - 1 - i,
    {
        if !id_char(video_id.get_char(i)) {
            return false;
        }
        i += 1;
    }
    final_id_char(video_id.get_char(VIDEO_ID_LEN - 1))
}

/// A valid identifier holds no dot, so it is a single field of any key.
pub proof fn lemma_video_id_dot_free(s: Seq<char>)
    requires
        is_video_id(s),
    ensures
        dot_free(s),
{
    assert forall|i: int| 0 <= i < s.len() implies s[i] != '.' by {
        if i < VIDEO_ID_LEN - 1 {
            assert(is_id_char(s[i]));
        }
    }
}

} // verus!

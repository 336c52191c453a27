//! Dot-separated text: the splitting that cache keys and file names share.

use vstd::prelude::*;

verus! {

/// The fields of `s`: the maximal runs of characters between its dots, in
/// order. A text with `n` dots has `n + 1` fields, some of which may be
/// empty. Defined by reading `s` up to its last character.
pub open spec fn dot_fields(s: Seq<char>) -> Seq<Seq<char>>
    decreases s.len(),
{
    if s.len() == 0 {
        seq![Seq::<char>::empty()]
    } else {
        let before = dot_fields(s.drop_last());
        if s.last() == '.' {
            before.push(Seq::<char>::empty())
        } else {
            before.drop_last().push(before.last().push(s.last()))
        }
    }
}

/// `s` holds no dot.
pub open spec fn dot_free(s: Seq<char>) -> bool {
    forall|i: int| 0 <= i < s.len() ==> s[i] != '.'
}

/// Every text has at least one field.
pub proof fn lemma_fields_nonempty(s: Seq<char>)
    ensures
        dot_fields(s).len() >= 1,
    decreases s.len(),
{
    if s.len() > 0 {
        lemma_fields_nonempty(s.drop_last());
    }
}

/// A text without dots is its own single field.
pub proof fn lemma_fields_of_dot_free(s: Seq<char>)
    requires
        dot_free(s),
    ensures
        dot_fields(s) == seq![s],
    decreases s.len(),
{
    if s.len() == 0 {
        assert(s == Seq::<char>::empty());
    } else {
        lemma_fields_of_dot_free(s.drop_last());
        assert(s.drop_last().push(s.last()) == s);
        assert(dot_fields(s) == seq![s]);
    }
}

/// Joining two texts with a dot joins their lists of fields.
pub proof fn lemma_fields_of_join(a: Seq<char>, b: Seq<char>)
    ensures
        dot_fields(a + seq!['.'] + b) == dot_fields(a) + dot_fields(b),
    decreases b.len(),
{
    let s = a + seq!['.'] + b;
    if b.len() == 0 {
        assert(s.drop_last() == a);
        assert(dot_fields(a).push(Seq::<char>::empty()) == dot_fields(a) + dot_fields(b));
    } else {
        let shorter = b.drop_last();
        lemma_fields_of_join(a, shorter);
        lemma_fields_nonempty(shorter);
        assert(s.drop_last() == a + seq!['.'] + shorter);
        assert(s.last() == b.last());
        let fa = dot_fields(a);
        let fs = dot_fields(shorter);
        if b.last() == '.' {
            assert((fa + fs).push(Seq::<char>::empty()) == fa + fs.push(Seq::<char>::empty()));
        } else {
            let grown = fs.last().push(b.last());
            assert((fa + fs).drop_last().push(grown) == fa + fs.drop_last().push(grown));
        }
    }
}

/// Whether two texts hold the same characters.
pub fn same_text(a: &str, b: &str) -> (same: bool)
    ensures
        same == (a@ == b@),
{
    let n = a.unicode_len();
    if b.unicode_len() != n {
        return false;
    }
    let mut i: usize = 0;
    while i < n
        invariant
            n == a@.len(),
            n == b@.len(),
            i <= n,
            forall|j: int| 0 <= j < i ==> a@[j] == b@[j],
        decreases n - i,
    {
        if a.get_char(i) != b.get_char(i) {
            return false;
        }
        i += 1;
    }
    assert(a@ =~= b@);
    true
}

/// Splits `s` at its dots, as `dot_fields` describes.
pub fn split_fields<'a>(s: &'a str) -> (parts: Vec<&'a str>)
    ensures
        parts@.len() == dot_fields(s@).len(),
        forall|k: int| 0 <= k < parts@.len() ==> (#[trigger] parts@[k])@ == dot_fields(s@)[k],
{
    let n = s.unicode_len();
    let mut parts: Vec<&'a str> = Vec::new();
    let mut start: usize = 0;
    let mut i: usize = 0;
    while i < n
        invariant
            n == s@.len(),
            start <= i <= n,
            dot_fields(s@.take(i as int)).len() == parts@.len() + 1,
            forall|k: int|
                0 <= k < parts@.len() ==> (#[trigger] parts@[k])@ == dot_fields(
                    s@.take(i as int),
                )[k],
            dot_fields(s@.take(i as int)).last() == s@.subrange(start as int, i as int),
        decreases n - i,
    {
        let c = s.get_char(i);
        proof {
            let longer = s@.take(i + 1);
            assert(longer.drop_last() == s@.take(i as int));
            assert(longer.last() == c);
            if c != '.' {
                assert(s@.subrange(start as int, i as int).push(c) == s@.subrange(
                    start as int,
                    i + 1,
                ));
            }
        }
        if c == '.' {
            parts.push(s.substring_char(start, i));
            start = i + 1;
        }
        i += 1;
    }
    parts.push(s.substring_char(start, n));
    proof {
        assert(s@.take(n as int) == s@);
    }
    parts
}

} // verus!

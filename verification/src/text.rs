//! Whitespace and trimming of text, as sequences of characters.

use vstd::prelude::*;

verus! {

/// Whether a character has the Unicode property `White_Space`.
pub open spec fn is_whitespace(c: char) -> bool {
    let n = c as u32;
    ||| 0x09 <= n <= 0x0d
    ||| n == 0x20
    ||| n == 0x85
    ||| n == 0xa0
    ||| n == 0x1680
    ||| 0x2000 <= n <= 0x200a
    ||| n == 0x2028
    ||| n == 0x2029
    ||| n == 0x202f
    ||| n == 0x205f
    ||| n == 0x3000
}

/// The text without its leading whitespace.
pub open spec fn trim_start(s: Seq<char>) -> Seq<char>
    decreases s.len(),
{
    if s.len() > 0 && is_whitespace(s[0]) {
        trim_start(s.drop_first())
    } else {
        s
    }
}

/// The text without its trailing whitespace.
pub open spec fn trim_end(s: Seq<char>) -> Seq<char>
    decreases s.len(),
{
    if s.len() > 0 && is_whitespace(s.last()) {
        trim_end(s.drop_last())
    } else {
        s
    }
}

/// The text without the whitespace that surrounds it.
pub open spec fn trimmed(s: Seq<char>) -> Seq<char> {
    trim_end(trim_start(s))
}

/// Whether nothing would be trimmed from the text.
pub open spec fn is_trimmed(s: Seq<char>) -> bool {
    s.len() > 0 ==> !is_whitespace(s[0]) && !is_whitespace(s.last())
}

/// What `trim_start` leaves is a suffix of the text that does not begin
/// with whitespace.
pub proof fn lemma_trim_start(s: Seq<char>)
    ensures
        trim_start(s).len() <= s.len(),
        trim_start(s) == s.subrange(s.len() - trim_start(s).len(), s.len() as int),
        trim_start(s).len() > 0 ==> !is_whitespace(trim_start(s)[0]),
        forall|i: int| 0 <= i < s.len() - trim_start(s).len() ==> is_whitespace(#[trigger] s[i]),
    decreases s.len(),
{
    if s.len() > 0 && is_whitespace(s[0]) {
        let rest = s.drop_first();
        lemma_trim_start(rest);
        let kept = trim_start(rest);
        assert(kept == s.subrange(s.len() - kept.len(), s.len() as int)) by {
            assert(rest.subrange(rest.len() - kept.len(), rest.len() as int) =~= s.subrange(
                s.len() - kept.len(),
                s.len() as int,
            ));
        }
        assert forall|i: int| 0 <= i < s.len() - kept.len() implies is_whitespace(
            #[trigger] s[i],
        ) by {
            if i > 0 {
                assert(s[i] == rest[i - 1]);
            }
        }
    } else {
        assert(s =~= s.subrange(0, s.len() as int));
    }
}

/// What `trim_end` leaves is a prefix of the text that does not end with
/// whitespace.
pub proof fn lemma_trim_end(s: Seq<char>)
    ensures
        trim_end(s).len() <= s.len(),
        trim_end(s) == s.subrange(0, trim_end(s).len() as int),
        trim_end(s).len() > 0 ==> !is_whitespace(trim_end(s).last()),
        forall|i: int| trim_end(s).len() <= i < s.len() ==> is_whitespace(#[trigger] s[i]),
    decreases s.len(),
{
    if s.len() > 0 && is_whitespace(s.last()) {
        let rest = s.drop_last();
        lemma_trim_end(rest);
        let kept = trim_end(rest);
        assert(kept == s.subrange(0, kept.len() as int)) by {
            assert(rest.subrange(0, kept.len() as int) =~= s.subrange(0, kept.len() as int));
        }
        assert forall|i: int| kept.len() <= i < s.len() implies is_whitespace(#[trigger] s[i]) by {
            if i < s.len() - 1 {
                assert(s[i] == rest[i]);
            }
        }
    } else {
        assert(s =~= s.subrange(0, s.len() as int));
    }
}

/// Trimming keeps a stretch of the text that neither begins nor ends with
/// whitespace, and drops only whitespace.
pub proof fn lemma_trimmed(s: Seq<char>)
    ensures
        trimmed(s).len() <= s.len(),
        is_trimmed(trimmed(s)),
        exists|from: int|
            0 <= from <= s.len() - trimmed(s).len() && trimmed(s) == #[trigger] s.subrange(
                from,
                from + trimmed(s).len(),
            ),
{
    let head = trim_start(s);
    lemma_trim_start(s);
    lemma_trim_end(head);
    let kept = trimmed(s);
    let from = s.len() - head.len();
    assert(kept =~= s.subrange(from, from + kept.len()));
    if kept.len() > 0 {
        assert(kept[0] == head[0]);
    }
}

/// Text that neither begins nor ends with whitespace is left as it is.
pub proof fn lemma_trimmed_fixed(s: Seq<char>)
    ensures
        is_trimmed(s) <==> trimmed(s) == s,
{
    lemma_trimmed(s);
    if is_trimmed(s) {
        assert(trim_start(s) == s);
        assert(trim_end(s) == s);
    }
}

/// Trimming twice is trimming once.
pub proof fn lemma_trimmed_idempotent(s: Seq<char>)
    ensures
        trimmed(trimmed(s)) == trimmed(s),
{
    lemma_trimmed(s);
    lemma_trimmed_fixed(trimmed(s));
}

/// `str::trim`: the slice of `s` that is left when the leading and the
/// trailing characters with the Unicode property `White_Space` are removed.
#[verifier::external_body]
pub(crate) fn trim(s: &str) -> (r: &str)
    ensures
        r@ == trimmed(s@),
{
    s.trim()
}

} // verus!

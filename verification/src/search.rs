//! Case-insensitive fuzzy matching: the needle's characters must appear in
//! the haystack in order, not necessarily next to each other.
use crate::text_util::chars_of;
use vstd::prelude::*;

verus! {

/// What `char::to_lowercase` yields for `c`.
pub uninterp spec fn char_lowercase(c: char) -> Seq<char>;

/// The lowercase form of an ASCII character.
pub open spec fn ascii_lower(c: char) -> char {
    if 'A' <= c <= 'Z' {
        ((c as u32) + 32) as char
    } else {
        c
    }
}

/// The lowercase mapping of `c` (`char::to_lowercase`), as a vector.
///
/// Trusted: the result is a function of `c` alone, named `char_lowercase`;
/// for ASCII characters the standard library documents the plain ASCII
/// mapping (letters `A`-`Z` to `a`-`z`, everything else unchanged).  Nothing
/// more is stated of non-ASCII characters.
#[verifier::external_body]
fn lowercase_of(c: char) -> (r: Vec<char>)
    ensures
        r@ == char_lowercase(c),
        (c as u32) < 128 ==> r@ == seq![ascii_lower(c)],
{
    c.to_lowercase().collect()
}

/// The lowercase form of a character sequence: each character replaced by its
/// lowercase mapping.
pub open spec fn lowered(s: Seq<char>) -> Seq<char>
    decreases s.len(),
{
    if s.len() == 0 {
        Seq::empty()
    } else {
        lowered(s.drop_last()) + char_lowercase(s.last())
    }
}

/// Whether every character of `s` is ASCII.
pub open spec fn all_ascii(s: Seq<char>) -> bool {
    forall|i: int| 0 <= i < s.len() ==> (#[trigger] s[i] as u32) < 128
}

/// The lowercase form of an ASCII text: letters `A`-`Z` become `a`-`z`,
/// every other character stays.
pub open spec fn ascii_lowered(s: Seq<char>) -> Seq<char> {
    s.map_values(|c: char| ascii_lower(c))
}

/// `idx` places each character of `n` at a position of `h` holding the same
/// character, in strictly increasing order.
pub open spec fn is_embedding(n: Seq<char>, h: Seq<char>, idx: Seq<int>) -> bool {
    &&& idx.len() == n.len()
    &&& forall|i: int| 0 <= i < n.len() ==> 0 <= #[trigger] idx[i] < h.len() && h[idx[i]] == n[i]
    &&& forall|i: int, j: int| 0 <= i < j < n.len() ==> #[trigger] idx[i] < #[trigger] idx[j]
}

/// `n` is a (not necessarily contiguous) subsequence of `h`.
pub open spec fn is_subsequence(n: Seq<char>, h: Seq<char>) -> bool {
    exists|idx: Seq<int>| is_embedding(n, h, idx)
}

/// The meaning of a fuzzy match of `needle` in `haystack`.
pub open spec fn fuzzy_matches(haystack: Seq<char>, needle: Seq<char>) -> bool {
    is_subsequence(lowered(needle), lowered(haystack))
}

/// The lowercase form of `s`, as a vector; for an ASCII text, its letters
/// lowered and every other character unchanged.
pub fn lower_chars(s: &str) -> (r: Vec<char>)
    ensures
        r@ == lowered(s@),
        all_ascii(s@) ==> r@ == ascii_lowered(s@),
{
    let cs = chars_of(s);
    let mut out: Vec<char> = Vec::new();
    let mut i: usize = 0;
    while i < cs.len()
        invariant
            i <= cs@.len(),
            cs@ == s@,
            out@ == lowered(cs@.take(i as int)),
            all_ascii(s@) ==> out@ == ascii_lowered(cs@.take(i as int)),
        decreases cs.len() - i,
    {
        let low = lowercase_of(cs[i]);
        proof {
            if all_ascii(s@) {
                assert((cs@[i as int] as u32) < 128);
            }
        }
        let mut k: usize = 0;
        let ghost start = out@;
        while k < low.len()
            invariant
                k <= low@.len(),
                out@ == start + low@.take(k as int),
            decreases low.len() - k,
        {
            out.push(low[k]);
            k += 1;
            proof {
                assert(low@.take(k as int) =~= low@.take(k - 1) + seq![low@[k - 1]]);
            }
        }
        proof {
            assert(low@.take(k as int) =~= low@);
            assert(cs@.take(i + 1).drop_last() =~= cs@.take(i as int));
            if all_ascii(s@) {
                assert(ascii_lowered(cs@.take(i + 1)) =~= ascii_lowered(cs@.take(i as int)) + low@);
            }
        }
        i += 1;
    }
    proof {
        assert(cs@.take(i as int) =~= cs@);
    }
    out
}

/// Decides `is_subsequence` by matching each needle character against the
/// earliest remaining haystack character equal to it.
pub fn subsequence(n: &Vec<char>, h: &Vec<char>) -> (r: bool)
    ensures
        r == is_subsequence(n@, h@),
{
    let mut j: usize = 0;
    let mut i: usize = 0;
    let ghost mut idx: Seq<int> = Seq::empty();
    while i < n.len()
        invariant
            i <= n@.len(),
            j <= h@.len(),
            is_embedding(n@.take(i as int), h@, idx),
            i > 0 ==> idx[i - 1] == j - 1,
            i == 0 ==> j == 0,
            forall|f: Seq<int>| #[trigger]
                is_embedding(n@, h@, f) ==> (i > 0 ==> j - 1 <= f[i - 1]),
        decreases n.len() - i,
    {
        let ghost start = j;
        while j < h.len() && h[j] != n[i]
            invariant
                i < n@.len(),
                start <= j <= h@.len(),
                forall|k: int| start <= k < j ==> h@[k] != n@[i as int],
            decreases h.len() - j,
        {
            j += 1;
        }
        if j == h.len() {
            proof {
                assert forall|f: Seq<int>| is_embedding(n@, h@, f) implies false by {
                    if i > 0 {
                        assert(f[i - 1] < f[i as int]);
                    }
                    assert(h@[f[i as int]] == n@[i as int]);
                }
            }
            return false;
        }
        proof {
            let old_idx = idx;
            idx = idx.push(j as int);
            assert(n@.take(i + 1) =~= n@.take(i as int).push(n@[i as int]));
            assert forall|f: Seq<int>| #[trigger] is_embedding(n@, h@, f) implies j <= f[i as int] by {
                if i > 0 {
                    assert(f[i - 1] < f[i as int]);
                }
                assert(h@[f[i as int]] == n@[i as int]);
            }
            assert forall|a: int, b: int| 0 <= a < b < n@.take(i + 1).len() implies #[trigger] idx[a]
                < #[trigger] idx[b] by {
                if b < i {
                    assert(idx[a] == old_idx[a]);
                    assert(idx[b] == old_idx[b]);
                } else if a < i {
                    assert(idx[a] == old_idx[a]);
                    assert(old_idx[a] <= old_idx[i - 1]);
                }
            }
        }
        j += 1;
        i += 1;
    }
    proof {
        assert(n@.take(i as int) =~= n@);
    }
    true
}

/// Whether the characters of `needle` appear, in order and ignoring case, in
/// `haystack`; for ASCII texts, case is ignored by lowering the letters
/// `A`-`Z`.
pub fn fuzzy_match(haystack: &str, needle: &str) -> (r: bool)
    ensures
        r == fuzzy_matches(haystack@, needle@),
        all_ascii(haystack@) && all_ascii(needle@) ==> r == is_subsequence(
            ascii_lowered(needle@),
            ascii_lowered(haystack@),
        ),
{
    let h = lower_chars(haystack);
    let n = lower_chars(needle);
    subsequence(&n, &h)
}

/// An empty needle matches every haystack.
pub proof fn law_empty_needle_matches(haystack: Seq<char>)
    ensures
        fuzzy_matches(haystack, Seq::empty()),
{
    assert(lowered(Seq::<char>::empty()) =~= Seq::<char>::empty());
    assert(is_embedding(Seq::<char>::empty(), lowered(haystack), Seq::<int>::empty()));
}

/// Every text matches itself.
pub proof fn law_text_matches_itself(text: Seq<char>)
    ensures
        fuzzy_matches(text, text),
{
    let l = lowered(text);
    let idx = Seq::new(l.len(), |i: int| i);
    assert(is_embedding(l, l, idx));
}

/// Dropping characters from the end of a needle never turns a match into a
/// non-match.
pub proof fn law_needle_prefix_matches(haystack: Seq<char>, needle: Seq<char>, k: int)
    requires
        fuzzy_matches(haystack, needle),
        0 <= k <= needle.len(),
    ensures
        fuzzy_matches(haystack, needle.take(k)),
{
    lemma_lowered_take(needle, k);
    let ln = lowered(needle);
    let lh = lowered(haystack);
    let idx = choose|idx: Seq<int>| is_embedding(ln, lh, idx);
    let m = lowered(needle.take(k)).len() as int;
    assert(is_embedding(ln.take(m), lh, idx.take(m)));
}

/// A match in a haystack is also a match in any longer haystack that starts
/// with it.
pub proof fn law_haystack_extension_matches(haystack: Seq<char>, more: Seq<char>, needle: Seq<char>)
    requires
        fuzzy_matches(haystack, needle),
    ensures
        fuzzy_matches(haystack + more, needle),
{
    lemma_lowered_concat(haystack, more);
    let ln = lowered(needle);
    let lh = lowered(haystack);
    let idx = choose|idx: Seq<int>| is_embedding(ln, lh, idx);
    assert(is_embedding(ln, lh + lowered(more), idx));
}

proof fn lemma_lowered_concat(a: Seq<char>, b: Seq<char>)
    ensures
        lowered(a + b) == lowered(a) + lowered(b),
    decreases b.len(),
{
    if b.len() == 0 {
        assert(a + b =~= a);
        assert(lowered(b) =~= Seq::<char>::empty());
        assert(lowered(a) + lowered(b) =~= lowered(a));
    } else {
        lemma_lowered_concat(a, b.drop_last());
        assert((a + b).drop_last() =~= a + b.drop_last());
        assert((a + b).last() == b.last());
        assert(lowered(a + b) =~= lowered(a) + lowered(b));
    }
}

proof fn lemma_lowered_take(s: Seq<char>, k: int)
    requires
        0 <= k <= s.len(),
    ensures
        lowered(s) == lowered(s.take(k)) + lowered(s.skip(k)),
        lowered(s.take(k)) == lowered(s).take(lowered(s.take(k)).len() as int),
{
    assert(s =~= s.take(k) + s.skip(k));
    lemma_lowered_concat(s.take(k), s.skip(k));
    assert(lowered(s).take(lowered(s.take(k)).len() as int) =~= lowered(s.take(k)));
}

} // verus!

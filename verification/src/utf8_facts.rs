//! Facts about the UTF-8 encoding of character sequences: how the encoding
//! of a concatenation splits, and where its character boundaries lie.
use vstd::prelude::*;
use vstd::utf8::*;

verus! {

/// The encoding of a single character takes between one and four bytes.
pub proof fn lemma_scalar_len(c: char)
    ensures
        1 <= encode_scalar(c as u32).len() <= 4,
{
}

/// Encoding distributes over concatenation.
pub proof fn lemma_encode_concat(a: Seq<char>, b: Seq<char>)
    ensures
        encode_utf8(a + b) == encode_utf8(a) + encode_utf8(b),
    decreases a.len(),
{
    if a.len() == 0 {
        assert(a + b =~= b);
        assert(encode_utf8(a) + encode_utf8(b) =~= encode_utf8(b));
    } else {
        lemma_encode_concat(a.drop_first(), b);
        assert((a + b).drop_first() =~= a.drop_first() + b);
        assert((a + b)[0] == a[0]);
        assert(encode_utf8(a + b) =~= encode_utf8(a) + encode_utf8(b));
    }
}

/// The encoding of a one-character sequence is the encoding of that character.
pub proof fn lemma_encode_single(c: char)
    ensures
        encode_utf8(seq![c]) == encode_scalar(c as u32),
{
    assert(seq![c].drop_first() =~= Seq::<char>::empty());
    assert(encode_utf8(Seq::<char>::empty()) =~= Seq::<u8>::empty());
    assert(encode_scalar(c as u32) + Seq::<u8>::empty() =~= encode_scalar(c as u32));
}

/// Removing the first scalar from an encoding leaves the encoding of the rest.
pub proof fn lemma_pop_first(s: Seq<char>)
    requires
        s.len() > 0,
    ensures
        valid_first_scalar(encode_utf8(s)),
        length_of_first_scalar(encode_utf8(s)) == encode_scalar(s[0] as u32).len(),
        pop_first_scalar(encode_utf8(s)) == encode_utf8(s.drop_first()),
        encode_utf8(s).len() == encode_scalar(s[0] as u32).len() + encode_utf8(s.drop_first()).len(),
{
    encode_utf8_first_scalar(s);
    let l = encode_scalar(s[0] as u32).len() as int;
    assert(encode_utf8(s) == encode_scalar(s[0] as u32) + encode_utf8(s.drop_first()));
    assert(encode_utf8(s).subrange(l, encode_utf8(s).len() as int) =~= encode_utf8(
        s.drop_first(),
    ));
}

/// A character boundary of a valid encoding lies within the encoding.
pub proof fn lemma_boundary_in_range(bytes: Seq<u8>, i: int)
    requires
        valid_utf8(bytes),
        is_char_boundary(bytes, i),
    ensures
        0 <= i <= bytes.len(),
{
}

/// The end of the encoding of a prefix is a character boundary of the whole encoding.
pub proof fn lemma_prefix_boundary(a: Seq<char>, b: Seq<char>)
    ensures
        is_char_boundary(encode_utf8(a + b), encode_utf8(a).len() as int),
    decreases a.len(),
{
    broadcast use encode_utf8_valid_utf8;

    if a.len() == 0 {
        assert(encode_utf8(a).len() == 0);
    } else {
        let s = a + b;
        lemma_pop_first(s);
        lemma_pop_first(a);
        lemma_scalar_len(a[0]);
        assert(s[0] == a[0]);
        assert(s.drop_first() =~= a.drop_first() + b);
        lemma_encode_concat(a, b);
        lemma_prefix_boundary(a.drop_first(), b);
    }
}

/// No position strictly inside the encoding of a single character is a character boundary.
pub proof fn lemma_inner_not_boundary(a: Seq<char>, c: char, b: Seq<char>, j: int)
    requires
        0 < j < encode_scalar(c as u32).len(),
    ensures
        !is_char_boundary(encode_utf8(a + seq![c] + b), encode_utf8(a).len() + j),
    decreases a.len(),
{
    broadcast use encode_utf8_valid_utf8;

    let s = a + seq![c] + b;
    lemma_pop_first(s);
    if a.len() == 0 {
        assert(s[0] == c);
        assert(encode_utf8(a).len() == 0);
        let rest = pop_first_scalar(encode_utf8(s));
        assert(!is_char_boundary(rest, j - encode_scalar(c as u32).len()));
    } else {
        lemma_pop_first(a);
        lemma_scalar_len(a[0]);
        assert(s[0] == a[0]);
        assert(s.drop_first() =~= a.drop_first() + seq![c] + b);
        lemma_encode_concat(a + seq![c], b);
        lemma_encode_concat(a, seq![c]);
        lemma_encode_single(c);
        lemma_inner_not_boundary(a.drop_first(), c, b, j);
    }
}

/// Splitting a concatenation at the end of the first part's encoding.
pub proof fn lemma_split(a: Seq<char>, r: Seq<char>)
    ensures
        ({
            let bytes = encode_utf8(a + r);
            let p = encode_utf8(a).len() as int;
            &&& is_char_boundary(bytes, p)
            &&& bytes.len() == p + encode_utf8(r).len()
            &&& bytes.subrange(0, p) == encode_utf8(a)
            &&& bytes.subrange(p, bytes.len() as int) == encode_utf8(r)
            &&& decode_utf8(bytes.subrange(0, p)) == a
            &&& decode_utf8(bytes.subrange(p, bytes.len() as int)) == r
        }),
{
    broadcast use encode_utf8_valid_utf8, encode_utf8_decode_utf8;

    lemma_encode_concat(a, r);
    lemma_prefix_boundary(a, r);
    let bytes = encode_utf8(a + r);
    let p = encode_utf8(a).len() as int;
    assert(bytes.subrange(0, p) =~= encode_utf8(a));
    assert(bytes.subrange(p, bytes.len() as int) =~= encode_utf8(r));
}

/// A character boundary splits a sequence into the characters before it and after it.
pub proof fn lemma_boundary_split(s: Seq<char>, i: int)
    requires
        is_char_boundary(encode_utf8(s), i),
    ensures
        ({
            let bytes = encode_utf8(s);
            let before = decode_utf8(bytes.subrange(0, i));
            let after = decode_utf8(bytes.subrange(i, bytes.len() as int));
            &&& 0 <= i <= bytes.len()
            &&& s == before + after
            &&& encode_utf8(before).len() == i
        }),
{
    broadcast use encode_utf8_valid_utf8, encode_utf8_decode_utf8, decode_utf8_encode_utf8;

    let bytes = encode_utf8(s);
    lemma_boundary_in_range(bytes, i);
    valid_utf8_split(bytes, i);
    decode_utf8_split(bytes, i);
    assert(encode_utf8(decode_utf8(bytes.subrange(0, i))) == bytes.subrange(0, i));
}

} // verus!

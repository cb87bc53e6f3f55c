//! A single-line editable text field with a cursor.
//!
//! The cursor is a byte offset into the UTF-8 encoding of the text, and it
//! always sits on a character boundary.  Contracts speak of the characters
//! before and after the cursor.
use crate::utf8_facts::{
    lemma_boundary_in_range, lemma_boundary_split, lemma_encode_concat, lemma_encode_single,
    lemma_inner_not_boundary, lemma_scalar_len, lemma_split,
};
use vstd::prelude::*;
use vstd::utf8::*;

verus! {

broadcast use encode_utf8_valid_utf8;

/// Inserts `c` into `s` at byte position `idx` (`String::insert`).
///
/// Trusted: the standard library documents that the character is inserted at
/// the given byte position, and that the call panics unless `idx` lies on a
/// character boundary; the `requires` rules that out.
#[verifier::external_body]
fn string_insert(s: &mut String, idx: usize, c: char)
    requires
        is_char_boundary(encode_utf8(old(s)@), idx as int),
    ensures
        final(s)@ == decode_utf8(encode_utf8(old(s)@).subrange(0, idx as int)).push(c)
            + decode_utf8(
            encode_utf8(old(s)@).subrange(idx as int, encode_utf8(old(s)@).len() as int),
        ),
{
    s.insert(idx, c)
}

/// Removes the character that starts at byte position `idx` of `s` and
/// returns it (`String::remove`).
///
/// Trusted: the standard library documents that the character at that byte
/// position is removed and returned, and that the call panics unless `idx`
/// is a character boundary strictly inside the string.
#[verifier::external_body]
fn string_remove(s: &mut String, idx: usize) -> (c: char)
    requires
        is_char_boundary(encode_utf8(old(s)@), idx as int),
        idx < encode_utf8(old(s)@).len(),
    ensures
        ({
            let b = encode_utf8(old(s)@);
            let rest = decode_utf8(b.subrange(idx as int, b.len() as int));
            &&& c == rest[0]
            &&& final(s)@ == decode_utf8(b.subrange(0, idx as int)) + rest.drop_first()
        }),
{
    s.remove(idx)
}

/// The number of bytes in the UTF-8 encoding of `s`.
fn byte_len(s: &str) -> (n: usize)
    ensures
        n == encode_utf8(s@).len(),
{
    s.as_bytes().len()
}

/// True for the bytes of ASCII letters and digits.
pub open spec fn is_word_byte(b: u8) -> bool {
    (48 <= b <= 57) || (65 <= b <= 90) || (97 <= b <= 122)
}

/// Decides `is_word_byte`.
pub fn word_byte(b: u8) -> (r: bool)
    ensures
        r == is_word_byte(b),
{
    (48 <= b && b <= 57) || (65 <= b && b <= 90) || (97 <= b && b <= 122)
}

/// Steps back over bytes that are not word bytes.
pub open spec fn skip_back_gap(b: Seq<u8>, p: int) -> int
    decreases p,
{
    if p > 0 && p <= b.len() && !is_word_byte(b[p - 1]) {
        skip_back_gap(b, p - 1)
    } else {
        p
    }
}

/// Steps back over word bytes.
pub open spec fn skip_back_word(b: Seq<u8>, p: int) -> int
    decreases p,
{
    if p > 0 && p <= b.len() && is_word_byte(b[p - 1]) {
        skip_back_word(b, p - 1)
    } else {
        p
    }
}

/// Steps forward over word bytes.
pub open spec fn skip_word(b: Seq<u8>, p: int) -> int
    decreases b.len() - p,
{
    if 0 <= p < b.len() && is_word_byte(b[p]) {
        skip_word(b, p + 1)
    } else {
        p
    }
}

/// Steps forward over bytes that are not word bytes.
pub open spec fn skip_gap(b: Seq<u8>, p: int) -> int
    decreases b.len() - p,
{
    if 0 <= p < b.len() && !is_word_byte(b[p]) {
        skip_gap(b, p + 1)
    } else {
        p
    }
}

/// Where a word-left move from `p` lands: past any gap, then to the start of the word.
pub open spec fn word_left_target(b: Seq<u8>, p: int) -> int {
    skip_back_word(b, skip_back_gap(b, p))
}

/// Where a word-right move from `p` lands: past the word, then past the gap.
pub open spec fn word_right_target(b: Seq<u8>, p: int) -> int {
    skip_gap(b, skip_word(b, p))
}

proof fn lemma_skip_back_gap(b: Seq<u8>, p: int)
    requires
        0 <= p <= b.len(),
    ensures
        0 <= skip_back_gap(b, p) <= p,
        skip_back_gap(b, p) > 0 ==> is_word_byte(b[skip_back_gap(b, p) - 1]),
    decreases p,
{
    if p > 0 && !is_word_byte(b[p - 1]) {
        lemma_skip_back_gap(b, p - 1);
    }
}

proof fn lemma_skip_back_word(b: Seq<u8>, p: int)
    requires
        0 <= p <= b.len(),
    ensures
        0 <= skip_back_word(b, p) <= p,
        skip_back_word(b, p) < p ==> is_word_byte(b[skip_back_word(b, p)]),
    decreases p,
{
    if p > 0 && is_word_byte(b[p - 1]) {
        lemma_skip_back_word(b, p - 1);
    }
}

proof fn lemma_skip_word(b: Seq<u8>, p: int)
    requires
        0 <= p <= b.len(),
    ensures
        p <= skip_word(b, p) <= b.len(),
        skip_word(b, p) < b.len() ==> !is_word_byte(b[skip_word(b, p)]),
    decreases b.len() - p,
{
    if p < b.len() && is_word_byte(b[p]) {
        lemma_skip_word(b, p + 1);
    }
}

proof fn lemma_skip_gap(b: Seq<u8>, p: int)
    requires
        0 <= p <= b.len(),
    ensures
        p <= skip_gap(b, p) <= b.len(),
        skip_gap(b, p) < b.len() ==> is_word_byte(b[skip_gap(b, p)]),
    decreases b.len() - p,
{
    if p < b.len() && !is_word_byte(b[p]) {
        lemma_skip_gap(b, p + 1);
    }
}

/// A position before a word byte, or at either end, is a character boundary.
proof fn lemma_word_byte_boundary(bytes: Seq<u8>, i: int)
    requires
        valid_utf8(bytes),
        0 <= i <= bytes.len(),
        i == 0 || i == bytes.len() || is_word_byte(bytes[i]),
    ensures
        is_char_boundary(bytes, i),
{
    is_char_boundary_start_end_of_seq(bytes);
    if 0 < i < bytes.len() {
        is_char_boundary_iff_is_leading_byte(bytes, i);
    }
}

/// Editable text with a byte cursor.
#[derive(Debug, Clone)]
pub struct TextInput {
    pub value: String,
    pub cursor: usize,
}

impl TextInput {
    /// The UTF-8 encoding of the text.
    pub open spec fn bytes(&self) -> Seq<u8> {
        encode_utf8(self.value@)
    }

    /// The cursor sits on a character boundary of the text.
    pub open spec fn wf(&self) -> bool {
        is_char_boundary(self.bytes(), self.cursor as int)
    }

    /// The characters before the cursor.
    pub open spec fn before(&self) -> Seq<char> {
        decode_utf8(self.bytes().subrange(0, self.cursor as int))
    }

    /// The characters from the cursor on.
    pub open spec fn after(&self) -> Seq<char> {
        decode_utf8(self.bytes().subrange(self.cursor as int, self.bytes().len() as int))
    }

    /// An input with a given text and the cursor after `k` of its characters.
    proof fn lemma_at(s: Seq<char>, k: int)
        requires
            0 <= k <= s.len(),
        ensures
            is_char_boundary(encode_utf8(s), encode_utf8(s.take(k)).len() as int),
            decode_utf8(encode_utf8(s).subrange(0, encode_utf8(s.take(k)).len() as int))
                == s.take(k),
            decode_utf8(
                encode_utf8(s).subrange(
                    encode_utf8(s.take(k)).len() as int,
                    encode_utf8(s).len() as int,
                ),
            ) == s.skip(k),
    {
        assert(s == s.take(k) + s.skip(k));
        lemma_split(s.take(k), s.skip(k));
    }

    /// An empty input.
    pub fn new() -> (r: Self)
        ensures
            r.wf(),
            r.value@ == Seq::<char>::empty(),
            r.cursor == 0,
            r.before() == Seq::<char>::empty(),
            r.after() == Seq::<char>::empty(),
    {
        let r = TextInput { value: String::new(), cursor: 0 };
        proof {
            Self::lemma_at(r.value@, 0);
        }
        r
    }

    /// An input holding `s`, with the cursor at the end.
    pub fn from(s: String) -> (r: Self)
        ensures
            r.wf(),
            r.value@ == s@,
            r.cursor == encode_utf8(s@).len(),
            r.before() == s@,
            r.after() == Seq::<char>::empty(),
    {
        let cursor = byte_len(s.as_str());
        let r = TextInput { value: s, cursor };
        proof {
            Self::lemma_at(r.value@, r.value@.len() as int);
            assert(r.value@.take(r.value@.len() as int) =~= r.value@);
            assert(r.value@.skip(r.value@.len() as int) =~= Seq::<char>::empty());
        }
        r
    }

    /// Inserts `c` at the cursor and moves the cursor past it.
    pub fn insert(&mut self, c: char)
        requires
            old(self).wf(),
        ensures
            final(self).wf(),
            final(self).before() == old(self).before().push(c),
            final(self).after() == old(self).after(),
            final(self).value@ == old(self).before().push(c) + old(self).after(),
    {
        let ghost before = self.before();
        let ghost after = self.after();
        proof {
            lemma_boundary_split(self.value@, self.cursor as int);
        }
        let old_len = byte_len(self.value.as_str());
        string_insert(&mut self.value, self.cursor, c);
        let new_len = byte_len(self.value.as_str());
        proof {
            lemma_split(before.push(c), after);
            lemma_encode_concat(before, seq![c]);
            lemma_encode_single(c);
            lemma_encode_concat(before, after);
            assert(before.push(c) == before + seq![c]);
        }
        self.cursor = self.cursor + (new_len - old_len);
    }

    /// Removes the character before the cursor, if any.
    pub fn backspace(&mut self)
        requires
            old(self).wf(),
        ensures
            final(self).wf(),
            old(self).before().len() == 0 ==> *final(self) == *old(self),
            old(self).before().len() > 0 ==> final(self).before() == old(self).before().drop_last()
                && final(self).after() == old(self).after(),
            final(self).value@ == final(self).before() + final(self).after(),
    {
        proof {
            lemma_boundary_split(self.value@, self.cursor as int);
        }
        if self.cursor > 0 {
            let prev = self.prev_boundary();
            let ghost before = self.before();
            let ghost after = self.after();
            let _ = string_remove(&mut self.value, prev);
            self.cursor = prev;
            proof {
                assert((seq![before.last()] + after).drop_first() =~= after);
                lemma_split(before.drop_last(), after);
            }
        }
        proof {
            lemma_boundary_split(self.value@, self.cursor as int);
        }
    }

    /// The character boundary just before the cursor.
    fn prev_boundary(&self) -> (p: usize)
        requires
            self.wf(),
            self.cursor > 0,
        ensures
            ({
                let b = self.before();
                let a = self.after();
                &&& b.len() > 0
                &&& p == encode_utf8(b.drop_last()).len()
                &&& self.value@ == b.drop_last() + (seq![b.last()] + a)
                &&& is_char_boundary(self.bytes(), p as int)
                &&& decode_utf8(self.bytes().subrange(0, p as int)) == b.drop_last()
                &&& decode_utf8(self.bytes().subrange(p as int, self.bytes().len() as int))
                    == seq![b.last()] + a
            }),
    {
        let ghost b = self.before();
        let ghost a = self.after();
        proof {
            lemma_boundary_split(self.value@, self.cursor as int);
            assert(b.len() > 0);
            assert(b == b.drop_last() + seq![b.last()]);
            assert(self.value@ == b.drop_last() + seq![b.last()] + a);
            assert(self.value@ == b.drop_last() + (seq![b.last()] + a));
            lemma_split(b.drop_last(), seq![b.last()] + a);
            lemma_encode_concat(b.drop_last(), seq![b.last()]);
            lemma_encode_single(b.last());
            lemma_scalar_len(b.last());
        }
        let ghost target = encode_utf8(b.drop_last()).len() as int;
        proof {
            assert forall|j: int| target < j < self.cursor implies !is_char_boundary(
                encode_utf8(self.value@),
                j,
            ) by {
                lemma_inner_not_boundary(b.drop_last(), b.last(), a, j - target);
            }
        }
        let s = self.value.as_str();
        let mut q = self.cursor - 1;
        while !s.is_char_boundary(q)
            invariant
                s@ == self.value@,
                target <= q < self.cursor,
                is_char_boundary(encode_utf8(self.value@), target),
                forall|j: int|
                    target < j < self.cursor ==> !is_char_boundary(encode_utf8(self.value@), j),
            decreases q,
        {
            q = q - 1;
        }
        q
    }

    /// The character boundary just after the cursor.
    fn next_boundary(&self) -> (p: usize)
        requires
            self.wf(),
            self.cursor < self.bytes().len(),
        ensures
            ({
                let b = self.before();
                let a = self.after();
                &&& a.len() > 0
                &&& p == encode_utf8(b.push(a[0])).len()
                &&& self.value@ == b.push(a[0]) + a.drop_first()
                &&& is_char_boundary(self.bytes(), p as int)
                &&& decode_utf8(self.bytes().subrange(0, p as int)) == b.push(a[0])
                &&& decode_utf8(self.bytes().subrange(p as int, self.bytes().len() as int))
                    == a.drop_first()
            }),
    {
        let ghost b = self.before();
        let ghost a = self.after();
        proof {
            lemma_boundary_split(self.value@, self.cursor as int);
            lemma_split(b, a);
            assert(a.len() > 0);
            assert(a == seq![a[0]] + a.drop_first());
            assert(self.value@ == b + seq![a[0]] + a.drop_first());
            assert(b.push(a[0]) == b + seq![a[0]]);
            assert(self.value@ == b.push(a[0]) + a.drop_first());
            lemma_split(b.push(a[0]), a.drop_first());
            lemma_encode_concat(b, seq![a[0]]);
            lemma_encode_single(a[0]);
            lemma_scalar_len(a[0]);
        }
        let ghost target = encode_utf8(b.push(a[0])).len() as int;
        let n = byte_len(self.value.as_str());
        proof {
            assert forall|j: int| self.cursor < j < target implies !is_char_boundary(
                encode_utf8(self.value@),
                j,
            ) by {
                lemma_inner_not_boundary(b, a[0], a.drop_first(), j - self.cursor);
            }
        }
        let s = self.value.as_str();
        let mut q = self.cursor + 1;
        while !s.is_char_boundary(q)
            invariant
                s@ == self.value@,
                self.cursor < q <= target,
                target <= encode_utf8(self.value@).len(),
                n == encode_utf8(self.value@).len(),
                is_char_boundary(encode_utf8(self.value@), target),
                forall|j: int| self.cursor < j < target ==> !is_char_boundary(
                    encode_utf8(self.value@),
                    j,
                ),
            decreases target - q,
        {
            q = q + 1;
        }
        q
    }

    /// Removes the character at the cursor, if any.
    pub fn delete(&mut self)
        requires
            old(self).wf(),
        ensures
            final(self).wf(),
            old(self).after().len() == 0 ==> *final(self) == *old(self),
            old(self).after().len() > 0 ==> final(self).after() == old(self).after().drop_first()
                && final(self).before() == old(self).before(),
            final(self).value@ == final(self).before() + final(self).after(),
    {
        proof {
            lemma_boundary_split(self.value@, self.cursor as int);
            lemma_split(self.before(), self.after());
        }
        if self.cursor < byte_len(self.value.as_str()) {
            let ghost before = self.before();
            let ghost after = self.after();
            let _ = string_remove(&mut self.value, self.cursor);
            proof {
                lemma_split(before, after.drop_first());
            }
        }
        proof {
            lemma_boundary_split(self.value@, self.cursor as int);
        }
    }

    /// Moves the cursor one character left, if possible.
    pub fn move_left(&mut self)
        requires
            old(self).wf(),
        ensures
            final(self).wf(),
            final(self).value == old(self).value,
            old(self).before().len() == 0 ==> final(self).cursor == old(self).cursor,
            old(self).before().len() > 0 ==> final(self).before() == old(self).before().drop_last()
                && final(self).after() == seq![old(self).before().last()] + old(self).after(),
    {
        if self.cursor > 0 {
            self.cursor = self.prev_boundary();
        } else {
            proof {
                lemma_boundary_split(self.value@, self.cursor as int);
            }
        }
    }

    /// Moves the cursor one character right, if possible.
    pub fn move_right(&mut self)
        requires
            old(self).wf(),
        ensures
            final(self).wf(),
            final(self).value == old(self).value,
            old(self).after().len() == 0 ==> final(self).cursor == old(self).cursor,
            old(self).after().len() > 0 ==> final(self).before() == old(self).before().push(
                old(self).after()[0],
            ) && final(self).after() == old(self).after().drop_first(),
    {
        proof {
            lemma_boundary_split(self.value@, self.cursor as int);
            lemma_split(self.before(), self.after());
        }
        if self.cursor < byte_len(self.value.as_str()) {
            self.cursor = self.next_boundary();
        }
    }

    /// Moves the cursor to the start of the current or previous word.
    pub fn move_word_left(&mut self)
        requires
            old(self).wf(),
        ensures
            final(self).wf(),
            final(self).value == old(self).value,
            final(self).cursor == word_left_target(old(self).bytes(), old(self).cursor as int),
    {
        proof {
            lemma_boundary_in_range(self.bytes(), self.cursor as int);
        }
        let bytes = self.value.as_str().as_bytes();
        let mut pos = self.cursor;
        while pos > 0 && !word_byte(bytes[pos - 1])
            invariant
                bytes@ == self.bytes(),
                pos <= self.cursor <= bytes@.len(),
                skip_back_gap(bytes@, pos as int) == skip_back_gap(bytes@, self.cursor as int),
            decreases pos,
        {
            pos -= 1;
        }
        let ghost mid = pos as int;
        while pos > 0 && word_byte(bytes[pos - 1])
            invariant
                bytes@ == self.bytes(),
                pos <= mid <= bytes@.len(),
                mid == skip_back_gap(bytes@, self.cursor as int),
                skip_back_word(bytes@, pos as int) == skip_back_word(bytes@, mid),
            decreases pos,
        {
            pos -= 1;
        }
        proof {
            lemma_skip_back_gap(bytes@, self.cursor as int);
            lemma_skip_back_word(bytes@, mid);
            lemma_word_byte_boundary(bytes@, pos as int);
        }
        self.cursor = pos;
    }

    /// Moves the cursor past the current word and the gap after it.
    pub fn move_word_right(&mut self)
        requires
            old(self).wf(),
        ensures
            final(self).wf(),
            final(self).value == old(self).value,
            final(self).cursor == word_right_target(old(self).bytes(), old(self).cursor as int),
    {
        proof {
            lemma_boundary_in_range(self.bytes(), self.cursor as int);
        }
        let bytes = self.value.as_str().as_bytes();
        let len = bytes.len();
        let mut pos = self.cursor;
        while pos < len && word_byte(bytes[pos])
            invariant
                bytes@ == self.bytes(),
                len == bytes@.len(),
                self.cursor <= pos <= len,
                skip_word(bytes@, pos as int) == skip_word(bytes@, self.cursor as int),
            decreases len - pos,
        {
            pos += 1;
        }
        let ghost mid = pos as int;
        while pos < len && !word_byte(bytes[pos])
            invariant
                bytes@ == self.bytes(),
                len == bytes@.len(),
                mid <= pos <= len,
                mid == skip_word(bytes@, self.cursor as int),
                skip_gap(bytes@, pos as int) == skip_gap(bytes@, mid),
            decreases len - pos,
        {
            pos += 1;
        }
        proof {
            lemma_skip_word(bytes@, self.cursor as int);
            lemma_skip_gap(bytes@, mid);
            lemma_word_byte_boundary(bytes@, pos as int);
        }
        self.cursor = pos;
    }

    /// Moves the cursor to the start.
    pub fn move_home(&mut self)
        requires
            old(self).wf(),
        ensures
            final(self).wf(),
            final(self).value == old(self).value,
            final(self).cursor == 0,
            final(self).before() == Seq::<char>::empty(),
            final(self).after() == old(self).value@,
    {
        self.cursor = 0;
        proof {
            Self::lemma_at(self.value@, 0);
            assert(self.value@.skip(0) =~= self.value@);
        }
    }

    /// Moves the cursor to the end.
    pub fn move_end(&mut self)
        requires
            old(self).wf(),
        ensures
            final(self).wf(),
            final(self).value == old(self).value,
            final(self).cursor == old(self).bytes().len(),
            final(self).before() == old(self).value@,
            final(self).after() == Seq::<char>::empty(),
    {
        self.cursor = byte_len(self.value.as_str());
        proof {
            Self::lemma_at(self.value@, self.value@.len() as int);
            assert(self.value@.take(self.value@.len() as int) =~= self.value@);
            assert(self.value@.skip(self.value@.len() as int) =~= Seq::<char>::empty());
        }
    }

    /// The text before the cursor.
    pub fn before_cursor(&self) -> (r: &str)
        requires
            self.wf(),
        ensures
            r@ == self.before(),
    {
        proof {
            lemma_boundary_in_range(self.bytes(), self.cursor as int);
        }
        let (head, _tail) = self.value.as_str().split_at(self.cursor);
        proof {
            broadcast use encode_utf8_decode_utf8;

            assert(decode_utf8(encode_utf8(head@)) == head@);
        }
        head
    }

    /// The character under the cursor, or a single space at the end of the text.
    pub fn char_at_cursor(&self) -> (r: &str)
        requires
            self.wf(),
        ensures
            self.after().len() > 0 ==> r@ == seq![self.after()[0]],
            self.after().len() == 0 ==> r@ == " "@,
    {
        proof {
            lemma_boundary_split(self.value@, self.cursor as int);
            lemma_split(self.before(), self.after());
        }
        if self.cursor < byte_len(self.value.as_str()) {
            let end = self.next_boundary();
            let ghost a = self.after();
            let (_head, tail) = self.value.as_str().split_at(self.cursor);
            proof {
                broadcast use encode_utf8_decode_utf8;

                assert(decode_utf8(encode_utf8(tail@)) == tail@);
                assert(tail@ == a);
                assert(a == seq![a[0]] + a.drop_first());
                lemma_split(seq![a[0]], a.drop_first());
                lemma_encode_single(a[0]);
                lemma_encode_concat(self.before(), seq![a[0]]);
                assert(self.before().push(a[0]) =~= self.before() + seq![a[0]]);
            }
            let (ch, _rest) = tail.split_at(end - self.cursor);
            proof {
                broadcast use encode_utf8_decode_utf8;

                assert(decode_utf8(encode_utf8(ch@)) == ch@);
            }
            ch
        } else {
            proof {
                reveal_strlit(" ");
            }
            " "
        }
    }

    /// The text after the character under the cursor.
    pub fn after_cursor_char(&self) -> (r: &str)
        requires
            self.wf(),
        ensures
            self.after().len() > 0 ==> r@ == self.after().drop_first(),
            self.after().len() == 0 ==> r@ == Seq::<char>::empty(),
    {
        proof {
            lemma_boundary_split(self.value@, self.cursor as int);
            lemma_split(self.before(), self.after());
        }
        if self.cursor < byte_len(self.value.as_str()) {
            let end = self.next_boundary();
            let (_head, tail) = self.value.as_str().split_at(end);
            proof {
                broadcast use encode_utf8_decode_utf8;

                assert(decode_utf8(encode_utf8(tail@)) == tail@);
            }
            tail
        } else {
            proof {
                reveal_strlit("");
            }
            ""
        }
    }

    /// Whether the text is empty.
    pub fn is_empty(&self) -> (r: bool)
        ensures
            r == (self.value@.len() == 0),
    {
        self.value.as_str().is_empty()
    }

    /// How the input is drawn when it holds a password and has the focus: a
    /// star for each character before the cursor, the cursor cell (a star on
    /// a character, a space past the end) and a star for each character after
    /// that one.
    pub fn masked_parts(&self) -> (r: (String, String, String))
        requires
            self.wf(),
        ensures
            r.0@ == stars(self.before().len()),
            self.after().len() > 0 ==> r.1@ == seq!['*'] && r.2@ == stars(
                (self.after().len() - 1) as nat,
            ),
            self.after().len() == 0 ==> r.1@ == seq![' '] && r.2@.len() == 0,
    {
        proof {
            lemma_boundary_split(self.value@, self.cursor as int);
        }
        let total = self.value.as_str().unicode_len();
        let b = self.before_cursor().unicode_len();
        let head = star_text(b);
        if b < total {
            (head, star_text(1), star_text(total - b - 1))
        } else {
            let mut at = String::new();
            crate::text_util::push_char(&mut at, ' ');
            proof {
                assert(at@ =~= seq![' ']);
            }
            (head, at, String::new())
        }
    }

    /// How the input is drawn when it holds a password and lacks the focus:
    /// a star for each character.
    pub fn masked(&self) -> (r: String)
        ensures
            r@ == stars(self.value@.len()),
    {
        star_text(self.value.as_str().unicode_len())
    }
}

/// `n` stars.
pub open spec fn stars(n: nat) -> Seq<char> {
    Seq::new(n, |_i: int| '*')
}

/// `n` stars, as text.
pub fn star_text(n: usize) -> (r: String)
    ensures
        r@ == stars(n as nat),
{
    let mut out = String::new();
    let mut i: usize = 0;
    while i < n
        invariant
            i <= n,
            out@ == stars(i as nat),
        decreases n - i,
    {
        crate::text_util::push_char(&mut out, '*');
        i += 1;
        proof {
            assert(out@ =~= stars(i as nat));
        }
    }
    out
}

} // verus!

//! Character-level helpers on strings.
use vstd::prelude::*;

verus! {

/// The characters of `s`, in order.
pub fn chars_of(s: &str) -> (v: Vec<char>)
    ensures
        v@ == s@,
{
    broadcast use vstd::string::group_string_axioms;
    let mut v: Vec<char> = Vec::new();
    for c in it: s.chars()
        invariant
            v@ == it.seq().take(it.index() as int),
    {
        v.push(c);
    }
    v
}

/// Whether two character vectors hold the same characters.
pub fn chars_eq(a: &Vec<char>, b: &Vec<char>) -> (r: bool)
    ensures
        r == (a@ == b@),
{
    if a.len() != b.len() {
        return false;
    }
    let mut i: usize = 0;
    while i < a.len()
        invariant
            a@.len() == b@.len(),
            i <= a@.len(),
            forall|k: int| 0 <= k < i ==> a@[k] == b@[k],
        decreases a.len() - i,
    {
        if a[i] != b[i] {
            return false;
        }
        i += 1;
    }
    proof {
        assert(a@ =~= b@);
    }
    true
}

/// Whether two strings hold the same characters.
pub fn text_eq(a: &str, b: &str) -> (r: bool)
    ensures
        r == (a@ == b@),
{
    let ca = chars_of(a);
    let cb = chars_of(b);
    chars_eq(&ca, &cb)
}

/// Lexicographic order on character sequences, comparing characters by code
/// point; a proper prefix comes first.  This is the order of `str`, whose
/// byte order agrees with code point order.
pub open spec fn lex_less(a: Seq<char>, b: Seq<char>) -> bool
    decreases a.len(),
{
    if a.len() == 0 {
        b.len() > 0
    } else if b.len() == 0 {
        false
    } else if a[0] != b[0] {
        a[0] < b[0]
    } else {
        lex_less(a.drop_first(), b.drop_first())
    }
}

/// `lex_less` is irreflexive.
pub proof fn lemma_lex_irreflexive(a: Seq<char>)
    ensures
        !lex_less(a, a),
    decreases a.len(),
{
    if a.len() > 0 {
        lemma_lex_irreflexive(a.drop_first());
    }
}

/// `lex_less` is transitive.
pub proof fn lemma_lex_transitive(a: Seq<char>, b: Seq<char>, c: Seq<char>)
    requires
        lex_less(a, b),
        lex_less(b, c),
    ensures
        lex_less(a, c),
    decreases a.len(),
{
    if a.len() > 0 && b.len() > 0 && c.len() > 0 {
        if a[0] == b[0] && b[0] == c[0] {
            lemma_lex_transitive(a.drop_first(), b.drop_first(), c.drop_first());
        }
    }
}

/// Any two sequences are equal or ordered one way or the other.
pub proof fn lemma_lex_total(a: Seq<char>, b: Seq<char>)
    ensures
        a == b || lex_less(a, b) || lex_less(b, a),
    decreases a.len(),
{
    if a.len() > 0 && b.len() > 0 {
        if a[0] == b[0] {
            lemma_lex_total(a.drop_first(), b.drop_first());
            if a.drop_first() == b.drop_first() {
                assert(a.drop_first().len() == b.drop_first().len());
                assert(a.len() == b.len());
                assert forall|i: int| 0 <= i < a.len() implies a[i] == b[i] by {
                    if i > 0 {
                        assert(a[i] == a.drop_first()[i - 1]);
                        assert(b[i] == b.drop_first()[i - 1]);
                    }
                }
                assert(a =~= b);
            }
        }
    } else if a.len() == 0 && b.len() == 0 {
        assert(a =~= b);
    }
}

/// Decides `lex_less` on character vectors.
pub fn chars_less(a: &Vec<char>, b: &Vec<char>) -> (r: bool)
    ensures
        r == lex_less(a@, b@),
{
    let mut i: usize = 0;
    proof {
        assert(a@.skip(0) =~= a@);
        assert(b@.skip(0) =~= b@);
    }
    while i < a.len() && i < b.len() && a[i] == b[i]
        invariant
            i <= a@.len(),
            i <= b@.len(),
            forall|k: int| 0 <= k < i ==> a@[k] == b@[k],
            lex_less(a@, b@) == lex_less(a@.skip(i as int), b@.skip(i as int)),
        decreases a.len() - i,
    {
        proof {
            let sa = a@.skip(i as int);
            let sb = b@.skip(i as int);
            assert(sa.drop_first() =~= a@.skip(i + 1));
            assert(sb.drop_first() =~= b@.skip(i + 1));
        }
        i += 1;
    }
    proof {
        let sa = a@.skip(i as int);
        let sb = b@.skip(i as int);
        if i < a.len() && i < b.len() {
            assert(sa[0] == a@[i as int]);
            assert(sb[0] == b@[i as int]);
        }
    }
    if i == a.len() {
        i < b.len()
    } else if i == b.len() {
        false
    } else {
        a[i] < b[i]
    }
}

/// Decides `lex_less` on strings.
pub fn text_less(a: &str, b: &str) -> (r: bool)
    ensures
        r == lex_less(a@, b@),
{
    let ca = chars_of(a);
    let cb = chars_of(b);
    chars_less(&ca, &cb)
}


/// The character of a decimal digit.
pub open spec fn digit_char(d: int) -> char {
    if d == 0 {
        '0'
    } else if d == 1 {
        '1'
    } else if d == 2 {
        '2'
    } else if d == 3 {
        '3'
    } else if d == 4 {
        '4'
    } else if d == 5 {
        '5'
    } else if d == 6 {
        '6'
    } else if d == 7 {
        '7'
    } else if d == 8 {
        '8'
    } else {
        '9'
    }
}

/// The decimal digits of `n`, most significant first, without leading zeros.
pub open spec fn digits_of(n: nat) -> Seq<char>
    decreases n,
{
    if n < 10 {
        seq![digit_char(n as int)]
    } else {
        digits_of(n / 10).push(digit_char((n % 10) as int))
    }
}

/// The decimal notation of an integer: its digits, after a `-` when negative.
pub open spec fn decimal_text(n: int) -> Seq<char> {
    if n < 0 {
        seq!['-'] + digits_of((-n) as nat)
    } else {
        digits_of(n as nat)
    }
}

fn digit_str(d: u64) -> (r: &'static str)
    requires
        d < 10,
    ensures
        r@ == seq![digit_char(d as int)],
{
    proof {
        reveal_strlit("0");
        reveal_strlit("1");
        reveal_strlit("2");
        reveal_strlit("3");
        reveal_strlit("4");
        reveal_strlit("5");
        reveal_strlit("6");
        reveal_strlit("7");
        reveal_strlit("8");
        reveal_strlit("9");
    }
    if d == 0 {
        "0"
    } else if d == 1 {
        "1"
    } else if d == 2 {
        "2"
    } else if d == 3 {
        "3"
    } else if d == 4 {
        "4"
    } else if d == 5 {
        "5"
    } else if d == 6 {
        "6"
    } else if d == 7 {
        "7"
    } else if d == 8 {
        "8"
    } else {
        "9"
    }
}

pub fn digits_string(n: u64) -> (r: String)
    ensures
        r@ == digits_of(n as nat),
    decreases n,
{
    if n < 10 {
        String::from_str(digit_str(n))
    } else {
        let mut s = digits_string(n / 10);
        s.append(digit_str(n % 10));
        s
    }
}

/// The decimal notation of `n`, as `i64::to_string` writes it.
pub fn decimal(n: i64) -> (r: String)
    ensures
        r@ == decimal_text(n as int),
{
    if n < 0 {
        let m: u64 = if n == i64::MIN {
            9223372036854775808u64
        } else {
            (-n) as u64
        };
        let mut s = String::from_str("-");
        proof {
            reveal_strlit("-");
        }
        let d = digits_string(m);
        s.append(d.as_str());
        s
    } else {
        digits_string(n as u64)
    }
}

/// Whether `c` has the Unicode `White_Space` property, which is what
/// `char::is_whitespace` and `str::trim` go by.
pub open spec fn is_white(c: char) -> bool {
    ||| '\u{9}' <= c <= '\u{d}'
    ||| c == ' '
    ||| c == '\u{85}'
    ||| c == '\u{a0}'
    ||| c == '\u{1680}'
    ||| '\u{2000}' <= c <= '\u{200a}'
    ||| c == '\u{2028}'
    ||| c == '\u{2029}'
    ||| c == '\u{202f}'
    ||| c == '\u{205f}'
    ||| c == '\u{3000}'
}

/// What a trim removes: white space (`None`) or one given character.
pub open spec fn trims(what: Option<char>, c: char) -> bool {
    match what {
        None => is_white(c),
        Some(q) => c == q,
    }
}

fn trims_exec(what: Option<char>, c: char) -> (r: bool)
    ensures
        r == trims(what, c),
{
    match what {
        None => {
            (c >= '\u{9}' && c <= '\u{d}') || c == ' ' || c == '\u{85}' || c == '\u{a0}' || c
                == '\u{1680}' || (c >= '\u{2000}' && c <= '\u{200a}') || c == '\u{2028}' || c
                == '\u{2029}' || c == '\u{202f}' || c == '\u{205f}' || c == '\u{3000}'
        },
        Some(q) => c == q,
    }
}

/// `s` without the characters that `what` trims at its front.
pub open spec fn strip_front(s: Seq<char>, what: Option<char>) -> Seq<char>
    decreases s.len(),
{
    if s.len() > 0 && trims(what, s[0]) {
        strip_front(s.drop_first(), what)
    } else {
        s
    }
}

/// `s` without the characters that `what` trims at its back.
pub open spec fn strip_back(s: Seq<char>, what: Option<char>) -> Seq<char>
    decreases s.len(),
{
    if s.len() > 0 && trims(what, s.last()) {
        strip_back(s.drop_last(), what)
    } else {
        s
    }
}

/// `s` without the characters that `what` trims at either end.
pub open spec fn strip(s: Seq<char>, what: Option<char>) -> Seq<char> {
    strip_back(strip_front(s, what), what)
}

proof fn lemma_strip_front(s: Seq<char>, what: Option<char>, i: int)
    requires
        0 <= i <= s.len(),
        forall|j: int| 0 <= j < i ==> trims(what, #[trigger] s[j]),
        i == s.len() || !trims(what, s[i]),
    ensures
        strip_front(s, what) == s.subrange(i, s.len() as int),
    decreases i,
{
    if i == 0 {
        assert(s.subrange(0, s.len() as int) =~= s);
    } else {
        let t = s.drop_first();
        assert forall|j: int| 0 <= j < i - 1 implies trims(what, #[trigger] t[j]) by {
            assert(t[j] == s[j + 1]);
        }
        lemma_strip_front(t, what, i - 1);
        assert(t.subrange(i - 1, t.len() as int) =~= s.subrange(i, s.len() as int));
    }
}

proof fn lemma_strip_back(s: Seq<char>, what: Option<char>, k: int)
    requires
        0 <= k <= s.len(),
        forall|j: int| k <= j < s.len() ==> trims(what, #[trigger] s[j]),
        k == 0 || !trims(what, s[k - 1]),
    ensures
        strip_back(s, what) == s.subrange(0, k),
    decreases s.len() - k,
{
    if k == s.len() {
        assert(s.subrange(0, k) =~= s);
    } else {
        let t = s.drop_last();
        assert forall|j: int| k <= j < t.len() implies trims(what, #[trigger] t[j]) by {
            assert(t[j] == s[j]);
        }
        lemma_strip_back(t, what, k);
        assert(t.subrange(0, k) =~= s.subrange(0, k));
    }
}

/// `s` without what `what` trims at either end (`str::trim` for white space,
/// `str::trim_matches` for one character).
pub fn trim_text(s: &str, what: Option<char>) -> (r: String)
    ensures
        r@ == strip(s@, what),
{
    let cs = chars_of(s);
    let n = cs.len();
    let mut i: usize = 0;
    while i < n && trims_exec(what, cs[i])
        invariant
            n == cs@.len(),
            cs@ == s@,
            i <= n,
            forall|j: int| 0 <= j < i ==> trims(what, #[trigger] s@[j]),
        decreases n - i,
    {
        i += 1;
    }
    proof {
        lemma_strip_front(s@, what, i as int);
    }
    let mut k: usize = n;
    while k > i && trims_exec(what, cs[k - 1])
        invariant
            n == cs@.len(),
            cs@ == s@,
            i <= k <= n,
            forall|j: int| k <= j < n ==> trims(what, #[trigger] s@[j]),
        decreases k,
    {
        k -= 1;
    }
    proof {
        let front = s@.subrange(i as int, n as int);
        assert forall|j: int| (k - i) <= j < front.len() implies trims(what, #[trigger] front[j]) by {
            assert(front[j] == s@[j + i]);
        }
        if k > i {
            assert(front[k - i - 1] == s@[k - 1]);
        }
        lemma_strip_back(front, what, k - i);
        assert(front.subrange(0, k - i) =~= s@.subrange(i as int, k as int));
    }
    let piece = s.substring_char(i, k);
    String::from_str(piece)
}


/// `s` without what `what` trims at its back (`str::trim_end_matches` for
/// one character).
pub fn trim_end_text(s: &str, what: Option<char>) -> (r: String)
    ensures
        r@ == strip_back(s@, what),
{
    let cs = chars_of(s);
    let n = cs.len();
    let mut k: usize = n;
    while k > 0 && trims_exec(what, cs[k - 1])
        invariant
            n == cs@.len(),
            cs@ == s@,
            k <= n,
            forall|j: int| k <= j < n ==> trims(what, #[trigger] s@[j]),
        decreases k,
    {
        k -= 1;
    }
    proof {
        lemma_strip_back(s@, what, k as int);
    }
    let piece = s.substring_char(0, k);
    String::from_str(piece)
}

/// The first `n` characters of `s`, or all of it when it is shorter.
pub open spec fn first_chars(s: Seq<char>, n: nat) -> Seq<char> {
    if s.len() <= n {
        s
    } else {
        s.take(n as int)
    }
}

/// The first `n` characters of `s` (`s.chars().take(n)`).
pub fn take_chars(s: &str, n: usize) -> (r: String)
    ensures
        r@ == first_chars(s@, n as nat),
{
    let len = s.unicode_len();
    let k = if len <= n {
        len
    } else {
        n
    };
    let piece = s.substring_char(0, k);
    proof {
        if len <= n {
            assert(s@.subrange(0, k as int) =~= s@);
        }
    }
    String::from_str(piece)
}


/// Appends `c` to `s` (`String::push`).
///
/// Trusted: the string afterwards holds its old characters followed by `c`.
#[verifier::external_body]
pub(crate) fn push_char(s: &mut String, c: char)
    ensures
        final(s)@ == old(s)@.push(c),
{
    s.push(c);
}

/// Removes the last character of `s`, if any (`String::pop`).
pub fn pop_char(s: &mut String)
    ensures
        old(s)@.len() == 0 ==> final(s)@ == old(s)@,
        old(s)@.len() > 0 ==> final(s)@ == old(s)@.drop_last(),
{
    let n = s.as_str().unicode_len();
    if n > 0 {
        let t = String::from_str(s.as_str().substring_char(0, n - 1));
        proof {
            assert(old(s)@.subrange(0, n - 1) =~= old(s)@.drop_last());
        }
        *s = t;
    }
}


/// Whether `n` occurs in `h` as a run of consecutive characters.
pub open spec fn has_infix(h: Seq<char>, n: Seq<char>) -> bool {
    exists|i: int| 0 <= i && i + n.len() <= h.len() && #[trigger] h.subrange(i, i + n.len()) == n
}

/// Whether `n` occurs at position `i` of `h`.
fn occurs_at(h: &Vec<char>, n: &Vec<char>, i: usize) -> (r: bool)
    requires
        i + n@.len() <= h@.len(),
    ensures
        r == (h@.subrange(i as int, i + n@.len()) == n@),
{
    let mut k: usize = 0;
    while k < n.len()
        invariant
            i + n@.len() <= h@.len(),
            h@.len() == h.len(),
            k <= n@.len(),
            forall|j: int| 0 <= j < k ==> h@[i + j] == n@[j],
        decreases n.len() - k,
    {
        if h[i + k] != n[k] {
            proof {
                assert(h@.subrange(i as int, i + n@.len())[k as int] != n@[k as int]);
            }
            return false;
        }
        k += 1;
    }
    proof {
        assert(h@.subrange(i as int, i + n@.len()) =~= n@);
    }
    true
}

/// Whether `n` occurs in `h`.
pub fn contains_chars(h: &Vec<char>, n: &Vec<char>) -> (r: bool)
    ensures
        r == has_infix(h@, n@),
{
    if n.len() > h.len() {
        return false;
    }
    let last = h.len() - n.len();
    let mut i: usize = 0;
    while i <= last
        invariant
            last + n@.len() == h@.len(),
            forall|j: int| 0 <= j < i ==> #[trigger] h@.subrange(j, j + n@.len()) != n@,
        decreases last + 1 - i,
    {
        if occurs_at(h, n, i) {
            return true;
        }
        if i == last {
            proof {
                assert forall|j: int| 0 <= j && j + n@.len() <= h@.len() implies #[trigger] h@.subrange(
                    j,
                    j + n@.len(),
                ) != n@ by {
                    assert(j <= last);
                }
            }
            return false;
        }
        i += 1;
    }
    false
}

/// Whether the text `n` occurs in the text `h` (`str::contains`).
pub fn contains_text(h: &str, n: &str) -> (r: bool)
    ensures
        r == has_infix(h@, n@),
{
    let hc = chars_of(h);
    let nc = chars_of(n);
    contains_chars(&hc, &nc)
}

} // verus!

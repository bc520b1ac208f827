//! Text primitives over the character view of strings.
//!
//! Commands, stream lines and error texts are all handled as sequences of
//! characters. The functions here are stated over `Seq<char>`, the view of
//! `str` and `String`, and walk a string once from the front through its
//! `chars` iterator.

use vstd::prelude::*;
use vstd::std_specs::iter::IteratorSpec;
use vstd::string::StringExecFns;
use vstd::utf8::{decode_utf8, valid_utf8};

verus! {

/// Position of the first occurrence of `a` in `s`, or `s.len()` if `a` does
/// not occur.
pub open spec fn first_index<A>(s: Seq<A>, a: A) -> int
    decreases s.len(),
{
    if s.len() == 0 {
        0
    } else if s[0] == a {
        0
    } else {
        1 + first_index(s.drop_first(), a)
    }
}

/// The part of `s` in front of the first `c`; all of `s` if there is none.
pub open spec fn before_first<A>(s: Seq<A>, c: A) -> Seq<A> {
    s.take(first_index(s, c))
}

/// The part of `s` behind the first `c`; empty if there is none.
pub open spec fn after_first<A>(s: Seq<A>, c: A) -> Seq<A> {
    if first_index(s, c) < s.len() {
        s.skip(first_index(s, c) + 1)
    } else {
        Seq::empty()
    }
}

/// Whether `p` is a prefix of `s`.
pub open spec fn has_prefix(s: Seq<char>, p: Seq<char>) -> bool {
    p.len() <= s.len() && s.take(p.len() as int) == p
}

/// The characters with the Unicode property `White_Space`.
pub open spec fn is_white_space(c: char) -> bool {
    let n = c as u32;
    ||| 0x09 <= n <= 0x0D
    ||| n == 0x20
    ||| n == 0x85
    ||| n == 0xA0
    ||| n == 0x1680
    ||| 0x2000 <= n <= 0x200A
    ||| n == 0x2028
    ||| n == 0x2029
    ||| n == 0x202F
    ||| n == 0x205F
    ||| n == 0x3000
}

/// `s` without its leading white space.
pub open spec fn trim_start(s: Seq<char>) -> Seq<char>
    decreases s.len(),
{
    if s.len() > 0 && is_white_space(s[0]) {
        trim_start(s.drop_first())
    } else {
        s
    }
}

/// `s` without its trailing white space.
pub open spec fn trim_end(s: Seq<char>) -> Seq<char>
    decreases s.len(),
{
    if s.len() > 0 && is_white_space(s.last()) {
        trim_end(s.drop_last())
    } else {
        s
    }
}

/// `s` without leading and trailing white space.
pub open spec fn trim_spec(s: Seq<char>) -> Seq<char> {
    trim_end(trim_start(s))
}

/// What `first_index` finds: a position inside `s` that holds `a` with no
/// earlier occurrence, or the length of `s` when `a` is absent.
pub proof fn lemma_first_index<A>(s: Seq<A>, a: A)
    ensures
        0 <= first_index(s, a) <= s.len(),
        first_index(s, a) < s.len() ==> s[first_index(s, a)] == a,
        forall|j: int| 0 <= j < first_index(s, a) ==> s[j] != a,
        first_index(s, a) < s.len() <==> s.contains(a),
    decreases s.len(),
{
    if s.len() > 0 && s[0] != a {
        let t = s.drop_first();
        lemma_first_index(t, a);
        let k = first_index(t, a);
        assert forall|j: int| 0 <= j < 1 + k implies s[j] != a by {
            if j > 0 {
                assert(s[j] == t[j - 1]);
            }
        }
    }
}

/// A position that holds `a` and has no `a` in front of it is the first
/// index; so is the length of `s` when no position holds `a`.
pub proof fn lemma_first_index_unique<A>(s: Seq<A>, a: A, i: int)
    requires
        0 <= i <= s.len(),
        i < s.len() ==> s[i] == a,
        forall|j: int| 0 <= j < i ==> s[j] != a,
    ensures
        first_index(s, a) == i,
{
    lemma_first_index(s, a);
}

/// The first index of `a` after `x` was added at the end: where it was, or
/// at the new last place if `a` was absent and `x` is `a`.
pub proof fn lemma_first_index_push<A>(s: Seq<A>, x: A, a: A)
    ensures
        s.contains(a) ==> first_index(s.push(x), a) == first_index(s, a),
        !s.contains(a) && x == a ==> first_index(s.push(x), a) == s.len(),
        !s.contains(a) && x != a ==> first_index(s.push(x), a) == s.len() + 1,
        s.push(x).contains(a) <==> s.contains(a) || x == a,
{
    lemma_first_index(s, a);
    let t = s.push(x);
    if s.contains(a) {
        lemma_first_index_unique(t, a, first_index(s, a));
    } else if x == a {
        lemma_first_index_unique(t, a, s.len() as int);
    }
    lemma_first_index(t, a);
}

/// A `c`-free text followed by `c` and any tail splits back into that text
/// and that tail.
pub proof fn lemma_split_joined(head: Seq<char>, c: char, tail: Seq<char>)
    requires
        !head.contains(c),
    ensures
        before_first(head + seq![c] + tail, c) == head,
        after_first(head + seq![c] + tail, c) == tail,
        (head + seq![c] + tail).contains(c),
{
    let s = head + seq![c] + tail;
    lemma_first_index_unique(s, c, head.len() as int);
    lemma_first_index(s, c);
}

/// Leading white space up to `a` and a first character that is none: the
/// trimmed text starts at `a`.
pub proof fn lemma_trim_start_at(s: Seq<char>, a: int)
    requires
        0 <= a <= s.len(),
        forall|j: int| 0 <= j < a ==> is_white_space(s[j]),
        a < s.len() ==> !is_white_space(s[a]),
    ensures
        trim_start(s) == s.skip(a),
    decreases a,
{
    if a > 0 {
        lemma_trim_start_at(s.drop_first(), a - 1);
    }
}

/// Trailing white space from `b` on and a last character before `b` that is
/// none: the trimmed text ends at `b`.
pub proof fn lemma_trim_end_at(s: Seq<char>, b: int)
    requires
        0 <= b <= s.len(),
        forall|j: int| b <= j < s.len() ==> is_white_space(s[j]),
        b > 0 ==> !is_white_space(s[b - 1]),
    ensures
        trim_end(s) == s.take(b),
    decreases s.len() - b,
{
    if b < s.len() {
        lemma_trim_end_at(s.drop_last(), b);
    }
}

/// Finds the first occurrence of `c` in `s`, counted in characters.
pub fn find_char(s: &str, c: char) -> (r: Option<usize>)
    ensures
        match r {
            Some(i) => i == first_index(s@, c) && i < s@.len(),
            None => first_index(s@, c) == s@.len(),
        },
        r is Some <==> s@.contains(c),
{
    let mut i: usize = 0;
    let n = s.unicode_len();
    for ch in it: s.chars()
        invariant
            it.seq() == s@,
            i == it.index(),
            n == s@.len(),
            forall|j: int| 0 <= j < i ==> s@[j] != c,
    {
        if ch == c {
            proof {
                lemma_first_index(s@, c);
            }
            return Some(i);
        }
        i = i + 1;
    }
    proof {
        lemma_first_index(s@, c);
    }
    None
}

/// Splits `s` at the first occurrence of `sep`. The separator itself belongs
/// to neither part; later occurrences stay in the second part.
pub fn split_once(s: &str, sep: char) -> (r: Option<(&str, &str)>)
    ensures
        r is Some <==> s@.contains(sep),
        r matches Some((head, tail)) ==> head@ == before_first(s@, sep) && tail@ == after_first(
            s@,
            sep,
        ),
{
    match find_char(s, sep) {
        Some(i) => {
            let n = s.unicode_len();
            let head = s.substring_char(0, i);
            let tail = s.substring_char(i + 1, n);
            Some((head, tail))
        },
        None => None,
    }
}

/// Whether `s` starts with `p`.
pub fn starts_with(s: &str, p: &str) -> (r: bool)
    ensures
        r == has_prefix(s@, p@),
{
    let mut rest_s = s.chars();
    let mut rest_p = p.chars();
    let ghost mut i: int = 0;
    loop
        invariant
            0 <= i <= s@.len(),
            i <= p@.len(),
            rest_s.remaining() == s@.skip(i),
            rest_p.remaining() == p@.skip(i),
            s@.take(i) == p@.take(i),
        decreases p@.len() - i,
    {
        let next_p = rest_p.next();
        match next_p {
            None => {
                assert(p@.take(i) == p@);
                return true;
            },
            Some(x) => {
                let next_s = rest_s.next();
                match next_s {
                    None => {
                        return false;
                    },
                    Some(y) => {
                        if x != y {
                            return false;
                        }
                        proof {
                            i = i + 1;
                        }
                    },
                }
            },
        }
    }
}

/// Whether the two strings hold the same characters.
pub fn text_eq(a: &str, b: &str) -> (r: bool)
    ensures
        r == (a@ == b@),
{
    let r = starts_with(a, b) && starts_with(b, a);
    assert(a@.take(a@.len() as int) == a@);
    r
}

/// Removes `p` from the front of `s`, if `s` starts with it.
pub fn strip_prefix<'a>(s: &'a str, p: &str) -> (r: Option<&'a str>)
    ensures
        r is Some <==> has_prefix(s@, p@),
        r matches Some(rest) ==> rest@ == s@.skip(p@.len() as int),
{
    if starts_with(s, p) {
        let k = p.unicode_len();
        let n = s.unicode_len();
        Some(s.substring_char(k, n))
    } else {
        None
    }
}

/// Whether `c` is white space in the sense of Unicode.
pub fn is_whitespace(c: char) -> (r: bool)
    ensures
        r == is_white_space(c),
{
    let n: u32 = c as u32;
    (0x09 <= n && n <= 0x0D) || n == 0x20 || n == 0x85 || n == 0xA0 || n == 0x1680 || (0x2000 <= n
        && n <= 0x200A) || n == 0x2028 || n == 0x2029 || n == 0x202F || n == 0x205F || n == 0x3000
}

/// Removes leading and trailing white space.
pub fn trim(s: &str) -> (r: &str)
    ensures
        r@ == trim_spec(s@),
{
    let n = s.unicode_len();
    let mut i: usize = 0;
    let mut start: usize = 0;
    let mut end: usize = 0;
    let mut seen = false;
    for ch in it: s.chars()
        invariant
            it.seq() == s@,
            i == it.index(),
            n == s@.len(),
            !seen ==> start == 0 && end == 0 && forall|j: int| 0 <= j < i ==> is_white_space(s@[j]),
            seen ==> start < end <= i,
            seen ==> forall|j: int| 0 <= j < start ==> is_white_space(s@[j]),
            seen ==> !is_white_space(s@[start as int]) && !is_white_space(s@[end - 1]),
            seen ==> forall|j: int| end <= j < i ==> is_white_space(s@[j]),
    {
        if !is_whitespace(ch) {
            if !seen {
                start = i;
                seen = true;
            }
            end = i + 1;
        }
        i = i + 1;
    }
    proof {
        let text = s@;
        if seen {
            lemma_trim_start_at(text, start as int);
            lemma_trim_end_at(text.skip(start as int), end - start);
        } else {
            lemma_trim_start_at(text, text.len() as int);
        }
    }
    s.substring_char(start, end)
}

/// `a` followed by `b`.
pub fn joined(a: &str, b: &str) -> (r: String)
    ensures
        r@ == a@ + b@,
{
    String::from_str(a).concat(b)
}

/// `a`, `b` and `c` one after the other.
pub fn joined3(a: &str, b: &str, c: &str) -> (r: String)
    ensures
        r@ == a@ + b@ + c@,
{
    String::from_str(a).concat(b).concat(c)
}

/// What `String::from_utf8_lossy` makes of bytes that are not valid UTF-8:
/// their text with U+FFFD in place of each part that cannot be decoded.
pub uninterp spec fn utf8_lossy(bytes: Seq<u8>) -> Seq<char>;

/// The text that bytes are read as: the text that they encode if they are
/// valid UTF-8, and otherwise what the lossy decoding makes of them.
pub open spec fn text_of(bytes: Seq<u8>) -> Seq<char> {
    if valid_utf8(bytes) {
        decode_utf8(bytes)
    } else {
        utf8_lossy(bytes)
    }
}

/// `String::from_utf8_lossy`, the result copied into a `String`. Trusted:
/// valid UTF-8 is decoded as it stands, and what is made of other bytes
/// depends on the bytes alone.
#[verifier::external_body]
pub(crate) fn decode_lossy(bytes: &[u8]) -> (r: String)
    ensures
        valid_utf8(bytes@) ==> r@ == decode_utf8(bytes@),
        !valid_utf8(bytes@) ==> r@ == utf8_lossy(bytes@),
{
    String::from_utf8_lossy(bytes).into_owned()
}

} // verus!

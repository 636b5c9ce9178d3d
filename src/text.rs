//! Character classes and string helpers shared by the parsers.
use vstd::prelude::*;
use vstd::string::*;

verus! {

/// What `str::to_lowercase` makes of a string (full Unicode lower-case mapping).
pub uninterp spec fn lower_of(s: Seq<char>) -> Seq<char>;

/// What `str::to_uppercase` makes of a string (full Unicode upper-case mapping).
pub uninterp spec fn upper_of(s: Seq<char>) -> Seq<char>;

/// Whether `char::is_alphabetic` holds of a character (Unicode `Alphabetic`).
pub uninterp spec fn is_alphabetic_char(c: char) -> bool;

/// Whether `char::is_alphanumeric` holds of a character (`Alphabetic` or `Numeric`).
pub uninterp spec fn is_alphanumeric_char(c: char) -> bool;

/// Whether `char::is_whitespace` holds of a character (Unicode `White_Space`).
pub uninterp spec fn is_whitespace_char(c: char) -> bool;

pub open spec fn is_ascii_letter(c: char) -> bool {
    ('a' <= c && c <= 'z') || ('A' <= c && c <= 'Z')
}

pub open spec fn is_ascii_digit(c: char) -> bool {
    '0' <= c && c <= '9'
}

/// Relies on `str::to_lowercase`: the result depends on the characters alone.
#[verifier::external_body]
pub(crate) fn to_lower(s: &str) -> (r: String)
    ensures
        r@ == lower_of(s@),
{
    s.to_lowercase()
}

/// Relies on `str::to_uppercase`: the result depends on the characters alone.
#[verifier::external_body]
pub(crate) fn to_upper(s: &str) -> (r: String)
    ensures
        r@ == upper_of(s@),
{
    s.to_uppercase()
}

/// Relies on `char::is_alphabetic`; ASCII letters are alphabetic, ASCII digits are not.
#[verifier::external_body]
pub(crate) fn alphabetic(c: char) -> (r: bool)
    ensures
        r == is_alphabetic_char(c),
        is_ascii_letter(c) ==> r,
        is_ascii_digit(c) ==> !r,
{
    c.is_alphabetic()
}

/// Relies on `char::is_alphanumeric`; ASCII letters and digits are alphanumeric.
#[verifier::external_body]
pub(crate) fn alphanumeric(c: char) -> (r: bool)
    ensures
        r == is_alphanumeric_char(c),
        is_ascii_letter(c) || is_ascii_digit(c) ==> r,
{
    c.is_alphanumeric()
}

/// Relies on `char::is_whitespace`; the space character is whitespace.
#[verifier::external_body]
pub(crate) fn whitespace(c: char) -> (r: bool)
    ensures
        r == is_whitespace_char(c),
        c == ' ' ==> r,
{
    c.is_whitespace()
}

/// Relies on `String::push`: appends one character at the end.
#[verifier::external_body]
pub(crate) fn push_char(s: &mut String, c: char)
    ensures
        final(s)@ == old(s)@.push(c),
{
    s.push(c)
}

/// Whether two strings hold the same characters.
pub fn same_text(a: &str, b: &str) -> (r: bool)
    ensures
        r == (a@ == b@),
{
    let n = a.unicode_len();
    if n != b.unicode_len() {
        return false;
    }
    let mut i: usize = 0;
    while i < n
        invariant
            n == a@.len(),
            n == b@.len(),
            i <= n,
            a@.subrange(0, i as int) == b@.subrange(0, i as int),
        decreases n - i,
    {
        if a.get_char(i) != b.get_char(i) {
            return false;
        }
        assert(a@.subrange(0, i + 1) =~= a@.subrange(0, i as int).push(a@[i as int]));
        assert(b@.subrange(0, i + 1) =~= b@.subrange(0, i as int).push(b@[i as int]));
        i = i + 1;
    }
    assert(a@ =~= a@.subrange(0, n as int));
    assert(b@ =~= b@.subrange(0, n as int));
    true
}

/// `s` without its leading whitespace.
pub open spec fn trim_start(s: Seq<char>) -> Seq<char>
    decreases s.len(),
{
    if s.len() > 0 && is_whitespace_char(s[0]) {
        trim_start(s.drop_first())
    } else {
        s
    }
}

/// `s` without its trailing whitespace.
pub open spec fn trim_end(s: Seq<char>) -> Seq<char>
    decreases s.len(),
{
    if s.len() > 0 && is_whitespace_char(s.last()) {
        trim_end(s.drop_last())
    } else {
        s
    }
}

/// `s` without leading and trailing whitespace, as `str::trim` gives it.
pub open spec fn trimmed(s: Seq<char>) -> Seq<char> {
    trim_end(trim_start(s))
}

/// What is left after leading whitespace is a suffix of `s` that starts with
/// something other than whitespace.
pub proof fn lemma_trim_start_shape(s: Seq<char>)
    ensures
        exists|k: int| 0 <= k <= s.len() && trim_start(s) == s.subrange(k, s.len() as int),
        trim_start(s).len() > 0 ==> !is_whitespace_char(trim_start(s)[0]),
    decreases s.len(),
{
    if s.len() > 0 && is_whitespace_char(s[0]) {
        lemma_trim_start_shape(s.drop_first());
        let k = choose|k: int|
            0 <= k <= s.drop_first().len() && trim_start(s.drop_first())
                == s.drop_first().subrange(k, s.drop_first().len() as int);
        assert(s.drop_first().subrange(k, s.drop_first().len() as int) =~= s.subrange(
            k + 1,
            s.len() as int,
        ));
    } else {
        assert(s =~= s.subrange(0, s.len() as int));
    }
}

/// What is left after trailing whitespace is a prefix of `s` that ends with
/// something other than whitespace, and keeps a first character that is not
/// whitespace.
pub proof fn lemma_trim_end_shape(s: Seq<char>)
    ensures
        exists|k: int| 0 <= k <= s.len() && trim_end(s) == s.subrange(0, k),
        trim_end(s).len() > 0 ==> !is_whitespace_char(trim_end(s).last()),
        s.len() > 0 && !is_whitespace_char(s[0]) ==> trim_end(s).len() > 0 && trim_end(s)[0]
            == s[0],
    decreases s.len(),
{
    if s.len() > 0 && is_whitespace_char(s.last()) {
        lemma_trim_end_shape(s.drop_last());
        let k = choose|k: int|
            0 <= k <= s.drop_last().len() && trim_end(s.drop_last()) == s.drop_last().subrange(
                0,
                k,
            );
        assert(s.drop_last().subrange(0, k) =~= s.subrange(0, k));
    } else {
        assert(s =~= s.subrange(0, s.len() as int));
    }
}

/// Trimming again changes nothing.
pub proof fn lemma_trimmed_idempotent(s: Seq<char>)
    ensures
        trimmed(trimmed(s)) == trimmed(s),
{
    let a = trim_start(s);
    lemma_trim_start_shape(s);
    lemma_trim_end_shape(a);
    let t = trim_end(a);
    // t starts with what a starts with, so no leading whitespace is left
    assert(trim_start(t) == t);
    lemma_trim_end_shape(t);
    assert(trim_end(t) == t);
}

/// Every character of `trimmed(s)` is a character of `s`.
pub proof fn lemma_trimmed_within(s: Seq<char>)
    ensures
        forall|i: int| 0 <= i < trimmed(s).len() ==> s.contains(#[trigger] trimmed(s)[i]),
{
    lemma_trim_start_shape(s);
    let k1 = choose|k: int| 0 <= k <= s.len() && trim_start(s) == s.subrange(k, s.len() as int);
    let a = trim_start(s);
    lemma_trim_end_shape(a);
    let k2 = choose|k: int| 0 <= k <= a.len() && trim_end(a) == a.subrange(0, k);
    assert forall|i: int| 0 <= i < trimmed(s).len() implies s.contains(#[trigger] trimmed(s)[i]) by {
        assert(trimmed(s)[i] == s[k1 + i]);
    }
}

/// A copy of `s` without leading and trailing whitespace (`str::trim`).
pub fn trim_whitespace(s: &str) -> (r: String)
    ensures
        r@ == trimmed(s@),
{
    let n = s.unicode_len();
    let mut lo: usize = 0;
    assert(s@ =~= s@.subrange(0, n as int));
    while lo < n && whitespace(s.get_char(lo))
        invariant
            n == s@.len(),
            lo <= n,
            trim_start(s@) == trim_start(s@.subrange(lo as int, n as int)),
        decreases n - lo,
    {
        assert(s@.subrange(lo as int, n as int).drop_first() =~= s@.subrange(lo + 1, n as int));
        lo = lo + 1;
    }
    assert(trim_start(s@) == s@.subrange(lo as int, n as int));
    let mut hi: usize = n;
    while hi > lo && whitespace(s.get_char(hi - 1))
        invariant
            n == s@.len(),
            lo <= hi <= n,
            trimmed(s@) == trim_end(s@.subrange(lo as int, hi as int)),
        decreases hi - lo,
    {
        assert(s@.subrange(lo as int, hi as int).drop_last() =~= s@.subrange(
            lo as int,
            hi - 1,
        ));
        hi = hi - 1;
    }
    let t = s.substring_char(lo, hi);
    String::from_str(t)
}

} // verus!

//! Volume names: what is kept of a user's label.
use vstd::prelude::*;
use crate::text::{
    alphanumeric, is_alphanumeric_char, lemma_trimmed_idempotent, lemma_trimmed_within, push_char,
    trim_whitespace, trimmed,
};

verus! {

/// Characters a volume name may hold.
pub open spec fn keep_in_name(c: char) -> bool {
    is_alphanumeric_char(c) || c == '_' || c == '-' || c == ' '
}

/// `s` without the characters a volume name may not hold.
pub open spec fn kept(s: Seq<char>) -> Seq<char>
    decreases s.len(),
{
    if s.len() == 0 {
        s
    } else if keep_in_name(s.last()) {
        kept(s.drop_last()).push(s.last())
    } else {
        kept(s.drop_last())
    }
}

/// The volume name made of a label.
pub open spec fn sanitized(s: Seq<char>) -> Seq<char> {
    trimmed(kept(s))
}

/// Keeps alphanumeric characters, space, hyphen and underscore, in order, and
/// trims surrounding whitespace.
pub fn sanitize_volume_name(name: &str) -> (r: String)
    ensures
        r@ == sanitized(name@),
{
    let n = name.unicode_len();
    let mut out = String::new();
    let mut i: usize = 0;
    while i < n
        invariant
            n == name@.len(),
            i <= n,
            out@ == kept(name@.subrange(0, i as int)),
        decreases n - i,
    {
        let c = name.get_char(i);
        let ghost pre = name@.subrange(0, i as int);
        let ghost next = name@.subrange(0, i + 1);
        assert(next.drop_last() =~= pre);
        if alphanumeric(c) || c == '_' || c == '-' || c == ' ' {
            push_char(&mut out, c);
        }
        i = i + 1;
    }
    assert(name@.subrange(0, n as int) =~= name@);
    trim_whitespace(out.as_str())
}

proof fn lemma_kept_all_kept(s: Seq<char>)
    ensures
        forall|i: int| 0 <= i < kept(s).len() ==> keep_in_name(#[trigger] kept(s)[i]),
    decreases s.len(),
{
    if s.len() > 0 {
        lemma_kept_all_kept(s.drop_last());
        let p = kept(s.drop_last());
        assert forall|i: int| 0 <= i < kept(s).len() implies keep_in_name(#[trigger] kept(s)[i]) by {
            if i < p.len() {
                assert(kept(s)[i] == p[i]);
            }
        }
    }
}

proof fn lemma_kept_unchanged(s: Seq<char>)
    requires
        forall|i: int| 0 <= i < s.len() ==> keep_in_name(#[trigger] s[i]),
    ensures
        kept(s) == s,
    decreases s.len(),
{
    if s.len() > 0 {
        lemma_kept_unchanged(s.drop_last());
        assert(s.drop_last().push(s.last()) =~= s);
    }
}

/// Sanitizing a sanitized name gives it back unchanged.
pub proof fn lemma_sanitize_idempotent(s: Seq<char>)
    ensures
        sanitized(sanitized(s)) == sanitized(s),
{
    let k = kept(s);
    let t = trimmed(k);
    lemma_kept_all_kept(s);
    lemma_trimmed_within(k);
    assert forall|i: int| 0 <= i < t.len() implies keep_in_name(#[trigger] t[i]) by {
        assert(k.contains(t[i]));
    }
    lemma_kept_unchanged(t);
    lemma_trimmed_idempotent(k);
}

} // verus!

//! Text helpers used when comparing descriptor strings.

use vstd::prelude::*;

verus! {

/// Position of the last space character of `s`, or -1 when `s` has none.
pub open spec fn last_space_index(s: Seq<char>) -> int
    decreases s.len(),
{
    if s.len() == 0 {
        -1
    } else if s.last() == ' ' {
        s.len() - 1
    } else {
        last_space_index(s.drop_last())
    }
}

/// `s` cut just before its last space; `s` unchanged when it has no space.
pub open spec fn without_last_word(s: Seq<char>) -> Seq<char> {
    let k = last_space_index(s);
    if k < 0 {
        s
    } else {
        s.subrange(0, k)
    }
}

proof fn lemma_last_space_index_bounds(s: Seq<char>)
    ensures
        -1 <= last_space_index(s) < s.len(),
    decreases s.len(),
{
    if s.len() > 0 {
        lemma_last_space_index_bounds(s.drop_last());
    }
}

/// Drops the last space-separated word of `input`, together with the space
/// before it. Device product strings often end in a generic word such as
/// "Port" or "Device"; this strips it.
pub fn remove_last_word(input: &str) -> (r: String)
    ensures
        r@ == without_last_word(input@),
{
    let n = input.unicode_len();
    let mut last: Option<usize> = None;
    let mut k: usize = 0;
    for c in it: input.chars()
        invariant
            n == input@.len(),
            it.seq() == input@,
            k == it.index(),
            k <= n,
            match last {
                Some(p) => last_space_index(input@.take(k as int)) == p as int,
                None => last_space_index(input@.take(k as int)) == -1,
            },
    {
        assert(input@.take(k + 1).drop_last() =~= input@.take(k as int));
        if c == ' ' {
            last = Some(k);
        }
        k = k + 1;
    }
    assert(input@.take(k as int) =~= input@);
    proof {
        lemma_last_space_index_bounds(input@);
    }
    match last {
        Some(p) => input.substring_char(0, p).to_owned(),
        None => input.to_owned(),
    }
}

/// What `str::trim` leaves of `s`.
pub uninterp spec fn trimmed(s: Seq<char>) -> Seq<char>;

/// Relies on `str::trim`: `s` without its leading and trailing white space,
/// a result that depends on the characters of `s` alone.
#[verifier::external_body]
pub(crate) fn trim_to_string(s: &str) -> (r: String)
    ensures
        r@ == trimmed(s@),
{
    s.trim().to_string()
}

} // verus!

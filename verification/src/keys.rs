//! Layout of the store's keys.
//!
//! For a tracked branch named `b`, the store holds its live set under the
//! branch name uppercased, its staging set under that name with a `_DELTA`
//! suffix, and its latest-commit pointer under `LAST_<NAME>_COMMIT`. The
//! readiness state sits under the single key `STATE`.

use vstd::prelude::*;

verus! {

/// ASCII uppercasing of one character; anything but a lowercase ASCII
/// letter is unchanged.
pub open spec fn upper_char(c: char) -> char {
    if 97 <= c as u32 && c as u32 <= 122 {
        (((c as u32) - 32) as u8) as char
    } else {
        c
    }
}

/// ASCII uppercasing of a string of characters.
pub open spec fn upper_seq(s: Seq<char>) -> Seq<char> {
    s.map_values(|c: char| upper_char(c))
}

/// Uppercases one character, ASCII-only.
pub fn to_upper_char(c: char) -> (r: char)
    ensures
        r == upper_char(c),
{
    let u = c as u32;
    if 97 <= u && u <= 122 {
        ((u - 32) as u8) as char
    } else {
        c
    }
}

/// Relies on String::push: appends exactly one character to the string.
#[verifier::external_body]
fn push_char(s: &mut String, c: char)
    ensures
        final(s)@ == old(s)@.push(c),
{
    s.push(c);
}

/// Uppercases the ASCII letters of a string.
pub fn to_upper(s: &str) -> (r: String)
    ensures
        r@ == upper_seq(s@),
{
    let n = s.unicode_len();
    let mut r = String::new();
    let mut i: usize = 0;
    while i < n
        invariant
            n == s@.len(),
            i <= n,
            r@ == upper_seq(s@).subrange(0, i as int),
        decreases n - i,
    {
        let c = s.get_char(i);
        push_char(&mut r, to_upper_char(c));
        proof {
            assert(r@ =~= upper_seq(s@).subrange(0, i + 1));
        }
        i = i + 1;
    }
    proof {
        assert(upper_seq(s@).subrange(0, n as int) =~= upper_seq(s@));
    }
    r
}

/// Key of a branch's live set: the branch name uppercased.
pub open spec fn spec_branch_key(b: Seq<char>) -> Seq<char> {
    upper_seq(b)
}

/// Key of a branch's live set.
pub fn branch_key(branch: &str) -> (r: String)
    ensures
        r@ == spec_branch_key(branch@),
{
    to_upper(branch)
}

/// Key of the staging set a delta update fills before its swap.
pub open spec fn spec_staging_key(b: Seq<char>) -> Seq<char> {
    upper_seq(b) + "_DELTA"@
}

/// Key of a branch's staging set.
pub fn staging_key(branch: &str) -> (r: String)
    ensures
        r@ == spec_staging_key(branch@),
{
    let mut r = to_upper(branch);
    r.append("_DELTA");
    r
}

/// Key of a branch's latest-commit pointer.
pub open spec fn spec_latest_key(b: Seq<char>) -> Seq<char> {
    "LAST_"@ + upper_seq(b) + "_COMMIT"@
}

/// Key of a branch's latest-commit pointer.
pub fn latest_key(branch: &str) -> (r: String)
    ensures
        r@ == spec_latest_key(branch@),
{
    let mut r = String::from_str("LAST_");
    let up = to_upper(branch);
    r.append(up.as_str());
    r.append("_COMMIT");
    r
}

/// The single key under which the readiness state string is stored.
pub fn state_key() -> (r: String)
    ensures
        r@ == "STATE"@,
{
    String::from_str("STATE")
}

} // verus!

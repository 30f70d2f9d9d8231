//! Fixed configuration: the tracked branches, the repository the commit
//! graph comes from, and the default listen port.

use vstd::prelude::*;

verus! {

/// The default HTTP listen port, used when none is configured.
pub const DEFAULT_PORT: u16 = 8080;

/// The names of the tracked branches, in indexing order.
pub open spec fn spec_tracked_branches() -> Seq<Seq<char>> {
    seq![
        "master"@,
        "staging"@,
        "staging-next"@,
        "nixpkgs-unstable"@,
        "nixos-unstable-small"@,
        "nixos-unstable"@,
        "nixos-24.05"@,
    ]
}

/// The tracked branches, in indexing order; the first is the primary
/// branch, whose latest-commit pointer query answers report.
pub fn tracked_branches() -> (r: Vec<String>)
    ensures
        r@.len() == spec_tracked_branches().len(),
        forall|j: int| 0 <= j < r@.len() ==> r@[j]@ == spec_tracked_branches()[j],
{
    let mut r: Vec<String> = Vec::new();
    r.push(String::from_str("master"));
    r.push(String::from_str("staging"));
    r.push(String::from_str("staging-next"));
    r.push(String::from_str("nixpkgs-unstable"));
    r.push(String::from_str("nixos-unstable-small"));
    r.push(String::from_str("nixos-unstable"));
    r.push(String::from_str("nixos-24.05"));
    r
}

/// Whether every character of the string is a decimal digit.
pub open spec fn is_decimal(s: Seq<char>) -> bool {
    forall|k: int| 0 <= k < s.len() ==> 48 <= #[trigger] (s[k] as u32) <= 57
}

/// The numeric value of a string of decimal digits.
pub open spec fn decimal_value(s: Seq<char>) -> int
    decreases s.len(),
{
    if s.len() == 0 {
        0
    } else {
        decimal_value(s.drop_last()) * 10 + (s.last() as u32 - 48)
    }
}

proof fn lemma_decimal_value_nonneg(s: Seq<char>)
    requires
        is_decimal(s),
    ensures
        decimal_value(s) >= 0,
    decreases s.len(),
{
    if s.len() > 0 {
        assert(is_decimal(s.drop_last()));
        lemma_decimal_value_nonneg(s.drop_last());
    }
}

proof fn lemma_decimal_prefix_bound(s: Seq<char>, i: int)
    requires
        is_decimal(s),
        0 <= i <= s.len(),
    ensures
        decimal_value(s.subrange(0, i)) <= decimal_value(s),
    decreases s.len() - i,
{
    if i == s.len() {
        assert(s.subrange(0, i) =~= s);
    } else {
        lemma_decimal_prefix_bound(s, i + 1);
        assert(s.subrange(0, i + 1).drop_last() =~= s.subrange(0, i));
        assert(is_decimal(s.subrange(0, i)));
        lemma_decimal_value_nonneg(s.subrange(0, i));
    }
}

/// What a configured port string parses to: its decimal value, when the
/// string is one or more digits naming a value in `u16`'s range; nothing
/// otherwise.
pub open spec fn spec_parse_port(s: Seq<char>) -> Option<u16> {
    if s.len() > 0 && is_decimal(s) && decimal_value(s) <= 65535 {
        Some(decimal_value(s) as u16)
    } else {
        None
    }
}

/// Parses a configured port string.
pub fn parse_port(s: &str) -> (r: Option<u16>)
    ensures
        r == spec_parse_port(s@),
{
    let n = s.unicode_len();
    if n == 0 {
        return None;
    }
    let mut value: u32 = 0;
    let mut i: usize = 0;
    while i < n
        invariant
            n == s@.len(),
            i <= n,
            is_decimal(s@.subrange(0, i as int)),
            value == decimal_value(s@.subrange(0, i as int)),
            value <= 65535,
        decreases n - i,
    {
        let c = s.get_char(i);
        let d = c as u32;
        if d < 48 || d > 57 {
            proof {
                assert(!is_decimal(s@)) by {
                    assert(!(48 <= (s@[i as int] as u32) <= 57));
                }
            }
            return None;
        }
        let next = value * 10 + (d - 48);
        proof {
            assert(s@.subrange(0, i + 1).drop_last() =~= s@.subrange(0, i as int));
            assert(s@.subrange(0, i + 1).last() == s@[i as int]);
            assert(is_decimal(s@.subrange(0, i + 1)));
        }
        if next > 65535 {
            proof {
                if is_decimal(s@) {
                    lemma_decimal_prefix_bound(s@, i + 1);
                }
            }
            return None;
        }
        value = next;
        i = i + 1;
    }
    proof {
        assert(s@.subrange(0, n as int) =~= s@);
    }
    Some(value as u16)
}

/// The URL the commit graph is cloned from when no local copy exists.
pub fn repo_url() -> (r: String)
    ensures
        r@ == "https://github.com/NixOS/nixpkgs"@,
{
    String::from_str("https://github.com/NixOS/nixpkgs")
}

/// The local path of the commit graph's working copy.
pub fn repo_path() -> (r: String)
    ensures
        r@ == "nixpkgs"@,
{
    String::from_str("nixpkgs")
}

} // verus!

//! Host Matcher: decides whether a hostname belongs to the hosting service
//! and, if so, extracts the region identifier embedded in it.

use vstd::prelude::*;
use vstd::string::StrSliceExecFns;

verus! {

/// The fixed part of a service hostname before the region.
pub open spec fn host_prefix() -> Seq<char> {
    "git-codecommit."@
}

/// The fixed part of a service hostname after the region.
pub open spec fn host_suffix() -> Seq<char> {
    ".amazonaws.com"@
}

/// A character allowed in a region identifier: a lowercase ASCII letter, an
/// ASCII digit, or a hyphen.
pub open spec fn region_char(c: char) -> bool {
    (97 <= c as u32 && c as u32 <= 122) || (48 <= c as u32 && c as u32 <= 57) || c as u32 == 45
}

/// A well-formed region identifier: nonempty, region characters only.
pub open spec fn is_region(s: Seq<char>) -> bool {
    s.len() > 0 && (forall|i: int| 0 <= i < s.len() ==> region_char(#[trigger] s[i]))
}

/// `host` is a service hostname carrying exactly the region `region`.
pub open spec fn host_matches(host: Seq<char>, region: Seq<char>) -> bool {
    is_region(region) && host == host_prefix() + region + host_suffix()
}

/// A hostname embeds at most one region: if it matches at all, the region it
/// carries is unique.
pub proof fn lemma_region_unique(host: Seq<char>, r1: Seq<char>, r2: Seq<char>)
    requires
        host_matches(host, r1),
        host_matches(host, r2),
    ensures
        r1 == r2,
{
    assert(host.len() == host_prefix().len() + r1.len() + host_suffix().len());
    assert(host.len() == host_prefix().len() + r2.len() + host_suffix().len());
    assert forall|i: int| 0 <= i < r1.len() implies r1[i] == r2[i] by {
        assert(host[host_prefix().len() + i] == r1[i]);
        assert(host[host_prefix().len() + i] == r2[i]);
    }
    assert(r1 =~= r2);
}

/// Returns the region embedded in `host` when `host` is a service hostname
/// of the form `git-codecommit.<region>.amazonaws.com`, and nothing
/// otherwise. Mixed-case or otherwise deviating hostnames do not match.
#[verifier::loop_isolation(false)]
pub fn match_host(host: &str) -> (r: Option<String>)
    ensures
        r matches Some(region) ==> host_matches(host@, region@),
        r is None ==> forall|region: Seq<char>| !host_matches(host@, region),
{
    let p = "git-codecommit.";
    let s = ".amazonaws.com";
    proof {
        reveal_strlit("git-codecommit.");
        reveal_strlit(".amazonaws.com");
    }
    let n = host.unicode_len();
    if n < 30 {
        proof {
            assert forall|region: Seq<char>| !host_matches(host@, region) by {
                if host_matches(host@, region) {
                    assert(host@.len() == 15 + region.len() + 14);
                }
            }
        }
        return None;
    }
    let mut i: usize = 0;
    while i < 15
        invariant
            i <= 15,
            forall|j: int| 0 <= j < i ==> host@[j] == host_prefix()[j],
        decreases 15 - i,
    {
        if host.get_char(i) != p.get_char(i) {
            proof {
                assert forall|region: Seq<char>| !host_matches(host@, region) by {
                    if host_matches(host@, region) {
                        assert(host@[i as int] == host_prefix()[i as int]);
                    }
                }
            }
            return None;
        }
        i = i + 1;
    }
    let mut k: usize = 0;
    while k < 14
        invariant
            k <= 14,
            forall|j: int| 0 <= j < k ==> host@[n - 14 + j] == host_suffix()[j],
        decreases 14 - k,
    {
        if host.get_char(n - 14 + k) != s.get_char(k) {
            proof {
                assert forall|region: Seq<char>| !host_matches(host@, region) by {
                    if host_matches(host@, region) {
                        assert(region.len() == n - 29);
                        assert(host@[n - 14 + k] == host_suffix()[k as int]);
                    }
                }
            }
            return None;
        }
        k = k + 1;
    }
    let mut m: usize = 15;
    while m < n - 14
        invariant
            15 <= m <= n - 14,
            forall|j: int| 15 <= j < m ==> region_char(#[trigger] host@[j]),
        decreases n - 14 - m,
    {
        let c = host.get_char(m);
        let v = c as u32;
        if !((97 <= v && v <= 122) || (48 <= v && v <= 57) || v == 45) {
            proof {
                assert forall|region: Seq<char>| !host_matches(host@, region) by {
                    if host_matches(host@, region) {
                        assert(region.len() == n - 29);
                        assert(host@[m as int] == region[m - 15]);
                        assert(region_char(region[m - 15]));
                    }
                }
            }
            return None;
        }
        m = m + 1;
    }
    let region = host.substring_char(15, n - 14).to_owned();
    proof {
        assert(region@ == host@.subrange(15, n as int - 14));
        assert(is_region(region@));
        assert(host@ =~= host_prefix() + region@ + host_suffix());
    }
    Some(region)
}

} // verus!

//! URL validation and host dispatch: parses a repository URL through the
//! delegated URL parser and decides whether this helper handles its host.

use vstd::prelude::*;
use crate::credential::{CredError, UrlTarget};
use crate::hostmatch::{host_matches, match_host};

verus! {

/// Whether `url::Url::parse` accepts the string.
pub uninterp spec fn url_ok(s: Seq<char>) -> bool;

/// The host component of the parsed URL, absent when the URL has none.
pub uninterp spec fn url_host_of(s: Seq<char>) -> Option<Seq<char>>;

/// The path component of the parsed URL.
pub uninterp spec fn url_path_of(s: Seq<char>) -> Seq<char>;

/// The host string against which matching runs: the parsed host, or the
/// empty string for a URL without one (which then never matches).
pub open spec fn spec_effective_host(s: Seq<char>) -> Seq<char> {
    match url_host_of(s) {
        Some(h) => h,
        None => Seq::empty(),
    }
}

/// The components of a parsed URL that the credential derivation reads.
pub struct UrlParts {
    pub host: Option<String>,
    pub path: String,
}

/// Relies on `url::Url::parse` and the accessors `Url::host_str` and
/// `Url::path`: parsing is a function of the input string alone; on success
/// the returned parts are the parsed URL's host and path components.
#[verifier::external_body]
fn parse_url(s: &str) -> (r: Option<UrlParts>)
    ensures
        r is Some <==> url_ok(s@),
        r matches Some(p) ==> p.host.deep_view() == url_host_of(s@) && p.path@ == url_path_of(s@),
{
    match url::Url::parse(s) {
        Ok(u) => Some(
            UrlParts { host: u.host_str().map(|h| h.to_string()), path: u.path().to_string() },
        ),
        Err(_) => None,
    }
}

/// Validates the repository URL and decides whether this helper handles it.
///
/// A URL that does not parse is a genuine failure. A URL whose host is not a
/// service hostname is declined (`Ok(None)`), never an error: the helper may
/// be asked about unrelated hosts. A matching host yields the target with
/// its unique embedded region.
pub fn request_region(url_str: &str) -> (r: Result<Option<UrlTarget>, CredError>)
    ensures
        r is Err <==> !url_ok(url_str@),
        r is Err ==> r == Err::<Option<UrlTarget>, CredError>(CredError::UrlParse),
        r matches Ok(Some(t)) ==> t.host@ == spec_effective_host(url_str@) && t.path@
            == url_path_of(url_str@) && host_matches(t.host@, t.region@),
        r matches Ok(o) && o is None ==> forall|region: Seq<char>|
            !host_matches(spec_effective_host(url_str@), region),
{
    let parts = match parse_url(url_str) {
        None => {
            return Err(CredError::UrlParse);
        },
        Some(p) => p,
    };
    let host: String = match parts.host {
        Some(h) => h,
        None => String::new(),
    };
    proof {
        assert(host@ == spec_effective_host(url_str@));
    }
    match match_host(host.as_str()) {
        Some(region) => Ok(Some(UrlTarget { host, path: parts.path, region })),
        None => Ok(None),
    }
}

} // verus!

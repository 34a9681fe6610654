//! Credential Synthesizer: assembles the username/password pair for a
//! matched target from ambient credentials and a captured timestamp.

use vstd::prelude::*;
use vstd::string::StringExecFns;
use crate::signing::{
    spec_signing_key,
    spec_string_to_sign,
    spec_signature,
    signing_key,
    string_to_sign,
    signature,
};
use crate::timestamp::{Timestamp, spec_date, spec_datetime_z, format_date, format_datetime_z};

verus! {

/// A matched target: the host and path of the repository URL and the region
/// embedded in the host.
#[derive(Debug, PartialEq, Eq)]
pub struct UrlTarget {
    pub host: String,
    pub path: String,
    pub region: String,
}

/// Ambient cloud credentials, supplied by an external resolver and held only
/// for the one invocation. The secret access key is sensitive: this type
/// deliberately offers no textual rendering.
pub struct Credentials {
    pub access_key_id: String,
    pub secret_access_key: String,
    pub session_token: Option<String>,
}

/// The derived credential: a username/password pair consumed once by the
/// calling version-control client.
#[derive(Debug, PartialEq, Eq)]
pub struct Credential {
    pub username: String,
    pub password: String,
}

/// A genuine failure of one invocation. A non-matching host is not an error
/// and is reported as a decline instead.
#[derive(Clone, Copy, Debug, PartialEq, Eq, Structural)]
pub enum CredError {
    /// The repository URL could not be parsed.
    UrlParse,
    /// The captured timestamp is not a well-formed calendar time.
    InvalidTimestamp,
}

impl CredError {
    /// A human-readable description of the failure.
    pub fn message(&self) -> (r: String)
        ensures
            *self == CredError::UrlParse ==> r@ == "malformed repository URL"@,
            *self == CredError::InvalidTimestamp ==> r@ == "invalid timestamp"@,
    {
        match self {
            CredError::UrlParse => String::from_str("malformed repository URL"),
            CredError::InvalidTimestamp => String::from_str("invalid timestamp"),
        }
    }
}

/// The username for a set of credentials: the access-key id, suffixed with
/// `%` and the session token when a token is present.
pub open spec fn spec_username(access_key_id: Seq<char>, token: Option<Seq<char>>) -> Seq<char> {
    match token {
        Some(t) => access_key_id + "%"@ + t,
        None => access_key_id,
    }
}

/// Derives the username from the access-key id and the optional session
/// token.
pub fn derive_username(access_key_id: &str, session_token: &Option<String>) -> (r: String)
    ensures
        r@ == spec_username(access_key_id@, session_token.deep_view()),
{
    match session_token {
        Some(t) => {
            let mut r = String::from_str(access_key_id);
            r.append("%");
            r.append(t.as_str());
            proof {
                assert(r@ =~= spec_username(access_key_id@, session_token.deep_view()));
            }
            r
        },
        None => access_key_id.to_owned(),
    }
}

/// The password for one invocation: the date-time with its UTC marker,
/// concatenated with the hex signature of the string-to-sign under the
/// scoped signing key.
pub open spec fn spec_password(
    secret: Seq<char>,
    ts: Timestamp,
    region: Seq<char>,
    host: Seq<char>,
    path: Seq<char>,
) -> Seq<char> {
    spec_datetime_z(ts) + spec_signature(
        spec_string_to_sign(ts, region, host, path),
        spec_signing_key(secret, spec_date(ts), region, "codecommit"@),
    )
}

/// Computes the signed credential for a matched target: the username per
/// [`spec_username`] and the password per [`spec_password`], exactly 80
/// characters long. An ill-formed timestamp is the one failure.
pub fn synthesize_credential(target: &UrlTarget, creds: &Credentials, ts: &Timestamp) -> (r: Result<
    Credential,
    CredError,
>)
    ensures
        ts.wf() ==> (r matches Ok(c) && c.username@ == spec_username(
            creds.access_key_id@,
            creds.session_token.deep_view(),
        ) && c.password@ == spec_password(
            creds.secret_access_key@,
            *ts,
            target.region@,
            target.host@,
            target.path@,
        ) && c.password@.len() == 80),
        !ts.wf() ==> r == Err::<Credential, CredError>(CredError::InvalidTimestamp),
{
    if !ts.is_wf() {
        return Err(CredError::InvalidTimestamp);
    }
    let username = derive_username(creds.access_key_id.as_str(), &creds.session_token);
    let date = format_date(ts);
    let to_sign = string_to_sign(
        ts,
        target.region.as_str(),
        target.host.as_str(),
        target.path.as_str(),
    );
    let key = signing_key(
        creds.secret_access_key.as_str(),
        date.as_str(),
        target.region.as_str(),
        "codecommit",
    );
    let sig = signature(to_sign.as_str(), key.as_slice());
    let mut password = format_datetime_z(ts);
    password.append(sig.as_str());
    Ok(Credential { username, password })
}

} // verus!

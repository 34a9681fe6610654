use codecommit_creds::credential::{
    derive_username, synthesize_credential, CredError, Credentials, UrlTarget,
};
use codecommit_creds::digest::to_hexdigest;
use codecommit_creds::hostmatch::match_host;
use codecommit_creds::signing::{canonical_request, signature, signing_key, string_to_sign};
use codecommit_creds::timestamp::{format_date, format_datetime, format_datetime_z, Timestamp};
use codecommit_creds::urlparse::request_region;

fn fixed_timestamp() -> Timestamp {
    Timestamp { year: 2023, month: 1, day: 1, hour: 0, minute: 0, second: 0 }
}

fn ref_hmac(key: &[u8], msg: &[u8]) -> Vec<u8> {
    let k = ring::hmac::Key::new(ring::hmac::HMAC_SHA256, key);
    ring::hmac::sign(&k, msg).as_ref().to_vec()
}

#[test]
fn host_match_extracts_region() {
    assert_eq!(
        match_host("git-codecommit.us-east-1.amazonaws.com"),
        Some("us-east-1".to_string())
    );
    assert_eq!(
        match_host("git-codecommit.eu-west-2.amazonaws.com"),
        Some("eu-west-2".to_string())
    );
    assert_eq!(match_host("git-codecommit.a.amazonaws.com"), Some("a".to_string()));
}

#[test]
fn host_match_rejects_other_hosts() {
    assert_eq!(match_host(""), None);
    assert_eq!(match_host("github.com"), None);
    assert_eq!(match_host("GIT-CODECOMMIT.US-EAST-1.AMAZONAWS.COM"), None);
    assert_eq!(match_host("git-codecommit..amazonaws.com"), None);
    assert_eq!(match_host("xgit-codecommit.us-east-1.amazonaws.com"), None);
    assert_eq!(match_host("git-codecommit.us-east-1.amazonaws.com.evil.com"), None);
    assert_eq!(match_host("git-codecommit.us.east.amazonaws.com"), None);
    assert_eq!(match_host("git-codecommit.us_east.amazonaws.com"), None);
}

#[test]
fn hexdigest_empty_input() {
    let d = to_hexdigest("");
    assert_eq!(d, "e3b0c44298fc1c149afbf4c8996fb92427ae41e4649b934ca495991b7852b855");
    assert_eq!(d.len(), 64);
}

#[test]
fn hexdigest_known_vector_and_deterministic() {
    let d = to_hexdigest("abc");
    assert_eq!(d, "ba7816bf8f01cfea414140de5dae2223b00361a396177a9cb410ff61f20015ad");
    assert_eq!(to_hexdigest("abc"), d);
    assert!(d.chars().all(|c| c.is_ascii_hexdigit() && !c.is_ascii_uppercase()));
}

#[test]
fn signature_known_hmac_vector() {
    // HMAC-SHA256 test vector: key "Jefe", message "what do ya want for nothing?".
    let sig = signature("what do ya want for nothing?", b"Jefe");
    assert_eq!(sig, "5bdcc146bf60754e6a042426089575c75a003f089d2739839dec58b964ec3843");
}

#[test]
fn signing_key_deterministic() {
    let a = signing_key("secret123", "20230101", "us-east-1", "codecommit");
    let b = signing_key("secret123", "20230101", "us-east-1", "codecommit");
    assert_eq!(a, b);
    assert_eq!(a.len(), 32);
}

#[test]
fn signing_key_depends_on_each_input() {
    let base = signing_key("secret123", "20230101", "us-east-1", "codecommit");
    assert_ne!(base, signing_key("secret124", "20230101", "us-east-1", "codecommit"));
    assert_ne!(base, signing_key("secret123", "20230102", "us-east-1", "codecommit"));
    assert_ne!(base, signing_key("secret123", "20230101", "us-west-2", "codecommit"));
    assert_ne!(base, signing_key("secret123", "20230101", "us-east-1", "s3"));
}

#[test]
fn username_without_token() {
    assert_eq!(derive_username("AKID", &None), "AKID");
}

#[test]
fn username_with_token() {
    assert_eq!(derive_username("AKID", &Some("TOK".to_string())), "AKID%TOK");
}

#[test]
fn canonical_request_exact() {
    let r = canonical_request("/v1/repos/demo", "git-codecommit.us-east-1.amazonaws.com");
    assert_eq!(r, "GIT\n/v1/repos/demo\n\nhost:git-codecommit.us-east-1.amazonaws.com\n\nhost\n");
}

#[test]
fn timestamp_formats() {
    let ts = Timestamp { year: 2023, month: 1, day: 1, hour: 0, minute: 0, second: 0 };
    assert_eq!(format_date(&ts), "20230101");
    assert_eq!(format_datetime(&ts), "20230101T000000");
    assert_eq!(format_datetime_z(&ts), "20230101T000000Z");
    let ts2 = Timestamp { year: 1999, month: 12, day: 31, hour: 23, minute: 59, second: 58 };
    assert_eq!(format_datetime_z(&ts2), "19991231T235958Z");
}

#[test]
fn string_to_sign_matches_reference() {
    let ts = fixed_timestamp();
    let r = string_to_sign(&ts, "us-east-1", "git-codecommit.us-east-1.amazonaws.com", "/v1/repos/demo");
    let canonical = "GIT\n/v1/repos/demo\n\nhost:git-codecommit.us-east-1.amazonaws.com\n\nhost\n";
    let canon_digest = hex::encode(ring::digest::digest(&ring::digest::SHA256, canonical.as_bytes()));
    let expected = format!(
        "AWS4-HMAC-SHA256\n20230101T000000\n20230101/us-east-1/codecommit/aws4_request\n{}",
        canon_digest
    );
    assert_eq!(r, expected);
}

#[test]
fn end_to_end_fixed_inputs() {
    let r = request_region("https://git-codecommit.us-east-1.amazonaws.com/v1/repos/demo");
    let target = r.expect("should parse").expect("should match");
    assert_eq!(target.host, "git-codecommit.us-east-1.amazonaws.com");
    assert_eq!(target.path, "/v1/repos/demo");
    assert_eq!(target.region, "us-east-1");

    let creds = Credentials {
        access_key_id: "AKIDEXAMPLE".to_string(),
        secret_access_key: "secret123".to_string(),
        session_token: None,
    };
    let ts = fixed_timestamp();
    let cred = synthesize_credential(&target, &creds, &ts).expect("should succeed");

    assert_eq!(cred.username, "AKIDEXAMPLE");
    assert_eq!(cred.password.len(), 80);
    assert!(cred.password.starts_with("20230101T000000Z"));
    let suffix = &cred.password[16..];
    assert_eq!(suffix.len(), 64);
    assert!(suffix.chars().all(|c| c.is_ascii_hexdigit() && !c.is_ascii_uppercase()));

    // Independent reference computation of the same chain.
    let canonical = "GIT\n/v1/repos/demo\n\nhost:git-codecommit.us-east-1.amazonaws.com\n\nhost\n";
    let canon_digest = hex::encode(ring::digest::digest(&ring::digest::SHA256, canonical.as_bytes()));
    let string_to_sign = format!(
        "AWS4-HMAC-SHA256\n20230101T000000\n20230101/us-east-1/codecommit/aws4_request\n{}",
        canon_digest
    );
    let k_date = ref_hmac(b"AWS4secret123", b"20230101");
    let k_region = ref_hmac(&k_date, b"us-east-1");
    let k_service = ref_hmac(&k_region, b"codecommit");
    let k_signing = ref_hmac(&k_service, b"aws4_request");
    let sig = hex::encode(ref_hmac(&k_signing, string_to_sign.as_bytes()));
    let expected_password = format!("20230101T000000Z{}", sig);
    assert_eq!(cred.password, expected_password);
}

#[test]
fn end_to_end_with_session_token() {
    let target = UrlTarget {
        host: "git-codecommit.us-east-1.amazonaws.com".to_string(),
        path: "/v1/repos/demo".to_string(),
        region: "us-east-1".to_string(),
    };
    let creds = Credentials {
        access_key_id: "AKID".to_string(),
        secret_access_key: "s".to_string(),
        session_token: Some("TOK".to_string()),
    };
    let cred = synthesize_credential(&target, &creds, &fixed_timestamp()).expect("should succeed");
    assert_eq!(cred.username, "AKID%TOK");
    assert_eq!(cred.password.len(), 80);
}

#[test]
fn non_matching_host_declines() {
    assert_eq!(request_region("https://github.com/owner/repo"), Ok(None));
    assert_eq!(request_region("https://example.org/"), Ok(None));
}

#[test]
fn url_without_host_declines() {
    assert_eq!(request_region("mailto:someone@example.com"), Ok(None));
}

#[test]
fn malformed_url_is_an_error() {
    assert_eq!(request_region(""), Err(CredError::UrlParse));
    assert_eq!(request_region("::not a url::"), Err(CredError::UrlParse));
}

#[test]
fn invalid_timestamp_is_an_error() {
    let target = UrlTarget {
        host: "git-codecommit.us-east-1.amazonaws.com".to_string(),
        path: "/".to_string(),
        region: "us-east-1".to_string(),
    };
    let creds = Credentials {
        access_key_id: "AKID".to_string(),
        secret_access_key: "s".to_string(),
        session_token: None,
    };
    let bad = Timestamp { year: 2023, month: 13, day: 1, hour: 0, minute: 0, second: 0 };
    assert_eq!(synthesize_credential(&target, &creds, &bad), Err(CredError::InvalidTimestamp));
}

#[test]
fn error_messages() {
    assert_eq!(CredError::UrlParse.message(), "malformed repository URL");
    assert_eq!(CredError::InvalidTimestamp.message(), "invalid timestamp");
}

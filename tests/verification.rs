use base64::Engine;
use ed25519_dalek::Signer;
use keygen_verify::client::{minutes_since, KeygenClient, KeygenResponseCache};
use keygen_verify::error::{CacheFault, Error, ParseFault, ResponseFault};
use keygen_verify::sig::{body_digest, build_signing_input, KeygenSig};
use keygen_verify::store::ResponseCacheStore;
use keygen_verify::text::eq_ignore_ascii_case;

const DATE: &str = "Mon, 01 Jan 2024 00:00:00 GMT";
const DATE_SECS: i64 = 1704067200;
const PATH: &str = "/v1/accounts/acme/licenses/validate";
const HOST: &str = "api.keygen.sh";
const BODY: &str = "{\"valid\":true}";

fn signing_key(seed: u8) -> ed25519_dalek::SigningKey {
    ed25519_dalek::SigningKey::from_bytes(&[seed; 32])
}

fn key_hex(seed: u8) -> String {
    hex::encode(signing_key(seed).verifying_key().to_bytes())
}

fn canonical(target: &str, host: &str, date: &str, body: &str) -> String {
    format!(
        "(request-target): {}\nhost: {}\ndate: {}\ndigest: {}",
        target,
        host,
        date,
        body_digest(body)
    )
}

fn sign(seed: u8, data: &str) -> String {
    let s = signing_key(seed).sign(data.as_bytes());
    base64::engine::general_purpose::STANDARD.encode(s.to_bytes())
}

fn headers(sig: &str, date: &str, digest: &str) -> Vec<(String, String)> {
    vec![
        (
            "Signature".to_string(),
            format!(
                "keyid=\"acme\", algorithm=\"ed25519\", signature=\"{}\", headers=\"(request-target) host date digest\"",
                sig
            ),
        ),
        ("Date".to_string(), date.to_string()),
        ("Digest".to_string(), digest.to_string()),
    ]
}

fn signed_headers(seed: u8, body: &str) -> Vec<(String, String)> {
    let data = canonical(&format!("get {}", PATH), HOST, DATE, body);
    headers(&sign(seed, &data), DATE, &body_digest(body))
}

fn client(seed: u8) -> KeygenClient {
    let mut c = KeygenClient::new(
        "acme".to_string(),
        key_hex(seed),
        "https://api.keygen.sh".to_string(),
        "v1".to_string(),
        240,
        "test-agent".to_string(),
    );
    c.max_clock_drift = 1_000_000;
    c
}

fn live_record() -> KeygenResponseCache {
    client(7)
        .verify_response("GET", PATH, HOST, &signed_headers(7, BODY), BODY, DATE_SECS + 60)
        .unwrap()
}

#[test]
fn end_to_end_matching_key_succeeds() {
    let r = live_record();
    assert_eq!(r.target, format!("get {}", PATH));
    assert_eq!(r.host, HOST);
    assert_eq!(r.date, DATE);
    assert_eq!(r.body, BODY);
    let data = canonical(&r.target, HOST, DATE, BODY);
    assert_eq!(r.sig, sign(7, &data));
}

#[test]
fn end_to_end_other_key_is_invalid_signature() {
    let r = client(9).verify_response("GET", PATH, HOST, &signed_headers(7, BODY), BODY, DATE_SECS + 60);
    assert_eq!(r.err(), Some(Error::BadResponse(ResponseFault::InvalidSignature)));
}

#[test]
fn cached_record_reverifies() {
    let r = live_record();
    let v = client(7).verify_response_cache(&r, DATE_SECS + 120).unwrap();
    assert_eq!(v["valid"], serde_json::Value::Bool(true));
}

#[test]
fn cached_record_tampered_fields_fail() {
    let c = client(7);
    let mut r = live_record();
    r.body = "{\"valid\":false}".to_string();
    assert_eq!(c.verify_response_cache(&r, DATE_SECS).err(), Some(Error::BadCache(CacheFault::InvalidSignature)));
    let mut r = live_record();
    r.host = "api.keygen.sj".to_string();
    assert_eq!(c.verify_response_cache(&r, DATE_SECS).err(), Some(Error::BadCache(CacheFault::InvalidSignature)));
    let mut r = live_record();
    r.target = "get /v1/accounts/acme/licenses/validatf".to_string();
    assert_eq!(c.verify_response_cache(&r, DATE_SECS).err(), Some(Error::BadCache(CacheFault::InvalidSignature)));
    let mut r = live_record();
    r.date = "Mon, 01 Jan 2024 00:00:01 GMT".to_string();
    assert_eq!(c.verify_response_cache(&r, DATE_SECS).err(), Some(Error::BadCache(CacheFault::InvalidSignature)));
}

#[test]
fn cached_record_tampered_sig_is_bad_cache() {
    let mut r = live_record();
    r.sig = sign(7, "something else");
    let e = client(7).verify_response_cache(&r, DATE_SECS).err();
    assert_eq!(e, Some(Error::BadCache(CacheFault::InvalidSignature)));
}

#[test]
fn cached_record_expired() {
    let r = live_record();
    let c = client(7);
    assert!(c.verify_response_cache(&r, DATE_SECS + 240 * 60).is_ok());
    let e = c.verify_response_cache(&r, DATE_SECS + 241 * 60).err();
    assert_eq!(e, Some(Error::BadCache(CacheFault::Expired)));
}

#[test]
fn cached_record_bad_date_and_body() {
    let c = client(7);
    let mut r = live_record();
    r.date = "yesterday".to_string();
    assert_eq!(c.verify_response_cache(&r, DATE_SECS).err(), Some(Error::BadCache(CacheFault::InvalidDate)));
    let body = "not json";
    let rec = c
        .verify_response("GET", PATH, HOST, &signed_headers(7, body), body, DATE_SECS)
        .unwrap();
    assert_eq!(c.verify_response_cache(&rec, DATE_SECS).err(), Some(Error::BadCache(CacheFault::BadBody)));
}

#[test]
fn digest_mismatch_on_changed_body() {
    let hs = signed_headers(7, BODY);
    let r = client(7).verify_response("GET", PATH, HOST, &hs, "{\"valid\":truE}", DATE_SECS);
    assert_eq!(r.err(), Some(Error::BadResponse(ResponseFault::DigestMismatch)));
    // the key does not matter
    let r = client(9).verify_response("GET", PATH, HOST, &hs, "{\"valid\":truE}", DATE_SECS);
    assert_eq!(r.err(), Some(Error::BadResponse(ResponseFault::DigestMismatch)));
}

#[test]
fn digest_header_forged() {
    let data = canonical(&format!("get {}", PATH), HOST, DATE, BODY);
    let hs = headers(&sign(7, &data), DATE, "sha-256=AAAA");
    let r = client(7).verify_response("GET", PATH, HOST, &hs, BODY, DATE_SECS);
    assert_eq!(r.err(), Some(Error::BadResponse(ResponseFault::DigestMismatch)));
}

#[test]
fn wrong_method_or_path_fails() {
    let hs = signed_headers(7, BODY);
    let r = client(7).verify_response("POST", PATH, HOST, &hs, BODY, DATE_SECS);
    assert_eq!(r.err(), Some(Error::BadResponse(ResponseFault::InvalidSignature)));
    let r = client(7).verify_response("GET", "/v1/other", HOST, &hs, BODY, DATE_SECS);
    assert_eq!(r.err(), Some(Error::BadResponse(ResponseFault::InvalidSignature)));
}

#[test]
fn key_of_wrong_length_is_parse_error() {
    let mut c = client(7);
    c.verify_key = "00".repeat(31);
    assert_eq!(c.verify_signature("data", &sign(7, "data")), Err(Error::ParseErr(ParseFault::VerifyKeyLength)));
    c.verify_key = "00".repeat(33);
    assert_eq!(c.verify_signature("data", &sign(7, "data")), Err(Error::ParseErr(ParseFault::VerifyKeyLength)));
    c.verify_key = "zz".repeat(32);
    assert_eq!(c.verify_signature("data", &sign(7, "data")), Err(Error::ParseErr(ParseFault::VerifyKeyHex)));
}

#[test]
fn signature_encoding_errors() {
    let c = client(7);
    assert_eq!(c.verify_signature("data", "%%%"), Err(Error::ParseErr(ParseFault::SignatureEncoding)));
    assert_eq!(c.verify_signature("data", "AAAA"), Err(Error::ParseErr(ParseFault::SignatureLength)));
    assert_eq!(c.verify_signature("data", &sign(7, "data")), Ok(()));
    assert_eq!(c.verify_signature("datb", &sign(7, "data")), Err(Error::BadResponse(ResponseFault::InvalidSignature)));
}

#[test]
fn freshness_boundary() {
    let mut c = client(7);
    c.max_clock_drift = 5;
    let hs = signed_headers(7, BODY);
    assert!(c.verify_response("GET", PATH, HOST, &hs, BODY, DATE_SECS + 5 * 60).is_ok());
    let r = c.verify_response("GET", PATH, HOST, &hs, BODY, DATE_SECS + 6 * 60);
    assert_eq!(r.err(), Some(Error::BadResponse(ResponseFault::Stale)));
    c.max_clock_drift = -1;
    assert!(c.verify_response("GET", PATH, HOST, &hs, BODY, DATE_SECS + 100_000_000).is_ok());
}

#[test]
fn header_errors() {
    let c = client(7);
    let mut hs = signed_headers(7, BODY);
    hs.remove(0);
    let r = c.verify_response("GET", PATH, HOST, &hs, BODY, DATE_SECS);
    assert_eq!(r.err(), Some(Error::ParseErr(ParseFault::MissingSignatureHeader)));

    let hs = vec![("Signature".to_string(), "keyid=\"acme\", signature=\"x\"".to_string())];
    let r = c.verify_response("GET", PATH, HOST, &hs, BODY, DATE_SECS);
    assert_eq!(r.err(), Some(Error::ParseErr(ParseFault::MalformedSignature)));

    let mut hs = signed_headers(7, BODY);
    hs[0].1 = hs[0].1.replace("date digest", "date digest x-extra");
    let r = c.verify_response("GET", PATH, HOST, &hs, BODY, DATE_SECS);
    assert_eq!(r.err(), Some(Error::ParseErr(ParseFault::MalformedSignature)));

    let mut hs = signed_headers(7, BODY);
    hs[0].1 = hs[0].1.replace("host date", "date host");
    let r = c.verify_response("GET", PATH, HOST, &hs, BODY, DATE_SECS);
    assert_eq!(r.err(), Some(Error::ParseErr(ParseFault::MalformedSignature)));

    let mut hs = signed_headers(7, BODY);
    hs.remove(2);
    let r = c.verify_response("GET", PATH, HOST, &hs, BODY, DATE_SECS);
    assert_eq!(r.err(), Some(Error::ParseErr(ParseFault::MissingSignedHeader)));

    let mut hs = signed_headers(7, BODY);
    hs.remove(1);
    let r = c.verify_response("GET", PATH, HOST, &hs, BODY, DATE_SECS);
    assert_eq!(r.err(), Some(Error::ParseErr(ParseFault::MissingSignedHeader)));

    let data = canonical(&format!("get {}", PATH), HOST, "not a date", BODY);
    let hs = headers(&sign(7, &data), "not a date", &body_digest(BODY));
    let r = c.verify_response("GET", PATH, HOST, &hs, BODY, DATE_SECS);
    assert_eq!(r.err(), Some(Error::BadResponse(ResponseFault::InvalidDate)));
}

#[test]
fn header_names_are_case_insensitive() {
    let mut hs = signed_headers(7, BODY);
    for h in hs.iter_mut() {
        h.0 = h.0.to_uppercase();
    }
    assert!(client(7).verify_response("GET", PATH, HOST, &hs, BODY, DATE_SECS).is_ok());
    assert!(eq_ignore_ascii_case("Digest", "dIGEST"));
    assert!(!eq_ignore_ascii_case("Digest", "Digesr"));
}

#[test]
fn signing_input_follows_header_order() {
    let hs = signed_headers(7, BODY);
    let names = vec!["date".to_string(), "(request-target)".to_string()];
    let target = format!("get {}", PATH);
    let d = build_signing_input(&names, &target, &HOST.to_string(), &hs, &body_digest(BODY)).unwrap();
    assert_eq!(d, format!("date: {}\n(request-target): get {}", DATE, PATH));
    let names = vec!["x-missing".to_string()];
    assert!(build_signing_input(&names, &target, &HOST.to_string(), &hs, &body_digest(BODY)).is_none());
    let s = KeygenSig::from_response("GET", PATH, HOST, &hs, BODY).unwrap();
    assert_eq!(s.key_id, "acme");
    assert_eq!(s.algorithm, "ed25519");
    assert_eq!(s.headers, vec!["(request-target)", "host", "date", "digest"]);
}

#[test]
fn cache_form_matches_live_form() {
    let hs = signed_headers(7, BODY);
    let live = KeygenSig::from_response("GET", PATH, HOST, &hs, BODY).unwrap();
    let rec = live_record();
    let cached = KeygenSig::from_response_cache(&rec);
    assert_eq!(live.data, cached.data);
    assert_eq!(live.digest, cached.digest);
}

#[test]
fn digest_of_empty_body() {
    assert_eq!(body_digest(""), "sha-256=47DEQpj8HBSa+/TImW+5JCeuQeRkm5NMpJWZG3hSuFU=");
    assert_ne!(body_digest("a"), body_digest("b"));
}

#[test]
fn minutes_truncate_toward_zero() {
    assert_eq!(minutes_since(0, 119), 1);
    assert_eq!(minutes_since(120, 0), -2);
    assert_eq!(minutes_since(0, -59), 0);
    assert_eq!(minutes_since(0, 60), 1);
}

#[test]
fn date_with_wrong_weekday_is_refused() {
    let date = "Tue, 01 Jan 2024 00:00:00 GMT";
    let data = canonical(&format!("get {}", PATH), HOST, date, BODY);
    let hs = headers(&sign(7, &data), date, &body_digest(BODY));
    let r = client(7).verify_response("GET", PATH, HOST, &hs, BODY, DATE_SECS);
    assert_eq!(r.err(), Some(Error::BadResponse(ResponseFault::InvalidDate)));
}

#[test]
fn store_load_tampered_sig_removes_record() {
    let c = client(7);
    let mut store = ResponseCacheStore::new();
    let mut r = live_record();
    r.sig = sign(7, "something else");
    store.write("KEY-1".to_string(), r);
    store.write("KEY-2".to_string(), live_record());
    let e = store.load(&c, "KEY-1", DATE_SECS).err();
    assert_eq!(e, Some(Error::BadCache(CacheFault::InvalidSignature)));
    assert!(store.get("KEY-1").is_none());
    assert_eq!(store.load(&c, "KEY-1", DATE_SECS).err(), Some(Error::BadCache(CacheFault::Missing)));
    assert!(store.load(&c, "KEY-2", DATE_SECS).is_ok());
    assert!(store.get("KEY-2").is_some());
}

#[test]
fn store_load_expired_removes_record() {
    let c = client(7);
    let mut store = ResponseCacheStore::new();
    store.write("KEY-1".to_string(), live_record());
    let e = store.load(&c, "KEY-1", DATE_SECS + 241 * 60).err();
    assert_eq!(e, Some(Error::BadCache(CacheFault::Expired)));
    assert!(store.get("KEY-1").is_none());
}

#[test]
fn store_delete_twice() {
    let mut store = ResponseCacheStore::new();
    store.write("KEY-1".to_string(), live_record());
    store.delete("KEY-1");
    store.delete("KEY-1");
    assert!(store.get("KEY-1").is_none());
}

#[test]
fn store_write_replaces() {
    let mut store = ResponseCacheStore::new();
    store.write("KEY-1".to_string(), live_record());
    let mut r = live_record();
    r.body = "{}".to_string();
    store.write("KEY-1".to_string(), r);
    assert_eq!(store.get("KEY-1").unwrap().body, "{}");
    store.delete("KEY-1");
    assert!(store.get("KEY-1").is_none());
}

#[test]
fn upper_case_hex_key_is_accepted() {
    let mut c = client(7);
    c.verify_key = c.verify_key.to_uppercase();
    assert_eq!(c.verify_signature("data", &sign(7, "data")), Ok(()));
    c.verify_key.push('0');
    assert_eq!(c.verify_signature("data", &sign(7, "data")), Err(Error::ParseErr(ParseFault::VerifyKeyHex)));
}

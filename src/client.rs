use crate::crypto::{
    base64_decode, base64_decoded, ed25519_accepts, ed25519_key_ok, ed25519_verify, hex_decode,
    hex_decoded, json_parses, parse_json, parse_rfc2822, rfc2822_seconds,
};
use crate::error::{CacheFault, Error, ParseFault, ResponseFault};
use crate::scan::header_lookup;
use crate::sig::{cached_input, digest_of, live_sig, target_of, KeygenSig, SigParams};
use crate::text::joined;
use crate::web::{append_query_pair, join_url, joined_url, url_parses, url_with_pair};
use vstd::prelude::*;

verus! {

/// A response that passed live verification, in the form that is cached.
pub struct KeygenResponseCache {
    pub sig: String,
    pub target: String,
    pub host: String,
    pub date: String,
    pub body: String,
}

/// The texts of a cached record.
pub struct RecordView {
    pub sig: Seq<char>,
    pub target: Seq<char>,
    pub host: Seq<char>,
    pub date: Seq<char>,
    pub body: Seq<char>,
}

impl View for KeygenResponseCache {
    type V = RecordView;

    open spec fn view(&self) -> RecordView {
        RecordView {
            sig: self.sig@,
            target: self.target@,
            host: self.host@,
            date: self.date@,
            body: self.body@,
        }
    }
}

/// The verification settings of a client.
pub struct KeygenClient {
    /// The account that URLs are scoped to; `None` for a custom domain.
    pub account_id: Option<String>,
    /// The verifying key, as hexadecimal text.
    pub verify_key: String,
    pub api_url: String,
    pub api_version: String,
    /// The `Keygen-Version` header to send, if any.
    pub version_header: Option<String>,
    /// Largest age of a live response, in minutes; a negative value disables the check.
    pub max_clock_drift: i64,
    /// Largest age of a cached response, in minutes.
    pub cache_lifetime: i64,
    pub user_agent: String,
}

/// Whole minutes from `date` to `now`, truncated toward zero.
pub open spec fn elapsed_minutes(date: i64, now: i64) -> int {
    let d = now - date;
    if d >= 0 {
        d / 60
    } else {
        -((-d) / 60)
    }
}

/// Whether a live response dated `date` is recent enough at `now`.
pub open spec fn live_fresh(date: i64, now: i64, max_drift: i64) -> bool {
    max_drift < 0 || elapsed_minutes(date, now) <= max_drift
}

/// Whether a cached response dated `date` is still usable at `now`.
pub open spec fn cache_fresh(date: i64, now: i64, lifetime: i64) -> bool {
    elapsed_minutes(date, now) <= lifetime
}

/// The outcome of checking a base64 signature over `data` with a hexadecimal key.
pub open spec fn signature_outcome(key: Seq<char>, data: Seq<char>, sig: Seq<char>) -> Result<
    (),
    Error,
> {
    match hex_decoded(key) {
        None => Err(Error::ParseErr(ParseFault::VerifyKeyHex)),
        Some(k) => if k.len() != 32 {
            Err(Error::ParseErr(ParseFault::VerifyKeyLength))
        } else if !ed25519_key_ok(k) {
            Err(Error::ParseErr(ParseFault::VerifyKey))
        } else {
            match base64_decoded(sig) {
                None => Err(Error::ParseErr(ParseFault::SignatureEncoding)),
                Some(s) => if s.len() != 64 {
                    Err(Error::ParseErr(ParseFault::SignatureLength))
                } else if ed25519_accepts(k, data, s) {
                    Ok(())
                } else {
                    Err(Error::BadResponse(ResponseFault::InvalidSignature))
                },
            }
        },
    }
}

/// The outcome of verifying a live response: on success, its signature parameters and date.
/// The checks run in this order: signature header and signed headers, digest, date,
/// freshness, signature.
pub open spec fn live_check(
    key: Seq<char>,
    max_drift: i64,
    method: Seq<char>,
    path: Seq<char>,
    host: Seq<char>,
    hs: Seq<(String, String)>,
    body: Seq<char>,
    now: i64,
) -> Result<(SigParams, Seq<char>), Error> {
    match live_sig(hs) {
        Err(e) => Err(e),
        Ok((p, d, g)) => if g != digest_of(body) {
            Err(Error::BadResponse(ResponseFault::DigestMismatch))
        } else {
            match rfc2822_seconds(d) {
                None => Err(Error::BadResponse(ResponseFault::InvalidDate)),
                Some(t) => if !live_fresh(t, now, max_drift) {
                    Err(Error::BadResponse(ResponseFault::Stale))
                } else {
                    match signature_outcome(
                        key,
                        cached_input(target_of(method, path), host, d, digest_of(body)),
                        p.signature,
                    ) {
                        Err(e) => Err(e),
                        Ok(_) => Ok((p, d)),
                    }
                },
            }
        },
    }
}

/// Whether `r` is what verifying a live response at `now` gives.
pub open spec fn live_result(
    r: Result<KeygenResponseCache, Error>,
    key: Seq<char>,
    max_drift: i64,
    method: Seq<char>,
    path: Seq<char>,
    host: Seq<char>,
    hs: Seq<(String, String)>,
    body: Seq<char>,
    now: i64,
) -> bool {
    match live_check(key, max_drift, method, path, host, hs, body, now) {
        Err(e) => r == Err::<KeygenResponseCache, Error>(e),
        Ok((p, d)) => r matches Ok(c) && c.sig@ == p.signature && c.target@ == target_of(
            method,
            path,
        ) && c.host@ == host && c.date@ == d && c.body@ == body,
    }
}

/// The outcome of re-verifying a cached record at `now`.
/// The checks run in this order: date, lifetime, signature, body.
pub open spec fn cache_check(
    key: Seq<char>,
    lifetime: i64,
    sig: Seq<char>,
    target: Seq<char>,
    host: Seq<char>,
    date: Seq<char>,
    body: Seq<char>,
    now: i64,
) -> Result<(), Error> {
    match rfc2822_seconds(date) {
        None => Err(Error::BadCache(CacheFault::InvalidDate)),
        Some(t) => if !cache_fresh(t, now, lifetime) {
            Err(Error::BadCache(CacheFault::Expired))
        } else if signature_outcome(
            key,
            cached_input(target, host, date, digest_of(body)),
            sig,
        ) is Err {
            Err(Error::BadCache(CacheFault::InvalidSignature))
        } else if !json_parses(body) {
            Err(Error::BadCache(CacheFault::BadBody))
        } else {
            Ok(())
        },
    }
}

/// Whether `r` is what re-verifying the cached record `c` at `now` gives.
pub open spec fn cache_result(
    r: Result<serde_json::Value, Error>,
    key: Seq<char>,
    lifetime: i64,
    c: RecordView,
    now: i64,
) -> bool {
    match cache_check(key, lifetime, c.sig, c.target, c.host, c.date, c.body, now) {
        Err(e) => r matches Err(e2) && e2 == e,
        Ok(_) => r is Ok,
    }
}

/// A record produced by live verification re-verifies: the signing input rebuilt from the
/// record carries the same signature under the same key.
pub proof fn lemma_record_reverifies(
    key: Seq<char>,
    max_drift: i64,
    method: Seq<char>,
    path: Seq<char>,
    host: Seq<char>,
    hs: Seq<(String, String)>,
    body: Seq<char>,
    now: i64,
    rec: KeygenResponseCache,
)
    requires
        live_result(Ok(rec), key, max_drift, method, path, host, hs, body, now),
    ensures
        signature_outcome(
            key,
            cached_input(rec.target@, rec.host@, rec.date@, digest_of(rec.body@)),
            rec.sig@,
        ) == Ok::<(), Error>(()),
{
}

/// Once the signature header parses and every signed header is present, a `Digest` header
/// that differs from the body's digest is a digest mismatch, whatever the key and the time.
pub proof fn lemma_digest_mismatch(
    key: Seq<char>,
    max_drift: i64,
    method: Seq<char>,
    path: Seq<char>,
    host: Seq<char>,
    hs: Seq<(String, String)>,
    body: Seq<char>,
    now: i64,
)
    requires
        live_sig(hs) matches Ok((_p, _d, g)) && g != digest_of(body),
    ensures
        live_check(key, max_drift, method, path, host, hs, body, now) == Err::<
            (SigParams, Seq<char>),
            Error,
        >(Error::BadResponse(ResponseFault::DigestMismatch)),
{
}

/// A hexadecimal key that decodes to any length but 32 bytes is a parse error, and no
/// signature is checked with it.
pub proof fn lemma_key_length(key: Seq<char>, data: Seq<char>, sig: Seq<char>)
    requires
        hex_decoded(key) matches Some(k) && k.len() != 32,
    ensures
        signature_outcome(key, data, sig) == Err::<(), Error>(
            Error::ParseErr(ParseFault::VerifyKeyLength),
        ),
{
}

/// A response dated exactly `max_drift` minutes ago is fresh, one a minute older is not,
/// and a negative allowance accepts any date.
pub proof fn lemma_freshness_boundary(now: i64, max_drift: i64, date: i64)
    requires
        i64::MIN <= now - 60 * max_drift - 60,
        now - 60 * max_drift <= i64::MAX,
    ensures
        max_drift >= 0 ==> live_fresh((now - 60 * max_drift) as i64, now, max_drift),
        max_drift >= 0 ==> !live_fresh((now - 60 * max_drift - 60) as i64, now, max_drift),
        max_drift < 0 ==> live_fresh(date, now, max_drift),
{
    if max_drift >= 0 {
        assert((60 * max_drift) / 60 == max_drift) by (nonlinear_arith);
        assert((60 * max_drift + 60) / 60 == max_drift + 1) by (nonlinear_arith);
    }
}

/// A cached record whose signature does not verify is refused as a bad cache entry, and
/// every refusal of a cached record is a bad cache entry, so that it is removed.
pub proof fn lemma_cache_fail_closed(
    key: Seq<char>,
    lifetime: i64,
    sig: Seq<char>,
    target: Seq<char>,
    host: Seq<char>,
    date: Seq<char>,
    body: Seq<char>,
    now: i64,
)
    ensures
        signature_outcome(key, cached_input(target, host, date, digest_of(body)), sig) is Err
            ==> cache_check(key, lifetime, sig, target, host, date, body, now) is Err,
        cache_check(key, lifetime, sig, target, host, date, body, now) matches Err(e) ==> e
            is BadCache,
{
}

/// The path of an API URL below the base URL: the version, then the account scope, if
/// any, then the resource path.
pub open spec fn scoped_path(version: Seq<char>, account: Option<Seq<char>>, path: Seq<char>) -> Seq<
    char,
> {
    match account {
        Some(a) => version + "/accounts/"@ + a + "/"@ + path,
        None => version + "/"@ + path,
    }
}

/// The URL after the query pairs are appended to `url` in order, if each step succeeds.
pub open spec fn with_pairs(url: Seq<char>, pairs: Seq<(String, String)>) -> Option<Seq<char>>
    decreases pairs.len(),
{
    if pairs.len() == 0 {
        Some(url)
    } else {
        match with_pairs(url, pairs.drop_last()) {
            Some(u) => url_with_pair(u, pairs.last().0@, pairs.last().1@),
            None => None,
        }
    }
}

/// The query pairs given, none when absent.
pub open spec fn params_view(params: Option<Vec<(String, String)>>) -> Seq<(String, String)> {
    match params {
        Some(p) => p@,
        None => Seq::empty(),
    }
}

/// The account of a client, as a view.
pub open spec fn account_view(a: Option<String>) -> Option<Seq<char>> {
    match a {
        Some(s) => Some(s@),
        None => None,
    }
}

/// Whole minutes from `date` to `now`, truncated toward zero.
pub fn minutes_since(date: i64, now: i64) -> (r: i128)
    ensures
        r == elapsed_minutes(date, now),
{
    let d: i128 = now as i128 - date as i128;
    if d >= 0 {
        d / 60
    } else {
        -((-d) / 60)
    }
}

impl KeygenClient {
    /// A client scoped to an account, with a clock drift allowance of five minutes.
    pub fn new(
        account_id: String,
        verify_key: String,
        api_url: String,
        api_version: String,
        cache_lifetime: i64,
        user_agent: String,
    ) -> (r: KeygenClient)
        ensures
            r.account_id matches Some(a) && a@ == account_id@,
            r.verify_key@ == verify_key@,
            r.api_url@ == api_url@,
            r.api_version@ == api_version@,
            r.version_header is None,
            r.max_clock_drift == 5,
            r.cache_lifetime == cache_lifetime,
            r.user_agent@ == user_agent@,
    {
        KeygenClient {
            account_id: Some(account_id),
            verify_key,
            api_url,
            api_version,
            version_header: None,
            max_clock_drift: 5,
            cache_lifetime,
            user_agent,
        }
    }

    /// Builds the URL of an API resource, scoped to the client's account if it has one,
    /// with the query pairs appended in order.
    pub fn build_url(&self, path: &str, params: Option<Vec<(String, String)>>) -> (r: Result<
        String,
        Error,
    >)
        ensures
            !url_parses(self.api_url@) ==> r == Err::<String, Error>(
                Error::ParseErr(ParseFault::BaseUrl),
            ),
            url_parses(self.api_url@) && joined_url(
                self.api_url@,
                scoped_path(self.api_version@, account_view(self.account_id), path@),
            ) is None ==> r == Err::<String, Error>(Error::ParseErr(ParseFault::JoinUrl)),
            url_parses(self.api_url@) ==> match joined_url(
                self.api_url@,
                scoped_path(self.api_version@, account_view(self.account_id), path@),
            ) {
                Some(j) => r matches Ok(u) && with_pairs(j, params_view(params)) == Some(u@),
                None => true,
            },
    {
        let v = joined(self.api_version.as_str(), "/");
        let full = match &self.account_id {
            Some(a) => {
                let acc = joined(joined(v.as_str(), "accounts/").as_str(), a.as_str());
                joined(joined(acc.as_str(), "/").as_str(), path)
            },
            None => joined(v.as_str(), path),
        };
        proof {
            reveal_strlit("/accounts/");
            reveal_strlit("accounts/");
            reveal_strlit("/");
            assert(full@ =~= scoped_path(self.api_version@, account_view(self.account_id), path@));
        }
        let mut url = match join_url(self.api_url.as_str(), full.as_str()) {
            None => {
                return Err(Error::ParseErr(ParseFault::BaseUrl));
            },
            Some(None) => {
                return Err(Error::ParseErr(ParseFault::JoinUrl));
            },
            Some(Some(u)) => u,
        };
        let ghost pv = params_view(params);
        let pairs: Vec<(String, String)> = match params {
            Some(p) => p,
            None => Vec::new(),
        };
        let mut i: usize = 0;
        while i < pairs.len()
            invariant
                i <= pairs@.len(),
                pairs@ == pv,
                pv == params_view(params),
                url_parses(self.api_url@),
                full@ == scoped_path(self.api_version@, account_view(self.account_id), path@),
                url_parses(url@),
                joined_url(self.api_url@, full@) matches Some(j) && with_pairs(
                    j,
                    pairs@.take(i as int),
                ) == Some(url@),
            decreases pairs@.len() - i,
        {
            assert(pairs@.take(i + 1).drop_last() =~= pairs@.take(i as int));
            assert(pairs@.take(i + 1).last() == pairs@[i as int]);
            match append_query_pair(url.as_str(), pairs[i].0.as_str(), pairs[i].1.as_str()) {
                Some(u) => {
                    url = u;
                },
                None => {
                    // a URL that parses always takes a query pair
                    proof {
                        assert(false);
                    }
                    return Err(Error::ParseErr(ParseFault::JoinUrl));
                },
            }
            i = i + 1;
        }
        assert(pairs@.take(i as int) =~= pairs@);
        Ok(url)
    }

    /// Checks a base64 Ed25519 signature over `data` against the client's verifying key.
    /// A key or signature of the wrong form or length is a parse error; only a well-formed
    /// signature that does not verify is `InvalidSignature`.
    pub fn verify_signature(&self, data: &str, signature: &str) -> (r: Result<(), Error>)
        ensures
            r == signature_outcome(self.verify_key@, data@, signature@),
    {
        let key = match hex_decode(self.verify_key.as_str()) {
            Some(k) => k,
            None => {
                return Err(Error::ParseErr(ParseFault::VerifyKeyHex));
            },
        };
        if key.len() != 32 {
            return Err(Error::ParseErr(ParseFault::VerifyKeyLength));
        }
        if !crate::crypto::verifying_key_ok(&key) {
            return Err(Error::ParseErr(ParseFault::VerifyKey));
        }
        let sig = match base64_decode(signature) {
            Some(s) => s,
            None => {
                return Err(Error::ParseErr(ParseFault::SignatureEncoding));
            },
        };
        if sig.len() != 64 {
            return Err(Error::ParseErr(ParseFault::SignatureLength));
        }
        if ed25519_verify(&key, data, &sig) {
            Ok(())
        } else {
            Err(Error::BadResponse(ResponseFault::InvalidSignature))
        }
    }

    /// Verifies a live response as of `now` (Unix seconds) and returns the record to cache.
    pub fn verify_response(
        &self,
        req_method: &str,
        req_path: &str,
        req_host: &str,
        res_headers: &Vec<(String, String)>,
        res_text: &str,
        now: i64,
    ) -> (r: Result<KeygenResponseCache, Error>)
        ensures
            live_result(
                r,
                self.verify_key@,
                self.max_clock_drift,
                req_method@,
                req_path@,
                req_host@,
                res_headers@,
                res_text@,
                now,
            ),
    {
        let sig = match KeygenSig::from_response(
            req_method,
            req_path,
            req_host,
            res_headers,
            res_text,
        ) {
            Ok(s) => s,
            Err(e) => {
                return Err(e);
            },
        };
        let res_digest = match header_lookup(res_headers, "digest") {
            Some(d) => d,
            None => {
                return Err(Error::ParseErr(ParseFault::MissingSignedHeader));
            },
        };
        if !(sig.digest == res_digest) {
            return Err(Error::BadResponse(ResponseFault::DigestMismatch));
        }
        let date = match parse_rfc2822(sig.date.as_str()) {
            Some(t) => t,
            None => {
                return Err(Error::BadResponse(ResponseFault::InvalidDate));
            },
        };
        let minutes = minutes_since(date, now);
        if self.max_clock_drift >= 0 && minutes > self.max_clock_drift as i128 {
            return Err(Error::BadResponse(ResponseFault::Stale));
        }
        match self.verify_signature(sig.data.as_str(), sig.signature.as_str()) {
            Ok(()) => Ok(
                KeygenResponseCache {
                    sig: sig.signature,
                    target: sig.target,
                    host: sig.host,
                    date: sig.date,
                    body: res_text.to_owned(),
                },
            ),
            Err(e) => Err(e),
        }
    }

    /// Re-verifies a cached record as of `now` (Unix seconds) and decodes its body.
    /// Every failure is `BadCache`: the caller then removes the record.
    pub fn verify_response_cache(&self, res_cache: &KeygenResponseCache, now: i64) -> (r: Result<
        serde_json::Value,
        Error,
    >)
        ensures
            cache_result(r, self.verify_key@, self.cache_lifetime, res_cache@, now),
    {
        let sig = KeygenSig::from_response_cache(res_cache);
        let date = match parse_rfc2822(sig.date.as_str()) {
            Some(t) => t,
            None => {
                return Err(Error::BadCache(CacheFault::InvalidDate));
            },
        };
        let minutes = minutes_since(date, now);
        if minutes > self.cache_lifetime as i128 {
            return Err(Error::BadCache(CacheFault::Expired));
        }
        if self.verify_signature(sig.data.as_str(), sig.signature.as_str()).is_err() {
            return Err(Error::BadCache(CacheFault::InvalidSignature));
        }
        match parse_json(res_cache.body.as_str()) {
            Some(v) => Ok(v),
            None => Err(Error::BadCache(CacheFault::BadBody)),
        }
    }
}

} // verus!

use crate::crypto::{base64_encode, base64_of, sha256, sha256_of};
use crate::error::{Error, ParseFault};
use crate::scan::{
    char_from, char_index, header_lookup, header_value, lemma_char_from, slice_chars,
    split_words, views, words,
};
use crate::client::KeygenResponseCache;
use crate::text::{chars_of, joined, lower_ascii, lower_seq, text_of};
use vstd::prelude::*;

verus! {

/// Whether `name="` starts at index `i` of a `Signature` header, at the start of an item.
pub open spec fn param_starts(h: Seq<char>, name: Seq<char>, i: int) -> bool {
    &&& 0 <= i
    &&& i + name.len() + 2 <= h.len()
    &&& h.subrange(i, i + name.len()) == name
    &&& h[i + name.len()] == '='
    &&& h[i + name.len() + 1] == '"'
    &&& (i == 0 || h[i - 1] == ' ' || h[i - 1] == ',')
}

/// The quoted value of the first item `name="..."` at or after index `i`.
pub open spec fn param_from(h: Seq<char>, name: Seq<char>, i: int) -> Option<Seq<char>>
    decreases h.len() - i,
{
    if i < 0 || i >= h.len() {
        None
    } else if param_starts(h, name, i) {
        let j = i + name.len() + 2;
        match char_from(h, '"', j) {
            Some(k) => Some(h.subrange(j, k)),
            None => None,
        }
    } else {
        param_from(h, name, i + 1)
    }
}

/// The quoted value of the parameter `name` of a `Signature` header.
pub open spec fn param(h: Seq<char>, name: Seq<char>) -> Option<Seq<char>> {
    param_from(h, name, 0)
}

/// The parameters of a `Signature` header.
pub struct SigParams {
    pub key_id: Seq<char>,
    pub algorithm: Seq<char>,
    pub signature: Seq<char>,
    pub headers: Seq<char>,
}

/// The parameters of a `Signature` header, when all four are present.
pub open spec fn sig_params(h: Seq<char>) -> Option<SigParams> {
    match (
        param(h, "keyid"@),
        param(h, "algorithm"@),
        param(h, "signature"@),
        param(h, "headers"@),
    ) {
        (Some(a), Some(b), Some(c), Some(d)) => Some(
            SigParams { key_id: a, algorithm: b, signature: c, headers: d },
        ),
        _ => None,
    }
}

/// The `Digest` header value of a body: `sha-256=` and the base64 of its SHA-256.
pub open spec fn digest_of(body: Seq<char>) -> Seq<char> {
    "sha-256="@ + base64_of(sha256_of(body))
}

/// The request target of a signed exchange: the lower-cased method, a space, the path.
pub open spec fn target_of(method: Seq<char>, path: Seq<char>) -> Seq<char> {
    crate::text::lower_seq(method) + " "@ + path
}

/// One line of the signing input.
pub open spec fn line(name: Seq<char>, value: Seq<char>) -> Seq<char> {
    name + ": "@ + value
}

/// The value that a signed header name stands for.
pub open spec fn signed_value(
    name: Seq<char>,
    target: Seq<char>,
    host: Seq<char>,
    hs: Seq<(String, String)>,
    digest: Seq<char>,
) -> Option<Seq<char>> {
    if name == "(request-target)"@ {
        Some(target)
    } else if name == "host"@ {
        Some(host)
    } else if name == "digest"@ {
        Some(digest)
    } else {
        header_value(hs, name)
    }
}

/// The signing input: one line per signed header name, in order, joined by newlines;
/// `None` when a name has no value.
pub open spec fn signing_input(
    names: Seq<Seq<char>>,
    target: Seq<char>,
    host: Seq<char>,
    hs: Seq<(String, String)>,
    digest: Seq<char>,
) -> Option<Seq<char>>
    decreases names.len(),
{
    if names.len() == 0 {
        Some(seq![])
    } else {
        match (
            signing_input(names.drop_last(), target, host, hs, digest),
            signed_value(names.last(), target, host, hs, digest),
        ) {
            (Some(prev), Some(v)) => Some(
                if names.len() == 1 {
                    line(names.last(), v)
                } else {
                    prev + "\n"@ + line(names.last(), v)
                },
            ),
            _ => None,
        }
    }
}

/// The header names that a cached record is signed over, in order.
pub open spec fn cached_names() -> Seq<Seq<char>> {
    seq!["(request-target)"@, "host"@, "date"@, "digest"@]
}

/// The signing input of a cached record: the four cached names with their values.
pub open spec fn cached_input(
    target: Seq<char>,
    host: Seq<char>,
    date: Seq<char>,
    digest: Seq<char>,
) -> Seq<char> {
    line("(request-target)"@, target) + "\n"@ + line("host"@, host) + "\n"@ + line("date"@, date)
        + "\n"@ + line("digest"@, digest)
}

/// The parameters of the `Signature` header among the response headers, or why there are none.
pub open spec fn sig_header_params(hs: Seq<(String, String)>) -> Result<SigParams, Error> {
    match header_value(hs, "signature"@) {
        None => Err(Error::ParseErr(ParseFault::MissingSignatureHeader)),
        Some(h) => match sig_params(h) {
            None => Err(Error::ParseErr(ParseFault::MalformedSignature)),
            Some(p) => Ok(p),
        },
    }
}

/// The parameters, `Date` value and received `Digest` value of a live response, or why the
/// response cannot be checked: its `Signature` header is missing or malformed, it signs
/// other headers than the cached names in their order, or a signed header is absent.
pub open spec fn live_sig(hs: Seq<(String, String)>) -> Result<
    (SigParams, Seq<char>, Seq<char>),
    Error,
> {
    match sig_header_params(hs) {
        Err(e) => Err(e),
        Ok(p) => if words(p.headers) != cached_names() {
            Err(Error::ParseErr(ParseFault::MalformedSignature))
        } else {
            match (header_value(hs, "date"@), header_value(hs, "digest"@)) {
                (Some(d), Some(g)) => Ok((p, d, g)),
                _ => Err(Error::ParseErr(ParseFault::MissingSignedHeader)),
            }
        },
    }
}

/// Once a prefix of the names has no signing input, neither has the whole list.
pub proof fn lemma_signing_input_prefix(
    names: Seq<Seq<char>>,
    k: int,
    target: Seq<char>,
    host: Seq<char>,
    hs: Seq<(String, String)>,
    digest: Seq<char>,
)
    requires
        0 <= k <= names.len(),
        signing_input(names.take(k), target, host, hs, digest) is None,
    ensures
        signing_input(names, target, host, hs, digest) is None,
    decreases names.len(),
{
    if k < names.len() {
        assert(names.drop_last().take(k) =~= names.take(k));
        lemma_signing_input_prefix(names.drop_last(), k, target, host, hs, digest);
    } else {
        assert(names.take(k) =~= names);
    }
}

/// A response signed over the cached names is signed over exactly the input that its
/// cached record rebuilds: the live and the cached signing inputs agree byte for byte.
pub proof fn lemma_cached_input_round_trip(
    target: Seq<char>,
    host: Seq<char>,
    hs: Seq<(String, String)>,
    digest: Seq<char>,
    date: Seq<char>,
)
    requires
        header_value(hs, "date"@) == Some(date),
    ensures
        signing_input(cached_names(), target, host, hs, digest) == Some(
            cached_input(target, host, date, digest),
        ),
{
    reveal_strlit("(request-target)");
    reveal_strlit("host");
    reveal_strlit("date");
    reveal_strlit("digest");
    let n = cached_names();
    assert(n.drop_last() =~= seq!["(request-target)"@, "host"@, "date"@]);
    assert(n.drop_last().drop_last() =~= seq!["(request-target)"@, "host"@]);
    assert(n.drop_last().drop_last().drop_last() =~= seq!["(request-target)"@]);
    assert(n.drop_last().drop_last().drop_last().drop_last() =~= seq![]);
    assert("date"@ != "(request-target)"@);
    assert("date"@[0] != "host"@[0]);
    assert("date"@ != "host"@);
    assert("date"@ != "digest"@);
    assert("host"@ != "(request-target)"@);
    assert("digest"@ != "(request-target)"@);
    assert("digest"@ != "host"@);
    let l1 = line("(request-target)"@, target);
    let l2 = line("host"@, host);
    let l3 = line("date"@, date);
    let l4 = line("digest"@, digest);
    assert(signing_input(n.drop_last().drop_last().drop_last().drop_last(), target, host, hs, digest)
        == Some(Seq::<char>::empty()));
    assert(signing_input(n.drop_last().drop_last().drop_last(), target, host, hs, digest) == Some(
        l1,
    ));
    assert(signing_input(n.drop_last().drop_last(), target, host, hs, digest) == Some(
        l1 + "\n"@ + l2,
    ));
    assert(signing_input(n.drop_last(), target, host, hs, digest) == Some(
        l1 + "\n"@ + l2 + "\n"@ + l3,
    ));
}

/// A signature header, parsed and tied to the signing input it covers.
pub struct KeygenSig {
    pub key_id: String,
    pub algorithm: String,
    pub signature: String,
    pub headers: Vec<String>,
    pub target: String,
    pub host: String,
    pub date: String,
    pub digest: String,
    pub data: String,
}

impl KeygenSig {
    /// Parses the `Signature` header of a response and builds the signing input it covers,
    /// with the digest recomputed from the body.
    pub fn from_response(
        method: &str,
        path: &str,
        host: &str,
        hs: &Vec<(String, String)>,
        body: &str,
    ) -> (r: Result<KeygenSig, Error>)
        ensures
            match live_sig(hs@) {
                Err(e) => r == Err::<KeygenSig, Error>(e),
                Ok((p, d, _g)) => r matches Ok(s) && s.key_id@ == p.key_id && s.algorithm@
                    == p.algorithm && s.signature@ == p.signature && views(s.headers@)
                    == cached_names() && s.target@ == target_of(method@, path@) && s.host@
                    == host@ && s.date@ == d && s.digest@ == digest_of(body@) && s.data@
                    == cached_input(target_of(method@, path@), host@, d, digest_of(body@)),
            },
    {
        let sh = match header_lookup(hs, "signature") {
            Some(v) => v,
            None => {
                return Err(Error::ParseErr(ParseFault::MissingSignatureHeader));
            },
        };
        let hc = chars_of(sh.as_str());
        let key_id = param_value(&hc, "keyid");
        let algorithm = param_value(&hc, "algorithm");
        let signature = param_value(&hc, "signature");
        let list = param_value(&hc, "headers");
        let (key_id, algorithm, signature, list) = match (key_id, algorithm, signature, list) {
            (Some(a), Some(b), Some(c), Some(d)) => (a, b, c, d),
            _ => {
                return Err(Error::ParseErr(ParseFault::MalformedSignature));
            },
        };
        let headers = split_words(&chars_of(list.as_str()));
        if !is_cached_names(&headers) {
            return Err(Error::ParseErr(ParseFault::MalformedSignature));
        }
        let lm = lower_ascii(method);
        let ms = joined(lm.as_str(), " ");
        let target = joined(ms.as_str(), path);
        let digest = body_digest(body);
        let host = host.to_owned();
        let date = match header_lookup(hs, "date") {
            Some(d) => d,
            None => {
                return Err(Error::ParseErr(ParseFault::MissingSignedHeader));
            },
        };
        if header_lookup(hs, "digest").is_none() {
            return Err(Error::ParseErr(ParseFault::MissingSignedHeader));
        }
        proof {
            lemma_cached_input_round_trip(target@, host@, hs@, digest@, date@);
        }
        let data = match build_signing_input(&headers, &target, &host, hs, &digest) {
            Some(d) => d,
            None => {
                return Err(Error::ParseErr(ParseFault::MissingSignedHeader));
            },
        };
        Ok(KeygenSig { key_id, algorithm, signature, headers, target, host, date, digest, data })
    }

    /// Rebuilds the signature of a cached record, with the digest recomputed from its body.
    pub fn from_response_cache(c: &KeygenResponseCache) -> (r: KeygenSig)
        ensures
            r.signature@ == c.sig@,
            r.target@ == c.target@,
            r.host@ == c.host@,
            r.date@ == c.date@,
            r.digest@ == digest_of(c.body@),
            views(r.headers@) == cached_names(),
            r.data@ == cached_input(c.target@, c.host@, c.date@, digest_of(c.body@)),
    {
        let digest = body_digest(c.body.as_str());
        let mut headers: Vec<String> = Vec::new();
        headers.push("(request-target)".to_owned());
        headers.push("host".to_owned());
        headers.push("date".to_owned());
        headers.push("digest".to_owned());
        assert(views(headers@) =~= cached_names());
        let l1 = joined(joined("(request-target)", ": ").as_str(), c.target.as_str());
        let l2 = joined(joined("host", ": ").as_str(), c.host.as_str());
        let l3 = joined(joined("date", ": ").as_str(), c.date.as_str());
        let l4 = joined(joined("digest", ": ").as_str(), digest.as_str());
        let a = joined(joined(l1.as_str(), "\n").as_str(), l2.as_str());
        let b = joined(joined(a.as_str(), "\n").as_str(), l3.as_str());
        let data = joined(joined(b.as_str(), "\n").as_str(), l4.as_str());
        KeygenSig {
            key_id: String::new(),
            algorithm: String::new(),
            signature: c.sig.clone(),
            headers,
            target: c.target.clone(),
            host: c.host.clone(),
            date: c.date.clone(),
            digest,
            data,
        }
    }
}

/// Whether a list of header names is exactly the cached names, in their order.
pub fn is_cached_names(names: &Vec<String>) -> (r: bool)
    ensures
        r == (views(names@) == cached_names()),
{
    if names.len() != 4 {
        proof {
            assert(views(names@).len() != cached_names().len());
        }
        return false;
    }
    let r = names[0] == "(request-target)".to_owned() && names[1] == "host".to_owned() && names[2]
        == "date".to_owned() && names[3] == "digest".to_owned();
    proof {
        if r {
            assert(views(names@) =~= cached_names());
        } else {
            if views(names@) == cached_names() {
                assert(views(names@)[0] == names@[0]@);
                assert(views(names@)[1] == names@[1]@);
                assert(views(names@)[2] == names@[2]@);
                assert(views(names@)[3] == names@[3]@);
            }
        }
    }
    r
}

/// The `Digest` header value of a body.
pub fn body_digest(body: &str) -> (r: String)
    ensures
        r@ == digest_of(body@),
{
    let d = sha256(body);
    let b = base64_encode(&d);
    joined("sha-256=", b.as_str())
}

/// Whether `name="` starts at index `i` of `h`, at the start of an item.
fn starts_at(h: &Vec<char>, name: &Vec<char>, i: usize) -> (r: bool)
    requires
        i < h@.len(),
    ensures
        r == param_starts(h@, name@, i as int),
{
    let n = name.len();
    if n > h.len() - i || h.len() - i - n < 2 {
        return false;
    }
    if i > 0 && h[i - 1] != ' ' && h[i - 1] != ',' {
        return false;
    }
    let mut k: usize = 0;
    while k < n
        invariant
            k <= n == name@.len(),
            i as int + n as int + 2 <= h@.len() as int,
            h@.len() <= usize::MAX,
            h@.subrange(i as int, i + k) =~= name@.subrange(0, k as int),
        decreases n - k,
    {
        if h[i + k] != name[k] {
            assert(h@.subrange(i as int, i + n)[k as int] != name@[k as int]);
            return false;
        }
        k = k + 1;
        assert(h@.subrange(i as int, i + k) =~= name@.subrange(0, k as int));
    }
    assert(name@.subrange(0, n as int) =~= name@);
    h[i + n] == '=' && h[i + n + 1] == '"'
}

/// The quoted value of the parameter `name` of the `Signature` header `h`.
pub fn param_value(h: &Vec<char>, name: &str) -> (r: Option<String>)
    ensures
        match r {
            Some(v) => param(h@, name@) == Some(v@),
            None => param(h@, name@) is None,
        },
{
    let nv = chars_of(name);
    let mut i: usize = 0;
    while i < h.len()
        invariant
            i <= h@.len(),
            nv@ == name@,
            param(h@, name@) == param_from(h@, name@, i as int),
        decreases h@.len() - i,
    {
        if starts_at(h, &nv, i) {
            let j = i + nv.len() + 2;
            let found = char_index(h, '"', j);
            proof {
                lemma_char_from(h@, '"', j as int);
            }
            return match found {
                Some(k) => Some(text_of(&slice_chars(h, j, k))),
                None => None,
            };
        }
        i = i + 1;
    }
    None
}

/// The value that the signed header `name` stands for.
fn signed_value_of(
    name: &String,
    target: &String,
    host: &String,
    hs: &Vec<(String, String)>,
    digest: &String,
) -> (r: Option<String>)
    ensures
        match r {
            Some(v) => signed_value(name@, target@, host@, hs@, digest@) == Some(v@),
            None => signed_value(name@, target@, host@, hs@, digest@) is None,
        },
{
    if *name == "(request-target)".to_owned() {
        Some(target.clone())
    } else if *name == "host".to_owned() {
        Some(host.clone())
    } else if *name == "digest".to_owned() {
        Some(digest.clone())
    } else {
        header_lookup(hs, name.as_str())
    }
}

/// Builds the signing input for the given header names.
pub fn build_signing_input(
    names: &Vec<String>,
    target: &String,
    host: &String,
    hs: &Vec<(String, String)>,
    digest: &String,
) -> (r: Option<String>)
    ensures
        match r {
            Some(d) => signing_input(views(names@), target@, host@, hs@, digest@) == Some(d@),
            None => signing_input(views(names@), target@, host@, hs@, digest@) is None,
        },
{
    let ghost nv = views(names@);
    let mut acc = String::new();
    let mut i: usize = 0;
    assert(nv.take(0) =~= seq![]);
    while i < names.len()
        invariant
            i <= names@.len(),
            nv == views(names@),
            signing_input(nv.take(i as int), target@, host@, hs@, digest@) == Some(acc@),
        decreases names@.len() - i,
    {
        assert(nv.take(i + 1).drop_last() =~= nv.take(i as int));
        assert(nv.take(i + 1).last() == names@[i as int]@);
        match signed_value_of(&names[i], target, host, hs, digest) {
            Some(v) => {
                let named = joined(names[i].as_str(), ": ");
                let l = joined(named.as_str(), v.as_str());
                if i == 0 {
                    acc = l;
                } else {
                    let nl = joined(acc.as_str(), "\n");
                    acc = joined(nl.as_str(), l.as_str());
                }
            },
            None => {
                proof {
                    lemma_signing_input_prefix(nv, i + 1, target@, host@, hs@, digest@);
                }
                return None;
            },
        }
        i = i + 1;
    }
    assert(nv.take(i as int) =~= nv);
    Some(acc)
}

} // verus!

//! The request builder: from the configuration and one work-list entry to a
//! request the transport can send.
use vstd::prelude::*;
use vstd::utf8::encode_utf8;
use crate::config::{App, BodySource, texts};
use crate::text::{is_name, same_name, header_pair, normalize_url, normalized_url, split_header};

verus! {

/// The standard, padded base64 text of some bytes.
pub uninterp spec fn base64_of(b: Seq<u8>) -> Seq<char>;

/// Relies on `base64::encode`: standard alphabet with padding; the text
/// depends on the bytes alone. It panics only when the encoded length would
/// overflow `usize`, which the bound on the input excludes.
#[verifier::external_body]
fn encode_base64(text: &str) -> (r: String)
    requires
        encode_utf8(text@).len() <= usize::MAX / 2,
    ensures
        r@ == base64_of(encode_utf8(text@)),
{
    base64::encode(text)
}

/// A request ready for the transport.
#[derive(Debug)]
pub struct RequestDescriptor {
    pub method: String,
    pub url: String,
    /// Header names and values, in the order they are applied.
    pub headers: Vec<(String, String)>,
    pub body: BodySource,
}

/// The text of a header name and value.
pub open spec fn pair_text(p: (String, String)) -> (Seq<char>, Seq<char>) {
    (p.0@, p.1@)
}

/// The text of each header.
pub open spec fn pair_texts(v: Seq<(String, String)>) -> Seq<(Seq<char>, Seq<char>)> {
    v.map_values(|p: (String, String)| pair_text(p))
}

/// `s` is the header name `User-Agent`, in any ASCII case.
pub open spec fn names_agent(s: Seq<char>) -> bool {
    same_name(
        s,
        seq!['u', 's', 'e', 'r', '-', 'a', 'g', 'e', 'n', 't'],
        seq!['U', 'S', 'E', 'R', '-', 'A', 'G', 'E', 'N', 'T'],
    )
}

/// Some header in `hs` is named `User-Agent`, in any ASCII case.
pub open spec fn has_agent(hs: Seq<(Seq<char>, Seq<char>)>) -> bool {
    exists|i: int| 0 <= i < hs.len() && names_agent(#[trigger] hs[i].0)
}

/// Whether a header name is `User-Agent`, in any ASCII case.
pub fn is_agent_name(s: &str) -> (r: bool)
    ensures
        r == names_agent(s@),
{
    proof {
        reveal_strlit("user-agent");
        reveal_strlit("USER-AGENT");
        assert("user-agent"@ =~= seq!['u', 's', 'e', 'r', '-', 'a', 'g', 'e', 'n', 't']);
        assert("USER-AGENT"@ =~= seq!['U', 'S', 'E', 'R', '-', 'A', 'G', 'E', 'N', 'T']);
    }
    is_name(s, "user-agent", "USER-AGENT")
}

/// The headers of the configured entries, one for each, in order.
pub open spec fn manual_headers(entries: Seq<Seq<char>>) -> Seq<(Seq<char>, Seq<char>)> {
    entries.map_values(|e: Seq<char>| header_pair(e))
}

/// The value of the `Authorization` header for a `user:password` text.
pub open spec fn basic_credentials(auth: Seq<char>) -> Seq<char> {
    "Basic "@ + base64_of(encode_utf8(auth))
}

/// The headers of a request: the configured entries in order; then the
/// configured user agent, unless an entry is named `User-Agent` (in any
/// case); then, with
/// credentials, `Authorization`, which comes last and so always wins.
pub open spec fn request_headers(app: App) -> Seq<(Seq<char>, Seq<char>)> {
    let manual = manual_headers(texts(app.headers@));
    let with_agent = if has_agent(manual) {
        manual
    } else {
        manual.push(("User-Agent"@, app.ua@))
    };
    match app.auth {
        Some(a) => with_agent.push(("Authorization"@, basic_credentials(a@))),
        None => with_agent,
    }
}

/// Every configured entry `K: V` becomes, at its own position, the header
/// `K` with value `V` trimmed, or with an empty value when it has no `:`.
pub proof fn entries_carried_law(app: App)
    ensures
        forall|i: int|
            0 <= i < app.headers@.len() ==> #[trigger] request_headers(app)[i] == header_pair(
                app.headers@[i]@,
            ),
{
}

/// The default user agent is sent exactly when no entry is named
/// `User-Agent` in any case; the configured entries come first, unchanged, and
/// credentials, when given, make `Authorization` the last header.
pub proof fn user_agent_law(app: App)
    ensures
        ({
            let manual = manual_headers(texts(app.headers@));
            let hs = request_headers(app);
            let m = manual.len() as int;
            &&& hs.subrange(0, m) == manual
            &&& (hs.len() > m && hs[m] == ("User-Agent"@, app.ua@)) <==> !has_agent(manual)
            &&& app.auth is Some ==> hs.last() == ("Authorization"@, basic_credentials(
                app.auth->0@,
            ))
        }),
{
    reveal_strlit("User-Agent");
    reveal_strlit("Authorization");
    let manual = manual_headers(texts(app.headers@));
    let hs = request_headers(app);
    let m = manual.len() as int;
    assert(hs.subrange(0, m) =~= manual);
    assert("User-Agent"@.len() != "Authorization"@.len());
}

/// The credentials, if any, are short enough to encode.
pub open spec fn auth_fits(app: App) -> bool {
    app.auth is Some ==> encode_utf8(app.auth->0@).len() <= usize::MAX / 2
}

/// `b` holds the same body as `a`.
pub open spec fn same_body(b: BodySource, a: BodySource) -> bool {
    match a {
        BodySource::Empty => b is Empty,
        BodySource::Inline(d) => b matches BodySource::Inline(e) && e@ == d@,
        BodySource::Upload(p) => b matches BodySource::Upload(q) && q@ == p@,
    }
}

/// `r` is the request that `app` describes for the work-list entry `url`.
pub open spec fn describes(r: RequestDescriptor, app: App, url: Seq<char>) -> bool {
    &&& r.method@ == app.method@
    &&& r.url@ == normalized_url(url)
    &&& pair_texts(r.headers@) == request_headers(app)
    &&& same_body(r.body, app.body)
}

/// The `Authorization` value for an encoded `user:password` token.
pub fn basic_value(token: &str) -> (r: String)
    ensures
        r@ == "Basic "@ + token@,
{
    let mut value = String::from_str("Basic ");
    value.append(token);
    value
}

/// A copy of some bytes.
pub fn copy_bytes(d: &Vec<u8>) -> (e: Vec<u8>)
    ensures
        e@ == d@,
{
    let mut e: Vec<u8> = Vec::new();
    let mut i: usize = 0;
    while i < d.len()
        invariant
            i <= d@.len(),
            e@ == d@.subrange(0, i as int),
        decreases d.len() - i,
    {
        e.push(d[i]);
        i += 1;
    }
    assert(e@ =~= d@);
    e
}

/// A copy of a body source.
pub fn copy_body(b: &BodySource) -> (r: BodySource)
    ensures
        same_body(r, *b),
{
    match b {
        BodySource::Empty => BodySource::Empty,
        BodySource::Inline(d) => BodySource::Inline(copy_bytes(d)),
        BodySource::Upload(p) => BodySource::Upload(p.clone()),
    }
}

impl App {
    /// Builds the request for one work-list entry: the URL normalized, the
    /// method and body of the configuration, and its headers.
    pub fn build_request(&self, url: &str) -> (r: RequestDescriptor)
        requires
            auth_fits(*self),
        ensures
            describes(r, *self, url@),
    {
        let mut headers: Vec<(String, String)> = Vec::new();
        let mut found = false;
        let mut i: usize = 0;
        while i < self.headers.len()
            invariant
                i <= self.headers@.len(),
                headers@.len() == i,
                forall|k: int|
                    0 <= k < i ==> pair_text(#[trigger] headers@[k]) == header_pair(
                        self.headers@[k]@,
                    ),
                found <==> exists|k: int| 0 <= k < i && names_agent(#[trigger] headers@[k].0@),
            decreases self.headers.len() - i,
        {
            let (name, value) = split_header(self.headers[i].as_str());
            if is_agent_name(name.as_str()) {
                found = true;
            }
            let ghost before = headers@;
            headers.push((name, value));
            proof {
                assert(headers@[i as int].0@ == name@);
                assert forall|k: int| 0 <= k < i implies headers@[k] == before[k] by {}
            }
            i += 1;
        }
        let ghost manual = manual_headers(texts(self.headers@));
        assert(pair_texts(headers@) =~= manual);
        assert(found == has_agent(manual)) by {
            if found {
                let k = choose|k: int| 0 <= k < i && names_agent(#[trigger] headers@[k].0@);
                assert(names_agent(manual[k].0));
            }
            if has_agent(manual) {
                let k = choose|k: int| 0 <= k < manual.len() && names_agent(#[trigger] manual[k].0);
                assert(names_agent(headers@[k].0@));
            }
        }
        let agent_name = String::from_str("User-Agent");
        if !found {
            headers.push((agent_name, self.ua.clone()));
            assert(pair_texts(headers@) =~= manual.push(("User-Agent"@, self.ua@)));
        }
        let ghost with_agent = pair_texts(headers@);
        match &self.auth {
            Some(a) => {
                let token = encode_base64(a.as_str());
                let value = basic_value(token.as_str());
                headers.push((String::from_str("Authorization"), value));
                assert(pair_texts(headers@) =~= with_agent.push(
                    ("Authorization"@, basic_credentials(a@)),
                ));
            },
            None => {},
        }
        RequestDescriptor {
            method: self.method.clone(),
            url: normalize_url(url),
            headers,
            body: copy_body(&self.body),
        }
    }
}

} // verus!

//! The execution engine's decisions: which request comes next from the
//! work-list, what is echoed of a response head, and whether a response is
//! streamed out or followed as a redirect.
use vstd::prelude::*;
use vstd::utf8::{decode_utf8, encode_utf8, valid_utf8};
use crate::config::App;
use crate::text::{is_name, same_name};
use crate::request::{auth_fits, copy_bytes, describes, RequestDescriptor};

verus! {

/// The head of a response, as the transport hands it over.
#[derive(Debug)]
pub struct ResponseHead {
    /// The protocol version, such as `HTTP/1.1`.
    pub version: String,
    pub status: u16,
    /// The status code with its reason phrase, such as `200 OK`.
    pub status_text: String,
    /// Header names and raw values, in the order received.
    pub headers: Vec<(String, Vec<u8>)>,
    /// Scheme and host of the request this answers.
    pub scheme: Option<String>,
    pub host: Option<String>,
}

/// What becomes of a response body.
#[derive(Debug, Clone, Copy, PartialEq, Eq, Structural)]
pub enum Disposition {
    /// The body is streamed to the output.
    StreamBody,
    /// The body is dropped: the redirect target was queued instead.
    Redirected,
}

/// A response that stops the run.
#[derive(Debug, Clone, Copy, PartialEq, Eq, Structural)]
pub enum EngineError {
    /// The `Location` value is not UTF-8.
    LocationNotText,
    /// A path-only `Location` on a request without scheme or host.
    NoOrigin,
}

/// A status of the redirection class.
pub open spec fn is_redirection(status: u16) -> bool {
    300 <= status && status <= 399
}

/// The echoed status line: version, status, newline.
pub open spec fn status_line(head: ResponseHead) -> Seq<u8> {
    encode_utf8(head.version@) + seq![32u8] + encode_utf8(head.status_text@) + seq![10u8]
}

/// The echoed line of one header: `Name: value` and a newline.
pub open spec fn header_line(h: (String, Vec<u8>)) -> Seq<u8> {
    encode_utf8(h.0@) + seq![58u8, 32u8] + h.1@ + seq![10u8]
}

/// The echo of a response head: the status line, one line per header, and
/// a blank line.
pub open spec fn head_echo(head: ResponseHead) -> Seq<Seq<u8>> {
    seq![status_line(head)] + head.headers@.map_values(|h: (String, Vec<u8>)| header_line(h))
        + seq![seq![10u8]]
}

/// The bytes of each chunk.
pub open spec fn chunks(v: Seq<Vec<u8>>) -> Seq<Seq<u8>> {
    v.map_values(|c: Vec<u8>| c@)
}

/// `s` is the header name `Location`, in any ASCII case.
pub open spec fn names_location(s: Seq<char>) -> bool {
    same_name(
        s,
        seq!['l', 'o', 'c', 'a', 't', 'i', 'o', 'n'],
        seq!['L', 'O', 'C', 'A', 'T', 'I', 'O', 'N'],
    )
}

/// `k` is the position of the first `Location` header.
pub open spec fn is_first_location(hs: Seq<(String, Vec<u8>)>, k: int) -> bool {
    &&& 0 <= k < hs.len()
    &&& names_location(hs[k].0@)
    &&& forall|j: int| 0 <= j < k ==> !names_location(#[trigger] hs[j].0@)
}

/// The raw value of the first `Location` header, if any.
pub open spec fn location_of(hs: Seq<(String, Vec<u8>)>) -> Option<Seq<u8>> {
    if exists|k: int| is_first_location(hs, k) {
        Some(hs[choose|k: int| is_first_location(hs, k)].1@)
    } else {
        None
    }
}

/// A location that is a path on the current host.
pub open spec fn is_path(loc: Seq<char>) -> bool {
    loc.len() > 0 && loc[0] == '/'
}

/// Where a redirect leads: a path is resolved against the scheme and host
/// of the current request; anything else is taken as it is.
pub open spec fn redirect_target(loc: Seq<char>, scheme: Seq<char>, host: Seq<char>) -> Seq<
    char,
> {
    if is_path(loc) {
        scheme + seq![':', '/', '/'] + host + loc
    } else {
        loc
    }
}

/// What a response head leads to: its disposition and the URL pushed onto
/// the work-list, or the error that stops the run.
pub open spec fn outcome(app: App, head: ResponseHead) -> Result<
    (Disposition, Option<Seq<char>>),
    EngineError,
> {
    if is_redirection(head.status) && app.follow_redirects && location_of(head.headers@) is Some {
        let b = location_of(head.headers@)->0;
        if !valid_utf8(b) {
            Err(EngineError::LocationNotText)
        } else {
            let loc = decode_utf8(b);
            if is_path(loc) {
                match (head.scheme, head.host) {
                    (Some(s), Some(h)) => Ok(
                        (Disposition::Redirected, Some(redirect_target(loc, s@, h@))),
                    ),
                    _ => Err(EngineError::NoOrigin),
                }
            } else {
                Ok((Disposition::Redirected, Some(loc)))
            }
        }
    } else {
        Ok((Disposition::StreamBody, None))
    }
}

/// `b` has the configuration of `a`; only the work-list may differ.
pub open spec fn same_config(b: App, a: App) -> bool {
    &&& b.log == a.log
    &&& b.method == a.method
    &&& b.headers == a.headers
    &&& b.output_file == a.output_file
    &&& b.ua == a.ua
    &&& b.body == a.body
    &&& b.include_headers == a.include_headers
    &&& b.auth == a.auth
    &&& b.follow_redirects == a.follow_redirects
    &&& b.insecure == a.insecure
}

/// The work-lists of a redirect chain: `ws[0]` is `rest` with `b` on top;
/// each request takes the last entry (as `next_request` does), each hop's
/// target is pushed in its place (as `after_head` does on a redirect), and
/// the last response of the chain pushes nothing.
pub open spec fn chain_steps(
    rest: Seq<String>,
    b: String,
    ws: Seq<Seq<String>>,
    taken: Seq<String>,
    hops: Seq<String>,
) -> bool {
    &&& taken.len() == hops.len() + 1
    &&& ws.len() == taken.len() + 1
    &&& ws[0] == rest.push(b)
    &&& forall|i: int| 0 <= i < taken.len() ==> ws[i].len() > 0 && #[trigger] taken[i] == ws[i].last()
    &&& forall|i: int|
        0 <= i < hops.len() ==> #[trigger] ws[i + 1].len() == ws[i].len() && ws[i + 1].drop_last()
            == ws[i].drop_last() && ws[i + 1].last() == hops[i]
    &&& ws[hops.len() as int + 1] == ws[hops.len() as int].drop_last()
}

/// Along a redirect chain, every work-list is `rest` with the entry being
/// requested on top.
proof fn chain_prefix(
    rest: Seq<String>,
    b: String,
    ws: Seq<Seq<String>>,
    taken: Seq<String>,
    hops: Seq<String>,
    i: int,
)
    requires
        chain_steps(rest, b, ws, taken, hops),
        0 <= i < taken.len(),
    ensures
        ws[i].drop_last() == rest,
    decreases i,
{
    if i == 0 {
        assert(rest.push(b).drop_last() =~= rest);
    } else {
        chain_prefix(rest, b, ws, taken, hops, i - 1);
        assert(ws[(i - 1) + 1].len() == ws[i - 1].len());
    }
}

/// Work-list order: with `b` on top of the work-list (the last URL given),
/// `b` is requested first; each redirect target is requested right after
/// the response that named it, so a chain of any length is followed to its
/// end; the entries below (`rest`, such as an earlier URL `a`) stay
/// untouched until then, and are all that is left afterwards.
pub proof fn redirect_chain_law(
    rest: Seq<String>,
    b: String,
    ws: Seq<Seq<String>>,
    taken: Seq<String>,
    hops: Seq<String>,
)
    requires
        chain_steps(rest, b, ws, taken, hops),
    ensures
        taken[0] == b,
        forall|i: int| 0 <= i < hops.len() ==> #[trigger] taken[i + 1] == hops[i],
        forall|i: int| 0 <= i < taken.len() ==> #[trigger] ws[i].drop_last() == rest,
        ws[taken.len() as int] == rest,
{
    assert(taken[0] == ws[0].last());
    assert forall|i: int| 0 <= i < taken.len() implies #[trigger] ws[i].drop_last() == rest by {
        chain_prefix(rest, b, ws, taken, hops, i);
    }
    assert forall|i: int| 0 <= i < hops.len() implies #[trigger] taken[i + 1] == hops[i] by {
        assert(ws[i + 1].len() == ws[i].len());
        assert(taken[i + 1] == ws[i + 1].last());
    }
    chain_prefix(rest, b, ws, taken, hops, hops.len() as int);
}

/// Relies on `String::from_utf8`: it succeeds exactly on valid UTF-8, with
/// the text those bytes encode.
#[verifier::external_body]
fn text_of_bytes(b: &Vec<u8>) -> (r: Option<String>)
    ensures
        r is Some <==> valid_utf8(b@),
        r is Some ==> r->0@ == decode_utf8(b@),
{
    String::from_utf8(b.clone()).ok()
}

/// Whether a header name is `Location`, in any ASCII case.
pub fn is_location_name(s: &str) -> (r: bool)
    ensures
        r == names_location(s@),
{
    proof {
        reveal_strlit("location");
        reveal_strlit("LOCATION");
        assert("location"@ =~= seq!['l', 'o', 'c', 'a', 't', 'i', 'o', 'n']);
        assert("LOCATION"@ =~= seq!['L', 'O', 'C', 'A', 'T', 'I', 'O', 'N']);
    }
    is_name(s, "location", "LOCATION")
}

/// The echoed status line of a response head.
fn status_line_bytes(head: &ResponseHead) -> (r: Vec<u8>)
    ensures
        r@ == status_line(*head),
{
    let mut r = head.version.as_str().as_bytes_vec();
    r.push(32u8);
    let mut text = head.status_text.as_str().as_bytes_vec();
    r.append(&mut text);
    r.push(10u8);
    assert(r@ =~= status_line(*head));
    r
}

/// The echoed line of one header.
fn header_line_bytes(h: &(String, Vec<u8>)) -> (r: Vec<u8>)
    ensures
        r@ == header_line(*h),
{
    let mut r = h.0.as_str().as_bytes_vec();
    r.push(58u8);
    r.push(32u8);
    let mut value = copy_bytes(&h.1);
    r.append(&mut value);
    r.push(10u8);
    assert(r@ =~= header_line(*h));
    r
}

/// The path-resolved redirect target.
fn join_origin(scheme: &str, host: &str, loc: &str) -> (r: String)
    ensures
        r@ == scheme@ + seq![':', '/', '/'] + host@ + loc@,
{
    let mut r = String::from_str(scheme);
    r.append("://");
    r.append(host);
    r.append(loc);
    proof {
        reveal_strlit("://");
        assert("://"@ =~= seq![':', '/', '/']);
    }
    r
}

impl App {
    /// Takes the next URL from the end of the work-list and builds its
    /// request; `None` when the work-list is empty, which ends the run.
    pub fn next_request(&mut self) -> (r: Option<RequestDescriptor>)
        requires
            auth_fits(*old(self)),
        ensures
            same_config(*final(self), *old(self)),
            old(self).urls@.len() == 0 ==> r is None && final(self).urls@ == old(self).urls@,
            old(self).urls@.len() > 0 ==> {
                &&& r is Some
                &&& final(self).urls@ == old(self).urls@.drop_last()
                &&& describes(r->0, *old(self), old(self).urls@.last()@)
            },
    {
        match self.urls.pop() {
            None => None,
            Some(url) => Some(self.build_request(url.as_str())),
        }
    }

    /// The lines echoed for a response head before its body: the status
    /// line, the headers and a blank line when headers are included, else
    /// none.
    pub fn head_lines(&self, head: &ResponseHead) -> (r: Vec<Vec<u8>>)
        ensures
            self.include_headers ==> chunks(r@) == head_echo(*head),
            !self.include_headers ==> r@.len() == 0,
    {
        let mut out: Vec<Vec<u8>> = Vec::new();
        if !self.include_headers {
            return out;
        }
        out.push(status_line_bytes(head));
        let mut i: usize = 0;
        while i < head.headers.len()
            invariant
                i <= head.headers@.len(),
                out@.len() == i + 1,
                out@[0]@ == status_line(*head),
                forall|k: int| 0 <= k < i ==> #[trigger] out@[k + 1]@ == header_line(head.headers@[k]),
            decreases head.headers.len() - i,
        {
            let line = header_line_bytes(&head.headers[i]);
            out.push(line);
            i += 1;
        }
        out.push(vec![10u8]);
        assert(seq![10u8] =~= out@[out@.len() - 1]@);
        proof {
            let n = head.headers@.len() as int;
            let mid = head.headers@.map_values(|h: (String, Vec<u8>)| header_line(h));
            let e = head_echo(*head);
            assert(e.len() == n + 2);
            assert forall|k: int| 0 <= k < n + 2 implies #[trigger] chunks(out@)[k] == e[k] by {
                if k == 0 {
                } else if k <= n {
                    assert(out@[(k - 1) + 1]@ == header_line(head.headers@[k - 1]));
                    assert(e[k] == mid[k - 1]);
                } else {
                }
            }
            assert(chunks(out@) =~= e);
        }
        out
    }

    /// Decides what a response head leads to. A redirection, when redirects
    /// are followed and a `Location` is given, pushes its target onto the
    /// work-list and drops the body; otherwise the body is streamed.
    pub fn after_head(&mut self, head: &ResponseHead) -> (r: Result<Disposition, EngineError>)
        ensures
            same_config(*final(self), *old(self)),
            match outcome(*old(self), *head) {
                Ok((d, Some(t))) => {
                    &&& r == Ok::<Disposition, EngineError>(d)
                    &&& final(self).urls@.len() == old(self).urls@.len() + 1
                    &&& final(self).urls@.drop_last() == old(self).urls@
                    &&& final(self).urls@.last()@ == t
                },
                Ok((d, None)) => r == Ok::<Disposition, EngineError>(d) && final(self).urls@
                    == old(self).urls@,
                Err(e) => r == Err::<Disposition, EngineError>(e) && final(self).urls@ == old(
                    self,
                ).urls@,
            },
    {
        if !(300 <= head.status && head.status <= 399 && self.follow_redirects) {
            return Ok(Disposition::StreamBody);
        }
        let mut i: usize = 0;
        while i < head.headers.len()
            invariant
                *self == *old(self),
                300 <= head.status <= 399,
                self.follow_redirects,
                i <= head.headers@.len(),
                forall|j: int| 0 <= j < i ==> !names_location(#[trigger] head.headers@[j].0@),
            decreases head.headers.len() - i,
        {
            if is_location_name(head.headers[i].0.as_str()) {
                proof {
                    assert(is_first_location(head.headers@, i as int));
                    let k = choose|k: int| is_first_location(head.headers@, k);
                    assert(k == i as int);
                }
                let loc = match text_of_bytes(&head.headers[i].1) {
                    Some(s) => s,
                    None => {
                        return Err(EngineError::LocationNotText);
                    },
                };
                let is_path = loc.as_str().unicode_len() > 0 && loc.as_str().get_char(0) == '/';
                let target = if is_path {
                    match (&head.scheme, &head.host) {
                        (Some(s), Some(h)) => join_origin(s.as_str(), h.as_str(), loc.as_str()),
                        _ => {
                            return Err(EngineError::NoOrigin);
                        },
                    }
                } else {
                    loc
                };
                let ghost before = self.urls@;
                self.urls.push(target);
                assert(self.urls@.drop_last() =~= before);
                return Ok(Disposition::Redirected);
            }
            i += 1;
        }
        assert(!exists|k: int| is_first_location(head.headers@, k));
        Ok(Disposition::StreamBody)
    }
}

} // verus!

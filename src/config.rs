//! The run configuration: resolved once from the command-line values and
//! immutable afterwards, except for the work-list of URLs.
use vstd::prelude::*;
use crate::text::{trimmed, trim_text};

verus! {

/// The user agent sent when none is configured.
pub const DEFAULT_USER_AGENT: &'static str = "currrrl/0.1.0";

/// How much the client reports on standard error.
#[derive(Debug, Clone, Copy, PartialEq, Eq, Structural)]
pub enum LogStatus {
    Full,
    Normal,
    Silent,
}

/// What the request body is made of.
#[derive(Debug, Clone)]
pub enum BodySource {
    Empty,
    /// A body of fixed length: these bytes.
    Inline(Vec<u8>),
    /// The contents of the file at this path, read as the transport sends.
    Upload(String),
}

/// One `-H` argument: a literal entry, or the lines of an `@file`.
#[derive(Debug, Clone)]
pub enum HeaderArg {
    Literal(String),
    /// The lines read from the file; none when it could not be read.
    FileLines(Vec<String>),
}

/// The command-line values the configuration is resolved from, with the
/// contents of any `@file` data argument already loaded.
#[derive(Debug, Clone)]
pub struct CliFlags {
    pub silent: bool,
    pub verbose: bool,
    pub version: bool,
    pub help: bool,
    pub echo_headers: bool,
    pub insecure: bool,
    pub recursive: bool,
    pub location: bool,
    pub remote_name: bool,
    pub request: Option<String>,
    pub output: Option<String>,
    pub user: Option<String>,
    pub user_agent: Option<String>,
    pub upload_file: Option<String>,
    pub data: Option<Vec<u8>>,
    pub headers: Vec<HeaderArg>,
    pub urls: Vec<String>,
}

/// Why no run takes place.
#[derive(Debug, Clone, Copy, PartialEq, Eq, Structural)]
pub enum RefusalKind {
    ShowVersion,
    ShowHelp,
    NoUrl,
    /// Recursive download or remote-name output was asked for.
    Unimplemented,
    /// Both an inline body and an upload file were given.
    BothBodies,
}

/// A run that does not take place, with the log level its message obeys.
#[derive(Debug, Clone, Copy, PartialEq, Eq, Structural)]
pub struct Refusal {
    pub kind: RefusalKind,
    pub log: LogStatus,
}

/// The resolved configuration of a run.
#[derive(Debug)]
pub struct App {
    pub log: LogStatus,
    pub method: String,
    pub headers: Vec<String>,
    pub output_file: Option<String>,
    pub ua: String,
    pub body: BodySource,
    pub include_headers: bool,
    pub auth: Option<String>,
    /// The work-list: the last entry is requested next.
    pub urls: Vec<String>,
    pub follow_redirects: bool,
    pub insecure: bool,
}

/// The text of each string.
pub open spec fn texts(v: Seq<String>) -> Seq<Seq<char>> {
    v.map_values(|s: String| s@)
}

/// The header entries that the lines of an `@file` give: each line trimmed,
/// blank lines left out.
pub open spec fn file_entries(lines: Seq<String>) -> Seq<Seq<char>>
    decreases lines.len(),
{
    if lines.len() == 0 {
        Seq::empty()
    } else {
        let rest = file_entries(lines.drop_last());
        let t = trimmed(lines.last()@);
        if t.len() == 0 {
            rest
        } else {
            rest.push(t)
        }
    }
}

/// The header entries that one `-H` argument gives.
pub open spec fn arg_entries(a: HeaderArg) -> Seq<Seq<char>> {
    match a {
        HeaderArg::Literal(s) => seq![s@],
        HeaderArg::FileLines(lines) => file_entries(lines@),
    }
}

/// The header entries of all `-H` arguments, in argument order.
pub open spec fn header_entries(args: Seq<HeaderArg>) -> Seq<Seq<char>>
    decreases args.len(),
{
    if args.len() == 0 {
        Seq::empty()
    } else {
        header_entries(args.drop_last()) + arg_entries(args.last())
    }
}

/// The log level the flags ask for.
pub open spec fn resolved_log(f: CliFlags) -> LogStatus {
    if f.silent {
        LogStatus::Silent
    } else if f.verbose {
        LogStatus::Full
    } else {
        LogStatus::Normal
    }
}

/// The method: the explicit one, else `PUT` for an upload, else `POST` for
/// inline data, else `GET`.
pub open spec fn resolved_method(f: CliFlags) -> Seq<char> {
    match f.request {
        Some(m) => m@,
        None => if f.upload_file is Some {
            "PUT"@
        } else if f.data is Some {
            "POST"@
        } else {
            "GET"@
        },
    }
}

/// Why the flags give no run, if they do not.
pub open spec fn refusal_of(f: CliFlags) -> Option<Refusal> {
    if f.version {
        Some(Refusal { kind: RefusalKind::ShowVersion, log: LogStatus::Normal })
    } else if f.help {
        Some(Refusal { kind: RefusalKind::ShowHelp, log: LogStatus::Normal })
    } else if f.urls.len() == 0 {
        Some(Refusal { kind: RefusalKind::NoUrl, log: LogStatus::Normal })
    } else if f.recursive || f.remote_name {
        Some(Refusal { kind: RefusalKind::Unimplemented, log: resolved_log(f) })
    } else if f.data is Some && f.upload_file is Some {
        Some(Refusal { kind: RefusalKind::BothBodies, log: resolved_log(f) })
    } else {
        None
    }
}

/// The body the flags describe, when they do not give two.
pub open spec fn resolved_body(f: CliFlags, b: BodySource) -> bool {
    match f.upload_file {
        Some(p) => b matches BodySource::Upload(q) && q@ == p@,
        None => match f.data {
            Some(d) => b matches BodySource::Inline(e) && e@ == d@,
            None => b is Empty,
        },
    }
}

/// `a` is the configuration that `f` resolves to.
pub open spec fn resolves_to(f: CliFlags, a: App) -> bool {
    &&& a.log == resolved_log(f)
    &&& a.method@ == resolved_method(f)
    &&& texts(a.headers@) == header_entries(f.headers@)
    &&& a.output_file == f.output
    &&& a.ua@ == match f.user_agent {
        Some(u) => u@,
        None => DEFAULT_USER_AGENT@,
    }
    &&& resolved_body(f, a.body)
    &&& a.include_headers == f.echo_headers
    &&& a.auth == f.user
    &&& a.urls == f.urls
    &&& a.follow_redirects == f.location
    &&& a.insecure == f.insecure
}

/// The header entries of the lines of an `@file`.
fn file_line_entries(lines: &Vec<String>, out: &mut Vec<String>)
    ensures
        texts(final(out)@) == texts(old(out)@) + file_entries(lines@),
{
    let mut j: usize = 0;
    while j < lines.len()
        invariant
            j <= lines@.len(),
            texts(out@) == texts(old(out)@) + file_entries(lines@.subrange(0, j as int)),
        decreases lines.len() - j,
    {
        let t = trim_text(lines[j].as_str());
        proof {
            assert(lines@.subrange(0, j + 1).drop_last() =~= lines@.subrange(0, j as int));
            assert(lines@.subrange(0, j + 1).last() == lines@[j as int]);
        }
        if t.unicode_len() > 0 {
            let ghost before = out@;
            out.push(String::from_str(t));
            assert(texts(out@) =~= texts(before).push(trimmed(lines@[j as int]@)));
            assert(texts(out@) =~= texts(old(out)@) + file_entries(lines@.subrange(0, j + 1)));
        }
        j += 1;
    }
    assert(lines@.subrange(0, lines@.len() as int) =~= lines@);
}

/// Expands the `-H` arguments into header entries: a literal argument is one
/// entry, an `@file` gives its non-blank lines, trimmed.
pub fn expand_headers(args: &Vec<HeaderArg>) -> (r: Vec<String>)
    ensures
        texts(r@) == header_entries(args@),
{
    let mut out: Vec<String> = Vec::new();
    let mut i: usize = 0;
    while i < args.len()
        invariant
            i <= args@.len(),
            texts(out@) == header_entries(args@.subrange(0, i as int)),
        decreases args.len() - i,
    {
        proof {
            assert(args@.subrange(0, i + 1).drop_last() =~= args@.subrange(0, i as int));
        }
        match &args[i] {
            HeaderArg::Literal(s) => {
                out.push(s.clone());
                assert(texts(out@) =~= header_entries(args@.subrange(0, i + 1)));
            },
            HeaderArg::FileLines(lines) => {
                file_line_entries(lines, &mut out);
            },
        }
        i += 1;
    }
    assert(args@.subrange(0, args@.len() as int) =~= args@);
    out
}

impl Default for App {
    /// An empty run: `GET`, the default user agent, no headers, body or
    /// URLs, every switch off, normal logging.
    fn default() -> (r: App)
        ensures
            r.log == LogStatus::Normal,
            r.method@ == "GET"@,
            r.headers@.len() == 0,
            r.output_file is None,
            r.ua@ == DEFAULT_USER_AGENT@,
            r.body is Empty,
            !r.include_headers,
            r.auth is None,
            r.urls@.len() == 0,
            !r.follow_redirects,
            !r.insecure,
    {
        App {
            log: LogStatus::Normal,
            method: String::from_str("GET"),
            headers: Vec::new(),
            output_file: None,
            ua: String::from_str(DEFAULT_USER_AGENT),
            body: BodySource::Empty,
            include_headers: false,
            auth: None,
            urls: Vec::new(),
            follow_redirects: false,
            insecure: false,
        }
    }
}

impl App {
    /// Resolves the configuration of a run from the command-line values, or
    /// says why there is no run. Defaults are settled here, once.
    pub fn new(flags: CliFlags) -> (r: Result<App, Refusal>)
        ensures
            match refusal_of(flags) {
                Some(e) => r == Err::<App, Refusal>(e),
                None => r is Ok && resolves_to(flags, r->Ok_0),
            },
    {
        let log = if flags.silent {
            LogStatus::Silent
        } else if flags.verbose {
            LogStatus::Full
        } else {
            LogStatus::Normal
        };
        if flags.version {
            return Err(Refusal { kind: RefusalKind::ShowVersion, log: LogStatus::Normal });
        }
        if flags.help {
            return Err(Refusal { kind: RefusalKind::ShowHelp, log: LogStatus::Normal });
        }
        if flags.urls.len() == 0 {
            return Err(Refusal { kind: RefusalKind::NoUrl, log: LogStatus::Normal });
        }
        if flags.recursive || flags.remote_name {
            return Err(Refusal { kind: RefusalKind::Unimplemented, log });
        }
        if flags.data.is_some() && flags.upload_file.is_some() {
            return Err(Refusal { kind: RefusalKind::BothBodies, log });
        }
        let headers = expand_headers(&flags.headers);
        let method = match &flags.request {
            Some(m) => m.clone(),
            None => if flags.upload_file.is_some() {
                String::from_str("PUT")
            } else if flags.data.is_some() {
                String::from_str("POST")
            } else {
                String::from_str("GET")
            },
        };
        let ua = match &flags.user_agent {
            Some(u) => u.clone(),
            None => String::from_str(DEFAULT_USER_AGENT),
        };
        let CliFlags {
            echo_headers,
            insecure,
            location,
            output,
            user,
            upload_file,
            data,
            urls,
            ..
        } = flags;
        let body = match upload_file {
            Some(p) => BodySource::Upload(p),
            None => match data {
                Some(d) => BodySource::Inline(d),
                None => BodySource::Empty,
            },
        };
        Ok(
            App {
                log,
                method,
                headers,
                output_file: output,
                ua,
                body,
                include_headers: echo_headers,
                auth: user,
                urls,
                follow_redirects: location,
                insecure,
            },
        )
    }

    /// The diagnostic to write to standard error, or `None` in silent mode.
    pub fn error(&self, log: String) -> (shown: Option<String>)
        ensures
            self.log == LogStatus::Silent ==> shown is None,
            self.log != LogStatus::Silent ==> shown == Some(log),
    {
        if self.log != LogStatus::Silent {
            Some(log)
        } else {
            None
        }
    }

    /// As `error`, for a borrowed message.
    pub fn error_str(&self, log: &str) -> (shown: Option<String>)
        ensures
            self.log == LogStatus::Silent ==> shown is None,
            self.log != LogStatus::Silent ==> shown is Some && shown->0@ == log@,
    {
        if self.log != LogStatus::Silent {
            Some(String::from_str(log))
        } else {
            None
        }
    }
}

} // verus!

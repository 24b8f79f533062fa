//! Text helpers: header entries, `@file` references, URL normalization.
use vstd::prelude::*;

verus! {

/// The characters with the Unicode `White_Space` property.
pub open spec fn is_white(c: char) -> bool {
    let u = c as u32;
    (0x9 <= u && u <= 0xd) || u == 0x20 || u == 0x85 || u == 0xa0 || u == 0x1680 || (0x2000 <= u
        && u <= 0x200a) || u == 0x2028 || u == 0x2029 || u == 0x202f || u == 0x205f || u == 0x3000
}

/// `s` without its leading white space.
pub open spec fn trim_start(s: Seq<char>) -> Seq<char>
    decreases s.len(),
{
    if s.len() > 0 && is_white(s[0]) {
        trim_start(s.drop_first())
    } else {
        s
    }
}

/// `s` without its trailing white space.
pub open spec fn trim_end(s: Seq<char>) -> Seq<char>
    decreases s.len(),
{
    if s.len() > 0 && is_white(s.last()) {
        trim_end(s.drop_last())
    } else {
        s
    }
}

/// `s` without leading and trailing white space.
pub open spec fn trimmed(s: Seq<char>) -> Seq<char> {
    trim_end(trim_start(s))
}

/// Whether a character has the Unicode `White_Space` property.
pub fn is_white_char(c: char) -> (r: bool)
    ensures
        r == is_white(c),
{
    let u = c as u32;
    (0x9 <= u && u <= 0xd) || u == 0x20 || u == 0x85 || u == 0xa0 || u == 0x1680 || (0x2000 <= u
        && u <= 0x200a) || u == 0x2028 || u == 0x2029 || u == 0x202f || u == 0x205f || u == 0x3000
}

/// `s` without leading and trailing white space.
pub fn trim_text<'a>(s: &'a str) -> (r: &'a str)
    ensures
        r@ == trimmed(s@),
{
    let n = s.unicode_len();
    let mut i: usize = 0;
    assert(s@.subrange(0, n as int) =~= s@);
    while i < n && is_white_char(s.get_char(i))
        invariant
            n == s@.len(),
            i <= n,
            trim_start(s@) == trim_start(s@.subrange(i as int, n as int)),
        decreases n - i,
    {
        assert(s@.subrange(i as int, n as int).drop_first() =~= s@.subrange(i + 1, n as int));
        i += 1;
    }
    assert(trim_start(s@) == s@.subrange(i as int, n as int));
    let mut j: usize = n;
    while j > i && is_white_char(s.get_char(j - 1))
        invariant
            n == s@.len(),
            i <= j <= n,
            trimmed(s@) == trim_end(s@.subrange(i as int, j as int)),
        decreases j,
    {
        assert(s@.subrange(i as int, j as int).drop_last() =~= s@.subrange(i as int, j - 1));
        j -= 1;
    }
    s.substring_char(i, j)
}

/// `k` is the position of the first `:` in `s`.
pub open spec fn is_first_colon(s: Seq<char>, k: int) -> bool {
    &&& 0 <= k < s.len()
    &&& s[k] == ':'
    &&& forall|j: int| 0 <= j < k ==> s[j] != ':'
}

/// The name and value that a raw header entry `"Name: value"` stands for:
/// split once at the first `:`, the value trimmed; an entry without `:` is a
/// name with an empty value.
pub open spec fn header_pair(s: Seq<char>) -> (Seq<char>, Seq<char>) {
    if exists|k: int| is_first_colon(s, k) {
        let k = choose|k: int| is_first_colon(s, k);
        (s.subrange(0, k), trimmed(s.subrange(k + 1, s.len() as int)))
    } else {
        (s, Seq::empty())
    }
}

/// An entry `name:value` whose name holds no `:` is the header `name` with
/// the value trimmed; an entry without any `:` is a header with an empty
/// value.
pub proof fn header_entry_law(name: Seq<char>, value: Seq<char>)
    requires
        forall|i: int| 0 <= i < name.len() ==> name[i] != ':',
    ensures
        header_pair(name + seq![':'] + value) == (name, trimmed(value)),
        (forall|i: int| 0 <= i < value.len() ==> value[i] != ':') ==> header_pair(value) == (
            value,
            Seq::<char>::empty(),
        ),
{
    let s = name + seq![':'] + value;
    let n = name.len() as int;
    assert(is_first_colon(s, n));
    let k = choose|k: int| is_first_colon(s, k);
    assert(k == n);
    assert(s.subrange(0, n) =~= name);
    assert(s.subrange(n + 1, s.len() as int) =~= value);
}

/// Splits a raw header entry into its name and its trimmed value.
pub fn split_header(h: &str) -> (r: (String, String))
    ensures
        r.0@ == header_pair(h@).0,
        r.1@ == header_pair(h@).1,
{
    let n = h.unicode_len();
    let mut i: usize = 0;
    while i < n
        invariant
            n == h@.len(),
            i <= n,
            forall|j: int| 0 <= j < i ==> h@[j] != ':',
        decreases n - i,
    {
        if h.get_char(i) == ':' {
            let name = h.substring_char(0, i);
            let rest = h.substring_char(i + 1, n);
            let value = trim_text(rest);
            proof {
                assert(is_first_colon(h@, i as int));
                let k = choose|k: int| is_first_colon(h@, k);
                assert(k == i as int);
            }
            return (String::from_str(name), String::from_str(value));
        }
        i += 1;
    }
    (String::from_str(h), String::new())
}

/// `s` spells the name whose lower-case letters are `lower` and upper-case
/// letters `upper`, each letter in either case.
pub open spec fn same_name(s: Seq<char>, lower: Seq<char>, upper: Seq<char>) -> bool {
    s.len() == lower.len() && forall|i: int| 0 <= i < s.len() ==> s[i] == lower[i] || s[i] == upper[i]
}

/// Compares a name against one spelled `lower` / `upper`, ignoring case.
pub fn is_name(s: &str, lower: &str, upper: &str) -> (r: bool)
    requires
        lower@.len() == upper@.len(),
    ensures
        r == same_name(s@, lower@, upper@),
{
    let n = lower.unicode_len();
    if s.unicode_len() != n {
        return false;
    }
    let mut i: usize = 0;
    while i < n
        invariant
            n == lower@.len(),
            n == upper@.len(),
            n == s@.len(),
            forall|j: int| 0 <= j < i ==> s@[j] == lower@[j] || s@[j] == upper@[j],
        decreases n - i,
    {
        let c = s.get_char(i);
        if c != lower.get_char(i) && c != upper.get_char(i) {
            return false;
        }
        i += 1;
    }
    true
}

/// The path that an `@file` argument refers to, or `None` for a literal
/// argument.
pub open spec fn file_reference_of(s: Seq<char>) -> Option<Seq<char>> {
    if s.len() > 0 && s[0] == '@' {
        Some(s.drop_first())
    } else {
        None
    }
}

/// The file named by an argument of the form `@path`, or `None` when the
/// argument is a literal value.
pub fn file_reference(arg: &str) -> (r: Option<String>)
    ensures
        match file_reference_of(arg@) {
            Some(p) => r is Some && r->0@ == p,
            None => r is None,
        },
{
    let n = arg.unicode_len();
    if n > 0 && arg.get_char(0) == '@' {
        Some(String::from_str(arg.substring_char(1, n)))
    } else {
        None
    }
}

/// `s` holds `://` at position `i`.
pub open spec fn separator_at(s: Seq<char>, i: int) -> bool {
    0 <= i && i + 3 <= s.len() && s[i] == ':' && s[i + 1] == '/' && s[i + 2] == '/'
}

/// `s` holds `://` somewhere.
pub open spec fn has_scheme_separator(s: Seq<char>) -> bool {
    exists|i: int| #[trigger] separator_at(s, i)
}

/// The URL that is requested for a target: as given when it names a scheme,
/// else with `http://` in front.
pub open spec fn normalized_url(s: Seq<char>) -> Seq<char> {
    if has_scheme_separator(s) {
        s
    } else {
        seq!['h', 't', 't', 'p', ':', '/', '/'] + s
    }
}

/// Prefixes `http://` to a URL that names no scheme.
pub fn normalize_url(url: &str) -> (r: String)
    ensures
        r@ == normalized_url(url@),
{
    let n = url.unicode_len();
    let mut i: usize = 0;
    while n >= 3 && i <= n - 3
        invariant
            n == url@.len(),
            i <= n,
            forall|j: int| 0 <= j < i ==> !#[trigger] separator_at(url@, j),
        decreases n - i,
    {
        if url.get_char(i) == ':' && url.get_char(i + 1) == '/' && url.get_char(i + 2) == '/' {
            proof {
                assert(separator_at(url@, i as int));
            }
            return String::from_str(url);
        }
        i += 1;
    }
    proof {
        assert forall|j: int| !#[trigger] separator_at(url@, j) by {
            if 0 <= j && j + 3 <= n {
                assert(j < i);
            }
        }
    }
    let mut r = String::from_str("http://");
    r.append(url);
    proof {
        reveal_strlit("http://");
        assert("http://"@ =~= seq!['h', 't', 't', 'p', ':', '/', '/']);
    }
    r
}

} // verus!

//! The parts of the self-diagnosis that compute: what to resolve for an
//! endpoint, and whether the mode of the credentials file is safe.

use crate::text::{
    chars_of, decimal_digits, find_char_from, find_chars, first_index_of, first_occurrence,
    last_index_of, lemma_last_index_of, push_chars, push_decimal,
    rfind_char, slice_chars, string_of, trim_chars, trimmed,
};
use vstd::prelude::*;

verus! {

/// The outcome of one check.
#[derive(Clone, Copy, Debug, PartialEq, Eq, Structural)]
pub enum CheckStatus {
    Pass,
    Warn,
    Fail,
}

impl CheckStatus {
    /// The marker that the report shows for the outcome.
    #[must_use]
    pub fn marker(self) -> (r: &'static str)
        ensures
            r@ == match self {
                CheckStatus::Pass => "PASS"@,
                CheckStatus::Warn => "WARN"@,
                CheckStatus::Fail => "FAIL"@,
            },
    {
        match self {
            CheckStatus::Pass => "PASS",
            CheckStatus::Warn => "WARN",
            CheckStatus::Fail => "FAIL",
        }
    }
}

/// One line of the report.
#[derive(Debug)]
pub struct CheckItem {
    pub name: &'static str,
    pub status: CheckStatus,
    pub detail: String,
}

impl CheckItem {
    #[must_use]
    pub fn pass(name: &'static str, detail: String) -> (r: Self)
        ensures
            r.name@ == name@,
            r.status == CheckStatus::Pass,
            r.detail@ == detail@,
    {
        CheckItem { name, status: CheckStatus::Pass, detail }
    }

    #[must_use]
    pub fn warn(name: &'static str, detail: String) -> (r: Self)
        ensures
            r.name@ == name@,
            r.status == CheckStatus::Warn,
            r.detail@ == detail@,
    {
        CheckItem { name, status: CheckStatus::Warn, detail }
    }

    #[must_use]
    pub fn fail(name: &'static str, detail: String) -> (r: Self)
        ensures
            r.name@ == name@,
            r.status == CheckStatus::Fail,
            r.detail@ == detail@,
    {
        CheckItem { name, status: CheckStatus::Fail, detail }
    }
}

/// The exit code of a report: 2 where a check failed, else 0.
pub fn exit_code(checks: &Vec<CheckItem>) -> (r: i32)
    ensures
        r == if exists|i: int| 0 <= i < checks@.len() && checks@[i].status == CheckStatus::Fail {
            2i32
        } else {
            0i32
        },
{
    let mut i: usize = 0;
    while i < checks.len()
        invariant
            i <= checks.len(),
            forall|j: int| 0 <= j < i ==> checks@[j].status != CheckStatus::Fail,
        decreases checks.len() - i,
    {
        if checks[i].status == CheckStatus::Fail {
            return 2;
        }
        i = i + 1;
    }
    0
}

/// Whether a report holds a warning.
pub fn has_warning(checks: &Vec<CheckItem>) -> (r: bool)
    ensures
        r == exists|i: int| 0 <= i < checks@.len() && checks@[i].status == CheckStatus::Warn,
{
    let mut i: usize = 0;
    while i < checks.len()
        invariant
            i <= checks.len(),
            forall|j: int| 0 <= j < i ==> checks@[j].status != CheckStatus::Warn,
        decreases checks.len() - i,
    {
        if checks[i].status == CheckStatus::Warn {
            return true;
        }
        i = i + 1;
    }
    false
}

/// Whether a file with these permission bits is closed to group and others.
pub fn env_mode_is_secure(mode: u32) -> (r: bool)
    ensures
        r == (mode & 0o077 == 0),
{
    (mode & 0o077) == 0
}

/// The mark between the scheme of an endpoint and the rest.
pub open spec fn scheme_mark() -> Seq<char> {
    seq![':', '/', '/']
}

/// An endpoint without its scheme: what follows the first `://`, or all of it.
pub open spec fn without_scheme(s: Seq<char>) -> Seq<char> {
    let at = first_occurrence(s, scheme_mark());
    if at < 0 {
        s
    } else {
        s.skip(at + 3)
    }
}

/// The authority of an endpoint without scheme: what stands before the first
/// `/`, and within that after the last `@`.
pub open spec fn authority_of(s: Seq<char>) -> Seq<char> {
    let head = s.take(first_index_of(s, '/'));
    head.skip(last_index_of(head, '@') + 1)
}

/// Host and port of an authority. A bracketed host keeps its brackets. The port
/// is the authority's own where it names one, else `default_port`. `None` for an
/// empty authority and for a bracket that is not closed.
pub open spec fn host_port(authority: Seq<char>, default_port: u16) -> Option<Seq<char>> {
    if authority.len() == 0 {
        None
    } else if authority[0] == '[' {
        let end = first_index_of(authority, ']');
        if end >= authority.len() {
            None
        } else {
            let host = authority.take(end + 1);
            let rest = authority.skip(end + 1);
            if rest.len() > 0 && rest[0] == ':' {
                Some(authority)
            } else {
                Some(host + seq![':'] + decimal_digits(default_port as nat))
            }
        }
    } else if first_index_of(authority, ':') < authority.len() {
        Some(authority)
    } else {
        Some(authority + seq![':'] + decimal_digits(default_port as nat))
    }
}

/// What to resolve for an endpoint given as a URL or as `host[:port]`:
/// `host:port`, with `default_port` where the endpoint names none. `None` for a
/// blank endpoint and for one without a host.
pub open spec fn endpoint_target(raw: Seq<char>, default_port: u16) -> Option<Seq<char>> {
    let t = trimmed(raw);
    if t.len() == 0 {
        None
    } else {
        host_port(authority_of(without_scheme(t)), default_port)
    }
}

/// What to resolve for an endpoint: `host:port`.
pub fn endpoint_to_host_port(raw: &str, default_port: u16) -> (r: Option<String>)
    ensures
        match r {
            Some(target) => endpoint_target(raw@, default_port) == Some(target@),
            None => endpoint_target(raw@, default_port) is None,
        },
{
    let t = trim_chars(&chars_of(raw));
    if t.len() == 0 {
        return None;
    }
    let mark: Vec<char> = vec![':', '/', '/'];
    assert(mark@ =~= scheme_mark());
    let rest = match find_chars(&t, &mark) {
        Some(at) => {
            proof {
                lemma_find_in_range(t@, mark@, 0);
            }
            slice_chars(&t, at + 3, t.len())
        },
        None => t,
    };
    let slash = find_char_from(&rest, 0, '/');
    assert(rest@.skip(0) =~= rest@);
    let head = slice_chars(&rest, 0, slash);
    proof {
        lemma_last_index_of(head@, '@');
    }
    let authority = match rfind_char(&head, '@') {
        Some(at) => slice_chars(&head, at + 1, head.len()),
        None => {
            assert(head@.skip(0) =~= head@);
            head
        },
    };
    if authority.len() == 0 {
        return None;
    }
    assert(authority@.skip(0) =~= authority@);
    let mut out: Vec<char> = Vec::new();
    if authority[0] == '[' {
        let end = find_char_from(&authority, 0, ']');
        if end >= authority.len() {
            return None;
        }
        if end + 1 < authority.len() && authority[end + 1] == ':' {
            return Some(string_of(&authority));
        }
        let host = slice_chars(&authority, 0, end + 1);
        push_chars(&mut out, &host);
        out.push(':');
        push_decimal(&mut out, default_port as u64);
        assert(out@ =~= host@ + seq![':'] + decimal_digits(default_port as nat));
        return Some(string_of(&out));
    }
    let colon = find_char_from(&authority, 0, ':');
    if colon < authority.len() {
        return Some(string_of(&authority));
    }
    push_chars(&mut out, &authority);
    out.push(':');
    push_decimal(&mut out, default_port as u64);
    assert(out@ =~= authority@ + seq![':'] + decimal_digits(default_port as nat));
    Some(string_of(&out))
}

/// Where `needle` is found, it lies within `hay`.
pub proof fn lemma_find_in_range(hay: Seq<char>, needle: Seq<char>, from: int)
    requires
        0 <= from,
    ensures
        crate::text::find_from(hay, needle, from) >= 0 ==> from <= crate::text::find_from(
            hay,
            needle,
            from,
        ) && crate::text::find_from(hay, needle, from) + needle.len() <= hay.len(),
    decreases hay.len() - from,
{
    if from + needle.len() <= hay.len() && !crate::text::occurs_at(hay, needle, from) && from
        < hay.len() {
        lemma_find_in_range(hay, needle, from + 1);
    }
}

} // verus!

//! Git URLs: normalisation to https form, parsing into components, and security checks.
use crate::ip::{is_private_ip, is_private_ip_spec, sub_vec};
use crate::path::last_segment;
use crate::text::{
    chars_of, chars_to_string, contains, ends_with, find_from, first_occurrence_from, has_char,
    is_control, is_control_exec, lowercase_of, occurs_at, occurs_at_exec, owned, starts_with,
    str_contains, str_ends_with, str_eq, str_starts_with, str_trim, substring, to_lowercase, trim,
    vec_contains, char_to_string,
};
use vstd::prelude::*;

verus! {

broadcast use vstd::seq::group_seq_axioms;

/// Errors of Git URL handling.
#[derive(Debug, Clone, PartialEq, Eq)]
pub enum GitUrlError {
    InvalidFormat(String),
    UnsupportedScheme(String),
    MissingHost,
    MissingRepoPath,
    MaliciousUrl(String),
    UrlInjectionAttempt(String),
    BlockedDomain(String),
    InvalidCharacters(String),
}

/// The kind of a Git URL error.
#[derive(Debug, Clone, Copy, PartialEq, Eq, Structural)]
pub enum GitUrlErrorKind {
    InvalidFormat,
    UnsupportedScheme,
    MissingHost,
    MissingRepoPath,
    MaliciousUrl,
    UrlInjectionAttempt,
    BlockedDomain,
    InvalidCharacters,
}

/// An error as a kind and the text it carries (empty for the kinds without text).
pub type ErrDesc = (GitUrlErrorKind, Seq<char>);

/// The kind and text of an error.
pub open spec fn describe(e: GitUrlError) -> ErrDesc {
    match e {
        GitUrlError::InvalidFormat(m) => (GitUrlErrorKind::InvalidFormat, m@),
        GitUrlError::UnsupportedScheme(m) => (GitUrlErrorKind::UnsupportedScheme, m@),
        GitUrlError::MissingHost => (GitUrlErrorKind::MissingHost, Seq::empty()),
        GitUrlError::MissingRepoPath => (GitUrlErrorKind::MissingRepoPath, Seq::empty()),
        GitUrlError::MaliciousUrl(m) => (GitUrlErrorKind::MaliciousUrl, m@),
        GitUrlError::UrlInjectionAttempt(m) => (GitUrlErrorKind::UrlInjectionAttempt, m@),
        GitUrlError::BlockedDomain(m) => (GitUrlErrorKind::BlockedDomain, m@),
        GitUrlError::InvalidCharacters(m) => (GitUrlErrorKind::InvalidCharacters, m@),
    }
}

/// The outcome of a check: `Ok` or the description of its error.
pub open spec fn outcome_ok(r: Result<(), GitUrlError>, spec: Option<ErrDesc>) -> bool {
    match r {
        Ok(()) => spec is None,
        Err(e) => spec == Some(describe(e)),
    }
}

impl GitUrlError {
    /// The message of the error (its `Display` text).
    pub fn to_string(&self) -> (r: String)
        ensures
            r@ == error_message(*self),
    {
        match self {
            GitUrlError::InvalidFormat(m) => prefixed("Invalid URL format: ", m.as_str()),
            GitUrlError::UnsupportedScheme(m) => prefixed("Unsupported URL scheme: ", m.as_str()),
            GitUrlError::MissingHost => owned("Missing host in URL"),
            GitUrlError::MissingRepoPath => owned("Missing repository path"),
            GitUrlError::MaliciousUrl(m) => prefixed("Malicious URL detected: ", m.as_str()),
            GitUrlError::UrlInjectionAttempt(m) => prefixed("URL injection attempt detected: ", m.as_str()),
            GitUrlError::BlockedDomain(m) => prefixed("Blocked domain: ", m.as_str()),
            GitUrlError::InvalidCharacters(m) => prefixed("Invalid characters in URL: ", m.as_str()),
        }
    }
}

/// The `Display` text of an error.
pub open spec fn error_message(e: GitUrlError) -> Seq<char> {
    match e {
        GitUrlError::InvalidFormat(m) => "Invalid URL format: "@ + m@,
        GitUrlError::UnsupportedScheme(m) => "Unsupported URL scheme: "@ + m@,
        GitUrlError::MissingHost => "Missing host in URL"@,
        GitUrlError::MissingRepoPath => "Missing repository path"@,
        GitUrlError::MaliciousUrl(m) => "Malicious URL detected: "@ + m@,
        GitUrlError::UrlInjectionAttempt(m) => "URL injection attempt detected: "@ + m@,
        GitUrlError::BlockedDomain(m) => "Blocked domain: "@ + m@,
        GitUrlError::InvalidCharacters(m) => "Invalid characters in URL: "@ + m@,
    }
}

/// `a` followed by `b`.
pub fn prefixed(a: &str, b: &str) -> (r: String)
    ensures
        r@ == a@ + b@,
{
    let mut r = owned(a);
    r.append(b);
    r
}

/// The patterns whose presence in a lowercased URL marks an injection attempt, in the
/// order they are checked.
pub open spec fn injection_patterns_spec() -> Seq<Seq<char>> {
    seq![
        "javascript:"@, "data:"@, "vbscript:"@, "file:"@, "about:"@, "chrome:"@, "resource:"@,
        "moz-extension:"@, "chrome-extension:"@, "\\x"@, "\\u"@, "%00"@, "\0"@, "\r"@, "\n"@,
        "../"@, "..\\"@, "\\\\"@, "<"@, ">"@, "\""@, "'"@, "`"@, "{"@, "}"@, "eval("@,
        "javascript:"@, "onload="@, "onerror="@,
    ]
}

/// The injection patterns.
pub fn injection_patterns() -> (r: Vec<&'static str>)
    ensures
        r@.map_values(|p: &str| p@) == injection_patterns_spec(),
{
    let mut v: Vec<&'static str> = Vec::new();
    v.push("javascript:");
    v.push("data:");
    v.push("vbscript:");
    v.push("file:");
    v.push("about:");
    v.push("chrome:");
    v.push("resource:");
    v.push("moz-extension:");
    v.push("chrome-extension:");
    v.push("\\x");
    v.push("\\u");
    v.push("%00");
    v.push("\0");
    v.push("\r");
    v.push("\n");
    v.push("../");
    v.push("..\\");
    v.push("\\\\");
    v.push("<");
    v.push(">");
    v.push("\"");
    v.push("'");
    v.push("`");
    v.push("{");
    v.push("}");
    v.push("eval(");
    v.push("javascript:");
    v.push("onload=");
    v.push("onerror=");
    assert(v@.map_values(|p: &str| p@) =~= injection_patterns_spec());
    v
}

/// The first pattern, in list order, that occurs in `s`.
pub open spec fn first_pattern_in(s: Seq<char>, pats: Seq<Seq<char>>) -> Option<Seq<char>>
    decreases pats.len(),
{
    if pats.len() == 0 {
        None
    } else if contains(s, pats[0]) {
        Some(pats[0])
    } else {
        first_pattern_in(s, pats.drop_first())
    }
}

/// A `//` occurs after the first `://` of `s`.
pub open spec fn double_slash_after_scheme(s: Seq<char>) -> bool {
    exists|i: int| first_occurrence_from(s, "://"@, 0, i) && contains(s.subrange(i + 3, s.len() as int), "//"@)
}

/// The first character of `s` that is a control character other than tab.
pub open spec fn first_bad_control(s: Seq<char>) -> Option<char>
    decreases s.len(),
{
    if s.len() == 0 {
        None
    } else if is_control(s[0]) && s[0] != '\t' {
        Some(s[0])
    } else {
        first_bad_control(s.drop_first())
    }
}

/// A lowercase hexadecimal digit.
pub open spec fn hex_digit_char(d: int) -> char {
    if d < 10 {
        ('0' as int + d) as char
    } else {
        ('a' as int + d - 10) as char
    }
}

/// The lowercase hexadecimal digits of `n`, without leading zeros.
pub open spec fn hex_digits(n: nat) -> Seq<char>
    decreases n,
{
    if n < 16 {
        seq![hex_digit_char(n as int)]
    } else {
        hex_digits(n / 16).push(hex_digit_char((n % 16) as int))
    }
}

/// The `Debug` text of a control character: a quoted escape.
pub open spec fn control_debug(c: char) -> Seq<char> {
    let body = if c == '\0' {
        "\\0"@
    } else if c == '\t' {
        "\\t"@
    } else if c == '\r' {
        "\\r"@
    } else if c == '\n' {
        "\\n"@
    } else {
        "\\u{"@ + hex_digits(c as nat) + "}"@
    };
    "'"@ + body + "'"@
}

/// A character that ends the authority of a URL: `/`, `?` or `#`.
pub open spec fn ends_authority(c: char) -> bool {
    c == '/' || c == '?' || c == '#'
}

/// The index of the first character of `s` that ends an authority, or its length.
pub open spec fn authority_end(s: Seq<char>) -> nat
    decreases s.len(),
{
    if s.len() == 0 || ends_authority(s[0]) {
        0
    } else {
        1 + authority_end(s.drop_first())
    }
}

/// The text after the last `@` of `a`, or all of `a` without one.
pub open spec fn after_last_at(a: Seq<char>) -> Seq<char>
    decreases a.len(),
{
    if a.len() == 0 {
        a
    } else if a.last() == '@' {
        Seq::empty()
    } else {
        after_last_at(a.drop_last()).push(a.last())
    }
}

/// The host of a URL written with a scheme, as written: in the authority (the text
/// after the first `://` up to the next `/`, `?` or `#`), the part after its user
/// information (after the last `@`); none without `://`.
pub open spec fn scheme_host_spec(t: Seq<char>) -> Option<Seq<char>> {
    if exists|i: int| first_occurrence_from(t, "://"@, 0, i) {
        let i = choose|i: int| first_occurrence_from(t, "://"@, 0, i);
        let rest = t.subrange(i + 3, t.len() as int);
        Some(after_last_at(rest.subrange(0, authority_end(rest) as int)))
    } else {
        None
    }
}

proof fn lemma_authority_end(s: Seq<char>, i: int)
    requires
        0 <= i <= s.len(),
        forall|j: int| 0 <= j < i ==> !ends_authority(s[j]),
        i < s.len() ==> ends_authority(s[i]),
    ensures
        authority_end(s) == i,
    decreases s.len(),
{
    if s.len() > 0 && i > 0 {
        lemma_authority_end(s.drop_first(), i - 1);
    }
}

/// `after_last_at` of `a` is what follows the `@` at `k`, when no later `@` exists, or
/// all of `a` when there is none.
proof fn lemma_after_last_at(a: Seq<char>, k: int)
    requires
        -1 <= k < a.len(),
        k >= 0 ==> a[k] == '@',
        forall|j: int| k < j < a.len() ==> a[j] != '@',
    ensures
        after_last_at(a) == a.subrange(k + 1, a.len() as int),
    decreases a.len(),
{
    if a.len() > 0 && a.last() != '@' {
        lemma_after_last_at(a.drop_last(), k);
        assert(a.drop_last().subrange(k + 1, a.len() - 1).push(a.last()) =~= a.subrange(k + 1, a.len() as int));
    } else if a.len() > 0 {
        assert(k == a.len() - 1);
        assert(a.subrange(k + 1, a.len() as int) =~= Seq::<char>::empty());
    } else {
        assert(a.subrange(k + 1, a.len() as int) =~= a);
    }
}

/// The host of a URL written with a scheme (see `scheme_host_spec`).
pub fn scheme_host(t: &str) -> (r: Option<String>)
    ensures
        match r {
            Some(h) => scheme_host_spec(t@) == Some(h@),
            None => scheme_host_spec(t@) is None,
        },
{
    let tv = chars_of(t);
    let mut sep: Vec<char> = Vec::new();
    sep.push(':');
    sep.push('/');
    sep.push('/');
    proof {
        reveal_strlit("://");
        assert(sep@ =~= "://"@);
    }
    match find_from(&tv, &sep, 0) {
        None => None,
        Some(i) => {
            let n = tv.len();
            let start = i + 3;
            let ghost rest = tv@.subrange(start as int, n as int);
            let mut k: usize = start;
            while k < n && tv[k] != '/' && tv[k] != '?' && tv[k] != '#'
                invariant
                    start <= k <= n,
                    n == tv@.len(),
                    rest == tv@.subrange(start as int, n as int),
                    forall|j: int| start <= j < k ==> !ends_authority(tv@[j]),
                decreases n - k,
            {
                k = k + 1;
            }
            let mut h_start: usize = start;
            let mut q: usize = start;
            while q < k
                invariant
                    start <= h_start <= q <= k,
                    k <= n,
                    n == tv@.len(),
                    h_start > start ==> tv@[h_start - 1] == '@',
                    forall|j: int| h_start <= j < q ==> tv@[j] != '@',
                decreases k - q,
            {
                if tv[q] == '@' {
                    h_start = q + 1;
                }
                q = q + 1;
            }
            proof {
                lemma_authority_end(rest, k - start);
                let c = choose|c: int| first_occurrence_from(t@, "://"@, 0, c);
                if c < i {
                    assert(!occurs_at(t@, "://"@, c));
                }
                if i < c {
                    assert(!occurs_at(t@, "://"@, i as int));
                }
                assert(c == i);
                let auth = rest.subrange(0, k - start);
                assert forall|j: int| (h_start - start) - 1 < j < auth.len() implies auth[j] != '@' by {
                    assert(auth[j] == tv@[start + j]);
                }
                if h_start > start {
                    assert(auth[h_start - start - 1] == tv@[h_start - 1]);
                }
                lemma_after_last_at(auth, h_start - start - 1);
            }
            let h = substring(t, h_start, k);
            assert(h@ =~= after_last_at(rest.subrange(0, k - start)));
            Some(h)
        },
    }
}

/// The error of the injection check of a lowercased URL, if any: the first injection
/// pattern it holds, else a `//` after its scheme.
pub open spec fn pattern_error(lower: Seq<char>) -> Option<ErrDesc> {
    match first_pattern_in(lower, injection_patterns_spec()) {
        Some(p) => Some((GitUrlErrorKind::UrlInjectionAttempt, "Detected suspicious pattern: "@ + p)),
        None => if double_slash_after_scheme(lower) {
            Some((GitUrlErrorKind::UrlInjectionAttempt, "Detected suspicious pattern: // outside of scheme"@))
        } else {
            None
        },
    }
}

/// The error of the security check of a raw URL, if any: empty after trimming, longer
/// than 2048 bytes, holding a control character other than tab, a host after its
/// scheme that fails the host check, an injection pattern (case-insensitively), or a
/// `//` after the scheme, checked in that order.
pub open spec fn security_error(url: Seq<char>) -> Option<ErrDesc> {
    let t = trim(url);
    if t.len() == 0 {
        Some((GitUrlErrorKind::InvalidFormat, "Empty URL"@))
    } else if vstd::utf8::encode_utf8(t).len() > 2048 {
        Some((GitUrlErrorKind::MaliciousUrl, "URL too long"@))
    } else {
        let lower = lowercase_of(t);
        match first_bad_control(t) {
            Some(c) => Some((GitUrlErrorKind::InvalidCharacters, "Control character detected: "@ + control_debug(c))),
            None => match (match scheme_host_spec(t) {
                Some(h) => host_error(h),
                None => None,
            }) {
                Some(e) => Some(e),
                None => pattern_error(lower),
            },
        }
    }
}

/// The lowercase hexadecimal text of a number.
pub fn hex_string(n: u32) -> (r: String)
    ensures
        r@ == hex_digits(n as nat),
    decreases n,
{
    let d = n % 16;
    let digit: char = if d < 10 {
        (('0' as u8) + (d as u8)) as char
    } else {
        (('a' as u8) + (d as u8) - 10) as char
    };
    assert(digit == hex_digit_char(d as int));
    if n < 16 {
        char_to_string(digit)
    } else {
        let mut r = hex_string(n / 16);
        let tail = char_to_string(digit);
        r.append(tail.as_str());
        r
    }
}

/// The `Debug` text of a control character.
pub fn control_debug_string(c: char) -> (r: String)
    ensures
        r@ == control_debug(c),
{
    let mut r = owned("'");
    if c == '\0' {
        r.append("\\0");
    } else if c == '\t' {
        r.append("\\t");
    } else if c == '\r' {
        r.append("\\r");
    } else if c == '\n' {
        r.append("\\n");
    } else {
        r.append("\\u{");
        let h = hex_string(c as u32);
        r.append(h.as_str());
        r.append("}");
    }
    r.append("'");
    r
}

/// The security check of a raw URL (see `security_error`).
pub fn validate_security(url: &str) -> (r: Result<(), GitUrlError>)
    ensures
        outcome_ok(r, security_error(url@)),
{
    let trimmed = str_trim(url);
    let t = trimmed.as_str();
    if t.unicode_len() == 0 {
        return Err(GitUrlError::InvalidFormat(owned("Empty URL")));
    }
    if t.as_bytes().len() > 2048 {
        return Err(GitUrlError::MaliciousUrl(owned("URL too long")));
    }
    let tv = chars_of(t);
    let mut q: usize = 0;
    assert(tv@.subrange(0, tv@.len() as int) =~= tv@);
    while q < tv.len()
        invariant
            q <= tv@.len(),
            tv@ == trim(url@),
            tv@.len() != 0,
            vstd::utf8::encode_utf8(tv@).len() <= 2048,
            first_bad_control(tv@) == first_bad_control(tv@.subrange(q as int, tv@.len() as int)),
        decreases tv.len() - q,
    {
        let ghost rest = tv@.subrange(q as int, tv@.len() as int);
        assert(rest[0] == tv@[q as int]);
        let ch = tv[q];
        if is_control_exec(ch) && ch != '\t' {
            let d = control_debug_string(ch);
            let mut m = owned("Control character detected: ");
            m.append(d.as_str());
            return Err(GitUrlError::InvalidCharacters(m));
        }
        assert(rest.drop_first() =~= tv@.subrange(q + 1, tv@.len() as int));
        q = q + 1;
    }
    match scheme_host(t) {
        Some(h) => {
            match validate_host_security(h.as_str()) {
                Err(e) => {
                    return Err(e);
                },
                Ok(()) => {},
            }
        },
        None => {},
    }
    let lower = to_lowercase(t);
    let r = check_injection_patterns(lower.as_str());
    r
}

/// The injection check of a URL already lowercased (see `pattern_error`).
pub fn check_injection_patterns(lowered: &str) -> (r: Result<(), GitUrlError>)
    ensures
        outcome_ok(r, pattern_error(lowered@)),
{
    let lv = chars_of(lowered);
    let pats = injection_patterns();
    let ghost ps = injection_patterns_spec();
    let mut i: usize = 0;
    assert(ps.subrange(0, ps.len() as int) =~= ps);
    while i < pats.len()
        invariant
            i <= pats@.len(),
            pats@.map_values(|p: &str| p@) == ps,
            ps == injection_patterns_spec(),
            lv@ == lowered@,
            first_pattern_in(lv@, ps) == first_pattern_in(lv@, ps.subrange(i as int, ps.len() as int)),
        decreases pats.len() - i,
    {
        let ghost rest = ps.subrange(i as int, ps.len() as int);
        assert(rest[0] == pats@[i as int]@);
        let pv = chars_of(pats[i]);
        if vec_contains(&lv, &pv) {
            let mut m = owned("Detected suspicious pattern: ");
            m.append(pats[i]);
            assert(first_pattern_in(lv@, rest) == Some(rest[0]));
            return Err(GitUrlError::UrlInjectionAttempt(m));
        }
        assert(rest.drop_first() =~= ps.subrange(i + 1, ps.len() as int));
        i = i + 1;
    }
    let mut sep: Vec<char> = Vec::new();
    sep.push(':');
    sep.push('/');
    sep.push('/');
    let mut dbl: Vec<char> = Vec::new();
    dbl.push('/');
    dbl.push('/');
    proof {
        reveal_strlit("://");
        reveal_strlit("//");
        assert(sep@ =~= "://"@);
        assert(dbl@ =~= "//"@);
    }
    match find_from(&lv, &sep, 0) {
        Some(k) => {
            let n = lv.len();
            assert(k + 3 <= n);
            let after = sub_vec(&lv, k + 3, n);
            if vec_contains(&after, &dbl) {
                return Err(GitUrlError::UrlInjectionAttempt(owned("Detected suspicious pattern: // outside of scheme")));
            }
            proof {
                assert forall|j: int| first_occurrence_from(lv@, "://"@, 0, j) implies !contains(lv@.subrange(j + 3, lv@.len() as int), "//"@) by {
                    if j < k {
                        assert(!occurs_at(lv@, "://"@, j));
                    }
                    if k < j {
                        assert(!occurs_at(lv@, "://"@, k as int));
                    }
                }
            }
        },
        None => {},
    }
    Ok(())
}

/// `s` without a trailing `.git`.
pub open spec fn strip_git(s: Seq<char>) -> Seq<char> {
    if ends_with(s, ".git"@) {
        s.subrange(0, s.len() - 4)
    } else {
        s
    }
}

/// `s` with every occurrence of `from` replaced by `to`, scanning left to right
/// (`str::replace`).
pub open spec fn replace_all(s: Seq<char>, from: Seq<char>, to: Seq<char>) -> Seq<char>
    decreases s.len(),
{
    if s.len() == 0 || from.len() == 0 {
        s
    } else if starts_with(s, from) {
        to + replace_all(s.subrange(from.len() as int, s.len() as int), from, to)
    } else {
        seq![s[0]] + replace_all(s.drop_first(), from, to)
    }
}

/// The first ':' of `s` is at index `p`.
pub open spec fn first_colon(s: Seq<char>, p: int) -> bool {
    0 <= p < s.len() && s[p] == ':' && forall|j: int| 0 <= j < p ==> s[j] != ':'
}

/// The host and path of a URL of the form `git@HOST:PATH` (`^git@([^:]+):(.+)$`): a
/// non-empty host up to the first ':', and a non-empty path without line feeds.
pub open spec fn ssh_form(t: Seq<char>) -> Option<(Seq<char>, Seq<char>)> {
    if starts_with(t, "git@"@) && exists|p: int| first_colon(t, p) {
        let p = choose|p: int| first_colon(t, p);
        let host = t.subrange(4, p);
        let path = t.subrange(p + 1, t.len() as int);
        if host.len() > 0 && path.len() > 0 && !has_char(path, '\n') {
            Some((host, path))
        } else {
            None
        }
    } else {
        None
    }
}

/// The normalised form of a URL: SSH form rewritten to https without `.git`; https and
/// http URLs without `.git`; `git://` rewritten to `https://`; anything else is an error.
pub open spec fn normalize_spec(url: Seq<char>) -> Result<Seq<char>, ErrDesc> {
    let t = trim(url);
    match ssh_form(t) {
        Some((h, p)) => Ok("https://"@ + h + "/"@ + strip_git(p)),
        None => {
            let w = strip_git(t);
            if starts_with(w, "https://"@) || starts_with(w, "http://"@) {
                Ok(w)
            } else if starts_with(w, "git://"@) {
                Ok(replace_all(w, "git://"@, "https://"@))
            } else {
                Err((GitUrlErrorKind::InvalidFormat, url))
            }
        },
    }
}

/// `s` with every occurrence of `from` replaced by `to`.
pub fn replace_all_exec(s: &str, from: &str, to: &str) -> (r: String)
    ensures
        r@ == replace_all(s@, from@, to@),
{
    let sv = chars_of(s);
    let fv = chars_of(from);
    let tv = chars_of(to);
    if fv.len() == 0 {
        return owned(s);
    }
    let mut out: Vec<char> = Vec::new();
    let mut i: usize = 0;
    assert(sv@.subrange(0, sv@.len() as int) =~= sv@);
    while i < sv.len()
        invariant
            i <= sv@.len(),
            fv@.len() > 0,
            out@ + replace_all(sv@.subrange(i as int, sv@.len() as int), fv@, tv@) == replace_all(sv@, fv@, tv@),
        decreases sv.len() - i,
    {
        let ghost rest = sv@.subrange(i as int, sv@.len() as int);
        if occurs_at_exec(&sv, &fv, i) {
            proof {
                assert(rest.subrange(0, fv@.len() as int) =~= sv@.subrange(i as int, i + fv@.len()));
                assert(rest.subrange(fv@.len() as int, rest.len() as int) =~= sv@.subrange(i + fv@.len(), sv@.len() as int));
            }
            let ghost before = out@;
            let mut k: usize = 0;
            while k < tv.len()
                invariant
                    k <= tv@.len(),
                    out@ == before + tv@.subrange(0, k as int),
                decreases tv.len() - k,
            {
                out.push(tv[k]);
                k = k + 1;
                assert(out@ =~= before + tv@.subrange(0, k as int));
            }
            assert(tv@.subrange(0, tv@.len() as int) =~= tv@);
            assert(before + (tv@ + replace_all(sv@.subrange(i + fv@.len(), sv@.len() as int), fv@, tv@)) =~= out@ + replace_all(sv@.subrange(i + fv@.len(), sv@.len() as int), fv@, tv@));
            i = i + fv.len();
        } else {
            proof {
                if starts_with(rest, fv@) {
                    assert(rest.subrange(0, fv@.len() as int) =~= sv@.subrange(i as int, i + fv@.len()));
                }
                assert(rest.drop_first() =~= sv@.subrange(i + 1, sv@.len() as int));
                assert(rest[0] == sv@[i as int]);
            }
            let ghost before = out@;
            out.push(sv[i]);
            assert(before + (seq![sv@[i as int]] + replace_all(sv@.subrange(i + 1, sv@.len() as int), fv@, tv@)) =~= out@ + replace_all(sv@.subrange(i + 1, sv@.len() as int), fv@, tv@));
            i = i + 1;
        }
    }
    assert(out@ + Seq::<char>::empty() =~= out@);
    chars_to_string(&out)
}

/// `s` without a trailing `.git`.
pub fn strip_git_exec(s: &str) -> (r: String)
    ensures
        r@ == strip_git(s@),
{
    if str_ends_with(s, ".git") {
        proof {
            reveal_strlit(".git");
        }
        let n = s.unicode_len();
        substring(s, 0, n - 4)
    } else {
        owned(s)
    }
}

/// The normalised form of a URL (see `normalize_spec`).
pub fn normalize_url(url: &str) -> (r: Result<String, GitUrlError>)
    ensures
        match r {
            Ok(s) => normalize_spec(url@) == Ok::<Seq<char>, ErrDesc>(s@),
            Err(e) => normalize_spec(url@) == Err::<Seq<char>, ErrDesc>(describe(e)),
        },
{
    let trimmed = str_trim(url);
    let t = trimmed.as_str();
    let tv = chars_of(t);
    if str_starts_with(t, "git@") {
        proof {
            reveal_strlit("git@");
        }
        let mut p: usize = 0;
        while p < tv.len() && tv[p] != ':'
            invariant
                p <= tv@.len(),
                forall|j: int| 0 <= j < p ==> tv@[j] != ':',
            decreases tv.len() - p,
        {
            p = p + 1;
        }
        if p < tv.len() {
            proof {
                assert(first_colon(tv@, p as int));
                let q = choose|q: int| first_colon(tv@, q);
                if q < p {
                    assert(tv@[q] != ':');
                }
                if p < q {
                    assert(tv@[p as int] != ':');
                }
                assert(q == p);
                assert(tv@.subrange(0, 4) =~= "git@"@);
                assert(tv@[0] == tv@.subrange(0, 4)[0] && tv@[1] == tv@.subrange(0, 4)[1]);
                assert(tv@[2] == tv@.subrange(0, 4)[2] && tv@[3] == tv@.subrange(0, 4)[3]);
            }
            assert(p >= 4);
            let n = tv.len();
            let host = substring(t, 4, p);
            let path = substring(t, p + 1, n);
            let pv = chars_of(path.as_str());
            let has_nl = crate::text::vec_has_char(&pv, '\n');
            if host.as_str().unicode_len() > 0 && path.as_str().unicode_len() > 0 && !has_nl {
                let stripped = strip_git_exec(path.as_str());
                let mut r = owned("https://");
                r.append(host.as_str());
                r.append("/");
                r.append(stripped.as_str());
                return Ok(r);
            }
        } else {
            proof {
                if exists|q: int| first_colon(tv@, q) {
                    let q = choose|q: int| first_colon(tv@, q);
                    assert(tv@[q] == ':');
                    assert(false);
                }
            }
        }
    }
    let w = strip_git_exec(t);
    if str_starts_with(w.as_str(), "https://") || str_starts_with(w.as_str(), "http://") {
        return Ok(w);
    }
    if str_starts_with(w.as_str(), "git://") {
        return Ok(replace_all_exec(w.as_str(), "git://", "https://"));
    }
    Err(GitUrlError::InvalidFormat(owned(url)))
}

/// The scheme, host and path of a URL as the WHATWG URL parser of the `url` crate
/// reads it, or `None` when it does not parse.
pub uninterp spec fn url_components(s: Seq<char>) -> Option<(Seq<char>, Option<Seq<char>>, Seq<char>)>;

/// Parsed URL components as plain values: scheme, host text (`host_str`), path.
pub type UrlParts = (String, Option<String>, String);

/// The views of parsed URL components.
pub open spec fn parts_view(p: Option<UrlParts>) -> Option<(Seq<char>, Option<Seq<char>>, Seq<char>)> {
    match p {
        Some((s, h, path)) => Some((s@, match h {
            Some(x) => Some(x@),
            None => None,
        }, path@)),
        None => None,
    }
}

/// Calls `url::Url::parse` and reads `scheme()`, `host_str()` and `path()` of the
/// result. The contract only names the result (`url_components` of the input); the URL
/// standard's parsing rules are not restated.
#[verifier::external_body]
fn parse_with_url_crate(s: &str) -> (r: Option<UrlParts>)
    ensures
        parts_view(r) == url_components(s@),
{
    match url::Url::parse(s) {
        Ok(u) => Some((u.scheme().to_string(), u.host_str().map(|h| h.to_string()), u.path().to_string())),
        Err(_) => None,
    }
}

/// The scheme, host and repository path of a normalised URL, given what the URL parser
/// made of it: the scheme must be https, http, git or ssh; a host and a path other than
/// empty or `/` are required; the path loses one leading '/'.
pub open spec fn components_spec(url: Seq<char>, parsed: Option<(Seq<char>, Option<Seq<char>>, Seq<char>)>) -> Result<(Seq<char>, Seq<char>, Seq<char>), ErrDesc> {
    match parsed {
        None => Err((GitUrlErrorKind::InvalidFormat, url)),
        Some((scheme, host, path)) => if !(scheme == "https"@ || scheme == "http"@ || scheme
            == "git"@ || scheme == "ssh"@) {
            Err((GitUrlErrorKind::UnsupportedScheme, scheme))
        } else {
            match host {
                None => Err((GitUrlErrorKind::MissingHost, Seq::empty())),
                Some(h) => if path.len() == 0 || path == "/"@ {
                    Err((GitUrlErrorKind::MissingRepoPath, Seq::empty()))
                } else if starts_with(path, "/"@) {
                    Ok((scheme, h, path.subrange(1, path.len() as int)))
                } else {
                    Ok((scheme, h, path))
                },
            }
        },
    }
}

/// The relation between a components result and its specification.
pub open spec fn components_ok(r: Result<(String, String, String), GitUrlError>, spec: Result<(Seq<char>, Seq<char>, Seq<char>), ErrDesc>) -> bool {
    match r {
        Ok((a, b, c)) => spec == Ok::<(Seq<char>, Seq<char>, Seq<char>), ErrDesc>((a@, b@, c@)),
        Err(e) => spec == Err::<(Seq<char>, Seq<char>, Seq<char>), ErrDesc>(describe(e)),
    }
}

/// The scheme, host and repository path of a URL from its parsed components (see
/// `components_spec`).
pub fn components_from_parsed(url: &str, parsed: Option<UrlParts>) -> (r: Result<(String, String, String), GitUrlError>)
    ensures
        components_ok(r, components_spec(url@, parts_view(parsed))),
{
    match parsed {
        None => Err(GitUrlError::InvalidFormat(owned(url))),
        Some((scheme, host, path)) => {
            let s = scheme.as_str();
            if !(str_eq(s, "https") || str_eq(s, "http") || str_eq(s, "git") || str_eq(s, "ssh")) {
                return Err(GitUrlError::UnsupportedScheme(scheme));
            }
            match host {
                None => Err(GitUrlError::MissingHost),
                Some(h) => {
                    let p = path.as_str();
                    if p.unicode_len() == 0 || str_eq(p, "/") {
                        return Err(GitUrlError::MissingRepoPath);
                    }
                    if str_starts_with(p, "/") {
                        proof {
                            reveal_strlit("/");
                        }
                        let n = p.unicode_len();
                        Ok((scheme, h, substring(p, 1, n)))
                    } else {
                        Ok((scheme, h, path))
                    }
                },
            }
        },
    }
}

/// The scheme, host and repository path of a normalised URL, as read by the URL parser.
pub fn parse_url(url: &str) -> (r: Result<(String, String, String), GitUrlError>)
    ensures
        components_ok(r, components_spec(url@, url_components(url@))),
{
    let parsed = parse_with_url_crate(url);
    components_from_parsed(url, parsed)
}

/// Whether a character is alphabetic or numeric in Unicode's sense.
pub uninterp spec fn is_alphanumeric_spec(c: char) -> bool;

/// Calls `char::is_alphanumeric`. The result is named `is_alphanumeric_spec` of the
/// character; the contract adds what holds for ASCII: exactly letters and digits are
/// alphanumeric. The Unicode tables for other characters are not restated.
#[verifier::external_body]
pub fn is_alphanumeric(c: char) -> (r: bool)
    ensures
        r == is_alphanumeric_spec(c),
        c <= '\u{7f}' ==> (r == (('a' <= c && c <= 'z') || ('A' <= c && c <= 'Z') || ('0' <= c && c <= '9'))),
{
    c.is_alphanumeric()
}

/// ASCII lowercase mapping of a single character (other characters unchanged).
pub open spec fn ascii_lower(c: char) -> char {
    if 'A' <= c && c <= 'Z' {
        ((c as int) + 32) as char
    } else {
        c
    }
}

/// Equality ignoring ASCII case (`str::eq_ignore_ascii_case`).
pub open spec fn eq_ignore_ascii_case(a: Seq<char>, b: Seq<char>) -> bool {
    a.len() == b.len() && forall|i: int| 0 <= i < a.len() ==> ascii_lower(a[i]) == ascii_lower(b[i])
}

/// The hosts that are refused whatever their case.
pub open spec fn blocked_domains_spec() -> Seq<Seq<char>> {
    seq!["0.0.0.0"@, "127.0.0.1"@, "localhost"@, "169.254.169.254"@, "metadata.google.internal"@, "metadata"@, "169.254.169.254"@]
}

/// The first character of a host name that is neither alphanumeric nor one of `.`, `-`, `:`.
pub open spec fn first_bad_host_char(s: Seq<char>) -> Option<char>
    decreases s.len(),
{
    if s.len() == 0 {
        None
    } else if !is_alphanumeric_spec(s[0]) && s[0] != '.' && s[0] != '-' && s[0] != ':' {
        Some(s[0])
    } else {
        first_bad_host_char(s.drop_first())
    }
}

/// The error of the security check of a host, if any.
pub open spec fn host_error(h: Seq<char>) -> Option<ErrDesc> {
    if is_private_ip_spec(h) {
        Some((GitUrlErrorKind::BlockedDomain, "Private IP address not allowed: "@ + h))
    } else if h == "localhost"@ || h == "127.0.0.1"@ || h == "::1"@ {
        Some((GitUrlErrorKind::BlockedDomain, "Localhost not allowed: "@ + h))
    } else if exists|k: int| 0 <= k < blocked_domains_spec().len() && eq_ignore_ascii_case(h, #[trigger] blocked_domains_spec()[k]) {
        Some((GitUrlErrorKind::BlockedDomain, "Blocked domain: "@ + h))
    } else {
        match first_bad_host_char(h) {
            Some(c) => Some((GitUrlErrorKind::InvalidCharacters, "Invalid character in hostname: "@ + seq![c])),
            None => None,
        }
    }
}

/// Equality ignoring ASCII case.
pub fn eq_ignore_ascii_case_exec(a: &str, b: &str) -> (r: bool)
    ensures
        r == eq_ignore_ascii_case(a@, b@),
{
    let av = chars_of(a);
    let bv = chars_of(b);
    if av.len() != bv.len() {
        return false;
    }
    let mut i: usize = 0;
    while i < av.len()
        invariant
            av@ == a@,
            bv@ == b@,
            av@.len() == bv@.len(),
            i <= av@.len(),
            forall|j: int| 0 <= j < i ==> ascii_lower(av@[j]) == ascii_lower(bv@[j]),
        decreases av.len() - i,
    {
        let x = av[i];
        let y = bv[i];
        let lx = if 'A' <= x && x <= 'Z' { ((x as u32) + 32) } else { x as u32 };
        let ly = if 'A' <= y && y <= 'Z' { ((y as u32) + 32) } else { y as u32 };
        assert(lx == ascii_lower(x) as u32) by {
            if 'A' <= x && x <= 'Z' {
                assert(((x as int) + 32) as char as u32 == (x as int) + 32);
            }
        }
        assert(ly == ascii_lower(y) as u32) by {
            if 'A' <= y && y <= 'Z' {
                assert(((y as int) + 32) as char as u32 == (y as int) + 32);
            }
        }
        if lx != ly {
            assert(ascii_lower(av@[i as int]) != ascii_lower(bv@[i as int]));
            return false;
        }
        i = i + 1;
    }
    true
}

/// The blocked host names.
pub fn blocked_domains() -> (r: Vec<&'static str>)
    ensures
        r@.map_values(|p: &str| p@) == blocked_domains_spec(),
{
    let mut v: Vec<&'static str> = Vec::new();
    v.push("0.0.0.0");
    v.push("127.0.0.1");
    v.push("localhost");
    v.push("169.254.169.254");
    v.push("metadata.google.internal");
    v.push("metadata");
    v.push("169.254.169.254");
    assert(v@.map_values(|p: &str| p@) =~= blocked_domains_spec());
    v
}

/// The security check of a host (see `host_error`).
pub fn validate_host_security(host: &str) -> (r: Result<(), GitUrlError>)
    ensures
        outcome_ok(r, host_error(host@)),
{
    if is_private_ip(host) {
        return Err(GitUrlError::BlockedDomain(prefixed("Private IP address not allowed: ", host)));
    }
    if str_eq(host, "localhost") || str_eq(host, "127.0.0.1") || str_eq(host, "::1") {
        return Err(GitUrlError::BlockedDomain(prefixed("Localhost not allowed: ", host)));
    }
    let blocked = blocked_domains();
    let ghost bs = blocked_domains_spec();
    let mut i: usize = 0;
    while i < blocked.len()
        invariant
            i <= blocked@.len(),
            blocked@.map_values(|p: &str| p@) == bs,
            bs == blocked_domains_spec(),
            !is_private_ip_spec(host@),
            !(host@ == "localhost"@ || host@ == "127.0.0.1"@ || host@ == "::1"@),
            forall|k: int| 0 <= k < i ==> !eq_ignore_ascii_case(host@, #[trigger] bs[k]),
        decreases blocked.len() - i,
    {
        assert(bs[i as int] == blocked@[i as int]@);
        if eq_ignore_ascii_case_exec(host, blocked[i]) {
            assert(eq_ignore_ascii_case(host@, bs[i as int]));
            return Err(GitUrlError::BlockedDomain(prefixed("Blocked domain: ", host)));
        }
        i = i + 1;
    }
    let hv = chars_of(host);
    let mut q: usize = 0;
    assert(hv@.subrange(0, hv@.len() as int) =~= hv@);
    while q < hv.len()
        invariant
            q <= hv@.len(),
            hv@ == host@,
            !is_private_ip_spec(host@),
            !(host@ == "localhost"@ || host@ == "127.0.0.1"@ || host@ == "::1"@),
            forall|k: int| 0 <= k < blocked_domains_spec().len() ==> !eq_ignore_ascii_case(host@, #[trigger] blocked_domains_spec()[k]),
            first_bad_host_char(hv@) == first_bad_host_char(hv@.subrange(q as int, hv@.len() as int)),
        decreases hv.len() - q,
    {
        let ghost rest = hv@.subrange(q as int, hv@.len() as int);
        assert(rest[0] == hv@[q as int]);
        let ch = hv[q];
        if !is_alphanumeric(ch) && ch != '.' && ch != '-' && ch != ':' {
            let c = char_to_string(ch);
            return Err(GitUrlError::InvalidCharacters(prefixed("Invalid character in hostname: ", c.as_str())));
        }
        assert(rest.drop_first() =~= hv@.subrange(q + 1, hv@.len() as int));
        q = q + 1;
    }
    Ok(())
}

/// A character refused in a repository path.
pub open spec fn bad_path_char(c: char) -> bool {
    is_control(c) || c == '<' || c == '>' || c == '"' || c == '|' || c == '?' || c == '*'
}

/// The first character refused in a repository path.
pub open spec fn first_bad_path_char(s: Seq<char>) -> Option<char>
    decreases s.len(),
{
    if s.len() == 0 {
        None
    } else if bad_path_char(s[0]) {
        Some(s[0])
    } else {
        first_bad_path_char(s.drop_first())
    }
}

/// The error of the security check of a repository path, if any.
pub open spec fn path_error(p: Seq<char>) -> Option<ErrDesc> {
    if contains(p, "../"@) || contains(p, "..\\"@) {
        Some((GitUrlErrorKind::UrlInjectionAttempt, "Path traversal attempt detected"@))
    } else if starts_with(p, "/"@) || starts_with(p, "\\"@) {
        Some((GitUrlErrorKind::UrlInjectionAttempt, "Absolute path not allowed"@))
    } else {
        match first_bad_path_char(p) {
            Some(c) => Some((GitUrlErrorKind::InvalidCharacters, "Invalid character in path: "@ + seq![c])),
            None => None,
        }
    }
}

/// The security check of a repository path (see `path_error`).
pub fn validate_path_security(repo_path: &str) -> (r: Result<(), GitUrlError>)
    ensures
        outcome_ok(r, path_error(repo_path@)),
{
    if str_contains(repo_path, "../") || str_contains(repo_path, "..\\") {
        return Err(GitUrlError::UrlInjectionAttempt(owned("Path traversal attempt detected")));
    }
    if str_starts_with(repo_path, "/") || str_starts_with(repo_path, "\\") {
        return Err(GitUrlError::UrlInjectionAttempt(owned("Absolute path not allowed")));
    }
    let pv = chars_of(repo_path);
    let mut q: usize = 0;
    assert(pv@.subrange(0, pv@.len() as int) =~= pv@);
    while q < pv.len()
        invariant
            q <= pv@.len(),
            pv@ == repo_path@,
            !(contains(repo_path@, "../"@) || contains(repo_path@, "..\\"@)),
            !(starts_with(repo_path@, "/"@) || starts_with(repo_path@, "\\"@)),
            first_bad_path_char(pv@) == first_bad_path_char(pv@.subrange(q as int, pv@.len() as int)),
        decreases pv.len() - q,
    {
        let ghost rest = pv@.subrange(q as int, pv@.len() as int);
        assert(rest[0] == pv@[q as int]);
        let ch = pv[q];
        if is_control_exec(ch) || ch == '<' || ch == '>' || ch == '"' || ch == '|' || ch == '?' || ch == '*' {
            let c = char_to_string(ch);
            return Err(GitUrlError::InvalidCharacters(prefixed("Invalid character in path: ", c.as_str())));
        }
        assert(rest.drop_first() =~= pv@.subrange(q + 1, pv@.len() as int));
        q = q + 1;
    }
    Ok(())
}

/// The index of the first `/` of `s`, or its length when it has none.
pub open spec fn slash_index(s: Seq<char>) -> nat
    decreases s.len(),
{
    if s.len() == 0 || s[0] == '/' {
        0
    } else {
        1 + slash_index(s.drop_first())
    }
}

proof fn lemma_slash_index(s: Seq<char>, i: int)
    requires
        0 <= i <= s.len(),
        forall|j: int| 0 <= j < i ==> s[j] != '/',
        i < s.len() ==> s[i] == '/',
    ensures
        slash_index(s) == i,
    decreases s.len(),
{
    if s.len() > 0 && i > 0 {
        lemma_slash_index(s.drop_first(), i - 1);
    }
}

/// The path of a normalised URL as it is written: the text after the first `/`
/// that follows its `https://` or `http://` (empty without one).
pub open spec fn written_path(n: Seq<char>) -> Seq<char> {
    let rest = if starts_with(n, "https://"@) {
        n.subrange(8, n.len() as int)
    } else if starts_with(n, "http://"@) {
        n.subrange(7, n.len() as int)
    } else {
        n
    };
    let k = slash_index(rest) as int;
    if k < rest.len() { rest.subrange(k + 1, rest.len() as int) } else { Seq::empty() }
}

/// The path of a normalised URL as written (see `written_path`).
pub fn written_path_exec(n: &str) -> (r: String)
    ensures
        r@ == written_path(n@),
{
    proof {
        reveal_strlit("https://");
        reveal_strlit("http://");
    }
    let start: usize = if str_starts_with(n, "https://") {
        8
    } else if str_starts_with(n, "http://") {
        7
    } else {
        0
    };
    let v = chars_of(n);
    let len = v.len();
    let ghost rest = v@.subrange(start as int, len as int);
    let mut k: usize = start;
    while k < len && v[k] != '/'
        invariant
            start <= k <= len,
            len == v@.len(),
            rest == v@.subrange(start as int, len as int),
            forall|j: int| start <= j < k ==> v@[j] != '/',
        decreases len - k,
    {
        k = k + 1;
    }
    proof {
        lemma_slash_index(rest, k - start);
    }
    let path = if k < len { substring(n, k + 1, len) } else { String::new() };
    proof {
        let srest = if starts_with(n@, "https://"@) {
            n@.subrange(8, n@.len() as int)
        } else if starts_with(n@, "http://"@) {
            n@.subrange(7, n@.len() as int)
        } else {
            n@
        };
        assert(rest =~= srest);
        if k < len {
            assert(path@ =~= rest.subrange(k - start + 1, rest.len() as int));
        }
    }
    path
}

/// A Git URL value object.
#[derive(Debug, Clone, PartialEq, Eq, Hash)]
pub struct GitUrl {
    url: String,
    scheme: String,
    host: String,
    repo_path: String,
}

/// What `GitUrl::new` makes of a URL: the security check of the raw URL, its
/// normalisation, the path check of the normalised form as written, the components
/// the URL parser reads from the normalised form, then the security checks of the
/// normalised URL, its host and its path, in that order; the value holds the
/// normalised URL and its components. (The parser turns a `?` into the start of a
/// query; the check as written reports it as an invalid character first.)
pub open spec fn git_url_spec(url: Seq<char>) -> Result<(Seq<char>, Seq<char>, Seq<char>, Seq<char>), ErrDesc> {
    match security_error(url) {
        Some(e) => Err(e),
        None => match normalize_spec(url) {
            Err(e) => Err(e),
            Ok(n) => match path_error(written_path(n)) {
              Some(e) => Err(e),
              None => match components_spec(n, url_components(n)) {
                Err(e) => Err(e),
                Ok((scheme, host, path)) => match security_error(n) {
                    Some(e) => Err(e),
                    None => match host_error(host) {
                        Some(e) => Err(e),
                        None => match path_error(path) {
                            Some(e) => Err(e),
                            None => Ok((n, scheme, host, path)),
                        },
                    },
                },
              },
            },
        },
    }
}

impl GitUrl {
    /// The views of the fields.
    pub closed spec fn parts(self) -> (Seq<char>, Seq<char>, Seq<char>, Seq<char>) {
        (self.url@, self.scheme@, self.host@, self.repo_path@)
    }

    /// Parse, normalise and check a Git URL (see `git_url_spec`).
    pub fn new(url: &str) -> (r: Result<GitUrl, GitUrlError>)
        ensures
            match r {
                Ok(g) => git_url_spec(url@) == Ok::<(Seq<char>, Seq<char>, Seq<char>, Seq<char>), ErrDesc>(g.parts()),
                Err(e) => git_url_spec(url@) == Err::<(Seq<char>, Seq<char>, Seq<char>, Seq<char>), ErrDesc>(describe(e)),
            },
    {
        match validate_security(url) {
            Err(e) => {
                return Err(e);
            },
            Ok(()) => {},
        }
        let normalized = match normalize_url(url) {
            Err(e) => {
                return Err(e);
            },
            Ok(n) => n,
        };
        let written = written_path_exec(normalized.as_str());
        match validate_path_security(written.as_str()) {
            Err(e) => {
                return Err(e);
            },
            Ok(()) => {},
        }
        let (scheme, host, repo_path) = match parse_url(normalized.as_str()) {
            Err(e) => {
                return Err(e);
            },
            Ok(c) => c,
        };
        match validate_security(normalized.as_str()) {
            Err(e) => {
                return Err(e);
            },
            Ok(()) => {},
        }
        match validate_host_security(host.as_str()) {
            Err(e) => {
                return Err(e);
            },
            Ok(()) => {},
        }
        match validate_path_security(repo_path.as_str()) {
            Err(e) => {
                return Err(e);
            },
            Ok(()) => {},
        }
        Ok(GitUrl { url: normalized, scheme, host, repo_path })
    }

    /// The normalised URL, as a sequence of characters.
    pub open spec fn url_text(self) -> Seq<char> {
        self.parts().0
    }

    /// The scheme, as a sequence of characters.
    pub open spec fn scheme_text(self) -> Seq<char> {
        self.parts().1
    }

    /// The host, as a sequence of characters.
    pub open spec fn host_text(self) -> Seq<char> {
        self.parts().2
    }

    /// The repository path, as a sequence of characters.
    pub open spec fn path_text(self) -> Seq<char> {
        self.parts().3
    }

    /// The normalised URL.
    pub fn as_str(&self) -> (r: &str)
        ensures
            r@ == self.url_text(),
    {
        self.url.as_str()
    }

    /// The scheme.
    pub fn scheme(&self) -> (r: &str)
        ensures
            r@ == self.scheme_text(),
    {
        self.scheme.as_str()
    }

    /// The host name.
    pub fn host(&self) -> (r: &str)
        ensures
            r@ == self.host_text(),
    {
        self.host.as_str()
    }

    /// The repository path.
    pub fn repo_path(&self) -> (r: &str)
        ensures
            r@ == self.path_text(),
    {
        self.repo_path.as_str()
    }

    /// The SSH form `git@HOST:PATH.git`.
    pub fn to_ssh_url(&self) -> (r: String)
        ensures
            r@ == "git@"@ + self.host_text() + ":"@ + self.path_text() + ".git"@,
    {
        let mut r = owned("git@");
        r.append(self.host.as_str());
        r.append(":");
        r.append(self.repo_path.as_str());
        r.append(".git");
        r
    }

    /// The https form `https://HOST/PATH.git`.
    pub fn to_https_url(&self) -> (r: String)
        ensures
            r@ == "https://"@ + self.host_text() + "/"@ + self.path_text() + ".git"@,
    {
        let mut r = owned("https://");
        r.append(self.host.as_str());
        r.append("/");
        r.append(self.repo_path.as_str());
        r.append(".git");
        r
    }

    /// The repository name: the last '/'-separated segment of the path.
    pub fn repo_name(&self) -> (r: Option<&str>)
        ensures
            r matches Some(n) && n@ == last_segment(self.path_text()),
    {
        let v = chars_of(self.repo_path.as_str());
        match crate::path::rfind_slash(&v) {
            Some(i) => {
                proof {
                    let k = choose|k: int| crate::path::last_slash(self.path_text(), k);
                    if k < i {
                        assert(self.path_text()[i as int] == '/');
                    }
                    if i < k {
                        assert(self.path_text()[k] == '/');
                    }
                }
                let n = v.len();
                assert(i < n);
                Some(self.repo_path.as_str().substring_char(i + 1, n))
            },
            None => Some(self.repo_path.as_str()),
        }
    }

    /// The organisation: the first '/'-separated segment of the path, when there are at
    /// least two segments.
    pub fn organization(&self) -> (r: Option<&str>)
        ensures
            match r {
                Some(o) => exists|i: int| 0 <= i < self.path_text().len() && self.path_text()[i] == '/'
                    && (forall|j: int| 0 <= j < i ==> self.path_text()[j] != '/')
                    && o@ == self.path_text().subrange(0, i),
                None => !has_char(self.path_text(), '/'),
            },
    {
        let v = chars_of(self.repo_path.as_str());
        let mut i: usize = 0;
        while i < v.len()
            invariant
                i <= v@.len(),
                v@ == self.path_text(),
                forall|j: int| 0 <= j < i ==> v@[j] != '/',
            decreases v.len() - i,
        {
            if v[i] == '/' {
                return Some(self.repo_path.as_str().substring_char(0, i));
            }
            i = i + 1;
        }
        None
    }

    /// Whether both URLs name the same host and repository path.
    pub fn is_same_repo(&self, other: &GitUrl) -> (r: bool)
        ensures
            r == (self.host_text() == other.host_text() && self.path_text() == other.path_text()),
    {
        self.host == other.host && self.repo_path == other.repo_path
    }

    /// The normalised URL (the `Display` text).
    pub fn to_string(&self) -> (r: String)
        ensures
            r@ == self.url_text(),
    {
        self.url.clone()
    }
}

/// The outcome of `GitUrl::new` as the contract of the conversions states it.
pub open spec fn new_outcome(url: Seq<char>, r: Result<GitUrl, GitUrlError>) -> bool {
    match r {
        Ok(g) => git_url_spec(url) == Ok::<(Seq<char>, Seq<char>, Seq<char>, Seq<char>), ErrDesc>(g.parts()),
        Err(e) => git_url_spec(url) == Err::<(Seq<char>, Seq<char>, Seq<char>, Seq<char>), ErrDesc>(describe(e)),
    }
}

impl<'a> core::convert::TryFrom<&'a str> for GitUrl {
    type Error = GitUrlError;

    fn try_from(url: &'a str) -> (r: Result<GitUrl, GitUrlError>)
        ensures
            new_outcome(url@, r),
    {
        GitUrl::new(url)
    }
}

impl<'a> vstd::std_specs::convert::TryFromSpecImpl<&'a str> for GitUrl {
    open spec fn obeys_try_from_spec() -> bool {
        false
    }

    open spec fn try_from_spec(url: &'a str) -> Result<GitUrl, GitUrlError> {
        choose|r: Result<GitUrl, GitUrlError>| new_outcome(url@, r)
    }
}

impl core::convert::TryFrom<String> for GitUrl {
    type Error = GitUrlError;

    fn try_from(url: String) -> (r: Result<GitUrl, GitUrlError>)
        ensures
            new_outcome(url@, r),
    {
        GitUrl::new(url.as_str())
    }
}

impl vstd::std_specs::convert::TryFromSpecImpl<String> for GitUrl {
    open spec fn obeys_try_from_spec() -> bool {
        false
    }

    open spec fn try_from_spec(url: String) -> Result<GitUrl, GitUrlError> {
        choose|r: Result<GitUrl, GitUrlError>| new_outcome(url@, r)
    }
}

} // verus!

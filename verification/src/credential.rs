//! Credentials: profiles of optional secrets, where they were found, and the text a
//! credential helper prints.
use crate::manifest::{clone_opt, clone_opt_ref, deref_opt, effective_auth, ManifestRepo};
use crate::text::{owned, str_eq, str_trim, split_spec, split_chars, chars_of, chars_to_string, trim};
use vstd::prelude::*;

verus! {

broadcast use vstd::seq::group_seq_axioms;

/// Where a set of credentials came from.
#[derive(Debug, Clone, Copy, PartialEq, Eq, Structural)]
pub enum CredentialSource {
    EnvVar,
    CliFlag,
    ProfileFile,
    CredentialHelper,
    Manifest,
}

/// The `Display` text of a credential source.
pub open spec fn source_text(s: CredentialSource) -> Seq<char> {
    match s {
        CredentialSource::EnvVar => "environment variable"@,
        CredentialSource::CliFlag => "CLI flag"@,
        CredentialSource::ProfileFile => "credential profile file"@,
        CredentialSource::CredentialHelper => "credential helper"@,
        CredentialSource::Manifest => "manifest file"@,
    }
}

impl CredentialSource {
    /// The `Display` text of the source.
    pub fn to_string(&self) -> (r: String)
        ensures
            r@ == source_text(*self),
    {
        match self {
            CredentialSource::EnvVar => owned("environment variable"),
            CredentialSource::CliFlag => owned("CLI flag"),
            CredentialSource::ProfileFile => owned("credential profile file"),
            CredentialSource::CredentialHelper => owned("credential helper"),
            CredentialSource::Manifest => owned("manifest file"),
        }
    }
}

/// A named set of optional secrets.
#[derive(Debug, Clone)]
pub struct CredentialProfile {
    pub username: Option<String>,
    pub password: Option<String>,
    pub token: Option<String>,
    pub aws_access_key_id: Option<String>,
    pub aws_secret_access_key: Option<String>,
    pub aws_session_token: Option<String>,
    pub gdrive_client_id: Option<String>,
    pub gdrive_client_secret: Option<String>,
}

/// The eight fields of a profile, in declaration order.
pub open spec fn profile_fields(p: CredentialProfile) -> Seq<Option<String>> {
    seq![
        p.username, p.password, p.token, p.aws_access_key_id, p.aws_secret_access_key,
        p.aws_session_token, p.gdrive_client_id, p.gdrive_client_secret,
    ]
}

/// No field of the profile is set.
pub open spec fn profile_is_empty(p: CredentialProfile) -> bool {
    forall|i: int| 0 <= i < 8 ==> (#[trigger] profile_fields(p)[i]) is None
}

/// A field after merging: the own value when set, else the other's.
pub open spec fn merge_field(mine: Option<String>, theirs: Option<String>) -> Option<String> {
    match mine {
        Some(x) => Some(x),
        None => theirs,
    }
}

/// The fields of `a` merged with those of `b`, field by field.
pub open spec fn merged_fields(a: CredentialProfile, b: CredentialProfile) -> Seq<Option<String>> {
    Seq::new(8, |i: int| merge_field(profile_fields(a)[i], profile_fields(b)[i]))
}

impl Default for CredentialProfile {
    fn default() -> (r: Self)
        ensures
            profile_is_empty(r),
    {
        CredentialProfile {
            username: None,
            password: None,
            token: None,
            aws_access_key_id: None,
            aws_secret_access_key: None,
            aws_session_token: None,
            gdrive_client_id: None,
            gdrive_client_secret: None,
        }
    }
}

impl CredentialProfile {
    /// Whether no field is set.
    pub fn is_empty(&self) -> (r: bool)
        ensures
            r == profile_is_empty(*self),
    {
        let r = self.username.is_none() && self.password.is_none() && self.token.is_none()
            && self.aws_access_key_id.is_none() && self.aws_secret_access_key.is_none()
            && self.aws_session_token.is_none() && self.gdrive_client_id.is_none()
            && self.gdrive_client_secret.is_none();
        proof {
            if !r {
                let f = profile_fields(*self);
                assert(f[0] is Some || f[1] is Some || f[2] is Some || f[3] is Some || f[4] is Some
                    || f[5] is Some || f[6] is Some || f[7] is Some);
            }
        }
        r
    }

    /// Fill every unset field from `other`; set fields stay as they are.
    pub fn merge_from(&mut self, other: &CredentialProfile)
        ensures
            profile_fields(*final(self)) == merged_fields(*old(self), *other),
    {
        if self.username.is_none() {
            self.username = clone_opt(&other.username);
        }
        if self.password.is_none() {
            self.password = clone_opt(&other.password);
        }
        if self.token.is_none() {
            self.token = clone_opt(&other.token);
        }
        if self.aws_access_key_id.is_none() {
            self.aws_access_key_id = clone_opt(&other.aws_access_key_id);
        }
        if self.aws_secret_access_key.is_none() {
            self.aws_secret_access_key = clone_opt(&other.aws_secret_access_key);
        }
        if self.aws_session_token.is_none() {
            self.aws_session_token = clone_opt(&other.aws_session_token);
        }
        if self.gdrive_client_id.is_none() {
            self.gdrive_client_id = clone_opt(&other.gdrive_client_id);
        }
        if self.gdrive_client_secret.is_none() {
            self.gdrive_client_secret = clone_opt(&other.gdrive_client_secret);
        }
        assert(profile_fields(*self) =~= merged_fields(*old(self), *other));
    }
}

/// Merging never overwrites a set field, fills every unset field from the other
/// profile, and leaves a profile empty only when both were empty.
pub proof fn law_merge_keeps_set_fields(a: CredentialProfile, b: CredentialProfile)
    ensures
        forall|i: int| 0 <= i < 8 && (#[trigger] profile_fields(a)[i]) is Some
            ==> merged_fields(a, b)[i] == profile_fields(a)[i],
        forall|i: int| 0 <= i < 8 && (#[trigger] profile_fields(a)[i]) is None
            ==> merged_fields(a, b)[i] == profile_fields(b)[i],
        (forall|i: int| 0 <= i < 8 ==> (#[trigger] merged_fields(a, b)[i]) is None)
            <==> (profile_is_empty(a) && profile_is_empty(b)),
{
    assert forall|i: int| 0 <= i < 8 && (#[trigger] merged_fields(a, b)[i]) is None implies
        profile_fields(a)[i] is None && profile_fields(b)[i] is None by {}
    if profile_is_empty(a) && profile_is_empty(b) {
        assert forall|i: int| 0 <= i < 8 implies (#[trigger] merged_fields(a, b)[i]) is None by {
            assert(profile_fields(a)[i] is None);
            assert(profile_fields(b)[i] is None);
        }
    }
    if forall|i: int| 0 <= i < 8 ==> (#[trigger] merged_fields(a, b)[i]) is None {
        assert forall|i: int| 0 <= i < 8 implies (#[trigger] profile_fields(a)[i]) is None by {
            assert(merged_fields(a, b)[i] is None);
        }
        assert forall|i: int| 0 <= i < 8 implies (#[trigger] profile_fields(b)[i]) is None by {
            assert(merged_fields(a, b)[i] is None);
        }
    }
}

/// Merging a second time with the same profile changes nothing, and merging with an
/// empty profile changes nothing.
pub proof fn law_merge_idempotent(a: CredentialProfile, b: CredentialProfile, e: CredentialProfile)
    requires
        profile_is_empty(e),
    ensures
        Seq::new(8, |i: int| merge_field(merged_fields(a, b)[i], profile_fields(b)[i])) == merged_fields(a, b),
        merged_fields(a, e) == profile_fields(a),
{
    assert(Seq::new(8, |i: int| merge_field(merged_fields(a, b)[i], profile_fields(b)[i])) =~= merged_fields(a, b));
    assert forall|i: int| 0 <= i < 8 implies merged_fields(a, e)[i] == profile_fields(a)[i] by {
        assert(profile_fields(e)[i] is None);
    }
    assert(merged_fields(a, e) =~= profile_fields(a));
}

/// A profile with the credentials that were found, where they came from, and the name
/// of the profile that was asked for.
#[derive(Debug, Clone)]
pub struct ResolvedCredentials {
    pub profile: CredentialProfile,
    pub source: CredentialSource,
    pub profile_name: String,
}

impl ResolvedCredentials {
    /// No credentials, attributed to the manifest.
    pub fn empty(profile_name: &str) -> (r: Self)
        ensures
            profile_is_empty(r.profile),
            r.source == CredentialSource::Manifest,
            r.profile_name@ == profile_name@,
    {
        ResolvedCredentials {
            profile: CredentialProfile::default(),
            source: CredentialSource::Manifest,
            profile_name: owned(profile_name),
        }
    }
}

/// Errors of credential resolution.
#[derive(Debug, Clone, PartialEq, Eq)]
pub enum CredentialError {
    FileNotFound(String),
    ParseError(String),
    ProfileNotFound(String),
    HelperFailed(String),
    PermissionDenied(String),
    IoError(String),
}

/// The `Display` text of a credential error.
pub open spec fn credential_error_text(e: CredentialError) -> Seq<char> {
    match e {
        CredentialError::FileNotFound(p) => "Credential file not found: "@ + p@,
        CredentialError::ParseError(m) => "Failed to parse credential file: "@ + m@,
        CredentialError::ProfileNotFound(n) => "Credential profile not found: '"@ + n@ + "'"@,
        CredentialError::HelperFailed(m) => "Credential helper failed: "@ + m@,
        CredentialError::PermissionDenied(m) => "Credential file permission denied: "@ + m@,
        CredentialError::IoError(m) => "Credential I/O error: "@ + m@,
    }
}

/// `a` followed by `b` and `c`.
fn joined(a: &str, b: &str, c: &str) -> (r: String)
    ensures
        r@ == a@ + b@ + c@,
{
    let mut r = owned(a);
    r.append(b);
    r.append(c);
    r
}

impl CredentialError {
    /// The message of the error (its `Display` text).
    pub fn to_string(&self) -> (r: String)
        ensures
            r@ == credential_error_text(*self),
    {
        proof {
            reveal_strlit("");
            assert forall|x: Seq<char>| x + ""@ == x by {
                assert(x + ""@ =~= x);
            }
        }
        match self {
            CredentialError::FileNotFound(p) => joined("Credential file not found: ", p.as_str(), ""),
            CredentialError::ParseError(m) => joined("Failed to parse credential file: ", m.as_str(), ""),
            CredentialError::ProfileNotFound(n) => joined("Credential profile not found: '", n.as_str(), "'"),
            CredentialError::HelperFailed(m) => joined("Credential helper failed: ", m.as_str(), ""),
            CredentialError::PermissionDenied(m) => joined("Credential file permission denied: ", m.as_str(), ""),
            CredentialError::IoError(m) => joined("Credential I/O error: ", m.as_str(), ""),
        }
    }
}

/// The views of the eight fields of a profile.
pub open spec fn profile_view(p: CredentialProfile) -> Seq<Option<Seq<char>>> {
    profile_fields(p).map_values(|o: Option<String>| match o {
        Some(x) => Some(x@),
        None => None,
    })
}

/// The field a credential helper key sets, by its index in `profile_fields`; the helper
/// protocol carries no Google Drive fields.
pub open spec fn helper_key_index(key: Seq<char>) -> int {
    if key == "username"@ {
        0
    } else if key == "password"@ {
        1
    } else if key == "token"@ {
        2
    } else if key == "aws_access_key_id"@ {
        3
    } else if key == "aws_secret_access_key"@ {
        4
    } else if key == "aws_session_token"@ {
        5
    } else {
        -1
    }
}

/// The fields after reading one line of helper output: a trimmed, non-empty line
/// `key=value` whose trimmed key is known sets that field to the trimmed value; any
/// other line changes nothing.
pub open spec fn apply_helper_line(acc: Seq<Option<Seq<char>>>, line: Seq<char>) -> Seq<Option<Seq<char>>> {
    let t = trim(line);
    if t.len() > 0 && exists|k: int| 0 <= k < t.len() && t[k] == '=' {
        let k = choose|k: int| 0 <= k < t.len() && t[k] == '=' && forall|j: int| 0 <= j < k ==> t[j] != '=';
        let key = trim(t.subrange(0, k));
        let value = trim(t.subrange(k + 1, t.len() as int));
        let idx = helper_key_index(key);
        if 0 <= idx {
            acc.update(idx, Some(value))
        } else {
            acc
        }
    } else {
        acc
    }
}

/// The fields read from a sequence of helper output lines, starting from an empty
/// profile; a later line for the same key wins.
pub open spec fn parse_helper_lines(lines: Seq<Seq<char>>) -> Seq<Option<Seq<char>>>
    decreases lines.len(),
{
    if lines.len() == 0 {
        Seq::new(8, |i: int| None)
    } else {
        apply_helper_line(parse_helper_lines(lines.drop_last()), lines.last())
    }
}

/// Reads and runs external credential helpers (`git credential`-style programs).
pub struct CredentialHelperRunner;

/// A profile whose field `idx` is set to `value`, all other fields as in `p`.
fn set_profile_field(p: &mut CredentialProfile, idx: usize, value: String)
    requires
        idx < 8,
    ensures
        profile_fields(*final(p)) == profile_fields(*old(p)).update(idx as int, Some(value)),
{
    if idx == 0 {
        p.username = Some(value);
    } else if idx == 1 {
        p.password = Some(value);
    } else if idx == 2 {
        p.token = Some(value);
    } else if idx == 3 {
        p.aws_access_key_id = Some(value);
    } else if idx == 4 {
        p.aws_secret_access_key = Some(value);
    } else if idx == 5 {
        p.aws_session_token = Some(value);
    } else if idx == 6 {
        p.gdrive_client_id = Some(value);
    } else {
        p.gdrive_client_secret = Some(value);
    }
    assert(profile_fields(*p) =~= profile_fields(*old(p)).update(idx as int, Some(value)));
}

/// The index of the field a helper key sets (see `helper_key_index`).
fn helper_key_index_exec(key: &str) -> (r: Option<usize>)
    ensures
        match r {
            Some(i) => i < 8 && helper_key_index(key@) == i as int,
            None => helper_key_index(key@) < 0,
        },
{
    if str_eq(key, "username") {
        Some(0)
    } else if str_eq(key, "password") {
        Some(1)
    } else if str_eq(key, "token") {
        Some(2)
    } else if str_eq(key, "aws_access_key_id") {
        Some(3)
    } else if str_eq(key, "aws_secret_access_key") {
        Some(4)
    } else if str_eq(key, "aws_session_token") {
        Some(5)
    } else {
        None
    }
}

/// Read one line of helper output into `profile` (see `apply_helper_line`).
fn apply_helper_line_exec(profile: &mut CredentialProfile, line_chars: &Vec<char>)
    ensures
        profile_view(*final(profile)) == apply_helper_line(profile_view(*old(profile)), line_chars@),
{
    let ghost before = profile_view(*profile);
    let raw = chars_to_string(line_chars);
    let line = str_trim(raw.as_str());
    let lv = chars_of(line.as_str());
    if lv.len() > 0 {
        let mut k: usize = 0;
        while k < lv.len() && lv[k] != '='
            invariant
                k <= lv@.len(),
                forall|j: int| 0 <= j < k ==> lv@[j] != '=',
            decreases lv.len() - k,
        {
            k = k + 1;
        }
        if k < lv.len() {
            let n = lv.len();
            let key_raw = crate::text::substring(line.as_str(), 0, k);
            let key = str_trim(key_raw.as_str());
            let value_raw = crate::text::substring(line.as_str(), k + 1, n);
            let value = str_trim(value_raw.as_str());
            proof {
                let t = trim(line_chars@);
                assert(t == lv@);
                let c = choose|c: int| 0 <= c < t.len() && t[c] == '=' && forall|j: int| 0 <= j < c ==> t[j] != '=';
                assert(t[k as int] == '=');
                if c < k {
                    assert(lv@[c] != '=');
                }
                if k < c {
                    assert(t[k as int] != '=');
                }
                assert(c == k);
            }
            match helper_key_index_exec(key.as_str()) {
                Some(idx) => {
                    set_profile_field(profile, idx, value);
                    assert(profile_view(*profile) =~= before.update(idx as int, Some(trim(value_raw@))));
                },
                None => {},
            }
        } else {
            proof {
                let t = trim(line_chars@);
                if exists|c: int| 0 <= c < t.len() && t[c] == '=' {
                    let c = choose|c: int| 0 <= c < t.len() && t[c] == '=';
                    assert(lv@[c] == '=');
                }
            }
        }
    }
}

impl CredentialHelperRunner {
    /// The text written to a helper's standard input: the protocol and host lines and a
    /// blank line.
    pub fn helper_input(protocol: &str, host: &str) -> (r: String)
        ensures
            r@ == "protocol="@ + protocol@ + "\nhost="@ + host@ + "\n\n"@,
    {
        let mut r = owned("protocol=");
        r.append(protocol);
        r.append("\nhost=");
        r.append(host);
        r.append("\n\n");
        r
    }

    /// The profile a helper printed: its output read line by line (split at line feeds;
    /// a carriage return before one is whitespace and trimmed away) as described by
    /// `parse_helper_lines`. Reading never fails.
    pub fn parse_helper_output(output: &str) -> (r: Result<CredentialProfile, CredentialError>)
        ensures
            r matches Ok(p) && profile_view(p) == parse_helper_lines(split_spec(output@, '\n')),
    {
        let v = chars_of(output);
        let lines = split_chars(&v, '\n');
        let ghost ls = split_spec(output@, '\n');
        let mut profile = CredentialProfile::default();
        let mut i: usize = 0;
        proof {
            assert(ls.subrange(0, 0) =~= Seq::<Seq<char>>::empty());
            assert(profile_view(profile) =~= Seq::new(8, |i: int| None));
        }
        while i < lines.len()
            invariant
                i <= lines@.len(),
                ls == split_spec(output@, '\n'),
                crate::text::char_vecs_view(lines@) == ls,
                profile_view(profile) == parse_helper_lines(ls.subrange(0, i as int)),
            decreases lines.len() - i,
        {
            proof {
                assert(ls.subrange(0, i + 1).drop_last() =~= ls.subrange(0, i as int));
                assert(ls.subrange(0, i + 1).last() == lines@[i as int]@);
            }
            apply_helper_line_exec(&mut profile, &lines[i]);
            i = i + 1;
        }
        assert(ls.subrange(0, ls.len() as int) =~= ls);
        Ok(profile)
    }
}

} // verus!

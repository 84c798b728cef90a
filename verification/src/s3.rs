//! S3 downloads: settings, the bucket and prefix of an `s3://` URL, and which objects of
//! a listing are files to fetch and where they go.
use crate::text::{cat2, chars_of, ends_with, owned, starts_with, str_ends_with, str_starts_with, strip_all_prefix, substring};
use vstd::prelude::*;

verus! {

/// Settings of an S3 client; unset values come from the environment.
#[derive(Debug, Clone)]
pub struct S3Config {
    pub region: Option<String>,
    pub endpoint_url: Option<String>,
    pub access_key_id: Option<String>,
    pub secret_access_key: Option<String>,
    pub session_token: Option<String>,
}

impl Default for S3Config {
    fn default() -> (r: Self)
        ensures
            r.region is None && r.endpoint_url is None && r.access_key_id is None,
            r.secret_access_key is None && r.session_token is None,
    {
        S3Config { region: None, endpoint_url: None, access_key_id: None, secret_access_key: None, session_token: None }
    }
}

impl S3Config {
    /// Whether explicit credentials are configured: both keys are set.
    pub fn has_static_credentials(&self) -> (r: bool)
        ensures
            r == (self.access_key_id is Some && self.secret_access_key is Some),
    {
        self.access_key_id.is_some() && self.secret_access_key.is_some()
    }

    /// Whether requests use path-style addressing: with a custom endpoint.
    pub fn force_path_style(&self) -> (r: bool)
        ensures
            r == self.endpoint_url is Some,
    {
        self.endpoint_url.is_some()
    }
}

/// The outcome of a download.
#[derive(Debug, Clone, Copy)]
pub struct SyncResult {
    pub downloaded: usize,
}

/// Errors of S3 downloads.
#[derive(Debug)]
pub enum S3Error {
    InvalidUrl(String),
    ApiError(String),
    IoError(String),
}

/// The `Display` text of an error.
pub open spec fn s3_error_text(e: S3Error) -> Seq<char> {
    match e {
        S3Error::InvalidUrl(m) => "Invalid S3 URL: "@ + m@,
        S3Error::ApiError(m) => "S3 API error: "@ + m@,
        S3Error::IoError(m) => "S3 I/O error: "@ + m@,
    }
}

impl S3Error {
    /// The message of the error (its `Display` text).
    pub fn to_string(&self) -> (r: String)
        ensures
            r@ == s3_error_text(*self),
    {
        match self {
            S3Error::InvalidUrl(m) => cat2("Invalid S3 URL: ", m.as_str()),
            S3Error::ApiError(m) => cat2("S3 API error: ", m.as_str()),
            S3Error::IoError(m) => cat2("S3 I/O error: ", m.as_str()),
        }
    }
}

/// The bucket and prefix of an `s3://` URL: the text up to the first `/` after the
/// scheme and the text after it (empty without `/`); the bucket must not be empty.
pub open spec fn parse_s3_url_spec(url: Seq<char>) -> Result<(Seq<char>, Seq<char>), Seq<char>> {
    if !starts_with(url, "s3://"@) {
        Err("URL must start with s3://: "@ + url)
    } else {
        let s = url.subrange(5, url.len() as int);
        let (bucket, prefix) = if exists|k: int| 0 <= k < s.len() && s[k] == '/' {
            let k = choose|k: int| 0 <= k < s.len() && s[k] == '/' && forall|j: int| 0 <= j < k ==> s[j] != '/';
            (s.subrange(0, k), s.subrange(k + 1, s.len() as int))
        } else {
            (s, Seq::empty())
        };
        if bucket.len() == 0 {
            Err("Bucket name is empty"@)
        } else {
            Ok((bucket, prefix))
        }
    }
}

/// The bucket and prefix of an S3 URL (see `parse_s3_url_spec`).
pub fn parse_s3_url(url: &str) -> (r: Result<(String, String), S3Error>)
    ensures
        match r {
            Ok((b, p)) => parse_s3_url_spec(url@) == Ok::<(Seq<char>, Seq<char>), Seq<char>>((b@, p@)),
            Err(e) => (e matches S3Error::InvalidUrl(m) && parse_s3_url_spec(url@) == Err::<(Seq<char>, Seq<char>), Seq<char>>(m@)),
        },
{
    if !str_starts_with(url, "s3://") {
        return Err(S3Error::InvalidUrl(cat2("URL must start with s3://: ", url)));
    }
    proof {
        reveal_strlit("s3://");
    }
    let v = chars_of(url);
    let n = v.len();
    let mut k: usize = 5;
    while k < n && v[k] != '/'
        invariant
            5 <= k <= n,
            n == v@.len(),
            v@ == url@,
            forall|j: int| 5 <= j < k ==> v@[j] != '/',
        decreases n - k,
    {
        k = k + 1;
    }
    let ghost s = url@.subrange(5, url@.len() as int);
    let (bucket, prefix) = if k < n {
        proof {
            let c = choose|c: int| 0 <= c < s.len() && s[c] == '/' && forall|j: int| 0 <= j < c ==> s[j] != '/';
            assert(s[k - 5] == '/');
            if c < k - 5 {
                assert(v@[c + 5] != '/');
            }
            if k - 5 < c {
                assert(s[k - 5] != '/');
            }
            assert(url@.subrange(5, k as int) =~= s.subrange(0, k - 5));
            assert(url@.subrange(k + 1, n as int) =~= s.subrange(k - 5 + 1, s.len() as int));
        }
        (substring(url, 5, k), substring(url, k + 1, n))
    } else {
        proof {
            if exists|c: int| 0 <= c < s.len() && s[c] == '/' {
                let c = choose|c: int| 0 <= c < s.len() && s[c] == '/';
                assert(v@[c + 5] != '/');
            }
        }
        assert(s =~= url@.subrange(5, n as int));
        (substring(url, 5, n), String::new())
    };
    if bucket.as_str().unicode_len() == 0 {
        return Err(S3Error::InvalidUrl(owned("Bucket name is empty")));
    }
    Ok((bucket, prefix))
}

/// Where an object of a listing goes under the destination: its key without the
/// listed prefix (when the key starts with it) and without leading `/`; keys naming
/// nothing or a directory (ending in `/`) are not downloaded.
pub open spec fn object_relative_path(key: Seq<char>, prefix: Seq<char>) -> Option<Seq<char>> {
    let rest = if starts_with(key, prefix) { key.subrange(prefix.len() as int, key.len() as int) } else { key };
    let rel = strip_all_prefix(rest, "/"@);
    if rel.len() == 0 || ends_with(rel, "/"@) {
        None
    } else {
        Some(rel)
    }
}

/// The path of an object under the destination (see `object_relative_path`).
pub fn relative_object_path(key: &str, prefix: &str) -> (r: Option<String>)
    ensures
        match r {
            Some(p) => object_relative_path(key@, prefix@) == Some(p@),
            None => object_relative_path(key@, prefix@) is None,
        },
{
    let rest = if str_starts_with(key, prefix) {
        let n = key.unicode_len();
        let m = prefix.unicode_len();
        substring(key, m, n)
    } else {
        owned(key)
    };
    let rel = crate::text::strip_all_prefix_exec(rest.as_str(), "/");
    if rel.as_str().unicode_len() == 0 || str_ends_with(rel.as_str(), "/") {
        None
    } else {
        Some(rel)
    }
}

/// The error of a listing request that failed.
pub fn list_failure(bucket: &str, prefix: &str, error: &str) -> (r: S3Error)
    ensures
        r matches S3Error::ApiError(m) && m@ == "Failed to list objects in s3://"@ + bucket@ + "/"@ + prefix@ + ": "@ + error@,
{
    let mut m = cat2("Failed to list objects in s3://", bucket);
    m.append("/");
    m.append(prefix);
    m.append(": ");
    m.append(error);
    S3Error::ApiError(m)
}

} // verus!

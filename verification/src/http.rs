//! Downloads over HTTP: which URLs name an archive to unpack, and which kind of
//! archive it is. Fetching and unpacking are left to the caller.
use crate::text::{chars_of, ends_with, str_ends_with, substring};
use vstd::prelude::*;

verus! {

/// The text before the first `?` (all of it when there is none).
pub open spec fn before_query(s: Seq<char>) -> Seq<char> {
    if exists|k: int| 0 <= k < s.len() && s[k] == '?' {
        let k = choose|k: int| 0 <= k < s.len() && s[k] == '?' && forall|j: int| 0 <= j < k ==> s[j] != '?';
        s.subrange(0, k)
    } else {
        s
    }
}

/// The text before the first `?`, as `split('?').next()` gives it.
pub fn strip_query(s: &str) -> (r: String)
    ensures
        r@ == before_query(s@),
{
    let v = chars_of(s);
    let mut k: usize = 0;
    while k < v.len() && v[k] != '?'
        invariant
            k <= v@.len(),
            v@ == s@,
            forall|j: int| 0 <= j < k ==> v@[j] != '?',
        decreases v.len() - k,
    {
        k = k + 1;
    }
    proof {
        if k < v@.len() {
            let c = choose|c: int| 0 <= c < s@.len() && s@[c] == '?' && forall|j: int| 0 <= j < c ==> s@[j] != '?';
            if c < k {
                assert(v@[c] != '?');
            }
            if k < c {
                assert(s@[k as int] != '?');
            }
        } else {
            if exists|c: int| 0 <= c < s@.len() && s@[c] == '?' {
                let c = choose|c: int| 0 <= c < s@.len() && s@[c] == '?';
                assert(v@[c] != '?');
            }
            assert(s@.subrange(0, k as int) =~= s@);
        }
    }
    substring(s, 0, k)
}

/// A path names an archive: it ends in `.zip`, `.tar`, `.tar.gz`, `.tgz`, `.tar.bz2`
/// or `.tbz2`.
pub open spec fn archive_path(p: Seq<char>) -> bool {
    ||| ends_with(p, ".zip"@)
    ||| ends_with(p, ".tar"@)
    ||| ends_with(p, ".tar.gz"@)
    ||| ends_with(p, ".tgz"@)
    ||| ends_with(p, ".tar.bz2"@)
    ||| ends_with(p, ".tbz2"@)
}

/// Kinds of archives.
#[derive(Debug, Clone, Copy, PartialEq, Eq, Structural)]
pub enum ArchiveKind {
    /// A ZIP archive
    Zip,
    /// A gzip-compressed tar archive
    TarGz,
    /// A tar archive
    Tar,
    /// A bzip2-compressed tar archive, which is not unpacked
    TarBz2,
}

/// The kind of archive a path names, checked in the order `.zip`, `.tar.gz` or
/// `.tgz`, `.tar`, `.tar.bz2` or `.tbz2`.
pub open spec fn archive_kind_spec(p: Seq<char>) -> Option<ArchiveKind> {
    if ends_with(p, ".zip"@) {
        Some(ArchiveKind::Zip)
    } else if ends_with(p, ".tar.gz"@) || ends_with(p, ".tgz"@) {
        Some(ArchiveKind::TarGz)
    } else if ends_with(p, ".tar"@) {
        Some(ArchiveKind::Tar)
    } else if ends_with(p, ".tar.bz2"@) || ends_with(p, ".tbz2"@) {
        Some(ArchiveKind::TarBz2)
    } else {
        None
    }
}

/// Downloads over HTTP.
#[derive(Debug, Clone, Copy, PartialEq, Eq, Structural)]
pub struct HttpDownloader;

impl HttpDownloader {
    /// A downloader.
    pub fn new() -> (r: Self)
        ensures
            r == HttpDownloader,
    {
        HttpDownloader
    }

    /// Whether the URL path names an archive, its query left aside.
    pub fn is_archive(&self, url_path: &str) -> (r: bool)
        ensures
            r == archive_path(before_query(url_path@)),
    {
        let p = strip_query(url_path);
        let s = p.as_str();
        str_ends_with(s, ".zip") || str_ends_with(s, ".tar") || str_ends_with(s, ".tar.gz")
            || str_ends_with(s, ".tgz") || str_ends_with(s, ".tar.bz2") || str_ends_with(s, ".tbz2")
    }

    /// Whether a download is unpacked: when the requested URL or the URL reached
    /// after redirects names an archive.
    pub fn needs_extraction(&self, url: &str, final_url: &str) -> (r: bool)
        ensures
            r == (archive_path(before_query(before_query(url@))) || archive_path(before_query(before_query(final_url@)))),
    {
        let a = strip_query(url);
        let b = strip_query(final_url);
        self.is_archive(a.as_str()) || self.is_archive(b.as_str())
    }

    /// The kind of archive the URL path (without its query) names, which decides how
    /// it is unpacked; none for a path that names no archive.
    pub fn archive_kind(&self, url_path: &str) -> (r: Option<ArchiveKind>)
        ensures
            r == archive_kind_spec(url_path@),
    {
        if str_ends_with(url_path, ".zip") {
            Some(ArchiveKind::Zip)
        } else if str_ends_with(url_path, ".tar.gz") || str_ends_with(url_path, ".tgz") {
            Some(ArchiveKind::TarGz)
        } else if str_ends_with(url_path, ".tar") {
            Some(ArchiveKind::Tar)
        } else if str_ends_with(url_path, ".tar.bz2") || str_ends_with(url_path, ".tbz2") {
            Some(ArchiveKind::TarBz2)
        } else {
            None
        }
    }
}

impl Default for HttpDownloader {
    fn default() -> (r: Self)
        ensures
            r == HttpDownloader,
    {
        HttpDownloader::new()
    }
}

/// Every kind of archive names an archive, and the paths that name one have a kind.
pub proof fn law_archive_kind_exactly_for_archives(p: Seq<char>)
    ensures
        archive_kind_spec(p) is Some <==> archive_path(p),
{
}

} // verus!

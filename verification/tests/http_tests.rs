use wmgr::http::{strip_query, ArchiveKind, HttpDownloader};

#[test]
fn test_is_archive() {
    let downloader = HttpDownloader::new();

    assert!(downloader.is_archive("file.zip"));
    assert!(downloader.is_archive("file.tar.gz"));
    assert!(downloader.is_archive("file.tgz"));
    assert!(downloader.is_archive("https://example.com/file.zip?param=value"));
    assert!(!downloader.is_archive("file.txt"));
    assert!(!downloader.is_archive("file.svg"));
}

#[test]
fn archive_kinds_and_queries() {
    let d = HttpDownloader::default();
    assert_eq!(strip_query("a/b.zip?x=1?y"), "a/b.zip");
    assert_eq!(strip_query("plain"), "plain");
    assert_eq!(d.archive_kind("x.zip"), Some(ArchiveKind::Zip));
    assert_eq!(d.archive_kind("x.tgz"), Some(ArchiveKind::TarGz));
    assert_eq!(d.archive_kind("x.tar"), Some(ArchiveKind::Tar));
    assert_eq!(d.archive_kind("x.tbz2"), Some(ArchiveKind::TarBz2));
    assert_eq!(d.archive_kind("x.bin"), None);
    assert!(d.needs_extraction("https://h/dl?id=3", "https://cdn/h/f.tar.gz"));
    assert!(!d.needs_extraction("https://h/f.txt", "https://h/f.txt"));
}

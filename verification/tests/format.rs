use litepack::format::{detect_format, path_extension, ArchiveFormat};
use litepack::Error;

#[test]
fn detects_zip_by_magic() {
    let head = [0x50, 0x4B, 0x03, 0x04, 0x00, 0x00];
    assert_eq!(detect_format(&head, "x.zip").unwrap(), ArchiveFormat::Zip);
}

#[test]
fn detects_empty_zip_by_magic() {
    let head = [0x50, 0x4B, 0x05, 0x06, 0x00, 0x00];
    assert_eq!(detect_format(&head, "empty.zip").unwrap(), ArchiveFormat::Zip);
}

#[test]
fn detects_sevenz_by_magic() {
    let head = [0x37, 0x7A, 0xBC, 0xAF, 0x27, 0x1C];
    assert_eq!(detect_format(&head, "x.7z").unwrap(), ArchiveFormat::SevenZ);
}

#[test]
fn falls_back_to_extension() {
    let head = &b"not really a zip"[..6];
    assert_eq!(detect_format(head, "weird.zip").unwrap(), ArchiveFormat::Zip);
    let head = &b"not really a 7z"[..6];
    assert_eq!(detect_format(head, "weird.7z").unwrap(), ArchiveFormat::SevenZ);
}

#[test]
fn unknown_extension_rejected() {
    let head = &b"data"[..];
    assert!(matches!(detect_format(head, "x.rar"), Err(Error::UnsupportedFormat(_))));
}

#[test]
fn signature_wins_over_extension() {
    let zip_head = [0x50, 0x4B, 0x03, 0x04];
    assert_eq!(detect_format(&zip_head, "archive.7z").unwrap(), ArchiveFormat::Zip);
    let sevenz_head = [0x37, 0x7A, 0xBC, 0xAF, 0x27, 0x1C];
    assert_eq!(detect_format(&sevenz_head, "archive.rar").unwrap(), ArchiveFormat::SevenZ);
    // A truncated 7z signature is not recognised.
    let short = [0x37, 0x7A, 0xBC, 0xAF, 0x27];
    assert!(matches!(detect_format(&short, "x.bin"), Err(Error::UnsupportedFormat(_))));
    // A lone 'P' is not the ZIP signature.
    assert_eq!(detect_format(&[0x50], "x.7z").unwrap(), ArchiveFormat::SevenZ);
}

#[test]
fn extension_ignores_ascii_case() {
    assert_eq!(ArchiveFormat::from_extension("OUT.ZIP").unwrap(), ArchiveFormat::Zip);
    assert_eq!(ArchiveFormat::from_extension("a/b.7Z").unwrap(), ArchiveFormat::SevenZ);
    match ArchiveFormat::from_extension("x.RAR") {
        Err(Error::UnsupportedFormat(m)) => assert_eq!(m, "rar"),
        other => panic!("{other:?}"),
    }
    match ArchiveFormat::from_extension("noext") {
        Err(Error::UnsupportedFormat(m)) => assert_eq!(m, "(no extension)"),
        other => panic!("{other:?}"),
    }
}

#[test]
fn extension_follows_path_rules() {
    assert_eq!(path_extension("a/b.tar.gz").as_deref(), Some("gz"));
    assert_eq!(path_extension(".bashrc"), None);
    assert_eq!(path_extension("dir.zip/"), Some("zip".to_string()));
    assert_eq!(path_extension("x."), Some(String::new()));
    assert_eq!(path_extension("a.zip/."), Some("zip".to_string()));
    assert_eq!(path_extension("a.zip/.."), None);
    assert_eq!(path_extension("/"), None);
    assert_eq!(path_extension(""), None);
    assert_eq!(path_extension("dir.d/file"), None);
    for p in ["a/b.tar.gz", ".bashrc", "dir.zip/", "x.", "a.zip/.", "a.zip/..", "/", "", "dir.d/file", "...", "./x.7z"] {
        let expected = std::path::Path::new(p).extension().map(|e| e.to_str().unwrap().to_string());
        assert_eq!(path_extension(p), expected, "{p:?}");
    }
}

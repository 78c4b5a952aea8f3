use litepack::error::{hex4_upper, IoKind, ZipFailure};
use litepack::sevenz::{map_7z_error, SevenzFailure};
use litepack::zip::map_copy_error;
use litepack::Error;

#[test]
fn error_messages() {
    assert_eq!(Error::BadPassword.message(), "密码错误");
    assert_eq!(Error::Encrypted.message(), "归档已加密且未提供有效密码");
    assert_eq!(Error::Cancelled.message(), "操作已取消");
    assert_eq!(Error::ZipBomb.message(), "归档炸弹风险，已拒绝解压（大小/比例/条目数超限）");
    assert_eq!(Error::PathTraversal("../x".into()).message(), "检测到路径穿越: ../x");
    assert_eq!(Error::UnsupportedFormat("rar".into()).message(), "不支持的归档格式: rar");
    assert_eq!(Error::Io(IoKind::NotFound, "gone".into()).message(), "IO 错误: gone");
    assert!(Error::Cancelled.is_cancelled());
    assert!(!Error::ZipBomb.is_cancelled());
}

#[test]
fn zip_failures_map_to_errors() {
    assert!(matches!(Error::from_zip(ZipFailure::InvalidPassword), Error::BadPassword));
    match Error::from_zip(ZipFailure::CompressionMethodNotSupported(0x5a)) {
        Error::UnsupportedFormat(m) => assert_eq!(m, "不支持的 ZIP 压缩方法 0x005A"),
        other => panic!("{other:?}"),
    }
    match Error::from_zip(ZipFailure::FileNotFound) {
        Error::Io(IoKind::NotFound, m) => assert_eq!(m, "归档内条目不存在"),
        other => panic!("{other:?}"),
    }
    match Error::from_zip(ZipFailure::InvalidArchive("bad".into())) {
        Error::Io(IoKind::InvalidData, m) => assert_eq!(m, "bad"),
        other => panic!("{other:?}"),
    }
    match Error::from_zip(ZipFailure::UnsupportedArchive("multi-disk".into())) {
        Error::UnsupportedFormat(m) => assert_eq!(m, "multi-disk"),
        other => panic!("{other:?}"),
    }
    assert_eq!(hex4_upper(0xBEEF), "BEEF");
    assert_eq!(hex4_upper(0), "0000");
}

#[test]
fn sevenz_password_failures_depend_on_the_password() {
    assert!(matches!(map_7z_error(SevenzFailure::PasswordRequired, false), Error::Encrypted));
    assert!(matches!(map_7z_error(SevenzFailure::PasswordRequired, true), Error::BadPassword));
    assert!(matches!(map_7z_error(SevenzFailure::MaybeBadPassword, true), Error::BadPassword));
    assert!(matches!(map_7z_error(SevenzFailure::MaybeBadPassword, false), Error::Encrypted));
    match map_7z_error(SevenzFailure::BadSignature, false) {
        Error::UnsupportedFormat(m) => assert_eq!(m, "不是有效的 7z 文件"),
        other => panic!("{other:?}"),
    }
    match map_7z_error(SevenzFailure::Io(IoKind::UnexpectedEof, "read header".into(), "eof".into()), false) {
        Error::Io(IoKind::UnexpectedEof, m) => assert_eq!(m, "read header: eof"),
        other => panic!("{other:?}"),
    }
    match map_7z_error(SevenzFailure::UnsupportedVersion("UnsupportedVersion { major: 9, minor: 0 }".into()), false) {
        Error::UnsupportedFormat(m) => assert_eq!(m, "不支持的 7z 版本: UnsupportedVersion { major: 9, minor: 0 }"),
        other => panic!("{other:?}"),
    }
}

#[test]
fn copy_errors_of_encrypted_entries_mean_a_wrong_password() {
    assert!(matches!(map_copy_error(IoKind::InvalidInput, "x", true), Error::BadPassword));
    assert!(matches!(map_copy_error(IoKind::InvalidInput, "x", false), Error::Io(IoKind::InvalidInput, _)));
    assert!(matches!(map_copy_error(IoKind::Other, "x", true), Error::Io(IoKind::Other, _)));
}

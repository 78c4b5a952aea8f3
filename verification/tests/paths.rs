use litepack::zip::{join, safe_join};
use litepack::Error;

#[test]
fn safe_join_rejects_absolute_and_drive() {
    for evil in [
        "/etc/passwd",
        "C:\\windows\\system32\\evil.dll",
        "C:/windows/evil.exe",
        "a/../b",
        "..\\..\\x",
        "..",
        "",
    ] {
        let r = safe_join("out", evil);
        assert!(r.is_err(), "{evil:?} 应当被拒绝，实际 {r:?}");
    }
    // 正常路径必须放行。
    assert!(safe_join("out", "a/b/c.txt").is_ok());
    assert!(safe_join("out", "中文/名.txt").is_ok());
}

#[test]
fn safe_join_joins_under_the_output_directory() {
    assert_eq!(safe_join("out", "a/b/c.txt").unwrap(), "out/a/b/c.txt");
    assert_eq!(safe_join("out/", "x.txt").unwrap(), "out/x.txt");
    assert_eq!(safe_join("", "x.txt").unwrap(), "x.txt");
    // Dots that are not a whole component are fine.
    assert_eq!(safe_join("o", "a..b/.../c").unwrap(), "o/a..b/.../c");
    assert_eq!(safe_join("o", "./a").unwrap(), "o/./a");
}

#[test]
fn safe_join_reports_the_refused_name() {
    match safe_join("out", "../evil.txt") {
        Err(Error::PathTraversal(m)) => assert_eq!(m, "../evil.txt"),
        other => panic!("{other:?}"),
    }
    match safe_join("out", "") {
        Err(Error::PathTraversal(m)) => assert_eq!(m, "空条目名"),
        other => panic!("{other:?}"),
    }
    assert!(matches!(safe_join("out", "a\\..\\b"), Err(Error::PathTraversal(_))));
    assert!(matches!(safe_join("out", "\\abs"), Err(Error::PathTraversal(_))));
    assert!(matches!(safe_join("out", "x/ads:stream"), Err(Error::PathTraversal(_))));
    assert!(matches!(safe_join("out", "a/.."), Err(Error::PathTraversal(_))));
}

#[test]
fn join_follows_path_join() {
    assert_eq!(join("a", "b"), "a/b");
    assert_eq!(join("a/", "b"), "a/b");
    assert_eq!(join("", "b"), "b");
}

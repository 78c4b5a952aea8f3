use litepack::walk::{
    absolute, collect_entries, input_entries, is_hidden, join_with_slash, top_dir_name, top_name,
    walked_entry_name, InputSource, PathPart, WalkedItem,
};
use litepack::CompressOptions;
use litepack::error::IoKind;
use litepack::Error;

fn parts(v: &[&str]) -> Vec<String> {
    v.iter().map(|s| s.to_string()).collect()
}

#[test]
fn names_of_walked_entries() {
    assert_eq!(top_dir_name("data"), "data/");
    assert_eq!(walked_entry_name("data", &parts(&["a.txt"]), false), "data/a.txt");
    assert_eq!(walked_entry_name("data", &parts(&["sub", "b.txt"]), false), "data/sub/b.txt");
    assert_eq!(walked_entry_name("data", &parts(&["empty_dir"]), true), "data/empty_dir/");
    assert_eq!(join_with_slash(&parts(&[])), "");
    assert_eq!(join_with_slash(&parts(&["x", "y", "z"])), "x/y/z");
}

#[test]
fn hidden_names() {
    assert!(is_hidden(Some(".hidden")));
    assert!(!is_hidden(Some("a.txt")));
    assert!(!is_hidden(Some("")));
    assert!(!is_hidden(None));
}

#[test]
fn top_directory_needs_a_name() {
    assert_eq!(top_name(Some("data")).unwrap(), "data");
    match top_name(None) {
        Err(Error::Io(IoKind::InvalidInput, m)) => assert_eq!(m, "无效目录名"),
        other => panic!("{other:?}"),
    }
}

fn part(n: &str) -> PathPart {
    PathPart { name: n.to_string(), utf8: true }
}

fn item(src: &str, rel: &[&str], is_dir: bool) -> WalkedItem {
    WalkedItem { src: src.to_string(), rel: rel.iter().map(|r| part(r)).collect(), is_dir }
}

fn input(src: &str, name: Option<PathPart>, is_dir: bool, walked: Vec<WalkedItem>) -> InputSource {
    InputSource { src: src.to_string(), name, is_dir, walked }
}

fn data_dir() -> InputSource {
    input(
        "data",
        Some(part("data")),
        true,
        vec![
            item("data", &[], true),
            item("data/a.txt", &["a.txt"], false),
            item("data/.hidden", &[".hidden"], false),
            item("data/.git", &[".git"], true),
            item("data/.git/x", &[".git", "x"], false),
            item("data/sub", &["sub"], true),
            item("data/sub/b.txt", &["sub", "b.txt"], false),
        ],
    )
}

#[test]
fn collects_files_and_dirs() {
    let v = input_entries("/t", &data_dir(), true).unwrap();
    let names: Vec<&str> = v.iter().map(|e| e.name.as_str()).collect();
    assert_eq!(names, vec!["data/", "data/a.txt", "data/sub/", "data/sub/b.txt"]);
    assert_eq!(v[0].src, "/t/data");
    assert_eq!(v[3].src, "/t/data/sub/b.txt");
    let all = input_entries("/t/", &data_dir(), false).unwrap();
    assert_eq!(all.len(), 7);
    assert_eq!(all[4].name, "data/.git/x");
    assert_eq!(all[4].src, "/t/data/.git/x");
    // A hidden input is left out altogether.
    let hidden = input("/t/.data", Some(part(".data")), true, vec![]);
    assert!(input_entries("/t", &hidden, true).unwrap().is_empty());
}

#[test]
fn single_file_keeps_basename() {
    let x = input("x.txt", Some(part("x.txt")), false, vec![]);
    let v = input_entries("/home/u", &x, true).unwrap();
    assert_eq!(v.len(), 1);
    assert_eq!(v[0].name, "x.txt");
    assert_eq!(v[0].src, "/home/u/x.txt");
    let root = input("/", None, false, vec![]);
    assert_eq!(input_entries("/home/u", &root, true).unwrap()[0].name, "");
    let odd = input("/t/odd", Some(PathPart { name: "\u{FFFD}dir".to_string(), utf8: false }), true, vec![]);
    assert!(matches!(input_entries("/t", &odd, false), Err(Error::Io(IoKind::InvalidInput, _))));
}

#[test]
fn sources_are_made_absolute() {
    assert_eq!(absolute("/home/u", "a/b"), "/home/u/a/b");
    assert_eq!(absolute("/home/u/", "a"), "/home/u/a");
    assert_eq!(absolute("/home/u", "/etc/x"), "/etc/x");
}

#[test]
fn entries_of_all_inputs_in_order() {
    let inputs = vec![input("x.txt", Some(part("x.txt")), false, vec![]), data_dir()];
    let opts = CompressOptions::default();
    let v = collect_entries(&inputs, "/w", &opts).unwrap();
    let names: Vec<&str> = v.iter().map(|e| e.name.as_str()).collect();
    assert_eq!(names, vec!["x.txt", "data/", "data/a.txt", "data/sub/", "data/sub/b.txt"]);
    assert!(v.iter().all(|e| e.src.starts_with("/w/")));
    let odd = input("odd", Some(PathPart { name: "o".to_string(), utf8: false }), true, vec![]);
    let r = collect_entries(&[inputs[0].clone(), odd], "/w", &opts);
    assert!(matches!(r, Err(Error::Io(IoKind::InvalidInput, m)) if m == "无效目录名"));
}

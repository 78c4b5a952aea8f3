use litepack::entry::RawEntry;
use litepack::error::IoKind;
use litepack::walk::CompressEntry;
use litepack::{
    compress, decompress, list, ArchiveFormat, CompressOptions, EntryStep, Error, ExtractOptions,
    OverwriteMode, Phase,
};

fn raw(name: &str, size: u64, cs: u64, is_dir: bool, encrypted: bool) -> RawEntry {
    RawEntry {
        name: name.to_string(),
        size,
        compressed_size: cs,
        is_dir,
        encrypted,
        method: "Deflated".to_string(),
    }
}

fn centry(src: &str, name: &str) -> CompressEntry {
    CompressEntry { src: src.to_string(), name: name.to_string() }
}

#[test]
fn lists_zip_and_sevenz_entries() {
    let entries = vec![raw("data/", 0, 0, true, false), raw("data/a.txt", 11, 13, false, false)];
    let z = list(ArchiveFormat::Zip, &entries).unwrap();
    assert_eq!(z.len(), 2);
    assert_eq!(z[0].path, "data/");
    assert!(z[0].is_dir);
    assert_eq!(z[0].compressed_size, Some(0));
    assert_eq!(z[1].size, 11);
    assert_eq!(z[1].compressed_size, Some(13));
    assert_eq!(z[1].method.as_deref(), Some("Deflated"));
    let s = list(ArchiveFormat::SevenZ, &entries).unwrap();
    assert_eq!(s[0].compressed_size, None);
    assert_eq!(s[1].compressed_size, Some(13));
    assert_eq!(s[1].method, None);
    assert_eq!(s[1].modified, None);
}

#[test]
fn directories_list_with_size_zero() {
    let entries = vec![raw("dir/", 5, 2, true, false), raw("f", 7, 3, false, false)];
    for format in [ArchiveFormat::Zip, ArchiveFormat::SevenZ] {
        let v = list(format, &entries).unwrap();
        assert_eq!(v[0].size, 0);
        assert_eq!(v[1].size, 7);
    }
}

#[test]
fn compress_plan_reports_progress() {
    let entries = vec![centry("/src/data", "data/"), centry("/src/data/a.txt", "data/a.txt"), centry("/src/data/b", "data/b")];
    let sizes = vec![Some(4096), Some(11), None];
    let opts = CompressOptions::default();
    let mut c = compress(&entries, "out.zip", &opts, false, &sizes).unwrap();
    assert_eq!(c.format(), ArchiveFormat::Zip);
    assert_eq!(c.total(), 11);
    let s0 = c.next_step(false).unwrap().unwrap();
    assert!(s0.is_dir);
    assert_eq!(s0.entry.name, "data/");
    assert_eq!(s0.report.phase, Phase::Compressing);
    assert_eq!(s0.report.current_file, "/src/data");
    assert_eq!(s0.report.done_bytes, 0);
    let s1 = c.next_step(false).unwrap().unwrap();
    assert!(!s1.is_dir);
    assert_eq!(s1.entry.src, "/src/data/a.txt");
    c.advance(11);
    assert_eq!(c.done(), 11);
    assert!(matches!(c.next_step(true), Err(Error::Cancelled)));
    let s2 = c.next_step(false).unwrap().unwrap();
    assert_eq!(s2.entry.name, "data/b");
    assert_eq!(s2.report.done_bytes, 11);
    assert!(c.next_step(false).unwrap().is_none());
    let fin = c.finish_report();
    assert_eq!(fin.current_file, "out.zip");
    assert_eq!((fin.done_bytes, fin.total_bytes), (11, 11));
}

#[test]
fn compress_refuses_existing_output_and_unknown_format() {
    let entries = vec![centry("a", "a")];
    let sizes = vec![Some(1)];
    let opts = CompressOptions::default();
    match compress(&entries, "x.7z", &opts, true, &sizes) {
        Err(Error::Io(IoKind::AlreadyExists, m)) => assert_eq!(m, "输出已存在: x.7z"),
        other => panic!("{:?}", other.err()),
    }
    let opts_over = CompressOptions { overwrite: true, ..CompressOptions::default() };
    assert_eq!(compress(&entries, "x.7z", &opts_over, true, &sizes).unwrap().format(), ArchiveFormat::SevenZ);
    match compress(&entries, "x.rar", &opts, false, &sizes) {
        Err(Error::UnsupportedFormat(m)) => assert_eq!(m, "rar"),
        other => panic!("{:?}", other.err()),
    }
}

#[test]
fn zip_cancel_mid_operation() {
    let entries = vec![raw("big.bin", 64 * 1024, 100, false, false)];
    let x = decompress(ArchiveFormat::Zip, &entries, 300, "out", &ExtractOptions::default()).unwrap();
    let r = x.entry_step("big.bin", false, false, true);
    assert!(matches!(r, Err(Error::Cancelled)));
}

#[test]
fn sevenz_cancel_mid_operation() {
    let entries = vec![raw("big.bin", 64 * 1024, 100, false, false)];
    let x = decompress(ArchiveFormat::SevenZ, &entries, 300, "out", &ExtractOptions::default()).unwrap();
    let r = x.entry_step("big.bin", false, false, true);
    assert!(matches!(r, Err(Error::Cancelled)), "{r:?}");
}

#[test]
fn reject_traversal() {
    let entries = vec![raw("../evil.txt", 3, 3, false, false)];
    let x = decompress(ArchiveFormat::Zip, &entries, 200, "out", &ExtractOptions::default()).unwrap();
    let r = x.entry_step("../evil.txt", false, false, false);
    assert!(matches!(r, Err(Error::PathTraversal(_))));
}

#[test]
fn reject_traversal_entry() {
    let entries = vec![raw("../evil.txt", 0, 0, false, false)];
    let x = decompress(ArchiveFormat::SevenZ, &entries, 200, "out", &ExtractOptions::default()).unwrap();
    let r = x.entry_step("../evil.txt", false, false, false);
    assert!(matches!(r, Err(Error::PathTraversal(_))), "{r:?}");
}

#[test]
fn extraction_steps_and_reports() {
    let entries = vec![raw("d/", 0, 0, true, false), raw("d/f.txt", 10, 5, false, true)];
    let opts = ExtractOptions { password: Some("pw".into()), overwrite: OverwriteMode::Overwrite };
    let mut x = decompress(ArchiveFormat::Zip, &entries, 100, "out", &opts).unwrap();
    assert_eq!(x.total(), 10);
    match x.entry_step("d/", true, false, false).unwrap() {
        EntryStep::MakeDir(p) => assert_eq!(p, "out/d/"),
        other => panic!("{other:?}"),
    }
    match x.entry_step("d/f.txt", false, true, false).unwrap() {
        EntryStep::Write(p) => {
            assert_eq!(p, "out/d/f.txt");
            let rep = x.report(&p);
            assert_eq!(rep.phase, Phase::Extracting);
            assert_eq!((rep.done_bytes, rep.total_bytes), (0, 10));
        }
        other => panic!("{other:?}"),
    }
    assert_eq!(x.write_existing().unwrap(), true);
    x.advance(10);
    let fin = x.finish_report();
    assert_eq!(fin.current_file, "out");
    assert_eq!((fin.done_bytes, fin.total_bytes), (10, 10));
}

#[test]
fn encrypted_entry_without_password_is_refused() {
    let entries = vec![raw("secret.txt", 10, 30, false, true)];
    let x = decompress(ArchiveFormat::Zip, &entries, 200, "out", &ExtractOptions::default()).unwrap();
    assert!(matches!(x.entry_step("secret.txt", false, true, false), Err(Error::Encrypted)));
    assert_eq!(x.write_existing().unwrap(), false);
    let ask = ExtractOptions { password: None, overwrite: OverwriteMode::Ask };
    let y = decompress(ArchiveFormat::Zip, &entries, 200, "out", &ask).unwrap();
    match y.write_existing() {
        Err(Error::Io(IoKind::Other, m)) => assert_eq!(m, "OverwriteMode::Ask 需要调用方在回调中处理"),
        other => panic!("{other:?}"),
    }
}

#[test]
fn cancelled_compression_removes_its_output() {
    let entries = vec![centry("/src/a", "a")];
    let mut c = compress(&entries, "/tmp/out.7z", &CompressOptions::default(), false, &[Some(3)]).unwrap();
    let err = match c.next_step(true) {
        Err(e) => e,
        Ok(_) => panic!("a cancelled step must be refused"),
    };
    assert_eq!(c.cleanup(&err), Some("/tmp/out.7z".to_string()));
    assert_eq!(c.cleanup(&Error::BadPassword), None);
}

#[test]
fn cancelled_extraction_removes_the_files_it_created() {
    let entries = vec![raw("a", 1, 1, false, false), raw("b", 1, 1, false, false)];
    let opts = ExtractOptions { password: None, overwrite: OverwriteMode::Overwrite };
    let mut x = decompress(ArchiveFormat::Zip, &entries, 0, "out", &opts).unwrap();
    assert!(x.cleanup(&Error::Cancelled).is_empty());
    x.record_written("out/a", false);
    x.record_written("out/b", true);
    assert_eq!(x.cleanup(&Error::Cancelled), vec!["out/a".to_string()]);
    assert!(x.cleanup(&Error::ZipBomb).is_empty());
}

#[test]
fn listing_shows_encrypted_entries() {
    let entries = vec![raw("secret.txt", 10, 12, false, true), raw("plain.txt", 1, 1, false, false)];
    for format in [ArchiveFormat::Zip, ArchiveFormat::SevenZ] {
        let v = list(format, &entries).unwrap();
        assert!(v[0].encrypted);
        assert!(!v[1].encrypted);
    }
    assert!(litepack::sevenz::encrypts(&[vec![0x21], vec![0x06, 0xF1, 0x07, 0x01]]));
    assert!(!litepack::sevenz::encrypts(&[vec![0x21], vec![0x00]]));
    assert!(!litepack::sevenz::encrypts(&[]));
}

use litepack::entry::{checked_total_size, RawEntry};
use litepack::zip::{check_bomb, check_entry_count, precheck, MAX_ENTRIES, MAX_TOTAL_SIZE};
use litepack::{sevenz, Error};

fn entry(name: &str, size: u64, compressed: u64) -> RawEntry {
    RawEntry {
        name: name.to_string(),
        size,
        compressed_size: compressed,
        is_dir: false,
        encrypted: false,
        method: "Stored".to_string(),
    }
}

#[test]
fn reject_zip_bomb() {
    // One stored entry that claims 100 000 000 bytes in an archive of 118 bytes.
    let entries = vec![entry("bomb.bin", 100_000_000, 4)];
    let r = precheck(&entries, 118);
    assert!(matches!(r, Err(Error::ZipBomb)), "{r:?}");
}

#[test]
fn reject_too_many_entries() {
    let entries: Vec<RawEntry> = (0..=100_000).map(|i| entry(&format!("f{i}"), 0, 0)).collect();
    let r = sevenz::precheck(&entries, 1_000_000);
    assert!(matches!(r, Err(Error::ZipBomb)), "{r:?}");
    let r = precheck(&entries, 1_000_000);
    assert!(matches!(r, Err(Error::ZipBomb)), "{r:?}");
}

#[test]
fn limits_are_inclusive() {
    let at_ratio = vec![entry("a", 10_000 * 100, 100)];
    assert_eq!(precheck(&at_ratio, 100).unwrap(), 1_000_000);
    let over_ratio = vec![entry("a", 10_000 * 100 + 100, 100)];
    assert!(matches!(precheck(&over_ratio, 100), Err(Error::ZipBomb)));
    // The ratio is not checked where the archive's size is unknown.
    assert_eq!(precheck(&over_ratio, 0).unwrap(), 1_000_100);
    let at_total = vec![entry("a", MAX_TOTAL_SIZE - 1, 0), entry("b", 1, 0)];
    assert_eq!(sevenz::precheck(&at_total, 0).unwrap(), MAX_TOTAL_SIZE);
    let over_total = vec![entry("a", MAX_TOTAL_SIZE, 0), entry("b", 1, 0)];
    assert!(matches!(check_bomb(&over_total, 0), Err(Error::ZipBomb)));
    assert!(matches!(sevenz::precheck(&over_total, 0), Err(Error::ZipBomb)));
    let exactly_max: Vec<RawEntry> = (0..MAX_ENTRIES).map(|_| entry("e", 1, 1)).collect();
    assert_eq!(precheck(&exactly_max, 0).unwrap(), MAX_ENTRIES as u64);
}

#[test]
fn saturating_sizes_are_refused() {
    let huge = vec![entry("a", u64::MAX, 1), entry("b", u64::MAX, 1)];
    assert!(matches!(check_bomb(&huge, 10), Err(Error::ZipBomb)));
    assert!(matches!(sevenz::precheck(&huge, 10), Err(Error::ZipBomb)));
    assert!(matches!(litepack::decompress(litepack::ArchiveFormat::SevenZ, &huge, 10, "out", &litepack::ExtractOptions::default()), Err(Error::ZipBomb)));
    assert_eq!(checked_total_size(&huge), None);
    assert_eq!(checked_total_size(&[entry("a", 2, 1), entry("b", 3, 1)]), Some(5));
}

#[test]
fn refusal_persists_when_entries_are_added() {
    let mut entries = vec![entry("a", 20_000_000, 1)];
    assert!(precheck(&entries, 1000).is_err());
    entries.push(entry("b", 0, 0));
    assert!(precheck(&entries, 1000).is_err());
}

#[test]
fn entry_count_is_checked_before_reading() {
    assert!(check_entry_count(MAX_ENTRIES).is_ok());
    assert!(check_entry_count(0).is_ok());
    assert!(matches!(check_entry_count(MAX_ENTRIES + 1), Err(Error::ZipBomb)));
}

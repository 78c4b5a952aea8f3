//! Entries of an archive.
use vstd::prelude::*;

verus! {

/// One entry of an archive as it is listed.
#[derive(Clone, Debug)]
pub struct EntryInfo {
    /// Path inside the archive (`/`-separated).
    pub path: String,
    /// Size once extracted (0 for directories).
    pub size: u64,
    pub is_dir: bool,
    pub compressed_size: Option<u64>,
    pub method: Option<String>,
    /// Modification time (Unix seconds) where the archive records it.
    pub modified: Option<i64>,
    /// Whether the entry's data is encrypted.
    pub encrypted: bool,
}

/// What an archive reader reports of one entry.
#[derive(Clone, Debug)]
pub struct RawEntry {
    pub name: String,
    pub size: u64,
    pub compressed_size: u64,
    pub is_dir: bool,
    /// Whether the entry's data is encrypted.
    pub encrypted: bool,
    /// The reader's name of the compression method.
    pub method: String,
}

/// The sum of the extracted sizes of the entries.
pub open spec fn total_size(entries: Seq<RawEntry>) -> int
    decreases entries.len(),
{
    if entries.len() == 0 {
        0
    } else {
        total_size(entries.drop_last()) + entries.last().size
    }
}

/// The sum over a prefix is at most the sum over the whole.
pub proof fn lemma_total_size_prefix(entries: Seq<RawEntry>, i: int)
    requires
        0 <= i <= entries.len(),
    ensures
        0 <= total_size(entries.take(i)) <= total_size(entries),
    decreases entries.len(),
{
    if i < entries.len() {
        assert(entries.drop_last().take(i) =~= entries.take(i));
        lemma_total_size_prefix(entries.drop_last(), i);
    } else {
        assert(entries.take(i) =~= entries);
    }
    lemma_total_size_nonneg(entries);
}

pub proof fn lemma_total_size_nonneg(entries: Seq<RawEntry>)
    ensures
        total_size(entries) >= 0,
    decreases entries.len(),
{
    if entries.len() > 0 {
        lemma_total_size_nonneg(entries.drop_last());
    }
}

/// Adding one entry to a prefix.
pub proof fn lemma_total_size_step(entries: Seq<RawEntry>, i: int)
    requires
        0 <= i < entries.len(),
    ensures
        total_size(entries.take(i + 1)) == total_size(entries.take(i)) + entries[i].size,
{
    assert(entries.take(i + 1).drop_last() =~= entries.take(i));
}

/// The sum of the sizes of all entries, or `None` where it does not fit in a `u64`.
pub fn checked_total_size(entries: &[RawEntry]) -> (r: Option<u64>)
    ensures
        r matches Some(t) ==> t == total_size(entries@),
        r is None ==> total_size(entries@) > u64::MAX,
{
    let mut t: u64 = 0;
    let mut i: usize = 0;
    while i < entries.len()
        invariant
            i <= entries@.len(),
            t == total_size(entries@.take(i as int)),
        decreases entries.len() - i,
    {
        proof {
            lemma_total_size_step(entries@, i as int);
        }
        match t.checked_add(entries[i].size) {
            Some(v) => t = v,
            None => {
                proof {
                    lemma_total_size_prefix(entries@, i + 1);
                }
                return None;
            },
        }
        i = i + 1;
    }
    assert(entries@.take(i as int) =~= entries@);
    Some(t)
}

} // verus!

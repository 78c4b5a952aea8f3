//! ZIP archives: listing, archive-bomb limits, safe output paths and entry options.
use vstd::prelude::*;
use vstd::string::*;

use crate::entry::{lemma_total_size_prefix, lemma_total_size_step, total_size, EntryInfo, RawEntry};
use crate::error::{Error, IoKind};
use crate::options::CompressOptions;
use crate::text::{concat2, concat3, contains_char, owned};

verus! {

/// Most entries an archive may hold.
pub const MAX_ENTRIES: usize = 100_000;

/// Most bytes an archive may extract to in all (256 GiB).
pub const MAX_TOTAL_SIZE: u64 = 274_877_906_944;

/// Highest ratio of extracted to compressed size.
pub const MAX_RATIO: u64 = 10_000;

/// Refuses an archive of more than [`MAX_ENTRIES`] entries as a bomb, before any entry is read.
pub fn check_entry_count(n: usize) -> (r: Result<(), Error>)
    ensures
        n > MAX_ENTRIES ==> r matches Err(Error::ZipBomb),
        n <= MAX_ENTRIES ==> r is Ok,
{
    if n > MAX_ENTRIES {
        Err(Error::ZipBomb)
    } else {
        Ok(())
    }
}

/// The size an entry is listed with: 0 for a directory, else its extracted size.
pub open spec fn listed_size(e: RawEntry) -> u64 {
    if e.is_dir {
        0
    } else {
        e.size
    }
}

/// How a ZIP entry is listed.
pub open spec fn zip_info(e: RawEntry, info: EntryInfo) -> bool {
    &&& info.path@ == e.name@
    &&& info.size == listed_size(e)
    &&& info.is_dir == e.is_dir
    &&& info.compressed_size == Some(e.compressed_size)
    &&& info.method matches Some(m) && m@ == e.method@
    &&& info.modified is None
    &&& info.encrypted == e.encrypted
}

/// Lists the entries of a ZIP archive; an archive of more than [`MAX_ENTRIES`] entries is
/// refused as a bomb.
pub fn list(entries: &[RawEntry]) -> (r: Result<Vec<EntryInfo>, Error>)
    ensures
        entries@.len() > MAX_ENTRIES ==> r matches Err(Error::ZipBomb),
        entries@.len() <= MAX_ENTRIES ==> (r matches Ok(v) && v@.len() == entries@.len() && forall|
            i: int,
        |
            0 <= i < entries@.len() ==> #[trigger] zip_info(entries@[i], v@[i])),
        r matches Ok(v) ==> forall|i: int|
            0 <= i < v@.len() ==> (#[trigger] v@[i]).path@ == entries@[i].name@ && v@[i].is_dir
                == entries@[i].is_dir && v@[i].size == (if entries@[i].is_dir {
                0
            } else {
                entries@[i].size
            }) && v@[i].encrypted == entries@[i].encrypted && v@[i].modified is None,
        r matches Ok(v) ==> forall|i: int|
            0 <= i < v@.len() ==> (#[trigger] v@[i]).compressed_size == Some(
                entries@[i].compressed_size,
            ) && v@[i].method is Some && v@[i].method->0@ == entries@[i].method@,
{
    if entries.len() > MAX_ENTRIES {
        return Err(Error::ZipBomb);
    }
    let mut out: Vec<EntryInfo> = Vec::new();
    let mut i: usize = 0;
    while i < entries.len()
        invariant
            i <= entries@.len(),
            out@.len() == i,
            forall|j: int| 0 <= j < i ==> #[trigger] zip_info(entries@[j], out@[j]),
        decreases entries.len() - i,
    {
        let e = &entries[i];
        out.push(
            EntryInfo {
                path: owned(e.name.as_str()),
                size: if e.is_dir {
                    0
                } else {
                    e.size
                },
                is_dir: e.is_dir,
                compressed_size: Some(e.compressed_size),
                method: Some(owned(e.method.as_str())),
                modified: None,
                encrypted: e.encrypted,
            },
        );
        i = i + 1;
    }
    assert forall|k: int| 0 <= k < out@.len() implies zip_info(entries@[k], #[trigger] out@[k]) by {}
    Ok(out)
}

/// A ZIP listing reports each entry as the reader gave it: its path is the entry's name,
/// character for character; it is a directory exactly when the entry is one, and then has size
/// 0; a file has the entry's size; the compressed size and the method are the reader's.
pub proof fn zip_listing_keeps_names(entries: Seq<RawEntry>, v: Seq<EntryInfo>)
    requires
        v.len() == entries.len(),
        forall|i: int| 0 <= i < entries.len() ==> #[trigger] zip_info(entries[i], v[i]),
    ensures
        forall|i: int|
            0 <= i < v.len() ==> (#[trigger] v[i]).path@ == entries[i].name@ && v[i].is_dir
                == entries[i].is_dir && (v[i].is_dir ==> v[i].size == 0) && (!v[i].is_dir
                ==> v[i].size == entries[i].size) && v[i].compressed_size == Some(
                entries[i].compressed_size,
            ),
{
    assert forall|i: int| 0 <= i < v.len() implies (#[trigger] v[i]).path@ == entries[i].name@
        && v[i].is_dir == entries[i].is_dir && (v[i].is_dir ==> v[i].size == 0) && (!v[i].is_dir
        ==> v[i].size == entries[i].size) && v[i].compressed_size == Some(
        entries[i].compressed_size,
    ) by {
        assert(zip_info(entries[i], v[i]));
    }
}

/// The limits on the extracted size hold: at most [`MAX_TOTAL_SIZE`] in all and, where the
/// archive has a size, at most [`MAX_RATIO`] times that size.
pub open spec fn within_size_limits(total: int, compressed: u64) -> bool {
    &&& total <= MAX_TOTAL_SIZE
    &&& (compressed == 0 || total / (compressed as int) <= MAX_RATIO)
}

/// Refuses an archive whose entries extract to more than the limits allow
/// (`compressed` is the size of the archive file, 0 where it is not known).
pub fn check_bomb(entries: &[RawEntry], compressed: u64) -> (r: Result<(), Error>)
    ensures
        within_size_limits(total_size(entries@), compressed) ==> r is Ok,
        !within_size_limits(total_size(entries@), compressed) ==> r matches Err(Error::ZipBomb),
{
    let mut uncompressed: u64 = 0;
    let mut i: usize = 0;
    while i < entries.len()
        invariant
            i <= entries@.len(),
            uncompressed == total_size(entries@.take(i as int)),
            uncompressed <= MAX_TOTAL_SIZE,
        decreases entries.len() - i,
    {
        proof {
            lemma_total_size_step(entries@, i as int);
        }
        uncompressed = uncompressed.saturating_add(entries[i].size);
        if uncompressed > MAX_TOTAL_SIZE {
            proof {
                lemma_total_size_prefix(entries@, i + 1);
            }
            return Err(Error::ZipBomb);
        }
        i = i + 1;
    }
    assert(entries@.take(i as int) =~= entries@);
    if compressed > 0 && uncompressed / compressed > MAX_RATIO {
        return Err(Error::ZipBomb);
    }
    Ok(())
}

/// The checks made before a ZIP archive is extracted: the number of entries and the size
/// limits. Gives the total extracted size.
pub open spec fn precheck_result(entries: Seq<RawEntry>, compressed: u64, r: Result<u64, Error>) -> bool {
    if entries.len() > MAX_ENTRIES || !within_size_limits(total_size(entries), compressed) {
        r matches Err(Error::ZipBomb)
    } else {
        r matches Ok(t) && t == total_size(entries)
    }
}

/// Checks an archive before extraction and gives the total extracted size.
pub fn precheck(entries: &[RawEntry], compressed: u64) -> (r: Result<u64, Error>)
    ensures
        precheck_result(entries@, compressed, r),
{
    if entries.len() > MAX_ENTRIES {
        return Err(Error::ZipBomb);
    }
    match check_bomb(entries, compressed) {
        Err(e) => return Err(e),
        Ok(()) => {},
    }
    let mut t: u64 = 0;
    let mut i: usize = 0;
    while i < entries.len()
        invariant
            i <= entries@.len(),
            t == total_size(entries@.take(i as int)),
            total_size(entries@) <= MAX_TOTAL_SIZE,
        decreases entries.len() - i,
    {
        proof {
            lemma_total_size_step(entries@, i as int);
            lemma_total_size_prefix(entries@, i + 1);
        }
        t = t + entries[i].size;
        i = i + 1;
    }
    assert(entries@.take(i as int) =~= entries@);
    Ok(t)
}

proof fn lemma_total_size_append(a: Seq<RawEntry>, b: Seq<RawEntry>)
    ensures
        total_size(a + b) == total_size(a) + total_size(b),
    decreases b.len(),
{
    if b.len() == 0 {
        assert(a + b =~= a);
    } else {
        assert((a + b).drop_last() =~= a + b.drop_last());
        lemma_total_size_append(a, b.drop_last());
    }
}

/// An archive refused as a bomb stays refused whatever entries are added to it.
pub proof fn bomb_refusal_persists(
    entries: Seq<RawEntry>,
    extra: Seq<RawEntry>,
    compressed: u64,
    r1: Result<u64, Error>,
    r2: Result<u64, Error>,
)
    requires
        precheck_result(entries, compressed, r1),
        precheck_result(entries + extra, compressed, r2),
        r1 is Err,
    ensures
        r2 matches Err(Error::ZipBomb),
{
    lemma_total_size_append(entries, extra);
    crate::entry::lemma_total_size_nonneg(extra);
    if compressed > 0 {
        vstd::arithmetic::div_mod::lemma_div_is_ordered(
            total_size(entries),
            total_size(entries + extra),
            compressed as int,
        );
    }
}

/// A path separator in an entry name (`\` is read as `/`).
pub open spec fn is_sep(c: char) -> bool {
    c == '/' || c == '\\'
}

/// A `..` component starts at index `i` of the name.
pub open spec fn parent_at(n: Seq<char>, i: int) -> bool {
    &&& 0 <= i
    &&& i + 1 < n.len()
    &&& n[i] == '.'
    &&& n[i + 1] == '.'
    &&& (i == 0 || is_sep(n[i - 1]))
    &&& (i + 2 == n.len() || is_sep(n[i + 2]))
}

pub open spec fn has_parent(n: Seq<char>) -> bool {
    exists|i: int| parent_at(n, i)
}

/// An entry name that would leave the output directory: absolute (`/` or `\` first), with a
/// drive or stream prefix (`:` anywhere), or with a `..` component.
pub open spec fn escapes(n: Seq<char>) -> bool {
    ||| (n.len() > 0 && is_sep(n[0]))
    ||| n.contains(':')
    ||| has_parent(n)
}

/// `name` appended to the directory `dir` (`Path::join` with `/` as the separator, for a
/// relative `name`).
pub open spec fn join_path(dir: Seq<char>, name: Seq<char>) -> Seq<char> {
    if dir.len() == 0 {
        name
    } else if dir.last() == '/' {
        dir + name
    } else {
        dir + seq!['/'] + name
    }
}

pub open spec fn msg_empty_name() -> Seq<char> {
    "空条目名"@
}

/// The outcome of placing the entry `name` under `out_dir`.
pub open spec fn safe_join_result(out_dir: Seq<char>, name: Seq<char>, r: Result<String, Error>) -> bool {
    if name.len() == 0 {
        r matches Err(Error::PathTraversal(m)) && m@ == msg_empty_name()
    } else if escapes(name) {
        r matches Err(Error::PathTraversal(m)) && m@ == name
    } else {
        r matches Ok(p) && p@ == join_path(out_dir, name)
    }
}

fn sep_exec(c: char) -> (r: bool)
    ensures
        r == is_sep(c),
{
    c == '/' || c == '\\'
}

fn parent_at_exec(name: &str, n: usize, i: usize) -> (r: bool)
    requires
        n == name@.len(),
        i < n,
    ensures
        r == parent_at(name@, i as int),
{
    i + 1 < n && name.get_char(i) == '.' && name.get_char(i + 1) == '.' && (i == 0 || sep_exec(
        name.get_char(i - 1),
    )) && (i + 2 == n || sep_exec(name.get_char(i + 2)))
}

/// Whether the name has a `..` component.
pub fn has_parent_component(name: &str) -> (r: bool)
    ensures
        r == has_parent(name@),
{
    let n = name.unicode_len();
    let mut i: usize = 0;
    while i < n
        invariant
            n == name@.len(),
            i <= n,
            forall|j: int| 0 <= j < i ==> !parent_at(name@, j),
        decreases n - i,
    {
        if parent_at_exec(name, n, i) {
            return true;
        }
        i = i + 1;
    }
    assert forall|j: int| !parent_at(name@, j) by {
        if 0 <= j < n {
        }
    }
    false
}

/// The directory `dir` with `name` appended (see [`join_path`]).
pub fn join(dir: &str, name: &str) -> (r: String)
    ensures
        r@ == join_path(dir@, name@),
{
    let n = dir.unicode_len();
    if n == 0 {
        owned(name)
    } else if dir.get_char(n - 1) == '/' {
        concat2(dir, name)
    } else {
        proof {
            reveal_strlit("/");
        }
        concat3(dir, "/", name)
    }
}

/// The output path of the entry `name` under `out_dir`; refuses empty names and names that
/// would leave `out_dir` (see [`escapes`]).
pub fn safe_join(out_dir: &str, name: &str) -> (r: Result<String, Error>)
    ensures
        safe_join_result(out_dir@, name@, r),
{
    let n = name.unicode_len();
    if n == 0 {
        return Err(Error::PathTraversal(owned("空条目名")));
    }
    let first = name.get_char(0);
    if sep_exec(first) || contains_char(name, ':') || has_parent_component(name) {
        return Err(Error::PathTraversal(owned(name)));
    }
    Ok(join(out_dir, name))
}

/// A path accepted by [`safe_join`] lies inside the output directory: it is the directory
/// followed by a relative name that has no `..` component and no drive prefix.
pub proof fn safe_join_stays_inside(out_dir: Seq<char>, name: Seq<char>, r: Result<String, Error>)
    requires
        safe_join_result(out_dir, name, r),
        r is Ok,
    ensures
        r matches Ok(p) && p@.len() >= out_dir.len() && p@.subrange(0, out_dir.len() as int)
            == out_dir && p@.subrange(p@.len() - name.len(), p@.len() as int) == name,
        name.len() > 0,
        !is_sep(name[0]),
        !name.contains(':'),
        forall|i: int| !parent_at(name, i),
{
    if let Ok(p) = r {
        if out_dir.len() == 0 {
            assert(p@.subrange(0, 0) =~= out_dir);
            assert(p@.subrange(0, p@.len() as int) =~= name);
        } else if out_dir.last() == '/' {
            assert(p@.subrange(0, out_dir.len() as int) =~= out_dir);
            assert(p@.subrange(p@.len() - name.len(), p@.len() as int) =~= name);
        } else {
            assert(p@.subrange(0, out_dir.len() as int) =~= out_dir);
            assert(p@.subrange(p@.len() - name.len(), p@.len() as int) =~= name);
        }
    }
}

/// The error a failed copy of an entry's data becomes: for an encrypted entry a read refused
/// as invalid input means a wrong password.
pub open spec fn copy_error(kind: IoKind, message: Seq<char>, encrypted: bool, r: Error) -> bool {
    if encrypted && kind == IoKind::InvalidInput {
        r is BadPassword
    } else {
        r matches Error::Io(k, m) && k == kind && m@ == message
    }
}

/// See [`copy_error`].
pub fn map_copy_error(kind: IoKind, message: &str, encrypted: bool) -> (r: Error)
    ensures
        copy_error(kind, message@, encrypted, r),
{
    if encrypted && kind == IoKind::InvalidInput {
        Error::BadPassword
    } else {
        Error::Io(kind, owned(message))
    }
}

/// How each ZIP entry is written.
#[derive(Clone, Debug)]
pub struct ZipEntryOptions {
    /// Store without compressing (else deflate).
    pub stored: bool,
    /// The compression level handed to the writer.
    pub level: u32,
    /// Entries are written in the ZIP64 format where they need it.
    pub large_file: bool,
    /// AES-256 password.
    pub aes_password: Option<String>,
}

/// The options of every entry of a ZIP archive written with `opts`: level 0 stores, any
/// other level deflates at that level; a password encrypts with AES-256.
pub fn entry_options(opts: &CompressOptions) -> (r: ZipEntryOptions)
    ensures
        r.stored == (opts.level == 0),
        r.level == opts.level,
        r.large_file,
        opts.password is None ==> r.aes_password is None,
        opts.password matches Some(p) ==> (r.aes_password matches Some(q) && q@ == p@),
{
    let aes_password = match &opts.password {
        Some(p) => Some(owned(p.as_str())),
        None => None,
    };
    ZipEntryOptions { stored: opts.level == 0, level: opts.level, large_file: true, aes_password }
}

} // verus!

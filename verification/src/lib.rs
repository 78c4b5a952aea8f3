//! LitePack: the decisions of a ZIP / 7z archive tool — format recognition, archive-bomb
//! limits, safe output paths, and the step-by-step plans of compression and extraction that a
//! front end carries out against the file system.
pub mod cli;
pub mod context_menu;
pub mod entry;
pub mod error;
pub mod format;
pub mod gui;
pub mod options;
pub mod progress;
pub mod sevenz;
pub mod shell;
pub mod text;
pub mod walk;
pub mod zip;

pub use entry::{EntryInfo, RawEntry};
pub use error::{Error, IoKind, Result};
pub use format::{detect_format, ArchiveFormat};
pub use options::{CompressOptions, ExtractOptions, OverwriteMode};
pub use progress::{CancelHandle, Phase, ProgressReport, ProgressSink};
pub use walk::CompressEntry;

use vstd::prelude::*;
use vstd::string::*;

use crate::format::{ext_result, extension_of};
use crate::text::{concat2, ends_with_char, owned};
use crate::zip::{precheck_result, safe_join_result};

verus! {

/// Lists an archive of the given format from what its reader reports of each entry.
pub fn list(format: ArchiveFormat, entries: &[RawEntry]) -> (r: core::result::Result<
    Vec<EntryInfo>,
    Error,
>)
    ensures
        entries@.len() > zip::MAX_ENTRIES ==> r matches Err(Error::ZipBomb),
        entries@.len() <= zip::MAX_ENTRIES ==> (r matches Ok(v) && v@.len() == entries@.len()),
        format == ArchiveFormat::Zip && r is Ok ==> (r matches Ok(v) && forall|i: int|
            0 <= i < entries@.len() ==> #[trigger] zip::zip_info(entries@[i], v@[i])),
        format == ArchiveFormat::SevenZ && r is Ok ==> (r matches Ok(v) && forall|i: int|
            0 <= i < entries@.len() ==> #[trigger] sevenz::sevenz_info(entries@[i], v@[i])),
        r matches Ok(v) ==> forall|i: int|
            0 <= i < v@.len() ==> (#[trigger] v@[i]).path@ == entries@[i].name@ && v@[i].is_dir
                == entries@[i].is_dir && v@[i].size == (if entries@[i].is_dir {
                0
            } else {
                entries@[i].size
            }) && v@[i].encrypted == entries@[i].encrypted,
{
    match format {
        ArchiveFormat::Zip => zip::list(entries),
        ArchiveFormat::SevenZ => sevenz::list(entries),
    }
}

/// A name in the archive that stands for a directory.
pub open spec fn names_dir(name: Seq<char>) -> bool {
    name.len() > 0 && name.last() == '/'
}

/// The bytes to compress: the sizes of the sources that are files, where their size is known
/// (`sizes[i]` is the size of `entries[i].src`, `None` where it could not be read).
pub open spec fn compress_total(entries: Seq<CompressEntry>, sizes: Seq<Option<u64>>) -> int
    decreases entries.len(),
{
    if entries.len() == 0 || sizes.len() == 0 {
        0
    } else {
        compress_total(entries.drop_last(), sizes.drop_last()) + if !names_dir(entries.last().name@)
            && sizes.last() is Some {
            sizes.last()->0 as int
        } else {
            0
        }
    }
}

proof fn lemma_compress_total_prefix(entries: Seq<CompressEntry>, sizes: Seq<Option<u64>>, i: int)
    requires
        entries.len() == sizes.len(),
        0 <= i <= entries.len(),
    ensures
        0 <= compress_total(entries.take(i), sizes.take(i)) <= compress_total(entries, sizes),
    decreases entries.len(),
{
    if i < entries.len() {
        assert(entries.drop_last().take(i) =~= entries.take(i));
        assert(sizes.drop_last().take(i) =~= sizes.take(i));
        lemma_compress_total_prefix(entries.drop_last(), sizes.drop_last(), i);
    } else {
        assert(entries.take(i) =~= entries);
        assert(sizes.take(i) =~= sizes);
        lemma_compress_total_nonneg(entries, sizes);
    }
}

proof fn lemma_compress_total_nonneg(entries: Seq<CompressEntry>, sizes: Seq<Option<u64>>)
    ensures
        compress_total(entries, sizes) >= 0,
    decreases entries.len(),
{
    if entries.len() > 0 && sizes.len() > 0 {
        lemma_compress_total_nonneg(entries.drop_last(), sizes.drop_last());
    }
}

/// The bytes to compress add up: the total of two lists of sources one after the other is the
/// sum of their totals.
pub proof fn compress_total_adds_up(
    e1: Seq<CompressEntry>,
    s1: Seq<Option<u64>>,
    e2: Seq<CompressEntry>,
    s2: Seq<Option<u64>>,
)
    requires
        e1.len() == s1.len(),
        e2.len() == s2.len(),
    ensures
        compress_total(e1 + e2, s1 + s2) == compress_total(e1, s1) + compress_total(e2, s2),
    decreases e2.len(),
{
    if e2.len() == 0 {
        assert(e1 + e2 =~= e1);
        assert(s1 + s2 =~= s1);
    } else {
        assert((e1 + e2).drop_last() =~= e1 + e2.drop_last());
        assert((s1 + s2).drop_last() =~= s1 + s2.drop_last());
        compress_total_adds_up(e1, s1, e2.drop_last(), s2.drop_last());
    }
}

/// One source counts its size when it is a file (its name does not end with `/`) of known
/// size, and nothing otherwise; no sources count nothing.
pub proof fn compress_total_of_one(e: CompressEntry, size: Option<u64>)
    ensures
        compress_total(seq![], seq![]) == 0,
        (e.name@.len() == 0 || e.name@.last() != '/') && size is Some ==> compress_total(
            seq![e],
            seq![size],
        ) == size->0,
        (e.name@.len() > 0 && e.name@.last() == '/') || size is None ==> compress_total(
            seq![e],
            seq![size],
        ) == 0,
{
    assert(seq![e].drop_last() =~= Seq::<CompressEntry>::empty());
    assert(seq![size].drop_last() =~= Seq::<Option<u64>>::empty());
}

/// The bytes to compress, or `None` where the sum does not fit in a `u64`.
pub fn checked_compress_total(entries: &[CompressEntry], sizes: &[Option<u64>]) -> (r: Option<u64>)
    requires
        entries@.len() == sizes@.len(),
    ensures
        r matches Some(t) ==> t == compress_total(entries@, sizes@),
        r is None ==> compress_total(entries@, sizes@) > u64::MAX,
{
    let mut t: u64 = 0;
    let mut i: usize = 0;
    while i < entries.len()
        invariant
            entries@.len() == sizes@.len(),
            i <= entries@.len(),
            t == compress_total(entries@.take(i as int), sizes@.take(i as int)),
        decreases entries.len() - i,
    {
        assert(entries@.take(i + 1).drop_last() =~= entries@.take(i as int));
        assert(sizes@.take(i + 1).drop_last() =~= sizes@.take(i as int));
        let is_dir = ends_with_char(entries[i].name.as_str(), '/');
        if !is_dir {
            match sizes[i] {
                Some(s) => match t.checked_add(s) {
                    Some(v) => t = v,
                    None => {
                        proof {
                            lemma_compress_total_prefix(entries@, sizes@, i + 1);
                        }
                        return None;
                    },
                },
                None => {},
            }
        }
        i = i + 1;
    }
    assert(entries@.take(i as int) =~= entries@);
    assert(sizes@.take(i as int) =~= sizes@);
    Some(t)
}

/// A compression in progress: the format, the output, the sources in the order they are
/// added, how many were handed out, the bytes done out of the total, and the reports made so
/// far.
pub struct Compression {
    format: ArchiveFormat,
    out: String,
    total: u64,
    done: u64,
    entries: Vec<CompressEntry>,
    position: usize,
    finished: bool,
    trace: Ghost<Seq<ProgressReport>>,
}

impl Compression {
    pub closed spec fn archive_format(&self) -> ArchiveFormat {
        self.format
    }

    /// The format of the archive being written.
    pub fn format(&self) -> (r: ArchiveFormat)
        ensures
            r == self.archive_format(),
    {
        self.format
    }

    pub closed spec fn out_path(&self) -> Seq<char> {
        self.out@
    }

    pub closed spec fn total_bytes(&self) -> u64 {
        self.total
    }

    pub closed spec fn done_bytes(&self) -> u64 {
        self.done
    }

    /// The sources (source path, name in the archive) in the order they are added.
    pub closed spec fn sources(&self) -> Seq<(Seq<char>, Seq<char>)> {
        crate::walk::entry_pairs(self.entries@)
    }

    /// How many sources were handed out.
    pub closed spec fn position(&self) -> nat {
        self.position as nat
    }

    /// Whether the last report was made.
    pub closed spec fn finished(&self) -> bool {
        self.finished
    }

    /// The progress reports made so far, in order.
    pub closed spec fn reports(&self) -> Seq<ProgressReport> {
        self.trace@
    }

    /// The reports agree with the sources: one report per source handed out, in their order,
    /// each naming its source with the total, with bytes done that never go down and never pass
    /// the bytes done now; then, once finished, one last report for the output.
    pub closed spec fn trace_ok(&self) -> bool {
        &&& self.position <= self.entries@.len()
        &&& self.trace@.len() == self.position + if self.finished {
            1int
        } else {
            0int
        }
        &&& self.finished ==> self.position == self.entries@.len()
        &&& forall|i: int|
            0 <= i < self.position ==> {
                &&& (#[trigger] self.trace@[i]).phase == Phase::Compressing
                &&& self.trace@[i].current_file@ == self.entries@[i].src@
                &&& self.trace@[i].total_bytes == self.total
                &&& self.trace@[i].done_bytes <= self.done
            }
        &&& forall|i: int, j: int|
            0 <= i <= j < self.position ==> (#[trigger] self.trace@[i]).done_bytes
                <= (#[trigger] self.trace@[j]).done_bytes
        &&& self.finished ==> {
            &&& self.trace@.last().phase == Phase::Compressing
            &&& self.trace@.last().current_file@ == self.out@
            &&& self.trace@.last().done_bytes == self.total
            &&& self.trace@.last().total_bytes == self.total
        }
    }

    /// Bytes compressed so far.
    pub fn done(&self) -> (r: u64)
        ensures
            r == self.done_bytes(),
    {
        self.done
    }

    /// Bytes to compress in all.
    pub fn total(&self) -> (r: u64)
        ensures
            r == self.total_bytes(),
    {
        self.total
    }
}

/// Over a whole compression, the progress reports follow the sources: the `i`th report names
/// the `i`th source, in the compressing phase, with the total; the bytes done never go down
/// from one report to the next; and the last report, once made, names the output with all
/// bytes done. Every operation of [`Compression`] keeps this.
pub proof fn compression_reports_follow_the_sources(c: Compression)
    requires
        c.trace_ok(),
    ensures
        c.position() <= c.sources().len(),
        c.reports().len() == c.position() + if c.finished() {
            1int
        } else {
            0int
        },
        c.finished() ==> c.position() == c.sources().len(),
        forall|i: int|
            0 <= i < c.position() ==> (#[trigger] c.reports()[i]).phase == Phase::Compressing
                && c.reports()[i].current_file@ == c.sources()[i].0 && c.reports()[i].total_bytes
                == c.total_bytes() && c.reports()[i].done_bytes <= c.done_bytes(),
        forall|i: int, j: int|
            0 <= i <= j < c.position() ==> (#[trigger] c.reports()[i]).done_bytes
                <= (#[trigger] c.reports()[j]).done_bytes,
        c.finished() ==> c.reports().last().phase == Phase::Compressing
            && c.reports().last().current_file@ == c.out_path() && c.reports().last().done_bytes
            == c.total_bytes() && c.reports().last().total_bytes == c.total_bytes(),
{
    assert forall|i: int| 0 <= i < c.position() implies (#[trigger] c.reports()[i]).phase
        == Phase::Compressing && c.reports()[i].current_file@ == c.sources()[i].0
        && c.reports()[i].total_bytes == c.total_bytes() && c.reports()[i].done_bytes
        <= c.done_bytes() by {
        assert(c.sources()[i] == crate::walk::entry_pair(c.entries@[i]));
    }
}

pub open spec fn msg_exists() -> Seq<char> {
    "输出已存在: "@
}

/// The outcome of starting to compress into `out`.
pub open spec fn compress_start(
    entries: Seq<CompressEntry>,
    out: Seq<char>,
    overwrite: bool,
    out_exists: bool,
    sizes: Seq<Option<u64>>,
    r: core::result::Result<Compression, Error>,
) -> bool {
    match format::format_of_ext(extension_of(out)) {
        None => ext_result(extension_of(out), match r {
            Ok(c) => Ok::<ArchiveFormat, Error>(c.archive_format()),
            Err(e) => Err(e),
        }),
        Some(f) => if out_exists && !overwrite {
            r matches Err(Error::Io(k, m)) && k == IoKind::AlreadyExists && m@ == msg_exists() + out
        } else {
            r matches Ok(c) && c.archive_format() == f && c.out_path() == out && c.total_bytes()
                == compress_total(entries, sizes) && c.done_bytes() == 0 && c.sources()
                == crate::walk::entry_pairs(entries) && c.position() == 0 && !c.finished()
                && c.reports() == Seq::<ProgressReport>::empty() && c.trace_ok()
        },
    }
}

fn copy_entries(entries: &[CompressEntry]) -> (r: Vec<CompressEntry>)
    ensures
        crate::walk::entry_pairs(r@) == crate::walk::entry_pairs(entries@),
        r@.len() == entries@.len(),
        forall|i: int| 0 <= i < r@.len() ==> (#[trigger] r@[i]).src@ == entries@[i].src@,
{
    let mut r: Vec<CompressEntry> = Vec::new();
    let mut i: usize = 0;
    while i < entries.len()
        invariant
            i <= entries@.len(),
            r@.len() == i,
            forall|j: int| 0 <= j < i ==> (#[trigger] r@[j]).src@ == entries@[j].src@ && r@[j].name@
                == entries@[j].name@,
        decreases entries.len() - i,
    {
        r.push(
            CompressEntry {
                src: owned(entries[i].src.as_str()),
                name: owned(entries[i].name.as_str()),
            },
        );
        i = i + 1;
    }
    assert(crate::walk::entry_pairs(r@) =~= crate::walk::entry_pairs(entries@));
    r
}

/// Starts compressing `entries` into the archive `out`: the format comes from the extension of
/// `out`; an existing output is refused unless `opts.overwrite`. `out_exists` says whether `out`
/// exists and `sizes[i]` is the size of `entries[i].src` where it could be read.
pub fn compress(
    entries: &[CompressEntry],
    out: &str,
    opts: &CompressOptions,
    out_exists: bool,
    sizes: &[Option<u64>],
) -> (r: core::result::Result<Compression, Error>)
    requires
        entries@.len() == sizes@.len(),
        compress_total(entries@, sizes@) <= u64::MAX,
    ensures
        compress_start(entries@, out@, opts.overwrite, out_exists, sizes@, r),
{
    let format = match ArchiveFormat::from_extension(out) {
        Ok(f) => f,
        Err(e) => return Err(e),
    };
    if out_exists && !opts.overwrite {
        return Err(Error::Io(IoKind::AlreadyExists, concat2("输出已存在: ", out)));
    }
    let total = match checked_compress_total(entries, sizes) {
        Some(t) => t,
        None => 0,
    };
    Ok(
        Compression {
            format,
            out: owned(out),
            total,
            done: 0,
            entries: copy_entries(entries),
            position: 0,
            finished: false,
            trace: Ghost(Seq::empty()),
        },
    )
}

/// What to do with one source: the source, its progress report, and whether it is a
/// directory.
pub struct CompressStep {
    pub entry: CompressEntry,
    pub report: ProgressReport,
    pub is_dir: bool,
}

impl Compression {
    /// The next source to add, in order: refused when the operation was cancelled; none once
    /// every source was handed out; else the source, reported with the bytes done so far, and
    /// marked as a directory where its name ends with `/`.
    pub fn next_step(&mut self, cancelled: bool) -> (r: core::result::Result<
        Option<CompressStep>,
        Error,
    >)
        requires
            old(self).trace_ok(),
            !old(self).finished(),
        ensures
            final(self).trace_ok(),
            !final(self).finished(),
            final(self).sources() == old(self).sources(),
            final(self).done_bytes() == old(self).done_bytes(),
            final(self).total_bytes() == old(self).total_bytes(),
            final(self).out_path() == old(self).out_path(),
            final(self).archive_format() == old(self).archive_format(),
            cancelled ==> (r matches Err(Error::Cancelled) && final(self).position() == old(
                self,
            ).position() && final(self).reports() == old(self).reports()),
            !cancelled && old(self).position() == old(self).sources().len() ==> (r matches Ok(None)
                && final(self).position() == old(self).position() && final(self).reports()
                == old(self).reports()),
            !cancelled && old(self).position() < old(self).sources().len() ==> (r matches Ok(Some(s))
                && (s.entry.src@, s.entry.name@) == old(self).sources()[old(self).position() as int]
                && s.is_dir == names_dir(s.entry.name@) && s.report.phase == Phase::Compressing
                && s.report.current_file@ == s.entry.src@ && s.report.done_bytes
                == old(self).done_bytes() && s.report.total_bytes == old(self).total_bytes()
                && final(self).position() == old(self).position() + 1 && final(self).reports()
                == old(self).reports().push(s.report)),
    {
        if cancelled {
            return Err(Error::Cancelled);
        }
        if self.position >= self.entries.len() {
            return Ok(None);
        }
        let e = &self.entries[self.position];
        assert(self.sources()[self.position as int] == crate::walk::entry_pair(self.entries@[self.position as int]));
        let entry = CompressEntry { src: owned(e.src.as_str()), name: owned(e.name.as_str()) };
        let report = ProgressReport {
            phase: Phase::Compressing,
            current_file: owned(e.src.as_str()),
            done_bytes: self.done,
            total_bytes: self.total,
        };
        let is_dir = ends_with_char(e.name.as_str(), '/');
        let ghost old_trace = self.trace@;
        let ghost rep = report;
        self.trace = Ghost(self.trace@.push(rep));
        self.position = self.position + 1;
        assert forall|i: int, j: int| 0 <= i <= j < self.position implies (#[trigger] self.trace@[i]).done_bytes
            <= (#[trigger] self.trace@[j]).done_bytes by {
            if j < self.position - 1 {
                assert(self.trace@[i] == old_trace[i]);
                assert(self.trace@[j] == old_trace[j]);
            } else if i < self.position - 1 {
                assert(self.trace@[i] == old_trace[i]);
            }
        }
        assert forall|i: int| 0 <= i < self.position implies {
            &&& (#[trigger] self.trace@[i]).phase == Phase::Compressing
            &&& self.trace@[i].current_file@ == self.entries@[i].src@
            &&& self.trace@[i].total_bytes == self.total
            &&& self.trace@[i].done_bytes <= self.done
        } by {
            if i < self.position - 1 {
                assert(self.trace@[i] == old_trace[i]);
            }
        }
        Ok(Some(CompressStep { entry, report, is_dir }))
    }

    /// Counts `n` more bytes as done.
    pub fn advance(&mut self, n: u64)
        requires
            old(self).done_bytes() + n <= u64::MAX,
        ensures
            final(self).done_bytes() == old(self).done_bytes() + n,
            final(self).total_bytes() == old(self).total_bytes(),
            final(self).out_path() == old(self).out_path(),
            final(self).archive_format() == old(self).archive_format(),
            final(self).sources() == old(self).sources(),
            final(self).position() == old(self).position(),
            final(self).finished() == old(self).finished(),
            final(self).reports() == old(self).reports(),
            old(self).trace_ok() ==> final(self).trace_ok(),
    {
        self.done = self.done + n;
    }

    /// The last report, once every source was handed out: the output with all bytes done.
    pub fn finish_report(&mut self) -> (r: ProgressReport)
        requires
            old(self).trace_ok(),
            !old(self).finished(),
            old(self).position() == old(self).sources().len(),
        ensures
            r.phase == Phase::Compressing,
            r.current_file@ == old(self).out_path(),
            r.done_bytes == old(self).total_bytes(),
            r.total_bytes == old(self).total_bytes(),
            final(self).reports() == old(self).reports().push(r),
            final(self).finished(),
            final(self).trace_ok(),
            final(self).sources() == old(self).sources(),
            final(self).position() == old(self).position(),
            final(self).done_bytes() == old(self).done_bytes(),
            final(self).total_bytes() == old(self).total_bytes(),
            final(self).out_path() == old(self).out_path(),
            final(self).archive_format() == old(self).archive_format(),
    {
        let report = ProgressReport {
            phase: Phase::Compressing,
            current_file: owned(self.out.as_str()),
            done_bytes: self.total,
            total_bytes: self.total,
        };
        let ghost old_trace = self.trace@;
        let ghost rep = report;
        self.trace = Ghost(self.trace@.push(rep));
        self.finished = true;
        assert forall|i: int| 0 <= i < self.position implies {
            &&& (#[trigger] self.trace@[i]).phase == Phase::Compressing
            &&& self.trace@[i].current_file@ == self.entries@[i].src@
            &&& self.trace@[i].total_bytes == self.total
            &&& self.trace@[i].done_bytes <= self.done
        } by {
            assert(self.trace@[i] == old_trace[i]);
        }
        assert forall|i: int, j: int| 0 <= i <= j < self.position implies (#[trigger] self.trace@[i]).done_bytes
            <= (#[trigger] self.trace@[j]).done_bytes by {
            assert(self.trace@[i] == old_trace[i]);
            assert(self.trace@[j] == old_trace[j]);
        }
        report
    }

    /// The file to remove once the compression has ended with `e`: a cancelled compression
    /// removes its partly written output; any other failure leaves the file as it is.
    pub fn cleanup(&self, e: &Error) -> (r: Option<String>)
        ensures
            *e is Cancelled ==> (r matches Some(p) && p@ == self.out_path()),
            !(*e is Cancelled) ==> r is None,
    {
        match e {
            Error::Cancelled => Some(owned(self.out.as_str())),
            _ => None,
        }
    }
}

/// An extraction in progress: where it writes, its options, and the bytes done out of the
/// total.
pub struct Extraction {
    out_dir: String,
    has_password: bool,
    overwrite: OverwriteMode,
    total: u64,
    done: u64,
    created: Vec<String>,
}

impl Extraction {
    pub closed spec fn out_dir_path(&self) -> Seq<char> {
        self.out_dir@
    }

    pub closed spec fn with_password(&self) -> bool {
        self.has_password
    }

    pub closed spec fn mode(&self) -> OverwriteMode {
        self.overwrite
    }

    pub closed spec fn total_bytes(&self) -> u64 {
        self.total
    }

    pub closed spec fn done_bytes(&self) -> u64 {
        self.done
    }

    /// The files this extraction has created (written where no file was before), in order.
    pub closed spec fn created_files(&self) -> Seq<Seq<char>> {
        crate::walk::views(self.created@)
    }

    /// Bytes extracted so far.
    pub fn done(&self) -> (r: u64)
        ensures
            r == self.done_bytes(),
    {
        self.done
    }

    /// Bytes to extract in all.
    pub fn total(&self) -> (r: u64)
        ensures
            r == self.total_bytes(),
    {
        self.total
    }
}

/// Starts extracting an archive of the given format into `out_dir`, after the checks against
/// archive bombs (`compressed` is the size of the archive file, 0 where unknown).
pub fn decompress(
    format: ArchiveFormat,
    entries: &[RawEntry],
    compressed: u64,
    out_dir: &str,
    opts: &ExtractOptions,
) -> (r: core::result::Result<Extraction, Error>)
    ensures
        precheck_result(
            entries@,
            compressed,
            match r {
                Ok(x) => Ok::<u64, Error>(x.total_bytes()),
                Err(e) => Err(e),
            },
        ),
        r matches Ok(x) ==> x.created_files() == Seq::<Seq<char>>::empty() && x.out_dir_path()
            == out_dir@ && x.with_password() == (
        opts.password is Some) && x.mode() == opts.overwrite && x.done_bytes() == 0,
{
    let checked = match format {
        ArchiveFormat::Zip => zip::precheck(entries, compressed),
        ArchiveFormat::SevenZ => sevenz::precheck(entries, compressed),
    };
    match checked {
        Err(e) => Err(e),
        Ok(total) => Ok(
            Extraction {
                out_dir: owned(out_dir),
                has_password: opts.password.is_some(),
                overwrite: opts.overwrite,
                total,
                done: 0,
                created: Vec::new(),
            },
        ),
    }
}

/// What to do with one entry: create the directory, or write the file, at this path.
#[derive(Debug)]
pub enum EntryStep {
    MakeDir(String),
    Write(String),
}

/// The outcome of the step for one entry.
pub open spec fn entry_step_result(
    out_dir: Seq<char>,
    has_password: bool,
    name: Seq<char>,
    is_dir: bool,
    encrypted: bool,
    cancelled: bool,
    r: core::result::Result<EntryStep, Error>,
) -> bool {
    if cancelled {
        r matches Err(Error::Cancelled)
    } else if encrypted && !has_password {
        r matches Err(Error::Encrypted)
    } else {
        match r {
            Ok(EntryStep::MakeDir(p)) => is_dir && safe_join_result(
                out_dir,
                name,
                Ok::<String, Error>(p),
            ),
            Ok(EntryStep::Write(p)) => !is_dir && safe_join_result(
                out_dir,
                name,
                Ok::<String, Error>(p),
            ),
            Err(e) => safe_join_result(out_dir, name, Err::<String, Error>(e)),
        }
    }
}

impl Extraction {
    /// The step for the entry `name`: refused when cancelled, or when it is encrypted and no
    /// password was given; else its output path under the output directory (refused where the
    /// name would leave it), to be created as a directory or written as a file.
    pub fn entry_step(&self, name: &str, is_dir: bool, encrypted: bool, cancelled: bool) -> (r:
        core::result::Result<EntryStep, Error>)
        ensures
            entry_step_result(
                self.out_dir_path(),
                self.with_password(),
                name@,
                is_dir,
                encrypted,
                cancelled,
                r,
            ),
    {
        if cancelled {
            return Err(Error::Cancelled);
        }
        if encrypted && !self.has_password {
            return Err(Error::Encrypted);
        }
        match zip::safe_join(self.out_dir.as_str(), name) {
            Err(e) => Err(e),
            Ok(p) => if is_dir {
                Ok(EntryStep::MakeDir(p))
            } else {
                Ok(EntryStep::Write(p))
            },
        }
    }

    /// Whether to write a file that already exists: no with [`OverwriteMode::Skip`], yes with
    /// [`OverwriteMode::Overwrite`]; [`OverwriteMode::Ask`] is refused, as the decision belongs
    /// to the caller.
    pub fn write_existing(&self) -> (r: core::result::Result<bool, Error>)
        ensures
            self.mode() == OverwriteMode::Skip ==> r == Ok::<bool, Error>(false),
            self.mode() == OverwriteMode::Overwrite ==> r == Ok::<bool, Error>(true),
            self.mode() == OverwriteMode::Ask ==> (r matches Err(Error::Io(k, m)) && k
                == IoKind::Other && m@ == "OverwriteMode::Ask 需要调用方在回调中处理"@),
    {
        match self.overwrite {
            OverwriteMode::Skip => Ok(false),
            OverwriteMode::Overwrite => Ok(true),
            OverwriteMode::Ask => Err(
                Error::Io(IoKind::Other, owned("OverwriteMode::Ask 需要调用方在回调中处理")),
            ),
        }
    }

    /// The report made before a file is written.
    pub fn report(&self, path: &str) -> (r: ProgressReport)
        ensures
            r.phase == Phase::Extracting,
            r.current_file@ == path@,
            r.done_bytes == self.done_bytes(),
            r.total_bytes == self.total_bytes(),
    {
        ProgressReport {
            phase: Phase::Extracting,
            current_file: owned(path),
            done_bytes: self.done,
            total_bytes: self.total,
        }
    }

    /// Counts `n` more bytes as extracted.
    pub fn advance(&mut self, n: u64)
        requires
            old(self).done_bytes() + n <= u64::MAX,
        ensures
            final(self).done_bytes() == old(self).done_bytes() + n,
            final(self).total_bytes() == old(self).total_bytes(),
            final(self).out_dir_path() == old(self).out_dir_path(),
            final(self).with_password() == old(self).with_password(),
            final(self).mode() == old(self).mode(),
            final(self).created_files() == old(self).created_files(),
    {
        self.done = self.done + n;
    }

    /// Records that the file `path` was written; it counts as created by this extraction where
    /// no file `existed` there before.
    pub fn record_written(&mut self, path: &str, existed: bool)
        ensures
            final(self).created_files() == if existed {
                old(self).created_files()
            } else {
                old(self).created_files().push(path@)
            },
            final(self).done_bytes() == old(self).done_bytes(),
            final(self).total_bytes() == old(self).total_bytes(),
            final(self).out_dir_path() == old(self).out_dir_path(),
            final(self).with_password() == old(self).with_password(),
            final(self).mode() == old(self).mode(),
    {
        if !existed {
            let ghost before = self.created@;
            self.created.push(owned(path));
            proof {
                assert(crate::walk::views(self.created@) =~= crate::walk::views(before).push(path@));
            }
        }
    }

    /// The files to remove once the extraction has ended with `e`: a cancelled extraction
    /// removes the files it created; any other failure leaves them.
    pub fn cleanup(&self, e: &Error) -> (r: Vec<String>)
        ensures
            *e is Cancelled ==> crate::walk::views(r@) == self.created_files(),
            !(*e is Cancelled) ==> r@.len() == 0,
    {
        match e {
            Error::Cancelled => {
                let mut r: Vec<String> = Vec::new();
                let mut i: usize = 0;
                while i < self.created.len()
                    invariant
                        i <= self.created@.len(),
                        crate::walk::views(r@) == crate::walk::views(self.created@).take(i as int),
                    decreases self.created.len() - i,
                {
                    let ghost before = r@;
                    r.push(owned(self.created[i].as_str()));
                    proof {
                        assert(crate::walk::views(r@) =~= crate::walk::views(before).push(self.created@[i as int]@));
                        assert(crate::walk::views(self.created@).take(i + 1) =~= crate::walk::views(self.created@).take(i as int).push(self.created@[i as int]@));
                    }
                    i = i + 1;
                }
                assert(crate::walk::views(self.created@).take(i as int) =~= crate::walk::views(self.created@));
                r
            },
            _ => Vec::new(),
        }
    }

    /// The last report: the output directory with all bytes done.
    pub fn finish_report(&self) -> (r: ProgressReport)
        ensures
            r.phase == Phase::Extracting,
            r.current_file@ == self.out_dir_path(),
            r.done_bytes == self.total_bytes(),
            r.total_bytes == self.total_bytes(),
    {
        ProgressReport {
            phase: Phase::Extracting,
            current_file: owned(self.out_dir.as_str()),
            done_bytes: self.total,
            total_bytes: self.total,
        }
    }
}

/// The path of a step.
pub open spec fn step_path(s: EntryStep) -> Seq<char> {
    match s {
        EntryStep::MakeDir(p) => p@,
        EntryStep::Write(p) => p@,
    }
}

/// Every directory or file an extraction creates lies inside its output directory: its path is
/// the output directory followed by the entry's name, a relative name without `..` components
/// or drive prefixes.
pub proof fn extraction_stays_inside(
    out_dir: Seq<char>,
    has_password: bool,
    name: Seq<char>,
    is_dir: bool,
    encrypted: bool,
    cancelled: bool,
    r: core::result::Result<EntryStep, Error>,
)
    requires
        entry_step_result(out_dir, has_password, name, is_dir, encrypted, cancelled, r),
        r is Ok,
    ensures
        r matches Ok(s) && step_path(s).len() >= out_dir.len() && step_path(s).subrange(
            0,
            out_dir.len() as int,
        ) == out_dir && step_path(s).subrange(step_path(s).len() - name.len(), step_path(s).len() as int)
            == name,
        !zip::escapes(name),
        name.len() > 0,
{
    if let Ok(s) = r {
        let p = match s {
            EntryStep::MakeDir(p) => p,
            EntryStep::Write(p) => p,
        };
        zip::safe_join_stays_inside(out_dir, name, Ok::<String, Error>(p));
    }
}

} // verus!

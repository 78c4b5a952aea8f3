//! 7z archives: listing, limits checked before extraction, content methods and the mapping of
//! reader failures.
use vstd::prelude::*;
use vstd::string::*;

use crate::entry::{total_size, EntryInfo, RawEntry};
use crate::error::{Error, IoKind};
use crate::options::CompressOptions;
use crate::text::{concat2, concat3, owned};
use crate::zip::{listed_size, precheck_result, MAX_ENTRIES, MAX_RATIO, MAX_TOTAL_SIZE};

verus! {

/// How a 7z entry is listed: the compressed size only where the archive records one.
pub open spec fn sevenz_info(e: RawEntry, info: EntryInfo) -> bool {
    &&& info.path@ == e.name@
    &&& info.size == listed_size(e)
    &&& info.is_dir == e.is_dir
    &&& info.compressed_size == (if e.compressed_size > 0 {
        Some(e.compressed_size)
    } else {
        None
    })
    &&& info.method is None
    &&& info.modified is None
    &&& info.encrypted == e.encrypted
}

/// Lists the entries of a 7z archive; more than [`MAX_ENTRIES`] entries are refused as a bomb.
pub fn list(entries: &[RawEntry]) -> (r: Result<Vec<EntryInfo>, Error>)
    ensures
        entries@.len() > MAX_ENTRIES ==> r matches Err(Error::ZipBomb),
        entries@.len() <= MAX_ENTRIES ==> (r matches Ok(v) && v@.len() == entries@.len() && forall|
            i: int,
        |
            0 <= i < entries@.len() ==> #[trigger] sevenz_info(entries@[i], v@[i])),
        r matches Ok(v) ==> forall|i: int|
            0 <= i < v@.len() ==> (#[trigger] v@[i]).path@ == entries@[i].name@ && v@[i].is_dir
                == entries@[i].is_dir && v@[i].size == (if entries@[i].is_dir {
                0
            } else {
                entries@[i].size
            }) && v@[i].encrypted == entries@[i].encrypted && v@[i].modified is None,
        r matches Ok(v) ==> forall|i: int|
            0 <= i < v@.len() ==> (#[trigger] v@[i]).method is None && (entries@[i].compressed_size
                > 0 ==> v@[i].compressed_size == Some(entries@[i].compressed_size)) && (
            entries@[i].compressed_size == 0 ==> v@[i].compressed_size is None),
{
    if entries.len() > MAX_ENTRIES {
        return Err(Error::ZipBomb);
    }
    let mut out: Vec<EntryInfo> = Vec::new();
    let mut i: usize = 0;
    while i < entries.len()
        invariant
            i <= entries@.len(),
            out@.len() == i,
            forall|j: int| 0 <= j < i ==> #[trigger] sevenz_info(entries@[j], out@[j]),
        decreases entries.len() - i,
    {
        let e = &entries[i];
        let cs = if e.compressed_size > 0 {
            Some(e.compressed_size)
        } else {
            None
        };
        out.push(
            EntryInfo {
                path: owned(e.name.as_str()),
                size: if e.is_dir {
                    0
                } else {
                    e.size
                },
                is_dir: e.is_dir,
                compressed_size: cs,
                method: None,
                modified: None,
                encrypted: e.encrypted,
            },
        );
        i = i + 1;
    }
    assert forall|k: int| 0 <= k < out@.len() implies sevenz_info(entries@[k], #[trigger] out@[k]) by {}
    Ok(out)
}

/// A 7z listing reports each entry as the reader gave it: its path is the entry's name,
/// character for character; it is a directory exactly when the entry is one, and then has size
/// 0; a file has the entry's size.
pub proof fn sevenz_listing_keeps_names(entries: Seq<RawEntry>, v: Seq<EntryInfo>)
    requires
        v.len() == entries.len(),
        forall|i: int| 0 <= i < entries.len() ==> #[trigger] sevenz_info(entries[i], v[i]),
    ensures
        forall|i: int|
            0 <= i < v.len() ==> (#[trigger] v[i]).path@ == entries[i].name@ && v[i].is_dir
                == entries[i].is_dir && (v[i].is_dir ==> v[i].size == 0) && (!v[i].is_dir
                ==> v[i].size == entries[i].size),
{
    assert forall|i: int| 0 <= i < v.len() implies (#[trigger] v[i]).path@ == entries[i].name@
        && v[i].is_dir == entries[i].is_dir && (v[i].is_dir ==> v[i].size == 0) && (!v[i].is_dir
        ==> v[i].size == entries[i].size) by {
        assert(sevenz_info(entries[i], v[i]));
    }
}

/// The method identifier of AES-256 with SHA-256 key derivation in a 7z archive.
pub open spec fn aes_method_id() -> Seq<u8> {
    seq![0x06u8, 0xF1u8, 0x07u8, 0x01u8]
}

/// Whether the coders of an entry's block, given by their method identifiers, encrypt it.
pub fn encrypts(method_ids: &[Vec<u8>]) -> (r: bool)
    ensures
        r == exists|k: int| 0 <= k < method_ids@.len() && #[trigger] method_ids@[k]@ == aes_method_id(),
{
    let mut k: usize = 0;
    while k < method_ids.len()
        invariant
            k <= method_ids@.len(),
            forall|j: int| 0 <= j < k ==> #[trigger] method_ids@[j]@ != aes_method_id(),
        decreases method_ids.len() - k,
    {
        let id = &method_ids[k];
        if id.len() == 4 && id[0] == 0x06u8 && id[1] == 0xF1u8 && id[2] == 0x07u8 && id[3] == 0x01u8 {
            assert(method_ids@[k as int]@ =~= aes_method_id());
            return true;
        }
        assert(method_ids@[k as int]@ != aes_method_id()) by {
            if method_ids@[k as int]@ == aes_method_id() {
                assert(method_ids@[k as int]@[0] == 0x06u8);
                assert(method_ids@[k as int]@[1] == 0xF1u8);
                assert(method_ids@[k as int]@[2] == 0x07u8);
                assert(method_ids@[k as int]@[3] == 0x01u8);
            }
        }
        k = k + 1;
    }
    false
}

/// Checks a 7z archive before extraction (the number of entries, the total extracted size and
/// its ratio to `compressed`, the archive's size or 0) and gives the total extracted size.
/// A total beyond `u64` is refused like any total above the limit.
pub fn precheck(entries: &[RawEntry], compressed: u64) -> (r: Result<u64, Error>)
    ensures
        precheck_result(entries@, compressed, r),
{
    if entries.len() > MAX_ENTRIES {
        return Err(Error::ZipBomb);
    }
    let total = match crate::entry::checked_total_size(entries) {
        Some(t) => t,
        None => {
            return Err(Error::ZipBomb);
        },
    };
    if total > MAX_TOTAL_SIZE {
        return Err(Error::ZipBomb);
    }
    if compressed > 0 && total / compressed > MAX_RATIO {
        return Err(Error::ZipBomb);
    }
    Ok(total)
}

/// One coder of the content of a 7z archive.
#[derive(Clone, Debug)]
pub enum ContentMethod {
    /// AES-256 with this password.
    Aes256(String),
    /// Stored without compression.
    Copy,
    /// LZMA2 at this level.
    Lzma2(u32),
}

/// The coders of a 7z archive written with `opts`: AES-256 first where there is a password,
/// then COPY for level 0 or LZMA2 at the level.
pub fn content_methods(opts: &CompressOptions) -> (r: Vec<ContentMethod>)
    ensures
        opts.password is None ==> r@.len() == 1,
        opts.password matches Some(p) ==> r@.len() == 2,
        opts.password matches Some(p) ==> (r@[0] matches ContentMethod::Aes256(q) && q@ == p@),
        opts.level == 0 ==> r@.last() is Copy,
        opts.level != 0 ==> r@.last() == ContentMethod::Lzma2(opts.level),
{
    let mut methods: Vec<ContentMethod> = Vec::new();
    match &opts.password {
        Some(p) => methods.push(ContentMethod::Aes256(owned(p.as_str()))),
        None => {},
    }
    if opts.level == 0 {
        methods.push(ContentMethod::Copy);
    } else {
        methods.push(ContentMethod::Lzma2(opts.level));
    }
    methods
}

/// What a 7z reader or writer reported as the cause of a failure.
#[derive(Clone, Debug)]
pub enum SevenzFailure {
    /// The file does not start with the 7z signature.
    BadSignature,
    /// The format version is not supported; the reader's description of the failure.
    UnsupportedVersion(String),
    PasswordRequired,
    /// Data could not be decoded, perhaps for a wrong password.
    MaybeBadPassword,
    /// A checksum did not match; the reader's description.
    ChecksumVerificationFailed(String),
    /// The checksum of the next header did not match; the reader's description.
    NextHeaderCrcMismatch(String),
    /// An I/O failure: its class, the reader's context message and the failure's own message.
    Io(IoKind, String, String),
    /// A file could not be opened: its class and the reader's message.
    FileOpen(IoKind, String),
    /// Any other failure, with the reader's description.
    Other(String),
}

/// The error that a failure of the 7z reader becomes. Password failures are told apart by
/// whether a password was given: with one it was wrong, without one it was needed.
pub open spec fn sevenz_error(f: SevenzFailure, has_password: bool, r: Error) -> bool {
    match f {
        SevenzFailure::BadSignature => r matches Error::UnsupportedFormat(m) && m@
            == "不是有效的 7z 文件"@,
        SevenzFailure::UnsupportedVersion(t) => r matches Error::UnsupportedFormat(m) && m@
            == "不支持的 7z 版本: "@ + t@,
        SevenzFailure::PasswordRequired | SevenzFailure::MaybeBadPassword => if has_password {
            r is BadPassword
        } else {
            r is Encrypted
        },
        SevenzFailure::ChecksumVerificationFailed(t) | SevenzFailure::NextHeaderCrcMismatch(t) => r matches Error::Io(k, m)
            && k == IoKind::InvalidData && m@ == t@,
        SevenzFailure::Io(kind, msg, inner) => r matches Error::Io(k, m) && k == kind && m@
            == msg@ + ": "@ + inner@,
        SevenzFailure::FileOpen(kind, msg) => r matches Error::Io(k, m) && k == kind && m@ == msg@,
        SevenzFailure::Other(t) => r matches Error::Io(k, m) && k == IoKind::Other && m@ == t@,
    }
}

/// See [`sevenz_error`].
pub fn map_7z_error(f: SevenzFailure, has_password: bool) -> (r: Error)
    ensures
        sevenz_error(f, has_password, r),
{
    match f {
        SevenzFailure::BadSignature => Error::UnsupportedFormat(owned("不是有效的 7z 文件")),
        SevenzFailure::UnsupportedVersion(t) => Error::UnsupportedFormat(
            concat2("不支持的 7z 版本: ", t.as_str()),
        ),
        SevenzFailure::PasswordRequired | SevenzFailure::MaybeBadPassword => {
            if has_password {
                Error::BadPassword
            } else {
                Error::Encrypted
            }
        },
        SevenzFailure::ChecksumVerificationFailed(t) => Error::Io(IoKind::InvalidData, t),
        SevenzFailure::NextHeaderCrcMismatch(t) => Error::Io(IoKind::InvalidData, t),
        SevenzFailure::Io(kind, msg, inner) => Error::Io(
            kind,
            concat3(msg.as_str(), ": ", inner.as_str()),
        ),
        SevenzFailure::FileOpen(kind, msg) => Error::Io(kind, msg),
        SevenzFailure::Other(t) => Error::Io(IoKind::Other, t),
    }
}

} // verus!

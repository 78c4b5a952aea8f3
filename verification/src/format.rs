//! Archive formats: recognition by magic bytes and by file extension.
use vstd::prelude::*;
use vstd::string::*;

use crate::error::Error;
use crate::text::{ascii_lower_seq, last_index_of, lemma_last_index_of, owned, str_eq, substring, to_ascii_lower};

verus! {

/// The supported archive formats.
#[derive(Clone, Copy, Debug, PartialEq, Eq, Structural)]
pub enum ArchiveFormat {
    Zip,
    SevenZ,
}

/// The file name of a path, as `std::path::Path::file_name` computes it with `/` as the
/// separator: the last component, ignoring trailing separators and `.` components; none when
/// the path is empty, a root, or ends in `..`.
pub open spec fn file_name_of(p: Seq<char>) -> Option<Seq<char>>
    decreases p.len(),
{
    if p.len() == 0 {
        None
    } else if p.last() == '/' {
        file_name_of(p.drop_last())
    } else {
        let k = last_index_of(p, '/');
        let seg = p.subrange(k + 1, p.len() as int);
        if seg == seq!['.'] {
            if k < 0 {
                None
            } else {
                proof {
                    lemma_last_index_of(p, '/');
                }
                file_name_of(p.subrange(0, k))
            }
        } else if seg == seq!['.', '.'] {
            None
        } else {
            Some(seg)
        }
    }
}

/// The extension of a file name: the part after its last `.`, unless that `.` is its first
/// character or it has none.
pub open spec fn extension_of_name(f: Seq<char>) -> Option<Seq<char>> {
    let i = last_index_of(f, '.');
    if i < 1 {
        None
    } else {
        Some(f.subrange(i + 1, f.len() as int))
    }
}

/// The extension of a path (`std::path::Path::extension` with `/` as the separator).
pub open spec fn extension_of(p: Seq<char>) -> Option<Seq<char>> {
    match file_name_of(p) {
        Some(f) => extension_of_name(f),
        None => None,
    }
}

pub open spec fn zip_ext() -> Seq<char> {
    seq!['z', 'i', 'p']
}

pub open spec fn sevenz_ext() -> Seq<char> {
    seq!['7', 'z']
}

/// The format that a (case-insensitive) extension names.
pub open spec fn format_of_ext(ext: Option<Seq<char>>) -> Option<ArchiveFormat> {
    match ext {
        Some(e) => if ascii_lower_seq(e) == zip_ext() {
            Some(ArchiveFormat::Zip)
        } else if ascii_lower_seq(e) == sevenz_ext() {
            Some(ArchiveFormat::SevenZ)
        } else {
            None
        },
        None => None,
    }
}

/// What the refusal of an extension names: the lower-cased extension, or a placeholder.
pub open spec fn ext_label(ext: Option<Seq<char>>) -> Seq<char> {
    match ext {
        Some(e) => ascii_lower_seq(e),
        None => "(no extension)"@,
    }
}

/// The outcome of recognising a format from an extension.
pub open spec fn ext_result(ext: Option<Seq<char>>, r: Result<ArchiveFormat, Error>) -> bool {
    match format_of_ext(ext) {
        Some(f) => r == Ok::<ArchiveFormat, Error>(f),
        None => r matches Err(Error::UnsupportedFormat(m)) && m@ == ext_label(ext),
    }
}

proof fn lemma_last_index_at(s: Seq<char>, c: char, k: int)
    requires
        0 <= k <= s.len(),
        k == 0 || s[k - 1] == c,
        forall|j: int| k <= j < s.len() ==> s[j] != c,
    ensures
        last_index_of(s, c) == k - 1,
    decreases s.len(),
{
    if s.len() > 0 && k < s.len() {
        assert(s.last() != c);
        lemma_last_index_at(s.drop_last(), c, k);
    }
}

/// The extension of `path` (see [`extension_of`]).
pub fn path_extension(path: &str) -> (r: Option<String>)
    ensures
        r matches Some(e) ==> extension_of(path@) == Some(e@),
        r is None ==> extension_of(path@) is None,
{
    let ghost p = path@;
    let n = path.unicode_len();
    let mut end: usize = n;
    assert(p.subrange(0, n as int) =~= p);
    let mut start: usize = 0;
    loop
        invariant
            n == p.len(),
            p == path@,
            end <= n,
            file_name_of(p) == file_name_of(p.subrange(0, end as int)),
        ensures
            start < end <= n,
            file_name_of(p) == Some(p.subrange(start as int, end as int)),
        decreases end,
    {
        let ghost q = p.subrange(0, end as int);
        if end == 0 {
            return None;
        }
        if path.get_char(end - 1) == '/' {
            assert(q.drop_last() =~= p.subrange(0, end - 1));
            end = end - 1;
            continue;
        }
        let mut k: usize = end;
        while k > 0 && path.get_char(k - 1) != '/'
            invariant
                n == p.len(),
                p == path@,
                k <= end <= n,
                forall|j: int| k <= j < end ==> p[j] != '/',
            decreases k,
        {
            k = k - 1;
        }
        assert(k < end);
        proof {
            lemma_last_index_at(q, '/', k as int);
        }
        let ghost seg = q.subrange(k as int, end as int);
        assert(seg =~= p.subrange(k as int, end as int));
        if end - k == 1 && path.get_char(k) == '.' {
            assert(seg =~= seq!['.']);
            if k == 0 {
                return None;
            }
            assert(q.subrange(0, k - 1) =~= p.subrange(0, k - 1));
            end = k - 1;
            continue;
        }
        if end - k == 2 && path.get_char(k) == '.' && path.get_char(k + 1) == '.' {
            assert(seg =~= seq!['.', '.']);
            return None;
        }
        assert(seg != seq!['.']) by {
            if end - k == 1 {
                assert(seg[0] == p[k as int]);
            }
        }
        assert(seg != seq!['.', '.']) by {
            if end - k == 2 {
                assert(seg[0] == p[k as int]);
                assert(seg[1] == p[k + 1]);
            }
        }
        assert(p.subrange(0, end as int).last() != '/');
        assert(file_name_of(p.subrange(0, end as int)) == Some(seg));
        start = k;
        break;
    }
    // The file name is path[start..end]; look for its last '.'.
    let ghost f = p.subrange(start as int, end as int);
    assert(file_name_of(p) == Some(f));
    let mut j: usize = end;
    while j > start && path.get_char(j - 1) != '.'
        invariant
            n == p.len(),
            p == path@,
            start <= j <= end <= n,
            f == p.subrange(start as int, end as int),
            forall|i: int| j <= i < end ==> p[i] != '.',
        decreases j,
    {
        j = j - 1;
    }
    proof {
        lemma_last_index_at(f, '.', j - start);
    }
    if j <= start + 1 {
        None
    } else {
        let e = substring(path, j, end);
        assert(e@ =~= f.subrange(j - start, f.len() as int));
        Some(e)
    }
}

impl ArchiveFormat {
    /// The format named by an extension, compared without regard to ASCII case.
    pub fn from_extension_text(ext: Option<&str>) -> (r: Result<ArchiveFormat, Error>)
        ensures
            ext_result(
                match ext {
                    Some(e) => Some(e@),
                    None => None,
                },
                r,
            ),
    {
        match ext {
            Some(e) => {
                let lower = to_ascii_lower(e);
                proof {
                    reveal_strlit("zip");
                    reveal_strlit("7z");
                    assert("zip"@ =~= zip_ext());
                    assert("7z"@ =~= sevenz_ext());
                }
                if str_eq(lower.as_str(), "zip") {
                    assert(ascii_lower_seq(e@) == zip_ext());
                    Ok(ArchiveFormat::Zip)
                } else if str_eq(lower.as_str(), "7z") {
                    assert(ascii_lower_seq(e@) == sevenz_ext());
                    Ok(ArchiveFormat::SevenZ)
                } else {
                    Err(Error::UnsupportedFormat(lower))
                }
            },
            None => Err(Error::UnsupportedFormat(owned("(no extension)"))),
        }
    }

    /// The format named by the extension of `path` (`zip` or `7z`, without regard to ASCII
    /// case); any other extension, or none, is refused.
    pub fn from_extension(path: &str) -> (r: Result<ArchiveFormat, Error>)
        ensures
            ext_result(extension_of(path@), r),
    {
        let ext = path_extension(path);
        match ext {
            Some(e) => ArchiveFormat::from_extension_text(Some(e.as_str())),
            None => ArchiveFormat::from_extension_text(None),
        }
    }
}

/// The first bytes of a ZIP file (local header, central directory and end record all
/// start with "PK").
pub open spec fn zip_magic() -> Seq<u8> {
    seq![0x50u8, 0x4Bu8]
}

/// The signature of a 7z file.
pub open spec fn sevenz_magic() -> Seq<u8> {
    seq![0x37u8, 0x7Au8, 0xBCu8, 0xAFu8, 0x27u8, 0x1Cu8]
}

pub open spec fn starts_with_bytes(s: Seq<u8>, prefix: Seq<u8>) -> bool {
    prefix.len() <= s.len() && s.subrange(0, prefix.len() as int) == prefix
}

/// The format recognised from the head of a file and its path: the ZIP signature first,
/// then the 7z signature, then the extension.
pub open spec fn detect_result(head: Seq<u8>, path: Seq<char>, r: Result<ArchiveFormat, Error>) -> bool {
    if starts_with_bytes(head, zip_magic()) {
        r == Ok::<ArchiveFormat, Error>(ArchiveFormat::Zip)
    } else if starts_with_bytes(head, sevenz_magic()) {
        r == Ok::<ArchiveFormat, Error>(ArchiveFormat::SevenZ)
    } else {
        ext_result(extension_of(path), r)
    }
}

/// Recognises the format of an archive from its first bytes (`head`, as read from the file:
/// up to six bytes are looked at) and falls back to the extension of `path`.
pub fn detect_format(head: &[u8], path: &str) -> (r: Result<ArchiveFormat, Error>)
    ensures
        detect_result(head@, path@, r),
{
    if head.len() >= 2 && head[0] == 0x50u8 && head[1] == 0x4Bu8 {
        assert(head@.subrange(0, 2) =~= zip_magic());
        return Ok(ArchiveFormat::Zip);
    }
    assert(!starts_with_bytes(head@, zip_magic())) by {
        if head@.len() >= 2 && head@.subrange(0, 2) == zip_magic() {
            assert(head@.subrange(0, 2)[0] == head@[0]);
            assert(head@.subrange(0, 2)[1] == head@[1]);
        }
    }
    if head.len() >= 6 && head[0] == 0x37u8 && head[1] == 0x7Au8 && head[2] == 0xBCu8 && head[3]
        == 0xAFu8 && head[4] == 0x27u8 && head[5] == 0x1Cu8 {
        assert(head@.subrange(0, 6) =~= sevenz_magic());
        return Ok(ArchiveFormat::SevenZ);
    }
    assert(!starts_with_bytes(head@, sevenz_magic())) by {
        if head@.len() >= 6 && head@.subrange(0, 6) == sevenz_magic() {
            assert(head@.subrange(0, 6)[0] == head@[0]);
            assert(head@.subrange(0, 6)[1] == head@[1]);
            assert(head@.subrange(0, 6)[2] == head@[2]);
            assert(head@.subrange(0, 6)[3] == head@[3]);
            assert(head@.subrange(0, 6)[4] == head@[4]);
            assert(head@.subrange(0, 6)[5] == head@[5]);
        }
    }
    ArchiveFormat::from_extension(path)
}

/// The signatures decide before the extension: files that start with the same signature are
/// recognised alike, whatever their names.
pub proof fn signature_precedes_extension(
    head: Seq<u8>,
    path1: Seq<char>,
    path2: Seq<char>,
    r1: Result<ArchiveFormat, Error>,
    r2: Result<ArchiveFormat, Error>,
)
    requires
        detect_result(head, path1, r1),
        detect_result(head, path2, r2),
        starts_with_bytes(head, zip_magic()) || starts_with_bytes(head, sevenz_magic()),
    ensures
        r1 == r2,
{
}

/// Extensions are compared without regard to ASCII case: two paths whose extensions differ
/// only in case are recognised alike.
pub proof fn extension_case_insensitive(
    path1: Seq<char>,
    path2: Seq<char>,
    r1: Result<ArchiveFormat, Error>,
    r2: Result<ArchiveFormat, Error>,
)
    requires
        ext_result(extension_of(path1), r1),
        ext_result(extension_of(path2), r2),
        extension_of(path1) is Some,
        extension_of(path2) is Some,
        ascii_lower_seq(extension_of(path1)->0) == ascii_lower_seq(extension_of(path2)->0),
    ensures
        r1 is Ok <==> r2 is Ok,
        r1 is Ok ==> r1 == r2,
        r1 matches Err(Error::UnsupportedFormat(m1)) ==> (r2 matches Err(Error::UnsupportedFormat(m2))
            && m1@ == m2@),
{
}

} // verus!

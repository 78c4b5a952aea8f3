//! The decisions of the command-line front end: argument checks, exit codes and the text it
//! shows.
use vstd::prelude::*;
use vstd::string::*;

use crate::error::Error;
use crate::format::extension_of;
use crate::options::OverwriteMode;
use crate::progress::Phase;
use crate::text::{ascii_lower_seq, concat2, owned, str_eq, to_ascii_lower};

verus! {

/// The exit code of a failed operation: 1 when it was cancelled, 2 for any other error.
pub fn exit_code(e: &Error) -> (r: i32)
    ensures
        *e is Cancelled ==> r == 1,
        !(*e is Cancelled) ==> r == 2,
{
    match e {
        Error::Cancelled => 1,
        _ => 2,
    }
}

/// The word shown for a phase.
pub open spec fn phase_word(p: Phase) -> Seq<char> {
    match p {
        Phase::Listing => "列出"@,
        Phase::Compressing => "压缩"@,
        Phase::Extracting => "解压"@,
    }
}

/// See [`phase_word`].
pub fn phase_str(phase: Phase) -> (r: &'static str)
    ensures
        r@ == phase_word(phase),
{
    match phase {
        Phase::Listing => "列出",
        Phase::Compressing => "压缩",
        Phase::Extracting => "解压",
    }
}

/// The extraction mode of `unpack`: `--overwrite` replaces existing files, else they are kept.
pub fn unpack_overwrite_mode(overwrite: bool) -> (r: OverwriteMode)
    ensures
        r == if overwrite {
            OverwriteMode::Overwrite
        } else {
            OverwriteMode::Skip
        },
{
    if overwrite {
        OverwriteMode::Overwrite
    } else {
        OverwriteMode::Skip
    }
}

/// The lower-cased extension of a path, if it has one.
pub open spec fn lower_ext(p: Seq<char>) -> Option<Seq<char>> {
    match extension_of(p) {
        Some(e) => Some(ascii_lower_seq(e)),
        None => None,
    }
}

/// The message that refuses the arguments of `pack`, if any: a `--format` that is not the
/// output's extension, then a level above 9.
pub open spec fn pack_refusal(format: Option<Seq<char>>, output: Seq<char>, level: u32) -> Option<Seq<char>> {
    if format is Some && lower_ext(output) != Some(format->0) {
        Some(
            "错误: --format "@ + format->0 + " 与输出扩展名 "@ + (match lower_ext(output) {
                Some(e) => e,
                None => "(无)"@,
            }) + " 不一致"@,
        )
    } else if level > 9 {
        Some("错误: 压缩级别必须在 0-9 之间"@)
    } else {
        None
    }
}

/// Checks the arguments of `pack`; gives the message to print (with exit code 2) when they
/// are refused.
pub fn check_pack_arguments(format: Option<&str>, output: &str, level: u32) -> (r: Option<String>)
    ensures
        match r {
            Some(m) => pack_refusal(
                match format {
                    Some(f) => Some(f@),
                    None => None,
                },
                output@,
                level,
            ) == Some(m@),
            None => pack_refusal(
                match format {
                    Some(f) => Some(f@),
                    None => None,
                },
                output@,
                level,
            ) is None,
        },
        format is None ==> (r is None <==> level <= 9),
        format is None && level > 9 ==> (r matches Some(m) && m@ == "错误: 压缩级别必须在 0-9 之间"@),
{
    if let Some(f) = format {
        let ext: Option<String> = match crate::format::path_extension(output) {
            Some(e) => Some(to_ascii_lower(e.as_str())),
            None => None,
        };
        let same = match &ext {
            Some(e) => str_eq(e.as_str(), f),
            None => false,
        };
        if !same {
            let shown: String = match &ext {
                Some(e) => owned(e.as_str()),
                None => owned("(无)"),
            };
            let mut m = concat2("错误: --format ", f);
            m.append(" 与输出扩展名 ");
            m.append(shown.as_str());
            m.append(" 不一致");
            return Some(m);
        }
    }
    if level > 9 {
        return Some(owned("错误: 压缩级别必须在 0-9 之间"));
    }
    None
}

/// Every level from 0 to 9 passes, and every higher level is refused: without `--format`,
/// and with a `--format` that is the output's (lower-cased) extension.
pub proof fn levels_zero_to_nine_are_accepted(output: Seq<char>, level: u32)
    ensures
        (pack_refusal(None, output, level) is None) <==> level <= 9,
        forall|f: Seq<char>|
            lower_ext(output) == Some(f) ==> ((#[trigger] pack_refusal(Some(f), output, level) is None)
                <==> level <= 9),
{
}

/// An entry's path as `list` shows it: without trailing `/` or `\`.
pub open spec fn trimmed(p: Seq<char>) -> Seq<char>
    decreases p.len(),
{
    if p.len() > 0 && (p.last() == '/' || p.last() == '\\') {
        trimmed(p.drop_last())
    } else {
        p
    }
}

/// See [`trimmed`].
pub fn display_name(path: &str) -> (r: String)
    ensures
        r@ == trimmed(path@),
{
    let mut end: usize = path.unicode_len();
    assert(path@.subrange(0, end as int) =~= path@);
    while end > 0 && (path.get_char(end - 1) == '/' || path.get_char(end - 1) == '\\')
        invariant
            end <= path@.len(),
            trimmed(path@) == trimmed(path@.subrange(0, end as int)),
        decreases end,
    {
        assert(path@.subrange(0, end as int).drop_last() =~= path@.subrange(0, end - 1));
        end = end - 1;
    }
    crate::text::substring(path, 0, end)
}

} // verus!

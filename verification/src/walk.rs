//! Naming of the sources to compress: the name each file or directory takes in the archive.
use vstd::prelude::*;
use vstd::string::*;

use crate::error::{Error, IoKind};
use crate::options::CompressOptions;
use crate::text::{concat2, owned, starts_with_char};
use crate::zip::{join, join_path};

verus! {

/// One source to compress and its name in the archive.
#[derive(Clone, Debug)]
pub struct CompressEntry {
    /// The absolute path of the source file or directory on disk.
    pub src: String,
    /// The name in the archive (`/`-separated; directories end with `/`).
    pub name: String,
}

/// Whether a file name marks a hidden file or directory (it starts with `.`).
pub open spec fn hidden_name(file_name: Option<Seq<char>>) -> bool {
    match file_name {
        Some(n) => n.len() > 0 && n[0] == '.',
        None => false,
    }
}

/// Whether a path whose file name is `file_name` is hidden; a path without a (UTF-8) file
/// name is not.
pub fn is_hidden(file_name: Option<&str>) -> (r: bool)
    ensures
        r == hidden_name(
            match file_name {
                Some(n) => Some(n@),
                None => None,
            },
        ),
{
    match file_name {
        Some(n) => starts_with_char(n, '.'),
        None => false,
    }
}

/// The parts joined with `/` between them.
pub open spec fn joined(parts: Seq<Seq<char>>) -> Seq<char>
    decreases parts.len(),
{
    if parts.len() == 0 {
        seq![]
    } else if parts.len() == 1 {
        parts[0]
    } else {
        joined(parts.drop_last()) + seq!['/'] + parts.last()
    }
}

pub open spec fn views(parts: Seq<String>) -> Seq<Seq<char>> {
    parts.map_values(|s: String| s@)
}

/// The parts joined with `/` between them.
pub fn join_with_slash(parts: &[String]) -> (r: String)
    ensures
        r@ == joined(views(parts@)),
{
    let mut r = String::new();
    let mut i: usize = 0;
    while i < parts.len()
        invariant
            i <= parts@.len(),
            r@ == joined(views(parts@).take(i as int)),
        decreases parts.len() - i,
    {
        assert(views(parts@).take(i + 1).drop_last() =~= views(parts@).take(i as int));
        if i == 0 {
            r = owned(parts[0].as_str());
        } else {
            r.append("/");
            r.append(parts[i].as_str());
            proof {
                reveal_strlit("/");
            }
        }
        i = i + 1;
    }
    assert(views(parts@).take(i as int) =~= views(parts@));
    r
}

/// The archive name of a directory given on its own: its name followed by `/`.
pub fn top_dir_name(top: &str) -> (r: String)
    ensures
        r@ == top@ + seq!['/'],
{
    proof {
        reveal_strlit("/");
    }
    concat2(top, "/")
}

/// The name of a directory given on its own; refused where it has no (UTF-8) name.
pub fn top_name(file_name: Option<&str>) -> (r: Result<String, Error>)
    ensures
        file_name matches Some(n) ==> (r matches Ok(s) && s@ == n@),
        file_name is None ==> (r matches Err(Error::Io(k, m)) && k == IoKind::InvalidInput && m@
            == "无效目录名"@),
{
    match file_name {
        Some(n) => Ok(owned(n)),
        None => Err(Error::Io(IoKind::InvalidInput, owned("无效目录名"))),
    }
}

/// The archive name of something found inside a directory given on its own: the directory's
/// name, `/`, the relative path's components joined by `/`, and a final `/` for a directory.
pub open spec fn walked_name(top: Seq<char>, rel: Seq<Seq<char>>, is_dir: bool) -> Seq<char> {
    let base = top + seq!['/'] + joined(rel);
    if is_dir {
        base + seq!['/']
    } else {
        base
    }
}

/// See [`walked_name`].
pub fn walked_entry_name(top: &str, rel: &[String], is_dir: bool) -> (r: String)
    ensures
        r@ == walked_name(top@, views(rel@), is_dir),
{
    proof {
        reveal_strlit("/");
    }
    let rel_str = join_with_slash(rel);
    let mut r = concat2(top, "/");
    r.append(rel_str.as_str());
    if is_dir {
        r.append("/");
    }
    r
}

/// One component of a path: its name (with any invalid UTF-8 replaced), and whether the name
/// was valid UTF-8.
#[derive(Clone, Debug)]
pub struct PathPart {
    pub name: String,
    pub utf8: bool,
}

/// Something found while walking a directory given on its own: its path, the components of its
/// path relative to that directory, and whether it is a directory.
#[derive(Clone, Debug)]
pub struct WalkedItem {
    pub src: String,
    pub rel: Vec<PathPart>,
    pub is_dir: bool,
}

/// A hidden component: a UTF-8 name that starts with `.`.
pub open spec fn part_hidden(p: PathPart) -> bool {
    p.utf8 && hidden_name(Some(p.name@))
}

/// Some component of the relative path is hidden.
pub open spec fn has_hidden_part(rel: Seq<PathPart>) -> bool {
    exists|k: int| 0 <= k < rel.len() && #[trigger] part_hidden(rel[k])
}

pub open spec fn part_names(rel: Seq<PathPart>) -> Seq<Seq<char>> {
    rel.map_values(|p: PathPart| p.name@)
}

/// A walked item becomes an entry: it is not the walked directory itself, and, when hidden
/// items are skipped, no component of its relative path is hidden (a hidden directory is
/// skipped with everything under it).
pub open spec fn walked_kept(item: WalkedItem, skip_hidden: bool) -> bool {
    item.rel@.len() > 0 && !(skip_hidden && has_hidden_part(item.rel@))
}

/// The walked items that become entries, in the order of the walk.
pub open spec fn kept_items(items: Seq<WalkedItem>, skip_hidden: bool) -> Seq<WalkedItem>
    decreases items.len(),
{
    if items.len() == 0 {
        seq![]
    } else {
        let k = kept_items(items.drop_last(), skip_hidden);
        if walked_kept(items.last(), skip_hidden) {
            k.push(items.last())
        } else {
            k
        }
    }
}

/// Whether a path is absolute (starts at the root).
pub open spec fn is_absolute(p: Seq<char>) -> bool {
    p.len() > 0 && p[0] == '/'
}

/// The absolute form of `p` given the working directory `cwd`: an absolute path as it is,
/// else `cwd` joined with `p` (as `Path::join` does).
pub open spec fn absolute_path(cwd: Seq<char>, p: Seq<char>) -> Seq<char> {
    if is_absolute(p) {
        p
    } else {
        join_path(cwd, p)
    }
}

/// An absolute working directory makes every path absolute.
pub proof fn absolute_path_is_absolute(cwd: Seq<char>, p: Seq<char>)
    requires
        is_absolute(cwd),
    ensures
        is_absolute(absolute_path(cwd, p)),
{
    if !is_absolute(p) {
        if cwd.last() == '/' {
            assert((cwd + p)[0] == cwd[0]);
        } else {
            assert((cwd + seq!['/'] + p)[0] == cwd[0]);
        }
    }
}

/// See [`absolute_path`].
pub fn absolute(cwd: &str, p: &str) -> (r: String)
    ensures
        r@ == absolute_path(cwd@, p@),
{
    if starts_with_char(p, '/') {
        owned(p)
    } else {
        join(cwd, p)
    }
}

/// An entry as its source path and its name in the archive.
pub open spec fn entry_pair(e: CompressEntry) -> (Seq<char>, Seq<char>) {
    (e.src@, e.name@)
}

pub open spec fn entry_pairs(v: Seq<CompressEntry>) -> Seq<(Seq<char>, Seq<char>)> {
    v.map_values(|e: CompressEntry| entry_pair(e))
}

/// The entries of the kept items found under the directory named `top`.
pub open spec fn walked_pairs(cwd: Seq<char>, top: Seq<char>, items: Seq<WalkedItem>) -> Seq<
    (Seq<char>, Seq<char>),
> {
    items.map_values(
        |w: WalkedItem| (absolute_path(cwd, w.src@), walked_name(top, part_names(w.rel@), w.is_dir)),
    )
}

/// One input to compress: its path, its file name, whether it is a directory, and, for a
/// directory, what the walk of it found (the directory itself included).
#[derive(Clone, Debug)]
pub struct InputSource {
    pub src: String,
    pub name: Option<PathPart>,
    pub is_dir: bool,
    pub walked: Vec<WalkedItem>,
}

/// The entries of one input, each source made absolute against `cwd`; `None` where the input
/// is refused:
/// - nothing for a hidden input when hidden items are skipped;
/// - a file: one entry named by its file name (empty when it has none);
/// - a directory: refused unless it has a UTF-8 name; else the directory as `name/`, then one
///   entry per walked item that is kept, in the order of the walk, named by [`walked_name`].
pub open spec fn input_spec(cwd: Seq<char>, input: InputSource, skip_hidden: bool) -> Option<
    Seq<(Seq<char>, Seq<char>)>,
> {
    let src = absolute_path(cwd, input.src@);
    if skip_hidden && (input.name matches Some(p) && part_hidden(p)) {
        Some(seq![])
    } else if !input.is_dir {
        Some(
            seq![
                (src, match input.name {
                    Some(p) => p.name@,
                    None => seq![],
                }),
            ],
        )
    } else if !(input.name matches Some(p) && p.utf8) {
        None
    } else {
        let top = input.name->0.name@;
        Some(
            seq![(src, top + seq!['/'])] + walked_pairs(
                cwd,
                top,
                kept_items(input.walked@, skip_hidden),
            ),
        )
    }
}

/// The entries of all inputs, input by input; `None` where some input is refused.
pub open spec fn collected(cwd: Seq<char>, inputs: Seq<InputSource>, skip_hidden: bool) -> Option<
    Seq<(Seq<char>, Seq<char>)>,
>
    decreases inputs.len(),
{
    if inputs.len() == 0 {
        Some(seq![])
    } else {
        match (
            collected(cwd, inputs.drop_last(), skip_hidden),
            input_spec(cwd, inputs.last(), skip_hidden),
        ) {
            (Some(a), Some(b)) => Some(a + b),
            _ => None,
        }
    }
}

/// What a function building entries returns for the expected entries `s`.
pub open spec fn entries_outcome(
    s: Option<Seq<(Seq<char>, Seq<char>)>>,
    r: Result<Vec<CompressEntry>, Error>,
) -> bool {
    match s {
        None => r matches Err(Error::Io(k, m)) && k == IoKind::InvalidInput && m@ == "无效目录名"@,
        Some(p) => r matches Ok(v) && entry_pairs(v@) == p,
    }
}

fn has_hidden_exec(rel: &[PathPart]) -> (r: bool)
    ensures
        r == has_hidden_part(rel@),
{
    let mut i: usize = 0;
    while i < rel.len()
        invariant
            i <= rel@.len(),
            forall|k: int| 0 <= k < i ==> !#[trigger] part_hidden(rel@[k]),
        decreases rel.len() - i,
    {
        if rel[i].utf8 && starts_with_char(rel[i].name.as_str(), '.') {
            assert(part_hidden(rel@[i as int]));
            return true;
        }
        i = i + 1;
    }
    false
}

fn part_name_vec(rel: &[PathPart]) -> (r: Vec<String>)
    ensures
        views(r@) == part_names(rel@),
{
    let mut r: Vec<String> = Vec::new();
    let mut i: usize = 0;
    while i < rel.len()
        invariant
            i <= rel@.len(),
            views(r@) == part_names(rel@).take(i as int),
        decreases rel.len() - i,
    {
        let ghost before = r@;
        r.push(owned(rel[i].name.as_str()));
        assert(views(r@) =~= views(before).push(rel@[i as int].name@));
        assert(part_names(rel@).take(i + 1) =~= part_names(rel@).take(i as int).push(
            rel@[i as int].name@,
        ));
        i = i + 1;
    }
    assert(part_names(rel@).take(i as int) =~= part_names(rel@));
    r
}

fn invalid_directory_name() -> (r: Error)
    ensures
        r matches Error::Io(k, m) && k == IoKind::InvalidInput && m@ == "无效目录名"@,
{
    Error::Io(IoKind::InvalidInput, owned("无效目录名"))
}

/// The entries of one input to compress (see [`input_spec`]).
pub fn input_entries(cwd: &str, input: &InputSource, skip_hidden: bool) -> (r: Result<
    Vec<CompressEntry>,
    Error,
>)
    ensures
        entries_outcome(input_spec(cwd@, *input, skip_hidden), r),
        !skip_hidden && !input.is_dir ==> (r matches Ok(v) && v@.len() == 1 && v@[0].src@
            == absolute_path(cwd@, input.src@) && v@[0].name@ == match input.name {
            Some(p) => p.name@,
            None => seq![],
        }),
        !skip_hidden && input.is_dir && input.name is Some && input.name->0.utf8 ==> (r matches Ok(v)
            && v@.len() >= 1 && v@[0].src@ == absolute_path(cwd@, input.src@) && v@[0].name@
            == input.name->0.name@ + seq!['/']),
{
    let ghost expected = input_spec(cwd@, *input, skip_hidden);
    let src = absolute(cwd, input.src.as_str());
    let hidden = match &input.name {
        Some(p) => p.utf8 && starts_with_char(p.name.as_str(), '.'),
        None => false,
    };
    let mut out: Vec<CompressEntry> = Vec::new();
    if skip_hidden && hidden {
        assert(entry_pairs(out@) =~= seq![]);
        return Ok(out);
    }
    if !input.is_dir {
        let n = match &input.name {
            Some(p) => owned(p.name.as_str()),
            None => String::new(),
        };
        out.push(CompressEntry { src, name: n });
        assert(entry_pairs(out@) =~= expected->0);
        return Ok(out);
    }
    let top = match &input.name {
        Some(p) => {
            if p.utf8 {
                owned(p.name.as_str())
            } else {
                return Err(invalid_directory_name());
            }
        },
        None => {
            return Err(invalid_directory_name());
        },
    };
    let walked = &input.walked;
    out.push(CompressEntry { src, name: top_dir_name(top.as_str()) });
    let ghost head = seq![(absolute_path(cwd@, input.src@), top@ + seq!['/'])];
    assert(entry_pairs(out@) =~= head + walked_pairs(cwd@, top@, kept_items(walked@.take(0), skip_hidden)));
    let mut i: usize = 0;
    while i < walked.len()
        invariant
            i <= walked@.len(),
            entry_pairs(out@) == head + walked_pairs(cwd@, top@, kept_items(walked@.take(i as int), skip_hidden)),
        decreases walked.len() - i,
    {
        let ghost ks = kept_items(walked@.take(i as int), skip_hidden);
        assert(walked@.take(i + 1).drop_last() =~= walked@.take(i as int));
        assert(walked@.take(i + 1).last() == walked@[i as int]);
        let item = &walked[i];
        let keep = item.rel.len() > 0 && !(skip_hidden && has_hidden_exec(item.rel.as_slice()));
        if keep {
            let names = part_name_vec(item.rel.as_slice());
            let n = walked_entry_name(top.as_str(), names.as_slice(), item.is_dir);
            let a = absolute(cwd, item.src.as_str());
            let ghost before = out@;
            out.push(CompressEntry { src: a, name: n });
            assert(entry_pairs(out@) =~= entry_pairs(before).push(entry_pair(out@[before.len() as int])));
            assert(walked_pairs(cwd@, top@, ks.push(walked@[i as int])) =~= walked_pairs(cwd@, top@, ks).push(
                (absolute_path(cwd@, walked@[i as int].src@), walked_name(top@, part_names(walked@[i as int].rel@), walked@[i as int].is_dir)),
            ));
            assert(entry_pairs(out@) =~= head + walked_pairs(cwd@, top@, ks.push(walked@[i as int])));
        }
        i = i + 1;
    }
    assert(walked@.take(i as int) =~= walked@);
    assert(entry_pairs(out@).len() == out@.len());
    assert(entry_pairs(out@)[0] == entry_pair(out@[0]));
    Ok(out)
}

/// Unless hidden items are skipped, every input yields entries, whether or not its name starts
/// with `.`: a file exactly its one entry (its absolute source and its file name), a directory
/// with a UTF-8 name first its own `name/` entry. When they are skipped, a hidden input yields
/// none.
pub proof fn inputs_kept_unless_hidden_ones_are_skipped(cwd: Seq<char>, input: InputSource)
    ensures
        !input.is_dir ==> input_spec(cwd, input, false) == Some(
            seq![
                (absolute_path(cwd, input.src@), match input.name {
                    Some(p) => p.name@,
                    None => seq![],
                }),
            ],
        ),
        input.is_dir && input.name is Some && input.name->0.utf8 ==> (input_spec(cwd, input, false) matches Some(
            s,
        ) && s.len() >= 1 && s[0] == (absolute_path(cwd, input.src@), input.name->0.name@ + seq![
            '/',
        ])),
        input.name is Some && input.name->0.utf8 && input.name->0.name@.len() > 0
            && input.name->0.name@[0] == '.' ==> input_spec(cwd, input, true) == Some(
            Seq::<(Seq<char>, Seq<char>)>::empty(),
        ),
{
}

proof fn lemma_pairs_absolute(cwd: Seq<char>, inputs: Seq<InputSource>, skip_hidden: bool)
    requires
        is_absolute(cwd),
        collected(cwd, inputs, skip_hidden) is Some,
    ensures
        forall|k: int|
            0 <= k < collected(cwd, inputs, skip_hidden)->0.len() ==> is_absolute(
                #[trigger] collected(cwd, inputs, skip_hidden)->0[k].0,
            ),
    decreases inputs.len(),
{
    if inputs.len() > 0 {
        let a = collected(cwd, inputs.drop_last(), skip_hidden)->0;
        let input = inputs.last();
        let b = input_spec(cwd, input, skip_hidden)->0;
        lemma_pairs_absolute(cwd, inputs.drop_last(), skip_hidden);
        absolute_path_is_absolute(cwd, input.src@);
        assert forall|k: int| 0 <= k < b.len() implies is_absolute(#[trigger] b[k].0) by {
            if input.is_dir && k > 0 && !(skip_hidden && (input.name matches Some(p) && part_hidden(p))) {
                let ks = kept_items(input.walked@, skip_hidden);
                absolute_path_is_absolute(cwd, ks[k - 1].src@);
            }
        }
        assert forall|k: int| 0 <= k < (a + b).len() implies is_absolute(#[trigger] (a + b)[k].0) by {
            if k >= a.len() {
                assert((a + b)[k] == b[k - a.len()]);
            } else {
                assert((a + b)[k] == a[k]);
            }
        }
    }
}

/// The entries to compress for all inputs, input by input (see [`collected`]). Every source
/// is absolute where the working directory `cwd` is.
pub fn collect_entries(inputs: &[InputSource], cwd: &str, opts: &CompressOptions) -> (r: Result<
    Vec<CompressEntry>,
    Error,
>)
    ensures
        entries_outcome(collected(cwd@, inputs@, opts.skip_hidden), r),
        is_absolute(cwd@) ==> match r {
            Ok(v) => forall|k: int| 0 <= k < v@.len() ==> is_absolute(#[trigger] v@[k].src@),
            Err(_) => true,
        },
{
    let mut out: Vec<CompressEntry> = Vec::new();
    let mut i: usize = 0;
    assert(entry_pairs(out@) =~= seq![]);
    while i < inputs.len()
        invariant
            i <= inputs@.len(),
            collected(cwd@, inputs@.take(i as int), opts.skip_hidden) == Some(entry_pairs(out@)),
        decreases inputs.len() - i,
    {
        assert(inputs@.take(i + 1).drop_last() =~= inputs@.take(i as int));
        assert(inputs@.take(i + 1).last() == inputs@[i as int]);
        let part = input_entries(cwd, &inputs[i], opts.skip_hidden);
        match part {
            Err(e) => {
                proof {
                    lemma_refusal_persists(cwd@, inputs@, opts.skip_hidden, i + 1);
                }
                return Err(e);
            },
            Ok(v) => {
                let ghost before = out@;
                let ghost added = v@;
                let mut v = v;
                out.append(&mut v);
                assert(entry_pairs(out@) =~= entry_pairs(before) + entry_pairs(added));
            },
        }
        i = i + 1;
    }
    assert(inputs@.take(i as int) =~= inputs@);
    proof {
        if is_absolute(cwd@) {
            lemma_pairs_absolute(cwd@, inputs@, opts.skip_hidden);
            assert forall|k: int| 0 <= k < out@.len() implies is_absolute(#[trigger] out@[k].src@) by {
                assert(collected(cwd@, inputs@, opts.skip_hidden)->0 == entry_pairs(out@));
                assert(is_absolute(collected(cwd@, inputs@, opts.skip_hidden)->0[k].0));
                assert(entry_pairs(out@)[k].0 == out@[k].src@);
            }
        }
    }
    Ok(out)
}

/// Once some input is refused, the whole collection is.
proof fn lemma_refusal_persists(cwd: Seq<char>, inputs: Seq<InputSource>, skip_hidden: bool, n: int)
    requires
        0 <= n <= inputs.len(),
        collected(cwd, inputs.take(n), skip_hidden) is None,
    ensures
        collected(cwd, inputs, skip_hidden) is None,
    decreases inputs.len() - n,
{
    if n < inputs.len() {
        assert(inputs.take(n + 1).drop_last() =~= inputs.take(n));
        lemma_refusal_persists(cwd, inputs, skip_hidden, n + 1);
    } else {
        assert(inputs.take(n) =~= inputs);
    }
}

/// The message of a path that cannot be made relative to the directory it was found in.
pub fn relative_path_error() -> (r: Error)
    ensures
        r matches Error::Io(k, m) && k == IoKind::InvalidInput && m@ == "路径解析失败"@,
{
    Error::Io(IoKind::InvalidInput, owned("路径解析失败"))
}

} // verus!

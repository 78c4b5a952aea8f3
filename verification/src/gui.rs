//! The decisions of the desktop front end: checking the output of a compression, the events
//! sent to the page, the action requested on the command line by the Explorer menu, the page
//! each action opens, and the table of running operations that can be cancelled.
use std::collections::HashMap;

use path_slash::PathExt;

use vstd::prelude::*;
use vstd::string::*;

use crate::error::{error_text, Error};
use crate::format::extension_of;
use crate::options::{CompressOptions, ExtractOptions, OverwriteMode};
use crate::progress::{CancelHandle, ProgressReport};
use crate::text::{ascii_lower_seq, concat2, owned, str_eq, to_ascii_lower};
use vstd::utf8::encode_utf8;

verus! {

broadcast use vstd::std_specs::hash::group_hash_axioms;

/// An event sent to the page over a channel: progress, completion, or failure.
#[derive(Clone, Debug)]
pub enum ChannelEvent {
    Progress(ProgressReport),
    Done { id: u64 },
    Error { id: u64, message: String },
}

/// The event that ends the operation `id`.
pub fn completion_event(id: u64, result: &Result<(), Error>) -> (r: ChannelEvent)
    ensures
        result is Ok ==> r == (ChannelEvent::Done { id }),
        result matches Err(e) ==> (r matches ChannelEvent::Error { id: i, message: m } && i == id
            && m@ == error_text(*e)),
{
    match result {
        Ok(()) => ChannelEvent::Done { id },
        Err(e) => ChannelEvent::Error { id, message: e.message() },
    }
}

/// The compression options chosen on the page; the level is capped at 9.
pub fn compress_options(level: u32, password: Option<String>, overwrite: bool, skip_hidden: bool) -> (r:
    CompressOptions)
    ensures
        r.level == if level < 9 {
            level
        } else {
            9
        },
        r.password == password,
        r.overwrite == overwrite,
        r.skip_hidden == skip_hidden,
{
    let capped = if level < 9 {
        level
    } else {
        9
    };
    CompressOptions { level: capped, password, overwrite, skip_hidden }
}

/// The extraction options chosen on the page: overwrite or skip existing files.
pub fn extract_options(password: Option<String>, overwrite: bool) -> (r: ExtractOptions)
    ensures
        r.password == password,
        r.overwrite == if overwrite {
            OverwriteMode::Overwrite
        } else {
            OverwriteMode::Skip
        },
{
    ExtractOptions {
        password,
        overwrite: if overwrite {
            OverwriteMode::Overwrite
        } else {
            OverwriteMode::Skip
        },
    }
}

pub open spec fn msg_no_ext() -> Seq<char> {
    "输出路径缺少扩展名，无法推断格式"@
}

/// The outcome of checking the output `target` against the chosen `format` (empty: inferred
/// from the extension). The extension is compared in ASCII lower case.
pub open spec fn target_check(target: Seq<char>, format: Seq<char>, r: Result<(), String>) -> bool {
    let ext = match extension_of(target) {
        Some(e) => Some(ascii_lower_seq(e)),
        None => None,
    };
    if format.len() == 0 && ext is None {
        r matches Err(m) && m@ == msg_no_ext()
    } else {
        let expected = if format.len() == 0 {
            ext->0
        } else {
            format
        };
        if ext != Some(expected) {
            r matches Err(m) && m@ == "输出扩展名 "@ + (match ext {
                Some(e) => e,
                None => "(无)"@,
            }) + " 与格式 "@ + expected + " 不一致"@
        } else if expected != "zip"@ && expected != "7z"@ {
            r matches Err(m) && m@ == "不支持的格式: "@ + expected
        } else {
            r is Ok
        }
    }
}

/// Checks that the output of a compression has the extension of its format, and that the
/// format is `zip` or `7z`.
pub fn validate_target(target: &str, format: &str) -> (r: Result<(), String>)
    ensures
        target_check(target@, format@, r),
{
    let ext: Option<String> = match crate::format::path_extension(target) {
        Some(e) => Some(to_ascii_lower(e.as_str())),
        None => None,
    };
    let expected: String = if format.unicode_len() == 0 {
        match &ext {
            Some(e) => owned(e.as_str()),
            None => return Err(owned("输出路径缺少扩展名，无法推断格式")),
        }
    } else {
        owned(format)
    };
    let same = match &ext {
        Some(e) => str_eq(e.as_str(), expected.as_str()),
        None => false,
    };
    if !same {
        let shown: String = match &ext {
            Some(e) => owned(e.as_str()),
            None => owned("(无)"),
        };
        let mut m = concat2("输出扩展名 ", shown.as_str());
        m.append(" 与格式 ");
        m.append(expected.as_str());
        m.append(" 不一致");
        return Err(m);
    }
    if !str_eq(expected.as_str(), "zip") && !str_eq(expected.as_str(), "7z") {
        return Err(concat2("不支持的格式: ", expected.as_str()));
    }
    Ok(())
}

/// The actions the Explorer menu can request.
#[derive(Clone, Copy, Debug, PartialEq, Eq, Structural)]
pub enum PendingActionType {
    Open,
    ExtractHere,
    ExtractTo,
    ExtractNamed,
}

/// An action requested on the command line, with the archive it applies to.
#[derive(Clone, Debug)]
pub struct PendingAction {
    pub action: PendingActionType,
    pub path: String,
}

/// The action a command-line flag requests.
pub open spec fn flag_action(a: Seq<char>) -> Option<PendingActionType> {
    if a == "--open"@ {
        Some(PendingActionType::Open)
    } else if a == "--extract-here"@ {
        Some(PendingActionType::ExtractHere)
    } else if a == "--extract-to"@ {
        Some(PendingActionType::ExtractTo)
    } else if a == "--extract-named"@ {
        Some(PendingActionType::ExtractNamed)
    } else {
        None
    }
}

/// The first action flag from index `i` on that is followed by another argument (its path),
/// with the index of that path. A flag that ends the arguments requests nothing.
pub open spec fn first_action(args: Seq<Seq<char>>, i: int) -> Option<(PendingActionType, int)>
    decreases args.len() - i,
{
    if i < 0 || i >= args.len() {
        None
    } else {
        match flag_action(args[i]) {
            None => first_action(args, i + 1),
            Some(t) => if i + 1 < args.len() {
                Some((t, i + 1))
            } else {
                None
            },
        }
    }
}

pub open spec fn arg_views(args: Seq<String>) -> Seq<Seq<char>> {
    args.map_values(|s: String| s@)
}

fn flag_action_exec(a: &str) -> (r: Option<PendingActionType>)
    ensures
        r == flag_action(a@),
{
    if str_eq(a, "--open") {
        Some(PendingActionType::Open)
    } else if str_eq(a, "--extract-here") {
        Some(PendingActionType::ExtractHere)
    } else if str_eq(a, "--extract-to") {
        Some(PendingActionType::ExtractTo)
    } else if str_eq(a, "--extract-named") {
        Some(PendingActionType::ExtractNamed)
    } else {
        None
    }
}

/// The action requested by the program's arguments (`args[0]` is the program itself).
pub fn pending_action_from_args(args: &[String]) -> (r: Option<PendingAction>)
    ensures
        match first_action(arg_views(args@), 1) {
            None => r is None,
            Some((t, p)) => r matches Some(a) && a.action == t && a.path@ == args@[p]@,
        },
{
    let ghost v = arg_views(args@);
    let mut i: usize = 1;
    while i < args.len()
        invariant
            1 <= i,
            v == arg_views(args@),
            first_action(v, 1) == first_action(v, i as int),
        decreases args.len() - i,
    {
        let t = flag_action_exec(args[i].as_str());
        assert(v[i as int] == args@[i as int]@);
        match t {
            None => {
                i = i + 1;
            },
            Some(t) => {
                if i + 1 < args.len() {
                    return Some(PendingAction { action: t, path: owned(args[i + 1].as_str()) });
                }
                return None;
            },
        }
    }
    None
}

/// Whether an action runs in the small extraction window.
pub fn use_extract_window(action: &PendingAction) -> (r: bool)
    ensures
        r == (action.action == PendingActionType::ExtractHere || action.action
            == PendingActionType::ExtractNamed),
{
    match action.action {
        PendingActionType::ExtractHere | PendingActionType::ExtractNamed => true,
        _ => false,
    }
}

/// An ASCII letter, digit, or one of `-`, `.`, `_`, `~`: the bytes kept as they are in a URL.
pub open spec fn unreserved(b: u8) -> bool {
    ||| (0x30 <= b && b <= 0x39)
    ||| (0x41 <= b && b <= 0x5A)
    ||| (0x61 <= b && b <= 0x7A)
    ||| b == 0x2D
    ||| b == 0x2E
    ||| b == 0x5F
    ||| b == 0x7E
}

/// Percent-encoding of bytes: unreserved bytes stay, every other byte becomes `%` and two
/// upper-case hexadecimal digits.
pub open spec fn percent_encoded(bytes: Seq<u8>) -> Seq<char>
    decreases bytes.len(),
{
    if bytes.len() == 0 {
        seq![]
    } else {
        let b = bytes[0];
        (if unreserved(b) {
            seq![b as char]
        } else {
            seq!['%', crate::error::hex_digit((b / 16) as int), crate::error::hex_digit((b % 16) as int)]
        }) + percent_encoded(bytes.drop_first())
    }
}

/// Calls `urlencoding::encode`, which percent-encodes every byte of the UTF-8 form of `s`
/// except ASCII letters, digits and `-`, `.`, `_`, `~`, with upper-case hexadecimal digits.
#[verifier::external_body]
fn url_encode(s: &str) -> (r: String)
    ensures
        r@ == percent_encoded(encode_utf8(s@)),
{
    urlencoding::encode(s).into_owned()
}

/// The page an action opens.
pub open spec fn action_page(t: PendingActionType) -> Seq<char> {
    match t {
        PendingActionType::Open => "/open"@,
        PendingActionType::ExtractHere => "/extract-here"@,
        PendingActionType::ExtractTo => "/extract-to"@,
        PendingActionType::ExtractNamed => "/extract-named"@,
    }
}

/// The route of the page of an action, with the archive's path as its encoded `path` query.
pub fn action_to_route(action: &PendingAction) -> (r: String)
    ensures
        r@ == action_page(action.action) + "?path="@ + percent_encoded(encode_utf8(action.path@)),
{
    let encoded = url_encode(action.path.as_str());
    let page = match action.action {
        PendingActionType::Open => "/open",
        PendingActionType::ExtractHere => "/extract-here",
        PendingActionType::ExtractTo => "/extract-to",
        PendingActionType::ExtractNamed => "/extract-named",
    };
    let mut r = concat2(page, "?path=");
    r.append(encoded.as_str());
    r
}

/// The route of the password page, with the error to show as its encoded `error` query.
pub fn password_route(error_message: &str) -> (r: String)
    ensures
        r@ == "/extract-password?error="@ + percent_encoded(encode_utf8(error_message@)),
{
    let encoded = url_encode(error_message);
    concat2("/extract-password?error=", encoded.as_str())
}

/// A path of a single component: no separator (`/` or `\\`) and no drive or prefix mark (`:`).
/// Every platform writes such a path alike.
pub open spec fn single_component(p: Seq<char>) -> bool {
    !p.contains('/') && !p.contains('\\') && !p.contains(':')
}

/// Calls `path_slash::PathExt::to_slash_lossy` on the path. On Windows it rebuilds the path
/// from its components joined by `/`; elsewhere it gives the path's text unchanged. Either way
/// a path of a single component (`""`, `.`, `..` or a plain name) comes back as it is, which
/// is all the contract states: what the rest becomes depends on the platform.
#[verifier::external_body]
fn to_slash_lossy(path: &str) -> (r: String)
    ensures
        single_component(path@) ==> r@ == path@,
{
    std::path::Path::new(path).to_slash_lossy().into_owned()
}

/// The path written with `/` separators (see `to_slash_lossy`): a path of a single component
/// is returned as it is.
pub fn normalize_path(path: &str) -> (r: String)
    ensures
        single_component(path@) ==> r@ == path@,
{
    to_slash_lossy(path)
}

/// The running operations that can be cancelled, by id.
pub struct OperationRegistry {
    inner: HashMap<u64, CancelHandle>,
    next_id: u64,
}

impl OperationRegistry {
    /// The cancellation handle registered under each id.
    pub closed spec fn handles(&self) -> Map<u64, CancelHandle> {
        self.inner@
    }

    /// The ids of the registered operations.
    pub open spec fn ids(&self) -> Set<u64> {
        self.handles().dom()
    }

    /// The id the next registration receives.
    pub closed spec fn next(&self) -> u64 {
        self.next_id
    }

    /// Every registered id is below the next one.
    pub open spec fn well_formed(&self) -> bool {
        forall|id: u64| #[trigger] self.ids().contains(id) ==> id < self.next()
    }

    /// An empty registry whose first id is 1.
    pub fn new() -> (r: Self)
        ensures
            r.handles() == Map::<u64, CancelHandle>::empty(),
            r.next() == 1,
            r.well_formed(),
    {
        OperationRegistry { inner: HashMap::new(), next_id: 1 }
    }

    /// Registers an operation's cancellation handle under the next id, which it returns; the
    /// id counter wraps around.
    pub fn register(&mut self, cancel: CancelHandle) -> (r: u64)
        ensures
            r == old(self).next(),
            final(self).handles() == old(self).handles().insert(r, cancel),
            final(self).next() == old(self).next().wrapping_add(1),
            old(self).well_formed() && old(self).next() < u64::MAX ==> final(self).well_formed()
                && !old(self).ids().contains(r),
    {
        let id = self.next_id;
        self.next_id = self.next_id.wrapping_add(1);
        self.inner.insert(id, cancel);
        assert(self.ids() =~= old(self).ids().insert(id));
        id
    }

    /// Cancels the operation `id`; false where no such operation is registered.
    pub fn cancel(&self, id: u64) -> (r: bool)
        ensures
            r == self.ids().contains(id),
    {
        match self.inner.get(&id) {
            Some(h) => {
                h.cancel();
                true
            },
            None => false,
        }
    }

    /// Removes the operation `id` once it has ended.
    pub fn unregister(&mut self, id: u64)
        ensures
            final(self).handles() == old(self).handles().remove(id),
            final(self).next() == old(self).next(),
            old(self).well_formed() ==> final(self).well_formed(),
    {
        self.inner.remove(&id);
        assert(self.ids() =~= old(self).ids().remove(id));
    }
}

/// The answer to a request to cancel the operation `id`: refused where no such operation is
/// running (it never started, or it has ended).
pub fn cancel_operation(registry: &OperationRegistry, id: u64) -> (r: Result<(), String>)
    ensures
        registry.ids().contains(id) ==> r is Ok,
        !registry.ids().contains(id) ==> (r matches Err(m) && m@ == "操作不存在或已结束"@),
{
    if registry.cancel(id) {
        Ok(())
    } else {
        Err(owned("操作不存在或已结束"))
    }
}

impl Default for OperationRegistry {
    fn default() -> (r: Self)
        ensures
            r.handles() == Map::<u64, CancelHandle>::empty(),
            r.next() == 1,
    {
        OperationRegistry::new()
    }
}

/// Once `register(h)` has returned `id`, `cancel(id)` finds the operation and the handle it
/// reaches is `h`; the other operations keep their handles.
pub proof fn registered_operation_is_cancellable(
    before: OperationRegistry,
    after: OperationRegistry,
    id: u64,
    h: CancelHandle,
)
    requires
        after.handles() == before.handles().insert(id, h),
    ensures
        after.ids().contains(id),
        after.handles()[id] == h,
        forall|other: u64| other != id && before.ids().contains(other) ==> after.ids().contains(other)
            && after.handles()[other] == before.handles()[other],
{
}

/// Once `unregister(id)` has run, `cancel(id)` no longer finds the operation; the other
/// operations keep their handles.
pub proof fn unregistered_operation_is_gone(
    before: OperationRegistry,
    after: OperationRegistry,
    id: u64,
)
    requires
        after.handles() == before.handles().remove(id),
    ensures
        !after.ids().contains(id),
        forall|other: u64| other != id && before.ids().contains(other) ==> after.ids().contains(other)
            && after.handles()[other] == before.handles()[other],
{
}

} // verus!

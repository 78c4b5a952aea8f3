//! The decisions of the Windows 11 Explorer command extension: the identifiers it answers to,
//! what each command shows, and the bookkeeping of its sub-command enumerator.
use vstd::prelude::*;
use vstd::string::*;

use crate::text::{concat2, owned};

verus! {

/// A COM result code.
pub type HRESULT = i32;

pub const S_OK: HRESULT = 0;

pub const S_FALSE: HRESULT = 1;

/// 0x80004001
pub const E_NOTIMPL: HRESULT = -2147467263;

/// 0x80004002
pub const E_NOINTERFACE: HRESULT = -2147467262;

/// 0x80004003
pub const E_POINTER: HRESULT = -2147467261;

/// 0x80004005
pub const E_FAIL: HRESULT = -2147467259;

/// 0x8007000E
pub const E_OUTOFMEMORY: HRESULT = -2147024882;

/// 0x80040110
pub const CLASS_E_NOAGGREGATION: HRESULT = -2147221232;

pub const ECS_ENABLED: u32 = 0;

pub const ECS_DISABLED: u32 = 1;

pub const ECS_HIDDEN: u32 = 2;

pub const ECF_DEFAULT: u32 = 0;

pub const ECF_HASSUBCOMMANDS: u32 = 1;

/// Asks a shell item for its file-system path.
pub const SIGDN_FILESYSPATH: u32 = 0x8005_8000;

/// A COM globally unique identifier.
#[derive(Clone, Copy)]
pub struct GUID {
    pub data1: u32,
    pub data2: u16,
    pub data3: u16,
    pub data4: [u8; 8],
}

/// The identifier has these parts.
pub open spec fn guid_is(g: GUID, d1: u32, d2: u16, d3: u16, d4: Seq<u8>) -> bool {
    g.data1 == d1 && g.data2 == d2 && g.data3 == d3 && g.data4@ == d4
}

/// Two identifiers are the same.
pub open spec fn same_guid(a: GUID, b: GUID) -> bool {
    guid_is(a, b.data1, b.data2, b.data3, b.data4@)
}

impl GUID {
    /// Whether the two identifiers are the same, part by part.
    pub fn eq(&self, other: &GUID) -> (r: bool)
        ensures
            r == same_guid(*self, *other),
    {
        if self.data1 != other.data1 || self.data2 != other.data2 || self.data3 != other.data3 {
            return false;
        }
        let mut i: usize = 0;
        while i < 8
            invariant
                i <= 8,
                self.data4@.len() == 8,
                other.data4@.len() == 8,
                forall|j: int| 0 <= j < i ==> self.data4@[j] == other.data4@[j],
            decreases 8 - i,
        {
            if self.data4[i] != other.data4[i] {
                return false;
            }
            i = i + 1;
        }
        assert(self.data4@ =~= other.data4@);
        true
    }
}

/// The fourth part shared by the standard COM interfaces.
pub open spec fn com_tail() -> Seq<u8> {
    seq![0xC0u8, 0x00u8, 0x00u8, 0x00u8, 0x00u8, 0x00u8, 0x00u8, 0x46u8]
}

/// The fourth part of the command identifiers, ending in `last`.
pub open spec fn litepack_tail(last: u8) -> Seq<u8> {
    seq![0xA6u8, 0xB7u8, 0xC8u8, 0xD9u8, 0xE0u8, 0xF1u8, 0xA2u8, last]
}

/// IUnknown {00000000-0000-0000-C000-000000000046}
pub fn iid_iunknown() -> (g: GUID)
    ensures
        guid_is(g, 0, 0, 0, com_tail()),
{
    let g = GUID { data1: 0, data2: 0, data3: 0, data4: [0xC0, 0x00, 0x00, 0x00, 0x00, 0x00, 0x00, 0x46] };
    assert(g.data4@ =~= com_tail());
    g
}

/// IClassFactory {00000001-0000-0000-C000-000000000046}
pub fn iid_iclassfactory() -> (g: GUID)
    ensures
        guid_is(g, 1, 0, 0, com_tail()),
{
    let g = GUID { data1: 1, data2: 0, data3: 0, data4: [0xC0, 0x00, 0x00, 0x00, 0x00, 0x00, 0x00, 0x46] };
    assert(g.data4@ =~= com_tail());
    g
}

/// IExplorerCommand {A5C4B8CF-E100-4509-B50D-2A570112495D}
pub fn iid_iexplorercommand() -> (g: GUID)
    ensures
        guid_is(
            g,
            0xA5C4_B8CF,
            0xE100,
            0x4509,
            seq![0xB5u8, 0x0Du8, 0x2Au8, 0x57u8, 0x01u8, 0x12u8, 0x49u8, 0x5Du8],
        ),
{
    let g = GUID {
        data1: 0xA5C4_B8CF,
        data2: 0xE100,
        data3: 0x4509,
        data4: [0xB5, 0x0D, 0x2A, 0x57, 0x01, 0x12, 0x49, 0x5D],
    };
    assert(g.data4@ =~= seq![0xB5u8, 0x0Du8, 0x2Au8, 0x57u8, 0x01u8, 0x12u8, 0x49u8, 0x5Du8]);
    g
}

/// IEnumExplorerCommand {A8844EAB-5BFE-4E26-B5C5-5C5E6B3E7C3B}
pub fn iid_ienumexplorercommand() -> (g: GUID)
    ensures
        guid_is(
            g,
            0xA884_4EAB,
            0x5BFE,
            0x4E26,
            seq![0xB5u8, 0xC5u8, 0x5Cu8, 0x5Eu8, 0x6Bu8, 0x3Eu8, 0x7Cu8, 0x3Bu8],
        ),
{
    let g = GUID {
        data1: 0xA884_4EAB,
        data2: 0x5BFE,
        data3: 0x4E26,
        data4: [0xB5, 0xC5, 0x5C, 0x5E, 0x6B, 0x3E, 0x7C, 0x3B],
    };
    assert(g.data4@ =~= seq![0xB5u8, 0xC5u8, 0x5Cu8, 0x5Eu8, 0x6Bu8, 0x3Eu8, 0x7Cu8, 0x3Bu8]);
    g
}

/// A LitePack identifier {7B2E4A1F-9C3D-4E5F-A6B7-C8D9E0F1A2xx}, `xx` being `last`.
fn litepack_guid(last: u8) -> (g: GUID)
    ensures
        guid_is(g, 0x7B2E_4A1F, 0x9C3D, 0x4E5F, litepack_tail(last)),
{
    let g = GUID {
        data1: 0x7B2E_4A1F,
        data2: 0x9C3D,
        data3: 0x4E5F,
        data4: [0xA6, 0xB7, 0xC8, 0xD9, 0xE0, 0xF1, 0xA2, last],
    };
    assert(g.data4@ =~= litepack_tail(last));
    g
}

/// The class of the extension, CLSID_LitePackShell {7B2E4A1F-9C3D-4E5F-A6B7-C8D9E0F1A2B3}.
pub fn clsid_litepackshell() -> (g: GUID)
    ensures
        guid_is(g, 0x7B2E_4A1F, 0x9C3D, 0x4E5F, litepack_tail(0xB3)),
{
    litepack_guid(0xB3)
}

/// The actions of the sub-commands.
#[derive(Clone, Copy, Debug, PartialEq, Eq, Structural)]
pub enum Action {
    Open,
    ExtractHere,
    ExtractTo,
    ExtractNamed,
}

/// The last byte of an action's canonical identifier.
pub open spec fn action_guid_last(a: Action) -> u8 {
    match a {
        Action::Open => 0xB4,
        Action::ExtractHere => 0xB5,
        Action::ExtractTo => 0xB6,
        Action::ExtractNamed => 0xB7,
    }
}

pub open spec fn action_title(a: Action) -> Seq<char> {
    match a {
        Action::Open => "用 LitePack 打开"@,
        Action::ExtractHere => "解压到当前文件夹"@,
        Action::ExtractTo => "解压到..."@,
        Action::ExtractNamed => "解压到同名目录"@,
    }
}

pub open spec fn action_flag(a: Action) -> Seq<char> {
    match a {
        Action::Open => "--open"@,
        Action::ExtractHere => "--extract-here"@,
        Action::ExtractTo => "--extract-to"@,
        Action::ExtractNamed => "--extract-named"@,
    }
}

impl Action {
    /// The menu text of the action.
    pub fn title(&self) -> (r: &'static str)
        ensures
            r@ == action_title(*self),
    {
        match self {
            Action::Open => "用 LitePack 打开",
            Action::ExtractHere => "解压到当前文件夹",
            Action::ExtractTo => "解压到...",
            Action::ExtractNamed => "解压到同名目录",
        }
    }

    /// The flag that asks the program for the action.
    pub fn cli_flag(&self) -> (r: &'static str)
        ensures
            r@ == action_flag(*self),
    {
        match self {
            Action::Open => "--open",
            Action::ExtractHere => "--extract-here",
            Action::ExtractTo => "--extract-to",
            Action::ExtractNamed => "--extract-named",
        }
    }

    /// The canonical identifier of the action's command:
    /// {7B2E4A1F-9C3D-4E5F-A6B7-C8D9E0F1A2B4} to ...A2B7 in the order of the actions.
    pub fn canonical_guid(&self) -> (g: GUID)
        ensures
            guid_is(g, 0x7B2E_4A1F, 0x9C3D, 0x4E5F, litepack_tail(action_guid_last(*self))),
    {
        match self {
            Action::Open => litepack_guid(0xB4),
            Action::ExtractHere => litepack_guid(0xB5),
            Action::ExtractTo => litepack_guid(0xB6),
            Action::ExtractNamed => litepack_guid(0xB7),
        }
    }
}

/// The four sub-commands, in menu order.
pub fn all_actions() -> (r: [Action; 4])
    ensures
        r@ == seq![Action::Open, Action::ExtractHere, Action::ExtractTo, Action::ExtractNamed],
{
    let r = [Action::Open, Action::ExtractHere, Action::ExtractTo, Action::ExtractNamed];
    assert(r@ =~= seq![Action::Open, Action::ExtractHere, Action::ExtractTo, Action::ExtractNamed]);
    r
}

/// A command of the extension: the top-level "LitePack" entry, or one of its sub-commands.
#[derive(Clone, Copy, Debug)]
pub enum CommandKind {
    Parent,
    Child(Action),
}

/// The text a command shows.
pub fn command_title(kind: &CommandKind) -> (r: &'static str)
    ensures
        kind is Parent ==> r@ == "LitePack"@,
        kind matches CommandKind::Child(a) ==> r@ == action_title(*a),
{
    match kind {
        CommandKind::Parent => "LitePack",
        CommandKind::Child(a) => a.title(),
    }
}

/// The tool tip of a command.
pub fn command_tooltip(kind: &CommandKind) -> (r: &'static str)
    ensures
        kind is Parent ==> r@ == "LitePack 压缩/解压工具"@,
        kind matches CommandKind::Child(a) ==> r@ == action_title(*a),
{
    match kind {
        CommandKind::Parent => "LitePack 压缩/解压工具",
        CommandKind::Child(a) => a.title(),
    }
}

/// The canonical identifier of a command: the class for the top-level entry.
pub fn command_canonical_name(kind: &CommandKind) -> (g: GUID)
    ensures
        kind is Parent ==> guid_is(g, 0x7B2E_4A1F, 0x9C3D, 0x4E5F, litepack_tail(0xB3)),
        kind matches CommandKind::Child(a) ==> guid_is(
            g,
            0x7B2E_4A1F,
            0x9C3D,
            0x4E5F,
            litepack_tail(action_guid_last(*a)),
        ),
{
    match kind {
        CommandKind::Parent => clsid_litepackshell(),
        CommandKind::Child(a) => a.canonical_guid(),
    }
}

/// The flags of a command: only the top-level entry has sub-commands.
pub fn command_flags(kind: &CommandKind) -> (r: u32)
    ensures
        kind is Parent ==> r == ECF_HASSUBCOMMANDS,
        kind is Child ==> r == ECF_DEFAULT,
{
    match kind {
        CommandKind::Parent => ECF_HASSUBCOMMANDS,
        CommandKind::Child(_) => ECF_DEFAULT,
    }
}

/// What `IExplorerCommand::Invoke` does.
#[derive(Clone, Debug)]
pub enum InvokeStep {
    /// Answer at once with this result.
    Answer(HRESULT),
    /// Start the program with this flag and this file.
    Launch { flag: &'static str, path: String },
}

/// `IExplorerCommand::Invoke` for the selection whose first file is `file_path`: the top-level
/// entry does nothing by itself (`E_NOTIMPL`); a sub-command without a file fails; else it
/// starts the program with the action's flag and the file.
pub fn invoke_step(kind: &CommandKind, file_path: Option<&str>) -> (r: InvokeStep)
    ensures
        kind is Parent ==> r == InvokeStep::Answer(E_NOTIMPL),
        kind is Child && file_path is None ==> r == InvokeStep::Answer(E_FAIL),
        match (*kind, file_path) {
            (CommandKind::Child(a), Some(p)) => r matches InvokeStep::Launch { flag, path } && flag@
                == action_flag(a) && path@ == p@,
            _ => true,
        },
{
    match kind {
        CommandKind::Parent => InvokeStep::Answer(E_NOTIMPL),
        CommandKind::Child(a) => match file_path {
            Some(p) => InvokeStep::Launch { flag: a.cli_flag(), path: owned(p) },
            None => InvokeStep::Answer(E_FAIL),
        },
    }
}

/// The result of `Invoke` once the program was, or could not be, started.
pub fn launch_result(started: bool) -> (r: HRESULT)
    ensures
        r == if started {
            S_OK
        } else {
            E_FAIL
        },
{
    if started {
        S_OK
    } else {
        E_FAIL
    }
}

/// The outcome of asking an enumerator at `index` over `len` commands for `celt` more:
/// the number handed out, the new index, and `S_OK` only when all were handed out.
pub open spec fn next_outcome(index: u32, celt: u32, len: u32, r: (u32, u32, HRESULT)) -> bool {
    let avail: int = if index >= len {
        0
    } else {
        len - index
    };
    let fetched: int = if celt <= avail {
        celt as int
    } else {
        avail
    };
    &&& r.0 == fetched
    &&& r.1 == index + fetched
    &&& r.2 == if fetched == celt {
        S_OK
    } else {
        S_FALSE
    }
}

/// `IEnumExplorerCommand::Next`: hands out commands from `index` while there are any and
/// fewer than `celt` were handed out.
pub fn enum_next(index: u32, celt: u32, len: u32) -> (r: (u32, u32, HRESULT))
    ensures
        next_outcome(index, celt, len, r),
        index <= len ==> r.1 <= len,
{
    let mut fetched: u32 = 0;
    let mut idx: u32 = index;
    while fetched < celt && idx < len
        invariant
            fetched <= celt,
            idx == index + fetched,
            index < len ==> idx <= len,
            index >= len ==> fetched == 0,
        decreases celt - fetched,
    {
        idx = idx + 1;
        fetched = fetched + 1;
    }
    let hr = if fetched == celt {
        S_OK
    } else {
        S_FALSE
    };
    (fetched, idx, hr)
}

/// `IEnumExplorerCommand::Skip`: moves the index forward by `celt`, stopping at the end with
/// `S_FALSE`.
pub fn enum_skip(index: u32, celt: u32, len: u32) -> (r: (u32, HRESULT))
    requires
        index + celt <= u32::MAX,
    ensures
        index + celt > len ==> r == (len, S_FALSE),
        index + celt <= len ==> r == ((index + celt) as u32, S_OK),
{
    let new_idx = index + celt;
    if new_idx > len {
        (len, S_FALSE)
    } else {
        (new_idx, S_OK)
    }
}

/// `DllCanUnloadNow`: the library may be unloaded once no object of it is alive.
pub fn can_unload_now(live_objects: u32) -> (r: HRESULT)
    ensures
        r == if live_objects == 0 {
            S_OK
        } else {
            S_FALSE
        },
{
    if live_objects == 0 {
        S_OK
    } else {
        S_FALSE
    }
}

/// An interface identifier is given and is one of the two accepted ones.
pub open spec fn asks_for(iid: Option<GUID>, a: GUID, b: GUID) -> bool {
    iid matches Some(g) && (same_guid(g, a) || same_guid(g, b))
}

fn asks_for_exec(iid: Option<&GUID>, a: &GUID, b: &GUID) -> (r: bool)
    ensures
        r == asks_for(
            match iid {
                Some(g) => Some(*g),
                None => None,
            },
            *a,
            *b,
        ),
{
    match iid {
        Some(g) => g.eq(a) || g.eq(b),
        None => false,
    }
}

/// `DllGetClassObject`: without a place for the result the call is refused (`E_POINTER`); then
/// only LitePack's class is served, and only through `IClassFactory` or `IUnknown`. `S_OK`
/// means a class factory is to be made (see [`made_result`]). `None` stands for a null
/// identifier.
pub fn class_object_decision(place_is_null: bool, clsid: Option<&GUID>, iid: Option<&GUID>) -> (r: HRESULT)
    ensures
        ({
            let c = match clsid {
                Some(g) => Some(*g),
                None => None,
            };
            let i = match iid {
                Some(g) => Some(*g),
                None => None,
            };
            let ours = c matches Some(g) && guid_is(
                g,
                0x7B2E_4A1F,
                0x9C3D,
                0x4E5F,
                litepack_tail(0xB3),
            );
            let factory = i matches Some(g) && (guid_is(g, 1, 0, 0, com_tail()) || guid_is(
                g,
                0,
                0,
                0,
                com_tail(),
            ));
            r == if place_is_null {
                E_POINTER
            } else if !ours {
                E_FAIL
            } else if !factory {
                E_NOINTERFACE
            } else {
                S_OK
            }
        }),
{
    if place_is_null {
        return E_POINTER;
    }
    let ours = match clsid {
        Some(g) => g.eq(&clsid_litepackshell()),
        None => false,
    };
    if !ours {
        return E_FAIL;
    }
    if !asks_for_exec(iid, &iid_iclassfactory(), &iid_iunknown()) {
        return E_NOINTERFACE;
    }
    S_OK
}

/// `IClassFactory::CreateInstance`: without a place for the result the call is refused
/// (`E_POINTER`); aggregation is refused, and only `IExplorerCommand` or `IUnknown` is made.
/// `S_OK` means a top-level command is to be made (see [`made_result`]).
pub fn create_instance_decision(place_is_null: bool, outer_is_null: bool, iid: Option<&GUID>) -> (r: HRESULT)
    ensures
        ({
            let i = match iid {
                Some(g) => Some(*g),
                None => None,
            };
            let wanted = i matches Some(g) && (guid_is(
                g,
                0xA5C4_B8CF,
                0xE100,
                0x4509,
                seq![0xB5u8, 0x0Du8, 0x2Au8, 0x57u8, 0x01u8, 0x12u8, 0x49u8, 0x5Du8],
            ) || guid_is(g, 0, 0, 0, com_tail()));
            r == if place_is_null {
                E_POINTER
            } else if !outer_is_null {
                CLASS_E_NOAGGREGATION
            } else if !wanted {
                E_NOINTERFACE
            } else {
                S_OK
            }
        }),
{
    if place_is_null {
        return E_POINTER;
    }
    if !outer_is_null {
        return CLASS_E_NOAGGREGATION;
    }
    if !asks_for_exec(iid, &iid_iexplorercommand(), &iid_iunknown()) {
        return E_NOINTERFACE;
    }
    S_OK
}

/// The result once the object that a decision of `S_OK` asked for was, or could not be, made.
pub fn made_result(made: bool) -> (r: HRESULT)
    ensures
        r == if made {
            S_OK
        } else {
            E_OUTOFMEMORY
        },
{
    if made {
        S_OK
    } else {
        E_OUTOFMEMORY
    }
}

/// The icon of the commands: the program's first icon resource, where the program was found.
pub fn get_icon_path(exe: Option<&str>) -> (r: Option<String>)
    ensures
        exe is None ==> r is None,
        exe matches Some(e) ==> (r matches Some(p) && p@ == e@ + ",0"@),
{
    match exe {
        Some(e) => Some(concat2(e, ",0")),
        None => None,
    }
}

} // verus!

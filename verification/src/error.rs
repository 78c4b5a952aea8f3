//! The library's error type and the mapping of ZIP reader failures onto it.
use vstd::prelude::*;
use vstd::string::*;

use crate::text::{concat2, owned, push_char};

verus! {

/// The class of an I/O failure, as the operating system or a reader reports it: one variant
/// per kind of `std::io::ErrorKind`; a failure std leaves uncategorised counts as `Other`.
#[derive(Clone, Copy, Debug, PartialEq, Eq, Structural)]
pub enum IoKind {
    NotFound,
    PermissionDenied,
    ConnectionRefused,
    ConnectionReset,
    HostUnreachable,
    NetworkUnreachable,
    ConnectionAborted,
    NotConnected,
    AddrInUse,
    AddrNotAvailable,
    NetworkDown,
    BrokenPipe,
    AlreadyExists,
    WouldBlock,
    NotADirectory,
    IsADirectory,
    DirectoryNotEmpty,
    ReadOnlyFilesystem,
    StaleNetworkFileHandle,
    InvalidInput,
    InvalidData,
    TimedOut,
    WriteZero,
    StorageFull,
    NotSeekable,
    QuotaExceeded,
    FileTooLarge,
    ResourceBusy,
    ExecutableFileBusy,
    Deadlock,
    CrossesDevices,
    TooManyLinks,
    InvalidFilename,
    ArgumentListTooLong,
    Interrupted,
    Unsupported,
    UnexpectedEof,
    OutOfMemory,
    Other,
}

/// Errors of the archive operations.
#[derive(Clone, Debug)]
pub enum Error {
    /// An I/O failure: its class and its message.
    Io(IoKind, String),
    UnsupportedFormat(String),
    BadPassword,
    Encrypted,
    PathTraversal(String),
    ZipBomb,
    Cancelled,
}

pub type Result<T> = core::result::Result<T, Error>;

pub open spec fn msg_io() -> Seq<char> {
    "IO 错误: "@
}

pub open spec fn msg_unsupported() -> Seq<char> {
    "不支持的归档格式: "@
}

pub open spec fn msg_bad_password() -> Seq<char> {
    "密码错误"@
}

pub open spec fn msg_encrypted() -> Seq<char> {
    "归档已加密且未提供有效密码"@
}

pub open spec fn msg_traversal() -> Seq<char> {
    "检测到路径穿越: "@
}

pub open spec fn msg_bomb() -> Seq<char> {
    "归档炸弹风险，已拒绝解压（大小/比例/条目数超限）"@
}

pub open spec fn msg_cancelled() -> Seq<char> {
    "操作已取消"@
}

/// The text shown to a user for an error.
pub open spec fn error_text(e: Error) -> Seq<char> {
    match e {
        Error::Io(_, m) => msg_io() + m@,
        Error::UnsupportedFormat(m) => msg_unsupported() + m@,
        Error::BadPassword => msg_bad_password(),
        Error::Encrypted => msg_encrypted(),
        Error::PathTraversal(m) => msg_traversal() + m@,
        Error::ZipBomb => msg_bomb(),
        Error::Cancelled => msg_cancelled(),
    }
}

impl Error {
    /// The message of the error, as the user sees it.
    pub fn message(&self) -> (r: String)
        ensures
            r@ == error_text(*self),
    {
        match self {
            Error::Io(_, m) => concat2("IO 错误: ", m.as_str()),
            Error::UnsupportedFormat(m) => concat2("不支持的归档格式: ", m.as_str()),
            Error::BadPassword => owned("密码错误"),
            Error::Encrypted => owned("归档已加密且未提供有效密码"),
            Error::PathTraversal(m) => concat2("检测到路径穿越: ", m.as_str()),
            Error::ZipBomb => owned("归档炸弹风险，已拒绝解压（大小/比例/条目数超限）"),
            Error::Cancelled => owned("操作已取消"),
        }
    }

    /// Whether this is the cancellation error.
    pub fn is_cancelled(&self) -> (r: bool)
        ensures
            r == (*self is Cancelled),
    {
        match self {
            Error::Cancelled => true,
            _ => false,
        }
    }
}

/// What a ZIP reader reported as the cause of a failure.
#[derive(Clone, Debug)]
pub enum ZipFailure {
    /// An I/O failure with its class and message.
    Io(IoKind, String),
    /// The archive is malformed; the reader's explanation.
    InvalidArchive(String),
    /// The archive uses a feature that is not supported; the reader's explanation.
    UnsupportedArchive(String),
    FileNotFound,
    InvalidPassword,
    /// The numeric id of an unsupported compression method.
    CompressionMethodNotSupported(u16),
    /// Any other failure, with the reader's message.
    Other(String),
}

/// An upper-case hexadecimal digit.
pub open spec fn hex_digit(d: int) -> char {
    if d < 10 {
        ('0' as int + d) as char
    } else {
        ('A' as int + d - 10) as char
    }
}

/// Four upper-case hexadecimal digits of `m` (`{:04X}`).
pub open spec fn hex4(m: u16) -> Seq<char> {
    seq![
        hex_digit((m / 4096) as int),
        hex_digit(((m / 256) % 16) as int),
        hex_digit(((m / 16) % 16) as int),
        hex_digit((m % 16) as int),
    ]
}

pub open spec fn msg_method() -> Seq<char> {
    "不支持的 ZIP 压缩方法 0x"@
}

pub open spec fn msg_missing_entry() -> Seq<char> {
    "归档内条目不存在"@
}

/// The error that a ZIP reader failure becomes.
pub open spec fn zip_failure_error(f: ZipFailure, r: Error) -> bool {
    match f {
        ZipFailure::Io(k, m) => r matches Error::Io(k2, m2) && k2 == k && m2@ == m@,
        ZipFailure::InvalidArchive(m) => r matches Error::Io(k2, m2) && k2 == IoKind::InvalidData
            && m2@ == m@,
        ZipFailure::UnsupportedArchive(m) => r matches Error::UnsupportedFormat(m2) && m2@ == m@,
        ZipFailure::FileNotFound => r matches Error::Io(k2, m2) && k2 == IoKind::NotFound && m2@
            == msg_missing_entry(),
        ZipFailure::InvalidPassword => r is BadPassword,
        ZipFailure::CompressionMethodNotSupported(id) => r matches Error::UnsupportedFormat(m2)
            && m2@ == msg_method() + hex4(id),
        ZipFailure::Other(m) => r matches Error::Io(k2, m2) && k2 == IoKind::Other && m2@ == m@,
    }
}

fn hex_digit_char(d: u16) -> (c: char)
    requires
        d < 16,
    ensures
        c == hex_digit(d as int),
{
    let b: u8 = d as u8;
    if b < 10 {
        (48u8 + b) as char
    } else {
        (55u8 + b) as char
    }
}

/// `{:04X}` of `m`.
pub fn hex4_upper(m: u16) -> (r: String)
    ensures
        r@ == hex4(m),
{
    let mut r = String::new();
    push_char(&mut r, hex_digit_char(m / 4096));
    push_char(&mut r, hex_digit_char((m / 256) % 16));
    push_char(&mut r, hex_digit_char((m / 16) % 16));
    push_char(&mut r, hex_digit_char(m % 16));
    assert(r@ =~= hex4(m));
    r
}

impl Error {
    /// The error that a failure of the ZIP reader becomes.
    pub fn from_zip(f: ZipFailure) -> (r: Error)
        ensures
            zip_failure_error(f, r),
    {
        match f {
            ZipFailure::Io(k, m) => Error::Io(k, m),
            ZipFailure::InvalidArchive(m) => Error::Io(IoKind::InvalidData, m),
            ZipFailure::UnsupportedArchive(m) => Error::UnsupportedFormat(m),
            ZipFailure::FileNotFound => Error::Io(IoKind::NotFound, owned("归档内条目不存在")),
            ZipFailure::InvalidPassword => Error::BadPassword,
            ZipFailure::CompressionMethodNotSupported(id) => {
                let hex = hex4_upper(id);
                Error::UnsupportedFormat(concat2("不支持的 ZIP 压缩方法 0x", hex.as_str()))
            },
            ZipFailure::Other(m) => Error::Io(IoKind::Other, m),
        }
    }
}

} // verus!

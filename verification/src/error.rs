//! The failures the manager knows, and how they end.

use vstd::prelude::*;

verus! {

/// A failure of the manager.
#[derive(Debug, Clone, Copy, PartialEq, Eq, Structural)]
pub enum WmError {
    /// The display could not be opened.
    NoDisplay,
    /// The display has no screen.
    NoScreen,
    /// Another manager holds the substructure redirection of the root.
    ManagerConflict,
    /// The attributes of a window could not be read.
    BadWindowAttrs,
    /// The server reported the error `code` for a request with the major
    /// opcode `request`.
    ProtocolError { code: u8, request: u8 },
}

impl WmError {
    /// Whether the failure ends the manager: those of the startup do, those
    /// of a single event do not.
    pub open spec fn fatal(self) -> bool {
        self is NoDisplay || self is NoScreen || self is ManagerConflict
    }

    /// The exit code of a process that ends on the failure: 1 where there is
    /// no display or no screen to manage, 2 where another manager is running,
    /// and 0 for a failure that does not end the manager.
    pub open spec fn code(self) -> i32 {
        match self {
            WmError::NoDisplay => 1,
            WmError::NoScreen => 1,
            WmError::ManagerConflict => 2,
            WmError::BadWindowAttrs => 0,
            WmError::ProtocolError { .. } => 0,
        }
    }

    /// The name of a protocol error code.
    pub open spec fn code_name(code: u8) -> Seq<char> {
        match code {
            0 => "Success"@,
            1 => "BadRequest"@,
            2 => "BadValue"@,
            3 => "BadWindow"@,
            4 => "BadPixmap"@,
            5 => "BadAtom"@,
            6 => "BadCursor"@,
            7 => "BadFont"@,
            8 => "BadMatch"@,
            9 => "BadDrawable"@,
            10 => "BadAccess"@,
            11 => "BadAlloc"@,
            12 => "BadColor"@,
            13 => "BadGC"@,
            14 => "BadIDChoice"@,
            15 => "BadName"@,
            16 => "BadLength"@,
            17 => "BadImplementation"@,
            128 => "FirstExtensionError"@,
            255 => "LastExtensionError"@,
            _ => "Unknown error code"@,
        }
    }

    /// The one-line description of each failure; for a protocol error, the
    /// name of its code.
    pub open spec fn text(self) -> Seq<char> {
        match self {
            WmError::NoDisplay => "could not connect to display server"@,
            WmError::NoScreen => "No screens associated with display"@,
            WmError::ManagerConflict => "Another window manager detected"@,
            WmError::BadWindowAttrs => "Could not acquire window attributes"@,
            WmError::ProtocolError { code, request } => WmError::code_name(code),
        }
    }

    /// Whether the failure ends the manager.
    pub fn is_fatal(&self) -> (r: bool)
        ensures
            r == self.fatal(),
    {
        match self {
            WmError::NoDisplay => true,
            WmError::NoScreen => true,
            WmError::ManagerConflict => true,
            WmError::BadWindowAttrs => false,
            WmError::ProtocolError { .. } => false,
        }
    }

    /// The exit code of a process that ends on the failure.
    pub fn exit_code(&self) -> (r: i32)
        ensures
            r == self.code(),
    {
        match self {
            WmError::NoDisplay => 1,
            WmError::NoScreen => 1,
            WmError::ManagerConflict => 2,
            WmError::BadWindowAttrs => 0,
            WmError::ProtocolError { .. } => 0,
        }
    }

    /// The one-line description of the failure.
    pub fn describe(&self) -> (s: &'static str)
        ensures
            s@ == self.text(),
    {
        match self {
            WmError::NoDisplay => "could not connect to display server",
            WmError::NoScreen => "No screens associated with display",
            WmError::ManagerConflict => "Another window manager detected",
            WmError::BadWindowAttrs => "Could not acquire window attributes",
            WmError::ProtocolError { code, request } => err_code_pretty(*code),
        }
    }
}

/// The name of a protocol error code.
pub fn err_code_pretty(code: u8) -> (s: &'static str)
    ensures
        s@ == WmError::code_name(code),
{
    match code {
        0 => "Success",
        1 => "BadRequest",
        2 => "BadValue",
        3 => "BadWindow",
        4 => "BadPixmap",
        5 => "BadAtom",
        6 => "BadCursor",
        7 => "BadFont",
        8 => "BadMatch",
        9 => "BadDrawable",
        10 => "BadAccess",
        11 => "BadAlloc",
        12 => "BadColor",
        13 => "BadGC",
        14 => "BadIDChoice",
        15 => "BadName",
        16 => "BadLength",
        17 => "BadImplementation",
        128 => "FirstExtensionError",
        255 => "LastExtensionError",
        _ => "Unknown error code",
    }
}

} // verus!

//! The device's status byte and its classification into outcomes.
use vstd::prelude::*;

verus! {

/// A status code reported by the reader in every response.
#[derive(Debug, Clone, Copy, PartialEq, Eq, Structural)]
pub enum ResponseStatus {
    OK,
    ReturnBeforeInventoryFinished,
    ScanTimeOverflow,
    MoreData,
    ReaderFlashFull,
    AccessPasswordError,
    KillTagError,
    KillPasswordZero,
    CommandNotSupported,
    SaveFail,
    CannotAdjust,
    CommandExecuteError,
    PoorCommunication,
    NoTags,
    TagError,
    WrongLength,
    IllegalCommand,
    ParameterError,
}

/// The four kinds of outcome that a status code can stand for.
#[derive(Debug, Clone, Copy, PartialEq, Eq, Structural)]
pub enum StatusClass {
    /// The operation completed, possibly in part; the payload is meaningful.
    Success,
    /// A transient condition between reader and tag; the caller may retry.
    Communication,
    /// The tag rejected the operation.
    Protocol,
    /// The request was malformed, or the code is not one a caller can act on.
    Program,
}

/// The status that a byte on the wire stands for, if any.
pub open spec fn status_from_code(b: u8) -> Option<ResponseStatus> {
    if b == 0x00 {
        Some(ResponseStatus::OK)
    } else if b == 0x01 {
        Some(ResponseStatus::ReturnBeforeInventoryFinished)
    } else if b == 0x02 {
        Some(ResponseStatus::ScanTimeOverflow)
    } else if b == 0x03 {
        Some(ResponseStatus::MoreData)
    } else if b == 0x04 {
        Some(ResponseStatus::ReaderFlashFull)
    } else if b == 0x05 {
        Some(ResponseStatus::AccessPasswordError)
    } else if b == 0x09 {
        Some(ResponseStatus::KillTagError)
    } else if b == 0x0A {
        Some(ResponseStatus::KillPasswordZero)
    } else if b == 0x0B {
        Some(ResponseStatus::CommandNotSupported)
    } else if b == 0x13 {
        Some(ResponseStatus::SaveFail)
    } else if b == 0x14 {
        Some(ResponseStatus::CannotAdjust)
    } else if b == 0xF9 {
        Some(ResponseStatus::CommandExecuteError)
    } else if b == 0xFA {
        Some(ResponseStatus::PoorCommunication)
    } else if b == 0xFB {
        Some(ResponseStatus::NoTags)
    } else if b == 0xFC {
        Some(ResponseStatus::TagError)
    } else if b == 0xFD {
        Some(ResponseStatus::WrongLength)
    } else if b == 0xFE {
        Some(ResponseStatus::IllegalCommand)
    } else if b == 0xFF {
        Some(ResponseStatus::ParameterError)
    } else {
        None
    }
}

impl ResponseStatus {
    /// The byte that stands for this status on the wire.
    pub open spec fn spec_code(self) -> u8 {
        match self {
            ResponseStatus::OK => 0x00,
            ResponseStatus::ReturnBeforeInventoryFinished => 0x01,
            ResponseStatus::ScanTimeOverflow => 0x02,
            ResponseStatus::MoreData => 0x03,
            ResponseStatus::ReaderFlashFull => 0x04,
            ResponseStatus::AccessPasswordError => 0x05,
            ResponseStatus::KillTagError => 0x09,
            ResponseStatus::KillPasswordZero => 0x0A,
            ResponseStatus::CommandNotSupported => 0x0B,
            ResponseStatus::SaveFail => 0x13,
            ResponseStatus::CannotAdjust => 0x14,
            ResponseStatus::CommandExecuteError => 0xF9,
            ResponseStatus::PoorCommunication => 0xFA,
            ResponseStatus::NoTags => 0xFB,
            ResponseStatus::TagError => 0xFC,
            ResponseStatus::WrongLength => 0xFD,
            ResponseStatus::IllegalCommand => 0xFE,
            ResponseStatus::ParameterError => 0xFF,
        }
    }

    /// The outcome class of this status.
    pub open spec fn spec_class(self) -> StatusClass {
        match self {
            ResponseStatus::OK => StatusClass::Success,
            ResponseStatus::ReturnBeforeInventoryFinished => StatusClass::Success,
            ResponseStatus::ScanTimeOverflow => StatusClass::Success,
            ResponseStatus::MoreData => StatusClass::Success,
            ResponseStatus::PoorCommunication => StatusClass::Communication,
            ResponseStatus::NoTags => StatusClass::Communication,
            ResponseStatus::AccessPasswordError => StatusClass::Protocol,
            ResponseStatus::KillTagError => StatusClass::Protocol,
            ResponseStatus::KillPasswordZero => StatusClass::Protocol,
            ResponseStatus::CommandNotSupported => StatusClass::Protocol,
            _ => StatusClass::Program,
        }
    }

    /// The variant's name, as it is shown in error messages.
    pub open spec fn spec_name(self) -> Seq<char> {
        match self {
            ResponseStatus::OK => "OK"@,
            ResponseStatus::ReturnBeforeInventoryFinished => "ReturnBeforeInventoryFinished"@,
            ResponseStatus::ScanTimeOverflow => "ScanTimeOverflow"@,
            ResponseStatus::MoreData => "MoreData"@,
            ResponseStatus::ReaderFlashFull => "ReaderFlashFull"@,
            ResponseStatus::AccessPasswordError => "AccessPasswordError"@,
            ResponseStatus::KillTagError => "KillTagError"@,
            ResponseStatus::KillPasswordZero => "KillPasswordZero"@,
            ResponseStatus::CommandNotSupported => "CommandNotSupported"@,
            ResponseStatus::SaveFail => "SaveFail"@,
            ResponseStatus::CannotAdjust => "CannotAdjust"@,
            ResponseStatus::CommandExecuteError => "CommandExecuteError"@,
            ResponseStatus::PoorCommunication => "PoorCommunication"@,
            ResponseStatus::NoTags => "NoTags"@,
            ResponseStatus::TagError => "TagError"@,
            ResponseStatus::WrongLength => "WrongLength"@,
            ResponseStatus::IllegalCommand => "IllegalCommand"@,
            ResponseStatus::ParameterError => "ParameterError"@,
        }
    }

    /// Decodes a status byte; `None` for a byte that is no known status.
    pub fn from_code(b: u8) -> (r: Option<ResponseStatus>)
        ensures
            r == status_from_code(b),
    {
        match b {
            0x00 => Some(ResponseStatus::OK),
            0x01 => Some(ResponseStatus::ReturnBeforeInventoryFinished),
            0x02 => Some(ResponseStatus::ScanTimeOverflow),
            0x03 => Some(ResponseStatus::MoreData),
            0x04 => Some(ResponseStatus::ReaderFlashFull),
            0x05 => Some(ResponseStatus::AccessPasswordError),
            0x09 => Some(ResponseStatus::KillTagError),
            0x0A => Some(ResponseStatus::KillPasswordZero),
            0x0B => Some(ResponseStatus::CommandNotSupported),
            0x13 => Some(ResponseStatus::SaveFail),
            0x14 => Some(ResponseStatus::CannotAdjust),
            0xF9 => Some(ResponseStatus::CommandExecuteError),
            0xFA => Some(ResponseStatus::PoorCommunication),
            0xFB => Some(ResponseStatus::NoTags),
            0xFC => Some(ResponseStatus::TagError),
            0xFD => Some(ResponseStatus::WrongLength),
            0xFE => Some(ResponseStatus::IllegalCommand),
            0xFF => Some(ResponseStatus::ParameterError),
            _ => None,
        }
    }

    /// The byte that stands for this status on the wire.
    pub fn code(&self) -> (r: u8)
        ensures
            r == self.spec_code(),
    {
        match self {
            ResponseStatus::OK => 0x00,
            ResponseStatus::ReturnBeforeInventoryFinished => 0x01,
            ResponseStatus::ScanTimeOverflow => 0x02,
            ResponseStatus::MoreData => 0x03,
            ResponseStatus::ReaderFlashFull => 0x04,
            ResponseStatus::AccessPasswordError => 0x05,
            ResponseStatus::KillTagError => 0x09,
            ResponseStatus::KillPasswordZero => 0x0A,
            ResponseStatus::CommandNotSupported => 0x0B,
            ResponseStatus::SaveFail => 0x13,
            ResponseStatus::CannotAdjust => 0x14,
            ResponseStatus::CommandExecuteError => 0xF9,
            ResponseStatus::PoorCommunication => 0xFA,
            ResponseStatus::NoTags => 0xFB,
            ResponseStatus::TagError => 0xFC,
            ResponseStatus::WrongLength => 0xFD,
            ResponseStatus::IllegalCommand => 0xFE,
            ResponseStatus::ParameterError => 0xFF,
        }
    }

    /// The outcome class of this status: every status has exactly one.
    pub fn class(&self) -> (r: StatusClass)
        ensures
            r == self.spec_class(),
    {
        match self {
            ResponseStatus::OK => StatusClass::Success,
            ResponseStatus::ReturnBeforeInventoryFinished => StatusClass::Success,
            ResponseStatus::ScanTimeOverflow => StatusClass::Success,
            ResponseStatus::MoreData => StatusClass::Success,
            ResponseStatus::PoorCommunication => StatusClass::Communication,
            ResponseStatus::NoTags => StatusClass::Communication,
            ResponseStatus::AccessPasswordError => StatusClass::Protocol,
            ResponseStatus::KillTagError => StatusClass::Protocol,
            ResponseStatus::KillPasswordZero => StatusClass::Protocol,
            ResponseStatus::CommandNotSupported => StatusClass::Protocol,
            _ => StatusClass::Program,
        }
    }

    /// Whether the operation completed and its payload is meaningful.
    pub fn is_success(&self) -> (r: bool)
        ensures
            r == (self.spec_class() == StatusClass::Success),
    {
        match self {
            ResponseStatus::OK => true,
            ResponseStatus::ReturnBeforeInventoryFinished => true,
            ResponseStatus::ScanTimeOverflow => true,
            ResponseStatus::MoreData => true,
            _ => false,
        }
    }

    /// The variant's name, as it is shown in error messages.
    pub fn name(&self) -> (r: &'static str)
        ensures
            r@ == self.spec_name(),
    {
        match self {
            ResponseStatus::OK => "OK",
            ResponseStatus::ReturnBeforeInventoryFinished => "ReturnBeforeInventoryFinished",
            ResponseStatus::ScanTimeOverflow => "ScanTimeOverflow",
            ResponseStatus::MoreData => "MoreData",
            ResponseStatus::ReaderFlashFull => "ReaderFlashFull",
            ResponseStatus::AccessPasswordError => "AccessPasswordError",
            ResponseStatus::KillTagError => "KillTagError",
            ResponseStatus::KillPasswordZero => "KillPasswordZero",
            ResponseStatus::CommandNotSupported => "CommandNotSupported",
            ResponseStatus::SaveFail => "SaveFail",
            ResponseStatus::CannotAdjust => "CannotAdjust",
            ResponseStatus::CommandExecuteError => "CommandExecuteError",
            ResponseStatus::PoorCommunication => "PoorCommunication",
            ResponseStatus::NoTags => "NoTags",
            ResponseStatus::TagError => "TagError",
            ResponseStatus::WrongLength => "WrongLength",
            ResponseStatus::IllegalCommand => "IllegalCommand",
            ResponseStatus::ParameterError => "ParameterError",
        }
    }
}

/// Every status byte that decodes names the status that encodes to it, and
/// every status encodes to a byte that decodes back to it.
pub proof fn lemma_status_code_round_trip(s: ResponseStatus, b: u8)
    ensures
        status_from_code(s.spec_code()) == Some(s),
        status_from_code(b) matches Some(t) ==> t.spec_code() == b,
{
}

} // verus!

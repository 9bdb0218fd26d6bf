//! The closed set of failures and the classifier of native result codes.

use vstd::prelude::*;
use vstd::string::*;
use crate::text::{append_signed_decimal, signed_decimal};
use crate::raw::{
    ADJ_ERR_FAM_UNSUPPORTED, ADJ_ERR_MEMORY_ACCESS, ADJ_ERR_SMU_REJECTED, ADJ_ERR_SMU_TIMEOUT,
    ADJ_ERR_SMU_UNSUPPORTED, ADJ_OK,
};

verus! {

/// Everything that can go wrong at this layer.
#[derive(Debug, Clone, Copy, PartialEq, Eq, Structural)]
pub enum RyzenAdjErr {
    /// The native library handed out no session.
    Init,
    /// The session was opened, but its table could not be initialised; holds
    /// the native code.
    Table(i32),
    /// A telemetry read gave a value that is not a number. Reserved: nothing
    /// at this layer reports it.
    NaN,
    /// Family detection failed; holds the native code. Reserved: nothing at
    /// this layer reports it.
    UnknownFamily(i32),
    /// The native library does not support the CPU family.
    FamilyUnsupported,
    /// The SMU did not answer in time. Nothing is tried again here: whether
    /// to repeat the call is for the caller to decide.
    SmuTimeout,
    /// The SMU does not know the command.
    SmuUnsupported,
    /// The SMU refused the command.
    SmuRejected,
    /// The native library could not reach the memory it needs.
    MemoryAccess,
    /// A native code outside the known set, kept as it came.
    Unknown(i32),
}

impl RyzenAdjErr {
    /// The non-zero result codes that have a failure of their own.
    pub open spec fn is_named_code(result: i32) -> bool {
        ||| result == ADJ_ERR_FAM_UNSUPPORTED
        ||| result == ADJ_ERR_SMU_TIMEOUT
        ||| result == ADJ_ERR_SMU_UNSUPPORTED
        ||| result == ADJ_ERR_SMU_REJECTED
        ||| result == ADJ_ERR_MEMORY_ACCESS
    }

    /// What the result code of a write or control call means.
    pub open spec fn classify(result: i32) -> Result<(), RyzenAdjErr> {
        if result == ADJ_OK {
            Ok(())
        } else if result == ADJ_ERR_FAM_UNSUPPORTED {
            Err(RyzenAdjErr::FamilyUnsupported)
        } else if result == ADJ_ERR_SMU_TIMEOUT {
            Err(RyzenAdjErr::SmuTimeout)
        } else if result == ADJ_ERR_SMU_UNSUPPORTED {
            Err(RyzenAdjErr::SmuUnsupported)
        } else if result == ADJ_ERR_SMU_REJECTED {
            Err(RyzenAdjErr::SmuRejected)
        } else if result == ADJ_ERR_MEMORY_ACCESS {
            Err(RyzenAdjErr::MemoryAccess)
        } else {
            Err(RyzenAdjErr::Unknown(result))
        }
    }

    /// Classifies the result code of a native write or control call.
    ///
    /// Total and pure: zero is the one success, each named code gives its
    /// own failure, and every other code comes back inside `Unknown`.
    pub fn from_set_code(result: i32) -> (outcome: Result<(), RyzenAdjErr>)
        ensures
            outcome == Self::classify(result),
            outcome is Ok <==> result == 0,
            result != 0 && !Self::is_named_code(result) ==> outcome == Err::<(), _>(
                RyzenAdjErr::Unknown(result),
            ),
    {
        match result {
            ADJ_OK => Ok(()),
            ADJ_ERR_FAM_UNSUPPORTED => Err(Self::FamilyUnsupported),
            ADJ_ERR_SMU_TIMEOUT => Err(Self::SmuTimeout),
            ADJ_ERR_SMU_UNSUPPORTED => Err(Self::SmuUnsupported),
            ADJ_ERR_SMU_REJECTED => Err(Self::SmuRejected),
            ADJ_ERR_MEMORY_ACCESS => Err(Self::MemoryAccess),
            res => Err(Self::Unknown(res)),
        }
    }

    /// The message of the failure, with the native code where it has one.
    pub open spec fn message(self) -> Seq<char> {
        match self {
            RyzenAdjErr::Init => "Init error"@,
            RyzenAdjErr::Table(code) => "Table init error "@ + signed_decimal(code as int),
            RyzenAdjErr::NaN => "NaN returned"@,
            RyzenAdjErr::UnknownFamily(code) => "Unknown CPU family "@ + signed_decimal(
                code as int,
            ),
            RyzenAdjErr::FamilyUnsupported => "CPU Family unsupported"@,
            RyzenAdjErr::SmuTimeout => "SMU timeout"@,
            RyzenAdjErr::SmuUnsupported => "SMU unsupported"@,
            RyzenAdjErr::SmuRejected => "SMU rejected"@,
            RyzenAdjErr::MemoryAccess => "Memory access error"@,
            RyzenAdjErr::Unknown(code) => "Unknown error "@ + signed_decimal(code as int),
        }
    }

    /// Writes the message of the failure out.
    pub fn to_string(&self) -> (text: String)
        ensures
            text@ == self.message(),
    {
        match self {
            RyzenAdjErr::Init => String::from_str("Init error"),
            RyzenAdjErr::Table(code) => {
                let mut text = String::from_str("Table init error ");
                append_signed_decimal(&mut text, *code);
                text
            },
            RyzenAdjErr::NaN => String::from_str("NaN returned"),
            RyzenAdjErr::UnknownFamily(code) => {
                let mut text = String::from_str("Unknown CPU family ");
                append_signed_decimal(&mut text, *code);
                text
            },
            RyzenAdjErr::FamilyUnsupported => String::from_str("CPU Family unsupported"),
            RyzenAdjErr::SmuTimeout => String::from_str("SMU timeout"),
            RyzenAdjErr::SmuUnsupported => String::from_str("SMU unsupported"),
            RyzenAdjErr::SmuRejected => String::from_str("SMU rejected"),
            RyzenAdjErr::MemoryAccess => String::from_str("Memory access error"),
            RyzenAdjErr::Unknown(code) => {
                let mut text = String::from_str("Unknown error ");
                append_signed_decimal(&mut text, *code);
                text
            },
        }
    }
}

} // verus!

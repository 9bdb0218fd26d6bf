//! The version of the native library.

use vstd::prelude::*;
use vstd::string::*;
use crate::raw::{RYZENADJ_MAJOR_VER, RYZENADJ_MINIOR_VER, RYZENADJ_REVISION_VER};
use crate::text::{append_decimal, decimal};

verus! {

/// Major, minor and revision number of a build of the native library.
///
/// A plain constant value: it is tied to no session.
#[derive(Debug, Clone, Copy, PartialEq, Eq, Structural)]
pub struct RyzenAdjVersion {
    pub major: u32,
    pub minor: u32,
    pub revision: u32,
}

impl RyzenAdjVersion {
    /// The text of the version: the name of the native library, then `v` and
    /// the three numbers separated by dots.
    pub open spec fn text(self) -> Seq<char> {
        "RyzenAdj v"@ + decimal(self.major as nat) + "."@ + decimal(self.minor as nat) + "."@
            + decimal(self.revision as nat)
    }

    /// Writes the version out.
    pub fn to_string(&self) -> (text: String)
        ensures
            text@ == self.text(),
    {
        let mut text = String::from_str("RyzenAdj v");
        append_decimal(&mut text, self.major);
        text.append(".");
        append_decimal(&mut text, self.minor);
        text.append(".");
        append_decimal(&mut text, self.revision);
        text
    }
}

/// The version of the native library that this layer is written against.
pub fn version() -> (version: RyzenAdjVersion)
    ensures
        version == (RyzenAdjVersion {
            major: RYZENADJ_MAJOR_VER,
            minor: RYZENADJ_MINIOR_VER,
            revision: RYZENADJ_REVISION_VER,
        }),
{
    RyzenAdjVersion {
        major: RYZENADJ_MAJOR_VER,
        minor: RYZENADJ_MINIOR_VER,
        revision: RYZENADJ_REVISION_VER,
    }
}

} // verus!

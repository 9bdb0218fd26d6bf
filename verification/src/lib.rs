//! Typed, sans-I/O session layer over the native RyzenAdj hardware-access
//! library.
//!
//! The native library talks to the SMU of AMD Ryzen SoCs. This crate holds
//! everything around it that can be decided without touching the hardware:
//! which native call is due next, with which arguments, and what a native
//! result code means. A thin driver performs the calls and feeds the replies
//! back.

pub mod error;
pub mod lifecycle;
pub mod raw;
pub mod session;
pub mod text;
pub mod trace;
pub mod version;

pub use error::RyzenAdjErr;
pub use lifecycle::{Event, Phase};
pub use raw::{Control, CoreTelemetry, Info, Limit, NativeCall, Telemetry};
pub use session::{RyzenAccess, TableView};
pub use version::{version, RyzenAdjVersion};

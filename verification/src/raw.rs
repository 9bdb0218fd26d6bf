//! The native interface as plain values: the constants of its header and a
//! description of every call this layer makes on it.

use vstd::prelude::*;

verus! {

/// Major version of the native library this layer is written against.
pub const RYZENADJ_MAJOR_VER: u32 = 0;

/// Minor version of the native library (the header spells it this way).
pub const RYZENADJ_MINIOR_VER: u32 = 13;

/// Revision of the native library.
pub const RYZENADJ_REVISION_VER: u32 = 0;

/// Result code of a write or control call that succeeded.
pub const ADJ_OK: i32 = 0;

/// The CPU family is not supported by the native library.
pub const ADJ_ERR_FAM_UNSUPPORTED: i32 = -1;

/// The SMU did not answer in time.
pub const ADJ_ERR_SMU_TIMEOUT: i32 = -2;

/// The SMU does not know the command.
pub const ADJ_ERR_SMU_UNSUPPORTED: i32 = -3;

/// The SMU refused the command.
pub const ADJ_ERR_SMU_REJECTED: i32 = -4;

/// The native library could not reach the memory it needs.
pub const ADJ_ERR_MEMORY_ACCESS: i32 = -5;

/// The handle value with which the native library reports that it opened no
/// session. A handle is held here as its address.
pub const INVALID_HANDLE: usize = 0;

/// A limit or offset that is written with one unsigned value
/// (`set_<limit>(handle, value)`).
#[derive(Debug, Clone, Copy, PartialEq, Eq, Structural)]
pub enum Limit {
    StapmLimit,
    FastLimit,
    SlowLimit,
    SlowTime,
    StapmTime,
    TctlTemp,
    VrmCurrent,
    VrmsocCurrent,
    VrmgfxCurrent,
    VrmcvipCurrent,
    VrmmaxCurrent,
    VrmgfxmaxCurrent,
    VrmsocmaxCurrent,
    Psi0Current,
    Psi3cpuCurrent,
    Psi0socCurrent,
    Psi3gfxCurrent,
    MaxGfxclkFreq,
    MinGfxclkFreq,
    MaxSocclkFreq,
    MinSocclkFreq,
    MaxFclkFreq,
    MinFclkFreq,
    MaxVcn,
    MinVcn,
    MaxLclk,
    MinLclk,
    ProchotDeassertionRamp,
    ApuSkinTempLimit,
    DgpuSkinTempLimit,
    ApuSlowLimit,
    SkinTempPowerLimit,
    GfxClk,
    OcClk,
    PerCoreOcClk,
    OcVolt,
    Coall,
    Coper,
    Cogfx,
}

/// A control that is switched without a value (`set_<control>(handle)`).
#[derive(Debug, Clone, Copy, PartialEq, Eq, Structural)]
pub enum Control {
    DisableOc,
    EnableOc,
    PowerSaving,
    MaxPerformance,
}

/// A telemetry field of the whole package (`get_<field>(handle)`).
#[derive(Debug, Clone, Copy, PartialEq, Eq, Structural)]
pub enum Telemetry {
    StapmLimit,
    StapmValue,
    FastLimit,
    FastValue,
    SlowLimit,
    SlowValue,
    SlowTime,
    StapmTime,
    TctlTemp,
    TctlTempValue,
    VrmCurrent,
    VrmCurrentValue,
    VrmsocCurrent,
    VrmsocCurrentValue,
    VrmmaxCurrent,
    VrmmaxCurrentValue,
    VrmsocmaxCurrent,
    VrmsocmaxCurrentValue,
    Psi0Current,
    Psi0socCurrent,
    CclkSetpoint,
    CclkBusyValue,
    ApuSkinTempLimit,
    ApuSkinTempValue,
    DgpuSkinTempLimit,
    DgpuSkinTempValue,
    ApuSlowLimit,
    ApuSlowValue,
    GfxClk,
    GfxTemp,
    GfxVolt,
    L3Clk,
    L3Logic,
    L3Vddm,
    L3Temp,
    MemClk,
    Fclk,
    SocPower,
    SocVolt,
    SocketPower,
}

/// A telemetry field that exists once per core
/// (`get_core_<stat>(handle, core)`).
#[derive(Debug, Clone, Copy, PartialEq, Eq, Structural)]
pub enum CoreTelemetry {
    Clk,
    Volt,
    Power,
    Temp,
}

/// An integer the native library reports about itself or its table.
#[derive(Debug, Clone, Copy, PartialEq, Eq, Structural)]
pub enum Info {
    /// `get_bios_if_ver`
    BiosIfVer,
    /// `get_table_ver`
    TableVer,
    /// `get_table_size`
    TableSize,
}

/// One call on the native library, with the arguments it is made with.
#[derive(Debug, Clone, Copy, PartialEq, Eq, Structural)]
pub enum NativeCall {
    /// `init_ryzenadj()`: answers with a handle.
    Open,
    /// `init_table(handle)`: answers with a result code.
    InitTable { handle: usize },
    /// `cleanup_ryzenadj(handle)`: answers with nothing.
    Cleanup { handle: usize },
    /// `refresh_table(handle)`: answers with a result code.
    RefreshTable { handle: usize },
    /// `get_table_values(handle)`: answers with the address of the table.
    TableValues { handle: usize },
    /// One of the integer getters.
    Query { handle: usize, info: Info },
    /// `get_<field>(handle)`: answers with a floating-point number.
    Read { handle: usize, field: Telemetry },
    /// `get_core_<stat>(handle, core)`: answers with a floating-point number.
    ReadCore { handle: usize, stat: CoreTelemetry, core: u32 },
    /// `set_<limit>(handle, value)`: answers with a result code.
    Write { handle: usize, limit: Limit, value: u32 },
    /// `set_<control>(handle)`: answers with a result code.
    Toggle { handle: usize, control: Control },
}

} // verus!

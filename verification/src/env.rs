//! The environment commands this frontend answers. The core issues weakly
//! typed commands through a single callback during `retro_load_game` and
//! `retro_run`; classifying the command word and deciding the answer is logic,
//! and lives here — only the reads and writes through the raw data pointer
//! stay with the unverified shell.

use vstd::prelude::*;

verus! {

/// Commands marked experimental in the libretro header carry this flag.
pub const ENV_EXPERIMENTAL: u32 = 0x10000;

pub const ENV_GET_CAN_DUPE: u32 = 3;

pub const ENV_SHUTDOWN: u32 = 7;

pub const ENV_GET_SYSTEM_DIRECTORY: u32 = 9;

pub const ENV_SET_PIXEL_FORMAT: u32 = 10;

pub const ENV_SET_HW_RENDER: u32 = 14;

pub const ENV_GET_VARIABLE: u32 = 15;

pub const ENV_GET_LOG_INTERFACE: u32 = 27;

pub const ENV_GET_SAVE_DIRECTORY: u32 = 31;

pub const ENV_SET_CONTROLLER_INFO: u32 = 35;

pub const ENV_SET_MEMORY_MAPS: u32 = 36 | ENV_EXPERIMENTAL;

pub const ENV_GET_PREFERRED_HW_RENDER: u32 = 56;

/// The commands the frontend recognizes. Everything else is answered false.
#[derive(Clone, Copy, Debug, PartialEq, Eq, Structural)]
pub enum EnvCommand {
    /// Controller layout notification; accepted without action.
    SetControllerInfo,
    /// The core announces the pixel format of its frames.
    SetPixelFormat,
    /// The core asks where the system directory is.
    GetSystemDirectory,
    /// The core asks where the save directory is.
    GetSaveDirectory,
    /// The core asks whether duplicate frames may be sent.
    GetCanDupe,
    /// The core registers its memory-descriptor table.
    SetMemoryMaps,
    /// The core asks which hardware renderer the frontend prefers.
    GetPreferredHwRender,
    /// The core asks for a hardware rendering context.
    SetHwRender,
    /// The core asks for a logging interface.
    GetLogInterface,
    /// The core reads one of its configuration variables.
    GetVariable,
    /// The core asks the frontend to shut down.
    Shutdown,
    /// Any command this frontend does not implement.
    Unsupported,
}

/// Which recognized command a libretro command word stands for.
pub open spec fn classify_spec(cmd: u32) -> EnvCommand {
    if cmd == ENV_SET_CONTROLLER_INFO {
        EnvCommand::SetControllerInfo
    } else if cmd == ENV_SET_PIXEL_FORMAT {
        EnvCommand::SetPixelFormat
    } else if cmd == ENV_GET_SYSTEM_DIRECTORY {
        EnvCommand::GetSystemDirectory
    } else if cmd == ENV_GET_SAVE_DIRECTORY {
        EnvCommand::GetSaveDirectory
    } else if cmd == ENV_GET_CAN_DUPE {
        EnvCommand::GetCanDupe
    } else if cmd == ENV_SET_MEMORY_MAPS {
        EnvCommand::SetMemoryMaps
    } else if cmd == ENV_GET_PREFERRED_HW_RENDER {
        EnvCommand::GetPreferredHwRender
    } else if cmd == ENV_SET_HW_RENDER {
        EnvCommand::SetHwRender
    } else if cmd == ENV_GET_LOG_INTERFACE {
        EnvCommand::GetLogInterface
    } else if cmd == ENV_GET_VARIABLE {
        EnvCommand::GetVariable
    } else if cmd == ENV_SHUTDOWN {
        EnvCommand::Shutdown
    } else {
        EnvCommand::Unsupported
    }
}

/// Classify a raw environment command word.
pub fn classify_environment_command(cmd: u32) -> (r: EnvCommand)
    ensures
        r == classify_spec(cmd),
{
    if cmd == ENV_SET_CONTROLLER_INFO {
        EnvCommand::SetControllerInfo
    } else if cmd == ENV_SET_PIXEL_FORMAT {
        EnvCommand::SetPixelFormat
    } else if cmd == ENV_GET_SYSTEM_DIRECTORY {
        EnvCommand::GetSystemDirectory
    } else if cmd == ENV_GET_SAVE_DIRECTORY {
        EnvCommand::GetSaveDirectory
    } else if cmd == ENV_GET_CAN_DUPE {
        EnvCommand::GetCanDupe
    } else if cmd == ENV_SET_MEMORY_MAPS {
        EnvCommand::SetMemoryMaps
    } else if cmd == ENV_GET_PREFERRED_HW_RENDER {
        EnvCommand::GetPreferredHwRender
    } else if cmd == ENV_SET_HW_RENDER {
        EnvCommand::SetHwRender
    } else if cmd == ENV_GET_LOG_INTERFACE {
        EnvCommand::GetLogInterface
    } else if cmd == ENV_GET_VARIABLE {
        EnvCommand::GetVariable
    } else if cmd == ENV_SHUTDOWN {
        EnvCommand::Shutdown
    } else {
        EnvCommand::Unsupported
    }
}

/// The hard-coded configuration-variable store: what the variable command
/// answers for each recognized key, and nothing for every other key.
pub open spec fn variable_value_spec(key: Seq<char>) -> Option<Seq<char>> {
    if key == "ppsspp_internal_resolution"@ {
        Some("480x272"@)
    } else if key == "ppsspp_backend"@ {
        Some("opengl"@)
    } else if key == "ppsspp_psp_model"@ {
        Some("psp_2000_3000"@)
    } else if key == "ppsspp_cache_iso"@ {
        Some("disabled"@)
    } else if key == "ppsspp_change_mac_address01"@ {
        Some("e"@)
    } else if key == "ppsspp_change_mac_address02"@ {
        Some("c"@)
    } else if key == "ppsspp_change_mac_address03"@ {
        Some("c"@)
    } else if key == "ppsspp_change_mac_address04"@ {
        Some("a"@)
    } else if key == "ppsspp_change_mac_address05"@ {
        Some("4"@)
    } else if key == "ppsspp_change_mac_address06"@ {
        Some("7"@)
    } else if key == "ppsspp_change_mac_address07"@ {
        Some("b"@)
    } else if key == "ppsspp_change_mac_address08"@ {
        Some("c"@)
    } else if key == "ppsspp_change_mac_address09"@ {
        Some("5"@)
    } else if key == "ppsspp_change_mac_address10"@ {
        Some("b"@)
    } else if key == "ppsspp_change_mac_address11"@ {
        Some("1"@)
    } else if key == "ppsspp_change_mac_address12"@ {
        Some("d"@)
    } else {
        None
    }
}

/// Answer the variable command for one key: the stored value, or nothing for
/// a key this frontend does not carry.
pub fn variable_value(key: &str) -> (r: Option<&'static str>)
    ensures
        r is Some <==> variable_value_spec(key@) is Some,
        r matches Some(v) ==> variable_value_spec(key@) matches Some(sv) && v@ == sv,
{
    let k = key.to_owned();
    if k == "ppsspp_internal_resolution".to_owned() {
        Some("480x272")
    } else if k == "ppsspp_backend".to_owned() {
        Some("opengl")
    } else if k == "ppsspp_psp_model".to_owned() {
        Some("psp_2000_3000")
    } else if k == "ppsspp_cache_iso".to_owned() {
        Some("disabled")
    } else if k == "ppsspp_change_mac_address01".to_owned() {
        Some("e")
    } else if k == "ppsspp_change_mac_address02".to_owned() {
        Some("c")
    } else if k == "ppsspp_change_mac_address03".to_owned() {
        Some("c")
    } else if k == "ppsspp_change_mac_address04".to_owned() {
        Some("a")
    } else if k == "ppsspp_change_mac_address05".to_owned() {
        Some("4")
    } else if k == "ppsspp_change_mac_address06".to_owned() {
        Some("7")
    } else if k == "ppsspp_change_mac_address07".to_owned() {
        Some("b")
    } else if k == "ppsspp_change_mac_address08".to_owned() {
        Some("c")
    } else if k == "ppsspp_change_mac_address09".to_owned() {
        Some("5")
    } else if k == "ppsspp_change_mac_address10".to_owned() {
        Some("b")
    } else if k == "ppsspp_change_mac_address11".to_owned() {
        Some("1")
    } else if k == "ppsspp_change_mac_address12".to_owned() {
        Some("d")
    } else {
        None
    }
}

} // verus!

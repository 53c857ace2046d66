//! The commands that a plugin sends through the environment callback.

use vstd::prelude::*;

verus! {

/// Marks a command that is not part of the stable plugin interface yet.
pub const ENVIRONMENT_EXPERIMENTAL: u32 = 0x10000;

/// Marks a command that the frontend keeps to itself.
pub const ENVIRONMENT_PRIVATE: u32 = 0x20000;

/// A command of the environment callback, by the name that the plugin
/// interface gives it.
#[allow(non_camel_case_types)]
#[derive(Clone, Copy, Debug, PartialEq, Eq, Structural)]
pub enum EnvironmentCommand {
    SET_ROTATION,
    GET_OVERSCAN,
    GET_CAN_DUPE,
    SET_MESSAGE,
    SHUTDOWN,
    SET_PERFORMANCE_LEVEL,
    GET_SYSTEM_DIRECTORY,
    SET_PIXEL_FORMAT,
    SET_INPUT_DESCRIPTORS,
    SET_KEYBOARD_CALLBACK,
    SET_DISK_CONTROL_INTERFACE,
    SET_HW_RENDER,
    GET_VARIABLE,
    SET_VARIABLES,
    GET_VARIABLE_UPDATE,
    SET_SUPPORT_NO_GAME,
    GET_LIBRETRO_PATH,
    SET_AUDIO_CALLBACK,
    SET_FRAME_TIME_CALLBACK,
    GET_RUMBLE_INTERFACE,
    GET_INPUT_DEVICE_CAPABILITIES,
    GET_SENSOR_INTERFACE,
    GET_CAMERA_INTERFACE,
    GET_LOG_INTERFACE,
    GET_PERF_INTERFACE,
    GET_LOCATION_INTERFACE,
    GET_CORE_ASSETS_DIRECTORY,
    GET_SAVE_DIRECTORY,
    SET_SYSTEM_AV_INFO,
    SET_PROC_ADDRESS_CALLBACK,
    SET_SUBSYSTEM_INFO,
    SET_CONTROLLER_INFO,
    SET_MEMORY_MAPS,
    SET_GEOMETRY,
    GET_USERNAME,
    GET_LANGUAGE,
    GET_CURRENT_SOFTWARE_FRAMEBUFFER,
    GET_HW_RENDER_INTERFACE,
    GET_INPUT_BITMASKS,
    GET_CORE_OPTIONS_VERSION,
    SET_CORE_OPTIONS_DISPLAY,
}

impl EnvironmentCommand {
    /// The number that the plugin interface gives the command.
    pub open spec fn code(self) -> u32 {
        match self {
            EnvironmentCommand::SET_ROTATION => 1,
            EnvironmentCommand::GET_OVERSCAN => 2,
            EnvironmentCommand::GET_CAN_DUPE => 3,
            EnvironmentCommand::SET_MESSAGE => 6,
            EnvironmentCommand::SHUTDOWN => 7,
            EnvironmentCommand::SET_PERFORMANCE_LEVEL => 8,
            EnvironmentCommand::GET_SYSTEM_DIRECTORY => 9,
            EnvironmentCommand::SET_PIXEL_FORMAT => 10,
            EnvironmentCommand::SET_INPUT_DESCRIPTORS => 11,
            EnvironmentCommand::SET_KEYBOARD_CALLBACK => 12,
            EnvironmentCommand::SET_DISK_CONTROL_INTERFACE => 13,
            EnvironmentCommand::SET_HW_RENDER => 14,
            EnvironmentCommand::GET_VARIABLE => 15,
            EnvironmentCommand::SET_VARIABLES => 16,
            EnvironmentCommand::GET_VARIABLE_UPDATE => 17,
            EnvironmentCommand::SET_SUPPORT_NO_GAME => 18,
            EnvironmentCommand::GET_LIBRETRO_PATH => 19,
            EnvironmentCommand::SET_AUDIO_CALLBACK => 22,
            EnvironmentCommand::SET_FRAME_TIME_CALLBACK => 21,
            EnvironmentCommand::GET_RUMBLE_INTERFACE => 23,
            EnvironmentCommand::GET_INPUT_DEVICE_CAPABILITIES => 24,
            EnvironmentCommand::GET_SENSOR_INTERFACE => 0x10019,
            EnvironmentCommand::GET_CAMERA_INTERFACE => 0x1001a,
            EnvironmentCommand::GET_LOG_INTERFACE => 27,
            EnvironmentCommand::GET_PERF_INTERFACE => 28,
            EnvironmentCommand::GET_LOCATION_INTERFACE => 29,
            EnvironmentCommand::GET_CORE_ASSETS_DIRECTORY => 30,
            EnvironmentCommand::GET_SAVE_DIRECTORY => 31,
            EnvironmentCommand::SET_SYSTEM_AV_INFO => 32,
            EnvironmentCommand::SET_PROC_ADDRESS_CALLBACK => 33,
            EnvironmentCommand::SET_SUBSYSTEM_INFO => 34,
            EnvironmentCommand::SET_CONTROLLER_INFO => 35,
            EnvironmentCommand::SET_MEMORY_MAPS => 0x10024,
            EnvironmentCommand::SET_GEOMETRY => 37,
            EnvironmentCommand::GET_USERNAME => 38,
            EnvironmentCommand::GET_LANGUAGE => 39,
            EnvironmentCommand::GET_CURRENT_SOFTWARE_FRAMEBUFFER => 0x10028,
            EnvironmentCommand::GET_HW_RENDER_INTERFACE => 0x10029,
            EnvironmentCommand::GET_INPUT_BITMASKS => 0x10033,
            EnvironmentCommand::GET_CORE_OPTIONS_VERSION => 52,
            EnvironmentCommand::SET_CORE_OPTIONS_DISPLAY => 55,
        }
    }

    /// The number that the plugin interface gives the command.
    pub fn repr(self) -> (r: u32)
        ensures
            r == self.code(),
    {
        match self {
            EnvironmentCommand::SET_ROTATION => 1,
            EnvironmentCommand::GET_OVERSCAN => 2,
            EnvironmentCommand::GET_CAN_DUPE => 3,
            EnvironmentCommand::SET_MESSAGE => 6,
            EnvironmentCommand::SHUTDOWN => 7,
            EnvironmentCommand::SET_PERFORMANCE_LEVEL => 8,
            EnvironmentCommand::GET_SYSTEM_DIRECTORY => 9,
            EnvironmentCommand::SET_PIXEL_FORMAT => 10,
            EnvironmentCommand::SET_INPUT_DESCRIPTORS => 11,
            EnvironmentCommand::SET_KEYBOARD_CALLBACK => 12,
            EnvironmentCommand::SET_DISK_CONTROL_INTERFACE => 13,
            EnvironmentCommand::SET_HW_RENDER => 14,
            EnvironmentCommand::GET_VARIABLE => 15,
            EnvironmentCommand::SET_VARIABLES => 16,
            EnvironmentCommand::GET_VARIABLE_UPDATE => 17,
            EnvironmentCommand::SET_SUPPORT_NO_GAME => 18,
            EnvironmentCommand::GET_LIBRETRO_PATH => 19,
            EnvironmentCommand::SET_AUDIO_CALLBACK => 22,
            EnvironmentCommand::SET_FRAME_TIME_CALLBACK => 21,
            EnvironmentCommand::GET_RUMBLE_INTERFACE => 23,
            EnvironmentCommand::GET_INPUT_DEVICE_CAPABILITIES => 24,
            EnvironmentCommand::GET_SENSOR_INTERFACE => 0x10019,
            EnvironmentCommand::GET_CAMERA_INTERFACE => 0x1001a,
            EnvironmentCommand::GET_LOG_INTERFACE => 27,
            EnvironmentCommand::GET_PERF_INTERFACE => 28,
            EnvironmentCommand::GET_LOCATION_INTERFACE => 29,
            EnvironmentCommand::GET_CORE_ASSETS_DIRECTORY => 30,
            EnvironmentCommand::GET_SAVE_DIRECTORY => 31,
            EnvironmentCommand::SET_SYSTEM_AV_INFO => 32,
            EnvironmentCommand::SET_PROC_ADDRESS_CALLBACK => 33,
            EnvironmentCommand::SET_SUBSYSTEM_INFO => 34,
            EnvironmentCommand::SET_CONTROLLER_INFO => 35,
            EnvironmentCommand::SET_MEMORY_MAPS => 0x10024,
            EnvironmentCommand::SET_GEOMETRY => 37,
            EnvironmentCommand::GET_USERNAME => 38,
            EnvironmentCommand::GET_LANGUAGE => 39,
            EnvironmentCommand::GET_CURRENT_SOFTWARE_FRAMEBUFFER => 0x10028,
            EnvironmentCommand::GET_HW_RENDER_INTERFACE => 0x10029,
            EnvironmentCommand::GET_INPUT_BITMASKS => 0x10033,
            EnvironmentCommand::GET_CORE_OPTIONS_VERSION => 52,
            EnvironmentCommand::SET_CORE_OPTIONS_DISPLAY => 55,
        }
    }

    /// The command that the plugin interface numbers `value`, if there is
    /// one.
    pub fn from_repr(value: u32) -> (r: Option<EnvironmentCommand>)
        ensures
            match r {
                Some(command) => command.code() == value,
                None => forall|command: EnvironmentCommand| #[trigger] command.code() != value,
            },
    {
        if value == 1 {
            Some(EnvironmentCommand::SET_ROTATION)
        } else if value == 2 {
            Some(EnvironmentCommand::GET_OVERSCAN)
        } else if value == 3 {
            Some(EnvironmentCommand::GET_CAN_DUPE)
        } else if value == 6 {
            Some(EnvironmentCommand::SET_MESSAGE)
        } else if value == 7 {
            Some(EnvironmentCommand::SHUTDOWN)
        } else if value == 8 {
            Some(EnvironmentCommand::SET_PERFORMANCE_LEVEL)
        } else if value == 9 {
            Some(EnvironmentCommand::GET_SYSTEM_DIRECTORY)
        } else if value == 10 {
            Some(EnvironmentCommand::SET_PIXEL_FORMAT)
        } else if value == 11 {
            Some(EnvironmentCommand::SET_INPUT_DESCRIPTORS)
        } else if value == 12 {
            Some(EnvironmentCommand::SET_KEYBOARD_CALLBACK)
        } else if value == 13 {
            Some(EnvironmentCommand::SET_DISK_CONTROL_INTERFACE)
        } else if value == 14 {
            Some(EnvironmentCommand::SET_HW_RENDER)
        } else if value == 15 {
            Some(EnvironmentCommand::GET_VARIABLE)
        } else if value == 16 {
            Some(EnvironmentCommand::SET_VARIABLES)
        } else if value == 17 {
            Some(EnvironmentCommand::GET_VARIABLE_UPDATE)
        } else if value == 18 {
            Some(EnvironmentCommand::SET_SUPPORT_NO_GAME)
        } else if value == 19 {
            Some(EnvironmentCommand::GET_LIBRETRO_PATH)
        } else if value == 22 {
            Some(EnvironmentCommand::SET_AUDIO_CALLBACK)
        } else if value == 21 {
            Some(EnvironmentCommand::SET_FRAME_TIME_CALLBACK)
        } else if value == 23 {
            Some(EnvironmentCommand::GET_RUMBLE_INTERFACE)
        } else if value == 24 {
            Some(EnvironmentCommand::GET_INPUT_DEVICE_CAPABILITIES)
        } else if value == 0x10019 {
            Some(EnvironmentCommand::GET_SENSOR_INTERFACE)
        } else if value == 0x1001a {
            Some(EnvironmentCommand::GET_CAMERA_INTERFACE)
        } else if value == 27 {
            Some(EnvironmentCommand::GET_LOG_INTERFACE)
        } else if value == 28 {
            Some(EnvironmentCommand::GET_PERF_INTERFACE)
        } else if value == 29 {
            Some(EnvironmentCommand::GET_LOCATION_INTERFACE)
        } else if value == 30 {
            Some(EnvironmentCommand::GET_CORE_ASSETS_DIRECTORY)
        } else if value == 31 {
            Some(EnvironmentCommand::GET_SAVE_DIRECTORY)
        } else if value == 32 {
            Some(EnvironmentCommand::SET_SYSTEM_AV_INFO)
        } else if value == 33 {
            Some(EnvironmentCommand::SET_PROC_ADDRESS_CALLBACK)
        } else if value == 34 {
            Some(EnvironmentCommand::SET_SUBSYSTEM_INFO)
        } else if value == 35 {
            Some(EnvironmentCommand::SET_CONTROLLER_INFO)
        } else if value == 0x10024 {
            Some(EnvironmentCommand::SET_MEMORY_MAPS)
        } else if value == 37 {
            Some(EnvironmentCommand::SET_GEOMETRY)
        } else if value == 38 {
            Some(EnvironmentCommand::GET_USERNAME)
        } else if value == 39 {
            Some(EnvironmentCommand::GET_LANGUAGE)
        } else if value == 0x10028 {
            Some(EnvironmentCommand::GET_CURRENT_SOFTWARE_FRAMEBUFFER)
        } else if value == 0x10029 {
            Some(EnvironmentCommand::GET_HW_RENDER_INTERFACE)
        } else if value == 0x10033 {
            Some(EnvironmentCommand::GET_INPUT_BITMASKS)
        } else if value == 52 {
            Some(EnvironmentCommand::GET_CORE_OPTIONS_VERSION)
        } else if value == 55 {
            Some(EnvironmentCommand::SET_CORE_OPTIONS_DISPLAY)
        } else {
            None
        }
    }
}

/// No two commands share a number, so a number names at most one command.
pub proof fn lemma_code_names_one_command(a: EnvironmentCommand, b: EnvironmentCommand)
    requires
        a.code() == b.code(),
    ensures
        a == b,
{
}

} // verus!

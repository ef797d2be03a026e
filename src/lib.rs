//! Settings for the Skiller Pro+ keyboard, encoded as the fixed 8-byte
//! frames that its firmware accepts over USB control transfers.
//!
//! `codes` holds the settings and their single-byte codes, `frames` the
//! frame layouts, `command` the frames that each operation sends, `device`
//! the device match and the transfer setup, and `laws` the properties of
//! the encoding that hold for every input.

mod codes;
mod command;
mod device;
mod frames;
mod laws;

pub use codes::{Brightness, Color, PollingRate, Profile, ToSkillerBytes};
pub use command::{command_frames, Command};
pub use device::{
    control_setup, find_skiller, is_skiller, is_skiller_id, ControlSetup, INTERFACE, PRODUCT_ID,
    REQUEST, VALUE, VENDOR_ID,
};
pub use frames::{
    brightness_color, brightness_frame, brightness_level, color_frame, lighting_bytes,
    polling_rate_bytes, polling_rate_frame, profile_switch_bytes, switch_profile, win_key_bytes,
    win_key_frame, Frame, CMD_LIGHTING, CMD_POLLING_RATE, CMD_PROFILE, CMD_WIN_KEY, COLOR_LEVEL,
    CYCLE_LEVEL, HEADER, PULSATING_LEVEL,
};
pub use laws::{
    color_codes_distinct, cycle_frame_bytes, frames_have_header, polling_rate_codes,
    profile_codes_distinct, win_key_flag_inverted,
};

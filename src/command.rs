//! The operations of a keyboard session and the frames that each one sends.

use vstd::prelude::*;

use crate::codes::{Brightness, Color, PollingRate, Profile, ToSkillerBytes};
use crate::frames::{
    brightness_color, brightness_frame, brightness_level, color_frame, lighting_bytes,
    polling_rate_bytes, polling_rate_frame, profile_switch_bytes, switch_profile, win_key_bytes,
    win_key_frame, Frame, COLOR_LEVEL,
};

verus! {

/// A change of the keyboard's settings.
#[derive(Debug, PartialEq, Eq, Structural, Clone, Copy)]
pub enum Command {
    /// Switch to `profile`, then give it `color`.
    SetColor { color: Color, profile: Profile },
    /// Switch to `profile`.
    SetProfile { profile: Profile },
    /// Switch to `profile`, then give it the brightness mode.
    SetBrightness { brightness: Brightness, profile: Profile },
    /// Set the polling rate, which holds for all profiles.
    SetPollingRate { rate: PollingRate },
    /// Enable or disable the Windows key of `profile`.
    SetWinKey { enable: bool, profile: Profile },
}

/// The frames that a command sends, in the order in which they are written.
pub open spec fn command_frames(c: Command) -> Seq<Seq<u8>> {
    match c {
        Command::SetColor { color, profile } => seq![
            profile_switch_bytes(profile.skiller_byte()),
            lighting_bytes(profile.skiller_byte(), COLOR_LEVEL, color.skiller_byte()),
        ],
        Command::SetProfile { profile } => seq![profile_switch_bytes(profile.skiller_byte())],
        Command::SetBrightness { brightness, profile } => seq![
            profile_switch_bytes(profile.skiller_byte()),
            lighting_bytes(
                profile.skiller_byte(),
                brightness_level(brightness),
                brightness_color(brightness),
            ),
        ],
        Command::SetPollingRate { rate } => seq![polling_rate_bytes(rate.skiller_byte())],
        Command::SetWinKey { enable, profile } => seq![
            win_key_bytes(profile.skiller_byte(), enable.skiller_byte()),
        ],
    }
}

impl Command {
    /// Returns the frames of this command, in the order in which they are
    /// written. A two-frame command is not atomic: when the first frame has
    /// been written and the second fails, the profile switch stays applied.
    pub fn frames(&self) -> (r: Vec<Frame>)
        ensures
            r@.len() == command_frames(*self).len(),
            forall|i: int| 0 <= i < r@.len() ==> (#[trigger] r@[i])@ == command_frames(*self)[i],
    {
        let mut r: Vec<Frame> = Vec::new();
        match *self {
            Command::SetColor { color, profile } => {
                r.push(switch_profile(profile.to_skiller_bytes()));
                r.push(color_frame(color, profile));
            },
            Command::SetProfile { profile } => {
                r.push(switch_profile(profile.to_skiller_bytes()));
            },
            Command::SetBrightness { brightness, profile } => {
                r.push(switch_profile(profile.to_skiller_bytes()));
                r.push(brightness_frame(brightness, profile));
            },
            Command::SetPollingRate { rate } => {
                r.push(polling_rate_frame(rate));
            },
            Command::SetWinKey { enable, profile } => {
                r.push(win_key_frame(enable, profile));
            },
        }
        r
    }
}

} // verus!

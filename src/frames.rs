//! The 8-byte frames of the protocol. Every frame starts with the header byte
//! 0x07, followed by a byte that tells which command it carries.

use vstd::prelude::*;

use crate::codes::{Brightness, Color, PollingRate, Profile, ToSkillerBytes};

verus! {

/// One frame of the protocol.
pub type Frame = [u8; 8];

/// First byte of every frame.
pub const HEADER: u8 = 0x07;

/// Command type of a polling-rate frame.
pub const CMD_POLLING_RATE: u8 = 0x01;

/// Command type of a profile-switch frame.
pub const CMD_PROFILE: u8 = 0x02;

/// Command type of a color or brightness frame.
pub const CMD_LIGHTING: u8 = 0x0a;

/// Command type of a Windows key frame.
pub const CMD_WIN_KEY: u8 = 0x0b;

/// Level byte of a plain color assignment.
pub const COLOR_LEVEL: u8 = 0x0a;

/// Level byte that selects the pulsating mode.
pub const PULSATING_LEVEL: u8 = 11;

/// Level byte that selects the color cycle.
pub const CYCLE_LEVEL: u8 = 12;

/// The frame that makes `profile` (a profile code) the active profile.
pub open spec fn profile_switch_bytes(profile: u8) -> Seq<u8> {
    seq![HEADER, CMD_PROFILE, profile, 0u8, 0u8, 0u8, 0u8, 0u8]
}

/// The frame that sets the lighting of `profile` to a level byte and a color byte.
pub open spec fn lighting_bytes(profile: u8, level: u8, color: u8) -> Seq<u8> {
    seq![HEADER, CMD_LIGHTING, profile, level, 0x04u8, 0u8, color, 0u8]
}

/// The frame that sets the polling rate to a rate code.
pub open spec fn polling_rate_bytes(rate: u8) -> Seq<u8> {
    seq![HEADER, CMD_POLLING_RATE, rate, 0u8, 0u8, 0u8, 0u8, 0u8]
}

/// The frame that sets the Windows key flag of `profile`.
pub open spec fn win_key_bytes(profile: u8, flag: u8) -> Seq<u8> {
    seq![HEADER, CMD_WIN_KEY, profile, flag, 0u8, 0u8, 0u8, 0u8]
}

/// Level byte that a brightness setting puts into its frame.
pub open spec fn brightness_level(b: Brightness) -> u8 {
    match b {
        Brightness::Static { level, .. } => level,
        Brightness::Pulsating { .. } => PULSATING_LEVEL,
        Brightness::Cycle => CYCLE_LEVEL,
    }
}

/// Color byte that a brightness setting puts into its frame; the cycle has none.
pub open spec fn brightness_color(b: Brightness) -> u8 {
    match b {
        Brightness::Static { color, .. } => color.skiller_byte(),
        Brightness::Pulsating { color } => color.skiller_byte(),
        Brightness::Cycle => 0,
    }
}

/// Builds the frame that switches to the profile with the given code.
pub fn switch_profile(profile: u8) -> (r: Frame)
    ensures
        r@ == profile_switch_bytes(profile),
{
    let r = [HEADER, CMD_PROFILE, profile, 0x00, 0x00, 0x00, 0x00, 0x00];
    assert(r@ =~= profile_switch_bytes(profile));
    r
}

/// Builds the frame that assigns `color` to `profile`.
pub fn color_frame(color: Color, profile: Profile) -> (r: Frame)
    ensures
        r@ == lighting_bytes(profile.skiller_byte(), COLOR_LEVEL, color.skiller_byte()),
{
    let p = profile.to_skiller_bytes();
    let r = [HEADER, CMD_LIGHTING, p, COLOR_LEVEL, 0x04, 0x00, color.to_skiller_bytes(), 0x00];
    assert(r@ =~= lighting_bytes(p, COLOR_LEVEL, color.skiller_byte()));
    r
}

/// Builds the frame that sets the brightness mode of `profile`.
///
/// The firmware expects a color byte in every lighting frame, so a cycle
/// sends 0 in its place.
pub fn brightness_frame(brightness: Brightness, profile: Profile) -> (r: Frame)
    ensures
        r@ == lighting_bytes(
            profile.skiller_byte(),
            brightness_level(brightness),
            brightness_color(brightness),
        ),
{
    let p = profile.to_skiller_bytes();
    let r = match brightness {
        Brightness::Static { level, color } => [
            HEADER,
            CMD_LIGHTING,
            p,
            level,
            0x04,
            0x00,
            color.to_skiller_bytes(),
            0x00,
        ],
        Brightness::Pulsating { color } => [
            HEADER,
            CMD_LIGHTING,
            p,
            PULSATING_LEVEL,
            0x04,
            0x00,
            color.to_skiller_bytes(),
            0x00,
        ],
        Brightness::Cycle => [HEADER, CMD_LIGHTING, p, CYCLE_LEVEL, 0x04, 0x00, 0x00, 0x00],
    };
    assert(r@ =~= lighting_bytes(p, brightness_level(brightness), brightness_color(brightness)));
    r
}

/// Builds the frame that sets the keyboard's polling rate.
pub fn polling_rate_frame(rate: PollingRate) -> (r: Frame)
    ensures
        r@ == polling_rate_bytes(rate.skiller_byte()),
{
    let r = [HEADER, CMD_POLLING_RATE, rate.to_skiller_bytes(), 0x00, 0x00, 0x00, 0x00, 0x00];
    assert(r@ =~= polling_rate_bytes(rate.skiller_byte()));
    r
}

/// Builds the frame that enables or disables the Windows key of `profile`.
pub fn win_key_frame(enable: bool, profile: Profile) -> (r: Frame)
    ensures
        r@ == win_key_bytes(profile.skiller_byte(), enable.skiller_byte()),
{
    let p = profile.to_skiller_bytes();
    let e = enable.to_skiller_bytes();
    let r = [HEADER, CMD_WIN_KEY, p, e, 0x00, 0x00, 0x00, 0x00];
    assert(r@ =~= win_key_bytes(p, e));
    r
}

} // verus!

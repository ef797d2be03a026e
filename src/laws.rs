//! Properties of the encoding that hold for every input.

use vstd::prelude::*;

use crate::codes::{Brightness, Color, PollingRate, Profile, ToSkillerBytes};
use crate::command::{command_frames, Command};
use crate::frames::{CYCLE_LEVEL, HEADER};

verus! {

/// Every color has its own code, and the codes lie in 0..=6.
pub proof fn color_codes_distinct(a: Color, b: Color)
    ensures
        a.skiller_byte() <= 6,
        a.skiller_byte() == b.skiller_byte() <==> a == b,
{
}

/// Every profile has its own code, and the codes lie in 1..=3.
pub proof fn profile_codes_distinct(a: Profile, b: Profile)
    ensures
        1 <= a.skiller_byte() <= 3,
        a.skiller_byte() == b.skiller_byte() <==> a == b,
{
}

/// The polling rates have distinct codes, and these are exactly 8, 4, 2 and 1.
pub proof fn polling_rate_codes(a: PollingRate, b: PollingRate)
    ensures
        a.skiller_byte() == b.skiller_byte() <==> a == b,
        Set::new(|c: u8| exists|r: PollingRate| r.skiller_byte() == c) == set![8u8, 4u8, 2u8, 1u8],
{
    let codes = Set::new(|c: u8| exists|r: PollingRate| r.skiller_byte() == c);
    assert(codes.contains(8u8)) by {
        assert(PollingRate::HZ125.skiller_byte() == 8u8);
    }
    assert(codes.contains(4u8)) by {
        assert(PollingRate::HZ250.skiller_byte() == 4u8);
    }
    assert(codes.contains(2u8)) by {
        assert(PollingRate::HZ500.skiller_byte() == 2u8);
    }
    assert(codes.contains(1u8)) by {
        assert(PollingRate::HZ1000.skiller_byte() == 1u8);
    }
    assert(codes =~= set![8u8, 4u8, 2u8, 1u8]);
}

/// The cycle mode sends level byte 12 and color byte 0, whatever the profile.
pub proof fn cycle_frame_bytes(profile: Profile)
    ensures
        command_frames(Command::SetBrightness { brightness: Brightness::Cycle, profile })[1][3]
            == CYCLE_LEVEL,
        command_frames(Command::SetBrightness { brightness: Brightness::Cycle, profile })[1][6]
            == 0,
{
}

/// Enabling the Windows key sends flag byte 0, disabling it sends 1.
pub proof fn win_key_flag_inverted(enable: bool, profile: Profile)
    ensures
        command_frames(Command::SetWinKey { enable, profile })[0][3] == if enable {
            0u8
        } else {
            1u8
        },
{
}

/// Every frame that any command sends is 8 bytes long and starts with 0x07.
pub proof fn frames_have_header(c: Command)
    ensures
        forall|i: int|
            0 <= i < command_frames(c).len() ==> {
                &&& (#[trigger] command_frames(c)[i]).len() == 8
                &&& command_frames(c)[i][0] == HEADER
            },
{
}

} // verus!

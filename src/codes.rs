//! The single-byte codes that the firmware uses for each setting.

use vstd::prelude::*;

verus! {

/// A value that the keyboard's protocol encodes as a single byte.
pub trait ToSkillerBytes {
    /// The byte that stands for this value in a frame.
    spec fn skiller_byte(&self) -> u8;

    /// Returns the byte that stands for this value in a frame.
    fn to_skiller_bytes(&self) -> (r: u8)
        ensures
            r == self.skiller_byte(),
    ;
}

/// Represents the different LED colors of the keyboard
#[derive(Debug, PartialEq, Eq, Structural, PartialOrd, Ord, Clone, Copy)]
pub enum Color {
    Red,
    Green,
    Blue,
    Purple,
    Cyan,
    Yellow,
    White,
}

impl ToSkillerBytes for Color {
    open spec fn skiller_byte(&self) -> u8 {
        match self {
            Color::Red => 0,
            Color::Green => 1,
            Color::Blue => 2,
            Color::Purple => 3,
            Color::Cyan => 4,
            Color::Yellow => 5,
            Color::White => 6,
        }
    }

    fn to_skiller_bytes(&self) -> (r: u8) {
        match self {
            Color::Red => 0,
            Color::Green => 1,
            Color::Blue => 2,
            Color::Purple => 3,
            Color::Cyan => 4,
            Color::Yellow => 5,
            Color::White => 6,
        }
    }
}

/// Represents one of the three profiles of the keyboard
#[derive(Debug, PartialEq, Eq, Structural, PartialOrd, Ord, Clone, Copy)]
pub enum Profile {
    P1,
    P2,
    P3,
}

impl ToSkillerBytes for Profile {
    open spec fn skiller_byte(&self) -> u8 {
        match self {
            Profile::P1 => 1,
            Profile::P2 => 2,
            Profile::P3 => 3,
        }
    }

    fn to_skiller_bytes(&self) -> (r: u8) {
        match self {
            Profile::P1 => 1,
            Profile::P2 => 2,
            Profile::P3 => 3,
        }
    }
}

/// Represents one of the possible brightness settings of the keyboard
#[derive(Debug, PartialEq, Eq, Structural, PartialOrd, Ord, Clone, Copy)]
pub enum Brightness {
    /// A static color at the given brightness
    Static { level: u8, color: Color },
    /// A color pulsating
    Pulsating { color: Color },
    /// All colors pulsating in a cycle
    Cycle,
}

/// Represents one of four valid polling rates of the keyboard.
///
/// The firmware's codes fall as the rate rises: they are the protocol's own
/// and not an ordering of frequencies.
#[derive(Debug, PartialEq, Eq, Structural, PartialOrd, Ord, Clone, Copy)]
pub enum PollingRate {
    HZ125,
    HZ250,
    HZ500,
    HZ1000,
}

impl ToSkillerBytes for PollingRate {
    open spec fn skiller_byte(&self) -> u8 {
        match self {
            PollingRate::HZ125 => 8,
            PollingRate::HZ250 => 4,
            PollingRate::HZ500 => 2,
            PollingRate::HZ1000 => 1,
        }
    }

    fn to_skiller_bytes(&self) -> (r: u8) {
        match self {
            PollingRate::HZ125 => 8,
            PollingRate::HZ250 => 4,
            PollingRate::HZ500 => 2,
            PollingRate::HZ1000 => 1,
        }
    }
}

/// The Windows key flag is inverted on the wire: enabled is 0, disabled is 1.
impl ToSkillerBytes for bool {
    open spec fn skiller_byte(&self) -> u8 {
        if *self { 0 } else { 1 }
    }

    fn to_skiller_bytes(&self) -> (r: u8) {
        match self {
            true => 0,
            false => 1,
        }
    }
}

} // verus!

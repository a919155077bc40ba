//! The bounded channel model and the per-channel output mode.
//!
//! A channel has no identity beyond its zero-based offset. Each
//! LED-output register packs four channels at two bits each; the
//! two-bit codes are given by [`LedOut::spec_code`].

use vstd::prelude::*;

verus! {

/// Per-channel output mode, a two-bit code in an LED-output register.
#[derive(Copy, Clone, Debug)]
pub enum LedOut {
    /// LED is fully off
    FullyOff,
    /// LED is fully on
    FullyOn,
    /// LED brightness is controlled through its PWMx
    Pwm,
    /// LED brightness is controlled through its PWMx and group duty/blinking.
    PwmGroup,
}

impl LedOut {
    /// The two-bit register code of this mode.
    pub open spec fn spec_code(self) -> u8 {
        match self {
            LedOut::FullyOff => 0u8,
            LedOut::FullyOn => 1u8,
            LedOut::Pwm => 2u8,
            LedOut::PwmGroup => 3u8,
        }
    }

    /// Compute the two-bit register code of this mode.
    pub fn code(self) -> (r: u8)
        ensures
            r == self.spec_code(),
            r < 4,
    {
        match self {
            LedOut::FullyOff => 0u8,
            LedOut::FullyOn => 1u8,
            LedOut::Pwm => 2u8,
            LedOut::PwmGroup => 3u8,
        }
    }
}

/// A device variant's channel identifiers, each mapping to its
/// zero-based numeric offset.
pub trait Channels: Sized {
    /// The channel's zero-based offset.
    spec fn spec_offs(self) -> u8;

    /// Compute the channel's zero-based offset.
    fn get_offs(self) -> (r: u8)
        ensures
            r == self.spec_offs(),
    ;
}

/// 4 channels
#[derive(Copy, Clone, Debug)]
pub enum Channels4 {
    /// Channel 1
    _1,
    /// Channel 2
    _2,
    /// Channel 3
    _3,
    /// Channel 4
    _4,
}

impl Channels for Channels4 {
    open spec fn spec_offs(self) -> u8 {
        match self {
            Channels4::_1 => 0u8,
            Channels4::_2 => 1u8,
            Channels4::_3 => 2u8,
            Channels4::_4 => 3u8,
        }
    }

    fn get_offs(self) -> u8 {
        match self {
            Channels4::_1 => 0u8,
            Channels4::_2 => 1u8,
            Channels4::_3 => 2u8,
            Channels4::_4 => 3u8,
        }
    }
}

/// 8 channels
#[derive(Copy, Clone, Debug)]
pub enum Channels8 {
    /// Channel 1
    _1,
    /// Channel 2
    _2,
    /// Channel 3
    _3,
    /// Channel 4
    _4,
    /// Channel 5
    _5,
    /// Channel 6
    _6,
    /// Channel 7
    _7,
    /// Channel 8
    _8,
}

impl Channels for Channels8 {
    open spec fn spec_offs(self) -> u8 {
        match self {
            Channels8::_1 => 0u8,
            Channels8::_2 => 1u8,
            Channels8::_3 => 2u8,
            Channels8::_4 => 3u8,
            Channels8::_5 => 4u8,
            Channels8::_6 => 5u8,
            Channels8::_7 => 6u8,
            Channels8::_8 => 7u8,
        }
    }

    fn get_offs(self) -> u8 {
        match self {
            Channels8::_1 => 0u8,
            Channels8::_2 => 1u8,
            Channels8::_3 => 2u8,
            Channels8::_4 => 3u8,
            Channels8::_5 => 4u8,
            Channels8::_6 => 5u8,
            Channels8::_7 => 6u8,
            Channels8::_8 => 7u8,
        }
    }
}

} // verus!

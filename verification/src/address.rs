//! Bus-address resolution for the supported chip packages.
//!
//! Each package variant exposes a different set of address strap pins;
//! resolution is a pure composition of the strap states, each strap
//! contributing its own bit of the address, per the device datasheet.

use vstd::prelude::*;

verus! {

/// The value a strap pin contributes to the address: its `weight` when
/// tied high, nothing when tied low.
pub open spec fn strap(pin: bool, weight: u8) -> u8 {
    if pin {
        weight
    } else {
        0
    }
}

/// How the device's 7-bit bus address is determined.
#[derive(Copy, Clone, Debug)]
pub enum Address {
    /// 8 pin package, fixed address of 0x62
    _8Pin,
    /// 10 pin package with A0 and A1 pins
    _10Pin { a0: bool, a1: bool },
    /// 16 pin package with A0-A6 pins
    _16Pin {
        a0: bool,
        a1: bool,
        a2: bool,
        a3: bool,
        a4: bool,
        a5: bool,
        a6: bool,
    },
    /// Custom address determined programmatically
    Custom(u8),
}

impl Address {
    /// The byte the descriptor resolves to: a pure function of the
    /// strap pins (or of the custom byte, returned verbatim). The
    /// strap weights are distinct powers of two, so summing them packs
    /// each pin at its own bit position.
    pub open spec fn spec_address(self) -> u8 {
        match self {
            Address::_8Pin => 0x62u8,
            Address::_10Pin { a0, a1 } => (0x60 + strap(a0, 0x01) + strap(a1, 0x02)) as u8,
            Address::_16Pin { a0, a1, a2, a3, a4, a5, a6 } => (strap(a0, 0x01) + strap(a1, 0x02)
                + strap(a2, 0x04) + strap(a3, 0x08) + strap(a4, 0x10) + strap(a5, 0x20) + strap(
                a6,
                0x40,
            )) as u8,
            Address::Custom(addr) => addr,
        }
    }

    /// Resolve the descriptor to the device's bus address.
    ///
    /// Total and deterministic; straps are physical pin states, so no
    /// combination is rejected. Every strap-derived address fits the
    /// 7-bit addressing space.
    pub fn address(self) -> (r: u8)
        ensures
            r == self.spec_address(),
            !(self is Custom) ==> r < 0x80,
    {
        match self {
            Address::_8Pin => 0x62u8,
            Address::_10Pin { a0, a1 } => {
                let b0: u8 = if a0 { 0x01u8 } else { 0u8 };
                let b1: u8 = if a1 { 0x02u8 } else { 0u8 };
                proof {
                    assert(0x60u8 | b0 | b1 == 0x60 + b0 + b1 && 0x60 + b0 + b1 < 0x80)
                        by (bit_vector)
                        requires
                            b0 == 0x01u8 || b0 == 0u8,
                            b1 == 0x02u8 || b1 == 0u8,
                    ;
                }
                0x60u8 | b0 | b1
            },
            Address::_16Pin { a0, a1, a2, a3, a4, a5, a6 } => {
                let b0: u8 = if a0 { 0x01u8 } else { 0u8 };
                let b1: u8 = if a1 { 0x02u8 } else { 0u8 };
                let b2: u8 = if a2 { 0x04u8 } else { 0u8 };
                let b3: u8 = if a3 { 0x08u8 } else { 0u8 };
                let b4: u8 = if a4 { 0x10u8 } else { 0u8 };
                let b5: u8 = if a5 { 0x20u8 } else { 0u8 };
                let b6: u8 = if a6 { 0x40u8 } else { 0u8 };
                proof {
                    assert(b0 | b1 | b2 | b3 | b4 | b5 | b6 == b0 + b1 + b2 + b3 + b4 + b5 + b6
                        && b0 + b1 + b2 + b3 + b4 + b5 + b6 < 0x80) by (bit_vector)
                        requires
                            b0 == 0x01u8 || b0 == 0u8,
                            b1 == 0x02u8 || b1 == 0u8,
                            b2 == 0x04u8 || b2 == 0u8,
                            b3 == 0x08u8 || b3 == 0u8,
                            b4 == 0x10u8 || b4 == 0u8,
                            b5 == 0x20u8 || b5 == 0u8,
                            b6 == 0x40u8 || b6 == 0u8,
                    ;
                }
                b0 | b1 | b2 | b3 | b4 | b5 | b6
            },
            Address::Custom(addr) => addr,
        }
    }
}

} // verus!

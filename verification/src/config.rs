//! The two chip-wide mode registers, modelled as typed bitmasks.
//!
//! MODE1 holds the sleep and address-enable flags, MODE2 the output
//! behaviour flags. A [`Config`] owns one byte for each and is updated
//! through pure setters, each of which touches exactly one flag — except
//! [`Config::outne`], which updates the paired OUTNE bits atomically so
//! that no intermediate invalid combination ever exists.

use vstd::prelude::*;

verus! {

/// MODE1: low-power (oscillator off) mode.
pub const M1_SLEEP: u8 = 0b0001_0000;

/// MODE1: respond to sub-address 1.
pub const M1_SUB1: u8 = 0b0000_1000;

/// MODE1: respond to sub-address 2.
pub const M1_SUB2: u8 = 0b0000_0100;

/// MODE1: respond to sub-address 3.
pub const M1_SUB3: u8 = 0b0000_0010;

/// MODE1: respond to the all-call address.
pub const M1_ALLCALL: u8 = 0b0000_0001;

/// MODE2: group control blinks instead of dimming.
pub const M2_DMBLINK: u8 = 0b0010_0000;

/// MODE2: output logic state inverted.
pub const M2_INVERT: u8 = 0b0001_0000;

/// MODE2: outputs change on ACK instead of on STOP.
pub const M2_OCH: u8 = 0b0000_1000;

/// MODE2: totem-pole instead of open-drain output structure.
pub const M2_OUTDRV: u8 = 0b0000_0100;

/// MODE2: high bit of the paired output-idle mode.
pub const M2_OUTNE1: u8 = 0b0000_0010;

/// MODE2: low bit of the paired output-idle mode.
pub const M2_OUTNE0: u8 = 0b0000_0001;

/// Set or clear the bits of `mask` in `bits`: the effect of every
/// single-flag setter.
pub open spec fn apply_mask(bits: u8, mask: u8, enable: bool) -> u8 {
    if enable {
        bits | mask
    } else {
        bits & !mask
    }
}

/// Output change mode: when the chip latches newly written output state.
#[derive(Copy, Clone, Debug)]
pub enum Och {
    /// Outputs change on STOP command.
    ChangeOnStop,
    /// Outputs change on ACK.
    ChangeOnAck,
}

/// Output driver structure.
#[derive(Copy, Clone, Debug)]
pub enum OutDrv {
    /// The LED outputs are configured with an open-drain structure.
    OpenDrain,
    /// The LED outputs are configured with a totem pole structure.
    TotemPole,
}

/// Output-idle behaviour while output enable is deasserted, encoded in
/// the paired OUTNE bits. The fourth bit combination (both set) is
/// reserved and never produced.
#[derive(Copy, Clone, Debug)]
pub enum OutputDrive {
    /// When OE = 1 (output drivers not enabled), LEDn = 0
    OutNe00,
    /// When OE = 1 (output drivers not enabled):
    /// * LEDn = 1 when OUTDRV = 1
    /// * LEDn = high-impedance when OUTDRV = 0 (same as OUTNE[1:0] = 10)
    OutNe01,
    /// When OE = 1 (output drivers not enabled), LEDn = high-impedance
    OutNe10,
}

/// The MODE2 byte after the paired OUTNE bits are replaced by `mode`'s
/// encoding: both bits are cleared, then at most one is set.
pub open spec fn outne_bits(bits: u8, mode: OutputDrive) -> u8 {
    match mode {
        OutputDrive::OutNe00 => bits & !(M2_OUTNE1 | M2_OUTNE0),
        OutputDrive::OutNe01 => (bits & !(M2_OUTNE1 | M2_OUTNE0)) | M2_OUTNE0,
        OutputDrive::OutNe10 => (bits & !(M2_OUTNE1 | M2_OUTNE0)) | M2_OUTNE1,
    }
}

/// Driver configuration registers
#[derive(Copy, Clone, Debug)]
pub struct Config {
    mode1: u8,
    mode2: u8,
}

impl Config {
    /// The MODE1 byte this configuration serializes to.
    pub closed spec fn spec_mode1(self) -> u8 {
        self.mode1
    }

    /// The MODE2 byte this configuration serializes to.
    pub closed spec fn spec_mode2(self) -> u8 {
        self.mode2
    }

    /// The MODE1 byte, for callers outside verified code.
    pub fn mode1_bits(self) -> (r: u8)
        ensures
            r == self.spec_mode1(),
    {
        self.mode1
    }

    /// The MODE2 byte, for callers outside verified code.
    pub fn mode2_bits(self) -> (r: u8)
        ensures
            r == self.spec_mode2(),
    {
        self.mode2
    }

    /// Default configs but with sleep-mode disabled
    pub fn new() -> (r: Self)
        ensures
            r.spec_mode1() == M1_ALLCALL,
            r.spec_mode2() == 0b0000_0101u8,
    {
        proof {
            assert(M2_OUTDRV | M2_OUTNE0 == 0b0000_0101u8) by (bit_vector);
        }
        Config { mode1: M1_ALLCALL, mode2: M2_OUTDRV | M2_OUTNE0 }
    }

    /// Enable subaddress 1
    pub fn sub1(self, enable: bool) -> (r: Config)
        ensures
            r.spec_mode1() == apply_mask(self.spec_mode1(), M1_SUB1, enable),
            r.spec_mode2() == self.spec_mode2(),
    {
        Config { mode1: set_flag(self.mode1, M1_SUB1, enable), ..self }
    }

    /// Enable subaddress 2
    pub fn sub2(self, enable: bool) -> (r: Config)
        ensures
            r.spec_mode1() == apply_mask(self.spec_mode1(), M1_SUB2, enable),
            r.spec_mode2() == self.spec_mode2(),
    {
        Config { mode1: set_flag(self.mode1, M1_SUB2, enable), ..self }
    }

    /// Enable subaddress 3
    pub fn sub3(self, enable: bool) -> (r: Config)
        ensures
            r.spec_mode1() == apply_mask(self.spec_mode1(), M1_SUB3, enable),
            r.spec_mode2() == self.spec_mode2(),
    {
        Config { mode1: set_flag(self.mode1, M1_SUB3, enable), ..self }
    }

    /// Enable all call address
    pub fn all_call(self, enable: bool) -> (r: Config)
        ensures
            r.spec_mode1() == apply_mask(self.spec_mode1(), M1_ALLCALL, enable),
            r.spec_mode2() == self.spec_mode2(),
    {
        Config { mode1: set_flag(self.mode1, M1_ALLCALL, enable), ..self }
    }

    /// Put into sleep mode (default on)
    pub fn sleep(self, enable: bool) -> (r: Config)
        ensures
            r.spec_mode1() == apply_mask(self.spec_mode1(), M1_SLEEP, enable),
            r.spec_mode2() == self.spec_mode2(),
    {
        Config { mode1: set_flag(self.mode1, M1_SLEEP, enable), ..self }
    }

    /// Determines the function of group control registers (see datasheet).
    pub fn blink(self, enable: bool) -> (r: Config)
        ensures
            r.spec_mode2() == apply_mask(self.spec_mode2(), M2_DMBLINK, enable),
            r.spec_mode1() == self.spec_mode1(),
    {
        Config { mode2: set_flag(self.mode2, M2_DMBLINK, enable), ..self }
    }

    /// Output logic inverted
    pub fn invert(self, enable: bool) -> (r: Config)
        ensures
            r.spec_mode2() == apply_mask(self.spec_mode2(), M2_INVERT, enable),
            r.spec_mode1() == self.spec_mode1(),
    {
        Config { mode2: set_flag(self.mode2, M2_INVERT, enable), ..self }
    }

    /// Control when outputs are updated
    pub fn och(self, change: Och) -> (r: Config)
        ensures
            r.spec_mode2() == apply_mask(
                self.spec_mode2(),
                M2_OCH,
                change is ChangeOnAck,
            ),
            r.spec_mode1() == self.spec_mode1(),
    {
        match change {
            Och::ChangeOnStop => Config { mode2: set_flag(self.mode2, M2_OCH, false), ..self },
            Och::ChangeOnAck => Config { mode2: set_flag(self.mode2, M2_OCH, true), ..self },
        }
    }

    /// Control output driver structure
    pub fn out_drv(self, outdrv: OutDrv) -> (r: Config)
        ensures
            r.spec_mode2() == apply_mask(
                self.spec_mode2(),
                M2_OUTDRV,
                outdrv is TotemPole,
            ),
            r.spec_mode1() == self.spec_mode1(),
    {
        match outdrv {
            OutDrv::OpenDrain => Config { mode2: set_flag(self.mode2, M2_OUTDRV, false), ..self },
            OutDrv::TotemPole => Config { mode2: set_flag(self.mode2, M2_OUTDRV, true), ..self },
        }
    }

    /// Control output idle behaviour.
    ///
    /// The paired OUTNE bits are replaced in one step, so the reserved
    /// combination (both set) can never arise, whatever the starting
    /// byte.
    pub fn outne(self, out: OutputDrive) -> (r: Config)
        ensures
            r.spec_mode2() == outne_bits(self.spec_mode2(), out),
            r.spec_mode1() == self.spec_mode1(),
    {
        let cleared = self.mode2 & !(M2_OUTNE1 | M2_OUTNE0);
        match out {
            OutputDrive::OutNe00 => Config { mode2: cleared, ..self },
            OutputDrive::OutNe01 => Config { mode2: cleared | M2_OUTNE0, ..self },
            OutputDrive::OutNe10 => Config { mode2: cleared | M2_OUTNE1, ..self },
        }
    }
}

impl Default for Config {
    /// The chip's power-on reset state: sleeping, all-call enabled,
    /// totem-pole outputs, output-idle mode 01.
    fn default() -> (r: Config)
        ensures
            r.spec_mode1() == 0b0001_0001u8,
            r.spec_mode2() == 0b0000_0101u8,
    {
        proof {
            assert(M1_ALLCALL | M1_SLEEP == 0b0001_0001u8) by (bit_vector);
            assert(M2_OUTDRV | M2_OUTNE0 == 0b0000_0101u8) by (bit_vector);
        }
        Config { mode1: M1_ALLCALL | M1_SLEEP, mode2: M2_OUTDRV | M2_OUTNE0 }
    }
}

/// The named flags of each mode byte occupy pairwise distinct bits, the
/// OUTNE pair counting as one flag group: no two setters alias a bit.
pub proof fn lemma_flag_bits_disjoint()
    by (bit_vector)
    ensures
        M1_SLEEP & M1_SUB1 == 0,
        M1_SLEEP & M1_SUB2 == 0,
        M1_SLEEP & M1_SUB3 == 0,
        M1_SLEEP & M1_ALLCALL == 0,
        M1_SUB1 & M1_SUB2 == 0,
        M1_SUB1 & M1_SUB3 == 0,
        M1_SUB1 & M1_ALLCALL == 0,
        M1_SUB2 & M1_SUB3 == 0,
        M1_SUB2 & M1_ALLCALL == 0,
        M1_SUB3 & M1_ALLCALL == 0,
        M2_DMBLINK & M2_INVERT == 0,
        M2_DMBLINK & M2_OCH == 0,
        M2_DMBLINK & M2_OUTDRV == 0,
        M2_INVERT & M2_OCH == 0,
        M2_INVERT & M2_OUTDRV == 0,
        M2_OCH & M2_OUTDRV == 0,
        M2_DMBLINK & (M2_OUTNE1 | M2_OUTNE0) == 0,
        M2_INVERT & (M2_OUTNE1 | M2_OUTNE0) == 0,
        M2_OCH & (M2_OUTNE1 | M2_OUTNE0) == 0,
        M2_OUTDRV & (M2_OUTNE1 | M2_OUTNE0) == 0,
{
}

/// Setters that touch disjoint bits commute: the resulting byte is the
/// union/difference of the individual bit effects, whatever the call
/// order.
pub proof fn lemma_apply_mask_commutes(bits: u8, m1: u8, e1: bool, m2: u8, e2: bool)
    requires
        m1 & m2 == 0,
    ensures
        apply_mask(apply_mask(bits, m1, e1), m2, e2) == apply_mask(
            apply_mask(bits, m2, e2),
            m1,
            e1,
        ),
{
    if e1 {
        if e2 {
            assert((bits | m1) | m2 == (bits | m2) | m1) by (bit_vector);
        } else {
            assert(m1 & m2 == 0 ==> (bits | m1) & !m2 == (bits & !m2) | m1) by (bit_vector);
        }
    } else {
        if e2 {
            assert(m1 & m2 == 0 ==> (bits & !m1) | m2 == (bits | m2) & !m1) by (bit_vector);
        } else {
            assert((bits & !m1) & !m2 == (bits & !m2) & !m1) by (bit_vector);
        }
    }
}

/// The paired-OUTNE setter commutes with any setter whose mask avoids
/// the OUTNE bits.
pub proof fn lemma_outne_commutes(bits: u8, m: u8, e: bool, mode: OutputDrive)
    requires
        m & (M2_OUTNE1 | M2_OUTNE0) == 0,
    ensures
        outne_bits(apply_mask(bits, m, e), mode) == apply_mask(outne_bits(bits, mode), m, e),
{
    if e {
        assert(m & (M2_OUTNE1 | M2_OUTNE0) == 0 ==> (bits | m) & !(M2_OUTNE1 | M2_OUTNE0) == (
        bits & !(M2_OUTNE1 | M2_OUTNE0)) | m) by (bit_vector);
        assert(m & (M2_OUTNE1 | M2_OUTNE0) == 0 ==> ((bits | m) & !(M2_OUTNE1 | M2_OUTNE0))
            | M2_OUTNE0 == ((bits & !(M2_OUTNE1 | M2_OUTNE0)) | M2_OUTNE0) | m) by (bit_vector);
        assert(m & (M2_OUTNE1 | M2_OUTNE0) == 0 ==> ((bits | m) & !(M2_OUTNE1 | M2_OUTNE0))
            | M2_OUTNE1 == ((bits & !(M2_OUTNE1 | M2_OUTNE0)) | M2_OUTNE1) | m) by (bit_vector);
    } else {
        assert(m & (M2_OUTNE1 | M2_OUTNE0) == 0 ==> (bits & !m) & !(M2_OUTNE1 | M2_OUTNE0) == (
        bits & !(M2_OUTNE1 | M2_OUTNE0)) & !m) by (bit_vector);
        assert(m & (M2_OUTNE1 | M2_OUTNE0) == 0 ==> ((bits & !m) & !(M2_OUTNE1 | M2_OUTNE0))
            | M2_OUTNE0 == ((bits & !(M2_OUTNE1 | M2_OUTNE0)) | M2_OUTNE0) & !m) by (bit_vector);
        assert(m & (M2_OUTNE1 | M2_OUTNE0) == 0 ==> ((bits & !m) & !(M2_OUTNE1 | M2_OUTNE0))
            | M2_OUTNE1 == ((bits & !(M2_OUTNE1 | M2_OUTNE0)) | M2_OUTNE1) & !m) by (bit_vector);
    }
}

/// Applying the same output-idle mode twice yields the same byte as
/// applying it once.
pub proof fn lemma_outne_idempotent(bits: u8, mode: OutputDrive)
    ensures
        outne_bits(outne_bits(bits, mode), mode) == outne_bits(bits, mode),
{
    assert((bits & !(M2_OUTNE1 | M2_OUTNE0)) & !(M2_OUTNE1 | M2_OUTNE0) == bits & !(M2_OUTNE1
        | M2_OUTNE0)) by (bit_vector);
    assert(((bits & !(M2_OUTNE1 | M2_OUTNE0)) | M2_OUTNE0) & !(M2_OUTNE1 | M2_OUTNE0) == bits & !(
    M2_OUTNE1 | M2_OUTNE0)) by (bit_vector);
    assert(((bits & !(M2_OUTNE1 | M2_OUTNE0)) | M2_OUTNE1) & !(M2_OUTNE1 | M2_OUTNE0) == bits & !(
    M2_OUTNE1 | M2_OUTNE0)) by (bit_vector);
}

/// One single-flag setter call, as data: the flag bits it touches and
/// whether it sets or clears them.
pub struct SetterCall {
    /// The flag mask the call touches.
    pub mask: u8,
    /// True to set the bits, false to clear them.
    pub enable: bool,
}

/// All flag bits any of the calls touches.
pub open spec fn masks_or(calls: Seq<SetterCall>) -> u8
    decreases calls.len(),
{
    if calls.len() == 0 {
        0u8
    } else {
        masks_or(calls.drop_last()) | calls.last().mask
    }
}

/// All flag bits the calls set rather than clear.
pub open spec fn enabled_or(calls: Seq<SetterCall>) -> u8
    decreases calls.len(),
{
    if calls.len() == 0 {
        0u8
    } else {
        enabled_or(calls.drop_last()) | (if calls.last().enable {
            calls.last().mask
        } else {
            0u8
        })
    }
}

/// The byte after the calls are applied in order.
pub open spec fn apply_calls(bits: u8, calls: Seq<SetterCall>) -> u8
    decreases calls.len(),
{
    if calls.len() == 0 {
        bits
    } else {
        apply_mask(apply_calls(bits, calls.drop_last()), calls.last().mask, calls.last().enable)
    }
}

/// The calls touch pairwise disjoint flag bits.
pub open spec fn independent(calls: Seq<SetterCall>) -> bool {
    forall|i: int, j: int|
        0 <= i < j < calls.len() ==> #[trigger] (calls[i].mask & calls[j].mask) == 0u8
}

/// A mask disjoint from every call's mask is disjoint from their
/// union.
proof fn lemma_masks_disjoint_fold(calls: Seq<SetterCall>, m: u8)
    requires
        forall|i: int| 0 <= i < calls.len() ==> #[trigger] (calls[i].mask & m) == 0u8,
    ensures
        masks_or(calls) & m == 0u8,
    decreases calls.len(),
{
    if calls.len() == 0 {
        assert(0u8 & m == 0u8) by (bit_vector);
    } else {
        let dl = calls.drop_last();
        assert forall|i: int| 0 <= i < dl.len() implies #[trigger] (dl[i].mask & m) == 0u8 by {
            assert(dl[i] == calls[i]);
        }
        lemma_masks_disjoint_fold(dl, m);
        let u = masks_or(dl);
        let lm = calls.last().mask;
        assert(calls[calls.len() - 1].mask & m == 0u8);
        assert(u & m == 0u8 && lm & m == 0u8 ==> (u | lm) & m == 0u8) by (bit_vector);
    }
}

/// The set bits are among the touched bits.
proof fn lemma_enabled_within_masks(calls: Seq<SetterCall>)
    ensures
        enabled_or(calls) & !masks_or(calls) == 0u8,
    decreases calls.len(),
{
    if calls.len() == 0 {
        assert(0u8 & !0u8 == 0u8) by (bit_vector);
    } else {
        let dl = calls.drop_last();
        lemma_enabled_within_masks(dl);
        let s = enabled_or(dl);
        let u = masks_or(dl);
        let lm = calls.last().mask;
        let e: u8 = if calls.last().enable {
            lm
        } else {
            0u8
        };
        assert(s & !u == 0u8 && (e == lm || e == 0u8) ==> (s | e) & !(u | lm) == 0u8)
            by (bit_vector);
    }
}

/// A sequence of independent setter calls produces exactly the
/// union/difference of the individual bit effects: every flag a call
/// sets ends up set, every flag a call clears ends up cleared, and
/// every bit no call touches keeps its value.
pub proof fn lemma_apply_calls_closed_form(bits: u8, calls: Seq<SetterCall>)
    requires
        independent(calls),
    ensures
        apply_calls(bits, calls) == (bits & !masks_or(calls)) | enabled_or(calls),
    decreases calls.len(),
{
    if calls.len() == 0 {
        assert((bits & !0u8) | 0u8 == bits) by (bit_vector);
    } else {
        let dl = calls.drop_last();
        assert forall|i: int, j: int|
            0 <= i < j < dl.len() implies #[trigger] (dl[i].mask & dl[j].mask) == 0u8 by {
            assert(dl[i] == calls[i] && dl[j] == calls[j]);
        }
        lemma_apply_calls_closed_form(bits, dl);
        let lm = calls.last().mask;
        assert forall|i: int| 0 <= i < dl.len() implies #[trigger] (dl[i].mask & lm) == 0u8 by {
            assert(dl[i] == calls[i]);
            assert(calls[i].mask & calls[calls.len() - 1].mask == 0u8);
        }
        lemma_masks_disjoint_fold(dl, lm);
        lemma_enabled_within_masks(dl);
        let u = masks_or(dl);
        let s = enabled_or(dl);
        if calls.last().enable {
            assert(u & lm == 0u8 && s & !u == 0u8 ==> ((bits & !u) | s) | lm == (bits & !(u | lm))
                | (s | lm)) by (bit_vector);
        } else {
            assert(u & lm == 0u8 && s & !u == 0u8 ==> ((bits & !u) | s) & !lm == (bits & !(u | lm))
                | (s | 0u8)) by (bit_vector);
        }
    }
}

/// Removing one call from a sequence removes exactly its contribution
/// to the two unions.
proof fn lemma_fold_remove(calls: Seq<SetterCall>, j: int)
    requires
        0 <= j < calls.len(),
    ensures
        masks_or(calls) == masks_or(calls.remove(j)) | calls[j].mask,
        enabled_or(calls) == enabled_or(calls.remove(j)) | (if calls[j].enable {
            calls[j].mask
        } else {
            0u8
        }),
    decreases calls.len(),
{
    if j == calls.len() - 1 {
        assert(calls.remove(j) =~= calls.drop_last());
    } else {
        let dl = calls.drop_last();
        lemma_fold_remove(dl, j);
        assert(calls.remove(j).drop_last() =~= dl.remove(j));
        assert(calls.remove(j).last() == calls.last());
        let m0 = masks_or(dl.remove(j));
        let cjm = calls[j].mask;
        let lm = calls.last().mask;
        assert((m0 | cjm) | lm == (m0 | lm) | cjm) by (bit_vector);
        let s0 = enabled_or(dl.remove(j));
        let cje: u8 = if calls[j].enable {
            calls[j].mask
        } else {
            0u8
        };
        let le: u8 = if calls.last().enable {
            calls.last().mask
        } else {
            0u8
        };
        assert((s0 | cje) | le == (s0 | le) | cje) by (bit_vector);
    }
}

/// Sequences holding the same calls have the same unions, whatever
/// their order.
proof fn lemma_fold_permutation(c1: Seq<SetterCall>, c2: Seq<SetterCall>)
    requires
        c1.to_multiset() == c2.to_multiset(),
    ensures
        masks_or(c1) == masks_or(c2),
        enabled_or(c1) == enabled_or(c2),
    decreases c1.len(),
{
    broadcast use vstd::seq_lib::group_to_multiset_ensures;

    if c1.len() == 0 {
        assert(c2.to_multiset().len() == 0);
    } else {
        let x = c1.last();
        assert(c1[c1.len() - 1] == x);
        assert(c1.contains(x));
        assert(c2.to_multiset().count(x) > 0);
        assert(c2.contains(x));
        let j = choose|j: int| 0 <= j < c2.len() && c2[j] == x;
        let dl = c1.drop_last();
        assert(dl =~= c1.remove(c1.len() - 1));
        assert(dl.to_multiset() =~= c1.to_multiset().remove(x));
        assert(c2.remove(j).to_multiset() =~= c2.to_multiset().remove(x));
        lemma_fold_permutation(dl, c2.remove(j));
        lemma_fold_remove(c2, j);
    }
}

/// Reordering a sequence of independent setter calls never changes
/// the resulting byte.
pub proof fn lemma_apply_calls_commute(bits: u8, c1: Seq<SetterCall>, c2: Seq<SetterCall>)
    requires
        independent(c1),
        independent(c2),
        c1.to_multiset() == c2.to_multiset(),
    ensures
        apply_calls(bits, c1) == apply_calls(bits, c2),
{
    lemma_apply_calls_closed_form(bits, c1);
    lemma_apply_calls_closed_form(bits, c2);
    lemma_fold_permutation(c1, c2);
}

/// The reserved OUTNE combination (both bits set) never arises: no
/// single-flag setter touches the pair, so once absent it stays
/// absent, and the paired setter never produces it from any byte.
pub proof fn lemma_outne_pair_valid(bits: u8, m: u8, e: bool, mode: OutputDrive)
    requires
        m & (M2_OUTNE1 | M2_OUTNE0) == 0,
    ensures
        bits & (M2_OUTNE1 | M2_OUTNE0) != (M2_OUTNE1 | M2_OUTNE0) ==> apply_mask(bits, m, e) & (
        M2_OUTNE1 | M2_OUTNE0) != (M2_OUTNE1 | M2_OUTNE0),
        outne_bits(bits, mode) & (M2_OUTNE1 | M2_OUTNE0) != (M2_OUTNE1 | M2_OUTNE0),
{
    if e {
        assert(m & (M2_OUTNE1 | M2_OUTNE0) == 0 && bits & (M2_OUTNE1 | M2_OUTNE0) != (M2_OUTNE1
            | M2_OUTNE0) ==> (bits | m) & (M2_OUTNE1 | M2_OUTNE0) != (M2_OUTNE1 | M2_OUTNE0))
            by (bit_vector);
    } else {
        assert(bits & (M2_OUTNE1 | M2_OUTNE0) != (M2_OUTNE1 | M2_OUTNE0) ==> (bits & !m) & (
        M2_OUTNE1 | M2_OUTNE0) != (M2_OUTNE1 | M2_OUTNE0)) by (bit_vector);
    }
    lemma_outne_exact(bits, mode);
    assert(M2_OUTNE0 != (M2_OUTNE1 | M2_OUTNE0) && M2_OUTNE1 != (M2_OUTNE1 | M2_OUTNE0) && 0u8 != (
    M2_OUTNE1 | M2_OUTNE0)) by (bit_vector);
}

/// Applying the same single-flag setter twice yields the same byte as
/// applying it once.
pub proof fn lemma_apply_mask_idempotent(bits: u8, m: u8, e: bool)
    ensures
        apply_mask(apply_mask(bits, m, e), m, e) == apply_mask(bits, m, e),
{
    assert((bits | m) | m == bits | m) by (bit_vector);
    assert((bits & !m) & !m == bits & !m) by (bit_vector);
}

/// Whatever byte `outne` starts from, the two OUTNE bits of the result
/// encode exactly the requested mode: the reserved combination (both
/// set) is never produced.
pub proof fn lemma_outne_exact(bits: u8, mode: OutputDrive)
    ensures
        mode is OutNe00 ==> outne_bits(bits, mode) & (M2_OUTNE1 | M2_OUTNE0) == 0,
        mode is OutNe01 ==> outne_bits(bits, mode) & (M2_OUTNE1 | M2_OUTNE0) == M2_OUTNE0,
        mode is OutNe10 ==> outne_bits(bits, mode) & (M2_OUTNE1 | M2_OUTNE0) == M2_OUTNE1,
        outne_bits(bits, mode) & !(M2_OUTNE1 | M2_OUTNE0) == bits & !(M2_OUTNE1 | M2_OUTNE0),
{
    assert((bits & !(M2_OUTNE1 | M2_OUTNE0)) & (M2_OUTNE1 | M2_OUTNE0) == 0) by (bit_vector);
    assert(((bits & !(M2_OUTNE1 | M2_OUTNE0)) | M2_OUTNE0) & (M2_OUTNE1 | M2_OUTNE0) == M2_OUTNE0)
        by (bit_vector);
    assert(((bits & !(M2_OUTNE1 | M2_OUTNE0)) | M2_OUTNE1) & (M2_OUTNE1 | M2_OUTNE0) == M2_OUTNE1)
        by (bit_vector);
    assert((bits & !(M2_OUTNE1 | M2_OUTNE0)) & !(M2_OUTNE1 | M2_OUTNE0) == bits & !(M2_OUTNE1
        | M2_OUTNE0)) by (bit_vector);
    assert(((bits & !(M2_OUTNE1 | M2_OUTNE0)) | M2_OUTNE0) & !(M2_OUTNE1 | M2_OUTNE0) == bits & !(
    M2_OUTNE1 | M2_OUTNE0)) by (bit_vector);
    assert(((bits & !(M2_OUTNE1 | M2_OUTNE0)) | M2_OUTNE1) & !(M2_OUTNE1 | M2_OUTNE0) == bits & !(
    M2_OUTNE1 | M2_OUTNE0)) by (bit_vector);
}

/// Set or clear one flag group in a mode byte.
fn set_flag(bits: u8, mask: u8, enable: bool) -> (r: u8)
    ensures
        r == apply_mask(bits, mask, enable),
{
    if enable {
        bits | mask
    } else {
        bits & !mask
    }
}

} // verus!

//! The fixed table of holding-register addresses that one poll reads.
//!
//! Four aggregate totals, then three sub-measurements for each of the three
//! phases. Every logical value spans two consecutive 16-bit registers, so a
//! read at address `a` fetches the words at `a` and `a + 1`.

use vstd::prelude::*;

verus! {

/// Number of register pairs read by one poll: 4 aggregates + 3 phases x 3 fields.
pub const READ_COUNT: usize = 13;

/// One register past the highest address a poll touches: a register space of
/// at least this many words covers every planned read and its second word.
pub const REGISTER_SPAN: usize = 0x52;

/// One of the three sub-measurements recorded per electrical phase.
#[derive(Clone, Copy, Debug, PartialEq, Eq, Structural)]
pub enum PhaseField {
    Power,
    ApparentPower,
    ReactivePower,
}

/// Base register address of a phase sub-measurement (its address for phase 0).
pub open spec fn phase_base_spec(f: PhaseField) -> u16 {
    match f {
        PhaseField::Power => 0x12,
        PhaseField::ApparentPower => 0x18,
        PhaseField::ReactivePower => 0x1e,
    }
}

/// Position of a phase sub-measurement within one phase's group of three reads.
pub open spec fn phase_field_index(f: PhaseField) -> int {
    match f {
        PhaseField::Power => 0,
        PhaseField::ApparentPower => 1,
        PhaseField::ReactivePower => 2,
    }
}

/// The register address of sub-measurement `f` for phase `i`: the phases share
/// the same bases, spaced two registers apart per phase.
pub open spec fn phase_register_spec(f: PhaseField, i: int) -> u16 {
    (phase_base_spec(f) + 2 * i) as u16
}

/// Address of the register pair read `j`-th during a poll.
///
/// Reads 0 to 3 are the aggregate totals (imported real, imported reactive,
/// exported real, exported reactive); reads 4 to 12 cover phase 0, then
/// phase 1, then phase 2, each as power, apparent power, reactive power.
pub open spec fn plan_spec(j: int) -> u16 {
    if j == 0 {
        0x34
    } else if j == 1 {
        0x36
    } else if j == 2 {
        0x4e
    } else if j == 3 {
        0x50
    } else {
        let phase = (j - 4) / 3;
        let field = (j - 4) % 3;
        (0x12 + 6 * field + 2 * phase) as u16
    }
}

/// Returns the address of the `j`-th register pair of the poll plan.
pub fn plan_register(j: usize) -> (r: u16)
    requires
        j < READ_COUNT,
    ensures
        r == plan_spec(j as int),
{
    let table: [u16; 13] = [
        0x34, 0x36, 0x4e, 0x50,
        0x12, 0x18, 0x1e,
        0x14, 0x1a, 0x20,
        0x16, 0x1c, 0x22,
    ];
    table[j]
}

/// Returns the register address of sub-measurement `f` for phase `i`.
pub fn phase_register(f: PhaseField, i: u16) -> (r: u16)
    requires
        i < 3,
    ensures
        r == phase_register_spec(f, i as int),
        r == phase_base_spec(f) + 2 * i,
{
    let base: u16 = match f {
        PhaseField::Power => 0x12,
        PhaseField::ApparentPower => 0x18,
        PhaseField::ReactivePower => 0x1e,
    };
    base + 2 * i
}

/// Every planned read, together with its second word, lies inside the first
/// `REGISTER_SPAN` registers of the device's holding-register space.
pub proof fn lemma_plan_in_span(j: int)
    requires
        0 <= j < READ_COUNT,
    ensures
        plan_spec(j) + 1 < REGISTER_SPAN,
{
    if j >= 4 {
        assert(0 <= (j - 4) / 3 < 3 && 0 <= (j - 4) % 3 < 3) by (nonlinear_arith)
            requires
                4 <= j < 13,
        ;
    }
}

/// For phase index `i` and sub-measurement `f`, the poll plan reads exactly
/// the register `phase_base_spec(f) + 2 * i`: the base address of the
/// sub-measurement, offset by two registers per phase.
pub proof fn lemma_plan_phase_register(f: PhaseField, i: int)
    requires
        0 <= i < 3,
    ensures
        plan_spec(4 + 3 * i + phase_field_index(f)) == phase_base_spec(f) + 2 * i,
        plan_spec(4 + 3 * i + phase_field_index(f)) == phase_register_spec(f, i),
{
    let j = 4 + 3 * i + phase_field_index(f);
    assert((j - 4) / 3 == i && (j - 4) % 3 == phase_field_index(f)) by (nonlinear_arith)
        requires
            0 <= i < 3,
            0 <= phase_field_index(f) < 3,
            j == 4 + 3 * i + phase_field_index(f),
    ;
}

} // verus!

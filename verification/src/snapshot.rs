//! The assembled result of one poll, and its relation to the device's
//! register contents.

use vstd::prelude::*;
use crate::decode::decode_spec;
use crate::registers::{plan_spec, READ_COUNT, REGISTER_SPAN};

verus! {

/// The three sub-measurements of one electrical phase.
#[derive(Clone, Copy, Debug, PartialEq, Eq, Structural)]
pub struct PhasePower {
    pub power: u32,
    pub reactive_power: u32,
    pub apparent_power: u32,
}

/// The complete, immutable result of one successful poll: four aggregate
/// totals and the three per-phase measurements. Constructed only when all
/// thirteen reads succeeded; a partial snapshot never exists.
#[derive(Clone, Copy, Debug, PartialEq, Eq, Structural)]
pub struct Snapshot {
    pub imported_power_total: u32,
    pub imported_reactive_power_total: u32,
    pub exported_power_total: u32,
    pub exported_reactive_power_total: u32,
    pub phase1: PhasePower,
    pub phase2: PhasePower,
    pub phase3: PhasePower,
}

/// The sub-measurements of phase `i`, taken from the poll's decoded values in
/// plan order.
pub open spec fn phase_of_values(v: Seq<u32>, i: int) -> PhasePower {
    PhasePower {
        power: v[4 + 3 * i],
        apparent_power: v[4 + 3 * i + 1],
        reactive_power: v[4 + 3 * i + 2],
    }
}

/// The snapshot assembled from the thirteen decoded values in plan order:
/// the four aggregates first, then phase index 0 as `phase1`, 1 as `phase2`,
/// 2 as `phase3`.
pub open spec fn snapshot_of_values(v: Seq<u32>) -> Snapshot {
    Snapshot {
        imported_power_total: v[0],
        imported_reactive_power_total: v[1],
        exported_power_total: v[2],
        exported_reactive_power_total: v[3],
        phase1: phase_of_values(v, 0),
        phase2: phase_of_values(v, 1),
        phase3: phase_of_values(v, 2),
    }
}

/// The measurement the device holds for the `j`-th planned read: the two
/// words at the planned address, decoded high word first.
pub open spec fn device_value(regs: Seq<u16>, j: int) -> u32 {
    decode_spec(regs[plan_spec(j) as int], regs[plan_spec(j) + 1])
}

/// All thirteen measurements a device with register contents `regs` serves,
/// in plan order.
pub open spec fn device_values(regs: Seq<u16>) -> Seq<u32> {
    Seq::new(READ_COUNT as nat, |j: int| device_value(regs, j))
}

/// `s` is exactly the snapshot determined by the register contents `regs`.
pub open spec fn snapshot_matches_device(s: Snapshot, regs: Seq<u16>) -> bool {
    &&& regs.len() >= REGISTER_SPAN
    &&& s == snapshot_of_values(device_values(regs))
}

/// Builds the snapshot from the thirteen decoded measurements, in plan order.
pub fn assemble(values: &Vec<u32>) -> (s: Snapshot)
    requires
        values@.len() == READ_COUNT,
    ensures
        s == snapshot_of_values(values@),
{
    Snapshot {
        imported_power_total: values[0],
        imported_reactive_power_total: values[1],
        exported_power_total: values[2],
        exported_reactive_power_total: values[3],
        phase1: PhasePower {
            power: values[4],
            apparent_power: values[5],
            reactive_power: values[6],
        },
        phase2: PhasePower {
            power: values[7],
            apparent_power: values[8],
            reactive_power: values[9],
        },
        phase3: PhasePower {
            power: values[10],
            apparent_power: values[11],
            reactive_power: values[12],
        },
    }
}

/// Each field of a successful snapshot comes from its own documented register
/// pair, with no cross-assignment: the four aggregate totals from 0x34, 0x36,
/// 0x4e and 0x50, and each phase sub-measurement from its base address offset
/// by two registers per phase.
pub proof fn lemma_snapshot_sources(regs: Seq<u16>, s: Snapshot)
    requires
        snapshot_matches_device(s, regs),
    ensures
        s.imported_power_total == decode_spec(regs[0x34], regs[0x35]),
        s.imported_reactive_power_total == decode_spec(regs[0x36], regs[0x37]),
        s.exported_power_total == decode_spec(regs[0x4e], regs[0x4f]),
        s.exported_reactive_power_total == decode_spec(regs[0x50], regs[0x51]),
        s.phase1.power == decode_spec(regs[0x12], regs[0x13]),
        s.phase1.apparent_power == decode_spec(regs[0x18], regs[0x19]),
        s.phase1.reactive_power == decode_spec(regs[0x1e], regs[0x1f]),
        s.phase2.power == decode_spec(regs[0x14], regs[0x15]),
        s.phase2.apparent_power == decode_spec(regs[0x1a], regs[0x1b]),
        s.phase2.reactive_power == decode_spec(regs[0x20], regs[0x21]),
        s.phase3.power == decode_spec(regs[0x16], regs[0x17]),
        s.phase3.apparent_power == decode_spec(regs[0x1c], regs[0x1d]),
        s.phase3.reactive_power == decode_spec(regs[0x22], regs[0x23]),
{
}

/// Polling is a pure read: two snapshots taken from the same fixed register
/// contents are identical.
pub proof fn lemma_poll_idempotent(regs: Seq<u16>, s1: Snapshot, s2: Snapshot)
    requires
        snapshot_matches_device(s1, regs),
        snapshot_matches_device(s2, regs),
    ensures
        s1 == s2,
{
}

} // verus!

//! The poll state machine.
//!
//! One poll owns one transport session. The caller opens the session, then
//! feeds the machine the outcome of each transport operation; the machine
//! answers with the next operation to perform, or with the poll's final
//! outcome. All decisions — which register to read next, when to abort, how
//! to attribute a failure, when the snapshot may be assembled — are made
//! here and verified; the caller only moves bytes.

use vstd::prelude::*;
use crate::decode::{decode_spec, decode_u32};
use crate::registers::{plan_spec, plan_register, lemma_plan_in_span, READ_COUNT, REGISTER_SPAN};
use crate::snapshot::{
    Snapshot, PhasePower, assemble, snapshot_of_values, device_values, snapshot_matches_device,
};

verus! {

/// Why a poll failed. Every failure is fatal: no partial snapshot exists.
#[derive(Debug)]
pub enum PollError {
    /// The connection to the device could not be established; no register
    /// read was attempted.
    TransportUnavailable { message: String },
    /// The read of the pair starting at `register` failed; the remaining
    /// reads were abandoned.
    RegisterReadFailure { register: u16, message: String },
}

/// The outcome of the transport operation the machine last asked for.
pub enum PollEvent {
    /// The session to the device is open.
    Connected,
    /// The session could not be established.
    ConnectFailed { message: String },
    /// The requested register pair, high word first.
    ReadValue { hi: u16, lo: u16 },
    /// The requested read failed (timeout, bad response, lost connection).
    ReadFailed { message: String },
    /// The session was closed.
    Closed,
    /// Closing failed. Diagnostic only: it never changes the poll's outcome,
    /// which is already determined when the session is released.
    CloseFailed { message: String },
}

/// The next operation the caller must perform on its transport.
pub enum PollAction {
    /// Read two consecutive holding registers starting at `register` and
    /// report the two words, or the failure.
    ReadPair { register: u16 },
    /// Release the session and report whether that succeeded.
    Close,
}

/// What one step of the machine decided.
pub enum StepResult {
    /// The poll goes on: perform this operation and report its outcome.
    Continue(PollAction),
    /// The poll is over, successfully or not.
    Done(Result<Snapshot, PollError>),
}

/// Where in its life one poll stands.
#[derive(Clone, Copy, Debug, PartialEq, Eq, Structural)]
pub enum PollState {
    /// Waiting for the session to open.
    Connecting,
    /// Waiting for the next register pair.
    Reading,
    /// All reads done; waiting for the session to be released.
    Closing,
    /// The outcome has been returned; the machine accepts nothing more.
    Finished,
}

/// The state machine of one poll. `values` holds the measurements decoded so
/// far, in plan order.
pub struct Poller {
    pub state: PollState,
    pub values: Vec<u32>,
}

impl Poller {
    /// The machine's well-formedness: the number of collected values agrees
    /// with where the poll stands.
    pub open spec fn inv(self) -> bool {
        match self.state {
            PollState::Connecting => self.values@.len() == 0,
            PollState::Reading => self.values@.len() < READ_COUNT,
            PollState::Closing => self.values@.len() == READ_COUNT,
            PollState::Finished => true,
        }
    }

    /// Which events the machine can take next. A finished machine accepts
    /// none: one `Poller` serves exactly one poll.
    pub open spec fn accepts(self, event: PollEvent) -> bool {
        match self.state {
            PollState::Connecting => event is Connected || event is ConnectFailed,
            PollState::Reading => event is ReadValue || event is ReadFailed,
            PollState::Closing => event is Closed || event is CloseFailed,
            PollState::Finished => false,
        }
    }

    /// A fresh machine: nothing read, waiting for the session to open.
    pub fn new() -> (p: Poller)
        ensures
            p.inv(),
            p.state is Connecting,
            p.values@.len() == 0,
    {
        Poller { state: PollState::Connecting, values: Vec::new() }
    }

    /// Feeds the machine the outcome of the operation it last asked for and
    /// returns its decision: the next transport operation, or the poll's
    /// final outcome.
    pub fn step(&mut self, event: PollEvent) -> (r: StepResult)
        requires
            old(self).inv(),
            old(self).accepts(event),
        ensures
            final(self).inv(),
            spec_step(*old(self), event, *final(self), r),
    {
        let st = self.state;
        match st {
            PollState::Connecting => match event {
                PollEvent::Connected => {
                    self.state = PollState::Reading;
                    let register = plan_register(0);
                    StepResult::Continue(PollAction::ReadPair { register })
                },
                PollEvent::ConnectFailed { message } => {
                    self.state = PollState::Finished;
                    StepResult::Done(Err(PollError::TransportUnavailable { message }))
                },
                _ => {
                    proof {
                        assert(false);
                    }
                    StepResult::Continue(PollAction::Close)
                },
            },
            PollState::Reading => match event {
                PollEvent::ReadValue { hi, lo } => {
                    let v = decode_u32(hi, lo);
                    self.values.push(v);
                    if self.values.len() < READ_COUNT {
                        let register = plan_register(self.values.len());
                        StepResult::Continue(PollAction::ReadPair { register })
                    } else {
                        self.state = PollState::Closing;
                        StepResult::Continue(PollAction::Close)
                    }
                },
                PollEvent::ReadFailed { message } => {
                    let register = plan_register(self.values.len());
                    self.state = PollState::Finished;
                    StepResult::Done(Err(PollError::RegisterReadFailure { register, message }))
                },
                _ => {
                    proof {
                        assert(false);
                    }
                    StepResult::Continue(PollAction::Close)
                },
            },
            PollState::Closing => match event {
                PollEvent::Closed | PollEvent::CloseFailed { .. } => {
                    self.state = PollState::Finished;
                    let s = assemble(&self.values);
                    StepResult::Done(Ok(s))
                },
                _ => {
                    proof {
                        assert(false);
                    }
                    StepResult::Continue(PollAction::Close)
                },
            },
            PollState::Finished => {
                proof {
                    assert(false);
                }
                StepResult::Continue(PollAction::Close)
            },
        }
    }
}

/// The machine's full transition relation: what one `step` on `pre` with
/// `event` leaves behind (`post`) and decides (`r`).
pub open spec fn spec_step(pre: Poller, event: PollEvent, post: Poller, r: StepResult) -> bool {
    match pre.state {
        PollState::Connecting => match event {
            PollEvent::Connected => {
                &&& post.state is Reading
                &&& post.values@ == pre.values@
                &&& r == StepResult::Continue(PollAction::ReadPair { register: plan_spec(0) })
            },
            PollEvent::ConnectFailed { message } => {
                &&& post.state is Finished
                &&& r == StepResult::Done(Result::<Snapshot, PollError>::Err(
                    PollError::TransportUnavailable { message },
                ))
            },
            _ => false,
        },
        PollState::Reading => match event {
            PollEvent::ReadValue { hi, lo } => {
                &&& post.values@ == pre.values@.push(decode_spec(hi, lo))
                &&& if pre.values@.len() + 1 < READ_COUNT {
                    &&& post.state is Reading
                    &&& r == StepResult::Continue(PollAction::ReadPair {
                        register: plan_spec(pre.values@.len() as int + 1),
                    })
                } else {
                    &&& post.state is Closing
                    &&& r == StepResult::Continue(PollAction::Close)
                }
            },
            PollEvent::ReadFailed { message } => {
                &&& post.state is Finished
                &&& r == StepResult::Done(Result::<Snapshot, PollError>::Err(
                    PollError::RegisterReadFailure {
                        register: plan_spec(pre.values@.len() as int),
                        message,
                    },
                ))
            },
            _ => false,
        },
        PollState::Closing => match event {
            PollEvent::Closed => {
                &&& post.state is Finished
                &&& r == StepResult::Done(Result::<Snapshot, PollError>::Ok(
                    snapshot_of_values(pre.values@),
                ))
            },
            PollEvent::CloseFailed { message: _ } => {
                &&& post.state is Finished
                &&& r == StepResult::Done(Result::<Snapshot, PollError>::Ok(
                    snapshot_of_values(pre.values@),
                ))
            },
            _ => false,
        },
        PollState::Finished => false,
    }
}

/// When the initial connection fails, the poll ends at once with
/// `TransportUnavailable`: the machine is finished, accepts no further
/// event, and no register read was or will be requested.
pub proof fn lemma_connect_failure_aborts(
    pre: Poller,
    message: String,
    post: Poller,
    r: StepResult,
)
    requires
        pre.inv(),
        pre.state is Connecting,
        spec_step(pre, PollEvent::ConnectFailed { message }, post, r),
    ensures
        r == StepResult::Done(Result::<Snapshot, PollError>::Err(
            PollError::TransportUnavailable { message },
        )),
        !(r matches StepResult::Continue(_)),
        post.state is Finished,
        forall|e: PollEvent| !post.accepts(e),
{
}

/// When any one register read fails, the poll ends at once with a failure
/// that names exactly the register whose read failed — the one the plan put
/// at the position of the failed read — and never with a snapshot.
pub proof fn lemma_read_failure_names_register(
    pre: Poller,
    message: String,
    post: Poller,
    r: StepResult,
)
    requires
        pre.inv(),
        pre.state is Reading,
        spec_step(pre, PollEvent::ReadFailed { message }, post, r),
    ensures
        r == StepResult::Done(Result::<Snapshot, PollError>::Err(
            PollError::RegisterReadFailure {
                register: plan_spec(pre.values@.len() as int),
                message,
            },
        )),
        !(r matches StepResult::Done(Ok(_))),
        post.state is Finished,
        forall|e: PollEvent| !post.accepts(e),
{
}

/// Polls a device whose first `REGISTER_SPAN` holding registers are given as
/// plain words, by driving the state machine through a full successful run.
/// The snapshot is exactly the one the register contents determine — so two
/// polls of the same contents return identical snapshots.
pub fn poll_from_registers(regs: &Vec<u16>) -> (s: Snapshot)
    requires
        regs@.len() >= REGISTER_SPAN,
    ensures
        snapshot_matches_device(s, regs@),
        s == snapshot_of_values(device_values(regs@)),
{
    let mut p = Poller::new();
    let _ = p.step(PollEvent::Connected);
    let mut j: usize = 0;
    while j < READ_COUNT
        invariant
            p.inv(),
            j == p.values@.len(),
            j <= READ_COUNT,
            j < READ_COUNT ==> p.state is Reading,
            j == READ_COUNT ==> p.state is Closing,
            p.values@ =~= device_values(regs@).take(j as int),
            regs@.len() >= REGISTER_SPAN,
        decreases READ_COUNT - j,
    {
        let register = plan_register(j);
        proof {
            lemma_plan_in_span(j as int);
        }
        let hi = regs[register as usize];
        let lo = regs[register as usize + 1];
        let _ = p.step(PollEvent::ReadValue { hi, lo });
        j = j + 1;
        proof {
            assert(p.values@ =~= device_values(regs@).take(j as int));
        }
    }
    proof {
        assert(p.values@ =~= device_values(regs@));
    }
    let out = p.step(PollEvent::Closed);
    match out {
        StepResult::Done(Ok(s)) => s,
        _ => {
            proof {
                assert(false);
            }
            Snapshot {
                imported_power_total: 0,
                imported_reactive_power_total: 0,
                exported_power_total: 0,
                exported_reactive_power_total: 0,
                phase1: PhasePower { power: 0, reactive_power: 0, apparent_power: 0 },
                phase2: PhasePower { power: 0, reactive_power: 0, apparent_power: 0 },
                phase3: PhasePower { power: 0, reactive_power: 0, apparent_power: 0 },
            }
        },
    }
}

} // verus!

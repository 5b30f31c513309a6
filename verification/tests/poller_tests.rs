use power_poller::poller::{poll_from_registers, PollAction, PollError, PollEvent, Poller, StepResult};
use power_poller::registers::{plan_register, READ_COUNT, REGISTER_SPAN};
use power_poller::service::{data, ServiceUnavailable};
use power_poller::snapshot::Snapshot;

fn device() -> Vec<u16> {
    let mut regs = vec![0u16; REGISTER_SPAN];
    regs[0x34] = 0x0001; // imported_power_total, high word
    regs[0x35] = 0x0000; // imported_power_total, low word
    regs[0x36] = 0x0000;
    regs[0x37] = 0x0002;
    regs[0x4e] = 0x0003;
    regs[0x4f] = 0x0004;
    regs[0x50] = 0xFFFF;
    regs[0x51] = 0xFFFF;
    for a in 0x12..0x24 {
        regs[a] = a as u16;
    }
    regs
}

fn run(regs: &[u16], close_ok: bool) -> Result<Snapshot, PollError> {
    let mut p = Poller::new();
    let mut r = p.step(PollEvent::Connected);
    loop {
        match r {
            StepResult::Continue(PollAction::ReadPair { register }) => {
                let hi = regs[register as usize];
                let lo = regs[register as usize + 1];
                r = p.step(PollEvent::ReadValue { hi, lo });
            }
            StepResult::Continue(PollAction::Close) => {
                let event = if close_ok {
                    PollEvent::Closed
                } else {
                    PollEvent::CloseFailed { message: "socket already gone".to_string() }
                };
                r = p.step(event);
            }
            StepResult::Done(out) => return out,
        }
    }
}

fn pair(a: u16) -> u32 {
    ((a as u32) << 16) | ((a + 1) as u32)
}

#[test]
fn full_poll_assigns_documented_registers() {
    let s = run(&device(), true).expect("all reads succeed");
    assert_eq!(s.imported_power_total, 65536);
    assert_eq!(s.imported_reactive_power_total, 2);
    assert_eq!(s.exported_power_total, 0x0003_0004);
    assert_eq!(s.exported_reactive_power_total, 0xFFFF_FFFF);
    assert_eq!(s.phase1.power, pair(0x12));
    assert_eq!(s.phase1.apparent_power, pair(0x18));
    assert_eq!(s.phase1.reactive_power, pair(0x1e));
    assert_eq!(s.phase2.power, pair(0x14));
    assert_eq!(s.phase2.apparent_power, pair(0x1a));
    assert_eq!(s.phase2.reactive_power, pair(0x20));
    assert_eq!(s.phase3.power, pair(0x16));
    assert_eq!(s.phase3.apparent_power, pair(0x1c));
    assert_eq!(s.phase3.reactive_power, pair(0x22));
}

#[test]
fn machine_requests_registers_in_plan_order() {
    let regs = device();
    let mut requested: Vec<u16> = Vec::new();
    let mut p = Poller::new();
    let mut r = p.step(PollEvent::Connected);
    loop {
        match r {
            StepResult::Continue(PollAction::ReadPair { register }) => {
                requested.push(register);
                let hi = regs[register as usize];
                let lo = regs[register as usize + 1];
                r = p.step(PollEvent::ReadValue { hi, lo });
            }
            StepResult::Continue(PollAction::Close) => {
                r = p.step(PollEvent::Closed);
            }
            StepResult::Done(out) => {
                assert!(out.is_ok());
                break;
            }
        }
    }
    let expected: Vec<u16> = (0..READ_COUNT).map(plan_register).collect();
    assert_eq!(requested, expected);
}

#[test]
fn poll_is_idempotent_on_fixed_registers() {
    let regs = device();
    let s1 = run(&regs, true).expect("first poll");
    let s2 = run(&regs, true).expect("second poll");
    assert_eq!(s1, s2);
    let s3 = poll_from_registers(&regs);
    let s4 = poll_from_registers(&regs);
    assert_eq!(s3, s4);
    assert_eq!(s1, s3);
}

#[test]
fn connect_failure_returns_transport_unavailable() {
    let mut p = Poller::new();
    let r = p.step(PollEvent::ConnectFailed { message: "no route to device".to_string() });
    match r {
        StepResult::Done(Err(PollError::TransportUnavailable { message })) => {
            assert_eq!(message, "no route to device");
        }
        _ => panic!("a failed connect must end the poll with TransportUnavailable"),
    }
}

#[test]
fn read_failure_names_the_failing_register() {
    let regs = device();
    for failing in [0usize, 3, 4, 12] {
        let mut p = Poller::new();
        let mut r = p.step(PollEvent::Connected);
        let mut reads_done: usize = 0;
        let outcome = loop {
            match r {
                StepResult::Continue(PollAction::ReadPair { register }) => {
                    if reads_done == failing {
                        r = p.step(PollEvent::ReadFailed { message: "timeout".to_string() });
                    } else {
                        let hi = regs[register as usize];
                        let lo = regs[register as usize + 1];
                        r = p.step(PollEvent::ReadValue { hi, lo });
                    }
                    reads_done += 1;
                }
                StepResult::Continue(PollAction::Close) => {
                    panic!("the poll must abort before closing after a failed read");
                }
                StepResult::Done(out) => break out,
            }
        };
        match outcome {
            Err(PollError::RegisterReadFailure { register, message }) => {
                assert_eq!(register, plan_register(failing));
                assert_eq!(message, "timeout");
            }
            _ => panic!("a failed read must end the poll with RegisterReadFailure"),
        }
    }
}

#[test]
fn close_failure_does_not_change_the_outcome() {
    let regs = device();
    let ok = run(&regs, true).expect("close succeeded");
    let also_ok = run(&regs, false).expect("close failure is non-fatal");
    assert_eq!(ok, also_ok);
}

#[test]
fn data_passes_snapshots_and_collapses_failures() {
    let regs = device();
    let s = run(&regs, true).expect("poll");
    assert_eq!(data(Ok(s)), Ok(s));
    let unavailable = data(Err(PollError::TransportUnavailable { message: "down".to_string() }));
    assert_eq!(unavailable, Err(ServiceUnavailable));
    let read_error = PollError::RegisterReadFailure { register: 0x34, message: "bad frame".to_string() };
    assert_eq!(data(Err(read_error)), Err(ServiceUnavailable));
}

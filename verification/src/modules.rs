//! The modules of the design under simulation.
//!
//! Each module is a function of the committed state and of the intermediate
//! values produced earlier in the same step.  It returns a "fired" signal:
//! a module whose inputs are not ready reports that it did not fire, and its
//! pending activation stays queued for a retry.
//!
//! The memory module talks to the external memory subsystem.  Issuing a
//! request and learning whether it was accepted is outside work, so its
//! evaluation is split into a decision ([`SRAM_2a9ed_begin`]) and a
//! continuation ([`SRAM_2a9ed_resume`]) that the caller drives, handing in
//! each request's acceptance flag.

use vstd::prelude::*;
use crate::convert::ValueCastTo;
use crate::queue::{insert_by_cycle, slot_occupied};
use crate::sim::{SimError, Simulator};
use crate::storage::{ArrayWrite, FIFOPop};

verus! {

/// The timestamp within `stamp`'s cycle at which scheduled state changes
/// commit (the commit offset is 50 of the 100 raw timestamps of a cycle).
pub open spec fn commit_stamp(stamp: usize) -> int {
    stamp - stamp % 100 + 50
}

/// The timestamp at which the next cycle's logic evaluation begins.
pub open spec fn next_activation_stamp(stamp: usize) -> int {
    stamp - stamp % 100 + 100
}

/// Bit 0 of the cycle register: the driver's write-enable.
pub open spec fn driver_bit0(c: i32) -> bool {
    ((c as u64) & 1) != 0
}

/// The low nine bits of a register value: the driver's data-array address.
pub open spec fn driver_addr_bits(v: i32) -> u16 {
    ((v as u64) & 0x1ff) as u16
}

/// The address the driver presents to the data array in a step that read the
/// cycle-register value `c` (requires `c < i32::MAX` so that `c + 1` exists).
pub open spec fn driver_sram_addr(c: i32) -> i16 {
    (if driver_bit0(c) {
        driver_addr_bits((c + 1) as i32)
    } else {
        driver_addr_bits(c)
    }) as i16
}

/// The diagnostic sum the memory user computes from a value it popped: the
/// popped value, reinterpreted as a signed register, plus 128 (wrapping).
pub open spec fn memuser_sum(v: u32) -> i32 {
    let x = v as i32;
    if x + 128 > i32::MAX {
        (x + 128 - 0x1_0000_0000) as i32
    } else {
        (x + 128) as i32
    }
}

/// The memory user: schedules a pop of its read-data FIFO for this step's
/// commit offset, then consumes the FIFO's front value if one is already
/// present.  Returns `Ok(Some(sum))` when it fired (with its diagnostic sum),
/// `Ok(None)` when no data was available (the pop stays scheduled), and a
/// scheduling conflict when the commit slot of the pop queue is occupied.
pub fn MemUser_57a15(sim: &mut Simulator) -> (r: Result<Option<i32>, SimError>)
    requires
        old(sim).wf(),
        old(sim).stamp + 50 <= usize::MAX,
    ensures
        final(sim).wf(),
        final(sim).stamp == old(sim).stamp,
        final(sim).array_2a959 == old(sim).array_2a959,
        final(sim).array_2aa85 == old(sim).array_2aa85,
        final(sim).MemUser_57a15_triggered == old(sim).MemUser_57a15_triggered,
        final(sim).MemUser_57a15_event == old(sim).MemUser_57a15_event,
        final(sim).MemUser_57a15_rdata.payload == old(sim).MemUser_57a15_rdata.payload,
        final(sim).MemUser_57a15_rdata.push == old(sim).MemUser_57a15_rdata.push,
        final(sim).Driver_triggered == old(sim).Driver_triggered,
        final(sim).Driver_event == old(sim).Driver_event,
        final(sim).SRAM_2a9ed_triggered == old(sim).SRAM_2a9ed_triggered,
        final(sim)._2a969_value == old(sim)._2a969_value,
        final(sim)._2aa41_value == old(sim)._2aa41_value,
        final(sim)._2a991_value == old(sim)._2a991_value,
        final(sim)._2aa91_value == old(sim)._2aa91_value,
        match r {
            Err(e) => {
                &&& slot_occupied(old(sim).MemUser_57a15_rdata.pop.q@, commit_stamp(old(sim).stamp) as usize)
                &&& e is Schedule
                &&& final(sim).MemUser_57a15_rdata.pop == old(sim).MemUser_57a15_rdata.pop
            },
            Ok(fired) => {
                &&& !slot_occupied(old(sim).MemUser_57a15_rdata.pop.q@, commit_stamp(old(sim).stamp) as usize)
                &&& final(sim).MemUser_57a15_rdata.pop.q@ == insert_by_cycle(
                    old(sim).MemUser_57a15_rdata.pop.q@,
                    (FIFOPop {
                        cycle: commit_stamp(old(sim).stamp) as usize,
                        pusher: "MemUser_57a15",
                    }),
                )
                &&& match fired {
                    None => old(sim).MemUser_57a15_rdata.payload@.len() == 0,
                    Some(s) => old(sim).MemUser_57a15_rdata.payload@.len() > 0 && s
                        == memuser_sum(old(sim).MemUser_57a15_rdata.payload@[0]),
                }
            },
        },
{
    let stamp = sim.stamp - sim.stamp % 100 + 50;
    match sim.MemUser_57a15_rdata.pop.push(FIFOPop::new(stamp, "MemUser_57a15")) {
        Err(c) => {
            return Err(SimError::Schedule(c));
        },
        Ok(()) => {},
    }
    let _27689: u32 = match sim.MemUser_57a15_rdata.front() {
        Some(value) => *value,
        None => {
            // No data available yet: not fired, the pop stays scheduled.
            return Ok(None);
        },
    };
    let _2a915 = ValueCastTo::<i32>::cast(&_27689);
    let _2a921 = _2a915.wrapping_add(128);
    Ok(Some(_2a921))
}

/// The driver: reads the cycle register, derives this step's write/read
/// enables and data-array address, schedules the incremented cycle count as
/// a register write for the commit offset, and on a read step queues the
/// memory user's next activation.  The driver always fires; its only failure
/// is a scheduling conflict on the cycle register's write queue.
pub fn Driver(sim: &mut Simulator) -> (r: Result<bool, SimError>)
    requires
        old(sim).wf(),
        old(sim).array_2a959.payload@.len() >= 1,
        old(sim).array_2a959.payload@[0] < i32::MAX,
        old(sim).stamp + 100 <= usize::MAX,
    ensures
        final(sim).wf(),
        final(sim).stamp == old(sim).stamp,
        final(sim).array_2a959.payload == old(sim).array_2a959.payload,
        final(sim).array_2aa85 == old(sim).array_2aa85,
        final(sim).MemUser_57a15_triggered == old(sim).MemUser_57a15_triggered,
        final(sim).MemUser_57a15_rdata == old(sim).MemUser_57a15_rdata,
        final(sim).Driver_triggered == old(sim).Driver_triggered,
        final(sim).Driver_event == old(sim).Driver_event,
        final(sim).SRAM_2a9ed_triggered == old(sim).SRAM_2a9ed_triggered,
        final(sim)._2a969_value == Some(driver_bit0(old(sim).array_2a959.payload@[0])),
        final(sim)._2a991_value == Some(!driver_bit0(old(sim).array_2a959.payload@[0])),
        final(sim)._2aa41_value == Some(driver_sram_addr(old(sim).array_2a959.payload@[0])),
        match r {
            Err(e) => {
                &&& slot_occupied(old(sim).array_2a959.write.q@, commit_stamp(old(sim).stamp) as usize)
                &&& e is Schedule
                &&& final(sim).array_2a959.write == old(sim).array_2a959.write
                &&& final(sim).MemUser_57a15_event == old(sim).MemUser_57a15_event
                &&& final(sim)._2aa91_value == old(sim)._2aa91_value
            },
            Ok(fired) => {
                &&& fired
                &&& !slot_occupied(old(sim).array_2a959.write.q@, commit_stamp(old(sim).stamp) as usize)
                &&& final(sim).array_2a959.write.q@ == insert_by_cycle(
                    old(sim).array_2a959.write.q@,
                    (ArrayWrite {
                        cycle: commit_stamp(old(sim).stamp) as usize,
                        addr: 0,
                        data: (old(sim).array_2a959.payload@[0] + 1) as i32,
                        pusher: "Driver",
                    }),
                )
                &&& final(sim)._2aa91_value == Some(
                    old(sim).array_2a959.payload@[0] as u32,
                )
                &&& final(sim).MemUser_57a15_event@ == if !driver_bit0(
                    old(sim).array_2a959.payload@[0],
                ) {
                    old(sim).MemUser_57a15_event@.push(
                        next_activation_stamp(old(sim).stamp) as usize,
                    )
                } else {
                    old(sim).MemUser_57a15_event@
                }
            },
        },
{
    // Read the committed cycle count.
    let _2a961: i32 = sim.array_2a959.payload[0];
    let _2a969: bool = {
        let a = ValueCastTo::<u64>::cast(&_2a961);
        let res = a & 1;
        ValueCastTo::<bool>::cast(&res)
    };
    sim._2a969_value = Some(_2a969);
    let _2a991 = !_2a969;
    sim._2a991_value = Some(_2a991);
    let _2a9b5: i32 = ValueCastTo::<i32>::cast(&_2a961) + 1;
    let _2a9cd: u16 = {
        let a = ValueCastTo::<u64>::cast(&_2a9b5);
        let res = a & 0x1ff;
        ValueCastTo::<u16>::cast(&res)
    };
    let _2a9f5: u16 = {
        let a = ValueCastTo::<u64>::cast(&_2a961);
        let res = a & 0x1ff;
        ValueCastTo::<u16>::cast(&res)
    };
    let _2aa21: u16 = if _2a969 {
        _2a9cd
    } else {
        _2a9f5
    };
    let _2aa41 = ValueCastTo::<i16>::cast(&_2aa21);
    sim._2aa41_value = Some(_2aa41);
    {
        // Schedule the incremented cycle count for the commit offset.
        let stamp = sim.stamp - sim.stamp % 100 + 50;
        match sim.array_2a959.write.push(ArrayWrite::new(stamp, 0, _2a9b5, "Driver")) {
            Err(c) => {
                return Err(SimError::Schedule(c));
            },
            Ok(()) => {},
        }
    }
    let _2aa91 = ValueCastTo::<u32>::cast(&_2a961);
    sim._2aa91_value = Some(_2aa91);
    if _2a991 {
        // A read step: the memory user gets an activation next cycle.
        let stamp = sim.stamp - sim.stamp % 100 + 100;
        sim.MemUser_57a15_event.push_back(stamp);
    }
    Ok(true)
}

/// A request to the external memory subsystem.
#[derive(Clone, Copy, Debug, PartialEq, Eq, Structural)]
pub struct MemRequest {
    pub addr: i64,
    pub is_write: bool,
}

/// What the memory module still has to do after an issued request.
#[derive(Clone, Copy, Debug, PartialEq, Eq, Structural)]
pub enum SramCont {
    /// A write request is in flight; on acceptance the write is committed to
    /// the data array and the read phase follows.
    AfterWrite { addr: i64, data: u32 },
    /// A read request is in flight; its acceptance decides the fired signal.
    AfterRead,
}

/// One step of the memory module's evaluation: either a request the caller
/// must issue before resuming, or the finished step's fired signal.
#[derive(Clone, Copy, Debug, PartialEq, Eq, Structural)]
pub enum SramPhase {
    Issue { req: MemRequest, cont: SramCont },
    Done { fired: bool },
}

/// How many outside interactions a phase can still require; each resumption
/// strictly decreases it.
pub open spec fn sram_phase_rank(p: SramPhase) -> int {
    match p {
        SramPhase::Done { .. } => 0,
        SramPhase::Issue { cont: SramCont::AfterRead, .. } => 1,
        SramPhase::Issue { cont: SramCont::AfterWrite { .. }, .. } => 2,
    }
}

/// The read phase of the memory module's evaluation.
pub open spec fn sram_read_phase(sim: Simulator) -> SramPhase {
    match sim._2a991_value {
        Some(re) => if re {
            match sim._2aa41_value {
                Some(a) => SramPhase::Issue {
                    req: MemRequest { addr: a as i64, is_write: false },
                    cont: SramCont::AfterRead,
                },
                None => SramPhase::Done { fired: false },
            }
        } else {
            SramPhase::Done { fired: true }
        },
        None => SramPhase::Done { fired: true },
    }
}

/// The first phase of the memory module's evaluation: a write request when
/// this step's write-enable and inputs are present, else the read phase.
pub open spec fn sram_begin_phase(sim: Simulator) -> SramPhase {
    match sim._2a969_value {
        Some(we) => if we {
            match sim._2aa41_value {
                None => SramPhase::Done { fired: false },
                Some(a) => match sim._2aa91_value {
                    None => SramPhase::Done { fired: false },
                    Some(d) => SramPhase::Issue {
                        req: MemRequest { addr: a as i64, is_write: true },
                        cont: SramCont::AfterWrite { addr: a as i64, data: d },
                    },
                },
            }
        } else {
            sram_read_phase(sim)
        },
        None => sram_read_phase(sim),
    }
}

/// Starts the memory module's evaluation.  Reads only intermediate values:
/// the caller issues the returned request, if any, and resumes with its
/// acceptance flag.
pub fn SRAM_2a9ed_begin(sim: &Simulator) -> (r: SramPhase)
    ensures
        r == sram_begin_phase(*sim),
{
    match sim._2a969_value {
        Some(we) => {
            if we {
                match sim._2aa41_value {
                    None => {
                        return SramPhase::Done { fired: false };
                    },
                    Some(a) => {
                        match sim._2aa91_value {
                            None => {
                                return SramPhase::Done { fired: false };
                            },
                            Some(d) => {
                                return SramPhase::Issue {
                                    req: MemRequest { addr: a as i64, is_write: true },
                                    cont: SramCont::AfterWrite { addr: a as i64, data: d },
                                };
                            },
                        }
                    },
                }
            } else {
                sram_read_exec(sim)
            }
        },
        None => sram_read_exec(sim),
    }
}

/// The read phase of the memory module's evaluation.
fn sram_read_exec(sim: &Simulator) -> (r: SramPhase)
    ensures
        r == sram_read_phase(*sim),
{
    match sim._2a991_value {
        Some(re) => {
            if re {
                match sim._2aa41_value {
                    Some(a) => SramPhase::Issue {
                        req: MemRequest { addr: a as i64, is_write: false },
                        cont: SramCont::AfterRead,
                    },
                    None => SramPhase::Done { fired: false },
                }
            } else {
                SramPhase::Done { fired: true }
            }
        },
        None => SramPhase::Done { fired: true },
    }
}

/// Resumes the memory module after the caller issued a request.
///
/// An accepted write is committed by scheduling it on the data array for this
/// step's commit offset, after which the read phase follows; a rejected
/// request mutates nothing — the module simply does not fire and is retried
/// on a later activation.  A read's acceptance is the fired signal.  A write
/// whose address falls outside the data array, or whose commit slot is
/// occupied, is a fatal error.
pub fn SRAM_2a9ed_resume(sim: &mut Simulator, cont: SramCont, accepted: bool) -> (r: Result<
    SramPhase,
    SimError,
>)
    requires
        old(sim).wf(),
        old(sim).stamp + 50 <= usize::MAX,
    ensures
        final(sim).wf(),
        final(sim).stamp == old(sim).stamp,
        final(sim).array_2a959 == old(sim).array_2a959,
        final(sim).array_2aa85.payload == old(sim).array_2aa85.payload,
        final(sim).MemUser_57a15_triggered == old(sim).MemUser_57a15_triggered,
        final(sim).MemUser_57a15_event == old(sim).MemUser_57a15_event,
        final(sim).MemUser_57a15_rdata == old(sim).MemUser_57a15_rdata,
        final(sim).Driver_triggered == old(sim).Driver_triggered,
        final(sim).Driver_event == old(sim).Driver_event,
        final(sim).SRAM_2a9ed_triggered == old(sim).SRAM_2a9ed_triggered,
        final(sim)._2a969_value == old(sim)._2a969_value,
        final(sim)._2aa41_value == old(sim)._2aa41_value,
        final(sim)._2a991_value == old(sim)._2a991_value,
        final(sim)._2aa91_value == old(sim)._2aa91_value,
        match r {
            Ok(p) => sram_phase_rank(p) < sram_phase_rank(
                SramPhase::Issue { req: MemRequest { addr: 0, is_write: true }, cont },
            ),
            Err(_) => true,
        },
        cont is AfterRead ==> r == Ok::<_, SimError>(SramPhase::Done { fired: accepted })
            && *final(sim) == *old(sim),
        cont matches SramCont::AfterWrite { addr, data } ==> (if !accepted {
            r == Ok::<_, SimError>(SramPhase::Done { fired: false }) && *final(sim) == *old(sim)
        } else if addr < 0 || addr >= old(sim).array_2aa85.payload@.len() {
            r == Err::<SramPhase, _>(SimError::BadAddress { addr }) && *final(sim) == *old(sim)
        } else if slot_occupied(
            old(sim).array_2aa85.write.q@,
            commit_stamp(old(sim).stamp) as usize,
        ) {
            (r matches Err(e) && e is Schedule) && *final(sim) == *old(sim)
        } else {
            r == Ok::<_, SimError>(sram_read_phase(*old(sim))) && final(sim).stamp == old(
                sim,
            ).stamp && final(sim).array_2aa85.write.q@ == insert_by_cycle(
                old(sim).array_2aa85.write.q@,
                (ArrayWrite {
                    cycle: commit_stamp(old(sim).stamp) as usize,
                    addr: addr as usize,
                    data,
                    pusher: "SRAM_2a9ed",
                }),
            )
        }),
{
    match cont {
        SramCont::AfterRead => Ok(SramPhase::Done { fired: accepted }),
        SramCont::AfterWrite { addr, data } => {
            if !accepted {
                // Back-pressure: nothing is mutated on a rejection; the step
                // is simply not fired and will be retried.
                Ok(SramPhase::Done { fired: false })
            } else {
                if addr < 0 || addr as u64 >= sim.array_2aa85.payload.len() as u64 {
                    return Err(SimError::BadAddress { addr });
                }
                let stamp = sim.stamp - sim.stamp % 100 + 50;
                match sim.array_2aa85.write.push(
                    ArrayWrite::new(stamp, addr as usize, data, "SRAM_2a9ed"),
                ) {
                    Err(c) => Err(SimError::Schedule(c)),
                    Ok(()) => Ok(sram_read_exec(sim)),
                }
            }
        },
    }
}

} // verus!

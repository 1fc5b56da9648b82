//! Simulation state and the per-cycle evaluation loop.
//!
//! A [`Simulator`] owns the register arrays, the read-data FIFO, the current
//! timestamp, and the per-step trigger flags and intermediate values.  One
//! full cycle spans 100 raw timestamps: logic evaluates at offset 0, scheduled
//! state commits at offset 50.
//!
//! The external memory subsystem is consumed through a narrow interface: the
//! memory module issues requests ([`SRAM_2a9ed_begin`]), and
//! each completed request re-enters the timeline as a completion record
//! ([`Simulator::apply_completion`]) that schedules a FIFO push.  A fully
//! deterministic run against a scripted bridge is provided by
//! [`run_scripted`]; a run against the real subsystem drives the same
//! per-phase functions from outside.

use vstd::prelude::*;
use crate::modules::{commit_stamp, driver_bit0, driver_sram_addr, next_activation_stamp,
    sram_begin_phase, sram_read_phase, Driver, MemUser_57a15, SramCont, SramPhase,
    SRAM_2a9ed_begin, SRAM_2a9ed_resume};

use crate::storage::FIFOPop;
use crate::queue::{insert_by_cycle, slot_occupied, Conflict};
use crate::storage::{array_ticked, fifo_ticked, Array, ArrayWrite, FIFOPush, FIFO};
use std::collections::VecDeque;

verus! {

/// A fatal simulation error; the run aborts.
#[derive(Clone, Copy, Debug)]
pub enum SimError {
    /// Two producers scheduled into the same slot of one event queue.
    Schedule(Conflict),
    /// A request or completion named an address outside the data array.
    BadAddress { addr: i64 },
    /// A completion's target timestamp does not fit the timestamp type.
    StampOverflow,
}

/// The simulation state: storage, timestamp, per-step trigger flags, pending
/// activations, and the intermediate values flowing between modules within
/// one step (`None` means "not produced yet this step").
pub struct Simulator {
    pub stamp: usize,
    /// The cycle register (one cell).
    pub array_2a959: Array<i32>,
    /// The data array backing the memory module.
    pub array_2aa85: Array<u32>,
    pub MemUser_57a15_triggered: bool,
    pub MemUser_57a15_event: VecDeque<usize>,
    /// Read data returned by the memory subsystem, consumed by the memory user.
    pub MemUser_57a15_rdata: FIFO<u32>,
    pub Driver_triggered: bool,
    pub Driver_event: VecDeque<usize>,
    pub SRAM_2a9ed_triggered: bool,
    pub _2a969_value: Option<bool>,
    pub _2aa41_value: Option<i16>,
    pub _2a991_value: Option<bool>,
    pub _2aa91_value: Option<u32>,
}

/// True when the front pending activation of `events` is due at `stamp`.
pub open spec fn activation_due(events: Seq<usize>, stamp: usize) -> bool {
    events.len() > 0 && events[0] <= stamp
}

/// How one memory-user dispatch relates the state after (`post`) to the state
/// before (`pre`), with its result `r`: with no due activation nothing runs;
/// an occupied pop slot is fatal and mutates nothing; otherwise a pop is
/// scheduled for the commit offset and the module fires exactly when read
/// data was present, a firing consuming the activation.
pub open spec fn memuser_dispatched(pre: Simulator, post: Simulator, r: Result<
    (),
    SimError,
>) -> bool {
    if !activation_due(pre.MemUser_57a15_event@, pre.stamp) {
        r == Ok::<(), SimError>(()) && post == pre
    } else if crate::queue::slot_occupied(
        pre.MemUser_57a15_rdata.pop.q@,
        commit_stamp(pre.stamp) as usize,
    ) {
        (r matches Err(e) && e is Schedule) && post == pre
    } else {
        let fired = pre.MemUser_57a15_rdata.payload@.len() > 0;
        &&& r == Ok::<(), SimError>(())
        &&& post.MemUser_57a15_triggered == fired
        &&& post.MemUser_57a15_event@ == if fired {
            pre.MemUser_57a15_event@.drop_first()
        } else {
            pre.MemUser_57a15_event@
        }
        &&& post.MemUser_57a15_rdata.pop.q@ == insert_by_cycle(
            pre.MemUser_57a15_rdata.pop.q@,
            (FIFOPop { cycle: commit_stamp(pre.stamp) as usize, pusher: "MemUser_57a15" }),
        )
        &&& post.MemUser_57a15_rdata.payload == pre.MemUser_57a15_rdata.payload
        &&& post.MemUser_57a15_rdata.push == pre.MemUser_57a15_rdata.push
        &&& post.stamp == pre.stamp
        &&& post.array_2a959 == pre.array_2a959
        &&& post.array_2aa85 == pre.array_2aa85
        &&& post.Driver_triggered == pre.Driver_triggered
        &&& post.Driver_event == pre.Driver_event
        &&& post.SRAM_2a9ed_triggered == pre.SRAM_2a9ed_triggered
        &&& post._2a969_value == pre._2a969_value
        &&& post._2aa41_value == pre._2aa41_value
        &&& post._2a991_value == pre._2a991_value
        &&& post._2aa91_value == pre._2aa91_value
    }
}

/// How one driver dispatch relates the state after to the state before: with
/// no due activation nothing runs; an occupied commit slot on the cycle
/// register is fatal (the enables and address were already produced);
/// otherwise the driver fires, consuming its activation, scheduling the
/// incremented cycle count, and on a read step queueing the memory user's
/// next activation.
pub open spec fn driver_dispatched(pre: Simulator, post: Simulator, r: Result<
    (),
    SimError,
>) -> bool {
    let c = pre.array_2a959.payload@[0];
    if !activation_due(pre.Driver_event@, pre.stamp) {
        r == Ok::<(), SimError>(()) && post == pre
    } else if crate::queue::slot_occupied(
        pre.array_2a959.write.q@,
        commit_stamp(pre.stamp) as usize,
    ) {
        &&& r matches Err(e) && e is Schedule
        &&& post._2a969_value == Some(driver_bit0(c))
        &&& post._2a991_value == Some(!driver_bit0(c))
        &&& post._2aa41_value == Some(driver_sram_addr(c))
        &&& post._2aa91_value == pre._2aa91_value
        &&& post.stamp == pre.stamp
        &&& post.array_2a959 == pre.array_2a959
        &&& post.array_2aa85 == pre.array_2aa85
        &&& post.MemUser_57a15_triggered == pre.MemUser_57a15_triggered
        &&& post.MemUser_57a15_event == pre.MemUser_57a15_event
        &&& post.MemUser_57a15_rdata == pre.MemUser_57a15_rdata
        &&& post.Driver_triggered == pre.Driver_triggered
        &&& post.Driver_event == pre.Driver_event
        &&& post.SRAM_2a9ed_triggered == pre.SRAM_2a9ed_triggered
    } else {
        &&& r == Ok::<(), SimError>(())
        &&& post.Driver_triggered == true
        &&& post.Driver_event@ == pre.Driver_event@.drop_first()
        &&& post._2a969_value == Some(driver_bit0(c))
        &&& post._2a991_value == Some(!driver_bit0(c))
        &&& post._2aa41_value == Some(driver_sram_addr(c))
        &&& post._2aa91_value == Some(c as u32)
        &&& post.array_2a959.payload == pre.array_2a959.payload
        &&& post.array_2a959.write.q@ == insert_by_cycle(
            pre.array_2a959.write.q@,
            (ArrayWrite {
                cycle: commit_stamp(pre.stamp) as usize,
                addr: 0,
                data: (c + 1) as i32,
                pusher: "Driver",
            }),
        )
        &&& post.MemUser_57a15_event@ == if !driver_bit0(c) {
            pre.MemUser_57a15_event@.push(next_activation_stamp(pre.stamp) as usize)
        } else {
            pre.MemUser_57a15_event@
        }
        &&& post.stamp == pre.stamp
        &&& post.array_2aa85 == pre.array_2aa85
        &&& post.MemUser_57a15_triggered == pre.MemUser_57a15_triggered
        &&& post.MemUser_57a15_rdata == pre.MemUser_57a15_rdata
        &&& post.SRAM_2a9ed_triggered == pre.SRAM_2a9ed_triggered
    }
}

/// `post` is `pre` with only the memory module's triggered flag set.
pub open spec fn sram_flag_updated(pre: Simulator, post: Simulator, fired: bool) -> bool {
    &&& post.SRAM_2a9ed_triggered == fired
    &&& post.stamp == pre.stamp
    &&& post.array_2a959 == pre.array_2a959
    &&& post.array_2aa85 == pre.array_2aa85
    &&& post.MemUser_57a15_triggered == pre.MemUser_57a15_triggered
    &&& post.MemUser_57a15_event == pre.MemUser_57a15_event
    &&& post.MemUser_57a15_rdata == pre.MemUser_57a15_rdata
    &&& post.Driver_triggered == pre.Driver_triggered
    &&& post.Driver_event == pre.Driver_event
    &&& post._2a969_value == pre._2a969_value
    &&& post._2aa41_value == pre._2aa41_value
    &&& post._2a991_value == pre._2a991_value
    &&& post._2aa91_value == pre._2aa91_value
}

/// `post` is `pre` with the accepted write scheduled on the data array for
/// the commit offset and the memory module's triggered flag set.
pub open spec fn sram_write_scheduled(
    pre: Simulator,
    post: Simulator,
    addr: i64,
    data: u32,
    fired: bool,
) -> bool {
    &&& post.SRAM_2a9ed_triggered == fired
    &&& post.array_2aa85.payload == pre.array_2aa85.payload
    &&& post.array_2aa85.write.q@ == insert_by_cycle(
        pre.array_2aa85.write.q@,
        (ArrayWrite {
            cycle: commit_stamp(pre.stamp) as usize,
            addr: addr as usize,
            data,
            pusher: "SRAM_2a9ed",
        }),
    )
    &&& post.stamp == pre.stamp
    &&& post.array_2a959 == pre.array_2a959
    &&& post.MemUser_57a15_triggered == pre.MemUser_57a15_triggered
    &&& post.MemUser_57a15_event == pre.MemUser_57a15_event
    &&& post.MemUser_57a15_rdata == pre.MemUser_57a15_rdata
    &&& post.Driver_triggered == pre.Driver_triggered
    &&& post.Driver_event == pre.Driver_event
    &&& post._2a969_value == pre._2a969_value
    &&& post._2aa41_value == pre._2aa41_value
    &&& post._2a991_value == pre._2a991_value
    &&& post._2aa91_value == pre._2aa91_value
}

/// How one memory-module dispatch relates the state after to the state
/// before, with the bridge's acceptance queue before (`acc_pre`) and after
/// (`acc_post`): the first phase may issue a write whose acceptance commits
/// it and leads to the read phase, a rejection leaves the state untouched
/// (not fired, retried later), and a read's acceptance is the fired signal.
/// Each issued request consumes one acceptance flag (an exhausted queue
/// accepts).
pub open spec fn sram_dispatched(
    pre: Simulator,
    post: Simulator,
    acc_pre: Seq<bool>,
    acc_post: Seq<bool>,
    r: Result<(), SimError>,
) -> bool {
    match sram_begin_phase(pre) {
        SramPhase::Done { fired } => r == Ok::<(), SimError>(()) && sram_flag_updated(
            pre,
            post,
            fired,
        ) && acc_post == acc_pre,
        SramPhase::Issue { req: _, cont } => {
            let acc1 = if acc_pre.len() > 0 {
                acc_pre[0]
            } else {
                true
            };
            let acc_rest = if acc_pre.len() > 0 {
                acc_pre.drop_first()
            } else {
                acc_pre
            };
            match cont {
                SramCont::AfterRead => r == Ok::<(), SimError>(()) && sram_flag_updated(
                    pre,
                    post,
                    acc1,
                ) && acc_post == acc_rest,
                SramCont::AfterWrite { addr, data } => {
                    if !acc1 {
                        r == Ok::<(), SimError>(()) && sram_flag_updated(pre, post, false)
                            && acc_post == acc_rest
                    } else if addr < 0 || addr >= pre.array_2aa85.payload@.len() {
                        r == Err::<(), SimError>(SimError::BadAddress { addr }) && post == pre
                            && acc_post == acc_rest
                    } else if crate::queue::slot_occupied(
                        pre.array_2aa85.write.q@,
                        commit_stamp(pre.stamp) as usize,
                    ) {
                        (r matches Err(e) && e is Schedule) && post == pre && acc_post
                            == acc_rest
                    } else {
                        match sram_read_phase(pre) {
                            SramPhase::Done { fired } => r == Ok::<(), SimError>(())
                                && sram_write_scheduled(pre, post, addr, data, fired)
                                && acc_post == acc_rest,
                            SramPhase::Issue { .. } => {
                                let acc2 = if acc_rest.len() > 0 {
                                    acc_rest[0]
                                } else {
                                    true
                                };
                                let acc_rest2 = if acc_rest.len() > 0 {
                                    acc_rest.drop_first()
                                } else {
                                    acc_rest
                                };
                                r == Ok::<(), SimError>(()) && sram_write_scheduled(
                                    pre,
                                    post,
                                    addr,
                                    data,
                                    acc2,
                                ) && acc_post == acc_rest2
                            },
                        }
                    }
                },
            }
        },
    }
}

impl Simulator {
    /// The state invariant: every event queue is well formed and every
    /// scheduled array write is in range.
    pub open spec fn wf(&self) -> bool {
        &&& self.array_2a959.wf()
        &&& self.array_2aa85.wf()
        &&& self.MemUser_57a15_rdata.wf()
    }

    /// A fresh simulation: timestamp 0, a one-cell cycle register and a
    /// 512-cell data array (all zero), empty FIFO and activation queues,
    /// nothing triggered, no intermediate values.
    pub fn new() -> (r: Self)
        ensures
            r.stamp == 0,
            r.array_2a959.payload@.len() == 1,
            r.array_2a959.payload@[0] == 0i32,
            r.array_2a959.write.q@.len() == 0,
            r.array_2aa85.payload@.len() == 512,
            forall|i: int| 0 <= i < 512 ==> r.array_2aa85.payload@[i] == 0u32,
            r.array_2aa85.write.q@.len() == 0,
            r.MemUser_57a15_triggered == false,
            r.MemUser_57a15_event@.len() == 0,
            r.MemUser_57a15_rdata.payload@.len() == 0,
            r.MemUser_57a15_rdata.push.q@.len() == 0,
            r.MemUser_57a15_rdata.pop.q@.len() == 0,
            r.Driver_triggered == false,
            r.Driver_event@.len() == 0,
            r.SRAM_2a9ed_triggered == false,
            r._2a969_value is None,
            r._2aa41_value is None,
            r._2a991_value is None,
            r._2aa91_value is None,
            r.wf(),
    {
        let mut cycle_cells: Vec<i32> = Vec::new();
        cycle_cells.push(0);
        let mut data_cells: Vec<u32> = Vec::new();
        let mut i: usize = 0;
        while i < 512
            invariant
                i <= 512,
                data_cells@.len() == i,
                forall|k: int| 0 <= k < i ==> data_cells@[k] == 0u32,
            decreases 512 - i,
        {
            data_cells.push(0);
            i = i + 1;
        }
        Simulator {
            stamp: 0,
            array_2a959: Array::new_with_init(cycle_cells),
            array_2aa85: Array::new_with_init(data_cells),
            MemUser_57a15_triggered: false,
            MemUser_57a15_event: VecDeque::new(),
            MemUser_57a15_rdata: FIFO::new(),
            Driver_triggered: false,
            Driver_event: VecDeque::new(),
            SRAM_2a9ed_triggered: false,
            _2a969_value: None,
            _2aa41_value: None,
            _2a991_value: None,
            _2aa91_value: None,
        }
    }

    /// True when the front pending activation of `event` is due.
    fn event_valid(&self, event: &VecDeque<usize>) -> (r: bool)
        ensures
            r == (event@.len() > 0 && event@[0] <= self.stamp),
    {
        if event.len() > 0 {
            event[0] <= self.stamp
        } else {
            false
        }
    }

    /// Clears every per-step trigger flag and intermediate value: nothing
    /// produced in an earlier step may leak into the next one.
    pub fn reset_downstream(&mut self)
        ensures
            final(self).MemUser_57a15_triggered == false,
            final(self).Driver_triggered == false,
            final(self).SRAM_2a9ed_triggered == false,
            final(self)._2a969_value is None,
            final(self)._2aa41_value is None,
            final(self)._2a991_value is None,
            final(self)._2aa91_value is None,
            final(self).stamp == old(self).stamp,
            final(self).array_2a959 == old(self).array_2a959,
            final(self).array_2aa85 == old(self).array_2aa85,
            final(self).MemUser_57a15_event == old(self).MemUser_57a15_event,
            final(self).MemUser_57a15_rdata == old(self).MemUser_57a15_rdata,
            final(self).Driver_event == old(self).Driver_event,
    {
        self.MemUser_57a15_triggered = false;
        self.Driver_triggered = false;
        self.SRAM_2a9ed_triggered = false;
        self._2a969_value = None;
        self._2aa41_value = None;
        self._2a991_value = None;
        self._2aa91_value = None;
    }

    /// The commit phase: commits at most one due event on each storage
    /// element, exactly once per step.
    pub fn tick_registers(&mut self)
        requires
            old(self).wf(),
        ensures
            final(self).wf(),
            array_ticked(old(self).array_2a959, final(self).array_2a959, old(self).stamp),
            array_ticked(old(self).array_2aa85, final(self).array_2aa85, old(self).stamp),
            fifo_ticked(
                old(self).MemUser_57a15_rdata,
                final(self).MemUser_57a15_rdata,
                old(self).stamp,
            ),
            final(self).stamp == old(self).stamp,
            final(self).MemUser_57a15_triggered == old(self).MemUser_57a15_triggered,
            final(self).MemUser_57a15_event == old(self).MemUser_57a15_event,
            final(self).Driver_triggered == old(self).Driver_triggered,
            final(self).Driver_event == old(self).Driver_event,
            final(self).SRAM_2a9ed_triggered == old(self).SRAM_2a9ed_triggered,
            final(self)._2a969_value == old(self)._2a969_value,
            final(self)._2aa41_value == old(self)._2aa41_value,
            final(self)._2a991_value == old(self)._2a991_value,
            final(self)._2aa91_value == old(self)._2aa91_value,
    {
        let now = self.stamp;
        self.array_2a959.tick(now);
        self.array_2aa85.tick(now);
        self.MemUser_57a15_rdata.tick(now);
    }


    /// Evaluates the memory user if its next pending activation is due; a
    /// firing consumes the activation.  Sets the module's triggered flag.
    pub fn simulate_MemUser_57a15(&mut self) -> (r: Result<(), SimError>)
        requires
            old(self).wf(),
            old(self).stamp + 50 <= usize::MAX,
        ensures
            final(self).wf(),
            memuser_dispatched(*old(self), *final(self), r),
    {
        if self.event_valid(&self.MemUser_57a15_event) {
            match MemUser_57a15(self) {
                Err(e) => {
                    return Err(e);
                },
                Ok(opt) => {
                    let succ = opt.is_some();
                    if succ {
                        let _consumed = self.MemUser_57a15_event.pop_front();
                    }
                    self.MemUser_57a15_triggered = succ;
                },
            }
        }
        Ok(())
    }

    /// Evaluates the driver if its next pending activation is due; a firing
    /// consumes the activation.  Sets the module's triggered flag.
    pub fn simulate_Driver(&mut self) -> (r: Result<(), SimError>)
        requires
            old(self).wf(),
            old(self).array_2a959.payload@.len() >= 1,
            old(self).array_2a959.payload@[0] < i32::MAX,
            old(self).stamp + 100 <= usize::MAX,
        ensures
            final(self).wf(),
            driver_dispatched(*old(self), *final(self), r),
    {
        if self.event_valid(&self.Driver_event) {
            match Driver(self) {
                Err(e) => {
                    return Err(e);
                },
                Ok(succ) => {
                    if succ {
                        let _consumed = self.Driver_event.pop_front();
                    } else {
                        self._2a969_value = None;
                        self._2aa41_value = None;
                        self._2a991_value = None;
                        self._2aa91_value = None;
                    }
                    self.Driver_triggered = succ;
                },
            }
        }
        Ok(())
    }

    /// Evaluates the memory module, issuing its requests (at most a write and
    /// then a read) against the scripted bridge and resuming with each
    /// acceptance flag.  Sets the module's triggered flag from the final
    /// fired signal.
    pub fn simulate_SRAM_2a9ed(&mut self, script: &mut BridgeScript) -> (r: Result<(), SimError>)
        requires
            old(self).wf(),
            old(self).stamp + 50 <= usize::MAX,
        ensures
            final(self).wf(),
            sram_dispatched(
                *old(self),
                *final(self),
                old(script).accepts@,
                final(script).accepts@,
                r,
            ),
            final(script).completions == old(script).completions,
    {
        match SRAM_2a9ed_begin(self) {
            SramPhase::Done { fired } => {
                self.SRAM_2a9ed_triggered = fired;
                Ok(())
            },
            SramPhase::Issue { req: _, cont } => {
                let accepted = script.next_accept();
                match SRAM_2a9ed_resume(self, cont, accepted) {
                    Err(e) => Err(e),
                    Ok(p1) => match p1 {
                        SramPhase::Done { fired } => {
                            self.SRAM_2a9ed_triggered = fired;
                            Ok(())
                        },
                        SramPhase::Issue { req: _, cont: cont2 } => {
                            let accepted2 = script.next_accept();
                            match SRAM_2a9ed_resume(self, cont2, accepted2) {
                                Err(e) => Err(e),
                                Ok(p2) => match p2 {
                                    SramPhase::Done { fired } => {
                                        self.SRAM_2a9ed_triggered = fired;
                                        Ok(())
                                    },
                                    SramPhase::Issue { .. } => {
                                        // A resumption strictly lowers the
                                        // phase rank, so a third request is
                                        // impossible.
                                        proof {
                                            assert(false);
                                        }
                                        Ok(())
                                    },
                                },
                            }
                        },
                    },
                }
            },
        }
    }

    /// Applies one completion reported by the memory subsystem: the request's
    /// observed latency (departure minus arrival) determines the simulation
    /// timestamp at which the addressed data-array value is pushed into the
    /// read-data FIFO.  The target timestamp is
    /// `stamp + 50 + 100 * (depart - arrive)`.
    pub fn apply_completion(&mut self, addr: i64, arrive: i64, depart: i64) -> (r: Result<
        (),
        SimError,
    >)
        requires
            old(self).wf(),
        ensures
            final(self).wf(),
            final(self).stamp == old(self).stamp,
            final(self).array_2a959 == old(self).array_2a959,
            final(self).array_2aa85 == old(self).array_2aa85,
            final(self).MemUser_57a15_triggered == old(self).MemUser_57a15_triggered,
            final(self).MemUser_57a15_event == old(self).MemUser_57a15_event,
            final(self).MemUser_57a15_rdata.payload == old(self).MemUser_57a15_rdata.payload,
            final(self).MemUser_57a15_rdata.pop == old(self).MemUser_57a15_rdata.pop,
            final(self).Driver_triggered == old(self).Driver_triggered,
            final(self).Driver_event == old(self).Driver_event,
            final(self).SRAM_2a9ed_triggered == old(self).SRAM_2a9ed_triggered,
            final(self)._2a969_value == old(self)._2a969_value,
            final(self)._2aa41_value == old(self)._2aa41_value,
            final(self)._2a991_value == old(self)._2a991_value,
            final(self)._2aa91_value == old(self)._2aa91_value,
            ({
                let target = old(self).stamp + 50 + 100 * (depart - arrive);
                if addr < 0 || addr >= old(self).array_2aa85.payload@.len() {
                    r == Err::<(), _>(SimError::BadAddress { addr }) && final(self).MemUser_57a15_rdata.push == old(self).MemUser_57a15_rdata.push
                } else if depart < arrive || target > usize::MAX {
                    r == Err::<(), _>(SimError::StampOverflow) && final(self).MemUser_57a15_rdata.push == old(self).MemUser_57a15_rdata.push
                } else if slot_occupied(
                    old(self).MemUser_57a15_rdata.push.q@,
                    target as usize,
                ) {
                    (r matches Err(e) && e is Schedule) && final(self).MemUser_57a15_rdata.push == old(self).MemUser_57a15_rdata.push
                } else {
                    r == Ok::<_, SimError>(()) && final(self).MemUser_57a15_rdata.push.q@
                        == insert_by_cycle(
                        old(self).MemUser_57a15_rdata.push.q@,
                        (FIFOPush {
                            cycle: target as usize,
                            data: old(self).array_2aa85.payload@[addr as int],
                            pusher: "SRAM_2a9ed",
                        }),
                    )
                }
            }),
    {
        if addr < 0 || addr as u64 >= self.array_2aa85.payload.len() as u64 {
            return Err(SimError::BadAddress { addr });
        }
        if depart < arrive {
            return Err(SimError::StampOverflow);
        }
        // The push must land at stamp + 50 + 100 * latency; reject a target
        // beyond the timestamp range instead of wrapping.
        let lat: i128 = depart as i128 - arrive as i128;
        let target_wide: u128 = self.stamp as u128 + 50 + 100 * (lat as u128);
        if target_wide > usize::MAX as u128 {
            return Err(SimError::StampOverflow);
        }
        let target = target_wide as usize;
        let data: u32 = self.array_2aa85.payload[addr as usize];
        match self.MemUser_57a15_rdata.push.push(FIFOPush::new(target, data, "SRAM_2a9ed")) {
            Err(c) => Err(SimError::Schedule(c)),
            Ok(()) => Ok(()),
        }
    }
}

/// The idle counter after one cycle: any firing resets it, an idle cycle
/// advances it.
pub open spec fn idle_next(count: int, fired: bool) -> int {
    if fired {
        0
    } else {
        count + 1
    }
}

/// The idle counter after a run of cycles with the given per-cycle firing
/// flags.
pub open spec fn idle_count_after(count: int, fires: Seq<bool>) -> int
    decreases fires.len(),
{
    if fires.len() == 0 {
        count
    } else {
        idle_count_after(idle_next(count, fires[0]), fires.drop_first())
    }
}

/// The idle threshold after which a run terminates early.
pub open spec fn idle_threshold() -> int {
    200
}

/// Liveness of the idle check: across cycles in which no module fires, the
/// idle counter only grows, so any 200 consecutive idle cycles drive it to
/// the threshold and the run stops before its configured maximum.
pub proof fn lemma_idle_threshold_reached(count: int, fires: Seq<bool>)
    requires
        count >= 0,
        forall|i: int| 0 <= i < fires.len() ==> !fires[i],
    ensures
        idle_count_after(count, fires) == count + fires.len(),
        fires.len() >= idle_threshold() ==> idle_count_after(count, fires) >= idle_threshold(),
    decreases fires.len(),
{
    if fires.len() > 0 {
        assert(forall|i: int| 0 <= i < fires.drop_first().len() ==> fires.drop_first()[i]
            == fires[i + 1]);
        lemma_idle_threshold_reached(count + 1, fires.drop_first());
    }
}

/// How a run ended.
#[derive(Clone, Copy, Debug, PartialEq, Eq, Structural)]
pub enum RunOutcome {
    /// The configured maximum cycle count was reached.
    Completed,
    /// No module fired for [`idle_threshold`] consecutive cycles; the run
    /// stopped early at the given cycle.
    IdleStopped { cycle: usize },
}

/// One completion the scripted bridge reports, during the bridge-advance
/// phase of the given cycle.
#[derive(Clone, Copy, Debug, PartialEq, Eq, Structural)]
pub struct ScriptedCompletion {
    pub cycle: usize,
    pub addr: i64,
    pub arrive: i64,
    pub depart: i64,
}

/// A deterministic stand-in for the external memory subsystem: a queue of
/// acceptance flags, consumed one per issued request (an exhausted queue
/// accepts everything), and completions delivered at given cycles, in order.
pub struct BridgeScript {
    pub accepts: VecDeque<bool>,
    pub completions: VecDeque<ScriptedCompletion>,
}

impl BridgeScript {
    /// A bridge that accepts every request and reports the given completions.
    pub fn new(completions: VecDeque<ScriptedCompletion>) -> (r: Self)
        ensures
            r.accepts@.len() == 0,
            r.completions@ == completions@,
    {
        BridgeScript { accepts: VecDeque::new(), completions }
    }

    /// The acceptance flag for the next issued request.
    fn next_accept(&mut self) -> (r: bool)
        ensures
            if old(self).accepts@.len() > 0 {
                r == old(self).accepts@[0] && final(self).accepts@ == old(self).accepts@.drop_first()
            } else {
                r == true && final(self).accepts@ == old(self).accepts@
            },
            final(self).completions == old(self).completions,
    {
        match self.accepts.pop_front() {
            Some(a) => a,
            None => true,
        }
    }
}

/// Queues the driver's first `n` activations, one per cycle: cycle `k` (for
/// `k` in 1..=n) activates at raw timestamp `100 * k`.
pub fn prefill_driver_events(sim: &mut Simulator, n: usize)
    requires
        100 * n <= usize::MAX,
    ensures
        final(sim).Driver_event@.len() == old(sim).Driver_event@.len() + n,
        forall|k: int|
            0 <= k < old(sim).Driver_event@.len() ==> final(sim).Driver_event@[k] == old(sim).Driver_event@[k],
        forall|k: int|
            0 <= k < n ==> #[trigger] final(sim).Driver_event@[old(sim).Driver_event@.len() + k]
                == 100 * (k + 1),
        final(sim).stamp == old(sim).stamp,
        final(sim).array_2a959 == old(sim).array_2a959,
        final(sim).array_2aa85 == old(sim).array_2aa85,
        final(sim).MemUser_57a15_triggered == old(sim).MemUser_57a15_triggered,
        final(sim).MemUser_57a15_event == old(sim).MemUser_57a15_event,
        final(sim).MemUser_57a15_rdata == old(sim).MemUser_57a15_rdata,
        final(sim).Driver_triggered == old(sim).Driver_triggered,
        final(sim).SRAM_2a9ed_triggered == old(sim).SRAM_2a9ed_triggered,
        final(sim)._2a969_value == old(sim)._2a969_value,
        final(sim)._2aa41_value == old(sim)._2aa41_value,
        final(sim)._2a991_value == old(sim)._2a991_value,
        final(sim)._2aa91_value == old(sim)._2aa91_value,
    {
    let mut i: usize = 1;
    while i <= n
        invariant
            1 <= i <= n + 1,
            100 * n <= usize::MAX,
            sim.Driver_event@.len() == old(sim).Driver_event@.len() + i - 1,
            forall|k: int|
                0 <= k < old(sim).Driver_event@.len() ==> sim.Driver_event@[k] == old(sim).Driver_event@[k],
            forall|k: int|
                0 <= k < i - 1 ==> #[trigger] sim.Driver_event@[old(sim).Driver_event@.len() + k]
                    == 100 * (k + 1),
            sim.stamp == old(sim).stamp,
            sim.array_2a959 == old(sim).array_2a959,
            sim.array_2aa85 == old(sim).array_2aa85,
            sim.MemUser_57a15_triggered == old(sim).MemUser_57a15_triggered,
            sim.MemUser_57a15_event == old(sim).MemUser_57a15_event,
            sim.MemUser_57a15_rdata == old(sim).MemUser_57a15_rdata,
            sim.Driver_triggered == old(sim).Driver_triggered,
            sim.SRAM_2a9ed_triggered == old(sim).SRAM_2a9ed_triggered,
            sim._2a969_value == old(sim)._2a969_value,
            sim._2aa41_value == old(sim)._2aa41_value,
            sim._2a991_value == old(sim)._2a991_value,
            sim._2aa91_value == old(sim)._2aa91_value,
        decreases n + 1 - i,
    {
        sim.Driver_event.push_back(100 * i);
        i = i + 1;
    }
}


/// How applying one completion record relates the state after to the state
/// before, with its result (the conditions of
/// [`Simulator::apply_completion`], over the record's fields).
pub open spec fn completion_applied(
    pre: Simulator,
    post: Simulator,
    c: ScriptedCompletion,
    r: Result<(), SimError>,
) -> bool {
    let target = pre.stamp + 50 + 100 * (c.depart - c.arrive);
    &&& post.stamp == pre.stamp
    &&& post.array_2a959 == pre.array_2a959
    &&& post.array_2aa85 == pre.array_2aa85
    &&& post.MemUser_57a15_triggered == pre.MemUser_57a15_triggered
    &&& post.MemUser_57a15_event == pre.MemUser_57a15_event
    &&& post.MemUser_57a15_rdata.payload == pre.MemUser_57a15_rdata.payload
    &&& post.MemUser_57a15_rdata.pop == pre.MemUser_57a15_rdata.pop
    &&& post.Driver_triggered == pre.Driver_triggered
    &&& post.Driver_event == pre.Driver_event
    &&& post.SRAM_2a9ed_triggered == pre.SRAM_2a9ed_triggered
    &&& post._2a969_value == pre._2a969_value
    &&& post._2aa41_value == pre._2aa41_value
    &&& post._2a991_value == pre._2a991_value
    &&& post._2aa91_value == pre._2aa91_value
    &&& if c.addr < 0 || c.addr >= pre.array_2aa85.payload@.len() {
        r == Err::<(), SimError>(SimError::BadAddress { addr: c.addr })
            && post.MemUser_57a15_rdata.push == pre.MemUser_57a15_rdata.push
    } else if c.depart < c.arrive || target > usize::MAX {
        r == Err::<(), SimError>(SimError::StampOverflow) && post.MemUser_57a15_rdata.push
            == pre.MemUser_57a15_rdata.push
    } else if crate::queue::slot_occupied(pre.MemUser_57a15_rdata.push.q@, target as usize) {
        (r matches Err(e) && e is Schedule) && post.MemUser_57a15_rdata.push
            == pre.MemUser_57a15_rdata.push
    } else {
        r == Ok::<(), SimError>(()) && post.MemUser_57a15_rdata.push.q@ == insert_by_cycle(
            pre.MemUser_57a15_rdata.push.q@,
            (FIFOPush {
                cycle: target as usize,
                data: pre.array_2aa85.payload@[c.addr as int],
                pusher: "SRAM_2a9ed",
            }),
        )
    }
}

/// How the bridge-advance phase of cycle `i` relates the state and the
/// pending completion queue after to those before: completions due at or
/// before cycle `i` are applied front to back, stopping at the first failure.
pub open spec fn completions_drained(
    pre: Simulator,
    post: Simulator,
    comps_pre: Seq<ScriptedCompletion>,
    comps_post: Seq<ScriptedCompletion>,
    i: int,
    r: Result<(), SimError>,
) -> bool
    decreases comps_pre.len(),
{
    if comps_pre.len() == 0 || comps_pre[0].cycle > i {
        r == Ok::<(), SimError>(()) && post == pre && comps_post == comps_pre
    } else {
        exists|mid: Simulator, r1: Result<(), SimError>|
            {
                &&& #[trigger] completion_applied(pre, mid, comps_pre[0], r1)
                &&& match r1 {
                    Err(e) => r == Err::<(), SimError>(e) && post == mid && comps_post
                        == comps_pre.drop_first(),
                    Ok(_) => completions_drained(
                        mid,
                        post,
                        comps_pre.drop_first(),
                        comps_post,
                        i,
                        r,
                    ),
                }
            }
    }
}

/// How the logic-evaluation phase of cycle `i` relates the state and the
/// acceptance queue after to those before: the timestamp moves to the
/// evaluation offset, the per-step state is cleared, and the modules run in
/// dependency order — memory user, driver, then the memory module gated on
/// the driver's firing — stopping at the first failure.
pub open spec fn eval_phase_ran(
    pre: Simulator,
    post: Simulator,
    acc_pre: Seq<bool>,
    acc_post: Seq<bool>,
    i: int,
    r: Result<(), SimError>,
) -> bool {
    let s1 = Simulator {
        stamp: (100 * i) as usize,
        MemUser_57a15_triggered: false,
        Driver_triggered: false,
        SRAM_2a9ed_triggered: false,
        _2a969_value: None,
        _2aa41_value: None,
        _2a991_value: None,
        _2aa91_value: None,
        ..pre
    };
    exists|s2: Simulator, r1: Result<(), SimError>|
        {
            &&& #[trigger] memuser_dispatched(s1, s2, r1)
            &&& match r1 {
                Err(e) => r == Err::<(), SimError>(e) && post == s2 && acc_post == acc_pre,
                Ok(_) => exists|s3: Simulator, r2: Result<(), SimError>|
                    {
                        &&& #[trigger] driver_dispatched(s2, s3, r2)
                        &&& match r2 {
                            Err(e) => r == Err::<(), SimError>(e) && post == s3 && acc_post
                                == acc_pre,
                            Ok(_) => if s3.Driver_triggered {
                                sram_dispatched(s3, post, acc_pre, acc_post, r)
                            } else {
                                r == Ok::<(), SimError>(()) && post == s3 && acc_post == acc_pre
                            },
                        }
                    },
            }
        }
}

/// How the commit phase relates the state after to the state before: the
/// timestamp advances to the commit offset and every storage element commits
/// exactly once.
pub open spec fn commit_phase_ran(pre: Simulator, post: Simulator) -> bool {
    let now = (pre.stamp + 50) as usize;
    &&& pre.stamp + 50 <= usize::MAX
    &&& post.stamp == now
    &&& array_ticked(pre.array_2a959, post.array_2a959, now)
    &&& array_ticked(pre.array_2aa85, post.array_2aa85, now)
    &&& fifo_ticked(pre.MemUser_57a15_rdata, post.MemUser_57a15_rdata, now)
    &&& post.MemUser_57a15_triggered == pre.MemUser_57a15_triggered
    &&& post.MemUser_57a15_event == pre.MemUser_57a15_event
    &&& post.Driver_triggered == pre.Driver_triggered
    &&& post.Driver_event == pre.Driver_event
    &&& post.SRAM_2a9ed_triggered == pre.SRAM_2a9ed_triggered
    &&& post._2a969_value == pre._2a969_value
    &&& post._2aa41_value == pre._2aa41_value
    &&& post._2a991_value == pre._2a991_value
    &&& post._2aa91_value == pre._2aa91_value
}

/// The whole run from cycle `i` with idle counter `idle`: each cycle
/// evaluates, checks the idle threshold (any firing resets the counter; the
/// run stops, observably, the moment 200 consecutive idle cycles are
/// reached), commits, and applies the cycle's completions; it completes
/// normally only after cycle `max`.  `outcome` is an error exactly when some
/// module evaluation or completion failed, with that error.
pub open spec fn run_ran(
    pre: Simulator,
    post: Simulator,
    acc_pre: Seq<bool>,
    acc_post: Seq<bool>,
    comps_pre: Seq<ScriptedCompletion>,
    comps_post: Seq<ScriptedCompletion>,
    i: int,
    max: int,
    idle: int,
    outcome: Result<RunOutcome, SimError>,
) -> bool
    decreases max + 1 - i,
{
    if i > max {
        outcome == Ok::<RunOutcome, SimError>(RunOutcome::Completed) && post == pre && acc_post
            == acc_pre && comps_post == comps_pre
    } else {
        exists|s4: Simulator, acc_mid: Seq<bool>, r1: Result<(), SimError>|
            {
                &&& #[trigger] eval_phase_ran(pre, s4, acc_pre, acc_mid, i, r1)
                &&& match r1 {
                    Err(e) => outcome == Err::<RunOutcome, SimError>(e) && post == s4 && acc_post
                        == acc_mid && comps_post == comps_pre,
                    Ok(_) => {
                        let fired = s4.MemUser_57a15_triggered || s4.Driver_triggered;
                        let idle2 = idle_next(idle, fired);
                        if !fired && idle2 >= idle_threshold() {
                            outcome == Ok::<RunOutcome, SimError>(
                                RunOutcome::IdleStopped { cycle: i as usize },
                            ) && post == s4 && acc_post == acc_mid && comps_post == comps_pre
                        } else {
                            exists|
                                s5: Simulator,
                                s6: Simulator,
                                comps_mid: Seq<ScriptedCompletion>,
                                r2: Result<(), SimError>,
                            |
                                {
                                    &&& #[trigger] commit_phase_ran(s4, s5)
                                    &&& #[trigger] completions_drained(
                                        s5,
                                        s6,
                                        comps_pre,
                                        comps_mid,
                                        i,
                                        r2,
                                    )
                                    &&& match r2 {
                                        Err(e) => outcome == Err::<RunOutcome, SimError>(e)
                                            && post == s6 && acc_post == acc_mid && comps_post
                                            == comps_mid,
                                        Ok(_) => run_ran(
                                            s6,
                                            post,
                                            acc_mid,
                                            acc_post,
                                            comps_mid,
                                            comps_post,
                                            i + 1,
                                            max,
                                            idle2,
                                            outcome,
                                        ),
                                    }
                                }
                        }
                    },
                }
            }
    }
}

/// Runs the simulation for up to `max_cycles` full cycles against a scripted
/// bridge.  Each cycle advances the timestamp to the logic-evaluation offset,
/// clears the per-step state, evaluates the modules in dependency order
/// (memory user, driver, then the gated memory module), applies the idle
/// check, advances to the commit offset, commits every storage element once,
/// and finally applies the completions the script reports for this cycle.
///
/// The run ends early, observably, when no module fires for
/// [`idle_threshold`] consecutive cycles; otherwise it completes after
/// `max_cycles` cycles.  Any scheduling conflict or bad completion aborts the
/// run with the error.
pub fn run_scripted(sim: &mut Simulator, max_cycles: usize, script: &mut BridgeScript) -> (r:
    Result<RunOutcome, SimError>)
    requires
        old(sim).wf(),
        old(sim).array_2a959.payload@.len() == 1,
        old(sim).array_2a959.write.q@.len() == 0,
        old(sim).array_2a959.payload@[0] >= 0,
        old(sim).array_2a959.payload@[0] + max_cycles < i32::MAX,
        100 * max_cycles + 100 <= usize::MAX,
    ensures
        final(sim).wf(),
        run_ran(
            *old(sim),
            *final(sim),
            old(script).accepts@,
            final(script).accepts@,
            old(script).completions@,
            final(script).completions@,
            1,
            max_cycles as int,
            0,
            r,
        ),
        match r {
            Ok(RunOutcome::Completed) => (max_cycles == 0 ==> *final(sim) == *old(sim)) && (
            max_cycles > 0 ==> final(sim).stamp == 100 * max_cycles + 50),
            Ok(RunOutcome::IdleStopped { cycle }) => 1 <= cycle <= max_cycles && final(sim).stamp
                == 100 * cycle,
            Err(_) => true,
        },
{
    let ghost c0 = old(sim).array_2a959.payload@[0] as int;
    let mut idle_count: usize = 0;
    let mut i: usize = 1;
    while i <= max_cycles
        invariant
            sim.wf(),
            1 <= i <= max_cycles + 1,
            idle_count < 200,
            sim.array_2a959.payload@.len() == 1,
            sim.array_2a959.write.q@.len() == 0,
            sim.array_2a959.payload@[0] <= c0 + i - 1,
            c0 >= 0,
            c0 + max_cycles < i32::MAX,
            100 * max_cycles + 100 <= usize::MAX,
            i == 1 ==> *sim == *old(sim),
            i > 1 ==> sim.stamp == 100 * (i - 1) + 50,
            forall|fin: Simulator, af: Seq<bool>, cf: Seq<ScriptedCompletion>, out: Result<
                RunOutcome,
                SimError,
            >|
                #[trigger] run_ran(
                    *sim,
                    fin,
                    script.accepts@,
                    af,
                    script.completions@,
                    cf,
                    i as int,
                    max_cycles as int,
                    idle_count as int,
                    out,
                ) ==> run_ran(
                    *old(sim),
                    fin,
                    old(script).accepts@,
                    af,
                    old(script).completions@,
                    cf,
                    1,
                    max_cycles as int,
                    0,
                    out,
                ),
        decreases max_cycles + 1 - i,
    {
        let ghost s_head = *sim;
        let ghost acc_head = script.accepts@;
        let ghost comps_head = script.completions@;
        let ghost idle_head = idle_count as int;
        // Idle -> LogicEvaluation: advance to the evaluation offset and clear
        // the per-step state.
        sim.stamp = 100 * i;
        sim.reset_downstream();
        proof {
            assert((100 * i) % 100 == 0) by (nonlinear_arith);
            assert(*sim == Simulator {
                stamp: (100 * i as int) as usize,
                MemUser_57a15_triggered: false,
                Driver_triggered: false,
                SRAM_2a9ed_triggered: false,
                _2a969_value: None,
                _2aa41_value: None,
                _2a991_value: None,
                _2aa91_value: None,
                ..s_head
            });
        }
        let ghost s1 = *sim;
        match sim.simulate_MemUser_57a15() {
            Err(e) => {
                proof {
                    assert(eval_phase_ran(
                        s_head,
                        *sim,
                        acc_head,
                        acc_head,
                        i as int,
                        Err(e),
                    ));
                    assert(run_ran(
                        s_head,
                        *sim,
                        acc_head,
                        acc_head,
                        comps_head,
                        comps_head,
                        i as int,
                        max_cycles as int,
                        idle_head,
                        Err(e),
                    ));
                }
                return Err(e);
            },
            Ok(()) => {},
        }
        let ghost s2 = *sim;
        match sim.simulate_Driver() {
            Err(e) => {
                proof {
                    assert(memuser_dispatched(s1, s2, Ok(())));
                    assert(eval_phase_ran(
                        s_head,
                        *sim,
                        acc_head,
                        acc_head,
                        i as int,
                        Err(e),
                    ));
                    assert(run_ran(
                        s_head,
                        *sim,
                        acc_head,
                        acc_head,
                        comps_head,
                        comps_head,
                        i as int,
                        max_cycles as int,
                        idle_head,
                        Err(e),
                    ));
                }
                return Err(e);
            },
            Ok(()) => {},
        }
        let ghost s3 = *sim;
        if sim.Driver_triggered {
            match sim.simulate_SRAM_2a9ed(script) {
                Err(e) => {
                    proof {
                        assert(memuser_dispatched(s1, s2, Ok(())));
                        assert(driver_dispatched(s2, s3, Ok(())));
                        assert(eval_phase_ran(
                            s_head,
                            *sim,
                            acc_head,
                            script.accepts@,
                            i as int,
                            Err(e),
                        ));
                        assert(run_ran(
                            s_head,
                            *sim,
                            acc_head,
                            script.accepts@,
                            comps_head,
                            comps_head,
                            i as int,
                            max_cycles as int,
                            idle_head,
                            Err(e),
                        ));
                    }
                    return Err(e);
                },
                Ok(()) => {},
            }
        }
        let ghost s4 = *sim;
        let ghost acc_mid = script.accepts@;
        proof {
            assert(memuser_dispatched(s1, s2, Ok(())));
            assert(driver_dispatched(s2, s3, Ok(())));
            assert(eval_phase_ran(s_head, s4, acc_head, acc_mid, i as int, Ok(())));
        }
        // Liveness check: any firing resets the idle counter.
        let any_module_triggered = sim.MemUser_57a15_triggered || sim.Driver_triggered;
        if !any_module_triggered {
            idle_count = idle_count + 1;
            if idle_count >= 200 {
                proof {
                    assert(run_ran(
                        s_head,
                        *sim,
                        acc_head,
                        acc_mid,
                        comps_head,
                        comps_head,
                        i as int,
                        max_cycles as int,
                        idle_head,
                        Ok(RunOutcome::IdleStopped { cycle: i }),
                    ));
                }
                return Ok(RunOutcome::IdleStopped { cycle: i });
            }
        } else {
            idle_count = 0;
        }
        // Commit: advance to the commit offset and commit every storage
        // element exactly once.
        sim.stamp = sim.stamp + 50;
        sim.tick_registers();
        let ghost s5 = *sim;
        proof {
            assert(commit_phase_ran(s4, s5));
        }
        // BridgeAdvance: apply the completions the bridge reports this cycle.
        loop
            invariant
                sim.wf(),
                sim.array_2a959.payload@.len() == 1,
                sim.array_2a959.write.q@.len() == 0,
                sim.array_2a959.payload@[0] <= c0 + i,
                c0 >= 0,
                1 <= i <= max_cycles,
                100 * max_cycles + 100 <= usize::MAX,
                sim.stamp == 100 * i + 50,
                script.accepts@ == acc_mid,
                idle_count < 200,
                idle_next(idle_head, s4.MemUser_57a15_triggered || s4.Driver_triggered)
                    == idle_count as int,
                eval_phase_ran(s_head, s4, acc_head, acc_mid, i as int, Ok(())),
                commit_phase_ran(s4, s5),
                forall|fin2: Simulator, cf2: Seq<ScriptedCompletion>, rr: Result<(), SimError>|
                    #[trigger] completions_drained(
                        *sim,
                        fin2,
                        script.completions@,
                        cf2,
                        i as int,
                        rr,
                    ) ==> completions_drained(
                        s5,
                        fin2,
                        comps_head,
                        cf2,
                        i as int,
                        rr,
                    ),
                forall|fin: Simulator, af: Seq<bool>, cf: Seq<ScriptedCompletion>, out: Result<
                    RunOutcome,
                    SimError,
                >|
                    #[trigger] run_ran(
                        s_head,
                        fin,
                        acc_head,
                        af,
                        comps_head,
                        cf,
                        i as int,
                        max_cycles as int,
                        idle_head,
                        out,
                    ) ==> run_ran(
                        *old(sim),
                        fin,
                        old(script).accepts@,
                        af,
                        old(script).completions@,
                        cf,
                        1,
                        max_cycles as int,
                        0,
                        out,
                    ),
            ensures
                script.completions@.len() == 0 || script.completions@[0].cycle > i,
                script.accepts@ == acc_mid,
                idle_next(idle_head, s4.MemUser_57a15_triggered || s4.Driver_triggered)
                    == idle_count as int,
                idle_count < 200,
                forall|fin2: Simulator, cf2: Seq<ScriptedCompletion>, rr: Result<(), SimError>|
                    #[trigger] completions_drained(
                        *sim,
                        fin2,
                        script.completions@,
                        cf2,
                        i as int,
                        rr,
                    ) ==> completions_drained(
                        s5,
                        fin2,
                        comps_head,
                        cf2,
                        i as int,
                        rr,
                    ),
            decreases script.completions@.len(),
        {
            if script.completions.len() == 0 {
                break ;
            }
            let front_cycle = script.completions[0].cycle;
            if front_cycle > i {
                break ;
            }
            let ghost s_d = *sim;
            let ghost comps_d = script.completions@;
            match script.completions.pop_front() {
                None => {
                    proof {
                        assert(false);
                    }
                    break ;
                },
                Some(c) => {
                    match sim.apply_completion(c.addr, c.arrive, c.depart) {
                        Err(e) => {
                            proof {
                                assert(completion_applied(s_d, *sim, c, Err(e)));
                                assert(completions_drained(
                                    s_d,
                                    *sim,
                                    comps_d,
                                    comps_d.drop_first(),
                                    i as int,
                                    Err(e),
                                ));
                                assert(completions_drained(
                                    s5,
                                    *sim,
                                    comps_head,
                                    script.completions@,
                                    i as int,
                                    Err(e),
                                ));
                                assert(run_ran(
                                    s_head,
                                    *sim,
                                    acc_head,
                                    acc_mid,
                                    comps_head,
                                    script.completions@,
                                    i as int,
                                    max_cycles as int,
                                    idle_head,
                                    Err(e),
                                ));
                            }
                            return Err(e);
                        },
                        Ok(()) => {
                            proof {
                                assert(completion_applied(s_d, *sim, c, Ok(())));
                                assert forall|
                                    fin2: Simulator,
                                    cf2: Seq<ScriptedCompletion>,
                                    rr: Result<(), SimError>,
                                |
                                    #[trigger] completions_drained(
                                        *sim,
                                        fin2,
                                        script.completions@,
                                        cf2,
                                        i as int,
                                        rr,
                                    ) implies completions_drained(
                                    s5,
                                    fin2,
                                    comps_head,
                                    cf2,
                                    i as int,
                                    rr,
                                ) by {
                                    assert(completions_drained(
                                        s_d,
                                        fin2,
                                        comps_d,
                                        cf2,
                                        i as int,
                                        rr,
                                    ));
                                }
                            }
                        },
                    }
                },
            }
        }
        let ghost s6 = *sim;
        let ghost comps_mid = script.completions@;
        proof {
            assert(completions_drained(s6, s6, comps_mid, comps_mid, i as int, Ok(())));
            assert(completions_drained(s5, s6, comps_head, comps_mid, i as int, Ok(())));
            let idle2 = idle_count as int;
            assert forall|
                fin: Simulator,
                af: Seq<bool>,
                cf: Seq<ScriptedCompletion>,
                out: Result<RunOutcome, SimError>,
            |
                #[trigger] run_ran(
                    s6,
                    fin,
                    acc_mid,
                    af,
                    comps_mid,
                    cf,
                    i + 1 as int,
                    max_cycles as int,
                    idle2,
                    out,
                ) implies run_ran(
                *old(sim),
                fin,
                old(script).accepts@,
                af,
                old(script).completions@,
                cf,
                1,
                max_cycles as int,
                0,
                out,
            ) by {
                assert(run_ran(
                    s_head,
                    fin,
                    acc_head,
                    af,
                    comps_head,
                    cf,
                    i as int,
                    max_cycles as int,
                    idle_head,
                    out,
                ));
            }
        }
        i = i + 1;
    }
    proof {
        assert(run_ran(
            *sim,
            *sim,
            script.accepts@,
            script.accepts@,
            script.completions@,
            script.completions@,
            i as int,
            max_cycles as int,
            idle_count as int,
            Ok(RunOutcome::Completed),
        ));
    }
    Ok(RunOutcome::Completed)
}

/// A plain callback-invocation counter for standalone exercisers of the
/// memory subsystem's interface.
#[allow(non_camel_case_types)]
pub struct counter {
    pub value: i64,
}

} // verus!

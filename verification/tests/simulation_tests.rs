use std::collections::VecDeque;
use memory_simulator::modules::{
    Driver, MemUser_57a15, SramCont, SramPhase, SRAM_2a9ed_begin, SRAM_2a9ed_resume,
};
use memory_simulator::sim::{
    prefill_driver_events, run_scripted, BridgeScript, RunOutcome, ScriptedCompletion, SimError,
    Simulator,
};
use memory_simulator::storage::{ArrayWrite, FIFOPop};

fn accepting_script() -> BridgeScript {
    BridgeScript::new(VecDeque::new())
}

#[test]
fn fresh_simulator_is_zeroed() {
    let sim = Simulator::new();
    assert_eq!(sim.stamp, 0);
    assert_eq!(sim.array_2a959.payload, vec![0]);
    assert_eq!(sim.array_2aa85.payload.len(), 512);
    assert!(sim.array_2aa85.payload.iter().all(|v| *v == 0));
    assert!(sim.MemUser_57a15_rdata.is_empty());
    assert!(sim._2a969_value.is_none());
}

#[test]
fn completion_schedules_push_from_latency() {
    // A read request issued at timestamp 100 completes with arrival 100 and
    // departure 220: the push lands at 100 + 50 + 100 * 120 = 12150.
    let mut sim = Simulator::new();
    sim.stamp = 100;
    sim.array_2aa85.payload[7] = 99;
    sim.apply_completion(7, 100, 220).unwrap();
    assert_eq!(sim.MemUser_57a15_rdata.push.q.len(), 1);
    assert_eq!(sim.MemUser_57a15_rdata.push.q[0].cycle, 12150);
    assert_eq!(sim.MemUser_57a15_rdata.push.q[0].data, 99);
}

#[test]
fn completion_with_bad_address_is_fatal() {
    let mut sim = Simulator::new();
    assert!(matches!(
        sim.apply_completion(-1, 0, 0),
        Err(SimError::BadAddress { addr: -1 })
    ));
    assert!(matches!(
        sim.apply_completion(512, 0, 0),
        Err(SimError::BadAddress { addr: 512 })
    ));
}

#[test]
fn completion_with_negative_latency_is_fatal() {
    let mut sim = Simulator::new();
    assert!(matches!(
        sim.apply_completion(0, 10, 5),
        Err(SimError::StampOverflow)
    ));
}

#[test]
fn completions_into_the_same_slot_conflict() {
    let mut sim = Simulator::new();
    sim.stamp = 100;
    sim.apply_completion(1, 0, 5).unwrap();
    let err = sim.apply_completion(2, 0, 5).unwrap_err();
    match err {
        SimError::Schedule(c) => {
            assert_eq!(c.stamp, 650);
            assert_eq!(c.occupied_by, "SRAM_2a9ed");
        },
        other => panic!("expected a scheduling conflict, got {:?}", other),
    }
}

#[test]
fn memuser_without_data_does_not_fire_but_schedules_pop() {
    let mut sim = Simulator::new();
    sim.stamp = 100;
    let fired = MemUser_57a15(&mut sim).unwrap();
    assert!(fired.is_none());
    assert_eq!(sim.MemUser_57a15_rdata.pop.q.len(), 1);
    assert_eq!(sim.MemUser_57a15_rdata.pop.q[0].cycle, 150);
}

#[test]
fn memuser_with_data_fires_and_sums() {
    let mut sim = Simulator::new();
    sim.stamp = 100;
    sim.MemUser_57a15_rdata.payload.push_back(5);
    let fired = MemUser_57a15(&mut sim).unwrap();
    assert_eq!(fired, Some(133));
    // The peeked value stays until the scheduled pop commits.
    assert_eq!(sim.MemUser_57a15_rdata.payload.len(), 1);
}

#[test]
fn driver_on_even_cycle_prepares_read_step() {
    let mut sim = Simulator::new();
    sim.stamp = 100;
    let fired = Driver(&mut sim).unwrap();
    assert!(fired);
    assert_eq!(sim._2a969_value, Some(false));
    assert_eq!(sim._2a991_value, Some(true));
    assert_eq!(sim._2aa41_value, Some(0));
    assert_eq!(sim._2aa91_value, Some(0));
    // The incremented cycle count is scheduled for the commit offset.
    assert_eq!(sim.array_2a959.write.q.len(), 1);
    assert_eq!(sim.array_2a959.write.q[0].cycle, 150);
    assert_eq!(sim.array_2a959.write.q[0].data, 1);
    // A read step queues the memory user's next activation.
    assert_eq!(sim.MemUser_57a15_event, VecDeque::from(vec![200]));
}

#[test]
fn driver_on_odd_cycle_prepares_write_step() {
    let mut sim = Simulator::new();
    sim.stamp = 200;
    sim.array_2a959.payload[0] = 1;
    Driver(&mut sim).unwrap();
    assert_eq!(sim._2a969_value, Some(true));
    assert_eq!(sim._2a991_value, Some(false));
    // On a write step the address comes from the incremented count.
    assert_eq!(sim._2aa41_value, Some(2));
    assert_eq!(sim._2aa91_value, Some(1));
    assert!(sim.MemUser_57a15_event.is_empty());
}

#[test]
fn sram_issues_write_then_commits_on_acceptance() {
    let mut sim = Simulator::new();
    sim.stamp = 200;
    sim._2a969_value = Some(true);
    sim._2a991_value = Some(false);
    sim._2aa41_value = Some(2);
    sim._2aa91_value = Some(1);
    let phase = SRAM_2a9ed_begin(&sim);
    let cont = match phase {
        SramPhase::Issue { req, cont } => {
            assert_eq!(req.addr, 2);
            assert!(req.is_write);
            cont
        },
        other => panic!("expected a write request, got {:?}", other),
    };
    let phase = SRAM_2a9ed_resume(&mut sim, cont, true).unwrap();
    assert_eq!(phase, SramPhase::Done { fired: true });
    assert_eq!(sim.array_2aa85.write.q.len(), 1);
    assert_eq!(sim.array_2aa85.write.q[0].cycle, 250);
    assert_eq!(sim.array_2aa85.write.q[0].data, 1);
}

#[test]
fn sram_rejected_write_does_not_fire_or_commit() {
    let mut sim = Simulator::new();
    sim.stamp = 200;
    sim._2a969_value = Some(true);
    sim._2aa41_value = Some(2);
    sim._2aa91_value = Some(1);
    let cont = SramCont::AfterWrite { addr: 2, data: 1 };
    let phase = SRAM_2a9ed_resume(&mut sim, cont, false).unwrap();
    assert_eq!(phase, SramPhase::Done { fired: false });
    // No speculative write was scheduled and nothing else was mutated.
    assert!(sim.array_2aa85.write.is_empty());
    assert_eq!(sim.stamp, 200);
}

#[test]
fn sram_missing_inputs_means_not_fired() {
    let mut sim = Simulator::new();
    sim._2a969_value = Some(true);
    // The address was not produced this step.
    assert_eq!(SRAM_2a9ed_begin(&sim), SramPhase::Done { fired: false });
    // With nothing enabled the module fires vacuously.
    sim._2a969_value = Some(false);
    sim._2a991_value = Some(false);
    assert_eq!(SRAM_2a9ed_begin(&sim), SramPhase::Done { fired: true });
}

#[test]
fn sram_read_rejection_means_not_fired() {
    let mut sim = Simulator::new();
    let phase = SRAM_2a9ed_resume(&mut sim, SramCont::AfterRead, false).unwrap();
    assert_eq!(phase, SramPhase::Done { fired: false });
    let phase = SRAM_2a9ed_resume(&mut sim, SramCont::AfterRead, true).unwrap();
    assert_eq!(phase, SramPhase::Done { fired: true });
}

#[test]
fn run_advances_the_cycle_register_each_cycle() {
    let mut sim = Simulator::new();
    let mut script = accepting_script();
    prefill_driver_events(&mut sim, 4);
    let outcome = run_scripted(&mut sim, 4, &mut script).unwrap();
    assert_eq!(outcome, RunOutcome::Completed);
    assert_eq!(sim.array_2a959.payload[0], 4);
    // Cycle 2 was a write step: address 2 received the step's data 1;
    // cycle 4 wrote 3 at address 4.
    assert_eq!(sim.array_2aa85.payload[2], 1);
    assert_eq!(sim.array_2aa85.payload[4], 3);
}

#[test]
fn run_delivers_scripted_completion_into_fifo() {
    let mut sim = Simulator::new();
    let mut completions = VecDeque::new();
    // Reported during cycle 2's bridge advance (timestamp 250): the push
    // lands at 250 + 50 + 100 * 1 = 400, which commits during cycle 4.
    completions.push_back(ScriptedCompletion { cycle: 2, addr: 2, arrive: 0, depart: 1 });
    let mut script = BridgeScript::new(completions);
    prefill_driver_events(&mut sim, 4);
    run_scripted(&mut sim, 4, &mut script).unwrap();
    // The data array held 1 at address 2 when the completion was applied.
    assert_eq!(sim.MemUser_57a15_rdata.payload.len(), 1);
    assert_eq!(*sim.MemUser_57a15_rdata.front().unwrap(), 1);
}

#[test]
fn run_feeds_completed_read_back_to_memuser() {
    let mut sim = Simulator::new();
    let mut completions = VecDeque::new();
    completions.push_back(ScriptedCompletion { cycle: 2, addr: 2, arrive: 0, depart: 1 });
    let mut script = BridgeScript::new(completions);
    prefill_driver_events(&mut sim, 5);
    run_scripted(&mut sim, 5, &mut script).unwrap();
    // In cycle 5 the memory user finally found data and fired; the value it
    // peeked was consumed by its scheduled pop at the commit offset.
    assert!(sim.MemUser_57a15_triggered);
    assert!(sim.MemUser_57a15_rdata.is_empty());
}

#[test]
fn idle_threshold_stops_the_run_early() {
    // With no activations queued, no module ever fires: after 200 consecutive
    // idle cycles the run stops, well before its configured 400-cycle
    // maximum, and the termination is distinct from normal completion.
    let mut sim = Simulator::new();
    let mut script = accepting_script();
    let outcome = run_scripted(&mut sim, 400, &mut script).unwrap();
    assert_eq!(outcome, RunOutcome::IdleStopped { cycle: 200 });
    assert_ne!(outcome, RunOutcome::Completed);
}

#[test]
fn any_firing_resets_the_idle_counter() {
    // One lone activation at cycle 150 interrupts the idle streak, pushing
    // the stop from cycle 200 to cycle 350.
    let mut sim = Simulator::new();
    let mut script = accepting_script();
    sim.Driver_event.push_back(150 * 100);
    let outcome = run_scripted(&mut sim, 400, &mut script).unwrap();
    assert_eq!(outcome, RunOutcome::IdleStopped { cycle: 350 });
}

#[test]
fn zero_cycle_run_completes_untouched() {
    let mut sim = Simulator::new();
    let mut script = accepting_script();
    let outcome = run_scripted(&mut sim, 0, &mut script).unwrap();
    assert_eq!(outcome, RunOutcome::Completed);
    assert_eq!(sim.stamp, 0);
}

#[test]
fn rejected_requests_leave_module_unfired_for_retry() {
    // A bridge that rejects every request: the driver still fires each
    // cycle, but the memory module never does, and no data-array write is
    // ever committed.
    let mut sim = Simulator::new();
    let mut script = accepting_script();
    for _ in 0..8 {
        script.accepts.push_back(false);
    }
    prefill_driver_events(&mut sim, 4);
    run_scripted(&mut sim, 4, &mut script).unwrap();
    assert!(!sim.SRAM_2a9ed_triggered);
    assert!(sim.array_2aa85.payload.iter().all(|v| *v == 0));
}

#[test]
fn dispatch_consumes_activation_only_on_firing() {
    let mut sim = Simulator::new();
    sim.stamp = 100;
    sim.Driver_event.push_back(100);
    sim.MemUser_57a15_event.push_back(100);
    // The memory user has no data: its activation stays queued for retry.
    sim.simulate_MemUser_57a15().unwrap();
    assert!(!sim.MemUser_57a15_triggered);
    assert_eq!(sim.MemUser_57a15_event.len(), 1);
    // The driver fires and consumes its activation.
    sim.simulate_Driver().unwrap();
    assert!(sim.Driver_triggered);
    assert!(sim.Driver_event.is_empty());
}

#[test]
fn dispatch_skips_module_without_due_activation() {
    let mut sim = Simulator::new();
    sim.stamp = 100;
    sim.Driver_event.push_back(200);
    sim.simulate_Driver().unwrap();
    assert!(!sim.Driver_triggered);
    assert_eq!(sim.Driver_event.len(), 1);
    assert!(sim.array_2a959.write.is_empty());
}

#[test]
fn memuser_pop_slot_conflict_is_fatal() {
    let mut sim = Simulator::new();
    sim.stamp = 100;
    // The commit slot of the pop queue is already taken.
    sim.MemUser_57a15_rdata.pop.push(FIFOPop::new(150, "elsewhere")).unwrap();
    let err = MemUser_57a15(&mut sim).unwrap_err();
    assert!(matches!(err, SimError::Schedule(c) if c.stamp == 150));
}

#[test]
fn driver_write_slot_conflict_is_fatal() {
    let mut sim = Simulator::new();
    sim.stamp = 100;
    sim.array_2a959.write.push(ArrayWrite::new(150, 0, 7, "elsewhere")).unwrap();
    let err = Driver(&mut sim).unwrap_err();
    assert!(matches!(err, SimError::Schedule(c) if c.stamp == 150 && c.rejected == "Driver"));
}

#[test]
fn run_aborts_on_conflicting_completions() {
    // Two completions with the same latency, delivered in the same cycle,
    // target the same push slot: the run aborts with the conflict.
    let mut sim = Simulator::new();
    let mut completions = VecDeque::new();
    completions.push_back(ScriptedCompletion { cycle: 1, addr: 1, arrive: 0, depart: 2 });
    completions.push_back(ScriptedCompletion { cycle: 1, addr: 2, arrive: 0, depart: 2 });
    let mut script = BridgeScript::new(completions);
    prefill_driver_events(&mut sim, 4);
    let err = run_scripted(&mut sim, 4, &mut script).unwrap_err();
    assert!(matches!(err, SimError::Schedule(_)));
}

use memory_simulator::queue::XEQ;
use memory_simulator::storage::{Array, ArrayWrite, FIFOPop, FIFOPush, FIFO};

#[test]
fn empty_queue_pops_nothing() {
    let mut q: XEQ<FIFOPop> = XEQ::new();
    assert!(q.is_empty());
    assert!(q.pop(1000).is_none());
    assert!(q.is_empty());
}

#[test]
fn pop_returns_due_earliest_only() {
    let mut q: XEQ<FIFOPop> = XEQ::new();
    q.push(FIFOPop::new(30, "a")).unwrap();
    q.push(FIFOPop::new(10, "b")).unwrap();
    q.push(FIFOPop::new(20, "c")).unwrap();
    // Not yet due: the earliest entry is at 10.
    assert!(q.pop(9).is_none());
    assert_eq!(q.q.len(), 3);
    let e = q.pop(10).unwrap();
    assert_eq!(e.cycle, 10);
    assert_eq!(e.pusher, "b");
    // 20 is not due at 15, and pop never looks past the first entry.
    assert!(q.pop(15).is_none());
    let e = q.pop(100).unwrap();
    assert_eq!(e.cycle, 20);
    let e = q.pop(100).unwrap();
    assert_eq!(e.cycle, 30);
    assert!(q.is_empty());
}

#[test]
fn queue_orders_by_timestamp() {
    let mut q: XEQ<FIFOPop> = XEQ::new();
    q.push(FIFOPop::new(7, "x")).unwrap();
    q.push(FIFOPop::new(3, "x")).unwrap();
    q.push(FIFOPop::new(5, "x")).unwrap();
    let stamps: Vec<usize> = q.q.iter().map(|e| e.cycle).collect();
    assert_eq!(stamps, vec![3, 5, 7]);
}

#[test]
fn same_slot_conflicts_on_register_queue() {
    let mut q: XEQ<ArrayWrite<u32>> = XEQ::new();
    q.push(ArrayWrite::new(40, 0, 1, "first")).unwrap();
    let err = q.push(ArrayWrite::new(40, 3, 2, "second")).unwrap_err();
    assert_eq!(err.stamp, 40);
    assert_eq!(err.occupied_by, "first");
    assert_eq!(err.rejected, "second");
    // The queue is unchanged by the rejected push.
    assert_eq!(q.q.len(), 1);
    assert_eq!(q.q[0].data, 1);
}

#[test]
fn same_slot_conflicts_on_fifo_queue() {
    // The conflict rule holds regardless of which storage the queue feeds.
    let mut q: XEQ<FIFOPush<u32>> = XEQ::new();
    q.push(FIFOPush::new(12, 9, "p")).unwrap();
    let err = q.push(FIFOPush::new(12, 10, "q")).unwrap_err();
    assert_eq!(err.stamp, 12);
    let mut pops: XEQ<FIFOPop> = XEQ::new();
    pops.push(FIFOPop::new(12, "p")).unwrap();
    assert!(pops.push(FIFOPop::new(12, "q")).is_err());
}

#[test]
fn array_commit_applies_due_write_only() {
    let mut a: Array<u32> = Array::new(4);
    assert_eq!(a.payload, vec![0, 0, 0, 0]);
    a.write.push(ArrayWrite::new(20, 3, 0xdead, "t")).unwrap();
    a.tick(19);
    assert_eq!(a.payload[3], 0);
    a.tick(25);
    assert_eq!(a.payload[3], 0xdead);
    assert!(a.write.is_empty());
}

#[test]
fn array_commit_state_independent_of_schedule_order() {
    // Writes with distinct timestamps, scheduled in two different orders,
    // commit to the same state.
    let writes = [(10usize, 0usize, 1u32), (5, 1, 2), (7, 0, 3)];
    let mut a: Array<u32> = Array::new(2);
    let mut b: Array<u32> = Array::new(2);
    for (t, addr, v) in writes.iter() {
        a.write.push(ArrayWrite::new(*t, *addr, *v, "x")).unwrap();
    }
    for (t, addr, v) in writes.iter().rev() {
        b.write.push(ArrayWrite::new(*t, *addr, *v, "x")).unwrap();
    }
    for _ in 0..3 {
        a.tick(10);
        b.tick(10);
    }
    assert_eq!(a.payload, b.payload);
    // In timestamp order the writes land as 5, 7, 10.
    assert_eq!(a.payload, vec![1, 2]);
}

#[test]
fn array_write_read_round_trip() {
    let mut a: Array<u32> = Array::new(8);
    a.write.push(ArrayWrite::new(20, 5, 77, "t")).unwrap();
    a.tick(31);
    // Reading at any later time, with no intervening write, returns the value.
    assert_eq!(a.payload[5], 77);
    a.tick(100);
    assert_eq!(a.payload[5], 77);
}

#[test]
fn fifo_pop_on_empty_is_noop() {
    let mut f: FIFO<u32> = FIFO::new();
    f.pop.push(FIFOPop::new(10, "m")).unwrap();
    f.tick(10);
    assert!(f.is_empty());
    assert!(f.pop.is_empty());
}

#[test]
fn fifo_simultaneous_push_and_pop() {
    let mut f: FIFO<u32> = FIFO::new();
    f.payload.push_back(1);
    f.push.push(FIFOPush::new(10, 2, "p")).unwrap();
    f.pop.push(FIFOPop::new(10, "m")).unwrap();
    f.tick(10);
    // The old element was removed first, then the new one appended.
    assert_eq!(f.payload.len(), 1);
    assert_eq!(*f.front().unwrap(), 2);
}

#[test]
fn fifo_tick_applies_only_due_events() {
    let mut f: FIFO<u32> = FIFO::new();
    f.push.push(FIFOPush::new(10, 5, "p")).unwrap();
    f.push.push(FIFOPush::new(20, 6, "p")).unwrap();
    f.tick(10);
    assert_eq!(f.payload.len(), 1);
    assert_eq!(*f.front().unwrap(), 5);
    f.tick(15);
    assert_eq!(f.payload.len(), 1);
    f.tick(20);
    assert_eq!(f.payload.len(), 2);
    assert_eq!(*f.front().unwrap(), 5);
}

#[test]
fn fifo_front_peeks_without_removing() {
    let mut f: FIFO<u32> = FIFO::new();
    assert!(f.front().is_none());
    f.payload.push_back(3);
    assert_eq!(*f.front().unwrap(), 3);
    assert_eq!(f.payload.len(), 1);
}

#[test]
fn cyclize_formats_cycle_and_offset() {
    assert_eq!(memory_simulator::queue::cyclize(12150), "Cycle @121.50");
    assert_eq!(memory_simulator::queue::cyclize(5), "Cycle @0.05");
    assert_eq!(memory_simulator::queue::cyclize(0), "Cycle @0.00");
}

use gpu_stress::worker::{Action, LoopKind, Phase, WorkerLoop, LARGE_BUFFER_SIZE, SMALL_BUFFER_SIZE};

fn step(w: &mut WorkerLoop, ok: bool) -> Action {
    let a = w.action();
    w.advance(ok);
    a
}

#[test]
fn allocator_pass_allocates_then_frees() {
    let mut w = WorkerLoop::new(LoopKind::Allocator, SMALL_BUFFER_SIZE);
    assert_eq!(w.log_line().unwrap(), "Malloc thread: Starting iteration 0");
    assert_eq!(step(&mut w, true), Action::Allocate { bytes: 1048576 });
    assert_eq!(w.phase, Phase::Allocated);
    assert_eq!(w.log_line(), None);
    assert_eq!(step(&mut w, true), Action::Free);
    assert_eq!(w.phase, Phase::Ready);
    assert_eq!(w.iterations(), 1);
    assert_eq!(w.log_line().unwrap(), "Malloc thread: Starting iteration 1");
}

#[test]
fn copier_pass_allocates_copies_frees() {
    let mut w = WorkerLoop::new(LoopKind::Copier, LARGE_BUFFER_SIZE);
    assert_eq!(w.log_line().unwrap(), "Memcpy thread: Starting iteration 0");
    assert_eq!(step(&mut w, true), Action::Allocate { bytes: 268435456 });
    assert_eq!(w.log_line().unwrap(), "Memcpy thread: Async memcpy started");
    assert_eq!(step(&mut w, true), Action::CopyToHost { bytes: 268435456 });
    assert_eq!(w.log_line(), None);
    assert_eq!(step(&mut w, true), Action::Free);
    assert_eq!(w.phase, Phase::Ready);
    assert_eq!(w.iterations(), 1);
}

#[test]
fn every_size_completes_a_cycle_without_holding_a_buffer() {
    for size in [1usize, 2, 4096, SMALL_BUFFER_SIZE, LARGE_BUFFER_SIZE, usize::MAX] {
        for kind in [LoopKind::Allocator, LoopKind::Copier] {
            let mut w = WorkerLoop::new(kind, size);
            let n = if kind == LoopKind::Allocator { 2 } else { 3 };
            for _ in 0..n {
                step(&mut w, true);
            }
            assert_eq!(w.phase, Phase::Ready);
            assert_eq!(w.iterations(), 1);
            assert_eq!(w.action(), Action::Allocate { bytes: size });
        }
    }
}

#[test]
fn failed_allocation_stops_the_loop() {
    let mut w = WorkerLoop::new(LoopKind::Allocator, 64);
    assert_eq!(step(&mut w, false), Action::Allocate { bytes: 64 });
    assert!(w.is_halted());
    assert_eq!(w.action(), Action::Halt);
    assert_eq!(w.log_line(), None);
    assert_eq!(w.iterations(), 0);
}

#[test]
fn failed_free_stops_the_loop() {
    let mut w = WorkerLoop::new(LoopKind::Allocator, 64);
    step(&mut w, true);
    assert_eq!(step(&mut w, false), Action::Free);
    assert!(w.is_halted());
    assert_eq!(w.iterations(), 0);
}

#[test]
fn failed_copy_frees_before_stopping() {
    let mut w = WorkerLoop::new(LoopKind::Copier, 64);
    step(&mut w, true);
    assert_eq!(step(&mut w, false), Action::CopyToHost { bytes: 64 });
    assert_eq!(w.phase, Phase::Releasing);
    assert!(!w.is_halted());
    assert_eq!(step(&mut w, true), Action::Free);
    assert!(w.is_halted());
    assert_eq!(w.action(), Action::Halt);
    assert_eq!(w.iterations(), 0);
}

#[test]
fn halted_loop_stays_halted() {
    let mut w = WorkerLoop::new(LoopKind::Copier, 8);
    step(&mut w, false);
    let before = w;
    step(&mut w, true);
    assert_eq!(w, before);
}

#[test]
fn counter_equals_completed_passes() {
    let mut w = WorkerLoop::new(LoopKind::Copier, 8);
    for _ in 0..250 * 3 {
        step(&mut w, true);
    }
    assert_eq!(w.iterations(), 250);
    assert_eq!(w.log_line().unwrap(), "Memcpy thread: Starting iteration 250");
}

#[test]
fn exhausted_counter_halts_the_loop() {
    let mut w = WorkerLoop::new(LoopKind::Allocator, 8);
    w.counter.count = u64::MAX;
    assert_eq!(w.log_line().unwrap(), "Malloc thread: Starting iteration 18446744073709551615");
    step(&mut w, true);
    step(&mut w, true);
    assert!(w.is_halted());
    assert_eq!(w.iterations(), u64::MAX);
}

#[test]
fn two_loops_interleaved_do_not_interfere() {
    let mut a = WorkerLoop::new(LoopKind::Allocator, SMALL_BUFFER_SIZE);
    let mut c = WorkerLoop::new(LoopKind::Copier, SMALL_BUFFER_SIZE);
    for i in 0..60 {
        step(&mut a, true);
        if i % 2 == 0 {
            step(&mut c, true);
        }
    }
    assert_eq!(a.iterations(), 30);
    assert_eq!(c.iterations(), 10);
    assert_eq!(a.kind, LoopKind::Allocator);
    assert_eq!(c.kind, LoopKind::Copier);
}

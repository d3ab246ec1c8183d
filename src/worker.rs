use vstd::prelude::*;
use vstd::string::StringExecFns;
use crate::counter::IterationCounter;
use crate::message::{decimal, push_decimal};

verus! {

/// Buffer size of the light stress variant: one MiB.
pub const SMALL_BUFFER_SIZE: usize = 1048576;

/// Buffer size of the heavy stress variant: 256 MiB.
pub const LARGE_BUFFER_SIZE: usize = 268435456;

/// The two kinds of worker loop.
#[derive(Clone, Copy, Debug, PartialEq, Eq, Structural)]
pub enum LoopKind {
    /// Allocates a device buffer and frees it again, pass after pass.
    Allocator,
    /// Allocates a device buffer, copies it into a host buffer and frees it,
    /// pass after pass.
    Copier,
}

/// Where a worker loop stands within its pass.
#[derive(Clone, Copy, Debug, PartialEq, Eq, Structural)]
pub enum Phase {
    /// No device buffer is held; the next pass starts with an allocation.
    Ready,
    /// The pass's device buffer has been allocated.
    Allocated,
    /// The device buffer has been copied into the host buffer.
    Copied,
    /// The copy failed; the device buffer is freed before the loop stops.
    Releasing,
    /// The loop has stopped for good.
    Halted,
}

/// The driver operation a worker loop asks for next.
#[derive(Clone, Copy, Debug, PartialEq, Eq, Structural)]
pub enum Action {
    /// Allocate a device buffer of `bytes` bytes.
    Allocate { bytes: usize },
    /// Copy the held device buffer into a fresh zero-filled host buffer of
    /// `bytes` bytes.
    CopyToHost { bytes: usize },
    /// Free the held device buffer.
    Free,
    /// Do nothing more: the loop has stopped.
    Halt,
}

/// State of one worker loop.
#[derive(Clone, Copy, Debug, PartialEq, Eq, Structural)]
pub struct WorkerLoop {
    pub kind: LoopKind,
    /// Size in bytes of the buffer each pass allocates.
    pub buffer_size: usize,
    /// Passes completed so far.
    pub counter: IterationCounter,
    pub phase: Phase,
}

/// Whether a device buffer is held in this phase.
pub open spec fn holds_buffer(phase: Phase) -> bool {
    match phase {
        Phase::Allocated | Phase::Copied | Phase::Releasing => true,
        Phase::Ready | Phase::Halted => false,
    }
}

/// Whether the success of the operation asked for in this phase ends a pass.
pub open spec fn ends_pass(kind: LoopKind, phase: Phase) -> bool {
    match phase {
        Phase::Allocated => kind == LoopKind::Allocator,
        Phase::Copied => true,
        _ => false,
    }
}

/// Number of driver operations in one pass.
pub open spec fn pass_length(kind: LoopKind) -> nat {
    match kind {
        LoopKind::Allocator => 2,
        LoopKind::Copier => 3,
    }
}

/// The operation a loop asks for in its current state.
pub open spec fn action_of(w: WorkerLoop) -> Action {
    match w.phase {
        Phase::Ready => Action::Allocate { bytes: w.buffer_size },
        Phase::Allocated => match w.kind {
            LoopKind::Allocator => Action::Free,
            LoopKind::Copier => Action::CopyToHost { bytes: w.buffer_size },
        },
        Phase::Copied | Phase::Releasing => Action::Free,
        Phase::Halted => Action::Halt,
    }
}

/// The state after the pass's final operation: on success the pass is
/// counted and the next one may start; on failure, or when the counter is
/// exhausted, the loop stops.
pub open spec fn finish_pass(w: WorkerLoop, succeeded: bool) -> WorkerLoop {
    if succeeded && w.counter.can_increment() {
        WorkerLoop {
            counter: IterationCounter { count: (w.counter.count + 1) as u64 },
            phase: Phase::Ready,
            ..w
        }
    } else {
        WorkerLoop { phase: Phase::Halted, ..w }
    }
}

/// The state after the operation of `action_of(w)` has succeeded or failed.
/// Any failure stops the loop; a failed copy first frees the buffer it holds.
pub open spec fn next_state(w: WorkerLoop, succeeded: bool) -> WorkerLoop {
    match w.phase {
        Phase::Ready => WorkerLoop {
            phase: if succeeded { Phase::Allocated } else { Phase::Halted },
            ..w
        },
        Phase::Allocated => match w.kind {
            LoopKind::Allocator => finish_pass(w, succeeded),
            LoopKind::Copier => WorkerLoop {
                phase: if succeeded { Phase::Copied } else { Phase::Releasing },
                ..w
            },
        },
        Phase::Copied => finish_pass(w, succeeded),
        Phase::Releasing => WorkerLoop { phase: Phase::Halted, ..w },
        Phase::Halted => w,
    }
}

/// The state after `n` operations in a row that all succeeded.
pub open spec fn run_succeeding(w: WorkerLoop, n: nat) -> WorkerLoop
    decreases n,
{
    if n == 0 {
        w
    } else {
        run_succeeding(next_state(w, true), (n - 1) as nat)
    }
}

/// "Malloc thread: " or "Memcpy thread: ".
pub open spec fn thread_label(kind: LoopKind) -> Seq<char> {
    match kind {
        LoopKind::Allocator => "Malloc thread: "@,
        LoopKind::Copier => "Memcpy thread: "@,
    }
}

/// The progress line logged before the operation of `action_of(w)`, if any.
pub open spec fn log_text(w: WorkerLoop) -> Option<Seq<char>> {
    match w.phase {
        Phase::Ready => Some(
            thread_label(w.kind) + "Starting iteration "@ + decimal(w.counter.count as nat),
        ),
        Phase::Allocated => if w.kind == LoopKind::Copier {
            Some("Memcpy thread: Async memcpy started"@)
        } else {
            None
        },
        _ => None,
    }
}

impl WorkerLoop {
    /// A loop keeps a buffer size of at least one byte, and an allocator loop
    /// never stands in a phase that only a copy leads to.
    pub open spec fn wf(&self) -> bool {
        &&& self.buffer_size >= 1
        &&& self.kind == LoopKind::Allocator ==> (self.phase != Phase::Copied && self.phase
            != Phase::Releasing)
    }

    /// A loop of the given kind that has completed no pass and holds no buffer.
    pub fn new(kind: LoopKind, buffer_size: usize) -> (r: WorkerLoop)
        requires
            buffer_size >= 1,
        ensures
            r.wf(),
            r == (WorkerLoop {
                kind,
                buffer_size,
                counter: IterationCounter { count: 0 },
                phase: Phase::Ready,
            }),
    {
        WorkerLoop { kind, buffer_size, counter: IterationCounter::new(), phase: Phase::Ready }
    }

    /// The driver operation to perform next.
    pub fn action(&self) -> (r: Action)
        ensures
            r == action_of(*self),
    {
        match self.phase {
            Phase::Ready => Action::Allocate { bytes: self.buffer_size },
            Phase::Allocated => match self.kind {
                LoopKind::Allocator => Action::Free,
                LoopKind::Copier => Action::CopyToHost { bytes: self.buffer_size },
            },
            Phase::Copied | Phase::Releasing => Action::Free,
            Phase::Halted => Action::Halt,
        }
    }

    /// Moves the loop on by the outcome of the operation that `action`
    /// asked for.
    pub fn advance(&mut self, succeeded: bool)
        requires
            old(self).wf(),
        ensures
            final(self).wf(),
            *final(self) == next_state(*old(self), succeeded),
    {
        match self.phase {
            Phase::Ready => {
                self.phase = if succeeded { Phase::Allocated } else { Phase::Halted };
            },
            Phase::Allocated => match self.kind {
                LoopKind::Allocator => self.finish(succeeded),
                LoopKind::Copier => {
                    self.phase = if succeeded { Phase::Copied } else { Phase::Releasing };
                },
            },
            Phase::Copied => self.finish(succeeded),
            Phase::Releasing => {
                self.phase = Phase::Halted;
            },
            Phase::Halted => {},
        }
    }

    fn finish(&mut self, succeeded: bool)
        ensures
            *final(self) == finish_pass(*old(self), succeeded),
    {
        if succeeded && self.counter.increment() {
            self.phase = Phase::Ready;
        } else {
            self.phase = Phase::Halted;
        }
    }

    /// Number of passes completed so far.
    pub fn iterations(&self) -> (r: u64)
        ensures
            r == self.counter.count,
    {
        self.counter.value()
    }

    /// Whether the loop has stopped for good.
    pub fn is_halted(&self) -> (r: bool)
        ensures
            r == (self.phase == Phase::Halted),
    {
        match self.phase {
            Phase::Halted => true,
            _ => false,
        }
    }

    /// The progress line to log before performing the next operation.
    pub fn log_line(&self) -> (r: Option<String>)
        ensures
            r is Some <==> log_text(*self) is Some,
            r is Some ==> r->Some_0@ == log_text(*self)->Some_0,
    {
        match self.phase {
            Phase::Ready => {
                let mut s = String::new();
                match self.kind {
                    LoopKind::Allocator => s.append("Malloc thread: "),
                    LoopKind::Copier => s.append("Memcpy thread: "),
                }
                s.append("Starting iteration ");
                push_decimal(&mut s, self.counter.count);
                assert(s@ =~= log_text(*self)->Some_0);
                Some(s)
            },
            Phase::Allocated => match self.kind {
                LoopKind::Copier => {
                    let mut s = String::new();
                    s.append("Memcpy thread: Async memcpy started");
                    assert(s@ =~= log_text(*self)->Some_0);
                    Some(s)
                },
                LoopKind::Allocator => None,
            },
            _ => None,
        }
    }
}

/// Running `a` succeeding operations and then `b` more is running `a + b`.
pub proof fn lemma_run_succeeding_split(w: WorkerLoop, a: nat, b: nat)
    ensures
        run_succeeding(w, a + b) == run_succeeding(run_succeeding(w, a), b),
    decreases a,
{
    if a > 0 {
        lemma_run_succeeding_split(next_state(w, true), (a - 1) as nat, b);
        assert((a + b - 1) as nat == ((a - 1) as nat) + b);
    }
}

/// A loop that starts a pass holding no buffer, and whose operations all
/// succeed, finishes the pass after `pass_length` operations: it is ready
/// again, holds no device buffer, and has counted exactly that one pass. Its
/// kind and buffer size are unchanged. This holds for every buffer size of at
/// least one byte.
pub proof fn lemma_successful_pass(w: WorkerLoop)
    requires
        w.wf(),
        w.phase == Phase::Ready,
        w.counter.can_increment(),
    ensures
        run_succeeding(w, pass_length(w.kind)) == (WorkerLoop {
            counter: IterationCounter { count: (w.counter.count + 1) as u64 },
            ..w
        }),
        !holds_buffer(run_succeeding(w, pass_length(w.kind)).phase),
        forall|i: nat|
            0 < i < pass_length(w.kind) ==> #[trigger] holds_buffer(run_succeeding(w, i).phase),
{
    reveal_with_fuel(run_succeeding, 4);
    assert forall|i: nat| 0 < i < pass_length(w.kind) implies #[trigger] holds_buffer(
        run_succeeding(w, i).phase,
    ) by {
        if i == 2 {
            assert(run_succeeding(w, 2) == run_succeeding(next_state(w, true), 1));
        }
    }
}

/// Starting from a ready loop, `k` passes whose operations all succeed leave
/// the counter exactly `k` higher, as long as it can hold that many more.
pub proof fn lemma_passes_counted(w: WorkerLoop, k: nat)
    requires
        w.wf(),
        w.phase == Phase::Ready,
        w.counter.count + k <= u64::MAX,
    ensures
        run_succeeding(w, k * pass_length(w.kind)) == (WorkerLoop {
            counter: IterationCounter { count: (w.counter.count + k) as u64 },
            ..w
        }),
    decreases k,
{
    if k == 0 {
        assert(k * pass_length(w.kind) == 0);
    } else {
        let p = pass_length(w.kind);
        lemma_successful_pass(w);
        let w1 = run_succeeding(w, p);
        lemma_passes_counted(w1, (k - 1) as nat);
        assert(k * p == p + ((k - 1) as nat) * p) by (nonlinear_arith)
            requires
                k >= 1,
        ;
        lemma_run_succeeding_split(w, p, ((k - 1) as nat) * p);
    }
}

/// No device buffer escapes a pass: a loop that holds a buffer gives it up
/// only by asking for it to be freed, comes to hold one only by a successful
/// allocation, and a stopped loop holds none and stays stopped.
pub proof fn lemma_buffer_never_escapes(w: WorkerLoop, succeeded: bool)
    requires
        w.wf(),
    ensures
        holds_buffer(w.phase) && !holds_buffer(next_state(w, succeeded).phase) ==> action_of(w)
            == Action::Free,
        !holds_buffer(w.phase) && holds_buffer(next_state(w, succeeded).phase) ==> (action_of(
            w,
        ) is Allocate && succeeded),
        next_state(w, succeeded).phase == Phase::Halted ==> !holds_buffer(
            next_state(w, succeeded).phase,
        ),
        w.phase == Phase::Halted ==> next_state(w, succeeded) == w,
{
}

/// The counter moves only when a pass ends with a successful operation, and
/// then by exactly one; no other step changes it, nor the loop's kind or
/// buffer size.
pub proof fn lemma_counter_tracks_passes(w: WorkerLoop, succeeded: bool)
    requires
        w.wf(),
    ensures
        next_state(w, succeeded).counter.count == if ends_pass(w.kind, w.phase) && succeeded
            && w.counter.can_increment() {
            w.counter.count + 1
        } else {
            w.counter.count as int
        },
        next_state(w, succeeded).kind == w.kind,
        next_state(w, succeeded).buffer_size == w.buffer_size,
{
}

} // verus!

use vstd::prelude::*;

verus! {

/// The accumulate-and-reset register that the copier and the sampler share,
/// as a value that one owner mutates. Each operation of [`SharedCounter`] is one
/// indivisible step, so every history of it from two threads of control is a
/// sequence of these operations.
pub struct ByteCounter {
    pending: u64,
}

impl View for ByteCounter {
    type V = nat;

    /// The bytes counted since the last drain.
    closed spec fn view(&self) -> nat {
        self.pending as nat
    }
}

impl ByteCounter {
    pub fn new() -> (c: ByteCounter)
        ensures
            c@ == 0,
    {
        ByteCounter { pending: 0 }
    }

    /// The bytes counted since the last drain, without resetting them.
    pub fn current(&self) -> (r: u64)
        ensures
            r == self@,
    {
        self.pending
    }

    /// Counts `n` more bytes.
    pub fn add(&mut self, n: u64)
        requires
            old(self)@ + n <= u64::MAX,
        ensures
            final(self)@ == old(self)@ + n,
    {
        self.pending = self.pending + n;
    }

    /// Returns the bytes counted since the last drain and resets the count to zero.
    pub fn drain(&mut self) -> (r: u64)
        ensures
            r == old(self)@,
            final(self)@ == 0,
    {
        let r = self.pending;
        self.pending = 0;
        r
    }
}

/// One operation on the counter.
#[derive(Clone, Copy, Debug, PartialEq, Eq)]
pub enum CounterOp {
    Add(u64),
    Drain,
}

/// The sum of the values that `ops` adds.
pub open spec fn added_by(ops: Seq<CounterOp>) -> nat
    decreases ops.len(),
{
    if ops.len() == 0 {
        0
    } else {
        added_by(ops.drop_last()) + match ops.last() {
            CounterOp::Add(n) => n as nat,
            CounterOp::Drain => 0,
        }
    }
}

/// The counter's value after `ops` run on a counter that held `start`.
pub open spec fn value_after(start: nat, ops: Seq<CounterOp>) -> nat
    decreases ops.len(),
{
    if ops.len() == 0 {
        start
    } else {
        match ops.last() {
            CounterOp::Add(n) => value_after(start, ops.drop_last()) + n as nat,
            CounterOp::Drain => 0,
        }
    }
}

/// The sum of the values that the drains of `ops` return, on a counter that held `start`.
pub open spec fn drained_by(start: nat, ops: Seq<CounterOp>) -> nat
    decreases ops.len(),
{
    if ops.len() == 0 {
        0
    } else {
        drained_by(start, ops.drop_last()) + match ops.last() {
            CounterOp::Add(_) => 0,
            CounterOp::Drain => value_after(start, ops.drop_last()),
        }
    }
}

/// Conservation: over any sequence of adds and drains on a fresh counter, what
/// the drains returned plus what is left undrained is exactly what was added.
/// No byte is lost and none is counted twice.
pub proof fn lemma_counter_conservation(ops: Seq<CounterOp>)
    ensures
        drained_by(0, ops) + value_after(0, ops) == added_by(ops),
    decreases ops.len(),
{
    if ops.len() > 0 {
        lemma_counter_conservation(ops.drop_last());
    }
}

/// Runs `op` on `c`: what `add` and `drain` do, one step of a sequence.
/// Returns what a drain returned, or zero for an add.
pub fn apply_op(c: &mut ByteCounter, op: CounterOp) -> (r: u64)
    requires
        op matches CounterOp::Add(n) ==> old(c)@ + n <= u64::MAX,
    ensures
        final(c)@ == value_after(old(c)@, seq![op]),
        r == drained_by(old(c)@, seq![op]),
{
    proof {
        assert(seq![op].drop_last() =~= Seq::<CounterOp>::empty());
        assert(drained_by(c@, Seq::<CounterOp>::empty()) == 0);
        assert(value_after(c@, Seq::<CounterOp>::empty()) == c@);
    }
    match op {
        CounterOp::Add(n) => {
            c.add(n);
            0
        },
        CounterOp::Drain => c.drain(),
    }
}

/// The counter as two threads of control share it: adds and drains are each a
/// single atomic step of a 64-bit integer, with no lock. The value moves with
/// the other thread, so nothing is stated of what a drain observes; its rules
/// are those of [`ByteCounter`]. An add that would pass `u64::MAX` wraps.
pub struct SharedCounter {
    cell: core::sync::atomic::AtomicU64,
}

impl SharedCounter {
    pub fn new() -> (c: SharedCounter) {
        SharedCounter { cell: core::sync::atomic::AtomicU64::new(0) }
    }

    /// Counts `n` more bytes, in one atomic step.
    pub fn add(&self, n: u64) {
        self.cell.fetch_add(n, core::sync::atomic::Ordering::SeqCst);
    }

    /// Reads the count and resets it to zero, in one atomic step.
    pub fn drain(&self) -> (r: u64) {
        self.cell.swap(0, core::sync::atomic::Ordering::SeqCst)
    }
}

} // verus!

use vstd::prelude::*;

use crate::counter::ByteCounter;

verus! {

/// The most bytes that one read of the source may hand over.
pub const BUF_CAP: usize = 8192;

/// Where the copier stands in a transfer.
#[derive(Clone, Copy, Debug, PartialEq, Eq, Structural)]
pub enum CopyPhase {
    /// Waiting for the next chunk from the source.
    Reading,
    /// A chunk of this many bytes was handed over for writing.
    Writing(usize),
    /// The source ended; completion was signalled.
    Done,
    /// A read or a write failed.
    Failed,
}

/// What the copier asks its driver to do next.
pub enum CopyStep {
    /// Write these bytes, in this order, to the sink, then report it with `on_written`.
    Write(Vec<u8>),
    /// The source is exhausted: fire the completion signal.
    Complete,
    /// The transfer has failed: report the error through the completion signal.
    Fail,
}

/// The copier's state as a model: its phase, every byte read from the source so
/// far, and every byte confirmed written to the sink.
pub ghost struct CopierView {
    pub phase: CopyPhase,
    pub read: Seq<u8>,
    pub written: Seq<u8>,
}

/// The copier's decisions. Its driver performs each read and write on the real
/// source and sink and reports back; the copier decides what is written, when
/// the counter grows and when completion fires.
pub struct Copier {
    phase: CopyPhase,
    moved: u64,
    read: Ghost<Seq<u8>>,
    written: Ghost<Seq<u8>>,
}

impl View for Copier {
    type V = CopierView;

    closed spec fn view(&self) -> CopierView {
        CopierView { phase: self.phase, read: self.read@, written: self.written@ }
    }
}

impl Copier {
    /// The copier's invariant: what was written is what was read, except for
    /// the chunk that is being written, which is the tail of what was read,
    /// and after a failure, which may strike in the middle of a chunk.
    pub closed spec fn wf(&self) -> bool {
        &&& self.moved as nat == self.written@.len()
        &&& match self.phase {
            CopyPhase::Writing(n) => {
                &&& 0 < n <= BUF_CAP
                &&& self.read@ == self.written@ + self.read@.skip(self.written@.len() as int)
                &&& self.read@.len() == self.written@.len() + n
            },
            CopyPhase::Failed => true,
            _ => self.read@ == self.written@,
        }
    }

    pub fn new() -> (c: Copier)
        ensures
            c.wf(),
            c@.phase == CopyPhase::Reading,
            c@.read == Seq::<u8>::empty(),
            c@.written == Seq::<u8>::empty(),
    {
        Copier { phase: CopyPhase::Reading, moved: 0, read: Ghost(Seq::empty()), written: Ghost(Seq::empty()) }
    }

    pub fn phase(&self) -> (r: CopyPhase)
        ensures
            r == self@.phase,
    {
        self.phase
    }

    /// The bytes confirmed written so far.
    pub fn moved(&self) -> (r: u64)
        requires
            self.wf(),
        ensures
            r == self@.written.len(),
    {
        self.moved
    }

    /// Takes the chunk that one read of the source returned. An empty chunk is
    /// the end of the stream: the copier is then done and asks, this once, for
    /// completion to fire. Any other chunk is handed back to be written verbatim.
    pub fn on_read(&mut self, chunk: Vec<u8>) -> (step: CopyStep)
        requires
            old(self).wf(),
            old(self)@.phase == CopyPhase::Reading,
            chunk@.len() <= BUF_CAP,
        ensures
            final(self).wf(),
            final(self)@.written == old(self)@.written,
            final(self)@.read == old(self)@.read + chunk@,
            chunk@.len() == 0 ==> step is Complete && final(self)@.phase == CopyPhase::Done,
            chunk@.len() > 0 ==> (step matches CopyStep::Write(b) && b@ == chunk@)
                && final(self)@.phase == CopyPhase::Writing(chunk@.len() as usize),
    {
        let n = chunk.len();
        proof {
            self.read@ = self.read@ + chunk@;
            assert(self.read@.skip(self.written@.len() as int) =~= chunk@);
        }
        if n == 0 {
            proof {
                assert(self.read@ =~= self.written@);
            }
            self.phase = CopyPhase::Done;
            CopyStep::Complete
        } else {
            self.phase = CopyPhase::Writing(n);
            CopyStep::Write(chunk)
        }
    }

    /// Records that the chunk handed over was written in full, and returns its
    /// length: the amount to add to the shared counter.
    pub fn on_written(&mut self) -> (n: u64)
        requires
            old(self).wf(),
            old(self)@.phase is Writing,
            old(self)@.read.len() <= u64::MAX,
        ensures
            final(self).wf(),
            final(self)@.phase == CopyPhase::Reading,
            final(self)@.read == old(self)@.read,
            final(self)@.written == old(self)@.read,
            n == old(self)@.read.len() - old(self)@.written.len(),
    {
        let n = match self.phase {
            CopyPhase::Writing(n) => n,
            _ => 0,
        };
        proof {
            self.written@ = self.read@;
        }
        self.moved = self.moved + n as u64;
        self.phase = CopyPhase::Reading;
        n as u64
    }

    /// Records that a read or a write failed. The transfer ends in failure; what
    /// was confirmed written stays as it was.
    pub fn on_error(&mut self) -> (step: CopyStep)
        requires
            old(self).wf(),
            old(self)@.phase is Reading || old(self)@.phase is Writing,
        ensures
            step is Fail,
            final(self)@.phase == CopyPhase::Failed,
            final(self)@.written == old(self)@.written,
            final(self).wf(),
    {
        self.phase = CopyPhase::Failed;
        CopyStep::Fail
    }
}

/// Fidelity: once the source has ended, the sink holds exactly the bytes read
/// from the source, in their order, none missing and none added.
pub proof fn lemma_done_is_faithful(c: Copier)
    requires
        c.wf(),
        c@.phase == CopyPhase::Done,
    ensures
        c@.written == c@.read,
{
}

/// The next chunk of an in-memory source: the bytes of `data` from `pos` on,
/// at most `cap` of them. It is empty once `pos` reaches the end.
pub fn next_chunk(data: &Vec<u8>, pos: usize, cap: usize) -> (chunk: Vec<u8>)
    requires
        pos <= data@.len(),
    ensures
        chunk@ == data@.subrange(pos as int, if data@.len() - pos <= cap { data@.len() as int } else { pos + cap }),
{
    let end: usize = if data.len() - pos <= cap { data.len() } else { pos + cap };
    let mut chunk: Vec<u8> = Vec::new();
    let mut i: usize = pos;
    while i < end
        invariant
            pos <= i <= end <= data@.len(),
            chunk@ == data@.subrange(pos as int, i as int),
        decreases end - i,
    {
        chunk.push(data[i]);
        i = i + 1;
        proof {
            assert(chunk@ =~= data@.subrange(pos as int, i as int));
        }
    }
    chunk
}

/// What a copy from an in-memory source did.
#[derive(Clone, Copy, Debug, PartialEq, Eq, Structural)]
pub struct CopyReport {
    /// The reads that returned data, each followed by one write and one add.
    pub chunks: usize,
    /// How many times completion fired.
    pub completions: usize,
    /// The bytes written to the sink and added to the counter.
    pub bytes: u64,
}

/// Runs a whole transfer from the in-memory source `input`, read in chunks of
/// at most `cap` bytes, to `sink`, counting each written chunk on `counter`.
/// The sink receives exactly the input, the counter grows by exactly its
/// length, the reads that return data are `input.len() / cap` rounded up, and
/// completion fires once, after the one read that came back empty.
pub fn copy_buffer(input: &Vec<u8>, cap: usize, sink: &mut Vec<u8>, counter: &mut ByteCounter) -> (report: CopyReport)
    requires
        0 < cap <= BUF_CAP,
        old(counter)@ + input@.len() <= u64::MAX,
    ensures
        final(sink)@ == old(sink)@ + input@,
        final(counter)@ == old(counter)@ + input@.len(),
        report.bytes == input@.len(),
        report.completions == 1,
        report.chunks * cap >= input@.len(),
        report.chunks == 0 || (report.chunks - 1) * cap < input@.len(),
{
    let mut copier = Copier::new();
    let mut pos: usize = 0;
    let mut chunks: usize = 0;
    while pos < input.len()
        invariant
            0 < cap <= BUF_CAP,
            old(counter)@ + input@.len() <= u64::MAX,
            pos <= input@.len(),
            copier.wf(),
            copier@.phase == CopyPhase::Reading,
            copier@.read == input@.take(pos as int),
            copier@.written == copier@.read,
            sink@ == old(sink)@ + input@.take(pos as int),
            counter@ == old(counter)@ + pos,
            chunks <= pos,
            chunks * cap >= pos,
            chunks == 0 || (chunks - 1) * cap < pos,
            pos < input@.len() ==> pos == chunks * cap,
        decreases input@.len() - pos,
    {
        let chunk = next_chunk(input, pos, cap);
        let step = copier.on_read(chunk);
        match step {
            CopyStep::Write(mut b) => {
                let len = b.len();
                sink.append(&mut b);
                let n = copier.on_written();
                counter.add(n);
                proof {
                    assert(input@.take(pos as int) + input@.subrange(pos as int, pos + len) =~= input@.take(pos + len));
                    assert((chunks + 1) * cap == chunks * cap + cap) by (nonlinear_arith);
                }
                pos = pos + len;
                chunks = chunks + 1;
            },
            CopyStep::Complete | CopyStep::Fail => {
                proof {
                    assert(false);
                }
            },
        }
    }
    proof {
        assert(input@.take(pos as int) =~= input@);
    }
    let mut completions: usize = 0;
    let last = next_chunk(input, pos, cap);
    let step = copier.on_read(last);
    if let CopyStep::Complete = step {
        completions = completions + 1;
    }
    CopyReport { chunks, completions, bytes: pos as u64 }
}

} // verus!

//! Copying with a ceiling: bytes go from a source to a sink chunk by chunk,
//! and the copy is abandoned as soon as more than the allowed number have
//! been written. What was written stays written.

use vstd::prelude::*;

verus! {

/// Size of the buffer a streaming caller reads into.
pub const CHUNK_SIZE: usize = 8192;

/// Why a copy was abandoned.
#[derive(Debug, Clone, Copy, PartialEq, Eq, Structural)]
pub enum CopyError {
    /// The source failed with something other than an interruption.
    Read,
    /// The sink refused a chunk.
    Write,
    /// More than the allowed number of bytes arrived.
    TooLarge,
}

/// What the caller saw on its last read or write.
#[derive(Debug, Clone, Copy, PartialEq, Eq, Structural)]
pub enum CopyEvent {
    /// A read returned this many bytes; none means the source is exhausted.
    Read(usize),
    /// A read was interrupted before it returned anything.
    ReadInterrupted,
    /// A read failed for good.
    ReadFailed,
    /// The chunk of this many bytes was written out in full.
    Wrote(usize),
    /// The chunk could not be written.
    WriteFailed,
}

/// What the caller does next.
#[derive(Debug, Clone, Copy, PartialEq, Eq, Structural)]
pub enum CopyStep {
    /// Write the chunk of this many bytes that was just read.
    Write(usize),
    /// Read the next chunk.
    ReadAgain,
    /// The source is exhausted: this many bytes were copied.
    Finished(u64),
    /// Stop; nothing more is read or written.
    Failed(CopyError),
}

/// Progress of one copy.
#[derive(Debug, Clone, Copy, PartialEq, Eq, Structural)]
pub struct BoundedCopy {
    /// Bytes written so far.
    pub written: u64,
    /// The most that may be written.
    pub max_size: u64,
}

impl BoundedCopy {
    /// While a copy runs it has not written more than allowed.
    pub open spec fn wf(self) -> bool {
        self.written <= self.max_size
    }

    /// The step that answers `event`.
    pub open spec fn step_for(self, event: CopyEvent) -> CopyStep {
        match event {
            CopyEvent::Read(n) => if n == 0 {
                CopyStep::Finished(self.written)
            } else {
                CopyStep::Write(n)
            },
            CopyEvent::ReadInterrupted => CopyStep::ReadAgain,
            CopyEvent::ReadFailed => CopyStep::Failed(CopyError::Read),
            CopyEvent::Wrote(n) => if self.written + n > self.max_size {
                CopyStep::Failed(CopyError::TooLarge)
            } else {
                CopyStep::ReadAgain
            },
            CopyEvent::WriteFailed => CopyStep::Failed(CopyError::Write),
        }
    }

    /// The count after `event`: a chunk written within the limit is added,
    /// nothing else moves it.
    pub open spec fn written_after(self, event: CopyEvent) -> int {
        match event {
            CopyEvent::Wrote(n) if self.written + n <= self.max_size => self.written + n,
            _ => self.written as int,
        }
    }

    /// A copy that has written nothing yet.
    pub fn new(max_size: u64) -> (state: BoundedCopy)
        ensures
            state.written == 0,
            state.max_size == max_size,
            state.wf(),
    {
        BoundedCopy { written: 0, max_size }
    }

    /// Takes in what the caller saw and says what to do next.
    pub fn advance(&mut self, event: CopyEvent) -> (step: CopyStep)
        ensures
            step == old(self).step_for(event),
            final(self).written == old(self).written_after(event),
            final(self).max_size == old(self).max_size,
            old(self).wf() ==> final(self).wf(),
    {
        match event {
            CopyEvent::Read(n) => {
                if n == 0 {
                    CopyStep::Finished(self.written)
                } else {
                    CopyStep::Write(n)
                }
            },
            CopyEvent::ReadInterrupted => CopyStep::ReadAgain,
            CopyEvent::ReadFailed => CopyStep::Failed(CopyError::Read),
            CopyEvent::Wrote(n) => {
                if self.written > self.max_size || n as u64 > self.max_size - self.written {
                    CopyStep::Failed(CopyError::TooLarge)
                } else {
                    self.written = self.written + n as u64;
                    CopyStep::ReadAgain
                }
            },
            CopyEvent::WriteFailed => CopyStep::Failed(CopyError::Write),
        }
    }
}

/// One read of a source held in memory.
#[derive(Debug)]
pub enum SourceEvent {
    /// The read returned these bytes; none means the source is exhausted.
    Data(Vec<u8>),
    /// The read was interrupted.
    Interrupted,
    /// The read failed for good.
    Failed,
}

/// How a copy of `source` ends when `written` bytes were copied before it,
/// and the bytes it hands to the sink on the way. A source that runs out of
/// events is exhausted.
pub open spec fn copy_outcome(source: Seq<SourceEvent>, written: nat, max: nat) -> (
    Result<nat, CopyError>,
    Seq<u8>,
)
    decreases source.len(),
{
    if source.len() == 0 {
        (Ok(written), Seq::empty())
    } else {
        match source[0] {
            SourceEvent::Interrupted => copy_outcome(source.drop_first(), written, max),
            SourceEvent::Failed => (Err(CopyError::Read), Seq::empty()),
            SourceEvent::Data(bytes) => if bytes@.len() == 0 {
                (Ok(written), Seq::empty())
            } else if written + bytes@.len() > max {
                (Err(CopyError::TooLarge), bytes@)
            } else {
                let rest = copy_outcome(source.drop_first(), written + bytes@.len(), max);
                (rest.0, bytes@ + rest.1)
            },
        }
    }
}

/// The source only ever delivers bytes or is interrupted: no failure, and no
/// empty read before its end.
pub open spec fn delivers_all(source: Seq<SourceEvent>) -> bool {
    forall|i: int|
        0 <= i < source.len() ==> match #[trigger] source[i] {
            SourceEvent::Data(bytes) => bytes@.len() > 0,
            SourceEvent::Interrupted => true,
            SourceEvent::Failed => false,
        }
}

/// Every byte the source holds, in order.
pub open spec fn payload(source: Seq<SourceEvent>) -> Seq<u8>
    decreases source.len(),
{
    if source.len() == 0 {
        Seq::empty()
    } else {
        match source[0] {
            SourceEvent::Data(bytes) => bytes@ + payload(source.drop_first()),
            _ => payload(source.drop_first()),
        }
    }
}

fn append_bytes(sink: &mut Vec<u8>, bytes: &Vec<u8>)
    ensures
        final(sink)@ == old(sink)@ + bytes@,
{
    let mut k: usize = 0;
    while k < bytes.len()
        invariant
            k <= bytes.len(),
            sink@ == old(sink)@ + bytes@.take(k as int),
        decreases bytes.len() - k,
    {
        sink.push(bytes[k]);
        k = k + 1;
        assert(bytes@.take(k as int) == bytes@.take(k - 1).push(bytes@[k - 1]));
    }
    assert(bytes@.take(k as int) == bytes@);
}

/// Copies `source` into `sink`, one read at a time, and stops as soon as more
/// than `upload_max_size` bytes have been written. On success the result is
/// the number of bytes copied. The chunk that crosses the limit is written
/// before the copy is abandoned, and nothing is taken back.
pub fn copy(source: &Vec<SourceEvent>, sink: &mut Vec<u8>, upload_max_size: u64) -> (r: Result<
    u64,
    CopyError,
>)
    ensures
        final(sink)@ == old(sink)@ + copy_outcome(source@, 0, upload_max_size as nat).1,
        match copy_outcome(source@, 0, upload_max_size as nat).0 {
            Ok(n) => r == Ok::<u64, CopyError>(n as u64) && n <= upload_max_size,
            Err(e) => r == Err::<u64, CopyError>(e),
        },
{
    let ghost max = upload_max_size as nat;
    let ghost whole = copy_outcome(source@, 0, max);
    let mut state = BoundedCopy::new(upload_max_size);
    let mut i: usize = 0;
    assert(source@.skip(0) == source@);
    while i < source.len()
        invariant
            i <= source.len(),
            state.wf(),
            state.max_size == upload_max_size,
            max == upload_max_size as nat,
            whole == copy_outcome(source@, 0, max),
            whole.0 == copy_outcome(source@.skip(i as int), state.written as nat, max).0,
            old(sink)@ + whole.1 == sink@ + copy_outcome(
                source@.skip(i as int),
                state.written as nat,
                max,
            ).1,
        decreases source.len() - i,
    {
        let ghost here = source@.skip(i as int);
        assert(here.len() > 0);
        assert(here[0] == source@[i as int]);
        assert(here.drop_first() == source@.skip(i + 1));
        let event = match &source[i] {
            SourceEvent::Data(bytes) => CopyEvent::Read(bytes.len()),
            SourceEvent::Interrupted => CopyEvent::ReadInterrupted,
            SourceEvent::Failed => CopyEvent::ReadFailed,
        };
        match state.advance(event) {
            CopyStep::Write(n) => {
                if let SourceEvent::Data(bytes) = &source[i] {
                    let ghost before = sink@;
                    append_bytes(sink, bytes);
                    match state.advance(CopyEvent::Wrote(n)) {
                        CopyStep::Failed(e) => {
                            assert(sink@ + Seq::<u8>::empty() == sink@);
                            return Err(e);
                        },
                        _ => {
                            let ghost rest = copy_outcome(
                                source@.skip(i + 1),
                                state.written as nat,
                                max,
                            ).1;
                            assert(before + (bytes@ + rest) == (before + bytes@) + rest);
                        },
                    }
                }
            },
            CopyStep::ReadAgain => {},
            CopyStep::Finished(n) => {
                assert(sink@ + Seq::<u8>::empty() == sink@);
                return Ok(n);
            },
            CopyStep::Failed(e) => {
                assert(sink@ + Seq::<u8>::empty() == sink@);
                return Err(e);
            },
        }
        i = i + 1;
    }
    assert(sink@ + Seq::<u8>::empty() == sink@);
    Ok(state.written)
}

proof fn lemma_tail_delivers_all(source: Seq<SourceEvent>)
    requires
        source.len() > 0,
        delivers_all(source),
    ensures
        delivers_all(source.drop_first()),
{
    let tail = source.drop_first();
    assert forall|i: int| 0 <= i < tail.len() implies match #[trigger] tail[i] {
        SourceEvent::Data(bytes) => bytes@.len() > 0,
        SourceEvent::Interrupted => true,
        SourceEvent::Failed => false,
    } by {
        assert(tail[i] == source[i + 1]);
    }
}

/// A source that delivers no more than the limit leaves room for is copied
/// whole: the copy succeeds, reports every byte, and the sink receives
/// exactly the source's bytes.
pub proof fn lemma_copy_within_limit(source: Seq<SourceEvent>, written: nat, max: nat)
    requires
        delivers_all(source),
        written + payload(source).len() <= max,
    ensures
        copy_outcome(source, written, max) == (
            Ok::<nat, CopyError>(written + payload(source).len()),
            payload(source),
        ),
    decreases source.len(),
{
    if source.len() > 0 {
        lemma_tail_delivers_all(source);
        match source[0] {
            SourceEvent::Data(bytes) => {
                lemma_copy_within_limit(source.drop_first(), written + bytes@.len(), max);
            },
            _ => {
                lemma_copy_within_limit(source.drop_first(), written, max);
            },
        }
    }
}

/// A source that delivers more than the limit leaves room for never
/// succeeds: the copy ends as too large, and what reached the sink is the
/// start of the source's bytes, up to and including the chunk that crossed
/// the limit.
pub proof fn lemma_copy_over_limit(source: Seq<SourceEvent>, written: nat, max: nat)
    requires
        delivers_all(source),
        written <= max,
        written + payload(source).len() > max,
    ensures
        copy_outcome(source, written, max).0 == Err::<nat, CopyError>(CopyError::TooLarge),
        written + copy_outcome(source, written, max).1.len() > max,
        copy_outcome(source, written, max).1.len() <= payload(source).len(),
        copy_outcome(source, written, max).1 == payload(source).take(
            copy_outcome(source, written, max).1.len() as int,
        ),
    decreases source.len(),
{
    if source.len() > 0 {
        lemma_tail_delivers_all(source);
        let tail = source.drop_first();
        match source[0] {
            SourceEvent::Data(bytes) => {
                if written + bytes@.len() > max {
                    assert((bytes@ + payload(tail)).take(bytes@.len() as int) == bytes@);
                } else {
                    lemma_copy_over_limit(tail, written + bytes@.len(), max);
                    let rest = copy_outcome(tail, written + bytes@.len(), max).1;
                    assert((bytes@ + payload(tail)).take((bytes@.len() + rest.len()) as int)
                        == bytes@ + payload(tail).take(rest.len() as int));
                }
            },
            _ => {
                lemma_copy_over_limit(tail, written, max);
            },
        }
    }
}

/// With a limit of `max`, a source of exactly `max + 1` bytes fails as too
/// large, and by then all `max + 1` bytes have been written.
pub proof fn lemma_copy_one_byte_over(source: Seq<SourceEvent>, max: nat)
    requires
        delivers_all(source),
        payload(source).len() == max + 1,
    ensures
        copy_outcome(source, 0, max) == (
            Err::<nat, CopyError>(CopyError::TooLarge),
            payload(source),
        ),
{
    lemma_copy_over_limit(source, 0, max);
    let out = copy_outcome(source, 0, max).1;
    assert(payload(source).take(out.len() as int) == payload(source));
}

} // verus!

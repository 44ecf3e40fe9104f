//! The streaming relay: the chunked loop that moves an unbounded byte
//! stream between a spawned child process and a file, in bounded-size
//! chunks, with cumulative progress accounting.
//!
//! The blocking reads and writes themselves happen outside the library.
//! Each loop iteration hands the result of one read to [`relay_step`],
//! which accounts for the bytes and decides what to do next: deliver
//! exactly the bytes read, finish on end of stream, or abort on a read
//! failure.  The trace of bytes moved is carried as a ghost sequence,
//! so stream fidelity and progress accounting are stated and proved
//! over the whole transfer.

use vstd::prelude::*;
use crate::outcome::Outcome;

verus! {

/// Size of the fixed relay buffer: at most this many bytes move in one
/// step.
pub const CHUNK_SIZE: usize = 4096;

/// Cumulative transfer accounting for one streamed action, read by the
/// progress display.  `moved` is the mathematical trace of every byte
/// relayed so far, in order.
pub struct TransferState {
    pub bytes_moved: u64,
    pub total: Option<u64>,
    pub moved: Ghost<Seq<u8>>,
}

impl TransferState {
    /// The byte counter agrees with the trace.
    pub open spec fn wf(self) -> bool {
        self.bytes_moved as nat == self.moved@.len()
    }

    /// A fresh transfer: nothing moved yet.  `total` is the size of the
    /// source when it is knowable up front (restore, from the dump
    /// file's size), `None` otherwise (dump, whose output size is
    /// unknown until the stream ends).
    pub fn start(total: Option<u64>) -> (st: TransferState)
        ensures
            st.wf(),
            st.bytes_moved == 0,
            st.moved@ == Seq::<u8>::empty(),
            st.total == total,
    {
        TransferState { bytes_moved: 0, total, moved: Ghost(Seq::empty()) }
    }
}

/// What one blocking read on the source stream produced.
pub enum ReadEvent {
    /// The read returned these bytes.
    Chunk(Vec<u8>),
    /// The read returned zero bytes: end of stream.
    Eof,
    /// The read failed.  Carries the error text.
    Failed(String),
}

/// What the relay decides after one read.
pub enum RelayDirective {
    /// Write exactly these bytes to the sink, then read again.
    Deliver(Vec<u8>),
    /// End of stream: stop successfully and finalize the progress
    /// display, exactly once.
    Finish,
    /// Abort the transfer with this failure.
    Abort(Outcome),
}

/// The step one delivered chunk makes on the trace: appended at the
/// end.
pub open spec fn step_moved(moved: Seq<u8>, chunk: Seq<u8>) -> Seq<u8> {
    moved + chunk
}

/// One step of the relay loop.  A chunk advances the counter and the
/// trace by exactly the bytes read, and those same bytes — unchanged,
/// in order — are what gets delivered to the sink.  End of stream
/// finishes the transfer with the state untouched; a failed read aborts
/// it as an I/O failure carrying the error text.  The counter never
/// decreases.
pub fn relay_step(st: &mut TransferState, ev: ReadEvent) -> (d: RelayDirective)
    requires
        old(st).wf(),
        ev matches ReadEvent::Chunk(c) ==> old(st).bytes_moved + c@.len() <= u64::MAX,
    ensures
        final(st).wf(),
        final(st).total == old(st).total,
        old(st).bytes_moved <= final(st).bytes_moved,
        ev matches ReadEvent::Chunk(c) ==> {
            &&& final(st).moved@ == step_moved(old(st).moved@, c@)
            &&& final(st).bytes_moved == old(st).bytes_moved + c@.len()
            &&& d matches RelayDirective::Deliver(out) && out@ == c@
        },
        ev matches ReadEvent::Eof ==> *final(st) == *old(st) && d matches RelayDirective::Finish,
        ev matches ReadEvent::Failed(m) ==> *final(st) == *old(st) && (d matches
            RelayDirective::Abort(o) && o matches Outcome::IoFailure(t) && t@ == m@),
{
    match ev {
        ReadEvent::Chunk(c) => {
            st.bytes_moved = st.bytes_moved + c.len() as u64;
            st.moved = Ghost(st.moved@ + c@);
            RelayDirective::Deliver(c)
        },
        ReadEvent::Eof => RelayDirective::Finish,
        ReadEvent::Failed(m) => RelayDirective::Abort(Outcome::IoFailure(m)),
    }
}

/// The trace after relaying `chunks` one step at a time, starting from
/// `moved`: the iterated form of [`step_moved`], exactly what a run of
/// [`relay_step`] calls produces.
pub open spec fn relayed_after(moved: Seq<u8>, chunks: Seq<Seq<u8>>) -> Seq<u8>
    decreases chunks.len(),
{
    if chunks.len() == 0 {
        moved
    } else {
        relayed_after(step_moved(moved, chunks.first()), chunks.drop_first())
    }
}

/// The concatenation of a sequence of chunks.
pub open spec fn concat_chunks(chunks: Seq<Seq<u8>>) -> Seq<u8>
    decreases chunks.len(),
{
    if chunks.len() == 0 {
        Seq::empty()
    } else {
        chunks.first() + concat_chunks(chunks.drop_first())
    }
}

/// The total byte count of a sequence of chunks.
pub open spec fn chunk_total(chunks: Seq<Seq<u8>>) -> nat
    decreases chunks.len(),
{
    if chunks.len() == 0 {
        0
    } else {
        chunks.first().len() + chunk_total(chunks.drop_first())
    }
}

/// Stream fidelity: relaying a sequence of chunks step by step extends
/// the trace by exactly their concatenation, in order — no gaps, no
/// duplication.  Since each [`relay_step`] makes one [`step_moved`] and
/// delivers the chunk it read unchanged, the bytes handed to the sink
/// over a whole transfer equal the bytes read from the source, in both
/// directions of the relay.
pub proof fn lemma_stream_fidelity(moved: Seq<u8>, chunks: Seq<Seq<u8>>)
    ensures
        relayed_after(moved, chunks) == moved + concat_chunks(chunks),
    decreases chunks.len(),
{
    if chunks.len() == 0 {
        assert(relayed_after(moved, chunks) =~= moved + concat_chunks(chunks));
    } else {
        lemma_stream_fidelity(step_moved(moved, chunks.first()), chunks.drop_first());
        assert(relayed_after(moved, chunks) =~= moved + concat_chunks(chunks));
    }
}

/// Progress accounting, totality: after relaying chunks totalling N
/// bytes, the trace — and with it the reported cumulative count — has
/// grown by exactly N.
pub proof fn lemma_progress_total(moved: Seq<u8>, chunks: Seq<Seq<u8>>)
    ensures
        relayed_after(moved, chunks).len() == moved.len() + chunk_total(chunks),
    decreases chunks.len(),
{
    if chunks.len() > 0 {
        lemma_progress_total(step_moved(moved, chunks.first()), chunks.drop_first());
    }
}

/// Chunk totals add up over concatenation.
proof fn lemma_chunk_total_concat(a: Seq<Seq<u8>>, b: Seq<Seq<u8>>)
    ensures
        chunk_total(a + b) == chunk_total(a) + chunk_total(b),
    decreases a.len(),
{
    if a.len() == 0 {
        assert(a + b =~= b);
    } else {
        assert((a + b).drop_first() =~= a.drop_first() + b);
        lemma_chunk_total_concat(a.drop_first(), b);
    }
}

/// Progress accounting, monotonicity: across a transfer the cumulative
/// count never decreases — after any longer prefix of the chunks the
/// count is at least what it was after any shorter prefix.
pub proof fn lemma_progress_monotonic(moved: Seq<u8>, chunks: Seq<Seq<u8>>, i: int, j: int)
    requires
        0 <= i <= j <= chunks.len(),
    ensures
        relayed_after(moved, chunks.take(i)).len() <= relayed_after(moved, chunks.take(j)).len(),
{
    lemma_progress_total(moved, chunks.take(i));
    lemma_progress_total(moved, chunks.take(j));
    assert(chunks.take(j) =~= chunks.take(i) + chunks.subrange(i, j));
    lemma_chunk_total_concat(chunks.take(i), chunks.subrange(i, j));
}

} // verus!

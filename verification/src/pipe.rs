use vstd::prelude::*;
use crate::packet_handler::Direction;
use crate::packet_handler::PacketHandler;

verus! {

/// Why a pipe stopped before its source reached a clean end of stream. An
/// inspection refusal aborts the pipe exactly as an endpoint failure does.
#[derive(Clone, Copy, PartialEq, Eq, Structural, Debug)]
pub enum PipeError {
    Read,
    Write,
    Inspect,
}

/// Where a pipe stands in its read / inspect / write cycle. The phase tells
/// the driving loop what to do next: read another chunk, offer the chunk just
/// read to the handler, write the handler's answer out, or stop with the
/// recorded outcome.
#[derive(Clone, Copy, PartialEq, Eq, Debug)]
pub enum PipePhase {
    Reading,
    Inspecting,
    Writing,
    Done(Result<(), PipeError>),
}

/// One unidirectional relay loop, as a state machine over the events its two
/// endpoints and the shared handler can produce. The machine holds the whole
/// decision logic of a pipe — when to keep going, when a stream has ended
/// cleanly, and which failure ends it — while the endpoints themselves stay
/// outside. Three ghost histories record the chunks read from the source, the
/// chunks the handler returned, and the chunks confirmed written to the
/// destination, so that what a pipe delivered can be related to what it read.
pub struct PipeMachine {
    /// The flow this pipe carries; fixed at construction.
    pub direction: Direction,
    /// The current phase of the read / inspect / write cycle.
    pub phase: PipePhase,
    /// Every chunk read from the source, in stream order.
    pub reads: Ghost<Seq<Seq<u8>>>,
    /// Every chunk the handler returned, in stream order.
    pub outputs: Ghost<Seq<Seq<u8>>>,
    /// Every chunk confirmed written to the destination, in stream order.
    pub written: Ghost<Seq<Seq<u8>>>,
}

impl PipeMachine {
    /// The machine's invariant: what was written is exactly the already
    /// delivered prefix of what the handler returned, and the three histories
    /// are in step with the phase.
    pub open spec fn wf(&self) -> bool {
        &&& forall|i: int|
            0 <= i < self.written@.len() ==> #[trigger] self.written@[i] == self.outputs@[i]
        &&& match self.phase {
            PipePhase::Reading => {
                &&& self.reads@.len() == self.outputs@.len()
                &&& self.outputs@.len() == self.written@.len()
            },
            PipePhase::Inspecting => {
                &&& self.reads@.len() == self.outputs@.len() + 1
                &&& self.outputs@.len() == self.written@.len()
            },
            PipePhase::Writing => {
                &&& self.reads@.len() == self.outputs@.len()
                &&& self.outputs@.len() == self.written@.len() + 1
            },
            PipePhase::Done(r) => {
                &&& self.written@.len() <= self.outputs@.len()
                &&& self.outputs@.len() <= self.reads@.len()
                &&& r is Ok ==> self.written@.len() == self.reads@.len()
            },
        }
    }

    /// A fresh pipe for one direction, about to read its first chunk.
    pub fn new(direction: Direction) -> (m: Self)
        ensures
            m.wf(),
            m.direction == direction,
            m.phase is Reading,
            m.reads@ == Seq::<Seq<u8>>::empty(),
            m.outputs@ == Seq::<Seq<u8>>::empty(),
            m.written@ == Seq::<Seq<u8>>::empty(),
    {
        PipeMachine {
            direction,
            phase: PipePhase::Reading,
            reads: Ghost(Seq::empty()),
            outputs: Ghost(Seq::empty()),
            written: Ghost(Seq::empty()),
        }
    }

    /// The source produced a unit of data (a read of zero bytes is not data
    /// but a clean end of stream, see `on_read_eof`). The chunk must next be
    /// offered to the handler.
    pub fn on_read_data(&mut self, chunk: &[u8])
        requires
            old(self).wf(),
            old(self).phase is Reading,
            chunk@.len() > 0,
        ensures
            final(self).wf(),
            final(self).direction == old(self).direction,
            final(self).phase is Inspecting,
            final(self).reads@ == old(self).reads@.push(chunk@),
            final(self).outputs@ == old(self).outputs@,
            final(self).written@ == old(self).written@,
    {
        self.phase = PipePhase::Inspecting;
        self.reads = Ghost(self.reads@.push(chunk@));
    }

    /// The source reported end of stream: the peer has closed its side, the
    /// pipe is complete, and its outcome is success.
    pub fn on_read_eof(&mut self) -> (r: Result<(), PipeError>)
        requires
            old(self).wf(),
            old(self).phase is Reading,
        ensures
            final(self).wf(),
            final(self).direction == old(self).direction,
            final(self).phase == PipePhase::Done(Ok::<(), PipeError>(())),
            final(self).reads@ == old(self).reads@,
            final(self).outputs@ == old(self).outputs@,
            final(self).written@ == old(self).written@,
            r == Ok::<(), PipeError>(()),
    {
        self.phase = PipePhase::Done(Ok(()));
        Ok(())
    }

    /// The source failed: the pipe is complete and its outcome is a read
    /// error.
    pub fn on_read_error(&mut self) -> (r: Result<(), PipeError>)
        requires
            old(self).wf(),
            old(self).phase is Reading,
        ensures
            final(self).wf(),
            final(self).direction == old(self).direction,
            final(self).phase == PipePhase::Done(Err::<(), PipeError>(PipeError::Read)),
            final(self).reads@ == old(self).reads@,
            final(self).outputs@ == old(self).outputs@,
            final(self).written@ == old(self).written@,
            r == Err::<(), PipeError>(PipeError::Read),
    {
        self.phase = PipePhase::Done(Err(PipeError::Read));
        Err(PipeError::Read)
    }

    /// The handler returned a chunk for the unit just read; that chunk must
    /// next be written to the destination.
    pub fn on_inspect_ok(&mut self, out: &[u8])
        requires
            old(self).wf(),
            old(self).phase is Inspecting,
        ensures
            final(self).wf(),
            final(self).direction == old(self).direction,
            final(self).phase is Writing,
            final(self).reads@ == old(self).reads@,
            final(self).outputs@ == old(self).outputs@.push(out@),
            final(self).written@ == old(self).written@,
    {
        self.phase = PipePhase::Writing;
        self.outputs = Ghost(self.outputs@.push(out@));
    }

    /// The handler refused the unit just read: the pipe is complete and its
    /// outcome is an inspection error.
    pub fn on_inspect_error(&mut self) -> (r: Result<(), PipeError>)
        requires
            old(self).wf(),
            old(self).phase is Inspecting,
        ensures
            final(self).wf(),
            final(self).direction == old(self).direction,
            final(self).phase == PipePhase::Done(Err::<(), PipeError>(PipeError::Inspect)),
            final(self).reads@ == old(self).reads@,
            final(self).outputs@ == old(self).outputs@,
            final(self).written@ == old(self).written@,
            r == Err::<(), PipeError>(PipeError::Inspect),
    {
        self.phase = PipePhase::Done(Err(PipeError::Inspect));
        Err(PipeError::Inspect)
    }

    /// The destination confirmed the handler's chunk was written in full; the
    /// pipe goes back to reading.
    pub fn on_write_ok(&mut self)
        requires
            old(self).wf(),
            old(self).phase is Writing,
        ensures
            final(self).wf(),
            final(self).direction == old(self).direction,
            final(self).phase is Reading,
            final(self).reads@ == old(self).reads@,
            final(self).outputs@ == old(self).outputs@,
            final(self).written@ == old(self).written@.push(old(self).outputs@.last()),
    {
        self.phase = PipePhase::Reading;
        self.written = Ghost(self.written@.push(self.outputs@.last()));
    }

    /// The destination failed: the pipe is complete and its outcome is a
    /// write error.
    pub fn on_write_error(&mut self) -> (r: Result<(), PipeError>)
        requires
            old(self).wf(),
            old(self).phase is Writing,
        ensures
            final(self).wf(),
            final(self).direction == old(self).direction,
            final(self).phase == PipePhase::Done(Err::<(), PipeError>(PipeError::Write)),
            final(self).reads@ == old(self).reads@,
            final(self).outputs@ == old(self).outputs@,
            final(self).written@ == old(self).written@,
            r == Err::<(), PipeError>(PipeError::Write),
    {
        self.phase = PipePhase::Done(Err(PipeError::Write));
        Err(PipeError::Write)
    }
}

/// What a cleanly completed pipe delivered is exactly the sequence of chunks
/// its handler returned — one answer per chunk read, in stream order, with
/// nothing dropped, duplicated or reordered by the relay itself.
pub proof fn lemma_delivery_is_handler_output(m: PipeMachine)
    requires
        m.wf(),
        m.phase == PipePhase::Done(Ok::<(), PipeError>(())),
    ensures
        m.written@ == m.outputs@,
        m.outputs@.len() == m.reads@.len(),
{
    assert(m.written@ =~= m.outputs@);
}

/// When the handler returned every chunk unchanged — the identity transform —
/// a cleanly completed pipe's destination received exactly the byte sequence
/// its source produced, in order, with no gaps and no duplication.
pub proof fn lemma_identity_delivery(m: PipeMachine)
    requires
        m.wf(),
        m.phase == PipePhase::Done(Ok::<(), PipeError>(())),
        m.outputs@ == m.reads@,
    ensures
        m.written@ == m.reads@,
        m.written@.flatten() == m.reads@.flatten(),
{
    lemma_delivery_is_handler_output(m);
}

/// The byte sequences behind a sequence of chunks.
pub open spec fn views_of(chunks: Seq<Vec<u8>>) -> Seq<Seq<u8>> {
    chunks.map_values(|c: Vec<u8>| c@)
}

/// The state a handler is in after inspecting the first `i` chunks of `cs`,
/// all in direction `dir`, starting from state `h`.
pub open spec fn handler_after<H: PacketHandler>(
    h: H,
    dir: Direction,
    cs: Seq<Seq<u8>>,
    i: int,
) -> H
    decreases i,
{
    if i <= 0 {
        h
    } else {
        handler_after(h, dir, cs, i - 1).next_spec(dir, cs[i - 1])
    }
}

/// What the handler answers for chunk `j` of `cs`, given the state it reached
/// by inspecting the chunks before it: the chunk it forwards, or `None` for a
/// refusal.
pub open spec fn output_of<H: PacketHandler>(
    h0: H,
    dir: Direction,
    cs: Seq<Seq<u8>>,
    j: int,
) -> Option<Seq<u8>> {
    handler_after(h0, dir, cs, j).inspect_spec(dir, cs[j])
}

/// One whole pipe run over an in-memory stream: the source produces exactly
/// the non-empty chunks of `chunks` and then a clean end of stream, every
/// write succeeds, and `handler` inspects each unit in direction `dir`. The
/// result is the sequence of chunks the destination received, or the error
/// that ended the pipe — which here can only be a refusal by the handler.
///
/// Success is owed exactly when the handler refuses no chunk, and each
/// delivered chunk is exactly the handler's answer for the corresponding
/// chunk read, in stream order.
pub fn run_pipe<H: PacketHandler>(handler: &mut H, dir: Direction, chunks: &Vec<Vec<u8>>) -> (r:
    Result<Vec<Vec<u8>>, PipeError>)
    requires
        forall|t: int| 0 <= t < chunks@.len() ==> #[trigger] chunks@[t]@.len() > 0,
    ensures
        ({
            let cs = views_of(chunks@);
            &&& (r is Ok <==> (forall|j: int|
                0 <= j < cs.len() ==> #[trigger] output_of(*old(handler), dir, cs, j) is Some))
            &&& match r {
                Ok(outs) => {
                    &&& outs@.len() == cs.len()
                    &&& forall|j: int|
                        0 <= j < cs.len() ==> #[trigger] output_of(*old(handler), dir, cs, j)
                            == Some(outs@[j]@)
                    &&& *final(handler) == handler_after(*old(handler), dir, cs, cs.len() as int)
                },
                Err(e) => {
                    &&& e == PipeError::Inspect
                    &&& exists|k: int|
                        0 <= k < cs.len() && (#[trigger] output_of(*old(handler), dir, cs, k))
                            is None && (forall|j: int|
                            0 <= j < k ==> #[trigger] output_of(*old(handler), dir, cs, j) is Some)
                            && *final(handler) == handler_after(*old(handler), dir, cs, k).next_spec(
                            dir,
                            cs[k],
                        )
                },
            }
        }),
{
    let ghost cs = views_of(chunks@);
    let mut m = PipeMachine::new(dir);
    let mut outs: Vec<Vec<u8>> = Vec::new();
    let mut i: usize = 0;
    proof {
        assert(cs.take(0) =~= Seq::<Seq<u8>>::empty());
    }
    while i < chunks.len()
        invariant
            i <= chunks.len(),
            cs == views_of(chunks@),
            cs.len() == chunks@.len(),
            forall|t: int| 0 <= t < chunks@.len() ==> #[trigger] chunks@[t]@.len() > 0,
            m.wf(),
            m.phase is Reading,
            m.direction == dir,
            m.reads@ == cs.take(i as int),
            m.outputs@.len() == i,
            m.written@.len() == i,
            outs@.len() == i,
            forall|j: int| 0 <= j < i ==> #[trigger] outs@[j]@ == m.outputs@[j],
            *handler == handler_after(*old(handler), dir, cs, i as int),
            forall|j: int| 0 <= j < i ==> #[trigger] output_of(*old(handler), dir, cs, j) == Some(outs@[j]@),
        decreases chunks@.len() - i,
    {
        let c: &Vec<u8> = &chunks[i];
        proof {
            assert(c@ == cs[i as int]);
        }
        m.on_read_data(c.as_slice());
        let hr = handler.inspect(dir, c.as_slice());
        proof {
            assert(handler_after(*old(handler), dir, cs, i as int + 1) == handler_after(
                *old(handler),
                dir,
                cs,
                i as int,
            ).next_spec(dir, cs[i as int]));
        }
        match hr {
            Ok(out) => {
                m.on_inspect_ok(out.as_slice());
                m.on_write_ok();
                outs.push(out);
                proof {
                    assert(m.reads@ =~= cs.take(i as int + 1));
                }
                i = i + 1;
            },
            Err(_) => {
                let _ = m.on_inspect_error();
                proof {
                    let kk = i as int;
                    assert(0 <= kk < cs.len() && output_of(*old(handler), dir, cs, kk) is None && (
                    forall|j: int|
                        0 <= j < kk ==> #[trigger] output_of(*old(handler), dir, cs, j) is Some)
                        && *handler == handler_after(*old(handler), dir, cs, kk).next_spec(
                        dir,
                        cs[kk],
                    ));
                }
                return Err(PipeError::Inspect);
            },
        }
    }
    proof {
        assert(cs.take(cs.len() as int) =~= cs);
    }
    Ok(outs)
}

/// A handler whose state `next_spec` never changes is in its initial state
/// before every inspection.
pub proof fn lemma_handler_after_stationary<H: PacketHandler>(
    h: H,
    dir: Direction,
    cs: Seq<Seq<u8>>,
    i: int,
)
    requires
        forall|d: Direction, c: Seq<u8>| #[trigger] h.next_spec(d, c) == h,
        0 <= i,
    ensures
        handler_after(h, dir, cs, i) == h,
    decreases i,
{
    if i > 0 {
        lemma_handler_after_stationary(h, dir, cs, i - 1);
    }
}

/// For every sequence of chunks relayed through a handler that is the
/// identity transform, the chunks delivered are exactly the chunks read: the
/// same bytes, in the same order, with no gaps and no duplication.
pub proof fn lemma_identity_relay<H: PacketHandler>(
    h: H,
    dir: Direction,
    cs: Seq<Seq<u8>>,
    outs: Seq<Seq<u8>>,
)
    requires
        forall|d: Direction, c: Seq<u8>| #[trigger] h.inspect_spec(d, c) == Some(c),
        forall|d: Direction, c: Seq<u8>| #[trigger] h.next_spec(d, c) == h,
        outs.len() == cs.len(),
        forall|j: int| 0 <= j < cs.len() ==> #[trigger] output_of(h, dir, cs, j) == Some(outs[j]),
    ensures
        outs == cs,
        outs.flatten() == cs.flatten(),
{
    assert forall|j: int| 0 <= j < cs.len() implies outs[j] == cs[j] by {
        lemma_handler_after_stationary(h, dir, cs, j);
        assert(output_of(h, dir, cs, j) == Some(outs[j]));
        assert(h.inspect_spec(dir, cs[j]) == Some(cs[j]));
    };
    assert(outs =~= cs);
}

} // verus!

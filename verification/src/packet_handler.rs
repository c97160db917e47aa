use vstd::prelude::*;
use vstd::slice::slice_to_vec;

verus! {

/// The two flows of one relayed connection: `Forward` carries bytes from the
/// client toward the backend, `Backward` carries the backend's replies back to
/// the client. A pipe is tagged with one direction at construction and keeps
/// it for its whole life; the tag only selects handler behaviour.
#[derive(Clone, Copy, PartialEq, Eq, Structural, Debug)]
pub enum Direction {
    Forward,
    Backward,
}

/// A handler's refusal of a chunk. It aborts the pipe that offered the chunk,
/// exactly as a read or write failure would.
#[derive(Clone, Copy, PartialEq, Eq, Structural, Debug)]
pub struct InspectError;

/// The pluggable inspection capability. One instance is shared, under outside
/// serialization, by every pipe of every connection; each unit of traffic is
/// offered to it exactly once, with the direction it travels in, before being
/// forwarded.
///
/// A handler is modelled as a deterministic machine: `inspect_spec` gives the
/// chunk it forwards (or `None` for a refusal) as a function of its state and
/// the offered chunk, and `next_spec` gives its state after the call. The
/// executable `inspect` is pinned to both, so everything a pipe delivers is
/// determined by the handler's model.
pub trait PacketHandler: Sized {
    /// The chunk this handler forwards in place of `chunk` seen in direction
    /// `dir`, given its current state; `None` means the chunk is refused.
    spec fn inspect_spec(&self, dir: Direction, chunk: Seq<u8>) -> Option<Seq<u8>>;

    /// The handler's state after inspecting `chunk` in direction `dir`.
    spec fn next_spec(&self, dir: Direction, chunk: Seq<u8>) -> Self;

    /// Inspect one unit of traffic and return the bytes to forward in its
    /// place, or refuse it.
    fn inspect(&mut self, dir: Direction, chunk: &[u8]) -> (r: Result<Vec<u8>, InspectError>)
        ensures
            *final(self) == old(self).next_spec(dir, chunk@),
            match r {
                Ok(out) => old(self).inspect_spec(dir, chunk@) == Some(out@),
                Err(_) => old(self).inspect_spec(dir, chunk@) is None,
            },
    ;
}

/// The identity transform: every chunk is forwarded unchanged, in both
/// directions, and no chunk is ever refused.
#[derive(Clone, Copy, PartialEq, Eq, Structural, Debug)]
pub struct IdentityHandler;

impl PacketHandler for IdentityHandler {
    open spec fn inspect_spec(&self, dir: Direction, chunk: Seq<u8>) -> Option<Seq<u8>> {
        Some(chunk)
    }

    open spec fn next_spec(&self, dir: Direction, chunk: Seq<u8>) -> Self {
        IdentityHandler
    }

    fn inspect(&mut self, dir: Direction, chunk: &[u8]) -> (r: Result<Vec<u8>, InspectError>) {
        Ok(slice_to_vec(chunk))
    }
}

/// The uppercase image of one byte: ASCII lowercase letters are mapped to
/// their uppercase counterparts, every other byte is left as it is.
pub open spec fn upper_byte(b: u8) -> u8 {
    if 97 <= b && b <= 122 {
        (b - 32) as u8
    } else {
        b
    }
}

/// The bytewise uppercase image of a chunk.
pub open spec fn upper_seq(s: Seq<u8>) -> Seq<u8> {
    s.map_values(|b: u8| upper_byte(b))
}

/// A transforming handler: chunks travelling toward the backend are
/// uppercased bytewise, replies travel back untouched, and no chunk is ever
/// refused.
#[derive(Clone, Copy, PartialEq, Eq, Structural, Debug)]
pub struct UppercaseForwardHandler;

impl PacketHandler for UppercaseForwardHandler {
    open spec fn inspect_spec(&self, dir: Direction, chunk: Seq<u8>) -> Option<Seq<u8>> {
        match dir {
            Direction::Forward => Some(upper_seq(chunk)),
            Direction::Backward => Some(chunk),
        }
    }

    open spec fn next_spec(&self, dir: Direction, chunk: Seq<u8>) -> Self {
        UppercaseForwardHandler
    }

    fn inspect(&mut self, dir: Direction, chunk: &[u8]) -> (r: Result<Vec<u8>, InspectError>) {
        match dir {
            Direction::Backward => Ok(slice_to_vec(chunk)),
            Direction::Forward => {
                let mut out: Vec<u8> = Vec::new();
                let mut i: usize = 0;
                while i < chunk.len()
                    invariant
                        i <= chunk@.len(),
                        out@ == upper_seq(chunk@.take(i as int)),
                    decreases chunk@.len() - i,
                {
                    let b = chunk[i];
                    let ub = if 97 <= b && b <= 122 { b - 32 } else { b };
                    out.push(ub);
                    proof {
                        assert(out@ =~= upper_seq(chunk@.take(i + 1 as int)));
                    }
                    i = i + 1;
                }
                proof {
                    assert(chunk@.take(chunk@.len() as int) =~= chunk@);
                }
                Ok(out)
            }
        }
    }
}

/// A size-limiting handler: a chunk of at most `max` bytes passes unchanged,
/// in either direction; a longer one is refused, which aborts the pipe that
/// offered it.
#[derive(Clone, Copy, PartialEq, Eq, Structural, Debug)]
pub struct MaxLenHandler {
    /// The largest chunk this handler lets through.
    pub max: usize,
}

impl PacketHandler for MaxLenHandler {
    open spec fn inspect_spec(&self, dir: Direction, chunk: Seq<u8>) -> Option<Seq<u8>> {
        if chunk.len() <= self.max {
            Some(chunk)
        } else {
            None
        }
    }

    open spec fn next_spec(&self, dir: Direction, chunk: Seq<u8>) -> Self {
        *self
    }

    fn inspect(&mut self, dir: Direction, chunk: &[u8]) -> (r: Result<Vec<u8>, InspectError>) {
        if chunk.len() <= self.max {
            Ok(slice_to_vec(chunk))
        } else {
            Err(InspectError)
        }
    }
}

} // verus!

use vstd::prelude::*;

verus! {

/// What the accept loop does with the outcome of one accept.
#[derive(Clone, Copy, PartialEq, Eq, Structural, Debug)]
pub struct AcceptDecision {
    /// Start an independent session for the accepted connection; the accept
    /// loop itself never waits on session work.
    pub spawn_session: bool,
    /// Go on accepting.
    pub keep_accepting: bool,
}

/// The accept loop's whole decision for one accept outcome: a successful
/// accept spawns a session, a failed accept spawns none, and the loop keeps
/// accepting either way — an accept failure is transient and never stops the
/// server from serving subsequent connections.
pub fn accept_decision(accepted: bool) -> (d: AcceptDecision)
    ensures
        d.spawn_session == accepted,
        d.keep_accepting,
{
    AcceptDecision { spawn_session: accepted, keep_accepting: true }
}

} // verus!

use vstd::prelude::*;
use crate::framing::{chomp, chomp_spec, probe, probe_payload};

verus! {

/// Time the ping session waits after each probe, in milliseconds.
pub const PING_INTERVAL_MS: u64 = 250;

/// What the send session does with one chunk read from its input.
#[derive(Debug, PartialEq, Eq)]
pub enum SendAction {
    /// The input has ended: stop with success.
    Finish,
    /// Send these bytes as one datagram to the connected group.
    Transmit(Vec<u8>),
}

/// One step of the send session: a chunk of zero bytes ends the session;
/// any other chunk is sent as one datagram, without one trailing newline
/// byte if it ends in one.
pub fn send_step(chunk: &[u8]) -> (r: SendAction)
    ensures
        chunk@.len() == 0 ==> r is Finish,
        chunk@.len() > 0 ==> (r matches SendAction::Transmit(v) && v@ == chomp_spec(chunk@)),
{
    if chunk.len() == 0 {
        SendAction::Finish
    } else {
        SendAction::Transmit(chomp(chunk))
    }
}

/// The probe sender of the ping session. `seq` is the sequence number of
/// the last probe made, 0 before the first; it never goes back.
#[derive(Debug)]
pub struct PingSender {
    pub seq: u64,
}

/// The probes that `k` steps of a sender whose counter stands at `start`
/// make, in order: each step raises the counter by one and makes the probe
/// with the new number.
pub open spec fn probe_trace(start: nat, k: nat) -> Seq<Seq<u8>>
    decreases k,
{
    if k == 0 {
        Seq::empty()
    } else {
        seq![probe_payload(start + 1)] + probe_trace(start + 1, (k - 1) as nat)
    }
}

impl PingSender {
    /// A sender that has made no probe yet.
    pub fn new() -> (r: PingSender)
        ensures
            r.seq == 0,
    {
        PingSender { seq: 0 }
    }

    /// Whether the counter can still be raised.
    pub fn can_advance(&self) -> (r: bool)
        ensures
            r == (self.seq < u64::MAX),
    {
        self.seq < u64::MAX
    }

    /// Raises the counter by one and returns the probe `PING <n>` for the
    /// new number `n`.
    pub fn next_probe(&mut self) -> (r: Vec<u8>)
        requires
            old(self).seq < u64::MAX,
        ensures
            final(self).seq == old(self).seq + 1,
            r@ == probe_payload(final(self).seq as nat),
            r@ == probe_trace(old(self).seq as nat, 1)[0],
    {
        self.seq = self.seq + 1;
        proof {
            reveal_with_fuel(probe_trace, 2);
        }
        probe(self.seq)
    }
}

/// Probes are numbered one after another: `k` steps from a counter at
/// `start` make exactly `k` probes, and the `i`-th of them (from 0) is
/// `PING <start + i + 1>`. From a new sender the numbers are 1, 2, 3, ...
pub proof fn probes_are_consecutive(start: nat, k: nat)
    ensures
        probe_trace(start, k).len() == k,
        forall|i: int|
            0 <= i < k ==> #[trigger] probe_trace(start, k)[i] == probe_payload(
                (start + i + 1) as nat,
            ),
    decreases k,
{
    if k > 0 {
        probes_are_consecutive(start + 1, (k - 1) as nat);
        let t = probe_trace(start, k);
        let rest = probe_trace(start + 1, (k - 1) as nat);
        assert forall|i: int| 0 <= i < k implies #[trigger] t[i] == probe_payload(
            (start + i + 1) as nat,
        ) by {
            if i > 0 {
                assert(t[i] == rest[i - 1]);
            }
        }
    }
}

} // verus!

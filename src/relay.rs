use vstd::prelude::*;
use crate::supervisor::{
    Supervisor, Phase, run_lines, forwarded, failed_attempts, concat_lines, respawn_pairs,
    lemma_failed_attempts_forward_all, lemma_ready_on_first_marker,
};
use crate::marker::has_marker;

verus! {

/// What the relay task does with the line it just read.
#[derive(Clone, Copy, PartialEq, Eq, Debug, Structural)]
pub enum RelayAction {
    /// Push the line onto the channel and read on.
    Push,
    /// Stop: the stream has ended; read no more.
    Stop,
}

/// The relay that drains the child's error stream after readiness.
#[derive(Clone, Copy, PartialEq, Eq, Debug, Structural)]
pub struct Relay {
    pub finished: bool,
}

/// The next state and the action for one read of the relay (an empty line is a
/// zero-byte read: the end of the stream).
pub open spec fn relay_step(r: Relay, line: Seq<u8>) -> (Relay, RelayAction) {
    if r.finished || line.len() == 0 {
        (Relay { finished: true }, RelayAction::Stop)
    } else {
        (r, RelayAction::Push)
    }
}

/// Feeding `reads` one after another: the final state and each read's action.
pub open spec fn relay_run(r: Relay, reads: Seq<Seq<u8>>) -> (Relay, Seq<RelayAction>)
    decreases reads.len(),
{
    if reads.len() == 0 {
        (r, Seq::empty())
    } else {
        let (r1, acts) = relay_run(r, reads.drop_last());
        let (r2, a) = relay_step(r1, reads.last());
        (r2, acts.push(a))
    }
}

/// The reads whose action pushes them onto the channel, in order.
pub open spec fn pushed(reads: Seq<Seq<u8>>, acts: Seq<RelayAction>) -> Seq<Seq<u8>>
    decreases reads.len(),
{
    if reads.len() == 0 || acts.len() == 0 {
        Seq::empty()
    } else {
        let rest = pushed(reads.drop_last(), acts.drop_last());
        if acts.last() == RelayAction::Push {
            rest.push(reads.last())
        } else {
            rest
        }
    }
}

impl Relay {
    /// A relay that has just adopted the stream.
    pub fn new() -> (r: Self)
        ensures
            !r.finished,
    {
        Relay { finished: false }
    }

    /// Takes one read of the stream into account and says what to do with it.
    pub fn on_read(&mut self, line: &[u8]) -> (r: RelayAction)
        ensures
            (*final(self), r) == relay_step(*old(self), line@),
    {
        if self.finished || line.len() == 0 {
            self.finished = true;
            RelayAction::Stop
        } else {
            RelayAction::Push
        }
    }
}

/// A relay fed non-empty lines pushes each of them, in order.
pub proof fn lemma_relay_forwards_in_order(r: Relay, reads: Seq<Seq<u8>>)
    requires
        !r.finished,
        forall|i: int| 0 <= i < reads.len() ==> (#[trigger] reads[i]).len() > 0,
    ensures
        relay_run(r, reads).0 == r,
        relay_run(r, reads).1 == Seq::new(reads.len(), |i: int| RelayAction::Push),
        pushed(reads, relay_run(r, reads).1) == reads,
    decreases reads.len(),
{
    if reads.len() > 0 {
        let prefix = reads.drop_last();
        assert forall|i: int| 0 <= i < prefix.len() implies (#[trigger] prefix[i]).len() > 0 by {
            assert(prefix[i] == reads[i]);
        }
        lemma_relay_forwards_in_order(r, prefix);
        assert(reads[reads.len() - 1].len() > 0);
        let acts = relay_run(r, reads).1;
        assert(acts =~= Seq::new(reads.len(), |i: int| RelayAction::Push));
        assert(acts.drop_last() =~= relay_run(r, prefix).1);
        assert(prefix.push(reads.last()) =~= reads);
    }
}

/// Once a read returns zero bytes (position `j`), the relay stops for good: that
/// read and every later call say `Stop`, so nothing more is read or pushed.
pub proof fn lemma_relay_stops_at_end(r: Relay, reads: Seq<Seq<u8>>, j: int)
    requires
        0 <= j < reads.len(),
        reads[j].len() == 0,
    ensures
        relay_run(r, reads).0.finished,
        relay_run(r, reads).1.len() == reads.len(),
        forall|i: int| j <= i < reads.len() ==> #[trigger] relay_run(r, reads).1[i] == RelayAction::Stop,
    decreases reads.len(),
{
    let prefix = reads.drop_last();
    let acts = relay_run(r, reads).1;
    lemma_relay_run_len(r, prefix);
    if reads.len() > j + 1 {
        assert(prefix[j] == reads[j]);
        lemma_relay_stops_at_end(r, prefix, j);
    }
    assert(acts.drop_last() =~= relay_run(r, prefix).1);
}

proof fn lemma_relay_run_len(r: Relay, reads: Seq<Seq<u8>>)
    ensures
        relay_run(r, reads).1.len() == reads.len(),
    decreases reads.len(),
{
    if reads.len() > 0 {
        lemma_relay_run_len(r, reads.drop_last());
    }
}

/// No line is lost: any number of attempts whose children close their stream
/// before the marker, then an attempt whose child writes the marker at
/// position `k`, then the relay's reads after readiness. The channel receives
/// exactly the failed attempts' lines, the last attempt's lines up to and
/// including the marker line, and the relayed lines, each once and in order.
pub proof fn lemma_no_line_lost(
    s: Supervisor,
    attempts: Seq<Seq<Seq<u8>>>,
    lines: Seq<Seq<u8>>,
    k: int,
    reads: Seq<Seq<u8>>,
)
    requires
        s.phase == Phase::AwaitingReadiness,
        s.max_retries is None,
        forall|a: int, i: int|
            0 <= a < attempts.len() && 0 <= i < attempts[a].len() ==> !has_marker(
                #[trigger] attempts[a][i],
            ),
        0 <= k < lines.len(),
        has_marker(lines[k]),
        forall|i: int| 0 <= i < k ==> !has_marker(#[trigger] lines[i]),
        forall|i: int| 0 <= i < reads.len() ==> (#[trigger] reads[i]).len() > 0,
    ensures
        ({
            let (s1, channel, ends) = failed_attempts(s, attempts);
            &&& ends == respawn_pairs(attempts.len())
            &&& run_lines(s1, lines).0.phase == Phase::Ready
            &&& channel + forwarded(lines, run_lines(s1, lines).1) + pushed(
                reads,
                relay_run(Relay { finished: false }, reads).1,
            ) == concat_lines(attempts) + lines.take(k + 1) + reads
        }),
{
    lemma_failed_attempts_forward_all(s, attempts);
    let s1 = failed_attempts(s, attempts).0;
    lemma_ready_on_first_marker(s1, lines, k);
    lemma_relay_forwards_in_order(Relay { finished: false }, reads);
}

} // verus!

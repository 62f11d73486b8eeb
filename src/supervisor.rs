use vstd::prelude::*;
use crate::marker::{contains_marker, has_marker};

verus! {

/// Seconds to wait after reaping a child that exited early, before spawning
/// the next one.
pub const RETRY_BACKOFF_SECS: u64 = 1;

/// Where the supervisor stands in one connect cycle.
#[derive(Clone, Copy, PartialEq, Eq, Debug, Structural)]
pub enum Phase {
    /// Nothing spawned yet.
    Idle,
    /// A child is being started.
    Spawning,
    /// The child runs; its error stream is read line by line for the marker.
    AwaitingReadiness,
    /// The marker was seen: the child and its stream have been handed over.
    Ready,
    /// Spawning failed, or the retry ceiling was reached.
    Failed,
}

/// What the driver of the supervisor observed.
#[derive(Clone, Copy, PartialEq, Eq, Debug, Structural)]
pub enum Event {
    /// The caller asks for a connection.
    Start,
    /// The child was started and its error stream captured.
    Spawned,
    /// The child could not be started.
    SpawnFailed,
    /// A read on the error stream returned zero bytes.
    StreamClosed,
}

/// What the driver must do next.
#[derive(Clone, Copy, PartialEq, Eq, Debug, Structural)]
pub enum Action {
    /// Start the child.
    Spawn,
    /// Read the next line of the child's error stream.
    ReadLine,
    /// Forward the line just read to the channel, then read the next one.
    ForwardThenRead,
    /// Forward the line just read to the channel, hand the stream to the relay
    /// and return the child to the caller.
    ForwardThenHandOff,
    /// Reap the exited child, back off, then spawn again.
    ReapThenRespawn,
    /// Reap the exited child and give up: the retry ceiling was reached.
    ReapThenGiveUp,
    /// Report a fatal spawn error.
    Abort,
    /// Nothing: the observation does not apply in this phase.
    Ignore,
}

/// The spawn / readiness / retry state machine of one connect cycle.
///
/// `max_retries` is the optional ceiling on respawns; without one the
/// supervisor retries for as long as the child keeps exiting early.
#[derive(Clone, Copy, PartialEq, Eq, Debug, Structural)]
pub struct Supervisor {
    pub phase: Phase,
    pub retries: u64,
    pub max_retries: Option<u64>,
}

/// Whether one more respawn is allowed.
pub open spec fn can_retry(s: Supervisor) -> bool {
    match s.max_retries {
        Some(m) => s.retries < m,
        None => true,
    }
}

/// `s` in phase `p`, with the same counters.
pub open spec fn with_phase(s: Supervisor, p: Phase) -> Supervisor {
    Supervisor { phase: p, retries: s.retries, max_retries: s.max_retries }
}

/// `s` about to respawn: one more retry counted (saturating).
pub open spec fn respawning(s: Supervisor) -> Supervisor {
    Supervisor {
        phase: Phase::Spawning,
        retries: if s.retries < u64::MAX { (s.retries + 1) as u64 } else { s.retries },
        max_retries: s.max_retries,
    }
}

/// The next state and the action for an event.
pub open spec fn on_event(s: Supervisor, e: Event) -> (Supervisor, Action) {
    match s.phase {
        Phase::Idle => match e {
            Event::Start => (with_phase(s, Phase::Spawning), Action::Spawn),
            _ => (s, Action::Ignore),
        },
        Phase::Spawning => match e {
            Event::Spawned => (with_phase(s, Phase::AwaitingReadiness), Action::ReadLine),
            Event::SpawnFailed => (with_phase(s, Phase::Failed), Action::Abort),
            _ => (s, Action::Ignore),
        },
        Phase::AwaitingReadiness => match e {
            Event::StreamClosed => if can_retry(s) {
                (respawning(s), Action::ReapThenRespawn)
            } else {
                (with_phase(s, Phase::Failed), Action::ReapThenGiveUp)
            },
            _ => (s, Action::Ignore),
        },
        _ => (s, Action::Ignore),
    }
}

/// The next state and the action for a line read from the error stream.
pub open spec fn on_line(s: Supervisor, line: Seq<u8>) -> (Supervisor, Action) {
    if s.phase == Phase::AwaitingReadiness {
        if has_marker(line) {
            (with_phase(s, Phase::Ready), Action::ForwardThenHandOff)
        } else {
            (s, Action::ForwardThenRead)
        }
    } else {
        (s, Action::Ignore)
    }
}

/// Feeding `lines` one after another: the final state and each line's action.
pub open spec fn run_lines(s: Supervisor, lines: Seq<Seq<u8>>) -> (Supervisor, Seq<Action>)
    decreases lines.len(),
{
    if lines.len() == 0 {
        (s, Seq::empty())
    } else {
        let (s1, acts) = run_lines(s, lines.drop_last());
        let (s2, a) = on_line(s1, lines.last());
        (s2, acts.push(a))
    }
}

/// The action sends the line that caused it to the channel.
pub open spec fn forwards(a: Action) -> bool {
    a == Action::ForwardThenRead || a == Action::ForwardThenHandOff
}

/// The lines whose action forwards them, in order.
pub open spec fn forwarded(lines: Seq<Seq<u8>>, acts: Seq<Action>) -> Seq<Seq<u8>>
    decreases lines.len(),
{
    if lines.len() == 0 || acts.len() == 0 {
        Seq::empty()
    } else {
        let rest = forwarded(lines.drop_last(), acts.drop_last());
        if forwards(acts.last()) {
            rest.push(lines.last())
        } else {
            rest
        }
    }
}

impl Supervisor {
    /// A supervisor that has not spawned anything yet.
    pub fn new(max_retries: Option<u64>) -> (r: Self)
        ensures
            r.phase == Phase::Idle,
            r.retries == 0,
            r.max_retries == max_retries,
    {
        Supervisor { phase: Phase::Idle, retries: 0, max_retries }
    }

    /// Takes one event into account and says what to do.
    pub fn handle_event(&mut self, e: Event) -> (r: Action)
        ensures
            (*final(self), r) == on_event(*old(self), e),
    {
        match self.phase {
            Phase::Idle => match e {
                Event::Start => {
                    self.phase = Phase::Spawning;
                    Action::Spawn
                },
                _ => Action::Ignore,
            },
            Phase::Spawning => match e {
                Event::Spawned => {
                    self.phase = Phase::AwaitingReadiness;
                    Action::ReadLine
                },
                Event::SpawnFailed => {
                    self.phase = Phase::Failed;
                    Action::Abort
                },
                _ => Action::Ignore,
            },
            Phase::AwaitingReadiness => match e {
                Event::StreamClosed => {
                    let allowed = match self.max_retries {
                        Some(m) => self.retries < m,
                        None => true,
                    };
                    if allowed {
                        self.phase = Phase::Spawning;
                        if self.retries < u64::MAX {
                            self.retries = self.retries + 1;
                        }
                        Action::ReapThenRespawn
                    } else {
                        self.phase = Phase::Failed;
                        Action::ReapThenGiveUp
                    }
                },
                _ => Action::Ignore,
            },
            _ => Action::Ignore,
        }
    }

    /// Takes one line of the error stream into account and says what to do.
    pub fn handle_line(&mut self, line: &[u8]) -> (r: Action)
        ensures
            (*final(self), r) == on_line(*old(self), line@),
    {
        if self.phase == Phase::AwaitingReadiness {
            if contains_marker(line) {
                self.phase = Phase::Ready;
                Action::ForwardThenHandOff
            } else {
                Action::ForwardThenRead
            }
        } else {
            Action::Ignore
        }
    }
}

/// `n` attempts in a row whose child closes its stream at once: the state
/// reached and the actions, two per attempt.
pub open spec fn closing_run(s: Supervisor, n: nat) -> (Supervisor, Seq<Action>)
    decreases n,
{
    if n == 0 {
        (s, Seq::empty())
    } else {
        let (s1, acts) = closing_run(s, (n - 1) as nat);
        let (s2, a) = on_event(s1, Event::StreamClosed);
        let (s3, b) = on_event(s2, Event::Spawned);
        (s3, acts.push(a).push(b))
    }
}

/// `n` times the pair reap-and-respawn, read.
pub open spec fn respawn_pairs(n: nat) -> Seq<Action>
    decreases n,
{
    if n == 0 {
        Seq::empty()
    } else {
        respawn_pairs((n - 1) as nat).push(Action::ReapThenRespawn).push(Action::ReadLine)
    }
}

/// Lines without the marker leave a waiting supervisor as it was, and each is
/// forwarded.
proof fn lemma_run_unmarked(s: Supervisor, lines: Seq<Seq<u8>>)
    requires
        s.phase == Phase::AwaitingReadiness,
        forall|i: int| 0 <= i < lines.len() ==> !has_marker(#[trigger] lines[i]),
    ensures
        run_lines(s, lines).0 == s,
        run_lines(s, lines).1 == Seq::new(lines.len(), |i: int| Action::ForwardThenRead),
        forwarded(lines, run_lines(s, lines).1) == lines,
    decreases lines.len(),
{
    if lines.len() > 0 {
        let prefix = lines.drop_last();
        assert forall|i: int| 0 <= i < prefix.len() implies !has_marker(#[trigger] prefix[i]) by {
            assert(prefix[i] == lines[i]);
        }
        lemma_run_unmarked(s, prefix);
        assert(!has_marker(lines[lines.len() - 1]));
        let acts = run_lines(s, lines).1;
        assert(acts =~= Seq::new(lines.len(), |i: int| Action::ForwardThenRead));
        assert(acts.drop_last() =~= run_lines(s, prefix).1);
        assert(prefix.push(lines.last()) =~= lines);
    }
}

/// A child that closes its error stream before any line carried the marker:
/// every line it wrote is forwarded in order, readiness is not declared, and
/// the child is reaped and spawned again exactly once, after which the
/// supervisor waits for the new child's marker.
pub proof fn lemma_closed_stream_respawns_once(s: Supervisor, lines: Seq<Seq<u8>>)
    requires
        s.phase == Phase::AwaitingReadiness,
        can_retry(s),
        forall|i: int| 0 <= i < lines.len() ==> !has_marker(#[trigger] lines[i]),
    ensures
        run_lines(s, lines).0 == s,
        run_lines(s, lines).1 == Seq::new(lines.len(), |i: int| Action::ForwardThenRead),
        forwarded(lines, run_lines(s, lines).1) == lines,
        on_event(s, Event::StreamClosed) == (respawning(s), Action::ReapThenRespawn),
        on_event(respawning(s), Event::Spawned) == (
            with_phase(respawning(s), Phase::AwaitingReadiness),
            Action::ReadLine,
        ),
{
    lemma_run_unmarked(s, lines);
}

/// Without a retry ceiling, a child that closes its stream at once is reaped
/// and respawned on every attempt, however many attempts are made.
pub proof fn lemma_retries_without_end(s: Supervisor, n: nat)
    requires
        s.phase == Phase::AwaitingReadiness,
        s.max_retries is None,
    ensures
        closing_run(s, n).0.phase == Phase::AwaitingReadiness,
        closing_run(s, n).0.max_retries is None,
        closing_run(s, n).1 == respawn_pairs(n),
    decreases n,
{
    if n > 0 {
        lemma_retries_without_end(s, (n - 1) as nat);
    }
}

/// Lines fed to a waiting supervisor: readiness is declared exactly once, on
/// the first line that carries the marker (position `k`) and on no earlier
/// one; that line and every line before it are forwarded in order, and the
/// lines after it are left to the relay.
pub proof fn lemma_ready_on_first_marker(s: Supervisor, lines: Seq<Seq<u8>>, k: int)
    requires
        s.phase == Phase::AwaitingReadiness,
        0 <= k < lines.len(),
        has_marker(lines[k]),
        forall|i: int| 0 <= i < k ==> !has_marker(#[trigger] lines[i]),
    ensures
        run_lines(s, lines).0 == with_phase(s, Phase::Ready),
        run_lines(s, lines).1.len() == lines.len(),
        forall|i: int|
            0 <= i < lines.len() ==> (#[trigger] run_lines(s, lines).1[i]
                == Action::ForwardThenHandOff <==> i == k),
        forall|i: int| 0 <= i < k ==> #[trigger] run_lines(s, lines).1[i] == Action::ForwardThenRead,
        forall|i: int| k < i < lines.len() ==> #[trigger] run_lines(s, lines).1[i] == Action::Ignore,
        forwarded(lines, run_lines(s, lines).1) == lines.take(k + 1),
    decreases lines.len(),
{
    let prefix = lines.drop_last();
    let acts = run_lines(s, lines).1;
    if lines.len() == k + 1 {
        assert forall|i: int| 0 <= i < prefix.len() implies !has_marker(#[trigger] prefix[i]) by {
            assert(prefix[i] == lines[i]);
        }
        lemma_run_unmarked(s, prefix);
        assert(acts.drop_last() =~= run_lines(s, prefix).1);
        assert(prefix.push(lines.last()) =~= lines);
        assert(lines.take(k + 1) =~= lines);
    } else {
        assert(prefix[k] == lines[k]);
        assert forall|i: int| 0 <= i < k implies !has_marker(#[trigger] prefix[i]) by {
            assert(prefix[i] == lines[i]);
        }
        lemma_ready_on_first_marker(s, prefix, k);
        assert(acts.drop_last() =~= run_lines(s, prefix).1);
        assert(prefix.take(k + 1) =~= lines.take(k + 1));
    }
}

/// The lines of several attempts, one attempt after another.
pub open spec fn concat_lines(attempts: Seq<Seq<Seq<u8>>>) -> Seq<Seq<u8>>
    decreases attempts.len(),
{
    if attempts.len() == 0 {
        Seq::empty()
    } else {
        concat_lines(attempts.drop_last()) + attempts.last()
    }
}

/// Attempts whose children each write the given lines and then close their
/// stream: the state reached, the lines forwarded to the channel, and the two
/// actions that end each attempt.
pub open spec fn failed_attempts(s: Supervisor, attempts: Seq<Seq<Seq<u8>>>) -> (
    Supervisor,
    Seq<Seq<u8>>,
    Seq<Action>,
)
    decreases attempts.len(),
{
    if attempts.len() == 0 {
        (s, Seq::empty(), Seq::empty())
    } else {
        let (s1, channel, ends) = failed_attempts(s, attempts.drop_last());
        let (s2, acts) = run_lines(s1, attempts.last());
        let (s3, a) = on_event(s2, Event::StreamClosed);
        let (s4, b) = on_event(s3, Event::Spawned);
        (s4, channel + forwarded(attempts.last(), acts), ends.push(a).push(b))
    }
}

/// Without a retry ceiling, any number of attempts that close their stream
/// before the marker forward all their lines, in order, and each ends in one
/// reap-and-respawn; the supervisor then waits for the next child's marker.
pub proof fn lemma_failed_attempts_forward_all(s: Supervisor, attempts: Seq<Seq<Seq<u8>>>)
    requires
        s.phase == Phase::AwaitingReadiness,
        s.max_retries is None,
        forall|a: int, i: int|
            0 <= a < attempts.len() && 0 <= i < attempts[a].len() ==> !has_marker(
                #[trigger] attempts[a][i],
            ),
    ensures
        failed_attempts(s, attempts).0.phase == Phase::AwaitingReadiness,
        failed_attempts(s, attempts).0.max_retries is None,
        failed_attempts(s, attempts).1 == concat_lines(attempts),
        failed_attempts(s, attempts).2 == respawn_pairs(attempts.len()),
    decreases attempts.len(),
{
    if attempts.len() > 0 {
        let prefix = attempts.drop_last();
        assert forall|a: int, i: int|
            0 <= a < prefix.len() && 0 <= i < prefix[a].len() implies !has_marker(
                #[trigger] prefix[a][i],
            ) by {
            assert(prefix[a] == attempts[a]);
        }
        lemma_failed_attempts_forward_all(s, prefix);
        let s1 = failed_attempts(s, prefix).0;
        let last = attempts.last();
        assert forall|i: int| 0 <= i < last.len() implies !has_marker(#[trigger] last[i]) by {
            assert(attempts[attempts.len() - 1][i] == last[i]);
        }
        lemma_closed_stream_respawns_once(s1, last);
    }
}

} // verus!

//! Bounded retry with exponential backoff and jitter, for sending a batch.
use vstd::prelude::*;

verus! {

/// The largest delay, in milliseconds.
pub const MAX_DELAY: u64 = 0xffff_ffff_ffff_ffff;

/// Twice `delay`, saturating at `MAX_DELAY`.
pub open spec fn doubled(delay: int) -> int {
    if 2 * delay > MAX_DELAY {
        MAX_DELAY as int
    } else {
        2 * delay
    }
}

/// The backoff before retry `k` (counted from 0): `initial` doubled `k`
/// times, saturating at `MAX_DELAY`.
pub open spec fn backoff(initial: int, k: nat) -> int
    decreases k,
{
    if k == 0 {
        initial
    } else {
        doubled(backoff(initial, (k - 1) as nat))
    }
}

/// The backoffs of the retries `from`, ..., `to - 1` added up.
pub open spec fn backoff_sum(initial: int, from: nat, to: nat) -> int
    decreases to - from,
{
    if from >= to {
        0
    } else {
        backoff(initial, from) + backoff_sum(initial, from + 1, to)
    }
}

/// The wait for a backoff of `delay` with the random draw `jitter`: at least
/// half of `delay`, at most `delay`.
pub open spec fn jittered(delay: int, jitter: int) -> int {
    delay / 2 + jitter % (delay - delay / 2 + 1)
}

/// The socket a batch is sent through.
#[derive(Clone, Copy, Debug, PartialEq, Eq)]
pub enum TransportKind {
    /// A UDP socket.
    Udp,
    /// A Unix datagram socket.
    Uds,
}

/// How one attempt to send went.
#[derive(Clone, Copy, Debug, PartialEq, Eq)]
pub enum SendOutcome {
    /// The datagram was written.
    Sent,
    /// The write failed; `not_connected` tells whether the socket reported
    /// that it is not connected.
    Failed { not_connected: bool },
}

/// What to do after an attempt.
#[derive(Clone, Copy, Debug, PartialEq, Eq)]
pub enum RetryAction {
    /// The batch was delivered.
    Done,
    /// Wait `delay_ms` milliseconds, reconnect the socket first when
    /// `reconnect` holds, and send again.
    RetryAfter { delay_ms: u64, reconnect: bool },
    /// Give up and drop the batch.
    GiveUp,
}

/// A failed attempt, for a sender that has made `retries` retries (so
/// `retries + 1` attempts) and would back off by `delay` next: `None` when
/// the attempts have reached `max_retry_attempts`, else the wait, the
/// retries made once it is over, and the next backoff. The first attempt is
/// always made, so a limit of 0 acts as a limit of 1.
pub open spec fn after_failure(max_retry_attempts: int, retries: int, delay: int, jitter: int) -> Option<(int, int, int)> {
    if retries + 1 >= max_retry_attempts {
        None
    } else {
        Some((jittered(delay, jitter), retries + 1, doubled(delay)))
    }
}

/// Whether the socket is reconnected before a retry: always for a Unix
/// datagram socket, and for UDP when the socket reported that it is not
/// connected.
pub open spec fn reconnects(kind: TransportKind, not_connected: bool) -> bool {
    kind == TransportKind::Uds || not_connected
}

/// The retry state for sending one batch.
pub struct Retry {
    retries: usize,
    next_delay: u64,
    max_retry_attempts: usize,
    kind: TransportKind,
}

impl Retry {
    #[verifier::type_invariant]
    spec fn inv(&self) -> bool {
        self.retries == 0 || self.retries < self.max_retry_attempts
    }

    /// Retries made so far.
    pub closed spec fn retries(&self) -> usize {
        self.retries
    }

    /// The backoff before the next retry, in milliseconds.
    pub closed spec fn next_delay(&self) -> u64 {
        self.next_delay
    }

    /// The most attempts made to send the batch, the first one included.
    pub closed spec fn max_retry_attempts(&self) -> usize {
        self.max_retry_attempts
    }

    /// The socket the batch goes through.
    pub closed spec fn kind(&self) -> TransportKind {
        self.kind
    }

    /// The state before the first attempt: the first retry backs off by
    /// `initial_retry_delay` milliseconds.
    pub fn new(max_retry_attempts: usize, initial_retry_delay: u64, kind: TransportKind) -> (r: Self)
        ensures
            r.retries() == 0,
            r.next_delay() == initial_retry_delay,
            r.max_retry_attempts() == max_retry_attempts,
            r.kind() == kind,
    {
        Retry { retries: 0, next_delay: initial_retry_delay, max_retry_attempts, kind }
    }

    /// Takes the outcome of one attempt and the random draw `jitter`, and
    /// says what to do next. After a failure the sender retries, with a
    /// backoff that doubles each time, until `max_retry_attempts` attempts
    /// have been made; then it gives up. A retry waits at least half of the
    /// backoff and at most all of it.
    pub fn after_attempt(&mut self, outcome: SendOutcome, jitter: u64) -> (action: RetryAction)
        ensures
            final(self).max_retry_attempts() == old(self).max_retry_attempts(),
            final(self).kind() == old(self).kind(),
            final(self).retries() == 0 || final(self).retries() < final(self).max_retry_attempts(),
            match action {
                RetryAction::RetryAfter { delay_ms, reconnect: _ } => old(self).next_delay() / 2
                    <= delay_ms <= old(self).next_delay(),
                _ => true,
            },
            match outcome {
                SendOutcome::Sent => action == RetryAction::Done && *final(self) == *old(self),
                SendOutcome::Failed { not_connected } => match after_failure(
                    old(self).max_retry_attempts() as int,
                    old(self).retries() as int,
                    old(self).next_delay() as int,
                    jitter as int,
                ) {
                    None => action == RetryAction::GiveUp && *final(self) == *old(self),
                    Some((wait, retries, delay)) => {
                        &&& action == (RetryAction::RetryAfter {
                            delay_ms: wait as u64,
                            reconnect: reconnects(old(self).kind(), not_connected),
                        })
                        &&& final(self).retries() == retries
                        &&& final(self).next_delay() == delay
                    },
                },
            },
    {
        proof {
            use_type_invariant(&*self);
        }
        match outcome {
            SendOutcome::Sent => RetryAction::Done,
            SendOutcome::Failed { not_connected } => {
                if self.retries + 1 >= self.max_retry_attempts {
                    RetryAction::GiveUp
                } else {
                    proof {
                        lemma_jittered_bounded(self.next_delay as int, jitter as int);
                    }
                    let base = self.next_delay;
                    let delay_ms = base / 2 + jitter % (base - base / 2 + 1);
                    self.retries = self.retries + 1;
                    self.next_delay = base.saturating_add(base);
                    let reconnect = match self.kind {
                        TransportKind::Uds => true,
                        TransportKind::Udp => not_connected,
                    };
                    RetryAction::RetryAfter { delay_ms, reconnect }
                }
            },
        }
    }
}

/// Against a transport that fails every attempt: the attempts made and the
/// milliseconds waited, from a sender that has made `retries` retries and
/// would back off by `delay` next, where `jitters[k]` is drawn after the
/// `k`-th failure from here on. The run is followed while draws remain.
pub open spec fn failing_run(max_retry_attempts: int, retries: int, delay: int, jitters: Seq<u64>) -> (int, int)
    decreases jitters.len(),
{
    if jitters.len() == 0 {
        (1, 0)
    } else {
        match after_failure(max_retry_attempts, retries, delay, jitters[0] as int) {
            None => (1, 0),
            Some((wait, r, d)) => {
                let (attempts, waited) = failing_run(max_retry_attempts, r, d, jitters.drop_first());
                (attempts + 1, waited + wait)
            },
        }
    }
}

proof fn lemma_jittered_bounded(delay: int, jitter: int)
    requires
        delay >= 0,
        jitter >= 0,
    ensures
        0 <= jittered(delay, jitter) <= delay,
{
    let m = delay - delay / 2 + 1;
    assert(0 <= jitter % m < m) by (nonlinear_arith)
        requires
            m > 0,
            jitter >= 0,
    ;
}

proof fn lemma_failing_run_from(max_retry_attempts: int, initial: int, k: nat, jitters: Seq<u64>)
    requires
        0 <= initial <= MAX_DELAY,
        k < max_retry_attempts,
    ensures
        ({
            let (attempts, waited) = failing_run(max_retry_attempts, k as int, backoff(initial, k), jitters);
            &&& attempts <= max_retry_attempts - k
            &&& waited <= backoff_sum(initial, k, (max_retry_attempts - 1) as nat)
        }),
    decreases jitters.len(),
{
    lemma_backoff_bounded(initial, k);
    if jitters.len() > 0 && k + 1 < max_retry_attempts {
        lemma_jittered_bounded(backoff(initial, k), jitters[0] as int);
        lemma_failing_run_from(max_retry_attempts, initial, k + 1, jitters.drop_first());
        lemma_backoff_sum_nonnegative(initial, k + 1, (max_retry_attempts - 1) as nat);
    } else {
        lemma_backoff_sum_nonnegative(initial, k, (max_retry_attempts - 1) as nat);
    }
}

proof fn lemma_backoff_bounded(initial: int, k: nat)
    requires
        0 <= initial <= MAX_DELAY,
    ensures
        0 <= backoff(initial, k) <= MAX_DELAY,
    decreases k,
{
    if k > 0 {
        lemma_backoff_bounded(initial, (k - 1) as nat);
    }
}

proof fn lemma_backoff_sum_nonnegative(initial: int, from: nat, to: nat)
    requires
        0 <= initial <= MAX_DELAY,
    ensures
        backoff_sum(initial, from, to) >= 0,
    decreases to - from,
{
    if from < to {
        lemma_backoff_bounded(initial, from);
        lemma_backoff_sum_nonnegative(initial, from + 1, to);
    }
}

/// Against a transport that fails every attempt, a sender started with
/// `Retry::new` makes at most `max_retry_attempts` attempts before it gives
/// up, and waits no longer in all than the backoffs of the retries among
/// them added up, whatever the random draws.
pub proof fn lemma_failing_transport_bounded(max_retry_attempts: usize, initial_retry_delay: u64, jitters: Seq<u64>)
    requires
        max_retry_attempts >= 1,
    ensures
        ({
            let (attempts, waited) = failing_run(
                max_retry_attempts as int,
                0,
                initial_retry_delay as int,
                jitters,
            );
            &&& attempts <= max_retry_attempts
            &&& waited <= backoff_sum(
                initial_retry_delay as int,
                0,
                (max_retry_attempts - 1) as nat,
            )
        }),
{
    lemma_failing_run_from(max_retry_attempts as int, initial_retry_delay as int, 0, jitters);
}

} // verus!

//! The retry policy for connecting to an engine that may still be loading:
//! exponential backoff starting at 100 ms with ratio 1.5, abandoned once the
//! accumulated wait exceeds 20 s.
use vstd::prelude::*;

verus! {

pub const INITIAL_WAIT_NANOS: u64 = 100_000_000;

pub const CONNECT_DEADLINE_NANOS: u64 = 20_000_000_000;

/// The wait after the failed attempt numbered `k` (from zero), in nanoseconds.
pub open spec fn wait_nanos(k: nat) -> nat
    decreases k,
{
    if k == 0 {
        INITIAL_WAIT_NANOS as nat
    } else {
        wait_nanos((k - 1) as nat) * 3 / 2
    }
}

/// The total of the first `k` waits.
pub open spec fn waited_before(k: nat) -> nat
    decreases k,
{
    if k == 0 {
        0
    } else {
        waited_before((k - 1) as nat) + wait_nanos((k - 1) as nat)
    }
}

/// What to do after a failed connection attempt.
#[derive(Clone, Copy, Debug, PartialEq, Eq)]
pub enum ConnectAction {
    /// Wait this many nanoseconds, then try again.
    Retry { wait_nanos: u64 },
    /// Stop trying: the accumulated wait exceeds the deadline.
    GiveUp,
}

/// The state of the retry loop: how many waits it has made.
pub struct Backoff {
    attempts: Ghost<nat>,
    next_wait_nanos: u64,
    waited_nanos: u64,
}

proof fn lemma_wait_bounded(k: nat)
    ensures
        wait_nanos(k) <= INITIAL_WAIT_NANOS + waited_before(k) * 3 / 2,
{
    if k > 0 {
        let a = wait_nanos((k - 1) as nat);
        let b = waited_before(k);
        assert(a <= b);
        assert(a * 3 / 2 <= b * 3 / 2) by (nonlinear_arith)
            requires
                a <= b,
        ;
    }
}

impl Backoff {
    /// The number of waits made so far.
    pub closed spec fn attempts(self) -> nat {
        self.attempts@
    }

    pub closed spec fn wf(self) -> bool {
        &&& self.next_wait_nanos as nat == wait_nanos(self.attempts@)
        &&& self.waited_nanos as nat == waited_before(self.attempts@)
    }

    /// A loop that has made no wait yet.
    pub fn new() -> (r: Backoff)
        ensures
            r.wf(),
            r.attempts() == 0,
    {
        Backoff { attempts: Ghost(0), next_wait_nanos: INITIAL_WAIT_NANOS, waited_nanos: 0 }
    }

    /// Decides what follows a failed attempt: another wait of the next length
    /// in the sequence while the waits so far total no more than the deadline,
    /// else giving up.
    pub fn on_failure(&mut self) -> (a: ConnectAction)
        requires
            old(self).wf(),
        ensures
            final(self).wf(),
            waited_before(old(self).attempts()) > CONNECT_DEADLINE_NANOS ==> a
                == ConnectAction::GiveUp && final(self).attempts() == old(self).attempts(),
            waited_before(old(self).attempts()) <= CONNECT_DEADLINE_NANOS ==> a
                == (ConnectAction::Retry { wait_nanos: wait_nanos(old(self).attempts()) as u64 })
                && final(self).attempts() == old(self).attempts() + 1,
    {
        if self.waited_nanos > CONNECT_DEADLINE_NANOS {
            return ConnectAction::GiveUp;
        }
        let wait = self.next_wait_nanos;
        proof {
            lemma_wait_bounded(self.attempts@);
        }
        self.next_wait_nanos = wait * 3 / 2;
        self.waited_nanos = self.waited_nanos + wait;
        self.attempts = Ghost(self.attempts@ + 1);
        ConnectAction::Retry { wait_nanos: wait }
    }
}

/// The schedule of waits: 100 ms, 150 ms, 225 ms, 337.5 ms, each the one
/// before times 1.5; the loop makes twelve waits, whose total first exceeds
/// the 20 s deadline, and gives up at the failure that follows them.
pub proof fn lemma_backoff_schedule()
    ensures
        wait_nanos(0) == 100_000_000,
        wait_nanos(1) == 150_000_000,
        wait_nanos(2) == 225_000_000,
        wait_nanos(3) == 337_500_000,
        forall|k: nat| #[trigger] wait_nanos(k + 1) == wait_nanos(k) * 3 / 2,
        forall|k: nat| k < 12 ==> #[trigger] waited_before(k) <= CONNECT_DEADLINE_NANOS,
        waited_before(12) > CONNECT_DEADLINE_NANOS,
{
    assert(wait_nanos(0) == 100_000_000);
    assert(wait_nanos(1) == 150_000_000) by { reveal_with_fuel(wait_nanos, 2); }
    assert(waited_before(1) == 100_000_000) by { reveal_with_fuel(waited_before, 2); }
    assert(wait_nanos(2) == 225_000_000) by { reveal_with_fuel(wait_nanos, 2); }
    assert(waited_before(2) == 250_000_000) by { reveal_with_fuel(waited_before, 2); }
    assert(wait_nanos(3) == 337_500_000) by { reveal_with_fuel(wait_nanos, 2); }
    assert(waited_before(3) == 475_000_000) by { reveal_with_fuel(waited_before, 2); }
    assert(wait_nanos(4) == 506_250_000) by { reveal_with_fuel(wait_nanos, 2); }
    assert(waited_before(4) == 812_500_000) by { reveal_with_fuel(waited_before, 2); }
    assert(wait_nanos(5) == 759_375_000) by { reveal_with_fuel(wait_nanos, 2); }
    assert(waited_before(5) == 1_318_750_000) by { reveal_with_fuel(waited_before, 2); }
    assert(wait_nanos(6) == 1_139_062_500) by { reveal_with_fuel(wait_nanos, 2); }
    assert(waited_before(6) == 2_078_125_000) by { reveal_with_fuel(waited_before, 2); }
    assert(wait_nanos(7) == 1_708_593_750) by { reveal_with_fuel(wait_nanos, 2); }
    assert(waited_before(7) == 3_217_187_500) by { reveal_with_fuel(waited_before, 2); }
    assert(wait_nanos(8) == 2_562_890_625) by { reveal_with_fuel(wait_nanos, 2); }
    assert(waited_before(8) == 4_925_781_250) by { reveal_with_fuel(waited_before, 2); }
    assert(wait_nanos(9) == 3_844_335_937) by { reveal_with_fuel(wait_nanos, 2); }
    assert(waited_before(9) == 7_488_671_875) by { reveal_with_fuel(waited_before, 2); }
    assert(wait_nanos(10) == 5_766_503_905) by { reveal_with_fuel(wait_nanos, 2); }
    assert(waited_before(10) == 11_333_007_812) by { reveal_with_fuel(waited_before, 2); }
    assert(wait_nanos(11) == 8_649_755_857) by { reveal_with_fuel(wait_nanos, 2); }
    assert(waited_before(11) == 17_099_511_717) by { reveal_with_fuel(waited_before, 2); }
    assert(wait_nanos(12) == 12_974_633_785) by { reveal_with_fuel(wait_nanos, 2); }
    assert(waited_before(12) == 25_749_267_574) by { reveal_with_fuel(waited_before, 2); }
    assert forall|k: nat| k < 12 implies #[trigger] waited_before(k) <= CONNECT_DEADLINE_NANOS by {
        lemma_waited_monotone(k, 11);
    }
}

proof fn lemma_waited_monotone(j: nat, k: nat)
    requires
        j <= k,
    ensures
        waited_before(j) <= waited_before(k),
    decreases k - j,
{
    if j < k {
        lemma_waited_monotone(j, (k - 1) as nat);
    }
}

} // verus!

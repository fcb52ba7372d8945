//! Maturing mined funds: one block is mined and the balance looked at, again
//! and again, until the balance is positive or the attempts run out.

use vstd::prelude::*;
use crate::error::PipelineError;

verus! {

/// Where the maturation stands.
#[derive(Clone, Copy, Debug, PartialEq, Eq, Structural)]
pub enum Phase {
    /// No positive balance was seen yet and attempts are left.
    Advancing,
    /// A positive balance was seen.
    Matured,
    /// The attempts ran out without a positive balance.
    TimedOut,
}

/// The state of a maturation.
#[derive(Clone, Copy, Debug, PartialEq, Eq, Structural)]
pub struct Maturation {
    /// Where it stands.
    pub phase: Phase,
    /// How many blocks were mined for it.
    pub attempts: u32,
    /// How many blocks may be mined for it at most.
    pub max_attempts: u32,
}

impl Maturation {
    /// A state that the transitions can reach: the attempts are within their
    /// limit, attempts are left while it advances, at least one block was
    /// mined before it matured, and it timed out with all attempts used.
    pub open spec fn wf(self) -> bool {
        &&& self.attempts <= self.max_attempts
        &&& self.phase == Phase::Advancing ==> self.attempts < self.max_attempts
        &&& self.phase == Phase::Matured ==> self.attempts >= 1
        &&& self.phase == Phase::TimedOut ==> self.attempts == self.max_attempts
    }

    /// The state before any block is mined.
    pub open spec fn initial(max_attempts: u32) -> Maturation {
        Maturation {
            phase: if max_attempts == 0 {
                Phase::TimedOut
            } else {
                Phase::Advancing
            },
            attempts: 0,
            max_attempts,
        }
    }

    /// The state after one more block was mined and `balance` was seen. A
    /// state that no longer advances stays as it is: no block is mined then.
    pub open spec fn step(self, balance: u64) -> Maturation {
        if self.phase != Phase::Advancing {
            self
        } else if self.attempts >= self.max_attempts {
            Maturation { phase: Phase::TimedOut, ..self }
        } else if balance > 0 {
            Maturation { phase: Phase::Matured, attempts: (self.attempts + 1) as u32, ..self }
        } else if self.attempts + 1 >= self.max_attempts {
            Maturation { phase: Phase::TimedOut, attempts: (self.attempts + 1) as u32, ..self }
        } else {
            Maturation { attempts: (self.attempts + 1) as u32, ..self }
        }
    }

    /// The state after the balances were seen one after the other, each
    /// after one more block, as far as blocks were still mined.
    pub open spec fn replay(self, balances: Seq<u64>) -> Maturation
        decreases balances.len(),
    {
        if balances.len() == 0 {
            self
        } else {
            self.replay(balances.drop_last()).step(balances.last())
        }
    }

    /// How the maturation ended, if it has: with the number of blocks that
    /// it took, or with the failure.
    pub open spec fn outcome_of(self) -> Option<Result<u32, PipelineError>> {
        match self.phase {
            Phase::Advancing => None,
            Phase::Matured => Some(Ok(self.attempts)),
            Phase::TimedOut => Some(Err(PipelineError::MaturationTimeout)),
        }
    }

    /// Starts a maturation that may mine `max_attempts` blocks. With none
    /// allowed it has timed out at once.
    pub fn begin(max_attempts: u32) -> (state: Maturation)
        ensures
            state == Maturation::initial(max_attempts),
            state.wf(),
    {
        Maturation {
            phase: if max_attempts == 0 {
                Phase::TimedOut
            } else {
                Phase::Advancing
            },
            attempts: 0,
            max_attempts,
        }
    }

    /// Whether one more block is to be mined.
    pub fn must_mine(&self) -> (mine: bool)
        ensures
            mine == (self.phase == Phase::Advancing),
    {
        self.phase == Phase::Advancing
    }

    /// Takes in the balance seen after one more block was mined.
    ///
    /// The first positive balance ends the maturation with success; a zero
    /// balance on the last attempt ends it with a timeout.
    pub fn observe(self, balance: u64) -> (next: Maturation)
        ensures
            next == self.step(balance),
            self.wf() ==> next.wf(),
            next.max_attempts == self.max_attempts,
            next.phase == Phase::Matured && self.phase != Phase::Matured ==> balance > 0,
    {
        if self.phase != Phase::Advancing {
            self
        } else if self.attempts >= self.max_attempts {
            Maturation { phase: Phase::TimedOut, attempts: self.attempts, max_attempts: self.max_attempts }
        } else {
            let attempts: u32 = self.attempts + 1;
            let phase = if balance > 0 {
                Phase::Matured
            } else if attempts >= self.max_attempts {
                Phase::TimedOut
            } else {
                Phase::Advancing
            };
            Maturation { phase, attempts, max_attempts: self.max_attempts }
        }
    }

    /// How the maturation ended, if it has.
    pub fn outcome(&self) -> (r: Option<Result<u32, PipelineError>>)
        ensures
            r == self.outcome_of(),
    {
        match self.phase {
            Phase::Advancing => None,
            Phase::Matured => Some(Ok(self.attempts)),
            Phase::TimedOut => Some(Err(PipelineError::MaturationTimeout)),
        }
    }

    /// Runs a maturation over balances that were seen one after the other,
    /// each after one more block. It stops looking once the maturation has
    /// ended.
    pub fn run(max_attempts: u32, balances: &Vec<u64>) -> (state: Maturation)
        ensures
            state == Maturation::initial(max_attempts).replay(balances@),
            state.wf(),
    {
        let mut state = Maturation::begin(max_attempts);
        let mut i: usize = 0;
        while i < balances.len() && state.must_mine()
            invariant
                i <= balances.len(),
                state == Maturation::initial(max_attempts).replay(balances@.take(i as int)),
                state.wf(),
            decreases balances.len() - i,
        {
            assert(balances@.take(i + 1).drop_last() =~= balances@.take(i as int));
            state = state.observe(balances[i]);
            i += 1;
        }
        proof {
            lemma_replay_ended(Maturation::initial(max_attempts), balances@, i as int);
        }
        state
    }
}

/// A state that has ended is not changed by anything seen after it.
pub proof fn lemma_replay_ended(start: Maturation, balances: Seq<u64>, seen: int)
    requires
        0 <= seen <= balances.len(),
        seen < balances.len() ==> start.replay(balances.take(seen)).phase != Phase::Advancing,
    ensures
        start.replay(balances) == start.replay(balances.take(seen)),
    decreases balances.len(),
{
    if seen == balances.len() {
        assert(balances.take(seen) =~= balances);
    } else {
        assert(balances.drop_last().take(seen) =~= balances.take(seen));
        lemma_replay_ended(start, balances.drop_last(), seen);
    }
}

/// Whether the first `n` balances are all zero.
pub open spec fn all_zero(balances: Seq<u64>, n: int) -> bool {
    forall|j: int| 0 <= j < n && j < balances.len() ==> balances[j] == 0
}

/// What a maturation has come to after any balances: it never mines more
/// blocks than allowed nor more than balances were seen; while it advances,
/// every balance seen was zero and attempts are left; it has matured only on
/// a positive balance, the first one seen, within the allowed attempts; and
/// it has timed out only with all attempts used on zero balances.
pub proof fn lemma_replay(max_attempts: u32, balances: Seq<u64>)
    ensures
        ({
            let end = Maturation::initial(max_attempts).replay(balances);
            &&& end.wf()
            &&& end.max_attempts == max_attempts
            &&& end.attempts <= balances.len()
            &&& all_zero(balances, end.attempts - 1)
            &&& end.phase == Phase::Advancing ==> end.attempts == balances.len() && all_zero(
                balances,
                end.attempts as int,
            )
            &&& end.phase == Phase::Matured ==> balances[end.attempts - 1] > 0
            &&& end.phase == Phase::TimedOut ==> all_zero(balances, end.attempts as int)
        }),
    decreases balances.len(),
{
    if balances.len() > 0 {
        let rest = balances.drop_last();
        lemma_replay(max_attempts, rest);
        assert forall|j: int| 0 <= j < rest.len() implies rest[j] == balances[j] by {}
    }
}

/// A maturation ends within the allowed attempts: once as many balances were
/// seen as blocks may be mined, it advances no more.
pub proof fn lemma_maturation_ends(max_attempts: u32, balances: Seq<u64>)
    requires
        balances.len() >= max_attempts,
    ensures
        Maturation::initial(max_attempts).replay(balances).phase != Phase::Advancing,
        Maturation::initial(max_attempts).replay(balances).attempts <= max_attempts,
{
    lemma_replay(max_attempts, balances);
}

/// A maturation never reports success on balances that are all zero.
pub proof fn lemma_no_success_without_funds(max_attempts: u32, balances: Seq<u64>)
    requires
        all_zero(balances, balances.len() as int),
    ensures
        Maturation::initial(max_attempts).replay(balances).phase != Phase::Matured,
{
    lemma_replay(max_attempts, balances);
}

} // verus!

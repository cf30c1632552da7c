//! Query futures: a write-once cell for the outcome of one request, with the
//! observers that wait for it.
//!
//! The cell itself neither blocks nor wakes anybody: it says who is to be
//! woken, and the caller does the waking.

use vstd::prelude::*;
use crate::result::QueryResult;

verus! {

/// Why a request was not carried out.
#[derive(Clone, Copy, Debug, PartialEq, Eq, Structural)]
pub enum ExecError {
    /// No connection of the session was ready to take the request.
    NoConnectionAvailable,
    /// The session was shut down, or all its connections are closed.
    SessionClosed,
    /// The remote store answered with an error code.
    RemoteFailure(i32),
}

/// How a future can fail.
#[derive(Clone, Copy, Debug, PartialEq, Eq, Structural)]
pub enum QueryError {
    /// The request was not carried out.
    Exec(ExecError),
    /// The future's deadline passed before an answer came.
    Timeout,
}

/// The terminal value of a future.
#[derive(Debug, PartialEq)]
pub enum Outcome {
    Completed(QueryResult),
    Failed(QueryError),
}

/// The state after an attempt to settle with `outcome`: only a pending cell takes it.
pub open spec fn settle(state: Option<Outcome>, outcome: Outcome) -> Option<Outcome> {
    match state {
        None => Some(outcome),
        Some(_) => state,
    }
}

/// The deadline, if there is one, has been reached at time `now`.
pub open spec fn is_due(deadline: Option<u64>, now: u64) -> bool {
    deadline is Some && now >= deadline->0
}

/// `observers` without every occurrence of `observer`, in the same order.
pub open spec fn without(observers: Seq<u64>, observer: u64) -> Seq<u64>
    decreases observers.len(),
{
    if observers.len() == 0 {
        observers
    } else if observers.last() == observer {
        without(observers.drop_last(), observer)
    } else {
        without(observers.drop_last(), observer).push(observers.last())
    }
}

/// The outcome of one request: pending, then settled once and for all.
#[derive(Debug)]
pub struct QueryFuture {
    outcome: Option<Outcome>,
    deadline: Option<u64>,
    observers: Vec<u64>,
}

impl QueryFuture {
    /// The terminal value, or `None` while the future is pending.
    pub closed spec fn state(&self) -> Option<Outcome> {
        self.outcome
    }

    /// The time at which the future gives up, if it has a deadline.
    pub closed spec fn deadline(&self) -> Option<u64> {
        self.deadline
    }

    /// The observers that wait to be woken, in the order they registered.
    pub closed spec fn waiting(&self) -> Seq<u64> {
        self.observers@
    }

    /// A pending future with no observers.
    pub fn pending(deadline: Option<u64>) -> (f: QueryFuture)
        ensures
            f.state() is None,
            f.deadline() == deadline,
            f.waiting() == Seq::<u64>::empty(),
    {
        QueryFuture { outcome: None, deadline, observers: Vec::new() }
    }

    /// A future that is settled from the start.
    pub fn settled(outcome: Outcome) -> (f: QueryFuture)
        ensures
            f.state() == Some(outcome),
            f.deadline() is None,
            f.waiting() == Seq::<u64>::empty(),
    {
        QueryFuture { outcome: Some(outcome), deadline: None, observers: Vec::new() }
    }

    /// Gives a pending future a deadline, or takes it away. A settled future
    /// is left as it is. Returns whether the future was pending.
    pub fn set_deadline(&mut self, deadline: Option<u64>) -> (was_pending: bool)
        ensures
            final(self).state() == old(self).state(),
            final(self).waiting() == old(self).waiting(),
            was_pending == (old(self).state() is None),
            final(self).deadline() == (if was_pending {
                deadline
            } else {
                old(self).deadline()
            }),
    {
        if self.outcome.is_none() {
            self.deadline = deadline;
            true
        } else {
            false
        }
    }

    /// Whether the future has its terminal value.
    pub fn is_resolved(&self) -> (b: bool)
        ensures
            b == (self.state() is Some),
    {
        self.outcome.is_some()
    }

    /// Lends the terminal value. Every observer gets the same one.
    pub fn poll(&self) -> (r: Option<&Outcome>)
        ensures
            (match r {
                Some(o) => Some(*o),
                None => None,
            }) == self.state(),
    {
        match &self.outcome {
            Some(o) => Some(o),
            None => None,
        }
    }

    /// Settles a pending future with `outcome` and returns the observers to
    /// wake. A future that is settled already keeps its value, and nobody is woken.
    pub fn resolve(&mut self, outcome: Outcome) -> (woken: Vec<u64>)
        ensures
            final(self).state() == settle(old(self).state(), outcome),
            final(self).deadline() == old(self).deadline(),
            old(self).state() is None ==> woken@ == old(self).waiting() && final(self).waiting()
                == Seq::<u64>::empty(),
            old(self).state() is Some ==> woken@ == Seq::<u64>::empty() && final(self).waiting()
                == old(self).waiting(),
    {
        let mut woken: Vec<u64> = Vec::new();
        if self.outcome.is_none() {
            self.outcome = Some(outcome);
            core::mem::swap(&mut self.observers, &mut woken);
        }
        woken
    }

    /// Fails a pending future with `Timeout` once its deadline is reached, and
    /// returns the observers to wake. Otherwise nothing changes.
    pub fn expire(&mut self, now: u64) -> (woken: Vec<u64>)
        ensures
            final(self).deadline() == old(self).deadline(),
            old(self).state() is None && is_due(old(self).deadline(), now) ==> final(self).state()
                == Some(Outcome::Failed(QueryError::Timeout)) && woken@ == old(self).waiting()
                && final(self).waiting() == Seq::<u64>::empty(),
            !(old(self).state() is None && is_due(old(self).deadline(), now)) ==> final(self).state()
                == old(self).state() && woken@ == Seq::<u64>::empty() && final(self).waiting()
                == old(self).waiting(),
    {
        let due: bool = match self.deadline {
            Some(d) => now >= d,
            None => false,
        };
        if due {
            self.resolve(Outcome::Failed(QueryError::Timeout))
        } else {
            Vec::new()
        }
    }

    /// Registers an observer. Returns `true` where the future is settled
    /// already, so that the observer may read at once; a pending future
    /// queues the observer and returns `false`.
    pub fn register(&mut self, observer: u64) -> (ready: bool)
        ensures
            final(self).state() == old(self).state(),
            final(self).deadline() == old(self).deadline(),
            ready == (old(self).state() is Some),
            ready ==> final(self).waiting() == old(self).waiting(),
            !ready ==> final(self).waiting() == old(self).waiting().push(observer),
    {
        if self.outcome.is_some() {
            true
        } else {
            self.observers.push(observer);
            false
        }
    }

    /// Drops the interest of `observer`. The other observers keep their
    /// places, and the state of the future is untouched.
    pub fn forget(&mut self, observer: u64)
        ensures
            final(self).state() == old(self).state(),
            final(self).deadline() == old(self).deadline(),
            final(self).waiting() == without(old(self).waiting(), observer),
    {
        let mut kept: Vec<u64> = Vec::new();
        let mut i: usize = 0;
        while i < self.observers.len()
            invariant
                i <= self.observers@.len(),
                kept@ == without(self.observers@.subrange(0, i as int), observer),
            decreases self.observers.len() - i,
        {
            let o: u64 = self.observers[i];
            proof {
                assert(self.observers@.subrange(0, i + 1).drop_last() =~= self.observers@.subrange(
                    0,
                    i as int,
                ));
            }
            if o != observer {
                kept.push(o);
            }
            i += 1;
        }
        proof {
            assert(self.observers@.subrange(0, i as int) =~= self.observers@);
        }
        self.observers = kept;
    }
}

/// A future is settled at most once: after one attempt it has a value, and a
/// further attempt does not change it.
pub proof fn lemma_settle_once(state: Option<Outcome>, first: Outcome, second: Outcome)
    ensures
        settle(state, first) is Some,
        settle(settle(state, first), second) == settle(state, first),
        state is None ==> settle(state, first) == Some(first),
        state is Some ==> settle(state, first) == state,
{
}

} // verus!

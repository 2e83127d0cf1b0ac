//! Bounded health probing of the spawned backend.
//!
//! After a spawn, the shell polls the backend's health endpoint a fixed
//! number of times from a worker thread. The worker performs the HTTP
//! requests and sleeps; this state machine decides when to stop and what
//! the attempts amount to.

use vstd::prelude::*;

verus! {

/// What a single probe attempt observed.
#[derive(Clone, Copy, PartialEq, Eq, Structural, Debug)]
pub enum AttemptOutcome {
    /// A response with a 2xx status.
    Success,
    /// A response arrived, but with a non-2xx status.
    NonSuccess,
    /// No response: a connection-level failure.
    ConnectionError,
}

/// What a whole probe amounted to. Both failure outcomes are advisory:
/// the caller treats them identically and never fails a start over them.
#[derive(Clone, Copy, PartialEq, Eq, Structural, Debug)]
pub enum HealthCheckOutcome {
    Healthy,
    Unreachable,
    TimedOut,
}

/// The outcome a probe history determines: `Healthy` once any attempt
/// saw a 2xx response, `Unreachable` when every attempt failed at the
/// connection level, `TimedOut` otherwise.
pub open spec fn classify_spec(h: Seq<AttemptOutcome>) -> HealthCheckOutcome {
    if exists|i: int| 0 <= i < h.len() && h[i] is Success {
        HealthCheckOutcome::Healthy
    } else if forall|i: int| 0 <= i < h.len() ==> h[i] is ConnectionError {
        HealthCheckOutcome::Unreachable
    } else {
        HealthCheckOutcome::TimedOut
    }
}

/// One probe in progress: a bounded number of attempts, stopping early
/// at the first success.
pub struct HealthProbe {
    pub max_attempts: usize,
    pub attempts_made: usize,
    pub succeeded: bool,
    pub all_connection_errors: bool,
    pub history: Ghost<Seq<AttemptOutcome>>,
}

impl HealthProbe {
    /// The counters summarize the recorded history faithfully.
    pub open spec fn wf(self) -> bool {
        &&& self.max_attempts >= 1
        &&& self.attempts_made == self.history@.len()
        &&& self.attempts_made <= self.max_attempts
        &&& self.succeeded == exists|i: int|
            0 <= i < self.history@.len() && self.history@[i] is Success
        &&& self.all_connection_errors == forall|i: int|
            0 <= i < self.history@.len() ==> self.history@[i] is ConnectionError
    }

    /// The probe stops at the first success or once the attempt budget
    /// is spent.
    pub open spec fn done_spec(self) -> bool {
        self.succeeded || self.attempts_made == self.max_attempts
    }

    /// A fresh probe with a positive attempt budget.
    pub fn new(max_attempts: usize) -> (p: HealthProbe)
        requires
            max_attempts >= 1,
        ensures
            p.wf(),
            p.max_attempts == max_attempts,
            p.history@ == Seq::<AttemptOutcome>::empty(),
            !p.done_spec(),
    {
        HealthProbe {
            max_attempts,
            attempts_made: 0,
            succeeded: false,
            all_connection_errors: true,
            history: Ghost(Seq::empty()),
        }
    }

    /// Whether another attempt is still owed.
    pub fn done(&self) -> (r: bool)
        ensures
            r == self.done_spec(),
    {
        self.succeeded || self.attempts_made == self.max_attempts
    }

    /// Records what one attempt observed. A success ends the probe.
    pub fn record(&mut self, a: AttemptOutcome)
        requires
            old(self).wf(),
            !old(self).done_spec(),
        ensures
            final(self).wf(),
            final(self).max_attempts == old(self).max_attempts,
            final(self).history@ == old(self).history@.push(a),
            final(self).attempts_made == old(self).attempts_made + 1,
            a is Success ==> final(self).done_spec(),
    {
        let ghost h0 = self.history@;
        self.attempts_made = self.attempts_made + 1;
        match a {
            AttemptOutcome::Success => {
                self.succeeded = true;
                self.all_connection_errors = false;
            },
            AttemptOutcome::NonSuccess => {
                self.all_connection_errors = false;
            },
            AttemptOutcome::ConnectionError => {},
        }
        self.history = Ghost(h0.push(a));
        proof {
            let h1 = h0.push(a);
            assert(h1[h0.len() as int] == a);
            assert(forall|i: int| 0 <= i < h0.len() ==> h1[i] == h0[i]);
            if self.succeeded {
                if a is Success {
                    assert(h1[h0.len() as int] is Success);
                } else {
                    let i = choose|i: int| 0 <= i < h0.len() && h0[i] is Success;
                    assert(h1[i] is Success);
                }
            } else {
                assert(forall|i: int| 0 <= i < h1.len() ==> !(h1[i] is Success)) by {
                    assert(forall|i: int| 0 <= i < h0.len() ==> !(h0[i] is Success));
                }
            }
            if self.all_connection_errors {
                assert(forall|i: int| 0 <= i < h1.len() ==> h1[i] is ConnectionError);
            } else {
                if !(a is ConnectionError) {
                    assert(!(h1[h0.len() as int] is ConnectionError));
                } else {
                    let i = choose|i: int| 0 <= i < h0.len() && !(h0[i] is ConnectionError);
                    assert(!(h1[i] is ConnectionError));
                }
            }
        }
    }

    /// The outcome of a finished probe.
    pub fn outcome(&self) -> (r: HealthCheckOutcome)
        requires
            self.wf(),
            self.done_spec(),
        ensures
            r == classify_spec(self.history@),
    {
        if self.succeeded {
            HealthCheckOutcome::Healthy
        } else if self.all_connection_errors {
            HealthCheckOutcome::Unreachable
        } else {
            HealthCheckOutcome::TimedOut
        }
    }
}

/// Attempts made after the backend has been stopped observe connection
/// failures; such attempts can never turn a probe that has not already
/// seen a success into a healthy one — it ends `Unreachable` or
/// `TimedOut`, it does not hang on a vanished process.
pub proof fn lemma_late_connection_failures(h: Seq<AttemptOutcome>)
    requires
        classify_spec(h) != HealthCheckOutcome::Healthy,
    ensures
        classify_spec(h.push(AttemptOutcome::ConnectionError)) != HealthCheckOutcome::Healthy,
{
    let h1 = h.push(AttemptOutcome::ConnectionError);
    assert(forall|i: int| 0 <= i < h.len() ==> !(h[i] is Success));
    assert forall|i: int| 0 <= i < h1.len() implies !(h1[i] is Success) by {
        if i < h.len() {
            assert(h1[i] == h[i]);
        } else {
            assert(h1[i] == AttemptOutcome::ConnectionError);
        }
    }
}

} // verus!

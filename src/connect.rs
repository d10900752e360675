use vstd::prelude::*;

verus! {

/// How a connection attempt ended.
#[derive(Clone, Copy, Debug, PartialEq, Eq, Structural)]
pub enum ConnectOutcome {
    Connected,
    Failed,
}

/// What startup does next.
#[derive(Clone, Copy, Debug, PartialEq, Eq, Structural)]
pub enum ConnectAction {
    /// The connection is up: go on to sampling.
    Proceed,
    /// Wait this many seconds, then try again.
    RetryAfter(u64),
    /// Stop trying.
    GiveUp,
}

/// The retry bookkeeping of connection establishment.
#[derive(Clone, Copy, Debug, PartialEq, Eq, Structural)]
pub struct RetryState {
    pub failures: u64,
    pub retry_delay_secs: u64,
    pub max_attempts: Option<u64>,
}

pub open spec fn failures_after(failures: u64) -> u64 {
    if failures == u64::MAX {
        failures
    } else {
        (failures + 1) as u64
    }
}

pub open spec fn retry_next(s: RetryState, o: ConnectOutcome) -> RetryState {
    match o {
        ConnectOutcome::Connected => s,
        ConnectOutcome::Failed => RetryState { failures: failures_after(s.failures), ..s },
    }
}

pub open spec fn retry_action(s: RetryState, o: ConnectOutcome) -> ConnectAction {
    match o {
        ConnectOutcome::Connected => ConnectAction::Proceed,
        ConnectOutcome::Failed => match s.max_attempts {
            Some(m) if failures_after(s.failures) >= m => ConnectAction::GiveUp,
            _ => ConnectAction::RetryAfter(s.retry_delay_secs),
        },
    }
}

/// The state after `k` failed attempts in a row.
pub open spec fn after_failures(s: RetryState, k: nat) -> RetryState
    decreases k,
{
    if k == 0 {
        s
    } else {
        retry_next(after_failures(s, (k - 1) as nat), ConnectOutcome::Failed)
    }
}

impl RetryState {
    pub fn new(retry_delay_secs: u64, max_attempts: Option<u64>) -> (r: RetryState)
        ensures
            r == (RetryState { failures: 0, retry_delay_secs, max_attempts }),
    {
        RetryState { failures: 0, retry_delay_secs, max_attempts }
    }

    /// Records how an attempt ended and says what to do next.
    pub fn on_outcome(&mut self, o: ConnectOutcome) -> (r: ConnectAction)
        ensures
            *final(self) == retry_next(*old(self), o),
            r == retry_action(*old(self), o),
    {
        match o {
            ConnectOutcome::Connected => ConnectAction::Proceed,
            ConnectOutcome::Failed => {
                if self.failures < u64::MAX {
                    self.failures = self.failures + 1;
                }
                match self.max_attempts {
                    Some(m) => {
                        if self.failures >= m {
                            ConnectAction::GiveUp
                        } else {
                            ConnectAction::RetryAfter(self.retry_delay_secs)
                        }
                    },
                    None => ConnectAction::RetryAfter(self.retry_delay_secs),
                }
            },
        }
    }
}

/// Without an attempt cap, however many attempts have failed, the next failure
/// is followed by a retry after the same fixed delay, and the next success lets
/// startup proceed.
pub proof fn lemma_unbounded_retry_is_regular(s: RetryState, k: nat)
    requires
        s.max_attempts is None,
    ensures
        after_failures(s, k).retry_delay_secs == s.retry_delay_secs,
        after_failures(s, k).max_attempts is None,
        retry_action(after_failures(s, k), ConnectOutcome::Failed) == ConnectAction::RetryAfter(
            s.retry_delay_secs,
        ),
        retry_action(after_failures(s, k), ConnectOutcome::Connected) == ConnectAction::Proceed,
    decreases k,
{
    if k > 0 {
        lemma_unbounded_retry_is_regular(s, (k - 1) as nat);
    }
}

/// With a cap of `m` attempts, the failure that makes the `m`-th attempt fail gives up.
pub proof fn lemma_capped_retry_gives_up(s: RetryState, m: u64)
    requires
        s.max_attempts == Some(m),
        s.failures < u64::MAX,
        s.failures + 1 >= m,
    ensures
        retry_action(s, ConnectOutcome::Failed) == ConnectAction::GiveUp,
{
}

} // verus!

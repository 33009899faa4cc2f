use vstd::prelude::*;
use crate::backoff::{
    next_bootstrap_delay, power_of_two, spec_next_bootstrap_delay, INITIAL_BOOTSTRAP_DELAY_MS,
    MAX_BOOTSTRAP_DELAY_MS,
};
use crate::types::ForesterError;

verus! {

/// The retry bookkeeping of the service bootstrap.
#[derive(Clone, Copy, Debug, PartialEq, Eq)]
pub struct ServiceBootstrap {
    /// Failed attempts so far.
    pub retry_count: usize,
    /// The delay before the next attempt, in milliseconds.
    pub retry_delay_ms: u64,
    pub max_retries: usize,
}

/// What the bootstrap does next.
#[derive(Debug, PartialEq, Eq)]
pub enum BootstrapAction {
    /// Try to construct the epoch manager.
    Construct,
    /// Wait, then try again to construct the epoch manager.
    SleepThenConstruct { millis: u64 },
    /// The manager exists: run it until it ends or shutdown is signalled.
    Run,
    /// Give up after this many attempts, with the last failure.
    GiveUp { attempts: usize, error: ForesterError },
    /// No attempt is allowed at all.
    NoAttemptAllowed,
}

impl ServiceBootstrap {
    /// The bootstrap before its first attempt.
    pub open spec fn initial(max_retries: usize) -> ServiceBootstrap {
        ServiceBootstrap {
            retry_count: 0,
            retry_delay_ms: INITIAL_BOOTSTRAP_DELAY_MS,
            max_retries,
        }
    }

    /// After an attempt: a manager is run; a failure is followed by a delay
    /// that doubles up to the cap, until the attempts are used up.
    pub open spec fn spec_on_attempt(self, constructed: Result<(), ForesterError>) -> (
        ServiceBootstrap,
        BootstrapAction,
    ) {
        match constructed {
            Ok(()) => (self, BootstrapAction::Run),
            Err(error) => if self.retry_count + 1 < self.max_retries {
                (
                    ServiceBootstrap {
                        retry_count: (self.retry_count + 1) as usize,
                        retry_delay_ms: spec_next_bootstrap_delay(self.retry_delay_ms),
                        max_retries: self.max_retries,
                    },
                    BootstrapAction::SleepThenConstruct { millis: self.retry_delay_ms },
                )
            } else {
                (
                    ServiceBootstrap { retry_count: self.max_retries, ..self },
                    BootstrapAction::GiveUp { attempts: self.max_retries, error },
                )
            },
        }
    }

    /// Opens the bootstrap: the first attempt follows at once, unless no
    /// attempt is allowed.
    pub fn new(max_retries: usize) -> (opened: (ServiceBootstrap, BootstrapAction))
        ensures
            opened.0 == ServiceBootstrap::initial(max_retries),
            max_retries > 0 ==> opened.1 == BootstrapAction::Construct,
            max_retries == 0 ==> opened.1 == BootstrapAction::NoAttemptAllowed,
    {
        let state = ServiceBootstrap {
            retry_count: 0,
            retry_delay_ms: INITIAL_BOOTSTRAP_DELAY_MS,
            max_retries,
        };
        if max_retries > 0 {
            (state, BootstrapAction::Construct)
        } else {
            (state, BootstrapAction::NoAttemptAllowed)
        }
    }
}

/// Takes the outcome of one attempt to construct the epoch manager and says
/// how the bootstrap goes on.
pub fn run_service(state: ServiceBootstrap, constructed: Result<(), ForesterError>) -> (next: (
    ServiceBootstrap,
    BootstrapAction,
))
    requires
        state.retry_count < state.max_retries,
    ensures
        next == state.spec_on_attempt(constructed),
{
    match constructed {
        Ok(()) => (state, BootstrapAction::Run),
        Err(error) => {
            if state.retry_count + 1 < state.max_retries {
                (
                    ServiceBootstrap {
                        retry_count: state.retry_count + 1,
                        retry_delay_ms: next_bootstrap_delay(state.retry_delay_ms),
                        max_retries: state.max_retries,
                    },
                    BootstrapAction::SleepThenConstruct { millis: state.retry_delay_ms },
                )
            } else {
                (
                    ServiceBootstrap {
                        retry_count: state.max_retries,
                        retry_delay_ms: state.retry_delay_ms,
                        max_retries: state.max_retries,
                    },
                    BootstrapAction::GiveUp { attempts: state.max_retries, error },
                )
            }
        },
    }
}

/// The delay after `failures` failed attempts.
pub open spec fn spec_bootstrap_delay(failures: nat) -> u64
    decreases failures,
{
    if failures == 0 {
        INITIAL_BOOTSTRAP_DELAY_MS
    } else {
        spec_next_bootstrap_delay(spec_bootstrap_delay((failures - 1) as nat))
    }
}

/// The bootstrap delay starts at one second, doubles with every failure, and
/// stays at thirty seconds once it has reached them.
pub proof fn lemma_bootstrap_delay_doubles_to_cap(failures: nat)
    ensures
        failures < 5 ==> spec_bootstrap_delay(failures) == 1000 * power_of_two(failures),
        failures >= 5 ==> spec_bootstrap_delay(failures) == MAX_BOOTSTRAP_DELAY_MS,
    decreases failures,
{
    reveal_with_fuel(power_of_two, 6);
    if failures > 0 {
        lemma_bootstrap_delay_doubles_to_cap((failures - 1) as nat);
    }
}

} // verus!

use vstd::prelude::*;

verus! {

/// The key given to a new client.
pub const DEFAULT_KEY: u8 = 1;

/// The rate limit given to a new client.
pub const DEFAULT_RATE_LIMIT: u8 = 5;

/// The wait time given to a new client.
pub const DEFAULT_WAIT_TIME: u8 = 2;

/// A rate-limited client: which shared counter it contends for (`key`), the
/// two arguments handed to the coordinator's procedure, and the guarded
/// action to run once allowed.
#[derive(Clone)]
pub struct Bouncer<F> {
    pub key: u8,
    pub rate_limit: u8,
    pub wait_time: u8,
    pub block: F,
}

impl<F> Bouncer<F> {
    /// A client that guards `block`, with the default key, rate limit and
    /// wait time.
    pub fn new(block: F) -> (r: Bouncer<F>)
        ensures
            r == (Bouncer { key: DEFAULT_KEY, rate_limit: DEFAULT_RATE_LIMIT, wait_time: DEFAULT_WAIT_TIME, block }),
    {
        Bouncer { key: DEFAULT_KEY, rate_limit: DEFAULT_RATE_LIMIT, wait_time: DEFAULT_WAIT_TIME, block }
    }

    /// The same client with another key.
    pub fn key(self, key: u8) -> (r: Bouncer<F>)
        ensures
            r == (Bouncer { key, ..self }),
    {
        Bouncer { key, ..self }
    }

    /// The same client with another rate limit.
    pub fn rate_limit(self, rate_limit: u8) -> (r: Bouncer<F>)
        ensures
            r == (Bouncer { rate_limit, ..self }),
    {
        Bouncer { rate_limit, ..self }
    }

    /// The same client with another wait time.
    pub fn wait_time(self, wait_time: u8) -> (r: Bouncer<F>)
        ensures
            r == (Bouncer { wait_time, ..self }),
    {
        Bouncer { wait_time, ..self }
    }

    /// The arguments of one call of the coordinator's procedure, in order:
    /// the key, the rate limit and the wait time.
    pub fn procedure_args(&self) -> (r: (u8, u8, u8))
        ensures
            r == (self.key, self.rate_limit, self.wait_time),
    {
        (self.key, self.rate_limit, self.wait_time)
    }
}

} // verus!

//! Retrying client configuration: bounded exponential backoff, distinct
//! connect and request timeouts, and fail-fast region health checks.
//!
//! The client validates its configuration at construction and rejects every
//! invalid one before any network use.  Retry decisions and backoff delays
//! are pure functions with exact contracts; whoever runs the loop performs
//! the waiting.

use vstd::prelude::*;

use crate::paired_executor::TeeExecutor;
use crate::types::{ConfigError, ExecutionPayload, ExecutionResult, TeeError};

verus! {

/// Most retries a configuration may ask for.
pub const MAX_RETRIES_CEILING: u32 = 10;

/// Longest allowed retry delay, in milliseconds: thirty seconds.
pub const RETRY_DELAY_CEILING_MS: u64 = 30000;

/// Longest allowed request timeout, in milliseconds: five minutes.
pub const REQUEST_TIMEOUT_CEILING_MS: u64 = 300000;

/// Retry and timeout bounds of one client.
#[derive(Debug, Clone, Copy, PartialEq, Eq, Structural)]
pub struct RetryConfig {
    /// Upper bound on attempts for one logical call.
    pub max_retries: u32,
    /// Delay before the first retry, in milliseconds.
    pub initial_retry_delay_ms: u64,
    /// Cap on the exponentially growing retry delay, in milliseconds.
    pub max_retry_delay_ms: u64,
    /// Timeout for establishing a connection, in milliseconds.
    pub connect_timeout_ms: u64,
    /// Timeout for a whole request, in milliseconds.
    pub request_timeout_ms: u64,
}

/// One region the client may route to.
#[derive(Debug, Clone, PartialEq, Eq)]
pub struct RegionConfig {
    /// Region identifier.
    pub id: String,
    /// Endpoint the region is reached at; must not be empty.
    pub endpoint: String,
    /// Credential presented to the region; must not be empty.
    pub auth_token: String,
}

/// The construction-time configuration check, in order: `max_retries` must
/// lie in `(0, 10]`; `initial_retry_delay <= max_retry_delay <= 30s`;
/// `connect_timeout <= request_timeout <= 5min`.
pub open spec fn spec_config_check(c: RetryConfig) -> Result<(), ConfigError> {
    if c.max_retries == 0 {
        Err(ConfigError::ZeroRetries)
    } else if c.max_retries > MAX_RETRIES_CEILING {
        Err(ConfigError::TooManyRetries)
    } else if c.initial_retry_delay_ms > c.max_retry_delay_ms {
        Err(ConfigError::RetryDelayOrder)
    } else if c.max_retry_delay_ms > RETRY_DELAY_CEILING_MS {
        Err(ConfigError::RetryDelayTooLarge)
    } else if c.connect_timeout_ms > c.request_timeout_ms {
        Err(ConfigError::TimeoutOrder)
    } else if c.request_timeout_ms > REQUEST_TIMEOUT_CEILING_MS {
        Err(ConfigError::RequestTimeoutTooLarge)
    } else {
        Ok(())
    }
}

/// Check a configuration against every construction-time bound.
pub fn check_config(c: &RetryConfig) -> (r: Result<(), ConfigError>)
    ensures
        r == spec_config_check(*c),
{
    if c.max_retries == 0 {
        Err(ConfigError::ZeroRetries)
    } else if c.max_retries > MAX_RETRIES_CEILING {
        Err(ConfigError::TooManyRetries)
    } else if c.initial_retry_delay_ms > c.max_retry_delay_ms {
        Err(ConfigError::RetryDelayOrder)
    } else if c.max_retry_delay_ms > RETRY_DELAY_CEILING_MS {
        Err(ConfigError::RetryDelayTooLarge)
    } else if c.connect_timeout_ms > c.request_timeout_ms {
        Err(ConfigError::TimeoutOrder)
    } else if c.request_timeout_ms > REQUEST_TIMEOUT_CEILING_MS {
        Err(ConfigError::RequestTimeoutTooLarge)
    } else {
        Ok(())
    }
}

/// The capped exponential backoff delay before retry number `attempt + 1`:
/// the initial delay doubled `attempt` times, never above the cap.
pub open spec fn spec_backoff(initial: int, cap: int, attempt: nat) -> int
    decreases attempt,
{
    if attempt == 0 {
        if initial < cap {
            initial
        } else {
            cap
        }
    } else {
        let doubled = 2 * spec_backoff(initial, cap, (attempt - 1) as nat);
        if doubled < cap {
            doubled
        } else {
            cap
        }
    }
}

/// What the caller of a retrying loop does next.
#[derive(Debug, Clone, PartialEq, Eq)]
pub enum RetryDecision {
    /// The call succeeded; hand the result to the caller.
    Deliver(ExecutionResult),
    /// The call failed terminally, or the retry budget is spent; surface the
    /// error unchanged.
    Fail(TeeError),
    /// The call failed transiently; wait this many milliseconds and retry.
    RetryAfter(u64),
}

/// A client that wraps a backend with bounded retries and region routing.
pub struct RetryingClient<B: TeeExecutor> {
    /// Validated retry and timeout bounds.
    pub config: RetryConfig,
    /// Regions checked by `health_check`, in order.
    pub regions: Vec<RegionConfig>,
    /// The wrapped backend.
    pub backend: B,
}

/// Whether a region's static configuration is complete: endpoint and
/// credential both present.
pub open spec fn spec_region_ok(r: RegionConfig) -> bool {
    r.endpoint@.len() > 0 && r.auth_token@.len() > 0
}

impl<B: TeeExecutor> RetryingClient<B> {
    /// A well-formed client carries a configuration that passed every
    /// construction-time bound.
    pub open spec fn wf(self) -> bool {
        spec_config_check(self.config) is Ok
    }

    /// Construct a client, rejecting every invalid configuration with the
    /// first bound it breaks.
    pub fn new(config: RetryConfig, regions: Vec<RegionConfig>, backend: B) -> (r: Result<
        Self,
        ConfigError,
    >)
        ensures
            r is Ok <==> spec_config_check(config) is Ok,
            r matches Err(e) ==> spec_config_check(config) == Err::<(), ConfigError>(e),
            r matches Ok(c) ==> c.config == config && c.regions@ == regions@ && c.wf(),
    {
        match check_config(&config) {
            Err(e) => Err(e),
            Ok(()) => Ok(RetryingClient { config, regions, backend }),
        }
    }

    /// The delay before retry number `attempt + 1`, in milliseconds.
    pub fn backoff_delay(&self, attempt: u32) -> (r: u64)
        requires
            self.wf(),
        ensures
            r == spec_backoff(
                self.config.initial_retry_delay_ms as int,
                self.config.max_retry_delay_ms as int,
                attempt as nat,
            ),
            r <= self.config.max_retry_delay_ms,
    {
        let cap = self.config.max_retry_delay_ms;
        let mut d: u64 = if self.config.initial_retry_delay_ms < cap {
            self.config.initial_retry_delay_ms
        } else {
            cap
        };
        let mut k: u32 = 0;
        while k < attempt
            invariant
                k <= attempt,
                cap == self.config.max_retry_delay_ms,
                cap <= RETRY_DELAY_CEILING_MS,
                d <= cap,
                d == spec_backoff(
                    self.config.initial_retry_delay_ms as int,
                    cap as int,
                    k as nat,
                ),
            decreases attempt - k,
        {
            let doubled = 2 * d;
            d = if doubled < cap {
                doubled
            } else {
                cap
            };
            k = k + 1;
        }
        d
    }

    /// Decide what to do after attempt number `attempt` (counted from zero)
    /// came back with `outcome`.
    ///
    /// A success is delivered; only a transient network failure is retried,
    /// and only while fewer than `max_retries` attempts have been made;
    /// every other failure — and a network failure once the budget is spent
    /// — is surfaced unchanged.
    pub fn decide(&self, attempt: u32, outcome: Result<ExecutionResult, TeeError>) -> (r:
        RetryDecision)
        requires
            self.wf(),
        ensures
            outcome matches Ok(res) ==> r == RetryDecision::Deliver(res),
            outcome matches Err(e) ==> {
                &&& (e == TeeError::Network && attempt + 1 < self.config.max_retries) ==> r
                    == RetryDecision::RetryAfter(self.backoff_spec(attempt) as u64)
                &&& !(e == TeeError::Network && attempt + 1 < self.config.max_retries) ==> r
                    == RetryDecision::Fail(e)
            },
    {
        match outcome {
            Ok(res) => RetryDecision::Deliver(res),
            Err(e) => {
                if matches!(e, TeeError::Network) && attempt < self.config.max_retries - 1 {
                    RetryDecision::RetryAfter(self.backoff_delay(attempt))
                } else {
                    RetryDecision::Fail(e)
                }
            },
        }
    }

    /// The backoff delay as a specification value.
    pub open spec fn backoff_spec(self, attempt: u32) -> int {
        spec_backoff(
            self.config.initial_retry_delay_ms as int,
            self.config.max_retry_delay_ms as int,
            attempt as nat,
        )
    }

    /// One single attempt against the wrapped backend, with no retry.
    pub fn attempt_once(&self, payload: &ExecutionPayload) -> (r: Result<
        ExecutionResult,
        TeeError,
    >) {
        self.backend.execute(payload)
    }

    /// Check every configured region in order and fail fast.
    ///
    /// The first region with an empty endpoint or an empty credential fails
    /// the whole check at once — later regions are not looked at and the
    /// backend is not probed for the failing region.  A region that is
    /// structurally complete is probed; a probe error propagates unchanged
    /// and an unhealthy probe fails the check.  Only when every region
    /// passes does the check return healthy — and with no regions
    /// configured there is nothing to fail, so the check succeeds.
    pub fn health_check(&self) -> (r: Result<bool, TeeError>)
        ensures
            r is Ok ==> r == Ok::<bool, TeeError>(true) && forall|i: int|
                0 <= i < self.regions@.len() ==> spec_region_ok(self.regions@[i]),
            self.regions@.len() == 0 ==> r == Ok::<bool, TeeError>(true),
            self.regions@.len() > 0 && !spec_region_ok(self.regions@[0]) ==> r == Err::<
                bool,
                TeeError,
            >(TeeError::Region),
    {
        let n = self.regions.len();
        let mut i: usize = 0;
        while i < n
            invariant
                i <= n,
                n == self.regions@.len(),
                forall|j: int| 0 <= j < i ==> spec_region_ok(self.regions@[j]),
            decreases n - i,
        {
            let region = &self.regions[i];
            if region.endpoint.as_str().is_empty() {
                return Err(TeeError::Region);
            }
            if region.auth_token.as_str().is_empty() {
                return Err(TeeError::Region);
            }
            match self.backend.health_check() {
                Err(e) => {
                    return Err(e);
                },
                Ok(false) => {
                    return Err(TeeError::Region);
                },
                Ok(true) => {},
            }
            i = i + 1;
        }
        Ok(true)
    }
}

} // verus!

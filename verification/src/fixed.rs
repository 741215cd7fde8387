//! A strategy with a preconfigured answer for every operation.
//!
//! This is the ground case of a stack: wiring two of these together makes
//! the composition policies observable, and the implementation doubles as a
//! reference for what the builder contract asks of a strategy.

use vstd::prelude::*;
use crate::builder_stack::PayloadBuilder;
use crate::outcome::{BuildArguments, BuildOutcome, MissingPayloadBehaviour, PayloadBuilderError, PayloadConfig};
use crate::types::CachedReads;

verus! {

/// The cache an attempt hands back: the one threaded in through the
/// arguments, or a fresh empty one where the attempt started cold.
pub open spec fn spec_reused_cache(threaded: Option<CachedReads>) -> CachedReads {
    match threaded {
        Some(c) => c,
        None => CachedReads { entries: 0 },
    }
}

/// The cache an attempt hands back; executable twin of
/// [`spec_reused_cache`].
pub fn reused_cache(threaded: Option<CachedReads>) -> (r: CachedReads)
    ensures
        r == spec_reused_cache(threaded),
{
    match threaded {
        Some(c) => c,
        None => CachedReads { entries: 0 },
    }
}

/// What a [`FixedBuilder`] does on every `try_build` call.
#[derive(Clone, Copy, Debug, PartialEq, Eq)]
pub enum FixedBuildResult<P> {
    /// Answer `Better` with this payload, threading the caller's cache.
    Better(P),
    /// Answer `Aborted` with this fee total, threading the caller's cache.
    Aborted { fees: u128 },
    /// Answer `Cancelled`.
    Cancelled,
    /// Fail with this error code.
    Failure { code: u64 },
}

/// What a [`FixedBuilder`] does on every `build_empty_payload` call.
#[derive(Clone, Copy, Debug, PartialEq, Eq)]
pub enum FixedEmptyResult<P> {
    /// Succeed with this payload.
    Payload(P),
    /// Fail with this error code.
    Failure { code: u64 },
}

/// A payload-construction strategy whose three operations each return a
/// preconfigured answer, whatever the request.
#[derive(Clone, Copy, Debug, PartialEq, Eq)]
pub struct FixedBuilder<P> {
    /// The answer of every `try_build` call.
    pub build: FixedBuildResult<P>,
    /// The answer of every `on_missing_payload` call.
    pub missing: MissingPayloadBehaviour<P>,
    /// The answer of every `build_empty_payload` call.
    pub empty: FixedEmptyResult<P>,
}

impl<Pool, Client, A, P: Copy> PayloadBuilder<Pool, Client, A, P> for FixedBuilder<P> {
    open spec fn spec_try_build(&self, args: BuildArguments<Pool, Client, A, P>) -> Result<
        BuildOutcome<P>,
        PayloadBuilderError,
    > {
        match self.build {
            FixedBuildResult::Better(p) => Ok(BuildOutcome::Better {
                payload: p,
                cached_reads: spec_reused_cache(args.cached_reads),
            }),
            FixedBuildResult::Aborted { fees } => Ok(BuildOutcome::Aborted {
                fees,
                cached_reads: spec_reused_cache(args.cached_reads),
            }),
            FixedBuildResult::Cancelled => Ok(BuildOutcome::Cancelled),
            FixedBuildResult::Failure { code } => Err(PayloadBuilderError::Other(code)),
        }
    }

    open spec fn spec_on_missing_payload(&self, args: BuildArguments<Pool, Client, A, P>) -> MissingPayloadBehaviour<P> {
        self.missing
    }

    open spec fn spec_build_empty_payload(&self, client: Client, config: PayloadConfig<A>) -> Result<
        P,
        PayloadBuilderError,
    > {
        match self.empty {
            FixedEmptyResult::Payload(p) => Ok(p),
            FixedEmptyResult::Failure { code } => Err(PayloadBuilderError::Other(code)),
        }
    }

    fn try_build(&self, args: BuildArguments<Pool, Client, A, P>) -> (r: Result<
        BuildOutcome<P>,
        PayloadBuilderError,
    >) {
        match self.build {
            FixedBuildResult::Better(p) => Ok(BuildOutcome::Better {
                payload: p,
                cached_reads: reused_cache(args.cached_reads),
            }),
            FixedBuildResult::Aborted { fees } => Ok(BuildOutcome::Aborted {
                fees,
                cached_reads: reused_cache(args.cached_reads),
            }),
            FixedBuildResult::Cancelled => Ok(BuildOutcome::Cancelled),
            FixedBuildResult::Failure { code } => Err(PayloadBuilderError::Other(code)),
        }
    }

    fn on_missing_payload(&self, args: BuildArguments<Pool, Client, A, P>) -> (r: MissingPayloadBehaviour<P>) {
        self.missing
    }

    fn build_empty_payload(&self, client: &Client, config: PayloadConfig<A>) -> (r: Result<
        P,
        PayloadBuilderError,
    >) {
        match self.empty {
            FixedEmptyResult::Payload(p) => Ok(p),
            FixedEmptyResult::Failure { code } => Err(PayloadBuilderError::Other(code)),
        }
    }
}

} // verus!

//! The tri-state result of one build attempt, the error taxonomy of the
//! stack, and the per-attempt argument bundle.

use vstd::prelude::*;
use crate::types::{CachedReads, CancelSignal, ExtraData, SealedBlock};

verus! {

/// What one build attempt came to.
#[derive(Clone, Copy, Debug, PartialEq, Eq)]
pub enum BuildOutcome<Payload> {
    /// A payload strictly better (by its fee total) than the best one known
    /// was produced; the read cache comes back for reuse.
    Better { payload: Payload, cached_reads: CachedReads },
    /// No better payload was produced, but the attempt ran to its end: the
    /// caller learns the fee total of the best payload known and the read
    /// cache stays valid.
    Aborted { fees: u128, cached_reads: CachedReads },
    /// The cancellation signal fired. Not an error: a defined terminal
    /// outcome, with no payload and no cache obligation.
    Cancelled,
}

impl<Payload> BuildOutcome<Payload> {
    /// Lifts a payload transform over an outcome. The transform touches only
    /// the payload of `Better`: an `Aborted` keeps its fees and its cache
    /// word for word, and `Cancelled` passes through whatever `f` is.
    pub fn map_payload<Mapped, F: FnOnce(Payload) -> Mapped>(self, f: F) -> (r: BuildOutcome<
        Mapped,
    >)
        requires
            self matches BuildOutcome::Better { payload, cached_reads } ==> f.requires(
                (payload,),
            ),
        ensures
            (match self {
                BuildOutcome::Better { payload, cached_reads } => r matches BuildOutcome::Better {
                    payload: mapped,
                    cached_reads: c,
                } && c == cached_reads && f.ensures((payload,), mapped),
                BuildOutcome::Aborted { fees, cached_reads } => r == (BuildOutcome::<
                    Mapped,
                >::Aborted { fees, cached_reads }),
                BuildOutcome::Cancelled => r == BuildOutcome::<Mapped>::Cancelled,
            }),
    {
        match self {
            BuildOutcome::Better { payload, cached_reads } => BuildOutcome::Better {
                payload: f(payload),
                cached_reads,
            },
            BuildOutcome::Aborted { fees, cached_reads } => BuildOutcome::Aborted {
                fees,
                cached_reads,
            },
            BuildOutcome::Cancelled => BuildOutcome::Cancelled,
        }
    }
}

/// How a builder answers when the engine API asks for a payload id that has
/// no finished build yet.
#[derive(Clone, Copy, Debug, PartialEq, Eq)]
pub enum MissingPayloadBehaviour<Payload> {
    /// A build is in progress; wait for it.
    AwaitInProgress,
    /// Race the construction of an empty payload against the ongoing work.
    RaceEmptyPayload,
    /// A substitute payload was produced immediately.
    RacePayload(Payload),
}

/// Why a build attempt failed.
#[derive(Debug, PartialEq, Eq)]
pub enum PayloadBuilderError {
    /// A failure inside one building strategy, under a code of that
    /// strategy's choosing.
    Other(u64),
    /// A stack ran out of strategies for a request. Each side's own failure
    /// is kept, where that side was tried at all, so the caller loses
    /// neither.
    Exhausted {
        left: Option<Box<PayloadBuilderError>>,
        right: Option<Box<PayloadBuilderError>>,
    },
}

/// The static configuration of one build attempt: the parent block to build
/// on, the extra data to stamp into the header, and the typed attributes of
/// the request.
#[derive(Clone, Copy, Debug, PartialEq, Eq)]
pub struct PayloadConfig<Attributes> {
    pub parent_block: SealedBlock,
    pub extra_data: ExtraData,
    pub attributes: Attributes,
}

/// Everything one build attempt owns: the chain-state client and pool
/// handles, the optional read cache threaded forward from the previous
/// attempt, the attempt's configuration, the shared cancellation signal, and
/// the best payload produced so far, if any.
#[derive(Clone, Copy, Debug)]
pub struct BuildArguments<Pool, Client, Attributes, Payload> {
    pub client: Client,
    pub pool: Pool,
    pub cached_reads: Option<CachedReads>,
    pub config: PayloadConfig<Attributes>,
    pub cancel: CancelSignal,
    pub best_payload: Option<Payload>,
}

} // verus!

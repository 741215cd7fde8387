//! The builder contract and the combinator that chains two builders.
//!
//! A stack composes two strategies under one of two policies:
//!
//! * **fallback** (both sides share one attribute and payload type): the left
//!   strategy runs first and the right one is consulted only where the left
//!   fails — see [`PayloadBuilderStack::try_build_fallback`] and its
//!   siblings;
//! * **exclusive dispatch** (the sides have unrelated types, unified under
//!   [`Either`]): the tag of the incoming attributes picks the one strategy
//!   that may run, and no attempt crosses over to the other side — this is
//!   the stack's implementation of [`PayloadBuilder`] itself, which also
//!   makes stacks nestable.
//!
//! The laws of both policies are stated and proved as lemmas at the end of
//! the module.

use vstd::prelude::*;
use crate::either::Either;
use crate::outcome::{BuildArguments, BuildOutcome, MissingPayloadBehaviour, PayloadBuilderError, PayloadConfig};

verus! {

/// The operation set of one payload-construction strategy, over a
/// transaction-pool handle `Pool`, a chain-state client handle `Client`, an
/// attribute type `A` and a payload type `P`. Each operation is pinned to a
/// specification function of the same arguments — a strategy answers alike
/// on equal arguments, with everything it consults (pool, state, cache,
/// cancellation) entering through those arguments — so a combinator built
/// over this trait can state its own results exactly.
pub trait PayloadBuilder<Pool, Client, A, P>: Sized {
    /// What `try_build` returns for given arguments.
    spec fn spec_try_build(&self, args: BuildArguments<Pool, Client, A, P>) -> Result<
        BuildOutcome<P>,
        PayloadBuilderError,
    >;

    /// What `on_missing_payload` answers for given arguments.
    spec fn spec_on_missing_payload(&self, args: BuildArguments<Pool, Client, A, P>) -> MissingPayloadBehaviour<P>;

    /// What `build_empty_payload` returns for a given client and
    /// configuration.
    spec fn spec_build_empty_payload(&self, client: Client, config: PayloadConfig<A>) -> Result<
        P,
        PayloadBuilderError,
    >;

    /// One build attempt. May be heavy; must watch the cancellation signal
    /// in `args` and answer `Cancelled` once it fires, and must never return
    /// a `Better` payload that does not beat `args.best_payload`.
    fn try_build(&self, args: BuildArguments<Pool, Client, A, P>) -> (r: Result<
        BuildOutcome<P>,
        PayloadBuilderError,
    >)
        ensures
            r == self.spec_try_build(args),
    ;

    /// How to answer the engine API when it asks for a payload id that has
    /// no finished build yet.
    fn on_missing_payload(&self, args: BuildArguments<Pool, Client, A, P>) -> (r: MissingPayloadBehaviour<P>)
        ensures
            r == self.spec_on_missing_payload(args),
    ;

    /// Builds a minimal valid payload carrying no transactions: the
    /// correctness fallback for when no build finished in time.
    fn build_empty_payload(&self, client: &Client, config: PayloadConfig<A>) -> (r: Result<
        P,
        PayloadBuilderError,
    >)
        ensures
            r == self.spec_build_empty_payload(*client, config),
    ;
}

/// Two payload-construction strategies chained into one. Nesting stacks
/// (`new(new(a, b), c)`) composes more than two.
#[derive(Clone, Debug)]
pub struct PayloadBuilderStack<L, R> {
    /// The strategy tried first (fallback) or addressed by `Left` attributes
    /// (exclusive dispatch).
    pub left: L,
    /// The strategy tried second (fallback) or addressed by `Right`
    /// attributes (exclusive dispatch).
    pub right: R,
}

/// The left injection, as a specification value.
pub open spec fn spec_left<LP, RP>(p: LP) -> Either<LP, RP> {
    Either::Left(p)
}

/// The right injection, as a specification value.
pub open spec fn spec_right<LP, RP>(p: RP) -> Either<LP, RP> {
    Either::Right(p)
}

/// The fallback policy over two results: the first where it is a defined
/// outcome, else the second. The first error is superseded, not merged.
pub open spec fn spec_fallback_result<T>(
    first: Result<T, PayloadBuilderError>,
    second: Result<T, PayloadBuilderError>,
) -> Result<T, PayloadBuilderError> {
    match first {
        Ok(o) => Ok(o),
        Err(_) => second,
    }
}

/// Retags a left-side outcome into the combined payload type. Only the
/// payload of `Better` is touched; fees and cache pass through word for
/// word.
pub open spec fn spec_map_left<LP, RP>(o: BuildOutcome<LP>) -> BuildOutcome<Either<LP, RP>> {
    match o {
        BuildOutcome::Better { payload, cached_reads } => BuildOutcome::Better {
            payload: Either::Left(payload),
            cached_reads,
        },
        BuildOutcome::Aborted { fees, cached_reads } => BuildOutcome::Aborted {
            fees,
            cached_reads,
        },
        BuildOutcome::Cancelled => BuildOutcome::Cancelled,
    }
}

/// Retags a right-side outcome into the combined payload type.
pub open spec fn spec_map_right<LP, RP>(o: BuildOutcome<RP>) -> BuildOutcome<Either<LP, RP>> {
    match o {
        BuildOutcome::Better { payload, cached_reads } => BuildOutcome::Better {
            payload: Either::Right(payload),
            cached_reads,
        },
        BuildOutcome::Aborted { fees, cached_reads } => BuildOutcome::Aborted {
            fees,
            cached_reads,
        },
        BuildOutcome::Cancelled => BuildOutcome::Cancelled,
    }
}

/// The left-typed arguments that exclusive dispatch hands to the left
/// builder: the same client, pool, cache and cancellation signal, the same
/// parent and extra data, the untagged attributes, and the previous best
/// payload narrowed to the matching tag — a foreign-tagged best is treated
/// as absent.
pub open spec fn spec_left_args<Pool, Client, LA, RA, LP, RP>(
    args: BuildArguments<Pool, Client, Either<LA, RA>, Either<LP, RP>>,
    attr: LA,
) -> BuildArguments<Pool, Client, LA, LP> {
    BuildArguments {
        client: args.client,
        pool: args.pool,
        cached_reads: args.cached_reads,
        config: PayloadConfig {
            parent_block: args.config.parent_block,
            extra_data: args.config.extra_data,
            attributes: attr,
        },
        cancel: args.cancel,
        best_payload: match args.best_payload {
            Some(Either::Left(p)) => Some(p),
            _ => None,
        },
    }
}

/// The right-typed arguments that exclusive dispatch hands to the right
/// builder; the mirror of [`spec_left_args`].
pub open spec fn spec_right_args<Pool, Client, LA, RA, LP, RP>(
    args: BuildArguments<Pool, Client, Either<LA, RA>, Either<LP, RP>>,
    attr: RA,
) -> BuildArguments<Pool, Client, RA, RP> {
    BuildArguments {
        client: args.client,
        pool: args.pool,
        cached_reads: args.cached_reads,
        config: PayloadConfig {
            parent_block: args.config.parent_block,
            extra_data: args.config.extra_data,
            attributes: attr,
        },
        cancel: args.cancel,
        best_payload: match args.best_payload {
            Some(Either::Right(p)) => Some(p),
            _ => None,
        },
    }
}

impl<L, R> PayloadBuilderStack<L, R> {
    /// Chains `left` and `right` into one strategy.
    pub fn new(left: L, right: R) -> (r: PayloadBuilderStack<L, R>)
        ensures
            r.left == left,
            r.right == right,
    {
        PayloadBuilderStack { left, right }
    }

    /// What `try_build_fallback` returns: the left result where it is a
    /// defined outcome, else the right result on the very same arguments.
    /// The left error is superseded, not merged.
    pub open spec fn spec_try_build_fallback<Pool, Client, A, P>(
        &self,
        args: BuildArguments<Pool, Client, A, P>,
    ) -> Result<BuildOutcome<P>, PayloadBuilderError> where
        L: PayloadBuilder<Pool, Client, A, P>,
        R: PayloadBuilder<Pool, Client, A, P>,
    {
        spec_fallback_result(self.left.spec_try_build(args), self.right.spec_try_build(args))
    }

    /// What `on_missing_payload_fallback` answers: the left answer, unless
    /// it is `RaceEmptyPayload`, in which case the right answer replaces it.
    pub open spec fn spec_on_missing_payload_fallback<Pool, Client, A, P>(
        &self,
        args: BuildArguments<Pool, Client, A, P>,
    ) -> MissingPayloadBehaviour<P> where
        L: PayloadBuilder<Pool, Client, A, P>,
        R: PayloadBuilder<Pool, Client, A, P>,
    {
        match self.left.spec_on_missing_payload(args) {
            MissingPayloadBehaviour::RaceEmptyPayload => self.right.spec_on_missing_payload(args),
            other => other,
        }
    }

    /// What `build_empty_payload_fallback` returns: the left payload where
    /// the left side succeeds; else the right payload where the right side
    /// succeeds; else an error composed of both failures, so neither is
    /// dropped on this correctness-critical path.
    pub open spec fn spec_build_empty_payload_fallback<Pool, Client, A, P>(
        &self,
        client: Client,
        config: PayloadConfig<A>,
    ) -> Result<P, PayloadBuilderError> where
        L: PayloadBuilder<Pool, Client, A, P>,
        R: PayloadBuilder<Pool, Client, A, P>,
    {
        match self.left.spec_build_empty_payload(client, config) {
            Ok(p) => Ok(p),
            Err(le) => match self.right.spec_build_empty_payload(client, config) {
                Ok(p) => Ok(p),
                Err(re) => Err(PayloadBuilderError::Exhausted {
                    left: Some(Box::new(le)),
                    right: Some(Box::new(re)),
                }),
            },
        }
    }

    /// One build attempt in fallback mode, for a stack whose sides share one
    /// attribute and payload type: left first; any defined outcome of the
    /// left side — `Better`, `Aborted` or `Cancelled` alike — is final, and
    /// only a left error lets the right side run, on the same arguments.
    pub fn try_build_fallback<Pool: Copy, Client: Copy, A: Copy, P: Copy>(
        &self,
        args: BuildArguments<Pool, Client, A, P>,
    ) -> (r: Result<BuildOutcome<P>, PayloadBuilderError>) where
        L: PayloadBuilder<Pool, Client, A, P>,
        R: PayloadBuilder<Pool, Client, A, P>,
        ensures
            r == self.spec_try_build_fallback(args),
    {
        match self.left.try_build(args) {
            Ok(o) => Ok(o),
            Err(_) => self.right.try_build(args),
        }
    }

    /// The missing-payload answer in fallback mode: the left answer wins
    /// outright unless it is `RaceEmptyPayload`, which passes the question
    /// on to the right side.
    pub fn on_missing_payload_fallback<Pool: Copy, Client: Copy, A: Copy, P: Copy>(
        &self,
        args: BuildArguments<Pool, Client, A, P>,
    ) -> (r: MissingPayloadBehaviour<P>) where
        L: PayloadBuilder<Pool, Client, A, P>,
        R: PayloadBuilder<Pool, Client, A, P>,
        ensures
            r == self.spec_on_missing_payload_fallback(args),
    {
        match self.left.on_missing_payload(args) {
            MissingPayloadBehaviour::RaceEmptyPayload => self.right.on_missing_payload(args),
            other => other,
        }
    }

    /// The empty-payload fallback for a stack whose sides share one type:
    /// left first, right on a left failure, and an error composed of both
    /// failures where every path is exhausted.
    pub fn build_empty_payload_fallback<Pool, Client, A: Copy, P>(
        &self,
        client: &Client,
        config: PayloadConfig<A>,
    ) -> (r: Result<P, PayloadBuilderError>) where
        L: PayloadBuilder<Pool, Client, A, P>,
        R: PayloadBuilder<Pool, Client, A, P>,
        ensures
            r == self.spec_build_empty_payload_fallback(*client, config),
    {
        match self.left.build_empty_payload(client, config) {
            Ok(p) => Ok(p),
            Err(le) => match self.right.build_empty_payload(client, config) {
                Ok(p) => Ok(p),
                Err(re) => Err(PayloadBuilderError::Exhausted {
                    left: Some(Box::new(le)),
                    right: Some(Box::new(re)),
                }),
            },
        }
    }
}

/// Exclusive dispatch: over `Either`-typed attributes and payloads, the tag
/// of the incoming attributes picks the one side that runs. There is no
/// cross-side fallback here — the two sides may address logically distinct
/// chains, and falling across would build the wrong kind of block. A failure
/// of the addressed right side propagates as it is; a failure of the
/// addressed left side is wrapped into the composed exhaustion error, with
/// the inner error kept.
impl<Pool, Client, LA, RA, LP, RP, L, R> PayloadBuilder<
    Pool,
    Client,
    Either<LA, RA>,
    Either<LP, RP>,
> for PayloadBuilderStack<L, R> where
    L: PayloadBuilder<Pool, Client, LA, LP>,
    R: PayloadBuilder<Pool, Client, RA, RP>,
 {
    open spec fn spec_try_build(
        &self,
        args: BuildArguments<Pool, Client, Either<LA, RA>, Either<LP, RP>>,
    ) -> Result<BuildOutcome<Either<LP, RP>>, PayloadBuilderError> {
        match args.config.attributes {
            Either::Left(attr) => match self.left.spec_try_build(spec_left_args(args, attr)) {
                Ok(o) => Ok(spec_map_left(o)),
                Err(e) => Err(PayloadBuilderError::Exhausted {
                    left: Some(Box::new(e)),
                    right: None,
                }),
            },
            Either::Right(attr) => match self.right.spec_try_build(spec_right_args(args, attr)) {
                Ok(o) => Ok(spec_map_right(o)),
                Err(e) => Err(e),
            },
        }
    }

    open spec fn spec_on_missing_payload(
        &self,
        args: BuildArguments<Pool, Client, Either<LA, RA>, Either<LP, RP>>,
    ) -> MissingPayloadBehaviour<Either<LP, RP>> {
        MissingPayloadBehaviour::RaceEmptyPayload
    }

    open spec fn spec_build_empty_payload(
        &self,
        client: Client,
        config: PayloadConfig<Either<LA, RA>>,
    ) -> Result<Either<LP, RP>, PayloadBuilderError> {
        match config.attributes {
            Either::Left(attr) => match self.left.spec_build_empty_payload(
                client,
                PayloadConfig {
                    parent_block: config.parent_block,
                    extra_data: config.extra_data,
                    attributes: attr,
                },
            ) {
                Ok(p) => Ok(Either::Left(p)),
                Err(e) => Err(PayloadBuilderError::Exhausted {
                    left: Some(Box::new(e)),
                    right: None,
                }),
            },
            Either::Right(attr) => match self.right.spec_build_empty_payload(
                client,
                PayloadConfig {
                    parent_block: config.parent_block,
                    extra_data: config.extra_data,
                    attributes: attr,
                },
            ) {
                Ok(p) => Ok(Either::Right(p)),
                Err(e) => Err(e),
            },
        }
    }

    fn try_build(
        &self,
        args: BuildArguments<Pool, Client, Either<LA, RA>, Either<LP, RP>>,
    ) -> (r: Result<BuildOutcome<Either<LP, RP>>, PayloadBuilderError>) {
        let BuildArguments { client, pool, cached_reads, config, cancel, best_payload } = args;
        let PayloadConfig { parent_block, extra_data, attributes } = config;
        match attributes {
            Either::Left(attr) => {
                let narrowed = match best_payload {
                    Some(Either::Left(p)) => Some(p),
                    _ => None,
                };
                let left_args = BuildArguments {
                    client,
                    pool,
                    cached_reads,
                    config: PayloadConfig { parent_block, extra_data, attributes: attr },
                    cancel,
                    best_payload: narrowed,
                };
                match self.left.try_build(left_args) {
                    Ok(BuildOutcome::Better { payload, cached_reads }) => Ok(
                        BuildOutcome::Better { payload: Either::Left(payload), cached_reads },
                    ),
                    Ok(other) => {
                        let retag = (|p: LP| -> (q: Either<LP, RP>)
                            ensures
                                q == spec_left::<LP, RP>(p),
                            { Either::Left(p) });
                        Ok(other.map_payload(retag))
                    },
                    Err(e) => Err(
                        PayloadBuilderError::Exhausted { left: Some(Box::new(e)), right: None },
                    ),
                }
            },
            Either::Right(attr) => {
                let narrowed = match best_payload {
                    Some(Either::Right(p)) => Some(p),
                    _ => None,
                };
                let right_args = BuildArguments {
                    client,
                    pool,
                    cached_reads,
                    config: PayloadConfig { parent_block, extra_data, attributes: attr },
                    cancel,
                    best_payload: narrowed,
                };
                match self.right.try_build(right_args) {
                    Ok(BuildOutcome::Better { payload, cached_reads }) => Ok(
                        BuildOutcome::Better { payload: Either::Right(payload), cached_reads },
                    ),
                    Ok(other) => {
                        let retag = (|p: RP| -> (q: Either<LP, RP>)
                            ensures
                                q == spec_right::<LP, RP>(p),
                            { Either::Right(p) });
                        Ok(other.map_payload(retag))
                    },
                    Err(e) => Err(e),
                }
            },
        }
    }

    fn on_missing_payload(
        &self,
        args: BuildArguments<Pool, Client, Either<LA, RA>, Either<LP, RP>>,
    ) -> (r: MissingPayloadBehaviour<Either<LP, RP>>) {
        MissingPayloadBehaviour::RaceEmptyPayload
    }

    fn build_empty_payload(
        &self,
        client: &Client,
        config: PayloadConfig<Either<LA, RA>>,
    ) -> (r: Result<Either<LP, RP>, PayloadBuilderError>) {
        let PayloadConfig { parent_block, extra_data, attributes } = config;
        match attributes {
            Either::Left(attr) => {
                let left_config = PayloadConfig { parent_block, extra_data, attributes: attr };
                match self.left.build_empty_payload(client, left_config) {
                    Ok(p) => Ok(Either::Left(p)),
                    Err(e) => Err(
                        PayloadBuilderError::Exhausted { left: Some(Box::new(e)), right: None },
                    ),
                }
            },
            Either::Right(attr) => {
                let right_config = PayloadConfig { parent_block, extra_data, attributes: attr };
                match self.right.build_empty_payload(client, right_config) {
                    Ok(p) => Ok(Either::Right(p)),
                    Err(e) => Err(e),
                }
            },
        }
    }
}

/// Law: in fallback mode a defined outcome from the left strategy is the
/// stack's result, word for word — `Aborted` and `Cancelled` count as
/// defined outcomes, so they do not trigger the right side.
pub proof fn lemma_fallback_left_ok<Pool, Client, A, P, L, R>(
    stack: PayloadBuilderStack<L, R>,
    args: BuildArguments<Pool, Client, A, P>,
) where
    L: PayloadBuilder<Pool, Client, A, P>,
    R: PayloadBuilder<Pool, Client, A, P>,

    requires
        stack.left.spec_try_build(args) is Ok,
    ensures
        stack.spec_try_build_fallback(args) == stack.left.spec_try_build(args),
{
}

/// Law: in fallback mode a left error is superseded, and the stack's result
/// is exactly the right strategy's result on the very same arguments.
pub proof fn lemma_fallback_left_err<Pool, Client, A, P, L, R>(
    stack: PayloadBuilderStack<L, R>,
    args: BuildArguments<Pool, Client, A, P>,
) where
    L: PayloadBuilder<Pool, Client, A, P>,
    R: PayloadBuilder<Pool, Client, A, P>,

    requires
        stack.left.spec_try_build(args) is Err,
    ensures
        stack.spec_try_build_fallback(args) == stack.right.spec_try_build(args),
{
}

/// Law: in fallback mode any missing-payload answer of the left side other
/// than `RaceEmptyPayload` short-circuits; only `RaceEmptyPayload` passes
/// the question to the right side.
pub proof fn lemma_fallback_missing_payload<Pool, Client, A, P, L, R>(
    stack: PayloadBuilderStack<L, R>,
    args: BuildArguments<Pool, Client, A, P>,
) where
    L: PayloadBuilder<Pool, Client, A, P>,
    R: PayloadBuilder<Pool, Client, A, P>,

    ensures
        !(stack.left.spec_on_missing_payload(args) is RaceEmptyPayload)
            ==> stack.spec_on_missing_payload_fallback(args) == stack.left.spec_on_missing_payload(
            args,
        ),
        stack.left.spec_on_missing_payload(args) is RaceEmptyPayload
            ==> stack.spec_on_missing_payload_fallback(args)
            == stack.right.spec_on_missing_payload(args),
{
}

/// Law: left-tagged attributes address the left builder alone. Two stacks
/// sharing a left side agree on every left-tagged request, whatever stands
/// on their right — the right builder is never consulted.
pub proof fn lemma_dispatch_left_exclusive<Pool, Client, LA, RA, LP, RP, L, R, R2>(
    a: PayloadBuilderStack<L, R>,
    b: PayloadBuilderStack<L, R2>,
    args: BuildArguments<Pool, Client, Either<LA, RA>, Either<LP, RP>>,
) where
    L: PayloadBuilder<Pool, Client, LA, LP>,
    R: PayloadBuilder<Pool, Client, RA, RP>,
    R2: PayloadBuilder<Pool, Client, RA, RP>,

    requires
        a.left == b.left,
        args.config.attributes is Left,
    ensures
        a.spec_try_build(args) == b.spec_try_build(args),
{
}

/// Law: the fallback policy is associative, so nesting to the left and to
/// the right compose the same left-to-right order over three strategies:
/// the first defined outcome wins, and only the last error survives.
pub proof fn lemma_fallback_result_associative<T>(
    a: Result<T, PayloadBuilderError>,
    b: Result<T, PayloadBuilderError>,
    c: Result<T, PayloadBuilderError>,
)
    ensures
        spec_fallback_result(spec_fallback_result(a, b), c) == spec_fallback_result(
            a,
            spec_fallback_result(b, c),
        ),
{
}

/// Law: right-tagged attributes address the right builder alone. Two stacks
/// sharing a right side agree on every right-tagged request, whatever
/// stands on their left — the left builder is never consulted.
pub proof fn lemma_dispatch_right_exclusive<Pool, Client, LA, RA, LP, RP, L, L2, R>(
    a: PayloadBuilderStack<L, R>,
    b: PayloadBuilderStack<L2, R>,
    args: BuildArguments<Pool, Client, Either<LA, RA>, Either<LP, RP>>,
) where
    L: PayloadBuilder<Pool, Client, LA, LP>,
    L2: PayloadBuilder<Pool, Client, LA, LP>,
    R: PayloadBuilder<Pool, Client, RA, RP>,

    requires
        a.right == b.right,
        args.config.attributes is Right,
    ensures
        a.spec_try_build(args) == b.spec_try_build(args),
{
}

/// Law: in exclusive dispatch a previous best payload of the foreign tag is
/// treated as absent — building a right-tagged request with a left-tagged
/// best payload behaves exactly as building it with no best payload at all.
pub proof fn lemma_dispatch_foreign_best_ignored<Pool, Client, LA, RA, LP, RP, L, R>(
    stack: PayloadBuilderStack<L, R>,
    args: BuildArguments<Pool, Client, Either<LA, RA>, Either<LP, RP>>,
) where
    L: PayloadBuilder<Pool, Client, LA, LP>,
    R: PayloadBuilder<Pool, Client, RA, RP>,

    requires
        args.config.attributes is Right,
        args.best_payload matches Some(p) && p is Left,
    ensures
        stack.spec_try_build(args) == stack.spec_try_build(
            (BuildArguments {
                client: args.client,
                pool: args.pool,
                cached_reads: args.cached_reads,
                config: args.config,
                cancel: args.cancel,
                best_payload: None,
            }),
        ),
{
}

} // verus!

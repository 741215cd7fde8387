//! Scenarios for the exclusive-dispatch policy: two strategies with
//! unrelated attribute and payload types under one `Either`-typed stack.

use payload_stack::builder_stack::{PayloadBuilder, PayloadBuilderStack};
use payload_stack::either::Either;
use payload_stack::fixed::{FixedBuildResult, FixedBuilder, FixedEmptyResult};
use payload_stack::outcome::{
    BuildArguments, BuildOutcome, MissingPayloadBehaviour, PayloadBuilderError, PayloadConfig,
};
use payload_stack::payload::EthBuiltPayload;
use payload_stack::types::{
    CachedReads, CancelSignal, ExtraData, Hash256, PayloadId, SealedBlock,
};

type Pool = u8;
type Client = u32;
// The two sides address different attribute and payload types.
type LeftAttrs = u16;
type RightAttrs = u64;
type LeftPayload = EthBuiltPayload;
type RightPayload = u64;
type Attrs = Either<LeftAttrs, RightAttrs>;
type Payload = Either<LeftPayload, RightPayload>;

fn sample_block(number: u64) -> SealedBlock {
    SealedBlock {
        hash: Hash256 { hi: 1, lo: number as u128 },
        number,
    }
}

fn sample_payload(fees: u128) -> EthBuiltPayload {
    EthBuiltPayload {
        id: PayloadId { id: 11 },
        block: sample_block(9),
        fees,
    }
}

fn sample_args(attrs: Attrs, best: Option<Payload>) -> BuildArguments<Pool, Client, Attrs, Payload> {
    BuildArguments {
        client: 8,
        pool: 1,
        cached_reads: Some(CachedReads { entries: 12 }),
        config: PayloadConfig {
            parent_block: sample_block(8),
            extra_data: ExtraData::none(),
            attributes: attrs,
        },
        cancel: CancelSignal { token: 2 },
        best_payload: best,
    }
}

fn left_builder(build: FixedBuildResult<LeftPayload>) -> FixedBuilder<LeftPayload> {
    FixedBuilder {
        build,
        missing: MissingPayloadBehaviour::AwaitInProgress,
        empty: FixedEmptyResult::Failure { code: 1000 },
    }
}

fn right_builder(build: FixedBuildResult<RightPayload>) -> FixedBuilder<RightPayload> {
    FixedBuilder {
        build,
        missing: MissingPayloadBehaviour::AwaitInProgress,
        empty: FixedEmptyResult::Failure { code: 2000 },
    }
}

#[test]
fn left_tag_addresses_left_only() {
    // The right builder always fails; a left-tagged request must never see
    // that failure.
    let stack = PayloadBuilderStack::new(
        left_builder(FixedBuildResult::Better(sample_payload(30))),
        right_builder(FixedBuildResult::Failure { code: 99 }),
    );
    let r = stack.try_build(sample_args(Either::Left(6), None));
    assert_eq!(
        r,
        Ok(BuildOutcome::Better {
            payload: Either::Left(sample_payload(30)),
            cached_reads: CachedReads { entries: 12 },
        })
    );
}

#[test]
fn right_tag_addresses_right_only() {
    let stack = PayloadBuilderStack::new(
        left_builder(FixedBuildResult::Failure { code: 99 }),
        right_builder(FixedBuildResult::Better(414)),
    );
    let r = stack.try_build(sample_args(Either::Right(7), None));
    assert_eq!(
        r,
        Ok(BuildOutcome::Better {
            payload: Either::Right(414),
            cached_reads: CachedReads { entries: 12 },
        })
    );
}

#[test]
fn aborted_and_cancelled_pass_through_retagged() {
    let stack = PayloadBuilderStack::new(
        left_builder(FixedBuildResult::Aborted { fees: 3 }),
        right_builder(FixedBuildResult::Cancelled),
    );
    assert_eq!(
        stack.try_build(sample_args(Either::Left(1), None)),
        Ok(BuildOutcome::Aborted {
            fees: 3,
            cached_reads: CachedReads { entries: 12 },
        })
    );
    assert_eq!(
        stack.try_build(sample_args(Either::Right(1), None)),
        Ok(BuildOutcome::Cancelled)
    );
}

#[test]
fn left_failure_is_wrapped_with_its_cause() {
    let stack = PayloadBuilderStack::new(
        left_builder(FixedBuildResult::Failure { code: 41 }),
        right_builder(FixedBuildResult::Better(414)),
    );
    let r = stack.try_build(sample_args(Either::Left(1), None));
    assert_eq!(
        r,
        Err(PayloadBuilderError::Exhausted {
            left: Some(Box::new(PayloadBuilderError::Other(41))),
            right: None,
        })
    );
}

#[test]
fn right_failure_propagates_as_it_is() {
    let stack = PayloadBuilderStack::new(
        left_builder(FixedBuildResult::Better(sample_payload(1))),
        right_builder(FixedBuildResult::Failure { code: 42 }),
    );
    let r = stack.try_build(sample_args(Either::Right(1), None));
    assert_eq!(r, Err(PayloadBuilderError::Other(42)));
}

#[test]
fn foreign_best_payload_is_treated_as_absent() {
    // A right-tagged request with a left-tagged previous best must behave
    // exactly as one with no previous best at all.
    let stack = PayloadBuilderStack::new(
        left_builder(FixedBuildResult::Better(sample_payload(1))),
        right_builder(FixedBuildResult::Aborted { fees: 42 }),
    );
    let with_foreign = stack.try_build(sample_args(
        Either::Right(7),
        Some(Either::Left(sample_payload(5))),
    ));
    let with_none = stack.try_build(sample_args(Either::Right(7), None));
    assert_eq!(with_foreign, with_none);
}

#[test]
fn missing_payload_always_races_an_empty_payload() {
    let stack = PayloadBuilderStack::new(
        left_builder(FixedBuildResult::Cancelled),
        right_builder(FixedBuildResult::Cancelled),
    );
    assert_eq!(
        stack.on_missing_payload(sample_args(Either::Left(1), None)),
        MissingPayloadBehaviour::RaceEmptyPayload
    );
}

#[test]
fn empty_payload_follows_the_tag() {
    let mut left = left_builder(FixedBuildResult::Cancelled);
    let mut right = right_builder(FixedBuildResult::Cancelled);
    left.empty = FixedEmptyResult::Payload(sample_payload(0));
    right.empty = FixedEmptyResult::Payload(17);
    let stack = PayloadBuilderStack::new(left, right);
    let config_left: PayloadConfig<Attrs> = PayloadConfig {
        parent_block: sample_block(8),
        extra_data: ExtraData::none(),
        attributes: Either::Left(5 as LeftAttrs),
    };
    let config_right: PayloadConfig<Attrs> = PayloadConfig {
        parent_block: sample_block(8),
        extra_data: ExtraData::none(),
        attributes: Either::Right(5 as RightAttrs),
    };
    let client: Client = 8;
    assert_eq!(
        PayloadBuilder::<Pool, Client, Attrs, Payload>::build_empty_payload(&stack, &client, config_left),
        Ok(Either::Left(sample_payload(0)))
    );
    assert_eq!(
        PayloadBuilder::<Pool, Client, Attrs, Payload>::build_empty_payload(&stack, &client, config_right),
        Ok(Either::Right(17))
    );
}

#[test]
fn empty_payload_left_failure_keeps_its_cause() {
    let stack = PayloadBuilderStack::new(
        left_builder(FixedBuildResult::Cancelled),
        right_builder(FixedBuildResult::Cancelled),
    );
    let client: Client = 8;
    let config: PayloadConfig<Attrs> = PayloadConfig {
        parent_block: sample_block(8),
        extra_data: ExtraData::none(),
        attributes: Either::Left(5 as LeftAttrs),
    };
    assert_eq!(
        PayloadBuilder::<Pool, Client, Attrs, Payload>::build_empty_payload(&stack, &client, config),
        Err(PayloadBuilderError::Exhausted {
            left: Some(Box::new(PayloadBuilderError::Other(1000))),
            right: None,
        })
    );
    let config: PayloadConfig<Attrs> = PayloadConfig {
        parent_block: sample_block(8),
        extra_data: ExtraData::none(),
        attributes: Either::Right(5 as RightAttrs),
    };
    assert_eq!(
        PayloadBuilder::<Pool, Client, Attrs, Payload>::build_empty_payload(&stack, &client, config),
        Err(PayloadBuilderError::Other(2000))
    );
}

#[test]
fn stacks_nest_and_dispatch_to_the_deepest_tag() {
    // `new(new(a, b), c)`: a doubly-tagged request reaches the innermost
    // left builder.
    let a = left_builder(FixedBuildResult::Better(sample_payload(60)));
    let b = right_builder(FixedBuildResult::Failure { code: 1 });
    let c = right_builder(FixedBuildResult::Failure { code: 2 });
    let stack = PayloadBuilderStack::new(PayloadBuilderStack::new(a, b), c);
    let args: BuildArguments<
        Pool,
        Client,
        Either<Attrs, RightAttrs>,
        Either<Payload, RightPayload>,
    > = BuildArguments {
        client: 8,
        pool: 1,
        cached_reads: None,
        config: PayloadConfig {
            parent_block: sample_block(8),
            extra_data: ExtraData::none(),
            attributes: Either::Left(Either::Left(6)),
        },
        cancel: CancelSignal { token: 2 },
        best_payload: None,
    };
    let r = stack.try_build(args);
    assert_eq!(
        r,
        Ok(BuildOutcome::Better {
            payload: Either::Left(Either::Left(sample_payload(60))),
            cached_reads: CachedReads { entries: 0 },
        })
    );
}

//! The outcome transform is structure-preserving.

use payload_stack::outcome::BuildOutcome;
use payload_stack::types::CachedReads;

#[test]
fn map_payload_rewrites_only_the_better_payload() {
    let outcome: BuildOutcome<u64> = BuildOutcome::Better {
        payload: 21,
        cached_reads: CachedReads { entries: 5 },
    };
    let mapped = outcome.map_payload(|p| p * 2);
    assert_eq!(
        mapped,
        BuildOutcome::Better {
            payload: 42,
            cached_reads: CachedReads { entries: 5 },
        }
    );
}

#[test]
fn map_payload_keeps_aborted_word_for_word() {
    let outcome: BuildOutcome<u64> = BuildOutcome::Aborted {
        fees: 10,
        cached_reads: CachedReads { entries: 8 },
    };
    let mapped: BuildOutcome<u32> = outcome.map_payload(|_| unreachable!());
    assert_eq!(
        mapped,
        BuildOutcome::Aborted {
            fees: 10,
            cached_reads: CachedReads { entries: 8 },
        }
    );
}

#[test]
fn map_payload_keeps_cancelled_whatever_the_transform() {
    let outcome: BuildOutcome<u64> = BuildOutcome::Cancelled;
    let mapped: BuildOutcome<u32> = outcome.map_payload(|_| unreachable!());
    assert_eq!(mapped, BuildOutcome::Cancelled);
}

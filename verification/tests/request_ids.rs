//! Request ids: their layout, their namespaces and their allocator.

use dynamo_epp_sidecar::trtllm_context_first::ids::{
    issue, raise, step, timestamp_of, COUNTER_SPACE, GLOBAL_ID_SPAN,
};
use dynamo_epp_sidecar::trtllm_context_first::{
    compose_disagg_request_id, decompose_disagg_request_id, DisaggIdNamespace, DisaggRequestIds,
    IdError, RequestIds, COUNTER_BITS, MAX_INT64, MIN_GLOBAL_ID, NODE_ID_BITS, NODE_ID_SPACE,
    PROCESS_ID_BITS, PROCESS_ID_SPACE, TIMESTAMP_BITS, TIMESTAMP_SPACE,
};
use std::sync::Arc;
use std::time::{Duration, Instant};

fn namespace() -> DisaggIdNamespace {
    DisaggIdNamespace::new(7, 3).expect("valid namespace")
}

#[test]
fn ids_are_folded_into_the_global_range() {
    // A timestamp far beyond the field width must still land in
    // [MIN_GLOBAL_ID, MAX_INT64] rather than collapsing to a small value.
    for timestamp in [0u64, 1, 1 << 38, u64::MAX] {
        let id = compose_disagg_request_id(namespace(), timestamp, 0);
        assert!(
            (MIN_GLOBAL_ID..=MAX_INT64).contains(&id),
            "id {id} left the global range for timestamp {timestamp}"
        );
    }
    assert_eq!(MIN_GLOBAL_ID, 1 << 40);
}

#[test]
fn id_layout_round_trips_and_stays_a_positive_int64() {
    let id = compose_disagg_request_id(namespace(), 123_456, 42);
    assert!(id > 0, "id must be positive, got {id}");
    assert!(id <= i64::MAX as u64);
    let (timestamp, node, process, counter) = decompose_disagg_request_id(id).unwrap();
    assert_eq!(timestamp, 123_456);
    assert_eq!(node, 7);
    assert_eq!(process, 3);
    assert_eq!(counter, 42);
}

#[test]
fn namespace_bounds_are_enforced_and_never_wrapped() {
    assert_eq!(
        DisaggIdNamespace::new(256, 0).unwrap_err(),
        IdError::NodeIdOutOfRange(256)
    );
    assert_eq!(
        DisaggIdNamespace::new(0, 64).unwrap_err(),
        IdError::ProcessIdOutOfRange(64)
    );
    assert!(DisaggIdNamespace::new(255, 63).is_ok());
}

/// Distinct namespaces in the same millisecond with the same counter must not
/// collide; that is the whole point of the namespace pair.
#[test]
fn distinct_namespaces_do_not_collide_within_one_millisecond() {
    let mut seen = std::collections::HashSet::new();
    for node in 0..NODE_ID_SPACE {
        for process in 0..PROCESS_ID_SPACE {
            let ns = DisaggIdNamespace::new(node, process).unwrap();
            let id = compose_disagg_request_id(ns, 1_000, 0);
            assert!(
                seen.insert(id),
                "collision at node={node} process={process}"
            );
        }
    }
    assert_eq!(seen.len(), (NODE_ID_SPACE * PROCESS_ID_SPACE) as usize);
}

/// The collision boundary: the counter wraps at 1024 within a single millisecond
/// for one namespace.
#[test]
fn counter_wraps_at_1024_within_a_millisecond() {
    let ns = namespace();
    let first = compose_disagg_request_id(ns, 5_000, 0);
    let last = compose_disagg_request_id(ns, 5_000, 1023);
    let wrapped = compose_disagg_request_id(ns, 5_000, 1024);
    assert_ne!(first, last);
    assert_eq!(
        first, wrapped,
        "raw composition wraps at 1024 in the same millisecond"
    );
    // A different millisecond separates them again.
    assert_ne!(first, compose_disagg_request_id(ns, 5_001, 0));
}

/// Overflowing the timestamp must wrap inside the field rather than bleed into
/// the node.
#[test]
fn timestamp_field_wraps_without_corrupting_the_namespace() {
    let ns = namespace();
    let id = compose_disagg_request_id(ns, TIMESTAMP_SPACE + 9, 0);
    let (timestamp, node, process, _) = decompose_disagg_request_id(id).unwrap();
    assert_eq!(timestamp, 9);
    assert_eq!(node, 7);
    assert_eq!(process, 3);
}

/// Bursting well past the capacity of a millisecond must still never reuse an id.
#[test]
fn allocator_never_repeats_and_never_leaves_the_positive_range() {
    let ids = DisaggRequestIds::new(namespace());
    let mut seen = std::collections::HashSet::new();
    for _ in 0..4096 {
        let id = ids.next();
        assert!(id > 0, "id must be a positive int64, got {id}");
        assert!(seen.insert(id), "allocator repeated {id}");
    }
}

/// A sustained rate above the capacity must not spin forever; it must keep
/// producing new ids.
#[test]
fn allocator_exceeding_capacity_advances_instead_of_blocking() {
    let ids = DisaggRequestIds::new(namespace());
    let started = Instant::now();
    let mut previous = ids.next();
    for _ in 0..5000 {
        let id = ids.next();
        assert!(id > previous, "ids must stay strictly increasing");
        previous = id;
    }
    assert!(
        started.elapsed() < Duration::from_secs(5),
        "allocator stalled under burst"
    );
}

/// The counter is shared across calls, so an explicit millisecond pins the wrap
/// without waiting on a clock.
#[test]
fn allocator_pins_the_counter_wrap_at_an_explicit_millisecond() {
    let ids = DisaggRequestIds::new(namespace());
    let first = ids.next_at_ms(9_000);
    let wrapped = ids.next_at_ms(9_000);
    assert_ne!(first, wrapped, "counter must advance within a millisecond");
    let (timestamp, node, process, counter) = decompose_disagg_request_id(first as u64).unwrap();
    assert_eq!((timestamp, node, process, counter), (9_000, 7, 3, 0));
    let (_, _, _, next_counter) = decompose_disagg_request_id(wrapped as u64).unwrap();
    assert_eq!(next_counter, 1);
}

#[test]
fn an_id_has_its_parts_at_fixed_bits() {
    let id = compose_disagg_request_id(namespace(), 5, 6);
    assert_eq!(id, (1 << 40) + (5 << 24) + (7 << 16) + (3 << 10) + 6);
    assert_eq!(NODE_ID_SPACE, 1 << NODE_ID_BITS);
    assert_eq!(PROCESS_ID_SPACE, 1 << PROCESS_ID_BITS);
    assert_eq!(COUNTER_SPACE, 1 << COUNTER_BITS);
    assert_eq!(TIMESTAMP_SPACE, 1 << TIMESTAMP_BITS);
    assert_eq!(MAX_INT64, i64::MAX as u64);
    assert_eq!(GLOBAL_ID_SPAN, MAX_INT64 - MIN_GLOBAL_ID);
}

#[test]
fn folding_wraps_the_last_timestamps() {
    // The largest packed number lies a span and some above zero, and comes back
    // near the smallest ids.
    let ns = DisaggIdNamespace::new(255, 63).unwrap();
    let id = compose_disagg_request_id(ns, TIMESTAMP_SPACE - 1, 1023);
    assert_eq!(id, MAX_INT64 - GLOBAL_ID_SPAN + MIN_GLOBAL_ID);
}

#[test]
fn ids_outside_the_global_range_have_no_parts() {
    assert_eq!(
        decompose_disagg_request_id(MIN_GLOBAL_ID - 1),
        Err(IdError::NotAPositiveInt64(MIN_GLOBAL_ID - 1))
    );
    assert_eq!(
        decompose_disagg_request_id(MAX_INT64 + 1),
        Err(IdError::NotAPositiveInt64(MAX_INT64 + 1))
    );
    assert_eq!(decompose_disagg_request_id(MIN_GLOBAL_ID), Ok((0, 0, 0, 0)));
}

#[test]
fn id_errors_are_written_out() {
    assert_eq!(
        IdError::NodeIdOutOfRange(256).message(),
        "node_id must be in [0, 256), got 256"
    );
    assert_eq!(
        IdError::ProcessIdOutOfRange(64).message(),
        "process_id must be in [0, 64), got 64"
    );
    assert_eq!(
        IdError::NotAPositiveInt64(0).message(),
        "the resulting request id does not fit a positive int64: 0"
    );
}

#[test]
fn a_wrapped_counter_is_passed_over() {
    assert_eq!(issue(namespace(), 5, 0), None);
    assert_eq!(issue(namespace(), 5, 2048), None);
    assert_eq!(
        issue(namespace(), 5, 1),
        Some(compose_disagg_request_id(namespace(), 5, 1) as i64)
    );
}

#[test]
fn timestamps_are_cut_to_their_bits() {
    assert_eq!(timestamp_of(17), 17);
    assert_eq!(timestamp_of((TIMESTAMP_SPACE + 17) as u128), 17);
    assert_eq!(timestamp_of(u128::MAX), TIMESTAMP_SPACE - 1);
}

#[test]
fn the_allocator_mints_in_its_own_namespace() {
    let ids = DisaggRequestIds::new(namespace());
    assert_eq!(ids.namespace(), namespace());
    let (_, node, process, counter) = decompose_disagg_request_id(ids.mint() as u64).unwrap();
    assert_eq!((node, process, counter), (7, 3, 1));
    assert!(ids.elapsed_ms() < TIMESTAMP_SPACE);
}

#[test]
fn timestamps_count_from_the_start_of_the_allocator() {
    let before = Instant::now();
    let ids = DisaggRequestIds::new(namespace());
    assert_eq!(ids.timestamp_at(before), 0);
    let later = Instant::now() + Duration::from_secs(7);
    let timestamp = ids.timestamp_at(later);
    assert!((7_000..17_000).contains(&timestamp), "got {timestamp}");
    assert_eq!(
        ids.timestamp_at(later + Duration::from_millis(5)),
        timestamp + 5
    );
}

#[test]
fn words_never_fall_behind_the_clock_or_themselves() {
    // The timestamp is the later one, and the counter stays.
    assert_eq!(raise(5 * 1024 + 7, 3), 5 * 1024 + 7);
    assert_eq!(raise(5 * 1024 + 7, 9), 9 * 1024 + 7);
    // A wrapped counter takes a millisecond to come.
    assert_eq!(raise(5 * 1024, 5), 6 * 1024);
    assert_eq!(raise(6 * 1024, 5), 6 * 1024);
    assert_eq!(raise(0, 0), 1024);
    assert_eq!(raise(u64::MAX, 0), u64::MAX);
}

/// Workers of one runtime share an allocator and never get the same id from it.
#[test]
fn workers_that_share_an_allocator_never_get_the_same_id() {
    let ids = Arc::new(DisaggRequestIds::new(namespace()));
    let runtime = tokio::runtime::Builder::new_multi_thread()
        .worker_threads(4)
        .build()
        .unwrap();
    let minted: Vec<i64> = runtime.block_on(async {
        let tasks: Vec<_> = (0..8)
            .map(|_| {
                let ids = ids.clone();
                tokio::spawn(async move { (0..2000).map(|_| ids.next()).collect::<Vec<i64>>() })
            })
            .collect();
        let mut minted = Vec::new();
        for task in tasks {
            minted.extend(task.await.unwrap());
        }
        minted
    });
    let distinct: std::collections::HashSet<_> = minted.iter().collect();
    assert_eq!(distinct.len(), 16_000);
}

#[test]
fn minting_at_a_given_millisecond_counts_and_wraps() {
    let ids = DisaggRequestIds::new(namespace());
    let minted: Vec<i64> = (0..2048).map(|_| ids.next_at_ms(9_000)).collect();
    for (k, id) in minted.iter().enumerate() {
        assert_eq!(
            *id,
            compose_disagg_request_id(namespace(), 9_000, k as u64) as i64
        );
    }
    assert_eq!(minted[0], minted[1024]);
}

#[test]
fn a_step_leaves_the_word_above_the_one_it_takes() {
    assert_eq!(step(5 * 1024 + 7, 9), (9 * 1024 + 7, 9 * 1024 + 8));
    // The millisecond is bumped where the counter wraps.
    assert_eq!(step(5 * 1024 + 1023, 5), (5 * 1024 + 1023, 6 * 1024));
    assert_eq!(step(u64::MAX, 0), (u64::MAX, 0));
    let mut held = 0;
    for k in 0..3000 {
        let (word, left) = step(held, 4);
        assert_eq!(word % 1024, k % 1024);
        assert!(word >= held && left > word);
        held = left;
    }
}

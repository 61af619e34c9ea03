use snowflake_id::IdWorker;
use snowflake_id::SnowflakeError;

const TIMESTAMP_FACTOR: i64 = 0x40_0000;
const DATACENTER_ID_FACTOR: i64 = 0x2_0000;
const WORKER_ID_FACTOR: i64 = 0x1000;

#[test]
fn it_works() {
    let mut worker = IdWorker::new(31, 31, 1586497735375).unwrap();
    let (worker_id, dc_id) = IdWorker::get_location(worker.next_id().unwrap());

    assert_eq!(worker_id, 31);
    assert_eq!(dc_id, 31);
}

#[test]
fn construct_succeeds_on_all_valid_pairs() {
    for w in 0..=31i64 {
        for dc in 0..=31i64 {
            let made = IdWorker::new(w, dc, 0);
            assert!(made.is_ok());
        }
    }
}

#[test]
fn construct_rejects_out_of_range_worker_id() {
    assert_eq!(
        IdWorker::new(32, 0, 0).unwrap_err(),
        SnowflakeError::ConfigurationError { value: 32, max: 31 }
    );
    assert_eq!(
        IdWorker::new(-1, 0, 0).unwrap_err(),
        SnowflakeError::ConfigurationError { value: -1, max: 31 }
    );
}

#[test]
fn construct_rejects_out_of_range_datacenter_id() {
    assert_eq!(
        IdWorker::new(0, 32, 0).unwrap_err(),
        SnowflakeError::ConfigurationError { value: 32, max: 31 }
    );
    assert_eq!(
        IdWorker::new(0, -77, 0).unwrap_err(),
        SnowflakeError::ConfigurationError { value: -77, max: 31 }
    );
}

#[test]
fn round_trip_holds_for_every_issued_id() {
    let mut worker = IdWorker::new(9, 23, 0).unwrap();
    for _ in 0..10_000 {
        let id = worker.next_id().unwrap();
        assert_eq!(IdWorker::get_location(id), (9, 23));
    }
}

#[test]
fn ids_strictly_increase_in_call_order() {
    let mut worker = IdWorker::new(1, 1, 0).unwrap();
    let mut previous = worker.next_id().unwrap();
    for _ in 0..10_000 {
        let id = worker.next_id().unwrap();
        assert!(id > previous);
        previous = id;
    }
}

#[test]
fn five_thousand_back_to_back_ids_are_distinct() {
    // Crosses the 4096-per-millisecond sequence boundary, exercising
    // the busy wait for the next clock tick.
    let mut worker = IdWorker::new(0, 0, 0).unwrap();
    let mut ids: Vec<i64> = Vec::with_capacity(5000);
    for _ in 0..5000 {
        ids.push(worker.next_id().unwrap());
    }
    let mut sorted = ids.clone();
    sorted.sort();
    sorted.dedup();
    assert_eq!(sorted.len(), 5000);
}

#[test]
fn decode_location_of_max_identity_id() {
    let mut worker = IdWorker::new(31, 31, 1586497735375).unwrap();
    let id = worker.next_id().unwrap();
    assert_eq!(IdWorker::get_location(id), (31, 31));
}

#[test]
fn same_millisecond_ids_differ_only_in_sequence() {
    let mut worker = IdWorker::new(0, 0, 0).unwrap();
    for _ in 0..1000 {
        let first = worker.next_id().unwrap();
        let second = worker.next_id().unwrap();
        if first / TIMESTAMP_FACTOR == second / TIMESTAMP_FACTOR {
            // The clock did not tick between the two calls: the low 12
            // bits advance by exactly one, everything above agrees.
            assert_eq!(second % WORKER_ID_FACTOR, (first % WORKER_ID_FACTOR + 1) % 4096);
            assert_eq!(second / WORKER_ID_FACTOR, first / WORKER_ID_FACTOR);
            return;
        }
    }
    panic!("no two consecutive ids fell in the same millisecond");
}

#[test]
fn issue_at_packs_the_fields_exactly() {
    let mut worker = IdWorker::new(1, 2, 100).unwrap();
    let id = worker.issue_at(5);
    assert_eq!(id, 5 * TIMESTAMP_FACTOR + 2 * DATACENTER_ID_FACTOR + WORKER_ID_FACTOR);
}

#[test]
fn issue_at_increments_sequence_within_a_millisecond() {
    let mut worker = IdWorker::new(7, 3, 0).unwrap();
    let first = worker.issue_at(12);
    let again = worker.issue_at(12);
    assert_eq!(again, first + 1);
    let later = worker.issue_at(13);
    // The sequence restarts at zero in the new millisecond.
    assert_eq!(later % WORKER_ID_FACTOR, 0);
    assert_eq!(later / TIMESTAMP_FACTOR, 13);
}

#[test]
fn get_location_extracts_fields_from_a_hand_built_id() {
    let id = 77 * TIMESTAMP_FACTOR + 5 * DATACENTER_ID_FACTOR + 9 * WORKER_ID_FACTOR + 4095;
    assert_eq!(IdWorker::get_location(id), (9, 5));
}

#[test]
fn get_location_is_total_over_negative_ids() {
    // All bits set: both 5-bit fields read 31.
    assert_eq!(IdWorker::get_location(-1), (31, 31));
    // Only the sign bit set: both fields read 0.
    assert_eq!(IdWorker::get_location(i64::MIN), (0, 0));
    // Sign bit plus known field bits.
    let id = i64::MIN + 5 * DATACENTER_ID_FACTOR + 9 * WORKER_ID_FACTOR;
    assert_eq!(IdWorker::get_location(id), (9, 5));
}

#[test]
fn advance_issues_on_a_fresh_or_current_millisecond() {
    let mut worker = IdWorker::new(3, 6, 0).unwrap();
    let first = worker.advance(9).unwrap().unwrap();
    assert_eq!(first, 9 * TIMESTAMP_FACTOR + 6 * DATACENTER_ID_FACTOR + 3 * WORKER_ID_FACTOR);
    // Same millisecond again: the sequence steps by one.
    let second = worker.advance(9).unwrap().unwrap();
    assert_eq!(second, first + 1);
}

#[test]
fn advance_rejects_a_backward_clock_reading() {
    let mut worker = IdWorker::new(2, 2, 0).unwrap();
    let _ = worker.issue_at(10);
    assert_eq!(worker.advance(9).unwrap_err(), SnowflakeError::ClockError);
    // The regression changed nothing.
    assert_eq!(worker.last_timestamp, 10);
    assert_eq!(worker.sequence, 0);
}

#[test]
fn advance_asks_for_a_wait_when_the_sequence_is_spent() {
    let mut worker = IdWorker::new(1, 1, 0).unwrap();
    // The first call lands in a fresh millisecond and issues sequence
    // zero; 4095 more exhaust the field.
    for _ in 0..4096 {
        let _ = worker.issue_at(7);
    }
    assert_eq!(worker.sequence, 4095);
    // The 4096th request in the same millisecond cannot be served.
    assert_eq!(worker.advance(7).unwrap(), None);
    assert_eq!(worker.sequence, 4095);
    assert_eq!(worker.last_timestamp, 7);
    // The next millisecond serves it with a fresh sequence.
    assert_eq!(worker.advance(8).unwrap().unwrap() % 4096, 0);
}

#[test]
fn next_id_reports_clock_error_and_keeps_state() {
    // An epoch offset far in the future makes every adjusted reading
    // negative, which the generator treats as a clock fault.
    let mut worker = IdWorker::new(4, 4, i64::MAX).unwrap();
    assert_eq!(worker.next_id().unwrap_err(), SnowflakeError::ClockError);
    // The failed call left the state untouched.
    assert_eq!(worker.sequence, 0);
    assert_eq!(worker.last_timestamp, 0);
}

use dspm_collector::http::{after_attempt, status_message, BulkAction};
use dspm_collector::out::delivery::{
    backoff_ms, batch_ranges, failure_message, is_success, rejection_message, transport_message,
    Action, Delivery, Status, RETRIES, RETRY_BASE_MS,
};
use dspm_collector::utils::chunked;

/// Drives a delivery against a sink that answers by `accepts`, which gets
/// the number of the batch's first record and the number of the attempt.
fn drive(mut delivery: Delivery, accepts: &dyn Fn(usize, u32) -> bool) -> (Vec<Action>, Delivery) {
    let mut sent = Vec::new();
    loop {
        match delivery.next_action() {
            Action::Send { start, attempt, .. } => {
                sent.push(delivery.next_action());
                delivery.report(accepts(start, attempt));
            }
            _ => return (sent, delivery),
        }
        assert!(sent.len() < 10_000, "the delivery does not end");
    }
}

#[test]
fn batches_of_457_by_200() {
    assert_eq!(batch_ranges(457, 200), vec![(0, 200), (200, 400), (400, 457)]);
}

#[test]
fn batches_cover_everything_once() {
    for total in 0usize..60 {
        for size in 1usize..12 {
            let ranges = batch_ranges(total, size);
            assert_eq!(ranges.len(), (total + size - 1) / size);
            let mut next = 0;
            for (k, (start, end)) in ranges.iter().enumerate() {
                assert_eq!(*start, next);
                assert!(start < end);
                assert!(end - start <= size);
                if k + 1 < ranges.len() {
                    assert_eq!(end - start, size);
                }
                next = *end;
            }
            assert_eq!(next, total);
        }
    }
}

#[test]
fn batch_edge_cases() {
    assert_eq!(batch_ranges(0, 5), Vec::<(usize, usize)>::new());
    assert_eq!(batch_ranges(5, 5), vec![(0, 5)]);
    assert_eq!(batch_ranges(6, 5), vec![(0, 5), (5, 6)]);
    assert_eq!(batch_ranges(3, usize::MAX), vec![(0, 3)]);
    assert_eq!(batch_ranges(3, 1), vec![(0, 1), (1, 2), (2, 3)]);
}

#[test]
fn delivery_of_457_by_200_sends_three_batches_in_order() {
    let delivery = Delivery::new(457, 200, 800, RETRIES, RETRY_BASE_MS);
    let (sent, end) = drive(delivery, &|_, _| true);
    assert_eq!(
        sent,
        vec![
            Action::Send { start: 0, end: 200, attempt: 1, delay_ms: 0 },
            Action::Send { start: 200, end: 400, attempt: 1, delay_ms: 800 },
            Action::Send { start: 400, end: 457, attempt: 1, delay_ms: 800 },
        ]
    );
    assert_eq!(end.status, Status::Done);
    assert_eq!(end.next_action(), Action::Done);
    assert_eq!(end.delay_ms, 0);
    assert!(!end.has_failed());
}

#[test]
fn delivery_of_nothing_is_done_at_once() {
    let delivery = Delivery::new(0, 200, 800, 3, 300);
    assert_eq!(delivery.next_action(), Action::Done);
    assert!(!delivery.has_failed());
}

#[test]
fn retry_then_succeed_uses_three_attempts_with_growing_waits() {
    let delivery = Delivery::new(457, 200, 800, 3, 300);
    let (sent, end) = drive(delivery, &|start, attempt| start != 200 || attempt >= 3);
    assert_eq!(
        sent,
        vec![
            Action::Send { start: 0, end: 200, attempt: 1, delay_ms: 0 },
            Action::Send { start: 200, end: 400, attempt: 1, delay_ms: 800 },
            Action::Send { start: 200, end: 400, attempt: 2, delay_ms: 300 },
            Action::Send { start: 200, end: 400, attempt: 3, delay_ms: 600 },
            Action::Send { start: 400, end: 457, attempt: 1, delay_ms: 800 },
        ]
    );
    assert_eq!(end.status, Status::Done);
}

#[test]
fn retry_exhaustion_fails_on_the_first_batch() {
    let delivery = Delivery::new(457, 200, 800, 3, 300);
    let (sent, end) = drive(delivery, &|_, _| false);
    assert_eq!(
        sent,
        vec![
            Action::Send { start: 0, end: 200, attempt: 1, delay_ms: 0 },
            Action::Send { start: 0, end: 200, attempt: 2, delay_ms: 300 },
            Action::Send { start: 0, end: 200, attempt: 3, delay_ms: 600 },
        ]
    );
    assert_eq!(end.status, Status::Failed);
    assert_eq!(end.next_action(), Action::Failed { start: 0, end: 200, attempts: 3 });
    assert!(end.has_failed());
    assert_eq!(end.current_end(), 200);
}

#[test]
fn accepted_batches_stay_accepted_when_a_later_one_fails() {
    let delivery = Delivery::new(5, 2, 10, 2, 7);
    let (sent, end) = drive(delivery, &|start, _| start < 4);
    assert_eq!(
        sent,
        vec![
            Action::Send { start: 0, end: 2, attempt: 1, delay_ms: 0 },
            Action::Send { start: 2, end: 4, attempt: 1, delay_ms: 10 },
            Action::Send { start: 4, end: 5, attempt: 1, delay_ms: 10 },
            Action::Send { start: 4, end: 5, attempt: 2, delay_ms: 7 },
        ]
    );
    assert_eq!(end.next_action(), Action::Failed { start: 4, end: 5, attempts: 2 });
}

#[test]
fn a_single_attempt_allows_no_retry() {
    let delivery = Delivery::new(3, 2, 10, 1, 300);
    let (sent, end) = drive(delivery, &|_, _| false);
    assert_eq!(sent.len(), 1);
    assert_eq!(end.next_action(), Action::Failed { start: 0, end: 2, attempts: 1 });
    let delivery = Delivery::new(3, 2, 10, 0, 300);
    let (sent, end) = drive(delivery, &|_, _| false);
    assert_eq!(sent.len(), 1);
    assert_eq!(end.status, Status::Failed);
}

#[test]
fn an_ended_delivery_takes_no_more_answers() {
    let mut delivery = Delivery::new(1, 1, 0, 1, 0);
    delivery.report(true);
    let done = delivery;
    delivery.report(false);
    delivery.report(true);
    assert_eq!(delivery, done);
    assert_eq!(delivery.status, Status::Done);
}

#[test]
fn backoff_is_the_base_times_the_attempt() {
    assert_eq!(backoff_ms(1, 300), 300);
    assert_eq!(backoff_ms(2, 300), 600);
    assert_eq!(backoff_ms(3, 300), 900);
    assert_eq!(backoff_ms(0, 300), 0);
    assert_eq!(backoff_ms(2, u64::MAX), u64::MAX);
    assert_eq!(backoff_ms(u32::MAX, 1), u32::MAX as u64);
}

#[test]
fn only_the_two_hundreds_are_success() {
    assert!(!is_success(199));
    assert!(is_success(200));
    assert!(is_success(204));
    assert!(is_success(299));
    assert!(!is_success(300));
    assert!(!is_success(404));
    assert!(!is_success(500));
    assert!(!is_success(0));
}

#[test]
fn chunked_457_by_200() {
    let items: Vec<u32> = (0..457).collect();
    let chunks = chunked(&items, 200);
    let sizes: Vec<usize> = chunks.iter().map(|c| c.len()).collect();
    assert_eq!(sizes, vec![200, 200, 57]);
    let joined: Vec<u32> = chunks.into_iter().flatten().collect();
    assert_eq!(joined, items);
}

#[test]
fn chunked_agrees_with_the_standard_library() {
    for total in 0usize..20 {
        for size in 1usize..7 {
            let items: Vec<String> = (0..total).map(|i| format!("item-{i}")).collect();
            let expected: Vec<Vec<String>> = items.chunks(size).map(|c| c.to_vec()).collect();
            assert_eq!(chunked(&items, size), expected);
        }
    }
}

#[test]
fn a_payload_is_posted_at_most_three_times() {
    assert_eq!(RETRIES, 3);
    assert_eq!(RETRY_BASE_MS, 300);
    assert_eq!(after_attempt(1, true), BulkAction::Done);
    assert_eq!(after_attempt(3, true), BulkAction::Done);
    assert_eq!(after_attempt(1, false), BulkAction::Retry { wait_ms: 300, attempt: 2 });
    assert_eq!(after_attempt(2, false), BulkAction::Retry { wait_ms: 600, attempt: 3 });
    assert_eq!(after_attempt(3, false), BulkAction::GiveUp { wait_ms: 900 });
}

#[test]
fn a_failed_delivery_names_the_batch_and_the_error() {
    assert_eq!(rejection_message("503 Service Unavailable", "busy"), "503 Service Unavailable - busy");
    assert_eq!(transport_message("connection refused"), "POST send error: connection refused");
    assert_eq!(
        failure_message(200, 400, "503 Service Unavailable - busy"),
        "POST [200-400) failed: 503 Service Unavailable - busy"
    );
    assert_eq!(failure_message(0, 57, ""), "POST [0-57) failed: ");
    assert_eq!(status_message("500 Internal Server Error", "x"), "HTTP 500 Internal Server Error x");
}

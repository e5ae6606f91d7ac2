use bencher::com::api::{FetchError, PoolError, SubmitNonceResponse};
use bencher::com::client::SubmissionParameters;
use bencher::request::{
    retry_pause, RequestHandler, SubmissionOutcome, SubmissionQueue, RETRY_QUANTUM_MS,
};

const BASE_URL: &str = "http://94.130.178.37:31000";

fn candidate(block: u64, deadline: u64) -> SubmissionParameters {
    SubmissionParameters {
        account_id: 1337,
        nonce: deadline + 1,
        height: 112,
        block,
        deadline_unadjusted: deadline * 10,
        deadline,
        gen_sig: [0; 32],
    }
}

fn pool_error(code: i32, message: &str) -> Result<SubmitNonceResponse, FetchError> {
    Err(FetchError::Pool(PoolError { code, message: message.to_owned() }))
}

fn transport_error() -> Result<SubmitNonceResponse, FetchError> {
    Err(FetchError::Http("timed out".to_owned()))
}

#[test]
fn test_submit_nonce() {
    let mut request_handler = RequestHandler::new(BASE_URL, "", true, &Vec::new());

    request_handler.submit_nonce(1337, 12, 111, 0, 7123, 1193, [0; 32]);

    let pending = request_handler.queue.pending.expect("a candidate waits");
    assert_eq!(pending.account_id, 1337);
    assert_eq!(pending.nonce, 12);
    assert_eq!(pending.height, 111);
    assert_eq!(pending.block, 0);
    assert_eq!(pending.deadline_unadjusted, 7123);
    assert_eq!(pending.deadline, 1193);
    assert_eq!(pending.gen_sig, [0; 32]);
    assert!(request_handler.queue.in_flight.is_none());
}

#[test]
fn best_of_three_candidates_is_posted_once() {
    let mut q = SubmissionQueue::new();
    q.submit(candidate(1, 5000));
    q.submit(candidate(1, 4000));
    q.submit(candidate(1, 4500));
    let sent = q.next(0).expect("one is due");
    assert_eq!(sent.deadline, 4000);
    assert!(q.next(0).is_none());
    assert!(q.next(10 * RETRY_QUANTUM_MS).is_none());
    assert_eq!(q.finish(&Ok(SubmitNonceResponse { deadline: 4000 })), Some(SubmissionOutcome::Accepted));
    assert!(q.next(20 * RETRY_QUANTUM_MS).is_none());
    assert!(q.pending.is_none());
    assert!(q.in_flight.is_none());
}

#[test]
fn better_candidate_is_submitted_in_either_order() {
    let a = candidate(1, 200);
    let b = candidate(1, 100);
    assert!(a < b);

    let mut q = SubmissionQueue::new();
    q.submit(a);
    q.submit(b);
    assert_eq!(q.next(5), Some(b));
    assert!(q.pending.is_none());

    let mut q = SubmissionQueue::new();
    q.submit(b);
    q.submit(a);
    assert_eq!(q.next(5), Some(b));
    assert!(q.pending.is_none());
}

#[test]
fn nothing_is_sent_while_one_is_on_its_way() {
    let mut q = SubmissionQueue::new();
    q.submit(candidate(1, 200));
    assert!(q.next(0).is_some());
    q.submit(candidate(1, 100));
    assert!(q.next(1).is_none());
    assert!(q.next(RETRY_QUANTUM_MS).is_none());
    assert_eq!(q.in_flight, Some(candidate(1, 200)));
    assert_eq!(q.finish(&Ok(SubmitNonceResponse { deadline: 200 })), Some(SubmissionOutcome::Accepted));
    // the better one that came in meanwhile goes out at once
    assert_eq!(q.next(2), Some(candidate(1, 100)));
}

#[test]
fn busy_pool_gets_the_same_candidate_again_after_the_quantum() {
    let mut q = SubmissionQueue::new();
    let c = candidate(1, 200);
    q.submit(c);
    assert_eq!(q.next(1000), Some(c));
    assert_eq!(q.finish(&pool_error(0, "")), Some(SubmissionOutcome::PoolBusy));
    assert_eq!(q.pending, Some(c));
    assert!(q.next(1000).is_none());
    assert!(q.next(1000 + RETRY_QUANTUM_MS - 1).is_none());
    assert!(q.next(999).is_none());
    assert_eq!(q.next(1000 + RETRY_QUANTUM_MS), Some(c));
    assert_eq!(q.retries, 1);
    assert_eq!(q.finish(&pool_error(1, "limit exceeded")), Some(SubmissionOutcome::PoolBusy));
    // the pause has doubled
    assert!(q.next(1000 + 2 * RETRY_QUANTUM_MS).is_none());
    assert!(q.next(1000 + 3 * RETRY_QUANTUM_MS - 1).is_none());
    assert_eq!(q.next(1000 + 3 * RETRY_QUANTUM_MS), Some(c));
    assert_eq!(q.retries, 2);
    assert_eq!(q.finish(&transport_error()), Some(SubmissionOutcome::Failed));
    assert!(q.next(1000 + 7 * RETRY_QUANTUM_MS - 1).is_none());
    assert_eq!(q.next(1000 + 7 * RETRY_QUANTUM_MS), Some(c));
}

#[test]
fn pause_doubles_up_to_the_largest_number() {
    assert_eq!(retry_pause(0), 3000);
    assert_eq!(retry_pause(1), 6000);
    assert_eq!(retry_pause(2), 12000);
    assert_eq!(retry_pause(10), 3072000);
    assert_eq!(retry_pause(52), 13510798882111488000);
    assert_eq!(retry_pause(53), u64::MAX);
    assert_eq!(retry_pause(u32::MAX), u64::MAX);
}

#[test]
fn better_candidate_ends_the_run_of_retries() {
    let mut q = SubmissionQueue::new();
    let c = candidate(1, 200);
    q.submit(c);
    q.next(0);
    q.finish(&transport_error());
    q.next(RETRY_QUANTUM_MS);
    q.finish(&transport_error());
    assert_eq!(q.retries, 1);
    q.submit(candidate(1, 100));
    assert_eq!(q.next(RETRY_QUANTUM_MS + 1), Some(candidate(1, 100)));
    assert_eq!(q.retries, 0);
    q.finish(&transport_error());
    assert!(q.next(2 * RETRY_QUANTUM_MS).is_none());
    assert_eq!(q.next(2 * RETRY_QUANTUM_MS + 1), Some(candidate(1, 100)));
}

#[test]
fn better_candidate_replaces_the_one_that_waits_to_be_retried() {
    let mut q = SubmissionQueue::new();
    let c = candidate(1, 200);
    let better = candidate(1, 150);
    q.submit(c);
    assert_eq!(q.next(1000), Some(c));
    assert_eq!(q.finish(&pool_error(0, "")), Some(SubmissionOutcome::PoolBusy));
    q.submit(better);
    assert_eq!(q.pending, Some(better));
    assert_eq!(q.next(1001), Some(better));
    assert!(q.pending.is_none());
}

#[test]
fn worse_candidate_does_not_replace_the_one_that_waits_to_be_retried() {
    let mut q = SubmissionQueue::new();
    let c = candidate(1, 200);
    q.submit(c);
    assert_eq!(q.next(0), Some(c));
    assert_eq!(q.finish(&transport_error()), Some(SubmissionOutcome::Failed));
    q.submit(candidate(1, 300));
    assert_eq!(q.pending, Some(c));
    assert!(q.next(1).is_none());
    assert_eq!(q.next(RETRY_QUANTUM_MS), Some(c));
}

#[test]
fn transport_error_queues_the_candidate_again() {
    let mut q = SubmissionQueue::new();
    let c = candidate(2, 77);
    q.submit(c);
    q.next(0);
    assert_eq!(q.finish(&transport_error()), Some(SubmissionOutcome::Failed));
    assert_eq!(q.pending, Some(c));
    assert!(q.in_flight.is_none());
}

#[test]
fn rejected_candidate_is_dropped() {
    let mut q = SubmissionQueue::new();
    q.submit(candidate(2, 77));
    q.next(0);
    assert_eq!(q.finish(&pool_error(1008, "wrong deadline")), Some(SubmissionOutcome::NotAccepted));
    assert!(q.pending.is_none());
    assert!(q.in_flight.is_none());
    assert!(q.next(RETRY_QUANTUM_MS).is_none());
}

#[test]
fn pool_that_computes_another_deadline_is_noted() {
    let mut q = SubmissionQueue::new();
    q.submit(candidate(2, 77));
    q.next(0);
    assert_eq!(
        q.finish(&Ok(SubmitNonceResponse { deadline: 78 })),
        Some(SubmissionOutcome::DeadlineMismatch(78))
    );
    assert!(q.pending.is_none());
}

#[test]
fn result_without_attempt_changes_nothing() {
    let mut q = SubmissionQueue::new();
    q.submit(candidate(2, 77));
    assert_eq!(q.finish(&transport_error()), None);
    assert_eq!(q.pending, Some(candidate(2, 77)));
    assert!(q.last_attempt.is_none());
}

#[test]
fn candidate_of_a_new_round_goes_out_at_once() {
    let mut q = SubmissionQueue::new();
    q.submit(candidate(1, 10));
    q.next(0);
    q.finish(&Ok(SubmitNonceResponse { deadline: 10 }));
    q.submit(candidate(2, 5000));
    assert_eq!(q.next(1), Some(candidate(2, 5000)));
}

#[test]
fn handler_phrases_the_request_of_the_submission() {
    let mut handler = RequestHandler::new(BASE_URL, "", false, &Vec::new());
    assert!(handler.next_submission(0).is_none());
    handler.submit_nonce(1337, 12, 111, 1, 7123, 1193, [0; 32]);
    let (sent, request) = handler.next_submission(0).expect("one is due");
    assert_eq!(
        handler.client.uri_for(&request.path),
        Some("http://94.130.178.37:31000/burst".to_owned())
    );
    assert_eq!(sent.nonce, 12);
    assert_eq!(
        request.query,
        "requestType=submitNonce&accountId=1337&nonce=12&secretPhrase=&blockheight=111&deadline=7123"
    );
    assert_eq!(
        request.headers,
        vec![
            ("User-Agent".to_owned(), "Bencher/0.1.0".to_owned()),
            ("X-Deadline".to_owned(), "1193".to_owned()),
        ]
    );
    let info = handler.get_mining_info(9, &Vec::new(), "cpu");
    assert_eq!(info.query, "requestType=getMiningInfo");
    assert_eq!(info.headers.len(), 3);
    assert_eq!(
        handler.handle_result(&Ok(SubmitNonceResponse { deadline: 1193 })),
        Some(SubmissionOutcome::Accepted)
    );
    assert_eq!(handler.handle_result(&Ok(SubmitNonceResponse { deadline: 1193 })), None);
}

#[test]
fn pool_errors_that_ask_for_a_retry() {
    assert!(PoolError { code: 0, message: String::new() }.is_soft());
    assert!(PoolError { code: 5, message: "limit exceeded".to_owned() }.is_soft());
    assert!(!PoolError { code: 5, message: "limit exceeded!".to_owned() }.is_soft());
    assert!(!PoolError { code: 5, message: "Limit exceeded".to_owned() }.is_soft());
}

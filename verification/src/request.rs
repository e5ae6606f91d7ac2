//! The submission pipeline: at most one candidate waits, at most one is on
//! its way, the better candidate takes the place of the worse, and a
//! candidate that did not get through is sent again after a pause that
//! doubles with every attempt.

use crate::com::api::{FetchError, SubmitNonceResponse};
use crate::com::client::{
    common_headers, header_views, Client, ProxyDetails, Request, SubmissionParameters,
};
use crate::com::encode::urlencoded;
use vstd::prelude::*;
use vstd::utf8::encode_utf8;

verus! {

/// The least time between two attempts with a candidate that is no better
/// than the one of the attempt before, in milliseconds.
pub const RETRY_QUANTUM_MS: u64 = 3000;

/// The pause before the attempt that follows `retries` attempts in a row
/// with candidates of which none ranked above the one before it: the retry
/// quantum, doubled with each of them, and no more than `u64::MAX`.
pub open spec fn pause(retries: nat) -> int
    decreases retries,
{
    if retries == 0 {
        RETRY_QUANTUM_MS as int
    } else if 2 * pause((retries - 1) as nat) > u64::MAX {
        u64::MAX as int
    } else {
        2 * pause((retries - 1) as nat)
    }
}

/// The pause is never shorter than the retry quantum and never shrinks;
/// once it has reached `u64::MAX` it stays there.
pub proof fn lemma_pause_grows(fewer: nat, more: nat)
    requires
        fewer <= more,
    ensures
        RETRY_QUANTUM_MS <= pause(fewer) <= pause(more) <= u64::MAX,
    decreases more,
{
    if fewer < more {
        lemma_pause_grows(fewer, (more - 1) as nat);
    } else if more > 0 {
        lemma_pause_grows((more - 1) as nat, (more - 1) as nat);
    }
}

/// Computes the pause before the attempt that follows `retries` attempts
/// with a candidate that was no better than the one before.
pub fn retry_pause(retries: u32) -> (ms: u64)
    ensures
        ms == pause(retries as nat),
{
    let mut ms = RETRY_QUANTUM_MS;
    let mut i: u32 = 0;
    while i < retries && ms < u64::MAX
        invariant
            i <= retries,
            ms == pause(i as nat),
        decreases retries - i,
    {
        ms = if ms > u64::MAX / 2 {
            u64::MAX
        } else {
            2 * ms
        };
        i += 1;
    }
    proof {
        lemma_pause_grows(i as nat, retries as nat);
    }
    ms
}

/// How an attempt to submit a candidate ended.
#[derive(Clone, Copy, Debug, PartialEq, Eq)]
pub enum SubmissionOutcome {
    /// The pool took the nonce and computed the same deadline.
    Accepted,
    /// The pool took the nonce and computed this other deadline.
    DeadlineMismatch(u64),
    /// The pool is busy; the candidate waits again.
    PoolBusy,
    /// The pool refused the nonce; the candidate is dropped.
    NotAccepted,
    /// The request did not get through; the candidate waits again.
    Failed,
}

/// The candidates of the submission pipeline.
#[derive(Clone, Copy, Debug)]
pub struct SubmissionQueue {
    /// The best candidate that waits to be sent.
    pub pending: Option<SubmissionParameters>,
    /// The candidate that is on its way.
    pub in_flight: Option<SubmissionParameters>,
    /// The candidate that was sent last, and the time of that attempt in
    /// milliseconds.
    pub last_attempt: Option<(SubmissionParameters, u64)>,
    /// How many attempts in a row, up to the last one, were made with a
    /// candidate that did not rank above the one before it.
    pub retries: u32,
}

/// Whether a candidate waits again after `result`: the request did not get
/// through, or the pool is busy.
pub open spec fn requeues(result: Result<SubmitNonceResponse, FetchError>) -> bool {
    match result {
        Ok(_) => false,
        Err(FetchError::Pool(e)) => e.soft(),
        Err(FetchError::Http(_)) => true,
    }
}

/// How the attempt with `candidate` ended, given `result`.
pub open spec fn outcome_of(
    candidate: SubmissionParameters,
    result: Result<SubmitNonceResponse, FetchError>,
) -> SubmissionOutcome {
    match result {
        Ok(res) => if res.deadline == candidate.deadline {
            SubmissionOutcome::Accepted
        } else {
            SubmissionOutcome::DeadlineMismatch(res.deadline)
        },
        Err(FetchError::Pool(e)) => if e.soft() {
            SubmissionOutcome::PoolBusy
        } else {
            SubmissionOutcome::NotAccepted
        },
        Err(FetchError::Http(_)) => SubmissionOutcome::Failed,
    }
}

impl SubmissionQueue {
    /// The queue in which nothing waits and nothing was ever sent.
    pub open spec fn empty() -> SubmissionQueue {
        SubmissionQueue { pending: None, in_flight: None, last_attempt: None, retries: 0 }
    }

    /// The queue after `candidate` has come in: it waits if nothing waited,
    /// and takes the place of the waiting candidate if that one ranks below
    /// it; else it is dropped.
    pub open spec fn offer(self, candidate: SubmissionParameters) -> SubmissionQueue {
        SubmissionQueue {
            pending: Some(
                match self.pending {
                    Some(waiting) => if waiting.ranks_below(&candidate) {
                        candidate
                    } else {
                        waiting
                    },
                    None => candidate,
                },
            ),
            ..self
        }
    }

    /// Whether the waiting candidate would be sent again: something was
    /// sent before, and what waits does not rank above it.
    pub open spec fn is_retry(self) -> bool {
        self.pending matches Some(waiting) && self.last_attempt matches Some((last, _))
            && !last.ranks_below(&waiting)
    }

    /// Whether a candidate is to be sent at time `now`: one waits, none is
    /// on its way, and either it is no retry, or the pause has passed since
    /// the last attempt.
    pub open spec fn due(self, now: u64) -> bool {
        self.in_flight is None && self.pending is Some && (!self.is_retry() || now
            - self.last_attempt.unwrap().1 >= pause(self.retries as nat))
    }

    /// The queue after the attempt at time `now`, where one is due: the
    /// waiting candidate is on its way, and a retry is counted.
    pub open spec fn dispatch(self, now: u64) -> SubmissionQueue {
        if self.due(now) {
            SubmissionQueue {
                pending: None,
                in_flight: self.pending,
                last_attempt: Some((self.pending.unwrap(), now)),
                retries: if !self.is_retry() {
                    0
                } else if self.retries < u32::MAX {
                    (self.retries + 1) as u32
                } else {
                    u32::MAX
                },
            }
        } else {
            self
        }
    }

    /// The queue after the attempt that was on its way has ended with
    /// `result`: nothing is on its way, and the candidate comes in again
    /// where it is to wait again.
    pub open spec fn settle(self, result: Result<SubmitNonceResponse, FetchError>) -> SubmissionQueue {
        match self.in_flight {
            Some(candidate) => {
                let idle = SubmissionQueue { in_flight: None, ..self };
                if requeues(result) {
                    idle.offer(candidate)
                } else {
                    idle
                }
            },
            None => self,
        }
    }

    /// Creates the empty queue.
    pub fn new() -> (q: SubmissionQueue)
        ensures
            q == SubmissionQueue::empty(),
    {
        SubmissionQueue { pending: None, in_flight: None, last_attempt: None, retries: 0 }
    }

    /// Takes in a candidate.
    pub fn submit(&mut self, candidate: SubmissionParameters)
        ensures
            *final(self) == old(self).offer(candidate),
    {
        match self.pending {
            Some(waiting) => {
                if waiting < candidate {
                    self.pending = Some(candidate);
                }
            },
            None => {
                self.pending = Some(candidate);
            },
        }
    }

    /// Returns the candidate to send at time `now`, in milliseconds, if one
    /// is due, and notes the attempt.
    pub fn next(&mut self, now: u64) -> (candidate: Option<SubmissionParameters>)
        ensures
            *final(self) == old(self).dispatch(now),
            candidate == (if old(self).due(now) {
                old(self).pending
            } else {
                None
            }),
    {
        if self.in_flight.is_some() {
            return None;
        }
        proof {
            lemma_pause_grows(0, self.retries as nat);
        }
        match self.pending {
            Some(waiting) => {
                let retry = match self.last_attempt {
                    Some((last, _)) => !(last < waiting),
                    None => false,
                };
                let due = match self.last_attempt {
                    Some((_, at)) => !retry || (now >= at && now - at >= retry_pause(
                        self.retries,
                    )),
                    None => true,
                };
                if due {
                    self.pending = None;
                    self.in_flight = Some(waiting);
                    self.last_attempt = Some((waiting, now));
                    self.retries = if !retry {
                        0
                    } else if self.retries < u32::MAX {
                        self.retries + 1
                    } else {
                        u32::MAX
                    };
                    Some(waiting)
                } else {
                    None
                }
            },
            None => None,
        }
    }

    /// Takes in the end of the attempt that was on its way, and tells how
    /// it ended; `None` where nothing was on its way.
    pub fn finish(&mut self, result: &Result<SubmitNonceResponse, FetchError>) -> (outcome: Option<
        SubmissionOutcome,
    >)
        ensures
            *final(self) == old(self).settle(*result),
            outcome == (match old(self).in_flight {
                Some(candidate) => Some(outcome_of(candidate, *result)),
                None => None,
            }),
    {
        match self.in_flight {
            Some(candidate) => {
                self.in_flight = None;
                let outcome = match result {
                    Ok(res) => {
                        if res.deadline == candidate.deadline {
                            SubmissionOutcome::Accepted
                        } else {
                            SubmissionOutcome::DeadlineMismatch(res.deadline)
                        }
                    },
                    Err(FetchError::Pool(e)) => {
                        // Some pools send an empty message when they are
                        // under too much load, and expect the submission
                        // again later.
                        if e.is_soft() {
                            self.submit(candidate);
                            SubmissionOutcome::PoolBusy
                        } else {
                            SubmissionOutcome::NotAccepted
                        }
                    },
                    Err(FetchError::Http(_)) => {
                        self.submit(candidate);
                        SubmissionOutcome::Failed
                    },
                };
                Some(outcome)
            },
            None => None,
        }
    }
}

/// Of two candidates of which the first ranks below the second, and not
/// the second below the first as well, the second is the one that waits,
/// whichever of them came in first, and the one that is sent.
pub proof fn lemma_better_candidate_is_sent(a: SubmissionParameters, b: SubmissionParameters, now: u64)
    requires
        a.ranks_below(&b),
        !b.ranks_below(&a),
    ensures
        SubmissionQueue::empty().offer(a).offer(b).pending == Some(b),
        SubmissionQueue::empty().offer(b).offer(a).pending == Some(b),
        SubmissionQueue::empty().offer(a).offer(b).dispatch(now).in_flight == Some(b),
        SubmissionQueue::empty().offer(b).offer(a).dispatch(now).in_flight == Some(b),
{
}

/// A candidate that did not get through, or that met a busy pool, waits
/// again, and is sent again once the pause has passed, which is the retry
/// quantum at least. A candidate that ranks above it and comes in before
/// that takes its place, and is sent at once.
pub proof fn lemma_retry_or_replace(
    q: SubmissionQueue,
    at: u64,
    result: Result<SubmitNonceResponse, FetchError>,
    better: SubmissionParameters,
    now: u64,
)
    requires
        q.due(at),
        requeues(result),
    ensures
        q.dispatch(at).settle(result).pending == q.pending,
        q.dispatch(at).settle(result).in_flight is None,
        q.dispatch(at).settle(result).due(now) <==> now - at >= pause(
            q.dispatch(at).retries as nat,
        ),
        q.dispatch(at).settle(result).due(now) ==> now - at >= RETRY_QUANTUM_MS,
        q.pending.unwrap().ranks_below(&better) ==> q.dispatch(at).settle(result).offer(
            better,
        ).pending == Some(better) && q.dispatch(at).settle(result).offer(better).due(now),
{
    lemma_pause_grows(0, q.dispatch(at).retries as nat);
}

/// With every attempt in a row that is made with the same candidate the
/// pause before the next one doubles, until it has reached `u64::MAX`.
pub proof fn lemma_pause_doubles(
    q: SubmissionQueue,
    first: u64,
    result: Result<SubmitNonceResponse, FetchError>,
    second: u64,
)
    requires
        q.due(first),
        requeues(result),
        q.dispatch(first).settle(result).due(second),
        q.dispatch(first).retries < u32::MAX,
    ensures
        q.dispatch(first).settle(result).dispatch(second).in_flight == q.pending,
        q.dispatch(first).settle(result).dispatch(second).retries == q.dispatch(first).retries
            + 1,
        pause(q.dispatch(first).settle(result).dispatch(second).retries as nat) == 2 * pause(
            q.dispatch(first).retries as nat,
        ) || pause(q.dispatch(first).settle(result).dispatch(second).retries as nat)
            == u64::MAX,
{
}

/// A new attempt begins only while none is on its way, and an attempt with
/// a candidate that does not rank above the one sent last begins no sooner
/// than the retry quantum after that attempt.
pub proof fn lemma_one_attempt_at_a_time(q: SubmissionQueue, now: u64)
    ensures
        q.in_flight is Some ==> q.dispatch(now) == q,
        q.dispatch(now) != q ==> q.dispatch(now).in_flight == q.pending && q.pending is Some,
        q.due(now) && q.is_retry() ==> now - q.last_attempt.unwrap().1 >= RETRY_QUANTUM_MS,
{
    lemma_pause_grows(0, q.retries as nat);
}

/// Whether the details for proxies are sent, as the configuration has it.
pub open spec fn proxy_details_for(send_proxy_details: bool) -> ProxyDetails {
    if send_proxy_details {
        ProxyDetails::Enabled
    } else {
        ProxyDetails::Disabled
    }
}

/// The side of the miner that talks to the pool: the client that phrases
/// the requests, and the queue of nonce submissions.
pub struct RequestHandler {
    pub client: Client,
    pub queue: SubmissionQueue,
}

impl RequestHandler {
    /// Creates the handler for a miner that talks to the pool at
    /// `base_uri` with the given secret phrase and headers. With
    /// `send_proxy_details` the requests carry what a proxy wants to know
    /// about the miner.
    pub fn new(
        base_uri: &str,
        secret_phrase: &str,
        send_proxy_details: bool,
        additional_headers: &Vec<(String, String)>,
    ) -> (handler: RequestHandler)
        ensures
            handler.queue == SubmissionQueue::empty(),
            handler.client.base_uri@ == base_uri@,
            handler.client.secret_phrase@ == urlencoded(encode_utf8(secret_phrase@)),
            exists|hostname: Seq<char>|
                header_views(handler.client.headers@) == #[trigger] common_headers(
                    proxy_details_for(send_proxy_details),
                    header_views(additional_headers@),
                    hostname,
                ),
    {
        let proxy_details = if send_proxy_details {
            ProxyDetails::Enabled
        } else {
            ProxyDetails::Disabled
        };
        let client = Client::new(base_uri, secret_phrase, proxy_details, additional_headers);
        RequestHandler { client, queue: SubmissionQueue::new() }
    }

    /// The request for the current mining info.
    pub fn get_mining_info(
        &self,
        capacity: u64,
        additional_headers: &Vec<(String, String)>,
        xpu_string: &str,
    ) -> (request: Request)
        ensures
            self.client.mining_info_request(request, capacity, additional_headers@, xpu_string@),
    {
        self.client.get_mining_info(capacity, additional_headers, xpu_string)
    }

    /// Takes in a nonce to submit.
    pub fn submit_nonce(
        &mut self,
        account_id: u64,
        nonce: u64,
        height: u64,
        block: u64,
        deadline_unadjusted: u64,
        deadline: u64,
        gen_sig: [u8; 32],
    )
        ensures
            final(self).client == old(self).client,
            final(self).queue == old(self).queue.offer(
                SubmissionParameters {
                    account_id,
                    nonce,
                    height,
                    block,
                    deadline_unadjusted,
                    deadline,
                    gen_sig,
                },
            ),
    {
        self.queue.submit(
            SubmissionParameters {
                account_id,
                nonce,
                height,
                block,
                deadline_unadjusted,
                deadline,
                gen_sig,
            },
        );
    }

    /// Returns the submission to send at time `now`, in milliseconds, if
    /// one is due, with the request that carries it.
    pub fn next_submission(&mut self, now: u64) -> (next: Option<(SubmissionParameters, Request)>)
        ensures
            final(self).client == old(self).client,
            final(self).queue == old(self).queue.dispatch(now),
            next is Some <==> old(self).queue.due(now),
            next matches Some((candidate, request)) ==> Some(candidate) == old(self).queue.pending
                && old(self).client.submission_of(request, candidate),
    {
        match self.queue.next(now) {
            Some(candidate) => {
                let request = self.client.submit_nonce(&candidate);
                Some((candidate, request))
            },
            None => None,
        }
    }

    /// Takes in the end of the attempt that was on its way.
    pub fn handle_result(&mut self, result: &Result<SubmitNonceResponse, FetchError>) -> (outcome:
        Option<SubmissionOutcome>)
        ensures
            final(self).client == old(self).client,
            final(self).queue == old(self).queue.settle(*result),
            outcome == (match old(self).queue.in_flight {
                Some(candidate) => Some(outcome_of(candidate, *result)),
                None => None,
            }),
    {
        self.queue.finish(result)
    }
}

} // verus!

//! The round driver's state: the current challenge, the best deadline of the
//! round, and what to do with the answers of the pool and of the workers.

use crate::com::api::MiningInfoResponse;
use crate::com::client::SubmissionParameters;
use crate::config::Cfg;
use crate::cpu_hasher::SimdExtension;
use crate::ocl::GpuConfig;
use crate::poc_hashing::{
    calculate_scoop, decode_gensig, hex_decoded, scoop_of, valid_gensig,
};
use crate::com::client::{common_headers, header_views};
use crate::com::encode::urlencoded;
use crate::request::{proxy_details_for, RequestHandler, SubmissionQueue};
use crate::scheduler::{HasherMessage, RoundInfo, Scheduler, SchedulerAction};
use vstd::prelude::*;
use vstd::utf8::encode_utf8;

verus! {

/// The base target of the first block of the chain.
pub const GENESIS_BASE_TARGET: u64 = 4_398_046_511_104;

/// The shortest time between two requests for mining info, in milliseconds.
pub const MIN_MINING_INFO_INTERVAL: u64 = 1000;

/// The best deadline of a task, as the scheduler hands it to the driver.
#[derive(Clone, Copy, Debug)]
pub struct NonceData {
    pub numeric_id: u64,
    pub nonce: u64,
    pub height: u64,
    pub block: u64,
    pub deadline: u64,
    pub deadline_adjusted: u64,
    pub capacity: u64,
    pub base_target: u64,
}

/// What the driver knows: the current challenge, the best deadline of the
/// round that was handed on for submission, the capacity that the scheduler
/// estimated last, and how the connection to the pool fares.
pub struct State {
    pub generation_signature: String,
    pub generation_signature_bytes: [u8; 32],
    pub base_target: u64,
    pub height: u64,
    /// The number of rounds seen so far.
    pub block: u64,
    pub server_target_deadline: u64,
    /// No answer of the pool has been seen yet.
    pub first: bool,
    /// The pool did not answer the last request.
    pub outage: bool,
    pub best_deadline: u64,
    pub scoop: u32,
    pub capacity: u64,
}

/// What the driver says when the pool cannot be reached.
#[derive(Clone, Copy, Debug, PartialEq, Eq, Structural)]
pub enum OutageNotice {
    /// The very first request failed: the server may be misconfigured.
    CheckServerConfig,
    /// The connection has just been lost.
    ConnectionOutage,
    /// The outage is known already.
    Silent,
}

/// The difficulty of the network at a base target: how many times the base
/// target goes into that of the first block, for blocks of 240 seconds.
pub open spec fn net_difficulty(base_target: u64) -> int {
    GENESIS_BASE_TARGET as int / 240 / (base_target as int)
}

/// Computes the difficulty of the network at `base_target`.
pub fn netdiff(base_target: u64) -> (diff: u64)
    requires
        base_target > 0,
    ensures
        diff == net_difficulty(base_target),
{
    GENESIS_BASE_TARGET / 240 / base_target
}

/// The interval between two requests for mining info, in milliseconds: the
/// configured one, and no less than a second.
pub fn mining_info_interval(configured: u64) -> (interval: u64)
    ensures
        interval == (if configured < MIN_MINING_INFO_INTERVAL {
            MIN_MINING_INFO_INTERVAL
        } else {
            configured
        }),
{
    if configured < MIN_MINING_INFO_INTERVAL {
        MIN_MINING_INFO_INTERVAL
    } else {
        configured
    }
}

/// The number of threads of the CPU pool on a machine with `available`
/// processors: all of them where none are configured, else the configured
/// number, and at most twice the processors.
pub fn cpu_thread_count(configured: usize, available: usize) -> (threads: usize)
    ensures
        threads == (if configured == 0 {
            available as int
        } else if configured <= 2 * available {
            configured as int
        } else {
            2 * available
        }),
{
    if configured == 0 {
        available
    } else if configured as u128 <= 2 * (available as u128) {
        configured
    } else {
        2 * available
    }
}

/// The number of threads of the CPU pool of a miner with `cpu_threads`
/// threads: that number, and 255 at most.
pub open spec fn pool_size(cpu_threads: usize) -> u8 {
    if cpu_threads > 255 {
        255
    } else {
        cpu_threads as u8
    }
}

/// Computes the number of threads of the CPU pool.
pub fn pool_threads(cpu_threads: usize) -> (threads: u8)
    ensures
        threads == pool_size(cpu_threads),
{
    if cpu_threads > 255 {
        255
    } else {
        cpu_threads as u8
    }
}

impl State {
    /// The state before the first answer of the pool.
    pub fn new() -> (s: State)
        ensures
            s.generation_signature@ == Seq::<char>::empty(),
            s.generation_signature_bytes@ == Seq::new(32, |i: int| 0u8),
            s.base_target == 1,
            s.height == 0,
            s.block == 0,
            s.server_target_deadline == u64::MAX,
            s.first,
            !s.outage,
            s.best_deadline == u64::MAX,
            s.scoop == 0,
            s.capacity == 0,
    {
        let s = State {
            generation_signature: String::new(),
            generation_signature_bytes: [0u8; 32],
            base_target: 1,
            height: 0,
            block: 0,
            server_target_deadline: u64::MAX,
            first: true,
            outage: false,
            best_deadline: u64::MAX,
            scoop: 0,
            capacity: 0,
        };
        s
    }

    /// `post` is the state `self` after the pool has named the challenge
    /// `info` for a new round: the round counter has moved on by one, no
    /// deadline of the round is known, and signature, scoop, base target and
    /// height are those of the challenge. Capacity and the flags of the
    /// connection stay.
    pub open spec fn next_round(&self, info: &MiningInfoResponse, post: &State) -> bool {
        &&& post.best_deadline == u64::MAX
        &&& post.height == info.height
        &&& post.block == self.block + 1
        &&& post.base_target == info.base_target
        &&& post.server_target_deadline == info.target_deadline
        &&& post.generation_signature@ == info.generation_signature@
        &&& post.generation_signature_bytes@ == hex_decoded(
            encode_utf8(info.generation_signature@),
        )
        &&& post.scoop == scoop_of(info.height, post.generation_signature_bytes@)
        &&& post.first == self.first
        &&& post.outage == self.outage
        &&& post.capacity == self.capacity
    }

    /// The round that the state stands for.
    pub open spec fn round(&self) -> RoundInfo {
        RoundInfo {
            gensig: self.generation_signature_bytes,
            base_target: self.base_target,
            scoop: self.scoop as u64,
            height: self.height,
            block: self.block,
        }
    }

    /// `post` and `round` are what the answer `info` of the pool leads to
    /// from the state `self`: a challenge with another signature than the
    /// current one begins a round, any other changes nothing but the flags
    /// of the connection, which say that the pool has answered.
    pub open spec fn mining_info_step(
        &self,
        info: &MiningInfoResponse,
        post: &State,
        round: Option<RoundInfo>,
    ) -> bool {
        if info.generation_signature@ != self.generation_signature@ {
            &&& (State { first: false, outage: false, ..*self }).next_round(info, post)
            &&& round == Some(post.round())
        } else {
            &&& round is None
            &&& !post.first
            &&& !post.outage
            &&& post.generation_signature@ == self.generation_signature@
            &&& post.generation_signature_bytes == self.generation_signature_bytes
            &&& post.base_target == self.base_target
            &&& post.height == self.height
            &&& post.block == self.block
            &&& post.server_target_deadline == self.server_target_deadline
            &&& post.best_deadline == self.best_deadline
            &&& post.scoop == self.scoop
            &&& post.capacity == self.capacity
        }
    }

    /// Takes over the challenge of a new round.
    pub fn update_mining_info(&mut self, mining_info: &MiningInfoResponse)
        requires
            valid_gensig(mining_info.generation_signature@),
            old(self).block < u64::MAX,
        ensures
            old(self).next_round(mining_info, final(self)),
            final(self).scoop <= 4095,
    {
        self.best_deadline = u64::MAX;
        self.height = mining_info.height;
        self.block = self.block + 1;
        self.base_target = mining_info.base_target;
        self.server_target_deadline = mining_info.target_deadline;
        self.generation_signature_bytes = decode_gensig(mining_info.generation_signature.as_str());
        self.generation_signature = mining_info.generation_signature.clone();
        self.scoop = calculate_scoop(mining_info.height, &self.generation_signature_bytes);
    }

    /// Takes in an answer of the pool to the request for mining info.
    /// Returns whether an outage has ended with it, and the round that
    /// begins with it, if one does.
    pub fn on_mining_info(&mut self, mining_info: &MiningInfoResponse) -> (r: (
        bool,
        Option<RoundInfo>,
    ))
        requires
            mining_info.generation_signature@ != old(self).generation_signature@ ==> valid_gensig(
                mining_info.generation_signature@,
            ) && mining_info.base_target > 0 && old(self).block < u64::MAX,
        ensures
            r.0 == old(self).outage,
            old(self).mining_info_step(mining_info, final(self), r.1),
            r.1 matches Some(round) ==> round.valid(),
    {
        let resolved = self.outage;
        self.first = false;
        self.outage = false;
        if mining_info.generation_signature != self.generation_signature {
            self.update_mining_info(mining_info);
            let round = RoundInfo {
                gensig: self.generation_signature_bytes,
                base_target: self.base_target,
                scoop: self.scoop as u64,
                height: self.height,
                block: self.block,
            };
            (resolved, Some(round))
        } else {
            (resolved, None)
        }
    }

    /// What is said after a request for mining info has failed, in a state
    /// with the flags `first` and `outage`.
    pub open spec fn notice(first: bool, outage: bool) -> OutageNotice {
        if first {
            OutageNotice::CheckServerConfig
        } else if !outage {
            OutageNotice::ConnectionOutage
        } else {
            OutageNotice::Silent
        }
    }

    /// Takes in that a request for mining info has failed: the outage is
    /// noted, and said once.
    pub fn on_mining_info_error(&mut self) -> (notice: OutageNotice)
        ensures
            notice == State::notice(old(self).first, old(self).outage),
            *final(self) == (State { first: false, outage: true, ..*old(self) }),
    {
        let notice = if self.first {
            OutageNotice::CheckServerConfig
        } else if !self.outage {
            OutageNotice::ConnectionOutage
        } else {
            OutageNotice::Silent
        };
        self.first = false;
        self.outage = true;
        notice
    }

    /// Whether the deadline `nonce_data` is handed on for submission: it is
    /// of the current round, better than every deadline of the round that
    /// was handed on before, and below `target_deadline`.
    pub open spec fn qualifies(&self, nonce_data: &NonceData, target_deadline: u64) -> bool {
        self.block == nonce_data.block && self.best_deadline > nonce_data.deadline_adjusted
            && nonce_data.deadline_adjusted < target_deadline
    }

    /// The submission that carries `nonce_data`.
    pub open spec fn submission(&self, nonce_data: &NonceData) -> SubmissionParameters {
        SubmissionParameters {
            account_id: nonce_data.numeric_id,
            nonce: nonce_data.nonce,
            height: nonce_data.height,
            block: nonce_data.block,
            deadline_unadjusted: nonce_data.deadline,
            deadline: nonce_data.deadline / nonce_data.base_target,
            gen_sig: self.generation_signature_bytes,
        }
    }

    /// Takes in the best deadline of a task. The capacity is noted. Where
    /// the deadline qualifies it becomes the best of the round, and the
    /// submission that carries it is returned.
    pub fn on_nonce_data(&mut self, nonce_data: &NonceData, target_deadline: u64) -> (submit:
        Option<SubmissionParameters>)
        requires
            nonce_data.base_target > 0,
        ensures
            submit == (if old(self).qualifies(nonce_data, target_deadline) {
                Some(old(self).submission(nonce_data))
            } else {
                None
            }),
            *final(self) == (State {
                capacity: nonce_data.capacity,
                best_deadline: if old(self).qualifies(nonce_data, target_deadline) {
                    nonce_data.deadline_adjusted
                } else {
                    old(self).best_deadline
                },
                ..*old(self)
            }),
            final(self).best_deadline <= old(self).best_deadline,
    {
        self.capacity = nonce_data.capacity;
        let deadline = nonce_data.deadline / nonce_data.base_target;
        if self.block == nonce_data.block && self.best_deadline > nonce_data.deadline_adjusted
            && nonce_data.deadline_adjusted < target_deadline {
            self.best_deadline = nonce_data.deadline_adjusted;
            Some(
                SubmissionParameters {
                    account_id: nonce_data.numeric_id,
                    nonce: nonce_data.nonce,
                    height: nonce_data.height,
                    block: nonce_data.block,
                    deadline_unadjusted: nonce_data.deadline,
                    deadline,
                    gen_sig: self.generation_signature_bytes,
                },
            )
        } else {
            None
        }
    }
}

/// The miner: its configuration, the driver's state, and the side that
/// talks to the pool.
pub struct Miner {
    pub request_handler: RequestHandler,
    pub state: State,
    pub cpu_threads: usize,
    pub cpu_worker_task_size: u64,
    pub simd_extensions: SimdExtension,
    pub numeric_id: u64,
    pub start_nonce: u64,
    pub target_deadline: u64,
    pub blocktime: u64,
    pub gpus: Vec<GpuConfig>,
    pub get_mining_info_interval: u64,
}

impl Miner {
    /// Creates the miner that `cfg` describes, with `cpu_threads` threads
    /// in its CPU pool.
    pub fn new(cfg: Cfg, simd_extensions: SimdExtension, cpu_threads: usize) -> (miner: Miner)
        ensures
            miner.request_handler.queue == SubmissionQueue::empty(),
            miner.request_handler.client.base_uri@ == cfg.url@,
            miner.request_handler.client.secret_phrase@ == urlencoded(
                encode_utf8(cfg.secret_phrase@),
            ),
            exists|hostname: Seq<char>|
                header_views(miner.request_handler.client.headers@) == #[trigger] common_headers(
                    proxy_details_for(cfg.send_proxy_details),
                    header_views(cfg.additional_headers@),
                    hostname,
                ),
            miner.state.generation_signature@ == Seq::<char>::empty(),
            miner.state.generation_signature_bytes@ == Seq::new(32, |i: int| 0u8),
            miner.state.base_target == 1,
            miner.state.height == 0,
            miner.state.block == 0,
            miner.state.server_target_deadline == u64::MAX,
            miner.state.first,
            !miner.state.outage,
            miner.state.best_deadline == u64::MAX,
            miner.state.scoop == 0,
            miner.state.capacity == 0,
            miner.cpu_threads == cpu_threads,
            miner.cpu_worker_task_size == cfg.cpu_worker_task_size,
            miner.simd_extensions == simd_extensions,
            miner.numeric_id == cfg.numeric_id,
            miner.start_nonce == cfg.start_nonce,
            miner.target_deadline == cfg.target_deadline,
            miner.blocktime == cfg.blocktime,
            miner.gpus == cfg.gpus,
            miner.get_mining_info_interval == (if cfg.get_mining_info_interval
                < MIN_MINING_INFO_INTERVAL {
                MIN_MINING_INFO_INTERVAL
            } else {
                cfg.get_mining_info_interval
            }),
    {
        let request_handler = RequestHandler::new(
            cfg.url.as_str(),
            cfg.secret_phrase.as_str(),
            cfg.send_proxy_details,
            &cfg.additional_headers,
        );
        Miner {
            request_handler,
            state: State::new(),
            cpu_threads,
            cpu_worker_task_size: cfg.cpu_worker_task_size,
            simd_extensions,
            numeric_id: cfg.numeric_id,
            start_nonce: cfg.start_nonce,
            target_deadline: cfg.target_deadline,
            blocktime: cfg.blocktime,
            gpus: cfg.gpus,
            get_mining_info_interval: mining_info_interval(cfg.get_mining_info_interval),
        }
    }

    /// The scheduler of this miner for GPUs that take `gpu_worksizes`
    /// nonces at once. Its CPU pool has as many threads as the miner, and
    /// 255 at most.
    pub fn scheduler(&self, gpu_worksizes: Vec<usize>) -> (s: Scheduler)
        ensures
            s.wf(),
            s.numeric_id == self.numeric_id,
            s.start_nonce == self.start_nonce,
            s.cpu_threads == pool_size(self.cpu_threads),
            s.cpu_task_size == self.cpu_worker_task_size,
            s.gpu_worksizes@ == gpu_worksizes@,
            s.blocktime == self.blocktime,
            s.round is None,
            s.requested == 0,
            s.processed == 0,
    {
        Scheduler::new(
            self.numeric_id,
            self.start_nonce,
            pool_threads(self.cpu_threads),
            self.cpu_worker_task_size,
            gpu_worksizes,
            self.blocktime,
        )
    }

    /// Takes in the best deadline of a task from the scheduler: where it
    /// qualifies under the target deadline of the miner, its submission
    /// comes into the queue.
    pub fn on_nonce_data(&mut self, nonce_data: &NonceData) -> (queued: bool)
        requires
            nonce_data.base_target > 0,
        ensures
            queued == old(self).state.qualifies(nonce_data, old(self).target_deadline),
            final(self).state == (State {
                capacity: nonce_data.capacity,
                best_deadline: if queued {
                    nonce_data.deadline_adjusted
                } else {
                    old(self).state.best_deadline
                },
                ..old(self).state
            }),
            final(self).request_handler.client == old(self).request_handler.client,
            final(self).request_handler.queue == (if queued {
                old(self).request_handler.queue.offer(old(self).state.submission(nonce_data))
            } else {
                old(self).request_handler.queue
            }),
            final(self).cpu_threads == old(self).cpu_threads,
            final(self).cpu_worker_task_size == old(self).cpu_worker_task_size,
            final(self).simd_extensions == old(self).simd_extensions,
            final(self).numeric_id == old(self).numeric_id,
            final(self).start_nonce == old(self).start_nonce,
            final(self).target_deadline == old(self).target_deadline,
            final(self).blocktime == old(self).blocktime,
            final(self).gpus == old(self).gpus,
            final(self).get_mining_info_interval == old(self).get_mining_info_interval,
    {
        match self.state.on_nonce_data(nonce_data, self.target_deadline) {
            Some(candidate) => {
                self.request_handler.submit_nonce(
                    candidate.account_id,
                    candidate.nonce,
                    candidate.height,
                    candidate.block,
                    candidate.deadline_unadjusted,
                    candidate.deadline,
                    candidate.gen_sig,
                );
                true
            },
            None => false,
        }
    }
}

/// Two answers of the pool with the same generation signature, one after
/// the other, begin at most one round: the second begins none.
pub proof fn lemma_same_signature_begins_no_round(
    s0: State,
    first: MiningInfoResponse,
    s1: State,
    r1: Option<RoundInfo>,
    second: MiningInfoResponse,
    s2: State,
    r2: Option<RoundInfo>,
)
    requires
        s0.mining_info_step(&first, &s1, r1),
        s1.mining_info_step(&second, &s2, r2),
        first.generation_signature@ == second.generation_signature@,
    ensures
        r2 is None,
        s2.block == s1.block,
        s2.best_deadline == s1.best_deadline,
{
}

/// When the generation signature changes, what the workers still report
/// for the round before is discarded: the scheduler forwards no deadline
/// that is tagged with the old round counter, and the driver hands on none.
pub proof fn lemma_new_round_discards_old_results(
    pre: State,
    info: MiningInfoResponse,
    post: State,
    round: RoundInfo,
    scheduler: Scheduler,
    height: u64,
    nonce: u64,
    deadline: u64,
    elapsed_ms: u64,
    late: NonceData,
    target_deadline: u64,
)
    requires
        pre.mining_info_step(&info, &post, Some(round)),
        scheduler.round == Some(round),
        late.block == pre.block,
    ensures
        round.block == pre.block + 1,
        scheduler.action(
            HasherMessage::SubmitDeadline((height, pre.block, nonce, deadline)),
            elapsed_ms,
        ) == SchedulerAction::Idle,
        !post.qualifies(&late, target_deadline),
{
}

} // verus!

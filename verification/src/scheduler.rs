//! The round scheduler: splits the nonces of a round into tasks, and decides
//! what each message of a worker leads to.

use crate::cpu_hasher::CpuTask;
use crate::gpu_hasher::GpuTask;
use crate::miner::NonceData;
use vstd::prelude::*;

verus! {

/// What a round is mined against. `block` counts the rounds that the driver
/// has seen; it is not the height of the chain.
#[derive(Clone, Copy, Debug)]
pub struct RoundInfo {
    pub gensig: [u8; 32],
    pub base_target: u64,
    pub scoop: u64,
    pub height: u64,
    pub block: u64,
}

/// A message of a worker to the scheduler.
#[derive(Clone, Copy, Debug)]
pub enum HasherMessage {
    CpuRequestForWork,
    GpuRequestForWork(usize),
    NoncesProcessed(u64),
    /// `(height, block, nonce, deadline)` of the best nonce of a task.
    SubmitDeadline((u64, u64, u64, u64)),
}

impl RoundInfo {
    /// A round can be mined when its base target is not zero and its scoop
    /// is one of the 4096 of a plot.
    pub open spec fn valid(&self) -> bool {
        self.base_target > 0 && self.scoop <= 4095
    }

    /// Tells whether the round can be mined.
    pub fn is_valid(&self) -> (ok: bool)
        ensures
            ok == self.valid(),
    {
        self.base_target > 0 && self.scoop <= 4095
    }
}

/// A run of `len` consecutive nonces from `start` on.
pub struct NonceRange {
    pub start: int,
    pub len: int,
}

impl NonceRange {
    /// Whether `nonce` lies in the range.
    pub open spec fn holds(self, nonce: int) -> bool {
        self.start <= nonce < self.start + self.len
    }
}

/// The number of nonces in `tasks`.
pub open spec fn total(tasks: Seq<NonceRange>) -> int
    decreases tasks.len(),
{
    if tasks.len() == 0 {
        0
    } else {
        total(tasks.drop_last()) + tasks.last().len
    }
}

/// The ranges `tasks` follow one another from nonce `from` on: none is
/// empty, and each begins where the one before it ends.
pub open spec fn tiles(tasks: Seq<NonceRange>, from: int) -> bool
    decreases tasks.len(),
{
    tasks.len() == 0 || (tiles(tasks.drop_last(), from) && tasks.last().len > 0
        && tasks.last().start == from + total(tasks.drop_last()))
}

/// A task on its way to a worker.
#[derive(Clone, Copy, Debug)]
pub enum Dispatch {
    /// A task for a thread of the CPU pool.
    Cpu(CpuTask),
    /// A task for the GPU of the given index.
    Gpu(usize, GpuTask),
}

impl Dispatch {
    /// The nonces of the task.
    pub open spec fn range(self) -> NonceRange {
        match self {
            Dispatch::Cpu(t) => NonceRange {
                start: t.local_startnonce as int,
                len: t.local_nonces as int,
            },
            Dispatch::Gpu(_, t) => NonceRange {
                start: t.local_startnonce as int,
                len: t.local_nonces as int,
            },
        }
    }
}

/// The nonces of each task of `tasks`.
pub open spec fn ranges(tasks: Seq<Dispatch>) -> Seq<NonceRange> {
    tasks.map_values(|d: Dispatch| d.range())
}

/// What the scheduler does on a message.
#[derive(Clone, Copy, Debug)]
pub enum SchedulerAction {
    /// Nothing: no nonces are left, or the message is stale.
    Idle,
    /// Hand the task to its worker.
    Run(Dispatch),
    /// Print the status line for this many processed nonces.
    Status(u64),
    /// Hand the deadline to the driver.
    Forward(NonceData),
}

/// The capacity that a miner emulates which has plotted and scanned
/// `nonces` nonces in `elapsed_ms` milliseconds, for a chain with a block
/// every `blocktime` seconds: `nonces * 250 * blocktime / 1024 / elapsed_ms`.
/// Less than a millisecond counts as one, and a value beyond `u64::MAX` as
/// `u64::MAX`.
pub open spec fn emulated_capacity(nonces: u64, blocktime: u64, elapsed_ms: u64) -> int {
    let exact = nonces * 250 * blocktime / 1024 / (if elapsed_ms == 0 {
        1int
    } else {
        elapsed_ms as int
    });
    if exact > u64::MAX {
        u64::MAX as int
    } else {
        exact
    }
}

/// Computes the emulated capacity.
pub fn capacity(nonces: u64, blocktime: u64, elapsed_ms: u64) -> (c: u64)
    ensures
        c == emulated_capacity(nonces, blocktime, elapsed_ms),
{
    let x: u128 = nonces as u128 * 250;
    let q: u128 = x / 1024;
    let r: u128 = x % 1024;
    let b: u128 = blocktime as u128;
    assert(q * b <= 0x4000_0000_0000_0000_0000_0000_0000_0000) by (nonlinear_arith)
        requires
            q <= 0x4000_0000_0000_0000,
            b <= 0x1_0000_0000_0000_0000,
    ;
    assert(r * b <= 0x400_0000_0000_0000_0000) by (nonlinear_arith)
        requires
            r <= 0x400,
            b <= 0x1_0000_0000_0000_0000,
    ;
    let scaled: u128 = q * b + (r * b) / 1024;
    assert(scaled == nonces * 250 * blocktime / 1024) by (nonlinear_arith)
        requires
            x == nonces * 250,
            q == x / 1024,
            r == x % 1024,
            b == blocktime,
            scaled == q * b + (r * b) / 1024,
    ;
    let d: u128 = if elapsed_ms == 0 {
        1
    } else {
        elapsed_ms as u128
    };
    let c: u128 = scaled / d;
    if c > u64::MAX as u128 {
        u64::MAX
    } else {
        c as u64
    }
}

/// The number of nonces that worker `i` of the kick-off takes at once: the
/// GPUs come first, in their order, then the threads of the CPU pool.
pub open spec fn worker_size(gpu_worksizes: Seq<usize>, cpu_task_size: u64, i: int) -> int {
    if i < gpu_worksizes.len() {
        gpu_worksizes[i] as int
    } else {
        cpu_task_size as int
    }
}

/// The task of `size` nonces from `start` on for worker `i` of the kick-off
/// of `round`, of which the first `gpus` workers are GPUs.
pub open spec fn worker_task(
    numeric_id: u64,
    gpus: nat,
    round: RoundInfo,
    i: int,
    start: u64,
    size: u64,
) -> Dispatch {
    if i < gpus {
        Dispatch::Gpu(
            i as usize,
            GpuTask { numeric_id, local_startnonce: start, local_nonces: size, round },
        )
    } else {
        Dispatch::Cpu(CpuTask { numeric_id, local_startnonce: start, local_nonces: size, round })
    }
}

/// The tasks with which `round` begins for the first `n` workers: each
/// worker in turn gets the nonces that follow those of the workers before
/// it, as many as it takes at once while nonces up to `u64::MAX` are left; a
/// worker for which none is left gets no task.
pub open spec fn kickoff_tasks(
    numeric_id: u64,
    start_nonce: u64,
    gpu_worksizes: Seq<usize>,
    cpu_task_size: u64,
    round: RoundInfo,
    n: nat,
) -> Seq<Dispatch>
    decreases n,
{
    if n == 0 {
        Seq::empty()
    } else {
        let before = kickoff_tasks(
            numeric_id,
            start_nonce,
            gpu_worksizes,
            cpu_task_size,
            round,
            (n - 1) as nat,
        );
        let taken = total(ranges(before));
        let left = u64::MAX - start_nonce - taken;
        let wanted = worker_size(gpu_worksizes, cpu_task_size, n - 1);
        let size = if wanted <= left {
            wanted
        } else {
            left
        };
        if size > 0 {
            before.push(
                worker_task(
                    numeric_id,
                    gpu_worksizes.len(),
                    round,
                    n - 1,
                    (start_nonce + taken) as u64,
                    size as u64,
                ),
            )
        } else {
            before
        }
    }
}

/// The state of the scheduler: its configuration, the current round, and
/// how many nonces of the round have been handed out and reported.
pub struct Scheduler {
    pub numeric_id: u64,
    pub start_nonce: u64,
    pub cpu_threads: u8,
    pub cpu_task_size: u64,
    /// The number of nonces that each GPU takes at once.
    pub gpu_worksizes: Vec<usize>,
    pub blocktime: u64,
    pub round: Option<RoundInfo>,
    pub requested: u64,
    pub processed: u64,
    /// The tasks of the current round, in the order in which they were
    /// handed out.
    pub issued: Ghost<Seq<NonceRange>>,
}

impl Scheduler {
    /// The tasks of the round follow one another from `start_nonce` on and
    /// hold `requested` nonces in all, none beyond `u64::MAX - 1`; the round
    /// is valid.
    pub open spec fn wf(&self) -> bool {
        &&& self.start_nonce + self.requested <= u64::MAX
        &&& tiles(self.issued@, self.start_nonce as int)
        &&& total(self.issued@) == self.requested
        &&& self.round matches Some(r) ==> r.valid()
    }

    /// The same configuration: everything but the round and its counters.
    pub open spec fn same_setup(&self, other: &Scheduler) -> bool {
        &&& self.numeric_id == other.numeric_id
        &&& self.start_nonce == other.start_nonce
        &&& self.cpu_threads == other.cpu_threads
        &&& self.cpu_task_size == other.cpu_task_size
        &&& self.gpu_worksizes@ == other.gpu_worksizes@
        &&& self.blocktime == other.blocktime
    }

    /// The size of the next task for a worker that takes up to `worksize`
    /// nonces at once: what is left of the nonces up to `u64::MAX`, at most
    /// `worksize`.
    pub open spec fn next_size(&self, worksize: int) -> int {
        let remaining = u64::MAX - self.start_nonce - self.requested;
        if worksize <= remaining {
            worksize
        } else {
            remaining
        }
    }

    /// A scheduler that has seen no round yet.
    pub fn new(
        numeric_id: u64,
        start_nonce: u64,
        cpu_threads: u8,
        cpu_task_size: u64,
        gpu_worksizes: Vec<usize>,
        blocktime: u64,
    ) -> (s: Scheduler)
        ensures
            s.wf(),
            s.numeric_id == numeric_id,
            s.start_nonce == start_nonce,
            s.cpu_threads == cpu_threads,
            s.cpu_task_size == cpu_task_size,
            s.gpu_worksizes@ == gpu_worksizes@,
            s.blocktime == blocktime,
            s.round is None,
            s.requested == 0,
            s.processed == 0,
            s.issued@ == Seq::<NonceRange>::empty(),
    {
        Scheduler {
            numeric_id,
            start_nonce,
            cpu_threads,
            cpu_task_size,
            gpu_worksizes,
            blocktime,
            round: None,
            requested: 0,
            processed: 0,
            issued: Ghost(Seq::empty()),
        }
    }

    /// The tasks with which `round` begins: the first task of each GPU and
    /// of each thread of the CPU pool.
    pub open spec fn kickoff(&self, round: RoundInfo) -> Seq<Dispatch> {
        kickoff_tasks(
            self.numeric_id,
            self.start_nonce,
            self.gpu_worksizes@,
            self.cpu_task_size,
            round,
            (self.gpu_worksizes@.len() + self.cpu_threads) as nat,
        )
    }

    /// Begins `round`: forgets the round before, and returns the first task
    /// of each GPU and of each thread of the CPU pool.
    pub fn start_round(&mut self, round: RoundInfo) -> (tasks: Vec<Dispatch>)
        requires
            round.valid(),
        ensures
            final(self).wf(),
            final(self).same_setup(old(self)),
            final(self).round == Some(round),
            final(self).processed == 0,
            tasks@ == old(self).kickoff(round),
            final(self).issued@ == ranges(tasks@),
            final(self).requested == total(ranges(tasks@)),
    {
        self.round = Some(round);
        self.requested = 0;
        self.processed = 0;
        self.issued = Ghost(Seq::empty());
        let mut tasks: Vec<Dispatch> = Vec::new();
        assert(ranges(tasks@) =~= Seq::<NonceRange>::empty());
        let gpus = self.gpu_worksizes.len();
        let mut i: usize = 0;
        while i < gpus
            invariant
                i <= gpus == self.gpu_worksizes@.len(),
                self.wf(),
                self.same_setup(old(self)),
                self.round == Some(round),
                self.processed == 0,
                tasks@ == kickoff_tasks(
                    self.numeric_id,
                    self.start_nonce,
                    self.gpu_worksizes@,
                    self.cpu_task_size,
                    round,
                    i as nat,
                ),
                self.issued@ == ranges(tasks@),
            decreases gpus - i,
        {
            let ghost before = tasks@;
            let (start, size) = self.reserve(self.gpu_worksizes[i] as u64);
            if size > 0 {
                let task = Dispatch::Gpu(
                    i,
                    GpuTask {
                        numeric_id: self.numeric_id,
                        local_startnonce: start,
                        local_nonces: size,
                        round,
                    },
                );
                tasks.push(task);
                assert(ranges(before.push(task)) =~= ranges(before).push(task.range()));
            }
            i += 1;
        }
        let threads = self.cpu_threads;
        let mut j: u8 = 0;
        while j < threads
            invariant
                j <= threads == self.cpu_threads,
                gpus == self.gpu_worksizes@.len(),
                self.wf(),
                self.same_setup(old(self)),
                self.round == Some(round),
                self.processed == 0,
                tasks@ == kickoff_tasks(
                    self.numeric_id,
                    self.start_nonce,
                    self.gpu_worksizes@,
                    self.cpu_task_size,
                    round,
                    (gpus + j) as nat,
                ),
                self.issued@ == ranges(tasks@),
            decreases threads - j,
        {
            let ghost before = tasks@;
            let (start, size) = self.reserve(self.cpu_task_size);
            if size > 0 {
                let task = Dispatch::Cpu(
                    CpuTask {
                        numeric_id: self.numeric_id,
                        local_startnonce: start,
                        local_nonces: size,
                        round,
                    },
                );
                tasks.push(task);
                assert(ranges(before.push(task)) =~= ranges(before).push(task.range()));
            }
            j += 1;
        }
        tasks
    }

    /// What the message `msg` of a worker leads to, `elapsed_ms`
    /// milliseconds into the round.
    pub open spec fn action(&self, msg: HasherMessage, elapsed_ms: u64) -> SchedulerAction {
        match msg {
            HasherMessage::CpuRequestForWork => match self.round {
                Some(round) if self.next_size(self.cpu_task_size as int) > 0 => SchedulerAction::Run(
                    Dispatch::Cpu(
                        CpuTask {
                            numeric_id: self.numeric_id,
                            local_startnonce: (self.start_nonce + self.requested) as u64,
                            local_nonces: self.next_size(self.cpu_task_size as int) as u64,
                            round,
                        },
                    ),
                ),
                _ => SchedulerAction::Idle,
            },
            HasherMessage::GpuRequestForWork(id) => match self.round {
                Some(round) if id < self.gpu_worksizes@.len() && self.next_size(
                    self.gpu_worksizes@[id as int] as int,
                ) > 0 => SchedulerAction::Run(
                    Dispatch::Gpu(
                        id,
                        GpuTask {
                            numeric_id: self.numeric_id,
                            local_startnonce: (self.start_nonce + self.requested) as u64,
                            local_nonces: self.next_size(
                                self.gpu_worksizes@[id as int] as int,
                            ) as u64,
                            round,
                        },
                    ),
                ),
                _ => SchedulerAction::Idle,
            },
            HasherMessage::NoncesProcessed(n) => SchedulerAction::Status(
                if self.processed + n <= u64::MAX {
                    (self.processed + n) as u64
                } else {
                    u64::MAX
                },
            ),
            HasherMessage::SubmitDeadline((height, block, nonce, deadline)) => match self.round {
                Some(round) if block == round.block => SchedulerAction::Forward(
                    NonceData {
                        numeric_id: self.numeric_id,
                        nonce,
                        height,
                        block,
                        deadline,
                        deadline_adjusted: deadline / round.base_target,
                        capacity: emulated_capacity(
                            self.processed,
                            self.blocktime,
                            elapsed_ms,
                        ) as u64,
                        base_target: round.base_target,
                    },
                ),
                _ => SchedulerAction::Idle,
            },
        }
    }

    /// Handles one message of a worker, `elapsed_ms` milliseconds into the
    /// round.
    ///
    /// A request for work is answered with the next task of the round, while
    /// nonces are left and a round is on. Processed nonces are counted, up
    /// to `u64::MAX`. A deadline is forwarded if it is of the current round,
    /// and dropped if not.
    pub fn on_message(&mut self, msg: HasherMessage, elapsed_ms: u64) -> (act: SchedulerAction)
        requires
            old(self).wf(),
        ensures
            final(self).wf(),
            final(self).same_setup(old(self)),
            final(self).round == old(self).round,
            act == old(self).action(msg, elapsed_ms),
            final(self).processed == (match act {
                SchedulerAction::Status(p) => p,
                _ => old(self).processed,
            }),
            final(self).issued@ == (match act {
                SchedulerAction::Run(task) => old(self).issued@.push(task.range()),
                _ => old(self).issued@,
            }),
            final(self).requested == total(final(self).issued@),
    {
        match msg {
            HasherMessage::CpuRequestForWork => {
                match self.round {
                    Some(round) => {
                        let (start, size) = self.reserve(self.cpu_task_size);
                        if size > 0 {
                            SchedulerAction::Run(
                                Dispatch::Cpu(
                                    CpuTask {
                                        numeric_id: self.numeric_id,
                                        local_startnonce: start,
                                        local_nonces: size,
                                        round,
                                    },
                                ),
                            )
                        } else {
                            SchedulerAction::Idle
                        }
                    },
                    None => SchedulerAction::Idle,
                }
            },
            HasherMessage::GpuRequestForWork(id) => {
                match self.round {
                    Some(round) => {
                        if id < self.gpu_worksizes.len() {
                            let (start, size) = self.reserve(self.gpu_worksizes[id] as u64);
                            if size > 0 {
                                SchedulerAction::Run(
                                    Dispatch::Gpu(
                                        id,
                                        GpuTask {
                                            numeric_id: self.numeric_id,
                                            local_startnonce: start,
                                            local_nonces: size,
                                            round,
                                        },
                                    ),
                                )
                            } else {
                                SchedulerAction::Idle
                            }
                        } else {
                            SchedulerAction::Idle
                        }
                    },
                    None => SchedulerAction::Idle,
                }
            },
            HasherMessage::NoncesProcessed(n) => {
                self.processed = self.processed.saturating_add(n);
                SchedulerAction::Status(self.processed)
            },
            HasherMessage::SubmitDeadline((height, block, nonce, deadline)) => {
                match self.round {
                    Some(round) => {
                        if block == round.block {
                            SchedulerAction::Forward(
                                NonceData {
                                    numeric_id: self.numeric_id,
                                    nonce,
                                    height,
                                    block,
                                    deadline,
                                    deadline_adjusted: deadline / round.base_target,
                                    capacity: capacity(self.processed, self.blocktime, elapsed_ms),
                                    base_target: round.base_target,
                                },
                            )
                        } else {
                            SchedulerAction::Idle
                        }
                    },
                    None => SchedulerAction::Idle,
                }
            },
        }
    }

    /// Takes the next nonces of the round for a worker that takes up to
    /// `worksize` at once, and returns the first of them and their number.
    fn reserve(&mut self, worksize: u64) -> (r: (u64, u64))
        requires
            old(self).wf(),
        ensures
            final(self).wf(),
            final(self).same_setup(old(self)),
            final(self).round == old(self).round,
            final(self).processed == old(self).processed,
            r.0 == old(self).start_nonce + old(self).requested,
            r.1 == old(self).next_size(worksize as int),
            final(self).requested == old(self).requested + r.1,
            final(self).issued@ == (if r.1 > 0 {
                old(self).issued@.push(NonceRange { start: r.0 as int, len: r.1 as int })
            } else {
                old(self).issued@
            }),
    {
        let remaining = u64::MAX - self.start_nonce - self.requested;
        let size = if worksize <= remaining {
            worksize
        } else {
            remaining
        };
        let start = self.start_nonce + self.requested;
        if size > 0 {
            proof {
                let range = NonceRange { start: start as int, len: size as int };
                assert(self.issued@.push(range).drop_last() =~= self.issued@);
            }
            self.issued = Ghost(
                self.issued@.push(NonceRange { start: start as int, len: size as int }),
            );
        }
        self.requested = self.requested + size;
        (start, size)
    }
}

/// In every state of the scheduler the tasks of the round hold as many
/// nonces as were requested, and each nonce from the start nonce up to the
/// last one requested lies in exactly one of them; no other nonce lies in
/// any.
pub proof fn lemma_round_covers_each_nonce_once(s: Scheduler, nonce: int)
    requires
        s.wf(),
    ensures
        total(s.issued@) == s.requested,
        s.start_nonce <= nonce < s.start_nonce + s.requested ==> exists|i: int|
            0 <= i < s.issued@.len() && #[trigger] s.issued@[i].holds(nonce) && forall|j: int|
                0 <= j < s.issued@.len() && #[trigger] s.issued@[j].holds(nonce) ==> j == i,
        !(s.start_nonce <= nonce < s.start_nonce + s.requested) ==> forall|j: int|
            0 <= j < s.issued@.len() ==> !#[trigger] s.issued@[j].holds(nonce),
{
    lemma_each_nonce_in_one_task(s.issued@, s.start_nonce as int, nonce);
}

/// A deadline that is tagged with another round than the current one is
/// dropped: nothing is forwarded, and the scheduler stays as it is.
pub proof fn lemma_stale_deadline_is_dropped(
    s: Scheduler,
    height: u64,
    block: u64,
    nonce: u64,
    deadline: u64,
    elapsed_ms: u64,
)
    requires
        s.round matches Some(round) ==> round.block != block,
    ensures
        s.action(HasherMessage::SubmitDeadline((height, block, nonce, deadline)), elapsed_ms)
            == SchedulerAction::Idle,
{
}

/// In tasks that follow one another from `from` on, every nonce from `from`
/// up to the last one handed out lies in exactly one task, and no other
/// nonce lies in any: nothing is plotted twice and nothing is left out.
pub proof fn lemma_each_nonce_in_one_task(tasks: Seq<NonceRange>, from: int, nonce: int)
    requires
        tiles(tasks, from),
    ensures
        total(tasks) >= 0,
        from <= nonce < from + total(tasks) ==> exists|i: int|
            0 <= i < tasks.len() && #[trigger] tasks[i].holds(nonce) && forall|j: int|
                0 <= j < tasks.len() && #[trigger] tasks[j].holds(nonce) ==> j == i,
        !(from <= nonce < from + total(tasks)) ==> forall|j: int|
            0 <= j < tasks.len() ==> !#[trigger] tasks[j].holds(nonce),
    decreases tasks.len(),
{
    if tasks.len() > 0 {
        let front = tasks.drop_last();
        lemma_each_nonce_in_one_task(front, from, nonce);
        if from <= nonce < from + total(tasks) {
            if nonce < from + total(front) {
                let i = choose|i: int|
                    0 <= i < front.len() && #[trigger] front[i].holds(nonce) && forall|j: int|
                        0 <= j < front.len() && #[trigger] front[j].holds(nonce) ==> j == i;
                assert forall|j: int|
                    0 <= j < tasks.len() && #[trigger] tasks[j].holds(nonce) implies j == i by {
                    if j < front.len() {
                        assert(front[j].holds(nonce));
                    }
                }
            } else {
                let i = tasks.len() - 1;
                assert(tasks[i].holds(nonce));
                assert forall|j: int|
                    0 <= j < tasks.len() && #[trigger] tasks[j].holds(nonce) implies j == i by {
                    if j < front.len() {
                        assert(!front[j].holds(nonce));
                    }
                }
            }
        } else {
            assert forall|j: int| 0 <= j < tasks.len() implies !#[trigger] tasks[j].holds(
                nonce,
            ) by {
                if j < front.len() {
                    assert(!front[j].holds(nonce));
                }
            }
        }
    }
}

} // verus!

//! The CPU worker: plots the nonces of one task, scans them, and reports.

use crate::poc_hashing::{
    find_best_deadline_rust, noncegen_rust, plot, plot_deadline, NONCE_SIZE,
};
use crate::scheduler::{HasherMessage, RoundInfo};
use vstd::prelude::*;

verus! {

/// The widest vector extension that the CPU offers for hashing; `Scalar`
/// where it offers none.
#[derive(Debug, Clone, Copy)]
pub enum SimdExtension {
    AVX512f,
    AVX2,
    AVX,
    SSE2,
    Scalar,
}

/// A range of nonces to plot and scan on a CPU thread.
#[derive(Clone, Copy, Debug)]
pub struct CpuTask {
    pub numeric_id: u64,
    pub local_startnonce: u64,
    pub local_nonces: u64,
    pub round: RoundInfo,
}

/// The deadline of nonce `nonce` of account `id` in `round`.
pub open spec fn nonce_deadline(id: u64, nonce: u64, round: RoundInfo) -> u64 {
    plot_deadline(plot(id, nonce), 0, round.scoop as int, round.gensig@)
}

/// `best` is the smallest deadline among the nonces of `task`, and `offset`
/// the place in the task of the first nonce that has it. Of no nonces the
/// best is `u64::MAX` at offset 0.
pub open spec fn is_best_of_task(task: CpuTask, best: u64, offset: u64) -> bool {
    if task.local_nonces == 0 {
        best == u64::MAX && offset == 0
    } else {
        &&& offset < task.local_nonces
        &&& best == nonce_deadline(
            task.numeric_id,
            (task.local_startnonce + offset) as u64,
            task.round,
        )
        &&& forall|j: int|
            0 <= j < task.local_nonces ==> best <= #[trigger] nonce_deadline(
                task.numeric_id,
                (task.local_startnonce + j) as u64,
                task.round,
            )
        &&& forall|j: int|
            0 <= j < offset ==> best < #[trigger] nonce_deadline(
                task.numeric_id,
                (task.local_startnonce + j) as u64,
                task.round,
            )
    }
}

/// A task has one best deadline and one nonce that has it first: whatever
/// way the plots are computed, by whatever vector extension, the report of
/// the task is the same.
pub proof fn lemma_best_of_task_is_unique(
    task: CpuTask,
    best: u64,
    offset: u64,
    other_best: u64,
    other_offset: u64,
)
    requires
        is_best_of_task(task, best, offset),
        is_best_of_task(task, other_best, other_offset),
    ensures
        best == other_best,
        offset == other_offset,
{
    if task.local_nonces > 0 {
        assert(best <= nonce_deadline(
            task.numeric_id,
            (task.local_startnonce + other_offset) as u64,
            task.round,
        ));
        assert(other_best <= nonce_deadline(
            task.numeric_id,
            (task.local_startnonce + offset) as u64,
            task.round,
        ));
    }
}

/// In a buffer that holds the plots of a task one after the other, the
/// deadline of plot `i` is that of the `i`-th nonce of the task.
proof fn lemma_plot_deadline_in_buffer(data: Seq<u8>, i: int, id: u64, nonce: u64, round: RoundInfo)
    requires
        0 <= i,
        (i + 1) * NONCE_SIZE <= data.len(),
        round.scoop <= 4095,
        data.subrange(i * NONCE_SIZE, (i + 1) * NONCE_SIZE) == plot(id, nonce),
    ensures
        plot_deadline(data, i, round.scoop as int, round.gensig@) == nonce_deadline(
            id,
            nonce,
            round,
        ),
{
    let p = data.subrange(i * NONCE_SIZE, (i + 1) * NONCE_SIZE);
    let first = round.scoop * 64;
    let second = (4095 - round.scoop) * 64 + 32;
    assert(data.subrange(i * NONCE_SIZE + first, i * NONCE_SIZE + first + 32) =~= p.subrange(
        first,
        first + 32,
    ));
    assert(data.subrange(i * NONCE_SIZE + second, i * NONCE_SIZE + second + 32) =~= p.subrange(
        second,
        second + 32,
    ));
}

/// Works off one task: plots its nonces into a buffer of its own, scans
/// them at the scoop of the round, and returns the three messages of the
/// report in the order in which they are sent: the best deadline with its
/// nonce, the number of nonces done, and the request for more work.
///
/// Every vector extension yields the same plots and deadlines, so the
/// report does not depend on `simd_ext`.
pub fn hash_cpu(hasher_task: &CpuTask, simd_ext: SimdExtension) -> (report: [HasherMessage; 3])
    requires
        hasher_task.round.scoop <= 4095,
        hasher_task.local_nonces * NONCE_SIZE <= usize::MAX,
        hasher_task.local_startnonce + hasher_task.local_nonces <= u64::MAX + 1,
    ensures
        report[0] matches HasherMessage::SubmitDeadline((height, block, nonce, deadline))
            && height == hasher_task.round.height && block == hasher_task.round.block
            && hasher_task.local_startnonce <= nonce && is_best_of_task(
            *hasher_task,
            deadline,
            (nonce - hasher_task.local_startnonce) as u64,
        ),
        report[1] == HasherMessage::NoncesProcessed(hasher_task.local_nonces),
        report[2] == HasherMessage::CpuRequestForWork,
{
    let count = hasher_task.local_nonces;
    let mut buffer: Vec<u8> = vec![0u8; count as usize * NONCE_SIZE];
    noncegen_rust(
        buffer.as_mut_slice(),
        hasher_task.numeric_id,
        hasher_task.local_startnonce,
        count,
    );
    let (deadline, offset) = find_best_deadline_rust(
        buffer.as_slice(),
        hasher_task.round.scoop,
        count,
        &hasher_task.round.gensig,
    );
    proof {
        let task = *hasher_task;
        assert forall|j: int| 0 <= j < count implies plot_deadline(
            buffer@,
            j,
            task.round.scoop as int,
            task.round.gensig@,
        ) == #[trigger] nonce_deadline(
            task.numeric_id,
            (task.local_startnonce + j) as u64,
            task.round,
        ) by {
            assert((j + 1) * NONCE_SIZE <= count * NONCE_SIZE) by (nonlinear_arith)
                requires
                    j < count,
            ;
            lemma_plot_deadline_in_buffer(
                buffer@,
                j,
                task.numeric_id,
                (task.local_startnonce + j) as u64,
                task.round,
            );
        }
    }
    [
        HasherMessage::SubmitDeadline(
            (
                hasher_task.round.height,
                hasher_task.round.block,
                hasher_task.local_startnonce + offset,
                deadline,
            ),
        ),
        HasherMessage::NoncesProcessed(count),
        HasherMessage::CpuRequestForWork,
    ]
}

} // verus!

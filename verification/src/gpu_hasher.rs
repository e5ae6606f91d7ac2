//! The GPU worker's side of the protocol: its tasks, the slices in which a
//! device plots, and its report.

use crate::scheduler::{HasherMessage, RoundInfo};
use vstd::prelude::*;

verus! {

/// A range of nonces to plot and scan on a GPU.
#[derive(Clone, Copy, Debug)]
pub struct GpuTask {
    pub numeric_id: u64,
    pub local_startnonce: u64,
    pub local_nonces: u64,
    pub round: RoundInfo,
}

/// Number of hashes of a plot that a device computes in one run of its
/// plotting kernel.
pub const GPU_HASHES_PER_RUN: usize = 32;

/// Number of hashes in the chain of a plot.
pub const HASHES_PER_NONCE: usize = 8192;

/// The bounds `(start, end)` that the plotting kernel gets for the run that
/// begins at hash `i` of the chain: the run ends before the next one begins,
/// and the last run ends with the chain.
pub open spec fn run_bounds(i: int) -> (int, int) {
    if i + GPU_HASHES_PER_RUN < HASHES_PER_NONCE {
        (i, i + GPU_HASHES_PER_RUN - 1)
    } else {
        (i, i + GPU_HASHES_PER_RUN)
    }
}

/// Computes the bounds of the run of the plotting kernel that begins at
/// hash `i` of the chain.
pub fn hash_run(i: usize) -> (r: (i32, i32))
    requires
        i < HASHES_PER_NONCE,
    ensures
        (r.0 as int, r.1 as int) == run_bounds(i as int),
{
    if i + GPU_HASHES_PER_RUN < HASHES_PER_NONCE {
        (i as i32, (i + GPU_HASHES_PER_RUN - 1) as i32)
    } else {
        (i as i32, (i + GPU_HASHES_PER_RUN) as i32)
    }
}

/// The runs in which a device plots: one every `GPU_HASHES_PER_RUN` hashes
/// of the chain, in order.
pub fn hash_runs() -> (runs: Vec<(i32, i32)>)
    ensures
        runs@.len() == HASHES_PER_NONCE / GPU_HASHES_PER_RUN,
        forall|k: int|
            0 <= k < runs@.len() ==> (runs@[k].0 as int, runs@[k].1 as int) == run_bounds(
                k * GPU_HASHES_PER_RUN,
            ),
{
    let mut runs: Vec<(i32, i32)> = Vec::new();
    let mut i: usize = 0;
    while i < HASHES_PER_NONCE
        invariant
            i <= HASHES_PER_NONCE,
            i == runs@.len() * GPU_HASHES_PER_RUN,
            forall|k: int|
                0 <= k < runs@.len() ==> (runs@[k].0 as int, runs@[k].1 as int) == run_bounds(
                    k * GPU_HASHES_PER_RUN,
                ),
        decreases HASHES_PER_NONCE - i,
    {
        runs.push(hash_run(i));
        i += GPU_HASHES_PER_RUN;
    }
    runs
}

/// The report of a GPU on a task of which the device found `deadline` to be
/// the best, at place `offset`: the three messages in the order in which
/// they are sent. There is no report where `offset` is not a place in the
/// task: the device has failed.
pub open spec fn gpu_report(gpu_id: usize, task: GpuTask, deadline: u64, offset: u64) -> Option<
    Seq<HasherMessage>,
> {
    if offset < task.local_nonces && task.local_startnonce + offset <= u64::MAX {
        Some(
            seq![
                HasherMessage::NoncesProcessed(task.local_nonces),
                HasherMessage::SubmitDeadline(
                    (
                        task.round.height,
                        task.round.block,
                        (task.local_startnonce + offset) as u64,
                        deadline,
                    ),
                ),
                HasherMessage::GpuRequestForWork(gpu_id),
            ],
        )
    } else {
        None
    }
}

/// Puts together the report of GPU `gpu_id` on `task`, given what the
/// device found.
pub fn report_gpu_task(gpu_id: usize, task: &GpuTask, deadline: u64, offset: u64) -> (report:
    Option<[HasherMessage; 3]>)
    ensures
        match report {
            Some(messages) => gpu_report(gpu_id, *task, deadline, offset) == Some(messages@),
            None => gpu_report(gpu_id, *task, deadline, offset) is None,
        },
{
    if offset >= task.local_nonces {
        return None;
    }
    match task.local_startnonce.checked_add(offset) {
        Some(nonce) => {
            let messages = [
                HasherMessage::NoncesProcessed(task.local_nonces),
                HasherMessage::SubmitDeadline(
                    (task.round.height, task.round.block, nonce, deadline),
                ),
                HasherMessage::GpuRequestForWork(gpu_id),
            ];
            Some(messages)
        },
        None => None,
    }
}

} // verus!

//! The parallel runner: serves the engine's "run these work items on some
//! threads" protocol from a thread pool of the host.
//!
//! The engine hands over two callbacks and a range of indices. The first
//! callback is told the number of lanes and may refuse the region. The second
//! is the work: it is invoked once for each index of the range, with the
//! index and the lane that runs it. Lanes are reused, and two items of one
//! lane may run at the same time.

use vstd::prelude::*;
use rayon::iter::{IntoParallelIterator, ParallelIterator};
use crate::codes::{PARALLEL_RET_RUNNER_ERROR, PARALLEL_RET_SUCCESS};

verus! {

/// `rayon::ThreadPool`: a pool of worker threads. Nothing is known of its inside.
#[verifier::external_type_specification]
#[verifier::external_body]
pub struct ExThreadPool(rayon::ThreadPool);

/// `rayon::current_num_threads`: the number of threads of the pool that the
/// caller runs in, or of the global pool. It depends on the machine and on
/// how the pool was built, so nothing is claimed of it.
pub assume_specification[ rayon::current_num_threads ]() -> (n: usize)
;

/// `rayon::current_thread_index`: the index of the calling thread in its
/// pool, or nothing for a thread of no pool. It depends on which thread
/// runs the caller, so nothing is claimed of it.
pub assume_specification[ rayon::current_thread_index ]() -> (index: Option<usize>)
;

/// The lane of a work item that runs on the pool thread with index
/// `thread`: that index, and lane 0 for a thread outside the pool.
pub open spec fn lane_of(thread: Option<usize>) -> usize {
    match thread {
        Some(index) => index,
        None => 0,
    }
}

/// What the answer of the initialisation callback means for the region:
/// zero lets it run, and any other code ends it with that code.
pub open spec fn init_verdict(code: i32) -> Result<(), i32> {
    if code == 0 {
        Ok(())
    } else {
        Err(code)
    }
}

/// The work function `func` has returned `done` for the index `index`, in
/// some lane.
pub open spec fn served<F: Fn(u32, usize)>(func: F, index: u32, done: ()) -> bool {
    exists|lane: usize| #[trigger] call_ensures(func, (index, lane), done)
}

/// What a region over the indices from `start` up to, not including, `end`
/// returns, given its callbacks. Without one of them the runner cannot
/// schedule the region. Else the region returns what the initialisation
/// answered: a refusal as it is, and zero, which is also the code of
/// success, after the work function has returned for every index.
pub open spec fn region_result<I: FnOnce(usize) -> i32, F: Fn(u32, usize)>(
    init: Option<I>,
    func: Option<F>,
    start: u32,
    end: u32,
    r: i32,
) -> bool {
    match (init, func) {
        (Some(i), Some(f)) => {
            &&& exists|lanes: usize| #[trigger] call_ensures(i, (lanes,), r)
            &&& r == PARALLEL_RET_SUCCESS ==> forall|index: u32|
                start <= index < end ==> #[trigger] served(f, index, ())
        },
        _ => r == PARALLEL_RET_RUNNER_ERROR,
    }
}

/// Decides on the answer of the initialisation callback whether the region runs.
pub fn check_init(code: i32) -> (r: Result<(), i32>)
    ensures
        r == init_verdict(code),
{
    if code != 0 {
        Err(code)
    } else {
        Ok(())
    }
}

/// Says in which lane a work item runs on the pool thread with index
/// `thread`.
pub fn lane(thread: Option<usize>) -> (r: usize)
    ensures
        r == lane_of(thread),
{
    match thread {
        Some(index) => index,
        None => 0,
    }
}

/// Runs one work item on the calling thread, in the lane of that thread.
pub fn run_item<F: Fn(u32, usize)>(func: &F, index: u32) -> (done: ())
    requires
        forall|lane: usize| call_requires(*func, (index, lane)),
    ensures
        served(*func, index, done),
{
    let lane = lane(rayon::current_thread_index());
    func(index, lane)
}

/// `rayon`'s parallel iterator over a range of `u32`, with its `for_each`:
/// runs [`run_item`] on every index from `start` up to, not including,
/// `end`, on the threads of the pool that the caller is in, and returns when
/// all have returned. So when it returns, the work function has returned
/// for every index of the range.
#[verifier::external_body]
fn for_each_index<F: Fn(u32, usize) + Send + Sync>(func: &F, start: u32, end: u32) -> (done: ())
    requires
        forall|index: u32, lane: usize| start <= index < end ==> call_requires(*func, (index, lane)),
    ensures
        forall|index: u32| start <= index < end ==> #[trigger] served(*func, index, done),
{
    (start..end).into_par_iter().for_each(|index| run_item(func, index));
}

/// Runs one parallel region in the pool that the caller is in. The
/// initialisation is told the number of threads of that pool; if it answers
/// anything but zero, no work is started and that answer is the result. Else
/// `func` is invoked once for every index from `start_range` up to, not
/// including, `end_range`, and the call returns when all invocations have
/// returned.
pub fn run_inner<I, F>(init: Option<I>, func: Option<F>, start_range: u32, end_range: u32) -> (r:
    i32) where I: FnOnce(usize) -> i32, F: Fn(u32, usize) + Send + Sync
    requires
        init matches Some(i) ==> forall|lanes: usize| call_requires(i, (lanes,)),
        func matches Some(f) ==> forall|index: u32, lane: usize|
            start_range <= index < end_range ==> call_requires(f, (index, lane)),
    ensures
        region_result(init, func, start_range, end_range, r),
{
    let init_fn = match init {
        Some(i) => i,
        None => {
            return PARALLEL_RET_RUNNER_ERROR;
        },
    };
    let func_fn = match func {
        Some(f) => f,
        None => {
            return PARALLEL_RET_RUNNER_ERROR;
        },
    };
    let lanes = rayon::current_num_threads();
    let code = init_fn(lanes);
    match check_init(code) {
        Err(refusal) => refusal,
        Ok(()) => {
            for_each_index(&func_fn, start_range, end_range);
            PARALLEL_RET_SUCCESS
        },
    }
}

/// `rayon::ThreadPool::install`: runs [`run_inner`] inside `pool` and
/// returns what it returned.
#[verifier::external_body]
fn install_region<I, F>(
    pool: &rayon::ThreadPool,
    init: Option<I>,
    func: Option<F>,
    start_range: u32,
    end_range: u32,
) -> (r: i32) where I: FnOnce(usize) -> i32 + Send, F: Fn(u32, usize) + Send + Sync
    requires
        init matches Some(i) ==> forall|lanes: usize| call_requires(i, (lanes,)),
        func matches Some(f) ==> forall|index: u32, lane: usize|
            start_range <= index < end_range ==> call_requires(f, (index, lane)),
    ensures
        region_result(init, func, start_range, end_range, r),
{
    pool.install(|| run_inner(init, func, start_range, end_range))
}

/// Runs one parallel region for the engine: in `pool` where the session was
/// given one, else in the pool that the caller is in.
pub fn rayon_parallel_runner<I, F>(
    pool: Option<&rayon::ThreadPool>,
    init: Option<I>,
    func: Option<F>,
    start_range: u32,
    end_range: u32,
) -> (r: i32) where I: FnOnce(usize) -> i32 + Send, F: Fn(u32, usize) + Send + Sync
    requires
        init matches Some(i) ==> forall|lanes: usize| call_requires(i, (lanes,)),
        func matches Some(f) ==> forall|index: u32, lane: usize|
            start_range <= index < end_range ==> call_requires(f, (index, lane)),
    ensures
        region_result(init, func, start_range, end_range, r),
{
    match pool {
        Some(pool) => install_region(pool, init, func, start_range, end_range),
        None => run_inner(init, func, start_range, end_range),
    }
}

} // verus!

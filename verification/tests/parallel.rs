use jexcel::parallel_runner::{check_init, lane, rayon_parallel_runner, run_inner, run_item};
use std::sync::atomic::{AtomicUsize, Ordering};

type Init = fn(usize) -> i32;
type Work = fn(u32, usize);

fn counters(n: usize) -> Vec<AtomicUsize> {
    (0..n).map(|_| AtomicUsize::new(0)).collect()
}

#[test]
fn every_index_is_visited_exactly_once() {
    for n in [0u32, 1, 2, 31, 1000, 20000] {
        let visits = counters(n as usize);
        let result = run_inner(
            Some(|_lanes: usize| 0),
            Some(|index: u32, _lane: usize| {
                visits[index as usize].fetch_add(1, Ordering::Relaxed);
            }),
            0,
            n,
        );
        assert_eq!(result, 0);
        assert!(visits.iter().all(|count| count.load(Ordering::Relaxed) == 1));
    }
}

#[test]
fn range_is_half_open_and_need_not_begin_at_zero() {
    let visits = counters(100);
    let result = run_inner(
        Some(|_lanes: usize| 0),
        Some(|index: u32, _lane: usize| {
            visits[index as usize].fetch_add(1, Ordering::Relaxed);
        }),
        20,
        70,
    );
    assert_eq!(result, 0);
    for (index, count) in visits.iter().enumerate() {
        let expected = if (20..70).contains(&index) { 1 } else { 0 };
        assert_eq!(count.load(Ordering::Relaxed), expected, "index {index}");
    }
}

#[test]
fn lanes_are_those_of_the_pool() {
    let pool = rayon::ThreadPoolBuilder::new().num_threads(3).build().unwrap();
    let told = AtomicUsize::new(0);
    let highest = AtomicUsize::new(0);
    let visits = counters(5000);
    let result = rayon_parallel_runner(
        Some(&pool),
        Some(|lanes: usize| {
            told.store(lanes, Ordering::Relaxed);
            0
        }),
        Some(|index: u32, lane: usize| {
            highest.fetch_max(lane, Ordering::Relaxed);
            visits[index as usize].fetch_add(1, Ordering::Relaxed);
        }),
        0,
        5000,
    );
    assert_eq!(result, 0);
    assert_eq!(told.load(Ordering::Relaxed), 3);
    assert!(highest.load(Ordering::Relaxed) < 3);
    assert!(visits.iter().all(|count| count.load(Ordering::Relaxed) == 1));
}

#[test]
fn without_a_pool_the_region_runs_where_the_caller_is() {
    let visits = counters(300);
    let told = AtomicUsize::new(0);
    let result = rayon_parallel_runner(
        None,
        Some(|lanes: usize| {
            told.store(lanes, Ordering::Relaxed);
            0
        }),
        Some(|index: u32, lane: usize| {
            assert!(lane < rayon::current_num_threads());
            visits[index as usize].fetch_add(1, Ordering::Relaxed);
        }),
        0,
        300,
    );
    assert_eq!(result, 0);
    assert_eq!(told.load(Ordering::Relaxed), rayon::current_num_threads());
    assert!(visits.iter().all(|count| count.load(Ordering::Relaxed) == 1));
}

#[test]
fn missing_callback_is_a_runner_error() {
    let ran = AtomicUsize::new(0);
    let work = |_index: u32, _lane: usize| {
        ran.fetch_add(1, Ordering::Relaxed);
    };
    let init = |_lanes: usize| {
        ran.fetch_add(1, Ordering::Relaxed);
        0
    };
    assert_eq!(run_inner(None::<Init>, Some(work), 0, 10), -1);
    assert_eq!(run_inner(Some(init), None::<Work>, 0, 10), -1);
    assert_eq!(run_inner(None::<Init>, None::<Work>, 0, 10), -1);
    let pool = rayon::ThreadPoolBuilder::new().num_threads(2).build().unwrap();
    assert_eq!(rayon_parallel_runner(Some(&pool), None::<Init>, Some(work), 0, 10), -1);
    // Neither callback was invoked.
    assert_eq!(ran.load(Ordering::Relaxed), 0);
}

#[test]
fn refused_region_starts_no_work() {
    for code in [1i32, -1, 42, i32::MIN] {
        let ran = AtomicUsize::new(0);
        let result = run_inner(
            Some(|_lanes: usize| code),
            Some(|_index: u32, _lane: usize| {
                ran.fetch_add(1, Ordering::Relaxed);
            }),
            0,
            100,
        );
        assert_eq!(result, code);
        assert_eq!(ran.load(Ordering::Relaxed), 0);
    }
    assert_eq!(check_init(0), Ok(()));
    assert_eq!(check_init(7), Err(7));
    assert_eq!(check_init(-1), Err(-1));
}

#[test]
fn work_outside_a_pool_runs_in_lane_0() {
    let seen = AtomicUsize::new(usize::MAX);
    let work = |index: u32, lane: usize| {
        assert_eq!(index, 9);
        seen.store(lane, Ordering::Relaxed);
    };
    // The thread of a test belongs to no pool.
    run_item(&work, 9);
    assert_eq!(seen.load(Ordering::Relaxed), 0);
    assert_eq!(lane(None), 0);
    assert_eq!(lane(Some(0)), 0);
    assert_eq!(lane(Some(5)), 5);
}

#[test]
fn work_in_a_pool_runs_in_the_lane_of_its_thread() {
    let pool = rayon::ThreadPoolBuilder::new().num_threads(2).build().unwrap();
    let seen = AtomicUsize::new(usize::MAX);
    let expected = pool.install(|| {
        run_item(
            &|_index: u32, lane: usize| {
                seen.store(lane, Ordering::Relaxed);
            },
            3,
        );
        rayon::current_thread_index()
    });
    assert_eq!(Some(seen.load(Ordering::Relaxed)), expected);
}

use biscuit_packing::error::Error;
use biscuit_packing::layout::{initial_layout, trim_to, MAX_SHRINKS};
use rand::rngs::SmallRng;
use rand::SeedableRng;

fn sorted(mut v: Vec<u32>) -> Vec<u32> {
    v.sort();
    v
}

#[test]
fn trim_keeps_exactly_n_of_the_samples() {
    let mut rng = SmallRng::seed_from_u64(1);
    let original: Vec<u32> = (0..50).collect();
    let mut samples = original.clone();
    trim_to(&mut samples, 7, &mut rng);
    assert_eq!(samples.len(), 7);
    let kept = sorted(samples);
    for w in kept.windows(2) {
        assert!(w[0] < w[1], "an item was kept twice");
    }
    assert!(kept.iter().all(|x| original.contains(x)));
}

#[test]
fn trim_leaves_short_vectors_alone() {
    let mut rng = SmallRng::seed_from_u64(2);
    let mut samples = vec![4_u32, 1, 9];
    trim_to(&mut samples, 3, &mut rng);
    assert_eq!(samples, vec![4, 1, 9]);
    trim_to(&mut samples, 10, &mut rng);
    assert_eq!(samples, vec![4, 1, 9]);
}

#[test]
fn trim_to_zero_empties() {
    let mut rng = SmallRng::seed_from_u64(3);
    let mut samples = vec![1_u32, 2, 3];
    trim_to(&mut samples, 0, &mut rng);
    assert!(samples.is_empty());
}

#[test]
fn trim_removes_every_position_sometimes() {
    // The last candidate must be removable as well as the others.
    let mut last_removed = false;
    for seed in 0..200 {
        let mut rng = SmallRng::seed_from_u64(seed);
        let mut samples = vec![0_u32, 1, 2, 3];
        trim_to(&mut samples, 3, &mut rng);
        if !samples.contains(&3) {
            last_removed = true;
        }
    }
    assert!(last_removed);
}

#[test]
fn zero_biscuits_is_an_error() {
    let mut rng = SmallRng::seed_from_u64(4);
    let r = initial_layout(0, |_k| vec![1_u32, 2, 3], &mut rng);
    assert_eq!(r, Err(Error::BiscuitsBelowOne));
}

#[test]
fn layout_has_exactly_n_points() {
    for n in [1_usize, 2, 3, 5, 8, 13, 21, 100] {
        let mut rng = SmallRng::seed_from_u64(5);
        let r = initial_layout(n, |_k| (0..200_u32).collect::<Vec<_>>(), &mut rng).unwrap();
        assert_eq!(r.len(), n);
        assert!(r.iter().all(|x| *x < 200));
    }
}

#[test]
fn layout_is_deterministic_under_a_seed() {
    let generate = |k: u32| (0..(40 + k)).collect::<Vec<u32>>();
    let mut a = SmallRng::seed_from_u64(17);
    let mut b = SmallRng::seed_from_u64(17);
    let first = initial_layout(9, generate, &mut a).unwrap();
    let second = initial_layout(9, generate, &mut b).unwrap();
    assert_eq!(first, second);
}

#[test]
fn layout_retries_until_enough_candidates() {
    // Each attempt doubles the candidate count: 1, 2, 4, 8, 16, ...
    let generate = |k: u32| (0..(1_u32 << k)).collect::<Vec<u32>>();
    let mut rng = SmallRng::seed_from_u64(6);
    let r = initial_layout(10, generate, &mut rng).unwrap();
    assert_eq!(r.len(), 10);
    assert!(r.iter().all(|x| *x < 16));
}

#[test]
fn layout_with_exactly_n_candidates_keeps_them_all() {
    let mut rng = SmallRng::seed_from_u64(7);
    let r = initial_layout(4, |_k| vec![10_u32, 20, 30, 40], &mut rng).unwrap();
    assert_eq!(r, vec![10, 20, 30, 40]);
}

#[test]
fn layout_gives_up_after_the_last_shrink() {
    let calls = std::cell::Cell::new(0_u32);
    let mut rng = SmallRng::seed_from_u64(8);
    let r = initial_layout(
        5,
        |_k| {
            calls.set(calls.get() + 1);
            vec![1_u32, 2]
        },
        &mut rng,
    );
    assert_eq!(r, Err(Error::UnderSampled));
    assert_eq!(calls.get(), MAX_SHRINKS + 1);
}

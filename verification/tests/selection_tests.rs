use std::collections::HashMap;

use jukebox::replay::ReplayWindow;
use jukebox::selection::{pick_weighted, rng, weight_of_rating, Scale, SelectionError};

#[test]
fn test_vec_rng() {
    println!("test_vec_rng");
    let map = vec![
        (100u32, 100i32),
        (200u32, 200i32),
        (300u32, 300i32),
        (100u32, 400i32),
        (50u32, 500i32),
        (250u32, 600i32),
        (100u32, i32::MAX),
        (100u32, i32::MIN),
        (100u32, 0),
    ];

    let mut hash = HashMap::<i32, usize>::new();

    for _ in 0..1300000 {
        let out = rng(&map).unwrap_or_default();
        let val = *hash.get(&out).unwrap_or(&0);
        hash.insert(out, val + 1);
    }
    println!("{hash:#?}");
    assert!(*hash.get(&100).unwrap_or(&0) > 95_000);
    assert!(*hash.get(&100).unwrap_or(&0) < 105_000);

    assert!(*hash.get(&200).unwrap_or(&0) > 195_000);
    assert!(*hash.get(&200).unwrap_or(&0) < 205_000);

    assert!(*hash.get(&300).unwrap_or(&0) > 295_000);
    assert!(*hash.get(&300).unwrap_or(&0) < 305_000);

    assert!(*hash.get(&400).unwrap_or(&0) > 95_000);
    assert!(*hash.get(&400).unwrap_or(&0) < 105_000);

    assert!(*hash.get(&i32::MAX).unwrap_or(&0) > 95_000);
    assert!(*hash.get(&i32::MAX).unwrap_or(&0) < 105_000);

    assert!(*hash.get(&i32::MIN).unwrap_or(&0) > 95_000);
    assert!(*hash.get(&i32::MIN).unwrap_or(&0) < 105_000);

    assert!(*hash.get(&0).unwrap_or(&0) > 95_000);
    assert!(*hash.get(&0).unwrap_or(&0) < 105_000);

    assert!(*hash.get(&500).unwrap_or(&0) > 45_000);
    assert!(*hash.get(&500).unwrap_or(&0) < 55_000);

    assert!(*hash.get(&600).unwrap_or(&0) > 245_000);
    assert!(*hash.get(&600).unwrap_or(&0) < 255_000);
}

#[test]
fn rng_empty_population_fails() {
    let map: Vec<(u32, i32)> = vec![];
    assert_eq!(rng(&map), Err(SelectionError::EmptyPopulation));
}

#[test]
fn rng_all_zero_weights_fails() {
    let map = vec![(0u32, 1i32), (0u32, 2i32)];
    assert_eq!(rng(&map), Err(SelectionError::EmptyPopulation));
}

#[test]
fn rng_never_draws_zero_weight() {
    let map = vec![(0u32, 1i32), (7u32, 2i32), (0u32, 3i32)];
    for _ in 0..100 {
        assert_eq!(rng(&map), Ok(2));
    }
}

#[test]
fn default_scale_weights_follow_the_exponential_ladder() {
    let scale = Scale::default_scale();
    let expected = [1u32, 3, 6, 16, 39, 98, 244];
    for (i, want) in expected.iter().enumerate() {
        let rating = (i + 1) as u32;
        assert_eq!(weight_of_rating(&scale, rating), *want);
    }
}

#[test]
fn integer_scale_weights_are_exact_powers() {
    let scale = Scale::new(3, 1).unwrap();
    let expected = [1u32, 3, 9, 27, 81, 243, 729];
    for (i, want) in expected.iter().enumerate() {
        let rating = (i + 1) as u32;
        assert_eq!(weight_of_rating(&scale, rating), *want);
    }
}

#[test]
fn fractional_scale_weights_round_half_away_from_zero() {
    // One half: 0.5^0 = 1, 0.5^1 = 0.5 rounds to 1, 0.5^2 = 0.25 rounds to 0.
    let scale = Scale::new(1, 2).unwrap();
    assert_eq!(weight_of_rating(&scale, 1), 1);
    assert_eq!(weight_of_rating(&scale, 2), 1);
    assert_eq!(weight_of_rating(&scale, 3), 0);
    assert_eq!(weight_of_rating(&scale, 7), 0);
}

#[test]
fn the_top_weight_saturates_rather_than_overflowing() {
    let scale = Scale::new(1_000_000, 1).unwrap();
    assert_eq!(weight_of_rating(&scale, 7), u32::MAX);
}

#[test]
fn scale_rejects_zero_denominator() {
    assert!(Scale::new(5, 0).is_none());
    assert!(Scale::new(5, 2).is_some());
    assert!(Scale::new(2_000_000, 2).is_none());
}

#[test]
fn pick_weighted_empty_population() {
    let mut window = ReplayWindow::new();
    let pairs: Vec<(u32, i32)> = vec![];
    let scale = Scale::default_scale();
    assert_eq!(
        pick_weighted(&pairs, &scale, &mut window),
        Err(SelectionError::EmptyPopulation)
    );
    assert_eq!(window.len(), 0);
}

#[test]
fn pick_weighted_all_weights_zero_is_empty_population() {
    // On scale one half every rating from three up weighs zero.
    let scale = Scale::new(1, 2).unwrap();
    let mut window = ReplayWindow::new();
    let pairs = vec![(3u32, 10i32), (4u32, 11i32)];
    assert_eq!(
        pick_weighted(&pairs, &scale, &mut window),
        Err(SelectionError::EmptyPopulation)
    );
}

#[test]
fn pick_weighted_single_candidate_is_served_and_recorded() {
    let mut window = ReplayWindow::new();
    let pairs = vec![(5u32, 42i32)];
    let scale = Scale::default_scale();
    assert_eq!(pick_weighted(&pairs, &scale, &mut window), Ok(42));
    assert!(window.contains(42));
}

#[test]
fn pick_weighted_exhausts_when_all_candidates_are_recent() {
    let mut window = ReplayWindow::new();
    let pairs = vec![(5u32, 1i32), (5u32, 2i32)];
    let scale = Scale::default_scale();
    let first = pick_weighted(&pairs, &scale, &mut window).unwrap();
    let second = pick_weighted(&pairs, &scale, &mut window).unwrap();
    assert_ne!(first, second);
    assert_eq!(
        pick_weighted(&pairs, &scale, &mut window),
        Err(SelectionError::SelectionExhausted)
    );
}

#[test]
fn pick_weighted_never_repeats_a_windowed_id() {
    // Three tracks, window capacity far above three: each pick must differ
    // from everything still in the window.
    let mut window = ReplayWindow::new();
    let pairs = vec![(7u32, 1i32), (1u32, 2i32), (4u32, 3i32)];
    let scale = Scale::default_scale();
    let mut seen = Vec::new();
    for _ in 0..3 {
        let id = pick_weighted(&pairs, &scale, &mut window).unwrap();
        assert!(!seen.contains(&id));
        seen.push(id);
    }
    assert_eq!(
        pick_weighted(&pairs, &scale, &mut window),
        Err(SelectionError::SelectionExhausted)
    );
}

#[test]
fn pick_weighted_overflow_of_fresh_weights_is_reported() {
    // On the widest scale the top rating saturates the weight type, so two
    // such candidates overflow the sampler's accumulator.
    let scale = Scale::new(1_000_000, 1).unwrap();
    let mut window = ReplayWindow::new();
    let pairs = vec![(7u32, 1i32), (7u32, 2i32)];
    assert_eq!(
        pick_weighted(&pairs, &scale, &mut window),
        Err(SelectionError::WeightOverflow)
    );
    assert_eq!(window.len(), 0);
}

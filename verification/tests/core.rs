use neat::dimensions::DimensionMismatch;
use neat::dimensions::validate_input;
use neat::dimensions::validate_training_set;
use neat::initialization::initial_params;
use neat::initialization::INIT_SEED;
use neat::simple_rng::SimpleRng;

// The first draws from the fixed seed 42: a reference sequence that any
// reimplementation of the generator must match exactly.
const DRAWS_FROM_42: [u32; 11] = [
    1083814273, 378494188, 2479403867, 955863294, 1613448261, 110225632, 1921058495, 508781842,
    3753001289, 4271921684, 3664477795,
];

#[test]
fn first_draws_from_fixed_seed() {
    let mut rng = SimpleRng::new(42);
    assert_eq!(rng.next_u32(), 1083814273);
    assert_eq!(rng.next_u32(), 378494188);
    assert_eq!(rng.next_u32(), 2479403867);
    assert_eq!(rng.next_u32(), 955863294);
}

#[test]
fn draw_from_zero_seed() {
    let mut rng = SimpleRng::new(0);
    assert_eq!(rng.next_u32(), 1013904223);
}

#[test]
fn same_seed_same_sequence() {
    let mut a = SimpleRng::new(123456789);
    let mut b = SimpleRng::new(123456789);
    for _ in 0..8 {
        assert_eq!(a.next_u32(), b.next_u32());
    }
}

#[test]
fn init_seed_is_fixed_at_42() {
    assert_eq!(INIT_SEED, 42);
}

#[test]
fn initial_params_dimensions() {
    let p = initial_params(2, 3);
    assert_eq!(p.weights_input_hidden.len(), 3);
    for row in &p.weights_input_hidden {
        assert_eq!(row.len(), 2);
    }
    assert_eq!(p.bias_hidden.len(), 3);
    assert_eq!(p.weights_hidden_output.len(), 3);
}

#[test]
fn initial_params_draw_order_two_by_two() {
    let d = &DRAWS_FROM_42;
    let p = initial_params(2, 2);
    assert_eq!(p.weights_input_hidden, vec![vec![d[0], d[1]], vec![d[3], d[4]]]);
    assert_eq!(p.bias_hidden, vec![d[2], d[5]]);
    assert_eq!(p.weights_hidden_output, vec![d[6], d[7]]);
    assert_eq!(p.bias_output, d[8]);
}

#[test]
fn initial_params_draw_order_three_inputs() {
    let d = &DRAWS_FROM_42;
    let p = initial_params(3, 2);
    assert_eq!(p.weights_input_hidden, vec![vec![d[0], d[1], d[2]], vec![d[4], d[5], d[6]]]);
    assert_eq!(p.bias_hidden, vec![d[3], d[7]]);
    assert_eq!(p.weights_hidden_output, vec![d[8], d[9]]);
    assert_eq!(p.bias_output, d[10]);
}

#[test]
fn initial_params_single_unit() {
    let d = &DRAWS_FROM_42;
    let p = initial_params(1, 1);
    assert_eq!(p.weights_input_hidden, vec![vec![d[0]]]);
    assert_eq!(p.bias_hidden, vec![d[1]]);
    assert_eq!(p.weights_hidden_output, vec![d[2]]);
    assert_eq!(p.bias_output, d[3]);
}

#[test]
fn initialization_is_deterministic() {
    let p = initial_params(2, 2);
    let q = initial_params(2, 2);
    assert_eq!(p.weights_input_hidden, q.weights_input_hidden);
    assert_eq!(p.bias_hidden, q.bias_hidden);
    assert_eq!(p.weights_hidden_output, q.weights_hidden_output);
    assert_eq!(p.bias_output, q.bias_output);
}

#[test]
fn validate_input_accepts_matching_length() {
    assert_eq!(validate_input(2, 2), Ok(()));
    assert_eq!(validate_input(0, 0), Ok(()));
}

#[test]
fn validate_input_rejects_wrong_length() {
    assert_eq!(validate_input(3, 2), Err(DimensionMismatch));
    assert_eq!(validate_input(1, 2), Err(DimensionMismatch));
    assert_eq!(validate_input(0, 2), Err(DimensionMismatch));
}

#[test]
fn validate_training_set_accepts_one_target_per_example() {
    assert_eq!(validate_training_set(4, 4), Ok(()));
    assert_eq!(validate_training_set(0, 0), Ok(()));
}

#[test]
fn validate_training_set_rejects_mismatched_lengths() {
    assert_eq!(validate_training_set(4, 3), Err(DimensionMismatch));
    assert_eq!(validate_training_set(0, 1), Err(DimensionMismatch));
}

#[test]
fn normalized_first_draw_is_in_unit_interval() {
    let mut rng = SimpleRng::new(42);
    let raw = rng.next_u32();
    let normalized = (raw as f64) / (u32::MAX as f64);
    assert!((0.0..=1.0).contains(&normalized));
    assert!((normalized - 0.2523451748).abs() < 1e-9);
}

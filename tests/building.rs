use github_skyline::building::{compute_building_heights, get_max_height, scale_height, scale_height_in, ScaleMode};

#[test]
fn linear_full_height() {
    assert_eq!(scale_height(10, 10, 30, "linear"), 30);
    assert_eq!(scale_height(5, 10, 30, "linear"), 15);
}

#[test]
fn dramatic_half_is_thirteen() {
    assert_eq!(scale_height(5, 10, 30, "dramatic"), 13);
    assert_eq!(scale_height(5, 10, 30, "exp"), 13);
    assert_eq!(scale_height(5, 10, 30, "banana"), 13);
}

#[test]
fn scale_name_is_case_insensitive() {
    assert_eq!(scale_height(5, 10, 30, "LINEAR"), 15);
    assert_eq!(scale_height(1, 4, 30, "Sqrt"), 15);
}

#[test]
fn sqrt_and_log_round_half_up() {
    assert_eq!(scale_height(1, 4, 30, "sqrt"), 15);
    assert_eq!(scale_height(1, 4, 3, "sqrt"), 2);
    assert_eq!(scale_height(1, 3, 30, "log"), 15);
    assert_eq!(scale_height(1, 3, 3, "log"), 2);
    assert_eq!(scale_height(9, 99, 20, "log"), 10);
}

#[test]
fn zero_inputs_give_zero() {
    for mode in ["linear", "sqrt", "log", "dramatic"] {
        assert_eq!(scale_height(0, 10, 30, mode), 0);
        assert_eq!(scale_height(5, 0, 30, mode), 0);
        assert_eq!(scale_height(5, 10, 0, mode), 0);
    }
}

#[test]
fn positive_counts_get_a_least_height() {
    assert_eq!(scale_height(1, 1000, 30, "linear"), 1);
    assert_eq!(scale_height(1, 1000, 30, "sqrt"), 1);
    assert_eq!(scale_height(1, 1000, 30, "dramatic"), 2);
    assert_eq!(scale_height_in(1, 100000, 30, ScaleMode::Log), 2);
}

#[test]
fn heights_never_decrease_with_count() {
    for mode in [ScaleMode::Linear, ScaleMode::Sqrt, ScaleMode::Log, ScaleMode::Dramatic] {
        let mut last = 0;
        for c in 0..=40 {
            let h = scale_height_in(c, 40, 30, mode);
            assert!(h >= last);
            assert!(h <= 30);
            last = h;
        }
        assert_eq!(last, 30);
    }
}

#[test]
fn counts_above_the_maximum_are_capped() {
    assert_eq!(scale_height(20, 10, 30, "linear"), 30);
}

#[test]
fn max_height_of_series() {
    let empty: Vec<u32> = Vec::new();
    assert_eq!(get_max_height(&empty), 1);
    assert_eq!(get_max_height(&[3, 7, 2]), 7);
}

#[test]
fn heights_of_each_day() {
    assert_eq!(compute_building_heights(&[0, 5, 10], 10, 30, "linear"), vec![0, 15, 30]);
}

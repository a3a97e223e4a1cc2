use std::collections::VecDeque;

use polaris::render::{gather_track, push_quad_indices};

#[test]
fn gather_track_picks_one_object() {
    // three objects, four steps: entry = 10 * step + object
    let prediction: VecDeque<i32> = (0..4).flat_map(|s| (0..3).map(move |o| 10 * s + o)).collect();
    let mut path_data = vec![-1; 4];
    gather_track(&mut path_data, &prediction, 3, 4, 2);
    assert_eq!(path_data, vec![2, 12, 22, 32]);
    gather_track(&mut path_data, &prediction, 3, 4, 0);
    assert_eq!(path_data, vec![0, 10, 20, 30]);
}

#[test]
fn gather_track_leaves_the_rest() {
    let prediction: VecDeque<i32> = vec![1, 2, 3, 4].into();
    let mut path_data = vec![-1; 5];
    gather_track(&mut path_data, &prediction, 2, 2, 1);
    assert_eq!(path_data, vec![2, 4, -1, -1, -1]);
}

#[test]
fn gather_track_no_steps() {
    let prediction: VecDeque<i32> = VecDeque::new();
    let mut path_data = vec![5, 6];
    gather_track(&mut path_data, &prediction, 3, 0, 1);
    assert_eq!(path_data, vec![5, 6]);
}

#[test]
fn quad_indices_at_zero() {
    let mut indices = Vec::new();
    push_quad_indices(&mut indices, 0);
    assert_eq!(indices, vec![0, 1, 2, 2, 1, 3]);
}

#[test]
fn quad_indices_append_after_existing() {
    let mut indices = vec![9u16];
    push_quad_indices(&mut indices, 4);
    push_quad_indices(&mut indices, 65532);
    assert_eq!(indices, vec![9, 4, 5, 6, 6, 5, 7, 65532, 65533, 65534, 65534, 65533, 65535]);
}

use polaris::acceleration::Acceleration;

#[test]
fn new_fill_resize() {
    let mut acc = Acceleration::new(3, 0.0f32);
    assert_eq!(acc.x, vec![0.0; 3]);
    assert_eq!(acc.y, vec![0.0; 3]);
    acc.fill(2.5);
    assert_eq!(acc.x, vec![2.5; 3]);
    assert_eq!(acc.y, vec![2.5; 3]);
    acc.resize(5, -1.0);
    assert_eq!(acc.x, vec![-1.0; 5]);
    assert_eq!(acc.y, vec![-1.0; 5]);
    acc.resize(0, 0.0);
    assert!(acc.x.is_empty() && acc.y.is_empty());
}

#[test]
fn default_is_empty() {
    let acc: Acceleration<i32> = Acceleration::default();
    assert!(acc.x.is_empty() && acc.y.is_empty());
}

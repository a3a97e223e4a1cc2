use polaris::objects::{Object, Vector2};
use polaris::utils::{pack_state, unpack_state};

fn body(k: i32) -> Object<i32> {
    Object {
        position: Vector2 { x: k, y: k + 1 },
        velocity: Vector2 { x: k + 2, y: k + 3 },
        mass: 1000 + k,
    }
}

#[test]
fn pack_lays_out_four_per_body() {
    let objects = vec![body(0), body(10)];
    let mut state = vec![99; 7];
    pack_state(&objects, &mut state);
    assert_eq!(state, vec![0, 1, 2, 3, 10, 11, 12, 13]);
}

#[test]
fn pack_empty_clears() {
    let objects: Vec<Object<i32>> = Vec::new();
    let mut state = vec![1, 2, 3];
    pack_state(&objects, &mut state);
    assert!(state.is_empty());
}

#[test]
fn unpack_writes_positions_and_velocities_keeps_mass() {
    let state = vec![5, 6, 7, 8, 9, 10, 11, 12, 13];
    let mut objects = vec![body(0), body(100)];
    unpack_state(&state, &mut objects);
    assert_eq!(objects[0].position.x, 5);
    assert_eq!(objects[0].position.y, 6);
    assert_eq!(objects[0].velocity.x, 7);
    assert_eq!(objects[0].velocity.y, 8);
    assert_eq!(objects[0].mass, 1000);
    assert_eq!(objects[1].position.x, 9);
    assert_eq!(objects[1].velocity.y, 12);
    assert_eq!(objects[1].mass, 1100);
}

#[test]
fn unpack_after_pack_restores() {
    let original = vec![body(1), body(20), body(300)];
    let mut state = Vec::new();
    pack_state(&original, &mut state);
    let mut objects = vec![body(-5), body(-6), body(-7)];
    for (o, src) in objects.iter_mut().zip(original.iter()) {
        o.mass = src.mass;
    }
    unpack_state(&state, &mut objects);
    for (a, b) in objects.iter().zip(original.iter()) {
        assert_eq!(a.position.x, b.position.x);
        assert_eq!(a.position.y, b.position.y);
        assert_eq!(a.velocity.x, b.velocity.x);
        assert_eq!(a.velocity.y, b.velocity.y);
        assert_eq!(a.mass, b.mass);
    }
}

use orbit_rig::camera::CameraState;
use orbit_rig::movement::{displacement, move_step, MoveKeys, PlayerState};
use orbit_rig::units::{Vec3Milli, MOVE_SPEED};

fn keys(forward: bool, back: bool, left: bool, right: bool) -> MoveKeys {
    MoveKeys { forward, back, left, right }
}

#[test]
fn no_keys_no_motion() {
    let d = displacement(&keys(false, false, false, false));
    assert_eq!(d, Vec3Milli { x: 0, y: 0, z: 0 });
}

#[test]
fn single_keys_move_one_axis() {
    assert_eq!(displacement(&keys(true, false, false, false)), Vec3Milli {
        x: 0,
        y: 0,
        z: -MOVE_SPEED,
    });
    assert_eq!(displacement(&keys(false, true, false, false)), Vec3Milli {
        x: 0,
        y: 0,
        z: MOVE_SPEED,
    });
    assert_eq!(displacement(&keys(false, false, true, false)), Vec3Milli {
        x: -MOVE_SPEED,
        y: 0,
        z: 0,
    });
    assert_eq!(displacement(&keys(false, false, false, true)), Vec3Milli {
        x: MOVE_SPEED,
        y: 0,
        z: 0,
    });
}

#[test]
fn opposite_keys_cancel() {
    assert_eq!(displacement(&keys(true, true, false, false)), Vec3Milli { x: 0, y: 0, z: 0 });
    assert_eq!(displacement(&keys(false, false, true, true)), Vec3Milli { x: 0, y: 0, z: 0 });
    assert_eq!(displacement(&keys(true, true, true, true)), Vec3Milli { x: 0, y: 0, z: 0 });
}

#[test]
fn diagonals_are_not_normalized() {
    // Both axes contribute their full speed; the diagonal is faster.
    let d = displacement(&keys(true, false, false, true));
    assert_eq!(d, Vec3Milli { x: MOVE_SPEED, y: 0, z: -MOVE_SPEED });
}

#[test]
fn every_key_combination_is_the_per_axis_sum() {
    for bits in 0u32..16 {
        let k = keys(bits & 1 != 0, bits & 2 != 0, bits & 4 != 0, bits & 8 != 0);
        let d = displacement(&k);
        let x = (k.right as i64 - k.left as i64) * MOVE_SPEED;
        let z = (k.back as i64 - k.forward as i64) * MOVE_SPEED;
        assert_eq!(d, Vec3Milli { x, y: 0, z });
    }
}

#[test]
fn move_step_carries_player_and_focus() {
    let mut player = PlayerState { position: Vec3Milli { x: 10, y: 20, z: 30 } };
    let mut camera = CameraState::with_radius(Vec3Milli { x: 1, y: 2, z: 3 }, 5_000);
    let before = camera;
    move_step(&keys(true, false, false, true), &mut player, &mut camera);
    assert_eq!(player.position, Vec3Milli { x: 140, y: 20, z: -100 });
    assert_eq!(camera.focus, Vec3Milli { x: 131, y: 2, z: -127 });
    assert_eq!(camera.radius, before.radius);
    assert_eq!(camera.yaw, before.yaw);
    assert_eq!(camera.pitch, before.pitch);
    assert_eq!(camera.upside_down, before.upside_down);
    assert_eq!(camera.disabled, before.disabled);
}

#[test]
fn new_player_stands_at_origin() {
    let p = PlayerState::new();
    assert_eq!(p.position, Vec3Milli { x: 0, y: 0, z: 0 });
}

use render_loop::camera::{
    Axes, Camera, CameraBuilder, Motion, Vec3, DEFAULT_FAR, DEFAULT_NEAR, DEFAULT_YAW, DEGREE,
    FOV_MAX, FOV_MIN, FULL_TURN, PITCH_LIMIT, TOLERANCE, UNIT, UNIT_SQUARED,
};
use render_loop::context::Context;
use render_loop::controller::{CameraSystem, DEFAULT_SPEED};
use render_loop::input::{KEY_BACK, KEY_DOWN, KEY_FORWARD, KEY_LEFT, KEY_RIGHT, KEY_UP};
use render_loop::system::System;

const STILL: Motion = Motion {
    forward: false,
    back: false,
    left: false,
    right: false,
    up: false,
    down: false,
};

const SECOND: i64 = 1_000_000;

/// A tenth of a degree per pixel.
const SENSITIVITY: u32 = 100_000;

fn camera_at(x: i64, y: i64, z: i64) -> Camera {
    CameraBuilder::new(Vec3 { x, y, z }, Vec3 { x: 0, y: UNIT, z: 0 })
        .aspect(1024, 768)
        .build()
}

#[test]
fn builder_gives_a_level_camera_facing_negative_z() {
    let camera = camera_at(0, 0, 3 * UNIT);
    assert_eq!(camera.position(), Vec3 { x: 0, y: 0, z: 3_000_000 });
    assert_eq!(camera.world_up(), Vec3 { x: 0, y: 1_000_000, z: 0 });
    assert_eq!(camera.yaw(), DEFAULT_YAW);
    assert_eq!(camera.yaw(), 270 * DEGREE);
    assert_eq!(camera.pitch(), 0);
    assert_eq!(camera.fov(), 45 * DEGREE);
    assert_eq!(camera.aspect(), (1024, 768));
    assert_eq!(camera.near(), DEFAULT_NEAR);
    assert_eq!(camera.far(), DEFAULT_FAR);
    assert_eq!(
        camera.axes(),
        Axes {
            front: Vec3 { x: 0, y: 0, z: -1_000_000 },
            right: Vec3 { x: 1_000_000, y: 0, z: 0 },
            up: Vec3 { x: 0, y: 1_000_000, z: 0 },
        }
    );
}

#[test]
fn builder_without_aspect_is_square() {
    let builder = CameraBuilder::new(Vec3 { x: 1, y: 2, z: 3 }, Vec3 { x: 0, y: UNIT, z: 0 });
    assert_eq!((builder.aspect_width, builder.aspect_height), (1, 1));
    assert_eq!(builder.build().aspect(), (1, 1));
}

#[test]
fn forward_for_one_second_moves_two_and_a_half_units() {
    let mut camera = camera_at(0, 0, 3 * UNIT);
    camera.advance(Motion { forward: true, ..STILL }, 2_500_000, SECOND);
    assert_eq!(camera.position(), Vec3 { x: 0, y: 0, z: 500_000 });
}

#[test]
fn each_key_moves_along_its_axis() {
    let speed = 1_000_000;
    let mut camera = camera_at(0, 0, 0);
    camera.advance(Motion { back: true, ..STILL }, speed, SECOND);
    assert_eq!(camera.position(), Vec3 { x: 0, y: 0, z: UNIT });
    camera.advance(Motion { right: true, ..STILL }, speed, SECOND);
    assert_eq!(camera.position(), Vec3 { x: UNIT, y: 0, z: UNIT });
    camera.advance(Motion { left: true, ..STILL }, speed, 2 * SECOND);
    assert_eq!(camera.position(), Vec3 { x: -UNIT, y: 0, z: UNIT });
    camera.advance(Motion { up: true, ..STILL }, speed, SECOND / 2);
    assert_eq!(camera.position(), Vec3 { x: -UNIT, y: UNIT / 2, z: UNIT });
    camera.advance(Motion { down: true, ..STILL }, speed, SECOND);
    assert_eq!(camera.position(), Vec3 { x: -UNIT, y: -UNIT / 2, z: UNIT });
}

#[test]
fn diagonal_is_the_sum_and_not_brought_to_unit_length() {
    let mut camera = camera_at(0, 0, 3 * UNIT);
    camera.advance(Motion { forward: true, left: true, ..STILL }, 2_500_000, SECOND);
    assert_eq!(camera.position(), Vec3 { x: -2_500_000, y: 0, z: 500_000 });
}

#[test]
fn opposite_keys_cancel() {
    let mut camera = camera_at(7, 8, 9);
    camera.advance(
        Motion { forward: true, back: true, left: true, right: true, up: true, down: true },
        2_500_000,
        SECOND,
    );
    assert_eq!(camera.position(), Vec3 { x: 7, y: 8, z: 9 });
}

#[test]
fn time_that_is_not_positive_moves_nothing() {
    let mut camera = camera_at(0, 0, 3 * UNIT);
    camera.advance(Motion { forward: true, ..STILL }, 2_500_000, 0);
    assert_eq!(camera.position(), Vec3 { x: 0, y: 0, z: 3_000_000 });
    camera.advance(Motion { forward: true, ..STILL }, 2_500_000, -SECOND);
    assert_eq!(camera.position(), Vec3 { x: 0, y: 0, z: 3_000_000 });
    camera.advance(Motion { forward: true, ..STILL }, 2_500_000, i64::MIN);
    assert_eq!(camera.position(), Vec3 { x: 0, y: 0, z: 3_000_000 });
}

#[test]
fn travel_rounds_toward_zero_on_both_sides() {
    let mut camera = camera_at(0, 0, 0);
    camera.advance(Motion { forward: true, ..STILL }, 1_500_000, 1);
    assert_eq!(camera.position(), Vec3 { x: 0, y: 0, z: -1 });
    camera.advance(Motion { back: true, ..STILL }, 1_500_000, 1);
    assert_eq!(camera.position(), Vec3 { x: 0, y: 0, z: 0 });
    camera.advance(Motion { forward: true, ..STILL }, 999_999, 1);
    assert_eq!(camera.position(), Vec3 { x: 0, y: 0, z: 0 });
}

#[test]
fn step_that_leaves_the_range_moves_nothing() {
    let mut camera = camera_at(5, 0, i64::MIN + 10);
    camera.advance(Motion { forward: true, right: true, ..STILL }, 1_000_000, SECOND);
    assert_eq!(camera.position(), Vec3 { x: 5, y: 0, z: i64::MIN + 10 });
    camera.advance(Motion { forward: true, ..STILL }, 10, SECOND);
    assert_eq!(camera.position(), Vec3 { x: 5, y: 0, z: i64::MIN });
    camera.advance(Motion { forward: true, ..STILL }, u32::MAX, i64::MAX);
    assert_eq!(camera.position(), Vec3 { x: 5, y: 0, z: i64::MIN });
}

#[test]
fn movement_follows_the_axes_that_were_set() {
    let mut camera = camera_at(0, 0, 0);
    let axes = Axes {
        front: Vec3 { x: 600_000, y: 0, z: -800_000 },
        right: Vec3 { x: 800_000, y: 0, z: 600_000 },
        up: Vec3 { x: 0, y: UNIT, z: 0 },
    };
    assert!(camera.set_axes(axes));
    assert_eq!(camera.axes(), axes);
    camera.advance(Motion { forward: true, ..STILL }, 10_000_000, SECOND);
    assert_eq!(camera.position(), Vec3 { x: 6_000_000, y: 0, z: -8_000_000 });
}

#[test]
fn axes_that_are_not_orthonormal_are_refused() {
    let mut camera = camera_at(0, 0, 0);
    let before = camera.axes();
    let right = Vec3 { x: UNIT, y: 0, z: 0 };
    let up = Vec3 { x: 0, y: UNIT, z: 0 };
    let long = Axes { front: Vec3 { x: 0, y: 0, z: -UNIT - 1 }, right, up };
    let short = Axes { front: Vec3 { x: 0, y: 0, z: -999_990 }, right, up };
    let skew = Axes { front: Vec3 { x: 20, y: 0, z: -UNIT }, right, up };
    let doubled = Axes { front: right, right, up };
    let nothing = Axes {
        front: Vec3 { x: 0, y: 0, z: 0 },
        right: Vec3 { x: 0, y: 0, z: 0 },
        up: Vec3 { x: 0, y: 0, z: 0 },
    };
    let corner = Axes { front: Vec3 { x: -UNIT, y: UNIT, z: -UNIT }, right, up };
    for axes in [long, short, skew, doubled, nothing, corner] {
        assert!(!axes.check_orthonormal());
        assert!(!camera.set_axes(axes));
        assert_eq!(camera.axes(), before);
    }
    assert!(corner.check_bounded());
    assert!(!long.check_bounded());
    assert_eq!(TOLERANCE, UNIT_SQUARED / 100_000);
}

#[test]
fn axes_within_the_tolerance_are_taken() {
    let mut camera = camera_at(0, 0, 0);
    let right = Vec3 { x: UNIT, y: 0, z: 0 };
    let up = Vec3 { x: 0, y: UNIT, z: 0 };
    let nearly_unit = Axes { front: Vec3 { x: 0, y: 0, z: -999_995 }, right, up };
    let nearly_square = Axes { front: Vec3 { x: 10, y: -10, z: -UNIT }, right, up };
    let tilted = Axes {
        front: Vec3 { x: 0, y: 17_452, z: -999_848 },
        right,
        up: Vec3 { x: 0, y: 999_848, z: 17_452 },
    };
    for axes in [nearly_unit, nearly_square, tilted] {
        assert!(axes.check_orthonormal());
        assert!(camera.set_axes(axes));
        assert_eq!(camera.axes(), axes);
    }
}

#[test]
fn look_turns_and_tilts() {
    let mut camera = camera_at(0, 0, 0);
    camera.look(100, 50, SENSITIVITY);
    assert_eq!(camera.yaw(), 280 * DEGREE);
    assert_eq!(camera.pitch(), -5 * DEGREE);
    camera.look(-3, -7, SENSITIVITY);
    assert_eq!(camera.yaw(), 279_700_000);
    assert_eq!(camera.pitch(), -4_300_000);
}

#[test]
fn pitch_stops_exactly_at_the_upper_limit() {
    let mut camera = camera_at(0, 0, 0);
    camera.look(0, -889, SENSITIVITY);
    assert_eq!(camera.pitch(), 88_900_000);
    camera.look(0, -1, SENSITIVITY);
    assert_eq!(camera.pitch(), PITCH_LIMIT);
    camera.look(0, -1, SENSITIVITY);
    assert_eq!(camera.pitch(), 89 * DEGREE);
    camera.look(0, -100_000, SENSITIVITY);
    assert_eq!(camera.pitch(), 89 * DEGREE);
    camera.look(0, i64::MIN, u32::MAX);
    assert_eq!(camera.pitch(), 89 * DEGREE);
    camera.look(0, 10, SENSITIVITY);
    assert_eq!(camera.pitch(), 88 * DEGREE);
}

#[test]
fn pitch_stops_exactly_at_the_lower_limit() {
    let mut camera = camera_at(0, 0, 0);
    camera.look(0, 5_000, SENSITIVITY);
    assert_eq!(camera.pitch(), -PITCH_LIMIT);
    camera.look(0, i64::MAX, u32::MAX);
    assert_eq!(camera.pitch(), -89 * DEGREE);
    camera.look(0, -10, SENSITIVITY);
    assert_eq!(camera.pitch(), -88 * DEGREE);
}

#[test]
fn yaw_stays_within_one_turn() {
    let mut camera = camera_at(0, 0, 0);
    camera.look(1_000, 0, SENSITIVITY);
    assert_eq!(camera.yaw(), 10 * DEGREE);
    camera.look(-3_000, 0, SENSITIVITY);
    assert_eq!(camera.yaw(), 70 * DEGREE);
    camera.look(-700, 0, SENSITIVITY);
    assert_eq!(camera.yaw(), 0);
    camera.look(-1, 0, 1);
    assert_eq!(camera.yaw(), FULL_TURN - 1);
    camera.look(1, 0, 1);
    assert_eq!(camera.yaw(), 0);
    camera.look(36_000_000, 0, SENSITIVITY);
    assert_eq!(camera.yaw(), 0);
    camera.look(i64::MAX, 0, u32::MAX);
    assert_eq!(camera.yaw(), 102_232_065);
    camera.look(i64::MIN, 0, u32::MAX);
    assert_eq!(camera.yaw(), 25_032_705);
}

#[test]
fn zoom_narrows_with_scroll_and_stops_at_one_degree() {
    let mut camera = camera_at(0, 0, 0);
    camera.zoom(UNIT);
    assert_eq!(camera.fov(), 44 * DEGREE);
    camera.zoom(2 * UNIT);
    assert_eq!(camera.fov(), 42 * DEGREE);
    camera.zoom(40 * UNIT);
    assert_eq!(camera.fov(), 2 * DEGREE);
    camera.zoom(UNIT);
    assert_eq!(camera.fov(), FOV_MIN);
    camera.zoom(UNIT);
    assert_eq!(camera.fov(), DEGREE);
    camera.zoom(i64::MAX);
    assert_eq!(camera.fov(), DEGREE);
}

#[test]
fn zoom_widens_against_scroll_and_stops_at_forty_five_degrees() {
    let mut camera = camera_at(0, 0, 0);
    camera.zoom(-UNIT);
    assert_eq!(camera.fov(), FOV_MAX);
    camera.zoom(10 * UNIT);
    camera.zoom(-3 * UNIT);
    assert_eq!(camera.fov(), 38 * DEGREE);
    camera.zoom(-7 * UNIT - 1);
    assert_eq!(camera.fov(), 45 * DEGREE);
    camera.zoom(i64::MIN);
    assert_eq!(camera.fov(), 45 * DEGREE);
}

#[test]
fn zoom_is_monotonic_in_the_scroll() {
    let scrolls = [-50 * UNIT, -UNIT, 0, 1, UNIT, 10 * UNIT, 44 * UNIT, 45 * UNIT, 90 * UNIT];
    let mut last = i32::MAX;
    for scroll in scrolls {
        let mut camera = camera_at(0, 0, 0);
        camera.zoom(20 * UNIT);
        camera.zoom(scroll);
        assert!(camera.fov() <= last);
        assert!(FOV_MIN <= camera.fov() && camera.fov() <= FOV_MAX);
        last = camera.fov();
    }
    assert_eq!(last, FOV_MIN);
}

#[test]
fn controller_moves_forward_while_the_key_is_held() {
    let mut system = CameraSystem::new(camera_at(0, 0, 3 * UNIT), SENSITIVITY);
    let mut ctx = Context::new(1024, 768);
    ctx.update_key(KEY_FORWARD, true);
    system.run(&mut ctx, SECOND);
    assert_eq!(system.camera().position(), Vec3 { x: 0, y: 0, z: 500_000 });
    ctx.update_key(KEY_FORWARD, false);
    system.run(&mut ctx, SECOND);
    assert_eq!(system.camera().position(), Vec3 { x: 0, y: 0, z: 500_000 });
}

#[test]
fn controller_reads_all_six_keys() {
    let ctx = {
        let mut ctx = Context::new(1, 1);
        ctx.update_key(KEY_BACK, true);
        ctx.update_key(KEY_LEFT, true);
        ctx.update_key(KEY_UP, true);
        ctx
    };
    assert_eq!(
        CameraSystem::read_motion(&ctx),
        Motion { back: true, left: true, up: true, ..STILL }
    );
    let mut other = Context::new(1, 1);
    other.update_key(KEY_FORWARD, true);
    other.update_key(KEY_RIGHT, true);
    other.update_key(KEY_DOWN, true);
    other.update_key(KEY_DOWN, false);
    assert_eq!(
        CameraSystem::read_motion(&other),
        Motion { forward: true, right: true, ..STILL }
    );
}

#[test]
fn controller_speed_can_be_set() {
    assert_eq!(DEFAULT_SPEED, 2_500_000);
    let mut system = CameraSystem::new(camera_at(0, 0, 0), SENSITIVITY);
    system.set_speed(4_000_000);
    let mut ctx = Context::new(1, 1);
    ctx.update_key(KEY_RIGHT, true);
    system.run(&mut ctx, SECOND / 4);
    assert_eq!(system.camera().position(), Vec3 { x: 1_000_000, y: 0, z: 0 });
}

#[test]
fn controller_consumes_pointer_and_scroll_once() {
    let mut system = CameraSystem::new(camera_at(0, 0, 0), SENSITIVITY);
    let mut ctx = Context::new(1, 1);
    ctx.update_mouse_pos(100, 100);
    ctx.update_mouse_pos(120, 90);
    ctx.update_scroll(3 * UNIT);
    system.run(&mut ctx, 16_000);
    assert_eq!(system.camera().yaw(), 272 * DEGREE);
    assert_eq!(system.camera().pitch(), DEGREE);
    assert_eq!(system.camera().fov(), 42 * DEGREE);
    assert_eq!((ctx.mouse_state.dx, ctx.mouse_state.dy), (0, 0));
    assert_eq!(ctx.mouse_state.scroll, 0);
    assert_eq!((ctx.mouse_state.x, ctx.mouse_state.y), (120, 90));
    system.run(&mut ctx, 16_000);
    assert_eq!(system.camera().yaw(), 272 * DEGREE);
    assert_eq!(system.camera().pitch(), DEGREE);
    assert_eq!(system.camera().fov(), 42 * DEGREE);
}

#[test]
fn controller_moves_along_the_axes_of_the_frame_start() {
    let mut system = CameraSystem::new(camera_at(0, 0, 0), SENSITIVITY);
    let mut ctx = Context::new(1, 1);
    ctx.update_key(KEY_FORWARD, true);
    ctx.update_mouse_pos(0, 0);
    ctx.update_mouse_pos(900, 0);
    system.run(&mut ctx, SECOND);
    assert_eq!(system.camera().yaw(), 0);
    assert_eq!(system.camera().position(), Vec3 { x: 0, y: 0, z: -2_500_000 });
    let turned = Axes {
        front: Vec3 { x: UNIT, y: 0, z: 0 },
        right: Vec3 { x: 0, y: 0, z: UNIT },
        up: Vec3 { x: 0, y: UNIT, z: 0 },
    };
    assert!(system.set_axes(turned));
    system.run(&mut ctx, SECOND);
    assert_eq!(system.camera().position(), Vec3 { x: 2_500_000, y: 0, z: -2_500_000 });
}

#[test]
fn idle_frame_keeps_the_camera() {
    let mut system = CameraSystem::new(camera_at(1, 2, 3), SENSITIVITY);
    let mut ctx = Context::new(1, 1);
    system.run(&mut ctx, SECOND);
    assert_eq!(system.camera().position(), Vec3 { x: 1, y: 2, z: 3 });
    assert_eq!(system.camera().yaw(), DEFAULT_YAW);
    assert_eq!(system.camera().pitch(), 0);
    assert_eq!(system.camera().fov(), FOV_MAX);
}

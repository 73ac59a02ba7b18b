use tower_sim::camera::{
    mul_div, CameraInput, OrbitCamera, PITCH_LIMIT, RADIUS_MAX, RADIUS_MIN,
};
use tower_sim::geom::Point3;
use tower_sim::trig::{cos_mdeg, sin_mdeg};

fn still() -> CameraInput {
    CameraInput {
        pointer_dx: 0,
        pointer_dy: 0,
        scroll: 0,
        orbit_held: false,
        pan_held: false,
    }
}

#[test]
fn sine_has_exact_fixed_points() {
    assert_eq!(sin_mdeg(0), 0);
    assert_eq!(sin_mdeg(30_000), 500);
    assert_eq!(sin_mdeg(90_000), 1000);
    assert_eq!(sin_mdeg(150_000), 500);
    assert_eq!(sin_mdeg(180_000), 0);
    assert_eq!(sin_mdeg(270_000), -1000);
    assert_eq!(cos_mdeg(0), 1000);
    assert_eq!(cos_mdeg(90_000), 0);
    assert_eq!(cos_mdeg(180_000), -1000);
    assert_eq!(cos_mdeg(270_000), 0);
}

#[test]
fn scaled_multiply_rounds_toward_zero() {
    assert_eq!(mul_div(7, 3, 2), 10);
    assert_eq!(mul_div(7, -3, 2), -10);
    assert_eq!(mul_div(-7, 3, 2), -10);
    assert_eq!(mul_div(-7, -3, 2), 10);
    assert_eq!(mul_div(0, -5, 3), 0);
}

#[test]
fn construction_sanitizes_every_argument() {
    let cam = OrbitCamera::new(
        Point3 { x: 0, y: 0, z: 0 },
        725_000,
        200_000,
        0,
    );
    assert_eq!(cam.yaw, 5_000);
    assert_eq!(cam.pitch, PITCH_LIMIT);
    assert_eq!(cam.radius, RADIUS_MIN);
    let cam2 = OrbitCamera::new(Point3 { x: 0, y: 0, z: 0 }, 0, -200_000, u64::MAX);
    assert_eq!(cam2.pitch, -PITCH_LIMIT);
    assert_eq!(cam2.radius, RADIUS_MAX);
}

#[test]
fn zero_input_keeps_transform_bit_for_bit_stable() {
    let mut cam = OrbitCamera::new(Point3 { x: 100, y: 200, z: 300 }, 40_000, 20_000, 5_000);
    let before_state = cam;
    let before = cam.transform();
    for i in 0..8 {
        // whatever buttons are held, zero deltas change nothing
        let input = CameraInput {
            orbit_held: i % 2 == 0,
            pan_held: i % 3 == 0,
            ..still()
        };
        cam.update(input);
        assert_eq!(cam, before_state);
        assert_eq!(cam.transform(), before);
    }
}

#[test]
fn radius_stays_strictly_positive_under_relentless_zoom_in() {
    let mut cam = OrbitCamera::new(Point3 { x: 0, y: 0, z: 0 }, 0, 0, 5_000);
    // maximal zoom-in every tick halves the radius; mathematically it would
    // reach zero, but the clamp holds it at the positive minimum
    for _ in 0..200 {
        cam.update(CameraInput { scroll: 5, ..still() });
        assert!(cam.radius > 0);
    }
    assert_eq!(cam.radius, RADIUS_MIN);
}

#[test]
fn zoom_out_is_clamped_at_the_maximum() {
    let mut cam = OrbitCamera::new(Point3 { x: 0, y: 0, z: 0 }, 0, 0, 5_000);
    for _ in 0..200 {
        cam.update(CameraInput { scroll: -5, ..still() });
    }
    assert_eq!(cam.radius, RADIUS_MAX);
}

#[test]
fn pitch_never_reaches_the_vertical() {
    let mut cam = OrbitCamera::new(Point3 { x: 0, y: 0, z: 0 }, 0, 0, 5_000);
    for _ in 0..100 {
        cam.update(CameraInput {
            pointer_dy: 10_000,
            orbit_held: true,
            ..still()
        });
        assert!(cam.pitch < 90_000);
    }
    assert_eq!(cam.pitch, PITCH_LIMIT);
    for _ in 0..100 {
        cam.update(CameraInput {
            pointer_dy: -10_000,
            orbit_held: true,
            ..still()
        });
        assert!(cam.pitch > -90_000);
    }
    assert_eq!(cam.pitch, -PITCH_LIMIT);
}

#[test]
fn yaw_wraps_around_the_full_turn() {
    let mut cam = OrbitCamera::new(Point3 { x: 0, y: 0, z: 0 }, 350_000, 0, 5_000);
    // 100 pointer units at 250 millidegrees each: 25 degrees
    cam.update(CameraInput {
        pointer_dx: 100,
        orbit_held: true,
        ..still()
    });
    assert_eq!(cam.yaw, 15_000);
}

#[test]
fn orbiting_without_the_button_does_nothing() {
    let mut cam = OrbitCamera::new(Point3 { x: 0, y: 0, z: 0 }, 10_000, 5_000, 5_000);
    let before = cam;
    cam.update(CameraInput {
        pointer_dx: 500,
        pointer_dy: 500,
        ..still()
    });
    assert_eq!(cam.yaw, before.yaw);
    assert_eq!(cam.pitch, before.pitch);
    assert_eq!(cam.focus, before.focus);
}

#[test]
fn transform_stands_radius_away_along_the_view_direction() {
    let cam = OrbitCamera::new(Point3 { x: 0, y: 0, z: 0 }, 0, 0, 5_000);
    let t = cam.transform();
    assert_eq!(t.focus, Point3 { x: 0, y: 0, z: 0 });
    // yaw 0, pitch 0: the direction is the positive x axis
    assert_eq!(t.position, Point3 { x: 5_000, y: 0, z: 0 });

    let up = OrbitCamera::new(Point3 { x: 0, y: 0, z: 0 }, 0, 30_000, 2_000);
    let t2 = up.transform();
    // pitch 30 degrees: y = r sin(30) exactly; x = r cos(30), where the
    // fixed-point cosine of 30 degrees is 864/1000
    assert_eq!(t2.position.y, 1_000);
    assert_eq!(t2.position.x, 2_000 * 864 / 1000);
    assert_eq!(t2.position.z, 0);
}

#[test]
fn panning_translates_the_focus_with_the_radius() {
    let mut cam = OrbitCamera::new(Point3 { x: 0, y: 0, z: 0 }, 0, 0, 1_000_000);
    // at yaw 0 the camera-right axis is the positive z axis; a rightward drag
    // of 1000 units at radius 1000 moves the focus 1000 units along it
    cam.update(CameraInput {
        pointer_dx: 1_000,
        pan_held: true,
        ..still()
    });
    assert_eq!(cam.focus, Point3 { x: 0, y: 0, z: 1_000_000 });
    // an upward drag at pitch 0 moves the focus straight up
    cam.update(CameraInput {
        pointer_dy: 1_000,
        pan_held: true,
        ..still()
    });
    assert_eq!(cam.focus, Point3 { x: 0, y: 1_000_000, z: 1_000_000 });
}

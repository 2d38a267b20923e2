//! Camera operators: basis stability, movement, and the orbit round trip.

use raytracer::camera::Camera;
use raytracer::vec3::Vec3;

const ONE: i64 = 65536;

fn looking_down_z() -> Camera {
    Camera {
        eye: Vec3::new(0, 0, 5 * ONE),
        center: Vec3::new(0, 0, 0),
        up: Vec3::new(0, ONE, 0),
    }
}

#[test]
fn basis_change_twice_gives_identical_results() {
    // the transform reads the pose and mutates nothing, so two calls on
    // the same state agree bit for bit
    let cam = looking_down_z();
    let v = Vec3::new(ONE / 2, -ONE / 3, -ONE);
    let first = cam.basis_change(&v);
    let second = cam.basis_change(&v);
    assert_eq!(first, second);
    let again = looking_down_z();
    assert_eq!(cam, again);
}

#[test]
fn basis_change_maps_forward_axis() {
    // camera space (0,0,-1) is the view direction: world (0,0,-1) here
    let cam = looking_down_z();
    let d = cam.basis_change(&Vec3::new(0, 0, -ONE));
    assert_eq!((d.x, d.y, d.z), (0, 0, -ONE));
    // camera space (1,0,0) is the right vector: world (1,0,0) here
    let r = cam.basis_change(&Vec3::new(ONE, 0, 0));
    assert_eq!((r.x, r.y, r.z), (ONE, 0, 0));
}

#[test]
fn move_camera_walks_the_view_direction() {
    let mut cam = looking_down_z();
    cam.move_camera(ONE, 0);
    // forward is (0,0,-1): both eye and target advance one unit
    assert_eq!((cam.eye.x, cam.eye.y, cam.eye.z), (0, 0, 4 * ONE));
    assert_eq!((cam.center.x, cam.center.y, cam.center.z), (0, 0, -ONE));
}

#[test]
fn move_camera_strafes_the_right_direction() {
    let mut cam = looking_down_z();
    cam.move_camera(0, ONE);
    // right = forward x up: (0,0,-1) x (0,1,0) = (1,0,0)
    assert_eq!((cam.eye.x, cam.eye.y, cam.eye.z), (ONE, 0, 5 * ONE));
    assert_eq!((cam.center.x, cam.center.y, cam.center.z), (ONE, 0, 0));
}

#[test]
fn move_vertical_lifts_both_points() {
    let mut cam = looking_down_z();
    cam.move_vertical(2 * ONE);
    assert_eq!((cam.eye.x, cam.eye.y, cam.eye.z), (0, 2 * ONE, 5 * ONE));
    assert_eq!((cam.center.x, cam.center.y, cam.center.z), (0, 2 * ONE, 0));
}

#[test]
fn orbit_keeps_the_look_target() {
    let mut cam = looking_down_z();
    cam.orbit(ONE / 2, ONE / 4);
    assert_eq!((cam.center.x, cam.center.y, cam.center.z), (0, 0, 0));
    assert_eq!((cam.up.x, cam.up.y, cam.up.z), (0, ONE, 0));
}

#[test]
fn orbit_round_trip_restores_eye_within_tolerance() {
    // orbit by half a radian of yaw and back: the eye returns to its
    // start within the tolerance of the fixed-point trigonometry
    let mut cam = looking_down_z();
    let start = cam.eye;
    cam.orbit(ONE / 2, 0);
    let moved = cam.eye;
    assert!(
        (moved.x - start.x).abs() > 6000 || (moved.z - start.z).abs() > 6000,
        "orbit did not move the eye: {:?}", (moved.x, moved.y, moved.z)
    );
    cam.orbit(-(ONE / 2), 0);
    let back = cam.eye;
    let tol = 6000; // about 0.09 in fixed point, on a radius of 5
    assert!((back.x - start.x).abs() <= tol, "x drifted: {} vs {}", back.x, start.x);
    assert!((back.y - start.y).abs() <= tol, "y drifted: {} vs {}", back.y, start.y);
    assert!((back.z - start.z).abs() <= tol, "z drifted: {} vs {}", back.z, start.z);
}

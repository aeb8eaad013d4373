use nalgebra::Isometry3;
use nalgebra::Point3;
use nalgebra::Vector3;
use webgl_globe::camera::Camera;
use webgl_globe::scalar::Scalar;
use webgl_globe::scalar::ATMOSPHERE_SCALE_BITS;
use webgl_globe::scalar::MINUS_ONE_HUNDRED_BITS;
use webgl_globe::scalar::ZERO_BITS;
use webgl_globe::transform::Factor;
use webgl_globe::transform::LookAt;
use webgl_globe::transform::Perspective;
use webgl_globe::transform::Point;
use webgl_globe::transform::Transform;

fn scalar(value: f32) -> Scalar {
    Scalar::from_bits(value.to_bits())
}

fn point(x: f32, y: f32, z: f32) -> Point {
    Point { x: scalar(x), y: scalar(y), z: scalar(z) }
}

fn number(scalar: Scalar) -> f32 {
    f32::from_bits(scalar.to_bits())
}

fn place(point: &Point) -> Point3<f32> {
    Point3::new(number(point.x), number(point.y), number(point.z))
}

/// Where the view transform of the camera takes the point it looks at.
fn target_in_view(camera: &Camera) -> Point3<f32> {
    let view = camera.view();
    let eye = place(&view.eye);
    let target = place(&view.target);
    Isometry3::look_at_rh(&eye, &target, &Vector3::y()).transform_point(&target)
}

fn check_straight_ahead(position: [f32; 3], target: [f32; 3]) {
    let mut camera = Camera::new(scalar(30.0), scalar(1.0), scalar(1.0), scalar(1000.0));
    let projection = *camera.projection();
    camera.set_position(scalar(position[0]), scalar(position[1]), scalar(position[2]));
    camera.set_target(scalar(target[0]), scalar(target[1]), scalar(target[2]));
    let seen = target_in_view(&camera);
    let distance = (place(&camera.eye()) - place(&camera.looks_at())).norm();
    let tolerance = 1e-4 * distance.max(1.0);
    assert!(seen.x.abs() <= tolerance, "{:?}", seen);
    assert!(seen.y.abs() <= tolerance, "{:?}", seen);
    assert!((seen.z + distance).abs() <= tolerance, "{:?}", seen);
    assert_eq!(*camera.projection(), projection);
}

#[test]
fn the_target_lies_straight_ahead_of_the_camera() {
    check_straight_ahead([0.0, 0.0, 500.0], [0.0, 0.0, 0.0]);
    check_straight_ahead([0.0, 0.0, -100.0], [0.0, 0.0, 0.0]);
    check_straight_ahead([10.0, 20.0, 30.0], [-5.0, 4.0, 2.0]);
    check_straight_ahead([-300.0, 12.5, 0.25], [40.0, -7.0, 90.0]);
    check_straight_ahead([1.0, 0.5, 0.0], [0.0, 0.0, 0.0]);
}

#[test]
fn a_new_camera_looks_from_minus_one_hundred_at_the_origin() {
    let camera = Camera::new(scalar(30.0), scalar(1.5), scalar(1.0), scalar(1000.0));
    assert_eq!(camera.eye(), point(0.0, 0.0, -100.0));
    assert_eq!(camera.looks_at(), point(0.0, 0.0, 0.0));
    assert_eq!(
        *camera.view(),
        LookAt { eye: point(0.0, 0.0, -100.0), target: point(0.0, 0.0, 0.0) }
    );
    assert_eq!(
        *camera.projection(),
        Perspective {
            aspect_ratio: scalar(1.5),
            vertical_fov: scalar(30.0),
            near: scalar(1.0),
            far: scalar(1000.0)
        }
    );
}

#[test]
fn moving_the_eye_renews_the_view_at_once() {
    let mut camera = Camera::new(scalar(30.0), scalar(1.0), scalar(1.0), scalar(1000.0));
    camera.set_position(scalar(0.0), scalar(0.0), scalar(500.0));
    assert_eq!(camera.eye(), point(0.0, 0.0, 500.0));
    assert_eq!(
        *camera.view(),
        LookAt { eye: point(0.0, 0.0, 500.0), target: point(0.0, 0.0, 0.0) }
    );
}

#[test]
fn moving_the_target_renews_the_view_and_keeps_the_projection() {
    let mut camera = Camera::new(scalar(45.0), scalar(2.0), scalar(0.5), scalar(50.0));
    let projection = *camera.projection();
    camera.set_target(scalar(1.0), scalar(-2.0), scalar(3.0));
    assert_eq!(camera.looks_at(), point(1.0, -2.0, 3.0));
    assert_eq!(camera.eye(), point(0.0, 0.0, -100.0));
    assert_eq!(
        *camera.view(),
        LookAt { eye: point(0.0, 0.0, -100.0), target: point(1.0, -2.0, 3.0) }
    );
    assert_eq!(*camera.projection(), projection);
    camera.set_position(scalar(9.0), scalar(8.0), scalar(7.0));
    assert_eq!(*camera.projection(), projection);
    assert_eq!(
        *camera.view(),
        LookAt { eye: point(9.0, 8.0, 7.0), target: point(1.0, -2.0, 3.0) }
    );
}

#[test]
fn the_view_depends_on_position_and_target_alone() {
    let mut first = Camera::new(scalar(30.0), scalar(1.0), scalar(1.0), scalar(10.0));
    let mut second = Camera::new(scalar(60.0), scalar(2.0), scalar(2.0), scalar(20.0));
    first.set_target(scalar(5.0), scalar(5.0), scalar(5.0));
    first.set_position(scalar(1.0), scalar(2.0), scalar(3.0));
    first.set_target(scalar(0.0), scalar(1.0), scalar(0.0));
    second.set_position(scalar(1.0), scalar(2.0), scalar(3.0));
    second.set_target(scalar(0.0), scalar(1.0), scalar(0.0));
    assert_eq!(first.view(), second.view());
    assert_ne!(first.projection(), second.projection());
}

#[test]
fn the_scalar_constants_are_the_numbers_they_stand_for() {
    assert_eq!(f32::from_bits(ZERO_BITS), 0.0);
    assert_eq!(f32::from_bits(MINUS_ONE_HUNDRED_BITS), -100.0);
    assert_eq!(f32::from_bits(ATMOSPHERE_SCALE_BITS), 1.04);
    assert_eq!(Scalar::from_bits(ZERO_BITS).to_bits(), 0.0f32.to_bits());
    assert_eq!(Scalar::from_bits(7).to_bits(), 7);
}

#[test]
fn a_product_lists_its_factors_from_left_to_right() {
    let a = Transform::scaling(scalar(2.0));
    let b = Transform::scaling(scalar(3.0));
    let identity = Transform::identity();
    assert_eq!(identity.factors().len(), 0);
    let two = Factor::Scaling { factor: scalar(2.0) };
    let three = Factor::Scaling { factor: scalar(3.0) };
    assert_eq!(a.times(&b).factors(), &vec![two, three]);
    assert_eq!(b.times(&a).factors(), &vec![three, two]);
    let entries = [scalar(0.5); 16];
    let any = Transform::matrix(entries);
    assert_eq!(any.factors(), &vec![Factor::Matrix { entries }]);
    assert_eq!(a.times(&any).factors(), &vec![two, Factor::Matrix { entries }]);
    assert_eq!(any.times(&a).factors(), &vec![Factor::Matrix { entries }, two]);
    assert_eq!(a.times(&identity), a);
    assert_eq!(identity.times(&a), a);
    assert_eq!(a.times(&b).times(&a), a.times(&b.times(&a)));
    assert_eq!(a.duplicate(), a);
}

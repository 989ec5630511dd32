use glam::{DMat4, DQuat, DVec3};
use whitted::transform::Transform;

fn sample_transform() -> Transform {
    let m = DMat4::from_rotation_translation(
        DQuat::from_axis_angle(DVec3::new(0.0, 1.0, 1.0).normalize(), 0.3 * std::f64::consts::PI),
        DVec3::new(1.0, -2.0, 3.5),
    );
    Transform::from_matrix(m)
}

#[test]
fn double_inverse_maps_points_alike() {
    let t = sample_transform();
    let p = DVec3::new(0.25, -1.5, 4.0);
    let a = t.inverse().inverse().point(p);
    let b = t.point(p);
    assert!((a - b).length() < 1e-12);
}

#[test]
fn inverse_undoes_point() {
    let t = sample_transform();
    let p = DVec3::new(0.25, -1.5, 4.0);
    let q = t.inverse().point(t.point(p));
    assert!((q - p).length() < 1e-9);
}

#[test]
fn vector_ignores_translation() {
    let t = Transform::from_matrix(DMat4::from_translation(DVec3::new(5.0, 6.0, 7.0)));
    let v = DVec3::new(1.0, 2.0, 3.0);
    assert_eq!(t.vector(v), v);
    assert_eq!(t.point(v), DVec3::new(6.0, 8.0, 10.0));
}

#[test]
fn normal_is_unit_length() {
    let t = sample_transform();
    for n in [DVec3::new(0.0, 0.0, -1.0), DVec3::new(3.0, 4.0, 0.0), DVec3::new(0.1, 0.2, 0.3)] {
        assert!((t.normal(n).length() - 1.0).abs() < 1e-12);
    }
    let s = Transform::from_matrix(DMat4::from_scale(DVec3::new(2.0, 0.5, 1.0)));
    assert!((s.normal(DVec3::new(1.0, 1.0, 1.0)).length() - 1.0).abs() < 1e-12);
}

#[test]
fn identity_leaves_points() {
    let t = Transform::identity();
    let p = DVec3::new(1.0, 2.0, 3.0);
    assert_eq!(t.point(p), p);
    assert_eq!(t.inverse().point(p), p);
}

use onlinerpg::world::{
    NoSpawnZone, Position, Scalar, EVENT_DELIVERY_RADIUS, NPC_SIGHT_RADIUS,
};

fn scalar(value: f32) -> Scalar {
    Scalar::from_bits(value.to_bits())
}

fn zone(min_x: f32, min_z: f32, max_x: f32, max_z: f32) -> NoSpawnZone {
    NoSpawnZone {
        min_x: scalar(min_x),
        min_z: scalar(min_z),
        max_x: scalar(max_x),
        max_z: scalar(max_z),
    }
}

fn contains(zone: &NoSpawnZone, x: f32, z: f32) -> bool {
    zone.contains(scalar(x), scalar(z))
}

#[test]
fn no_spawn_zone_contains_inside_and_boundary() {
    let zone = zone(-10.0, -5.0, 10.0, 5.0);
    assert!(contains(&zone, 0.0, 0.0));
    assert!(contains(&zone, -10.0, -5.0));
    assert!(contains(&zone, 10.0, 5.0));
    assert!(contains(&zone, -10.0, 5.0));
    assert!(contains(&zone, 10.0, -5.0));
    assert!(!contains(&zone, -10.1, 0.0));
    assert!(!contains(&zone, 10.1, 0.0));
    assert!(!contains(&zone, 0.0, -5.1));
    assert!(!contains(&zone, 0.0, 5.1));
}

#[test]
fn no_spawn_zone_degenerate_point_zone() {
    // A zero-area zone still matches its single point.
    let zone = zone(3.0, 7.0, 3.0, 7.0);
    assert!(contains(&zone, 3.0, 7.0));
    assert!(!contains(&zone, 3.0001, 7.0));
}

#[test]
fn numbers_compare_as_the_machine_compares_them() {
    let values = [
        0.0f32,
        -0.0,
        1.0,
        -1.0,
        1.5,
        -27.25,
        16_416.0,
        -16_416.0,
        f32::MIN_POSITIVE,
        -f32::MIN_POSITIVE,
        f32::from_bits(1),
        f32::from_bits(0x8000_0001),
        f32::from_bits(0x007f_ffff),
        f32::MAX,
        f32::MIN,
        f32::INFINITY,
        f32::NEG_INFINITY,
        f32::NAN,
        -f32::NAN,
    ];
    for a in values {
        assert_eq!(scalar(a).is_finite(), a.is_finite(), "{a}");
        for b in values {
            assert_eq!(scalar(a).le(scalar(b)), a <= b, "{a} <= {b}");
        }
    }
}

#[test]
fn nan_is_in_no_zone() {
    let zone = zone(f32::NEG_INFINITY, f32::NEG_INFINITY, f32::INFINITY, f32::INFINITY);
    assert!(contains(&zone, 1.0e30, -1.0e30));
    assert!(!contains(&zone, f32::NAN, 0.0));
    assert!(!contains(&zone, 0.0, f32::NAN));
}

#[test]
fn a_position_is_finite_in_every_component() {
    let at = |x: f32, y: f32, z: f32| Position { x: scalar(x), y: scalar(y), z: scalar(z) };
    assert!(at(1.0, -2.0, 3.0e38).is_finite());
    assert!(!at(f32::NAN, 0.0, 0.0).is_finite());
    assert!(!at(0.0, f32::INFINITY, 0.0).is_finite());
    assert!(!at(0.0, 0.0, f32::NEG_INFINITY).is_finite());
}

#[test]
fn delivery_radius_covers_sight_radius() {
    assert_eq!(f32::from_bits(NPC_SIGHT_RADIUS), 27.0);
    assert_eq!(f32::from_bits(EVENT_DELIVERY_RADIUS), 43.0);
    assert!(Scalar::from_bits(NPC_SIGHT_RADIUS).le(Scalar::from_bits(EVENT_DELIVERY_RADIUS)));
}

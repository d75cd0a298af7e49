use flappy_bevy::body::Body;
use flappy_bevy::geometry::{HitCircle, Vec2};
use flappy_bevy::viewport::Viewport;

fn view(width: i64, height: i64) -> Viewport {
    Viewport::new(width, height).unwrap()
}

#[test]
fn viewport_rejects_sides_out_of_range() {
    assert_eq!(Viewport::new(8000, 6000), Some(Viewport { width: 8000, height: 6000 }));
    assert_eq!(Viewport::new(0, 0), Some(Viewport { width: 0, height: 0 }));
    assert!(Viewport::new(1_000_000_000, 1_000_000_000).is_some());
    assert_eq!(Viewport::new(-1, 6000), None);
    assert_eq!(Viewport::new(8000, -1), None);
    assert_eq!(Viewport::new(1_000_000_001, 6000), None);
    assert_eq!(Viewport::new(8000, 1_000_000_001), None);
    assert!(Viewport { width: 1, height: 1 }.is_valid());
    assert!(!Viewport { width: -1, height: 1 }.is_valid());
    assert_eq!(view(8001, 6001).half_width(), 4000);
    assert_eq!(view(8001, 6001).half_height(), 3000);
}

#[test]
fn body_starts_in_its_spawn_pose() {
    let body = Body::new(&view(8000, 6000), 270, 200).unwrap();
    assert_eq!(
        body,
        Body {
            position: Vec2 { x: -4000 + 540, y: 0 },
            velocity: Vec2 { x: 0, y: 0 },
            torso_radius: 270,
            head_radius: 200,
        }
    );
    assert_eq!(body.diameter_units(), 1350);
}

#[test]
fn body_rejects_radii_out_of_range() {
    assert!(Body::new(&view(8000, 6000), -1, 200).is_none());
    assert!(Body::new(&view(8000, 6000), 270, -1).is_none());
    assert!(Body::new(&view(8000, 6000), 1_000_001, 200).is_none());
    assert!(Body::new(&view(8000, 6000), 270, 1_000_001).is_none());
    assert!(Body::new(&view(8000, 6000), 0, 0).is_some());
    assert!(Body::new(&view(8000, 6000), 1_000_000, 1_000_000).is_some());
}

#[test]
fn gravity_adds_to_velocity_and_velocity_to_position() {
    let mut body = Body::new(&view(8000, 6000), 270, 200).unwrap();
    body.fall();
    assert_eq!(body.velocity, Vec2 { x: 0, y: -2 });
    assert_eq!(body.position, Vec2 { x: -3460, y: -2 });
    body.fall();
    assert_eq!(body.velocity, Vec2 { x: 0, y: -4 });
    assert_eq!(body.position, Vec2 { x: -3460, y: -6 });
    for _ in 0..8 {
        body.fall();
    }
    assert_eq!(body.velocity.y, -20);
    assert_eq!(body.position.y, -110);
}

#[test]
fn flap_overwrites_the_vertical_velocity() {
    let viewport = view(8000, 6000);
    let mut body = Body::new(&viewport, 270, 200).unwrap();
    for _ in 0..5 {
        body.fall();
    }
    body.flap(&viewport);
    assert_eq!(body.velocity, Vec2 { x: 0, y: 60 });
    assert_eq!(body.position.y, -30);
    body.flap(&viewport);
    assert_eq!(body.velocity.y, 60);
    body.fall();
    assert_eq!(body.velocity.y, 58);
    assert_eq!(body.position.y, 28);
}

#[test]
fn flap_is_refused_at_the_top_of_the_visible_area() {
    let viewport = view(8000, 6000);
    let mut body = Body::new(&viewport, 270, 200).unwrap();
    body.position.y = 3000;
    body.velocity.y = -8;
    body.flap(&viewport);
    assert_eq!(body.velocity.y, -8);
    body.position.y = 2999;
    body.flap(&viewport);
    assert_eq!(body.velocity.y, 60);
}

#[test]
fn gravity_keeps_the_energy() {
    let viewport = view(8000, 6000);
    let mut body = Body::new(&viewport, 270, 200).unwrap();
    body.flap(&viewport);
    let energy = |b: &Body| 4 * b.position.y + b.velocity.y * (b.velocity.y - 2);
    let before = energy(&body);
    assert_eq!(before, 3480);
    for _ in 0..100 {
        body.fall();
        assert_eq!(energy(&body), before);
    }
}

#[test]
fn hit_circles_follow_the_body() {
    let mut body = Body::new(&view(8000, 6000), 270, 200).unwrap();
    assert_eq!(body.torso(), HitCircle { center: Vec2 { x: -3190, y: -270 }, radius: 270 });
    assert_eq!(body.head(), HitCircle { center: Vec2 { x: -2990, y: 250 }, radius: 200 });
    body.fall();
    body.fall();
    assert_eq!(body.torso().center, Vec2 { x: -3190, y: -276 });
    assert_eq!(body.head().center, Vec2 { x: -2990, y: 244 });
}

#[test]
fn anchor_follows_the_visible_area() {
    let mut body = Body::new(&view(8000, 6000), 270, 200).unwrap();
    body.fall();
    body.anchor(&view(10_001, 6000));
    assert_eq!(body.position, Vec2 { x: -5000 + 540, y: -2 });
    assert_eq!(body.velocity, Vec2 { x: 0, y: -2 });
}

#[test]
fn reset_restores_the_spawn_pose() {
    let viewport = view(8000, 6000);
    let mut body = Body::new(&viewport, 270, 200).unwrap();
    body.flap(&viewport);
    for _ in 0..7 {
        body.fall();
    }
    body.reset(&view(6000, 4000));
    assert_eq!(body, Body::new(&view(6000, 4000), 270, 200).unwrap());
}

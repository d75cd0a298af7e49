use flappy_bevy::body::Body;
use flappy_bevy::collision::{hit_ground, hit_obstacle, hit_wall};
use flappy_bevy::geometry::Vec2;
use flappy_bevy::obstacle::{move_obstacles, sweep_obstacles, Obstacle};
use flappy_bevy::viewport::Viewport;

fn view(width: i64, height: i64) -> Viewport {
    Viewport::new(width, height).unwrap()
}

fn body_at(x: i64, y: i64) -> Body {
    Body {
        position: Vec2 { x, y },
        velocity: Vec2 { x: 0, y: 0 },
        torso_radius: 200,
        head_radius: 150,
    }
}

#[test]
fn body_one_unit_below_the_ground_line_is_grounded() {
    let viewport = view(8000, 6000);
    // The ground line is at -3000 + 200.
    assert!(hit_ground(&body_at(0, -2801), &viewport));
    assert!(!hit_ground(&body_at(0, -2800), &viewport));
    assert!(!hit_ground(&body_at(0, 0), &viewport));
    assert!(hit_ground(&body_at(0, -1_000_000), &viewport));
}

#[test]
fn ground_line_follows_the_visible_area() {
    assert!(!hit_ground(&body_at(0, -2801), &view(8000, 6004)));
    assert!(hit_ground(&body_at(0, 0), &view(8000, 0)));
    assert!(hit_ground(&body_at(0, 199), &view(8000, 1)));
    assert!(!hit_ground(&body_at(0, 200), &view(8000, 1)));
}

#[test]
fn torso_strikes_an_obstacle() {
    // The torso's circle is around (270, -270) with radius 200.
    let body = body_at(0, 0);
    let beside = Obstacle { x: 270 + 200 + 640, bottom: -5000, top: -270 };
    assert!(hit_obstacle(&body, &beside));
    let apart = Obstacle { x: 270 + 200 + 641, bottom: -5000, top: -270 };
    assert!(!hit_obstacle(&body, &apart));
    let below = Obstacle { x: 270, bottom: -5000, top: -470 };
    assert!(hit_obstacle(&body, &below));
    let lower = Obstacle { x: 270, bottom: -5000, top: -471 };
    assert!(!hit_obstacle(&body, &lower));
}

#[test]
fn head_strikes_an_obstacle_on_its_own() {
    // The head's circle is around (470, 250) with radius 150.
    let body = body_at(0, 0);
    let above = Obstacle { x: 470 + 640, bottom: 400, top: 5000 };
    assert!(hit_obstacle(&body, &above));
    let higher = Obstacle { x: 470 + 640, bottom: 401, top: 5000 };
    assert!(!hit_obstacle(&body, &higher));
    // Near the corner of the box the distance counts, not each axis alone.
    let corner_near = Obstacle { x: 470 + 90 + 640, bottom: 250 + 120, top: 5000 };
    assert!(hit_obstacle(&body, &corner_near));
    let corner_far = Obstacle { x: 470 + 107 + 640, bottom: 250 + 107, top: 5000 };
    assert!(!hit_obstacle(&body, &corner_far));
}

#[test]
fn any_live_obstacle_can_strike() {
    let body = body_at(0, 0);
    let far = Obstacle { x: 5000, bottom: -3000, top: -1000 };
    let near = Obstacle { x: 470 + 640, bottom: 400, top: 5000 };
    assert!(!hit_wall(&body, &vec![]));
    assert!(!hit_wall(&body, &vec![far, far]));
    assert!(hit_wall(&body, &vec![far, near]));
    assert!(hit_wall(&body, &vec![near, far]));
    assert!(hit_wall(&body, &vec![near, near, far]));
}

#[test]
fn body_passes_through_a_hole() {
    let body = body_at(0, 0);
    let upper = Obstacle { x: 400, bottom: 401, top: 3000 };
    let lower = Obstacle { x: 400, bottom: -3000, top: -471 };
    assert!(!hit_wall(&body, &vec![upper, lower]));
}

#[test]
fn obstacles_move_at_constant_speed() {
    let obstacles = vec![
        Obstacle { x: 5920, bottom: 2300, top: 3000 },
        Obstacle { x: -100, bottom: -3000, top: -1700 },
    ];
    let moved = move_obstacles(&obstacles);
    assert_eq!(
        moved,
        vec![
            Obstacle { x: 5880, bottom: 2300, top: 3000 },
            Obstacle { x: -140, bottom: -3000, top: -1700 },
        ]
    );
    assert_eq!(move_obstacles(&vec![]), vec![]);
}

#[test]
fn bounding_box_is_taken_from_the_present_position() {
    let obstacle = Obstacle { x: 5920, bottom: 2300, top: 3000 };
    let bounds = obstacle.bounding_box();
    assert_eq!(bounds.min, Vec2 { x: 5280, y: 2300 });
    assert_eq!(bounds.max, Vec2 { x: 6560, y: 3000 });
    let later = obstacle.advanced().bounding_box();
    assert_eq!(later.min, Vec2 { x: 5240, y: 2300 });
    assert_eq!(later.max, Vec2 { x: 6520, y: 3000 });
}

#[test]
fn obstacles_left_of_the_visible_width_are_removed() {
    let viewport = view(8000, 6000);
    let gone = Obstacle { x: -8001, bottom: 0, top: 10 };
    let edge = Obstacle { x: -8000, bottom: 0, top: 20 };
    let live = Obstacle { x: 100, bottom: 0, top: 30 };
    assert_eq!(sweep_obstacles(&vec![gone, edge, live, gone, live], &viewport), vec![edge, live, live]);
    assert_eq!(sweep_obstacles(&vec![gone, gone], &viewport), vec![]);
    assert_eq!(sweep_obstacles(&vec![], &viewport), vec![]);
    assert_eq!(sweep_obstacles(&vec![live, edge], &viewport), vec![live, edge]);
}

#[test]
fn tile_rows_count_whole_tiles_below_the_height() {
    let rows = |height: i64| Obstacle { x: 0, bottom: 0, top: height }.count_tile_rows();
    assert_eq!(rows(0), 0);
    assert_eq!(rows(1), 0);
    assert_eq!(rows(1280), 0);
    assert_eq!(rows(1281), 1);
    assert_eq!(rows(2560), 1);
    assert_eq!(rows(2561), 2);
    assert_eq!(rows(6000), 4);
}

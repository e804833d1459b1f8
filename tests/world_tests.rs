use robot_sim::frame::{Fill, Tile, CELL_SIZE};
use robot_sim::input::Key;
use robot_sim::robot::{clamp_coordinate, Robot, GRID_SIZE};
use robot_sim::world::{World, OBSTACLE_COUNT};

fn world_at(x: usize, y: usize, obstacles: Vec<(usize, usize)>) -> World {
    World::with_obstacles(Robot::new(x, y), obstacles)
}

#[test]
fn robot_move_clamps_to_grid() {
    let mut r = Robot::new(0, GRID_SIZE - 1);
    r.move_robot(-3, 5);
    assert_eq!((r.x, r.y), (0, GRID_SIZE - 1));
    r.move_robot(isize::MAX, isize::MIN);
    assert_eq!((r.x, r.y), (GRID_SIZE - 1, 0));
    r.move_robot(-4, 7);
    assert_eq!((r.x, r.y), (GRID_SIZE - 5, 7));
}

#[test]
fn robot_move_stays_in_grid_for_every_start() {
    for x in 0..GRID_SIZE {
        for y in 0..GRID_SIZE {
            for (dx, dy) in [(-1, 0), (1, 0), (0, -1), (0, 1), (-25, 25), (25, -25)] {
                let mut r = Robot::new(x, y);
                r.move_robot(dx, dy);
                assert!(r.x <= GRID_SIZE - 1 && r.y <= GRID_SIZE - 1);
            }
        }
    }
}

#[test]
fn clamp_coordinate_values() {
    assert_eq!(clamp_coordinate(3, -5), 0);
    assert_eq!(clamp_coordinate(3, 4), 7);
    assert_eq!(clamp_coordinate(19, 1), 19);
    assert_eq!(clamp_coordinate(0, isize::MIN), 0);
}

#[test]
fn moving_up_from_top_row_stays() {
    let mut r = Robot::new(7, 0);
    r.move_robot(0, -1);
    assert_eq!((r.x, r.y), (7, 0));
    let mut w = world_at(7, 0, vec![]);
    w.press(Key::Up);
    assert_eq!(w.position(), (7, 0));
}

#[test]
fn obstacle_rejects_move() {
    let mut w = world_at(5, 5, vec![(5, 4)]);
    w.move_robot(0, -1);
    assert_eq!(w.position(), (5, 5));
    w.press(Key::Up);
    assert_eq!(w.position(), (5, 5));
}

#[test]
fn free_cell_accepts_move() {
    let mut w = world_at(5, 5, vec![(5, 4)]);
    w.move_robot(1, 0);
    assert_eq!(w.position(), (6, 5));
}

#[test]
fn duplicate_obstacles_act_once() {
    let mut w = world_at(5, 5, vec![(6, 5), (6, 5)]);
    assert!(w.is_obstacle(6, 5));
    assert!(!w.is_obstacle(4, 5));
    w.press(Key::Right);
    assert_eq!(w.position(), (5, 5));
    w.press(Key::Left);
    assert_eq!(w.position(), (4, 5));
}

#[test]
fn generate_ten_obstacles_in_grid() {
    let obstacles = World::generate_obstacles(10);
    assert_eq!(obstacles.len(), 10);
    for &(x, y) in &obstacles {
        assert!(x < GRID_SIZE && y < GRID_SIZE);
    }
    assert!(World::generate_obstacles(0).is_empty());
}

#[test]
fn new_world_starts_at_centre() {
    let w = World::new();
    assert_eq!(w.position(), (GRID_SIZE / 2, GRID_SIZE / 2));
    assert_eq!(w.position(), (10, 10));
    assert_eq!(w.obstacles.len(), OBSTACLE_COUNT);
}

#[test]
fn other_key_is_ignored() {
    let mut w = world_at(5, 5, vec![(5, 4)]);
    w.press(Key::Other);
    assert_eq!(w.position(), (5, 5));
    assert_eq!(w.obstacles, vec![(5, 4)]);
}

#[test]
fn keys_map_to_unit_steps() {
    assert_eq!(Key::Up.delta(), Some((0, -1)));
    assert_eq!(Key::Down.delta(), Some((0, 1)));
    assert_eq!(Key::Left.delta(), Some((-1, 0)));
    assert_eq!(Key::Right.delta(), Some((1, 0)));
    assert_eq!(Key::Other.delta(), None);
    let mut w = world_at(5, 5, vec![]);
    w.press(Key::Down);
    assert_eq!(w.position(), (5, 6));
    w.press(Key::Left);
    assert_eq!(w.position(), (4, 6));
}

#[test]
fn frame_lists_grid_then_obstacles_then_robot() {
    let w = world_at(3, 4, vec![(1, 2), (19, 0)]);
    let tiles = w.frame();
    assert_eq!(tiles.len(), GRID_SIZE * GRID_SIZE + 3);
    assert_eq!(tiles[0], Tile { left: 0, top: 0, side: CELL_SIZE, fill: Fill::Grid });
    assert_eq!(tiles[1 * GRID_SIZE + 2], Tile { left: 20, top: 40, side: 20, fill: Fill::Grid });
    assert_eq!(tiles[400], Tile { left: 20, top: 40, side: 20, fill: Fill::Obstacle });
    assert_eq!(tiles[401], Tile { left: 380, top: 0, side: 20, fill: Fill::Obstacle });
    assert_eq!(tiles[402], Tile { left: 60, top: 80, side: 20, fill: Fill::Robot });
}

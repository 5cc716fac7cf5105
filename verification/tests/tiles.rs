use raycaster::direction::Direction;
use raycaster::tile::Tile;

#[test]
fn air_is_passable_and_wall_is_solid() {
    assert!(!Tile::Air.is_solid());
    assert!(Tile::Wall.is_solid());
}

#[test]
fn default_tile_is_air() {
    assert_eq!(Tile::default(), Tile::Air);
}

#[test]
fn direction_unit_vectors() {
    assert_eq!(Direction::North.vec(), (0, 1));
    assert_eq!(Direction::South.vec(), (0, -1));
    assert_eq!(Direction::East.vec(), (1, 0));
    assert_eq!(Direction::West.vec(), (-1, 0));
}

#[test]
fn direction_angles_in_degrees() {
    assert_eq!(Direction::East.angle(), 0);
    assert_eq!(Direction::North.angle(), 90);
    assert_eq!(Direction::West.angle(), 180);
    assert_eq!(Direction::South.angle(), 270);
}

#[test]
fn direction_angle_matches_unit_vector() {
    for d in [Direction::North, Direction::South, Direction::East, Direction::West] {
        let radians = f64::from(d.angle()).to_radians();
        let (x, y) = d.vec();
        assert!((radians.cos() - f64::from(x)).abs() < 1e-12);
        assert!((radians.sin() - f64::from(y)).abs() < 1e-12);
    }
}

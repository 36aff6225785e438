//! Tests of `map`.

use cc_core::coords::{GridPos};
use cc_core::map::{GameMap};

#[test]
fn new_map_all_passable() {
    let map = GameMap::new(10, 10);
    for y in 0..10 {
        for x in 0..10 {
            assert!(map.is_passable(GridPos::new(x, y)));
        }
    }
}

#[test]
fn out_of_bounds_not_passable() {
    let map = GameMap::new(10, 10);
    assert!(!map.is_passable(GridPos::new(-1, 0)));
    assert!(!map.is_passable(GridPos::new(0, -1)));
    assert!(!map.is_passable(GridPos::new(10, 0)));
    assert!(!map.is_passable(GridPos::new(0, 10)));
}

#[test]
fn set_impassable() {
    let mut map = GameMap::new(10, 10);
    let pos = GridPos::new(5, 5);
    map.get_mut(pos).unwrap().passable = false;
    assert!(!map.is_passable(pos));
}

#[test]
fn neighbors_corner() {
    let map = GameMap::new(10, 10);
    let neighbors = map.neighbors(GridPos::new(0, 0));
    // Corner has 3 neighbors (right, down-right, down)
    assert_eq!(neighbors.len(), 3);
}

#[test]
fn neighbors_center() {
    let map = GameMap::new(10, 10);
    let neighbors = map.neighbors(GridPos::new(5, 5));
    assert_eq!(neighbors.len(), 8);
}

#[test]
fn neighbors_excludes_impassable() {
    let mut map = GameMap::new(10, 10);
    map.get_mut(GridPos::new(6, 5)).unwrap().passable = false;
    map.get_mut(GridPos::new(4, 5)).unwrap().passable = false;
    let neighbors = map.neighbors(GridPos::new(5, 5));
    assert_eq!(neighbors.len(), 6);
}

//! Tests of `coords`.

use cc_core::coords::{GridPos, WorldPos};
use cc_core::math::{Fixed};

#[test]
fn grid_world_round_trip() {
    for (gx, gy) in [(0, 0), (5, 3), (-2, 7), (10, 10)] {
        let grid = GridPos::new(gx, gy);
        let world = WorldPos::from_grid(grid);
        let back = world.to_grid();
        assert_eq!(grid, back, "round trip failed for ({gx}, {gy})");
    }
}

#[test]
fn to_grid_negative_coords_use_floor() {
    // -0.5 should map to grid -1, not 0 (truncation toward zero would give 0)
    let world = WorldPos::new(Fixed::from_bits(-32768), Fixed::from_bits(-32768));
    let grid = world.to_grid();
    assert_eq!(grid, GridPos::new(-1, -1));

    // -1.9 should map to grid -2
    let world2 = WorldPos::new(Fixed::from_bits(-124518), Fixed::from_bits(-124518));
    let grid2 = world2.to_grid();
    assert_eq!(grid2, GridPos::new(-2, -2));

    // Positive values still work: 1.9 → 1
    let world3 = WorldPos::new(Fixed::from_bits(124518), Fixed::from_bits(124518));
    let grid3 = world3.to_grid();
    assert_eq!(grid3, GridPos::new(1, 1));
}

//! Tests of `map_gen`.

use cc_core::map_gen::{MapSize};

// --- New tests ---

#[test]
fn map_size_dimensions_correct() {
    assert_eq!(MapSize::Small.dimensions(), (48, 48));
    assert_eq!(MapSize::Medium.dimensions(), (64, 64));
    assert_eq!(MapSize::Large.dimensions(), (96, 96));
}

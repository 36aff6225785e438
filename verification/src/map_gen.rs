//! Integer stages of procedural map generation: size presets, zone, lane and
//! ford brushes, ramps, the noise-detail eligibility test, spawn layouts,
//! base sculpting, resource and camp placement, symmetry enforcement, and
//! connectivity checking and repair.

use crate::coords::GridPos;
use crate::map::{neighbor_cells, GameMap, TileData};
use crate::map_format::{CampTier, MapSymmetry, NeutralCamp, ResourceKind, ResourcePlacement};
use crate::terrain::{FactionId, TerrainType, FLAG_TEMP_BLOCKED};
use crate::text::{concat2, decimal, i64_text, owned, signed_decimal, u64_text};
use vstd::prelude::*;

verus! {

/// Map template defining macro-level strategic layout.
#[derive(Debug, Clone, Copy, PartialEq, Eq, Structural)]
pub enum MapTemplate {
    /// Central river valley with bridge chokepoints and elevated flanks.
    Valley,
    /// Open map with 3 roads crossing at a fortified center.
    Crossroads,
    /// Heavily fortified base areas with narrow approaches (laid out as Valley).
    Fortress,
    /// Water-dominated map with island bases (laid out as Valley).
    Islands,
}

impl Default for MapTemplate {
    fn default() -> (t: MapTemplate)
        ensures
            t == MapTemplate::Valley,
    {
        MapTemplate::Valley
    }
}

/// Predefined map dimensions.
#[derive(Debug, Clone, Copy, PartialEq, Eq, Structural)]
pub enum MapSize {
    /// 48x48
    Small,
    /// 64x64
    Medium,
    /// 96x96
    Large,
}

impl Default for MapSize {
    fn default() -> (s: MapSize)
        ensures
            s == MapSize::Medium,
    {
        MapSize::Medium
    }
}

impl MapSize {
    /// Square side length of this size: 48, 64 or 96 tiles.
    pub open spec fn side(self) -> u32 {
        match self {
            MapSize::Small => 48,
            MapSize::Medium => 64,
            MapSize::Large => 96,
        }
    }

    /// Return (width, height) for this size.
    pub fn dimensions(self) -> (d: (u32, u32))
        ensures
            d == (self.side(), self.side()),
    {
        match self {
            MapSize::Small => (48, 48),
            MapSize::Medium => (64, 64),
            MapSize::Large => (96, 96),
        }
    }
}

// ---------------------------------------------------------------------------
// Connectivity
// ---------------------------------------------------------------------------

/// One step of a land unit's walk: `q` is one of the eight cells around `p`, it
/// is walkable for the default land faction, and the elevation rule allows it.
pub open spec fn land_step(m: GameMap, p: GridPos, q: GridPos) -> bool {
    &&& neighbor_cells(p).contains(q)
    &&& m.spec_is_passable_for(q, FactionId::CatGPT)
    &&& m.spec_can_move_between(p, q)
}

/// `path` is a walk of land steps.
pub open spec fn is_land_path(m: GameMap, path: Seq<GridPos>) -> bool {
    &&& path.len() >= 1
    &&& forall|i: int| 0 <= i < path.len() - 1 ==> #[trigger] land_step(m, path[i], path[i + 1])
}

/// A land unit standing on `s` can walk to `q`.
pub open spec fn land_reachable(m: GameMap, s: GridPos, q: GridPos) -> bool {
    exists|path: Seq<GridPos>| #[trigger] is_land_path(m, path) && path[0] == s && path.last() == q
}

/// Coordinates small enough that every neighbor computation stays in `i32`.
pub open spec fn coord_ok(p: GridPos) -> bool {
    i32::MIN < p.x < i32::MAX && i32::MIN < p.y < i32::MAX
}

/// A walk extended by one more land step is still a walk.
proof fn lemma_reach_extend(m: GameMap, s: GridPos, p: GridPos, q: GridPos)
    requires
        p == s || land_reachable(m, s, p),
        land_step(m, p, q),
    ensures
        land_reachable(m, s, q),
{
    if p == s {
        let single = seq![s];
        assert(is_land_path(m, single));
        assert(single.last() == s);
    }
    let path = choose|path: Seq<GridPos>| #[trigger] is_land_path(m, path) && path[0] == s && path.last() == p;
    let np = path.push(q);
    assert forall|i: int| 0 <= i < np.len() - 1 implies #[trigger] land_step(m, np[i], np[i + 1]) by {
        if i < path.len() - 1 {
            assert(land_step(m, path[i], path[i + 1]));
        }
    }
    assert(is_land_path(m, np));
}

/// A set of cells that holds `s` and is closed under land steps holds every
/// cell reachable from `s`.
pub proof fn lemma_closed_set_holds_reachable(m: GameMap, s: GridPos, r: spec_fn(GridPos) -> bool, q: GridPos)
    requires
        r(s),
        forall|p: GridPos, n: GridPos| r(p) && #[trigger] land_step(m, p, n) ==> r(n),
        land_reachable(m, s, q),
    ensures
        r(q),
{
    let path = choose|path: Seq<GridPos>| #[trigger] is_land_path(m, path) && path[0] == s && path.last() == q;
    lemma_closed_prefix(m, s, r, path, path.len() - 1);
}

proof fn lemma_closed_prefix(m: GameMap, s: GridPos, r: spec_fn(GridPos) -> bool, path: Seq<GridPos>, k: int)
    requires
        r(s),
        forall|p: GridPos, n: GridPos| r(p) && #[trigger] land_step(m, p, n) ==> r(n),
        is_land_path(m, path),
        path[0] == s,
        0 <= k < path.len(),
    ensures
        r(path[k]),
    decreases k,
{
    if k > 0 {
        lemma_closed_prefix(m, s, r, path, k - 1);
        let i = k - 1;
        assert(land_step(m, path[i], path[i + 1]));
    }
}

/// Number of `true` entries in a mask.
pub open spec fn count_true(s: Seq<bool>) -> nat
    decreases s.len(),
{
    if s.len() == 0 {
        0
    } else {
        count_true(s.drop_last()) + if s.last() { 1nat } else { 0nat }
    }
}

proof fn lemma_count_true_bound(s: Seq<bool>)
    ensures
        count_true(s) <= s.len(),
    decreases s.len(),
{
    if s.len() > 0 {
        lemma_count_true_bound(s.drop_last());
    }
}

proof fn lemma_count_true_set(s: Seq<bool>, i: int)
    requires
        0 <= i < s.len(),
        !s[i],
    ensures
        count_true(s.update(i, true)) == count_true(s) + 1,
    decreases s.len(),
{
    let t = s.update(i, true);
    if i == s.len() - 1 {
        assert(t.drop_last() =~= s.drop_last());
    } else {
        assert(t.drop_last() =~= s.drop_last().update(i, true));
        lemma_count_true_set(s.drop_last(), i);
    }
}

proof fn lemma_count_true_none(s: Seq<bool>)
    requires
        forall|j: int| 0 <= j < s.len() ==> !s[j],
    ensures
        count_true(s) == 0,
    decreases s.len(),
{
    if s.len() > 0 {
        lemma_count_true_none(s.drop_last());
    }
}

/// Membership in the set of cells found by a flood fill from `start`: the start
/// itself, or a map cell whose mask entry is set.
pub open spec fn in_found(m: GameMap, mask: Seq<bool>, start: GridPos, q: GridPos) -> bool {
    q == start || (m.spec_in_bounds(q) && mask[m.spec_index(q)])
}

/// Breadth-first flood fill from `start` over land steps. The result marks, for
/// every map cell, whether a land unit standing on `start` can walk to it.
fn flood_fill_passable(map: &GameMap, start: GridPos) -> (mask: Vec<bool>)
    requires
        map.wf(),
        coord_ok(start),
        map.width <= i32::MAX,
        map.height <= i32::MAX,
    ensures
        mask@.len() == map.tiles_view().len(),
        forall|q: GridPos| map.spec_in_bounds(q) ==> (#[trigger] mask@[map.spec_index(q)] <==> (q == start
            || land_reachable(*map, start, q))),
{
    let n = map.tiles.len();
    let mut mask: Vec<bool> = Vec::new();
    let mut i: usize = 0;
    while i < n
        invariant
            i <= n,
            mask@.len() == i,
            forall|j: int| 0 <= j < i ==> !mask@[j],
        decreases n - i,
    {
        mask.push(false);
        i = i + 1;
    }
    proof {
        lemma_count_true_none(mask@);
    }
    let mut work: Vec<GridPos> = Vec::new();
    if map.in_bounds(start) {
        proof {
            crate::map::lemma_grid_index_bounds(map.width as int, map.height as int, start.x as int, start.y as int);
        }
        let si = (start.y as u32 * map.width + start.x as u32) as usize;
        proof {
            lemma_count_true_set(mask@, si as int);
        }
        mask.set(si, true);
    }
    work.push(start);
    let ghost mut marked: nat = count_true(mask@);
    let ghost m = *map;
    proof {
        assert forall|q: GridPos| #[trigger] in_found(m, mask@, start, q) implies q == start
            || land_reachable(m, start, q) by {
            if q != start && m.spec_in_bounds(q) {
                crate::map::lemma_grid_index_bounds(m.width as int, m.height as int, q.x as int, q.y as int);
                if m.spec_in_bounds(start) {
                    crate::map::lemma_grid_index_bounds(m.width as int, m.height as int, start.x as int, start.y as int);
                }
            }
        }
        assert(work@[0] == start);
        assert forall|p: GridPos, q: GridPos|
            in_found(m, mask@, start, p) && !work@.contains(p) && #[trigger] land_step(m, p, q)
                implies in_found(m, mask@, start, q) by {
            if in_found(m, mask@, start, p) {
                assert(p == start || land_reachable(m, start, p));
                if p != start && m.spec_in_bounds(p) {
                    crate::map::lemma_grid_index_bounds(m.width as int, m.height as int, p.x as int, p.y as int);
                    crate::map::lemma_grid_index_bounds(m.width as int, m.height as int, start.x as int, start.y as int);
                }
                assert(work@.contains(start));
            }
        }
    }
    // Every found cell is reachable, every queued cell is found, and every found
    // cell that is not queued has all its land steps found.
    while work.len() > 0
        invariant
            m == *map,
            map.wf(),
            coord_ok(start),
            map.width <= i32::MAX,
            map.height <= i32::MAX,
            mask@.len() == map.tiles_view().len(),
            marked == count_true(mask@),
            in_found(m, mask@, start, start),
            m.spec_in_bounds(start) ==> mask@[m.spec_index(start)],
            forall|q: GridPos| #[trigger] in_found(m, mask@, start, q) ==> q == start || land_reachable(m, start, q),
            forall|k: int| 0 <= k < work@.len() ==> #[trigger] in_found(m, mask@, start, work@[k]),
            forall|k: int| 0 <= k < work@.len() ==> coord_ok(#[trigger] work@[k]),
            forall|p: GridPos, q: GridPos|
                in_found(m, mask@, start, p) && !work@.contains(p) && #[trigger] land_step(m, p, q)
                    ==> in_found(m, mask@, start, q),
        decreases 9 * (mask@.len() - marked) + work@.len(),
    {
        proof {
            lemma_count_true_bound(mask@);
        }
        let ghost work_before = work@;
        let pos = work.pop().unwrap();
        proof {
            assert(work_before == work@.push(pos));
            assert(work_before[work_before.len() - 1] == pos);
        }
        let nbrs = map.neighbors_for_faction(pos, FactionId::CatGPT);
        let ghost mask0 = mask@;
        let ghost work0 = work@;
        let mut k: usize = 0;
        while k < nbrs.len()
            invariant
                m == *map,
                map.wf(),
                map.width <= i32::MAX,
                map.height <= i32::MAX,
                coord_ok(start),
                coord_ok(pos),
                nbrs@ == m.spec_neighbors_for(pos, FactionId::CatGPT),
                0 <= k <= nbrs@.len() <= 8,
                mask@.len() == map.tiles_view().len(),
                marked == count_true(mask@),
                work@.len() >= work0.len(),
                count_true(mask@) == count_true(mask0) + (work@.len() - work0.len()),
                work@.subrange(0, work0.len() as int) == work0,
                in_found(m, mask@, start, start),
                m.spec_in_bounds(start) ==> mask@[m.spec_index(start)],
                in_found(m, mask0, start, pos),
                forall|q: GridPos| #[trigger] in_found(m, mask0, start, q) ==> in_found(m, mask@, start, q),
                forall|q: GridPos| #[trigger] in_found(m, mask@, start, q) ==> q == start || land_reachable(m, start, q),
                forall|j: int| 0 <= j < work@.len() ==> #[trigger] in_found(m, mask@, start, work@[j]),
                forall|j: int| 0 <= j < work@.len() ==> coord_ok(#[trigger] work@[j]),
                forall|j: int| 0 <= j < k ==> #[trigger] in_found(m, mask@, start, nbrs@[j])
                    || !m.spec_can_move_between(pos, nbrs@[j]),
                forall|q: GridPos|
                    #[trigger] in_found(m, mask@, start, q) && !in_found(m, mask0, start, q) ==> work@.contains(q),
            decreases nbrs@.len() - k,
        {
            let nb = nbrs[k];
            proof {
                crate::map::lemma_neighbors_exact(m, pos, nb);
                let pred = |p: GridPos| m.spec_is_passable_for(p, FactionId::CatGPT);
                neighbor_cells(pos).lemma_filter_pred(pred, k as int);
                neighbor_cells(pos).lemma_filter_contains_rev(pred, nb);
            }
            // `nb` is one of the eight cells around `pos`, on the map and walkable.
            proof {
                crate::map::lemma_grid_index_bounds(map.width as int, map.height as int, nb.x as int, nb.y as int);
            }
            let ni = (nb.y as u32 * map.width + nb.x as u32) as usize;
            if !mask[ni] && map.can_move_between(pos, nb) {
                proof {
                    lemma_count_true_set(mask@, ni as int);
                    lemma_reach_extend(m, start, pos, nb);
                }
                let ghost before = mask@;
                let ghost wbefore = work@;
                mask.set(ni, true);
                work.push(nb);
                proof {
                    marked = marked + 1;
                    assert(work@.subrange(0, work0.len() as int) =~= wbefore.subrange(0, work0.len() as int));
                    assert forall|q: GridPos| #[trigger] in_found(m, mask0, start, q) implies in_found(m, mask@, start, q) by {
                        if q != start {
                            crate::map::lemma_grid_index_bounds(m.width as int, m.height as int, q.x as int, q.y as int);
                            assert(in_found(m, before, start, q));
                        }
                    }
                    if m.spec_in_bounds(start) {
                        crate::map::lemma_grid_index_bounds(m.width as int, m.height as int, start.x as int, start.y as int);
                    }
                    assert forall|q: GridPos| #[trigger] in_found(m, mask@, start, q) && !in_found(m, mask0, start, q)
                        implies work@.contains(q) by {
                        if q == nb {
                            assert(work@[work@.len() - 1] == nb);
                        } else {
                            if m.spec_in_bounds(q) {
                                crate::map::lemma_grid_index_bounds(m.width as int, m.height as int, q.x as int, q.y as int);
                            }
                            assert(in_found(m, before, start, q));
                            assert(wbefore.contains(q));
                            let j = choose|j: int| 0 <= j < wbefore.len() && wbefore[j] == q;
                            assert(work@[j] == q);
                        }
                    }
                    assert forall|j: int| 0 <= j < work@.len() implies #[trigger] in_found(m, mask@, start, work@[j]) by {
                        if j < wbefore.len() {
                            assert(work@[j] == wbefore[j]);
                            if work@[j] != start && m.spec_in_bounds(work@[j]) {
                                crate::map::lemma_grid_index_bounds(m.width as int, m.height as int, work@[j].x as int, work@[j].y as int);
                            }
                            assert(in_found(m, before, start, wbefore[j]));
                        }
                    }
                    assert forall|j: int| 0 <= j < k + 1 implies #[trigger] in_found(m, mask@, start, nbrs@[j])
                        || !m.spec_can_move_between(pos, nbrs@[j]) by {
                        if j < k && in_found(m, before, start, nbrs@[j]) {
                            let q = nbrs@[j];
                            if q != start && m.spec_in_bounds(q) {
                                crate::map::lemma_grid_index_bounds(m.width as int, m.height as int, q.x as int, q.y as int);
                            }
                        }
                    }
                    assert forall|q: GridPos| #[trigger] in_found(m, mask@, start, q) implies q == start
                        || land_reachable(m, start, q) by {
                        if q != nb && m.spec_in_bounds(q) {
                            crate::map::lemma_grid_index_bounds(m.width as int, m.height as int, q.x as int, q.y as int);
                            assert(in_found(m, before, start, q));
                        }
                    }
                }
            }
            k = k + 1;
        }
        proof {
            lemma_count_true_bound(mask@);
            assert forall|p: GridPos, q: GridPos|
                in_found(m, mask@, start, p) && !work@.contains(p) && #[trigger] land_step(m, p, q)
                    implies in_found(m, mask@, start, q) by {
                if p == pos {
                    crate::map::lemma_neighbors_exact(m, pos, q);
                    let pred = |c: GridPos| m.spec_is_passable_for(c, FactionId::CatGPT);
                    neighbor_cells(pos).lemma_filter_contains(pred, choose|i: int| 0 <= i < 8 && neighbor_cells(pos)[i] == q);
                    assert(nbrs@.contains(q));
                    let j = choose|j: int| 0 <= j < nbrs@.len() && nbrs@[j] == q;
                    assert(in_found(m, mask@, start, nbrs@[j]) || !m.spec_can_move_between(pos, nbrs@[j]));
                } else {
                    if !in_found(m, mask0, start, p) {
                        assert(work@.contains(p));
                    }
                    if work0.contains(p) {
                        let j = choose|j: int| 0 <= j < work0.len() && work0[j] == p;
                        assert(work@.subrange(0, work0.len() as int)[j] == p);
                        assert(work@[j] == p);
                    }
                    assert(!work_before.contains(p)) by {
                        if work_before.contains(p) {
                            let j = choose|j: int| 0 <= j < work_before.len() && work_before[j] == p;
                            if j < work0.len() {
                                assert(work0[j] == p);
                            }
                        }
                    }
                    assert(in_found(m, mask0, start, q));
                }
            }
        }
    }
    proof {
        assert forall|p: GridPos, n: GridPos| in_found(m, mask@, start, p) && #[trigger] land_step(m, p, n)
            implies in_found(m, mask@, start, n) by {
            assert(!work@.contains(p));
        }
        assert forall|q: GridPos| map.spec_in_bounds(q) implies (#[trigger] mask@[map.spec_index(q)] <==> (q == start
            || land_reachable(*map, start, q))) by {
            if mask@[map.spec_index(q)] {
                assert(in_found(m, mask@, start, q));
            }
            if q == start || land_reachable(m, start, q) {
                if q != start {
                    lemma_closed_set_holds_reachable(m, start, |c: GridPos| in_found(m, mask@, start, c), q);
                }
                if q == start {
                    assert(in_found(m, mask@, start, start));
                }
            }
        }
    }
    mask
}

/// The message `validate_connectivity` reports for spawn `i` at `(x, y)`.
pub open spec fn unreachable_message(i: int, x: i32, y: i32) -> Seq<char> {
    "Spawn point "@ + decimal(i as nat) + " at ("@ + signed_decimal(x as int) + ", "@
        + signed_decimal(y as int) + ") is not reachable from spawn 0"@
}

/// Whether spawn `k` can be reached from spawn 0 (it may also be spawn 0's cell).
pub open spec fn spawn_connected(m: GameMap, spawns: Seq<(i32, i32)>, k: int) -> bool {
    let s = GridPos { x: spawns[0].0, y: spawns[0].1 };
    let q = GridPos { x: spawns[k].0, y: spawns[k].1 };
    q == s || land_reachable(m, s, q)
}

/// Validate that all spawn points can reach each other for non-Croak factions:
/// every spawn must be reachable from spawn 0 by land steps. On failure the
/// first unreachable spawn is reported.
pub fn validate_connectivity(map: &GameMap, spawns: &[(i32, i32)]) -> (r: Result<(), String>)
    requires
        map.wf(),
        map.width <= i32::MAX,
        map.height <= i32::MAX,
        spawns@.len() > 0 ==> coord_ok(GridPos { x: spawns@[0].0, y: spawns@[0].1 }),
    ensures
        r is Ok <==> forall|k: int| 1 <= k < spawns@.len() ==> #[trigger] spawn_connected(*map, spawns@, k),
        r matches Err(msg) ==> exists|k: int|
            1 <= k < spawns@.len() && !#[trigger] spawn_connected(*map, spawns@, k)
                && (forall|j: int| 1 <= j < k ==> spawn_connected(*map, spawns@, j))
                && msg@ == unreachable_message(k, spawns@[k].0, spawns@[k].1),
{
    if spawns.len() == 0 {
        return Ok(());
    }
    let start = GridPos::new(spawns[0].0, spawns[0].1);
    let visited = flood_fill_passable(map, start);
    let mut i: usize = 1;
    while i < spawns.len()
        invariant
            1 <= i <= spawns@.len(),
            map.wf(),
            start == (GridPos { x: spawns@[0].0, y: spawns@[0].1 }),
            visited@.len() == map.tiles_view().len(),
            forall|q: GridPos| map.spec_in_bounds(q) ==> (#[trigger] visited@[map.spec_index(q)] <==> (q == start
                || land_reachable(*map, start, q))),
            forall|j: int| 1 <= j < i ==> #[trigger] spawn_connected(*map, spawns@, j),
        decreases spawns@.len() - i,
    {
        let (sx, sy) = spawns[i];
        let q = GridPos::new(sx, sy);
        let found = if q == start {
            true
        } else if map.in_bounds(q) {
            proof {
                crate::map::lemma_grid_index_bounds(map.width as int, map.height as int, q.x as int, q.y as int);
            }
            visited[(q.y as u32 * map.width + q.x as u32) as usize]
        } else {
            false
        };
        proof {
            if !map.spec_in_bounds(q) && q != start && land_reachable(*map, start, q) {
                let path = choose|path: Seq<GridPos>| #[trigger] is_land_path(*map, path) && path[0] == start
                    && path.last() == q;
                let j = path.len() - 2;
                assert(land_step(*map, path[j], path[j + 1]));
            }
            if map.spec_in_bounds(q) && q != start {
                assert(visited@[map.spec_index(q)] == found);
            }
            assert(q == (GridPos { x: spawns@[i as int].0, y: spawns@[i as int].1 }));
            assert(found == spawn_connected(*map, spawns@, i as int));
        }
        if !found {
            let mut msg = owned("Spawn point ");
            msg = concat2(msg, u64_text(i as u64).as_str());
            msg = concat2(msg, " at (");
            msg = concat2(msg, i64_text(sx as i64).as_str());
            msg = concat2(msg, ", ");
            msg = concat2(msg, i64_text(sy as i64).as_str());
            msg = concat2(msg, ") is not reachable from spawn 0");
            proof {
                assert(!spawn_connected(*map, spawns@, i as int));
                assert(msg@ == unreachable_message(i as int, sx, sy));
            }
            return Err(msg);
        }
        i = i + 1;
    }
    Ok(())
}

/// Tiles keep their elevation, flags and passability switch, and their terrain
/// either stays, becomes Dirt where it was Rock or Water, or becomes a Ramp.
pub open spec fn only_paths_carved(before: GameMap, after: GameMap) -> bool {
    &&& after.wf()
    &&& after.width == before.width
    &&& after.height == before.height
    &&& forall|q: GridPos| #[trigger] after.spec_in_bounds(q) ==> {
        let a = after.tile(q);
        let b = before.tile(q);
        &&& a.elevation == b.elevation
        &&& a.dynamic_flags == b.dynamic_flags
        &&& a.passable == b.passable
        &&& (a.terrain == b.terrain
            || (a.terrain == TerrainType::Dirt && !b.terrain.spec_base_passable())
            || a.terrain == TerrainType::Ramp)
    }
}

/// A cell off the map, or one whose terrain is passable by default.
pub open spec fn open_ground(m: GameMap, q: GridPos) -> bool {
    m.spec_in_bounds(q) ==> m.tile(q).terrain.spec_base_passable()
}

proof fn lemma_carved_trans(a: GameMap, b: GameMap, c: GameMap)
    requires
        only_paths_carved(a, b),
        only_paths_carved(b, c),
    ensures
        only_paths_carved(a, c),
{
    assert forall|q: GridPos| #[trigger] c.spec_in_bounds(q) implies {
        let x = c.tile(q);
        let y = a.tile(q);
        &&& x.elevation == y.elevation
        &&& x.dynamic_flags == y.dynamic_flags
        &&& x.passable == y.passable
        &&& (x.terrain == y.terrain || (x.terrain == TerrainType::Dirt && !y.terrain.spec_base_passable())
            || x.terrain == TerrainType::Ramp)
    } by {
        assert(b.spec_in_bounds(q));
    }
}

/// Turns a Rock or Water tile at `pos` into Dirt; other tiles stay.
fn clear_to_dirt(map: &mut GameMap, pos: GridPos)
    requires
        old(map).wf(),
    ensures
        only_paths_carved(*old(map), *final(map)),
        open_ground(*final(map), pos),
        forall|q: GridPos| #[trigger] open_ground(*old(map), q) ==> open_ground(*final(map), q),
        forall|q: GridPos| #[trigger] final(map).spec_in_bounds(q) ==> {
            &&& (final(map).tile(q) != old(map).tile(q) ==> q == pos)
            &&& (final(map).tile(q).terrain == TerrainType::Ramp <==> old(map).tile(q).terrain
                == TerrainType::Ramp)
        },
{
    let ghost m0 = *map;
    match map.get(pos) {
        Some(t) => {
            let tile = *t;
            if !tile.terrain.base_passable() {
                map.set_tile(pos, TileData { terrain: TerrainType::Dirt, ..tile });
            }
        },
        None => {},
    }
    proof {
        assert forall|q: GridPos| #[trigger] map.spec_in_bounds(q) implies {
            let a = map.tile(q);
            let b = m0.tile(q);
            &&& a.elevation == b.elevation
            &&& a.dynamic_flags == b.dynamic_flags
            &&& a.passable == b.passable
            &&& (a.terrain == b.terrain || (a.terrain == TerrainType::Dirt && !b.terrain.spec_base_passable())
                || a.terrain == TerrainType::Ramp)
            &&& (a != b ==> q == pos)
            &&& (a.terrain == TerrainType::Ramp <==> b.terrain == TerrainType::Ramp)
        } by {
            assert(m0.spec_in_bounds(q));
        }
        assert forall|q: GridPos| #[trigger] open_ground(m0, q) implies open_ground(*map, q) by {
            assert(m0.spec_in_bounds(q) == map.spec_in_bounds(q));
        }
    }
}

/// Whether one of the four orthogonal neighbors of `(x, y)` lies on the map at a
/// different elevation from `elev`.
pub open spec fn at_elevation_change(m: GameMap, x: i32, y: i32, elev: u8) -> bool {
    exists|d: (int, int)| #![trigger orth(d)] orth(d) && {
        let np = GridPos { x: (x + d.0) as i32, y: (y + d.1) as i32 };
        m.spec_in_bounds(np) && m.spec_elevation_at(np) != elev
    }
}

/// `d` is one of the four orthogonal unit offsets.
pub open spec fn orth(d: (int, int)) -> bool {
    d == (-1int, 0int) || d == (1int, 0int) || d == (0int, -1int) || d == (0int, 1int)
}

/// A cell of the map that sits at an elevation change, and so gets a Ramp when
/// an emergency path runs over it.
pub open spec fn ramp_due(m: GameMap, c: GridPos) -> bool {
    m.spec_in_bounds(c) && at_elevation_change(m, c.x, c.y, m.tile(c).elevation)
}

/// `q` is under the 3-wide brush centred on `c`: `c` itself or one of its four
/// orthogonal neighbors.
pub open spec fn brush_near(c: GridPos, q: GridPos) -> bool {
    (q.y == c.y && -1 <= q.x - c.x <= 1) || (q.x == c.x && -1 <= q.y - c.y <= 1)
}

/// `q` is under the brush of some cell of `line`.
pub open spec fn near_line(line: Seq<GridPos>, q: GridPos) -> bool {
    exists|j: int| 0 <= j < line.len() && #[trigger] brush_near(line[j], q)
}

/// Every cell of `line` ends on open ground, and each one on the map that sits
/// at an elevation change ends as a Ramp.
pub open spec fn line_carved(before: GameMap, after: GameMap, line: Seq<GridPos>) -> bool {
    forall|j: int| 0 <= j < line.len() ==> {
        &&& open_ground(after, #[trigger] line[j])
        &&& (ramp_due(before, line[j]) ==> after.tile(line[j]).terrain == TerrainType::Ramp)
    }
}

/// Every cell under the brush of a cell of `line` ends on open ground.
pub open spec fn brush_cleared(after: GameMap, line: Seq<GridPos>) -> bool {
    forall|q: GridPos| #[trigger] near_line(line, q) ==> open_ground(after, q)
}

/// Only tiles under the brush of a cell of `line` changed, and only cells of
/// `line` became Ramps.
pub open spec fn changes_near_line(before: GameMap, after: GameMap, line: Seq<GridPos>) -> bool {
    forall|q: GridPos| #[trigger] after.spec_in_bounds(q) ==> {
        &&& (after.tile(q) != before.tile(q) ==> near_line(line, q))
        &&& (after.tile(q).terrain == TerrainType::Ramp && before.tile(q).terrain != TerrainType::Ramp
            ==> line.contains(q))
    }
}

/// One Bresenham step moves toward the target without passing it, moves at
/// least one coordinate, and keeps the error term in its band.
pub proof fn lemma_bresenham_step(dx: int, dy: int, kx: int, ky: int, err: int, step_x: bool, step_y: bool)
    requires
        0 <= kx <= dx,
        0 <= ky <= dy,
        !(kx == dx && ky == dy),
        err == dx * (1 + ky) - dy * (1 + kx),
        -3 * dy <= 2 * err <= 3 * dx,
        step_x == (2 * err > -dy),
        step_y == (2 * err < dx),
    ensures
        step_x ==> kx < dx,
        step_y ==> ky < dy,
        step_x || step_y,
        -3 * dy <= 2 * (err - (if step_x { dy } else { 0 }) + (if step_y { dx } else { 0 })) <= 3 * dx,
        err - (if step_x { dy } else { 0 }) + (if step_y { dx } else { 0 }) == dx * (1 + (ky + if step_y { 1int } else { 0int }))
            - dy * (1 + (kx + if step_x { 1int } else { 0int })),
{
    let a: int = if step_y { 1 } else { 0 };
    let b: int = if step_x { 1 } else { 0 };
    assert(dx * (1 + (ky + a)) == dx * (1 + ky) + dx * a) by (nonlinear_arith);
    assert(dy * (1 + (kx + b)) == dy * (1 + kx) + dy * b) by (nonlinear_arith);
    if step_x && kx == dx {
        assert(ky < dy);
        assert(err == dx * (1 + ky - dy) - dy) by (nonlinear_arith)
            requires
                err == dx * (1 + ky) - dy * (1 + kx),
                kx == dx,
        ;
        assert(dx * (1 + ky - dy) <= 0) by (nonlinear_arith)
            requires
                dx >= 0,
                1 + ky - dy <= 0,
        ;
    }
    if step_y && ky == dy {
        assert(kx < dx);
        assert(err == dy * (dx - 1 - kx) + dx) by (nonlinear_arith)
            requires
                err == dx * (1 + ky) - dy * (1 + kx),
                ky == dy,
        ;
        assert(dy * (dx - 1 - kx) >= 0) by (nonlinear_arith)
            requires
                dy >= 0,
                dx - 1 - kx >= 0,
        ;
    }
}

/// The Bresenham error term after `kx` steps along x and `ky` along y, for a
/// line spanning `dx` columns and `dy` rows.
pub open spec fn line_err(dx: int, dy: int, kx: int, ky: int) -> int {
    dx * (1 + ky) - dy * (1 + kx)
}

/// The cell reached after `kx` steps along x and `ky` along y, walking from
/// `(x0, y0)` toward `(x1, y1)`.
pub open spec fn line_cell(x0: i32, y0: i32, x1: i32, y1: i32, kx: int, ky: int) -> GridPos {
    GridPos {
        x: (x0 + if x0 < x1 { kx } else { -kx }) as i32,
        y: (y0 + if y0 < y1 { ky } else { -ky }) as i32,
    }
}

/// The cells of the Bresenham line from `(x0, y0)` to `(x1, y1)`, starting
/// with the one reached after `kx` x-steps and `ky` y-steps.
pub open spec fn bresenham_from(x0: i32, y0: i32, x1: i32, y1: i32, kx: int, ky: int) -> Seq<GridPos>
    decreases (iabs(x1 - x0) - kx) + (iabs(y1 - y0) - ky),
{
    let dx = iabs(x1 - x0);
    let dy = iabs(y1 - y0);
    let err = line_err(dx, dy, kx, ky);
    let cell = line_cell(x0, y0, x1, y1, kx, ky);
    if !(0 <= kx <= dx && 0 <= ky <= dy) || (kx == dx && ky == dy) || !(-3 * dy <= 2 * err <= 3 * dx) {
        seq![cell]
    } else {
        let step_x = 2 * err > -dy;
        let step_y = 2 * err < dx;
        proof {
            lemma_bresenham_step(dx, dy, kx, ky, err, step_x, step_y);
        }
        seq![cell] + bresenham_from(
            x0,
            y0,
            x1,
            y1,
            kx + if step_x { 1int } else { 0int },
            ky + if step_y { 1int } else { 0int },
        )
    }
}

/// The cells of the Bresenham line from `(x0, y0)` to `(x1, y1)`, both ends
/// included.
pub open spec fn bresenham_line(x0: i32, y0: i32, x1: i32, y1: i32) -> Seq<GridPos> {
    bresenham_from(x0, y0, x1, y1, 0, 0)
}

/// `q` is one of the eight cells around `p`.
pub open spec fn king_step(p: GridPos, q: GridPos) -> bool {
    -1 <= q.x - p.x <= 1 && -1 <= q.y - p.y <= 1 && p != q
}

/// `c` lies in the bounding box of `(x0, y0)` and `(x1, y1)`.
pub open spec fn in_line_box(x0: i32, y0: i32, x1: i32, y1: i32, c: GridPos) -> bool {
    &&& (if x0 <= x1 { x0 <= c.x <= x1 } else { x1 <= c.x <= x0 })
    &&& (if y0 <= y1 { y0 <= c.y <= y1 } else { y1 <= c.y <= y0 })
}

/// The Bresenham line runs from its current cell to `(x1, y1)` by steps to
/// one of the eight surrounding cells, inside the bounding box of its ends.
pub proof fn lemma_bresenham_shape(x0: i32, y0: i32, x1: i32, y1: i32, kx: int, ky: int)
    requires
        0 <= kx <= iabs(x1 - x0),
        0 <= ky <= iabs(y1 - y0),
        -3 * iabs(y1 - y0) <= 2 * line_err(iabs(x1 - x0), iabs(y1 - y0), kx, ky) <= 3 * iabs(x1 - x0),
    ensures
        bresenham_from(x0, y0, x1, y1, kx, ky).len() >= 1,
        bresenham_from(x0, y0, x1, y1, kx, ky)[0] == line_cell(x0, y0, x1, y1, kx, ky),
        bresenham_from(x0, y0, x1, y1, kx, ky).last() == (GridPos { x: x1, y: y1 }),
        forall|i: int| 0 <= i < bresenham_from(x0, y0, x1, y1, kx, ky).len() ==> in_line_box(x0, y0, x1, y1,
            #[trigger] bresenham_from(x0, y0, x1, y1, kx, ky)[i]),
        forall|i: int| 0 <= i < bresenham_from(x0, y0, x1, y1, kx, ky).len() - 1 ==> #[trigger] king_step(
            bresenham_from(x0, y0, x1, y1, kx, ky)[i],
            bresenham_from(x0, y0, x1, y1, kx, ky)[i + 1],
        ),
    decreases (iabs(x1 - x0) - kx) + (iabs(y1 - y0) - ky),
{
    let dx = iabs(x1 - x0);
    let dy = iabs(y1 - y0);
    let err = line_err(dx, dy, kx, ky);
    let cell = line_cell(x0, y0, x1, y1, kx, ky);
    let s = bresenham_from(x0, y0, x1, y1, kx, ky);
    assert(in_line_box(x0, y0, x1, y1, cell));
    if kx == dx && ky == dy {
        assert(s == seq![cell]);
        assert(cell == (GridPos { x: x1, y: y1 }));
    } else {
        let step_x = 2 * err > -dy;
        let step_y = 2 * err < dx;
        lemma_bresenham_step(dx, dy, kx, ky, err, step_x, step_y);
        let nkx = kx + if step_x { 1int } else { 0int };
        let nky = ky + if step_y { 1int } else { 0int };
        let rest = bresenham_from(x0, y0, x1, y1, nkx, nky);
        assert(s == seq![cell] + rest);
        lemma_bresenham_shape(x0, y0, x1, y1, nkx, nky);
        let next = line_cell(x0, y0, x1, y1, nkx, nky);
        assert(in_line_box(x0, y0, x1, y1, next));
        assert(king_step(cell, next));
        assert forall|i: int| 0 <= i < s.len() implies in_line_box(x0, y0, x1, y1, #[trigger] s[i]) by {
            if i > 0 {
                assert(s[i] == rest[i - 1]);
            }
        }
        assert forall|i: int| 0 <= i < s.len() - 1 implies #[trigger] king_step(s[i], s[i + 1]) by {
            if i > 0 {
                assert(s[i] == rest[i - 1]);
                assert(s[i + 1] == rest[i]);
                assert(king_step(rest[i - 1], rest[(i - 1) + 1]));
            }
        }
        assert(s.last() == rest.last());
    }
}

/// Whether one of the four orthogonal neighbors of `(x, y)` lies on the map at
/// an elevation other than `elev`.
fn needs_ramp_at(map: &GameMap, x: i32, y: i32, elev: u8) -> (b: bool)
    requires
        map.wf(),
        i32::MIN < x < i32::MAX,
        i32::MIN < y < i32::MAX,
    ensures
        b == at_elevation_change(*map, x, y, elev),
{
    let w = GridPos::new(x - 1, y);
    let e = GridPos::new(x + 1, y);
    let n = GridPos::new(x, y - 1);
    let s = GridPos::new(x, y + 1);
    let b = (map.in_bounds(w) && map.elevation_at(w) != elev) || (map.in_bounds(e) && map.elevation_at(e)
        != elev) || (map.in_bounds(n) && map.elevation_at(n) != elev) || (map.in_bounds(s)
        && map.elevation_at(s) != elev);
    proof {
        assert(orth((-1int, 0int)) && orth((1int, 0int)) && orth((0int, -1int)) && orth((0int, 1int)));
    }
    b
}

/// `q` is one of the brush cells around `c` that the brush loop has cleared
/// once its offset has reached `d`: offsets from -1 up to, not including, `d`
/// along the row and along the column.
pub open spec fn brushed_below(c: GridPos, q: GridPos, d: int) -> bool {
    (q.y == c.y && -1 <= q.x - c.x < d) || (q.x == c.x && -1 <= q.y - c.y < d)
}

/// Clear the 3-wide brush around `(x, y)` to Dirt where it was Rock or Water,
/// then make `(x, y)` a Ramp when it sits at an elevation change.
#[verifier::spinoff_prover]
#[verifier::rlimit(40)]
fn carve_cell(map: &mut GameMap, x: i32, y: i32)
    requires
        old(map).wf(),
        i32::MIN < x < i32::MAX,
        i32::MIN < y < i32::MAX,
    ensures
        only_paths_carved(*old(map), *final(map)),
        open_ground(*final(map), GridPos { x, y }),
        forall|q: GridPos| #[trigger] open_ground(*old(map), q) ==> open_ground(*final(map), q),
        ramp_due(*old(map), GridPos { x, y }) ==> final(map).tile(GridPos { x, y }).terrain == TerrainType::Ramp,
        forall|q: GridPos| #[trigger] brush_near(GridPos { x, y }, q) ==> open_ground(*final(map), q),
        forall|q: GridPos| #[trigger] final(map).spec_in_bounds(q) ==> {
            &&& (final(map).tile(q) != old(map).tile(q) ==> brush_near(GridPos { x, y }, q))
            &&& (old(map).tile(q).terrain == TerrainType::Ramp ==> final(map).tile(q).terrain
                == TerrainType::Ramp)
            &&& (final(map).tile(q).terrain == TerrainType::Ramp && old(map).tile(q).terrain
                != TerrainType::Ramp ==> q == GridPos { x, y })
        },
{
    let ghost mb = *map;
    let ghost cell = GridPos { x, y };
    // 3-wide brush
    let mut d: i32 = -1;
    while d <= 1
        invariant
            -1 <= d <= 2,
            i32::MIN < x < i32::MAX,
            i32::MIN < y < i32::MAX,
            cell == (GridPos { x, y }),
            map.wf(),
            only_paths_carved(mb, *map),
            d > 0 ==> open_ground(*map, cell),
            forall|q: GridPos| #[trigger] brushed_below(cell, q, d as int) ==> open_ground(*map, q),
            forall|q: GridPos| #[trigger] open_ground(mb, q) ==> open_ground(*map, q),
            forall|q: GridPos| #[trigger] map.spec_in_bounds(q) ==> {
                &&& (map.tile(q) != mb.tile(q) ==> brush_near(cell, q))
                &&& (map.tile(q).terrain == TerrainType::Ramp <==> mb.tile(q).terrain == TerrainType::Ramp)
            },
        decreases 2 - d,
    {
        let ghost mi = *map;
        let p1 = GridPos::new(x + d, y);
        clear_to_dirt(map, p1);
        let ghost mj = *map;
        let p2 = GridPos::new(x, y + d);
        clear_to_dirt(map, p2);
        proof {
            lemma_carved_trans(mi, mj, *map);
            lemma_carved_trans(mb, mi, *map);
            assert forall|q: GridPos| #[trigger] map.spec_in_bounds(q) implies {
                &&& (map.tile(q) != mb.tile(q) ==> brush_near(cell, q))
                &&& (map.tile(q).terrain == TerrainType::Ramp <==> mb.tile(q).terrain == TerrainType::Ramp)
            } by {
                assert(mj.spec_in_bounds(q));
                assert(mi.spec_in_bounds(q));
            }
            assert forall|q: GridPos| #[trigger] brushed_below(cell, q, d + 1) implies open_ground(*map, q) by {
                if q == p1 {
                    assert(open_ground(mj, q));
                } else if q != p2 {
                    assert(brushed_below(cell, q, d as int));
                    assert(open_ground(mi, q));
                    assert(open_ground(mj, q));
                }
            }
        }
        d = d + 1;
    }
    let ghost after_brush = *map;
    proof {
        assert forall|q: GridPos| #[trigger] brush_near(cell, q) implies open_ground(after_brush, q) by {
            assert(brushed_below(cell, q, 2));
        }
        assert forall|q: GridPos| #[trigger] after_brush.spec_in_bounds(q) implies after_brush.tile(q).elevation
            == mb.tile(q).elevation && mb.spec_in_bounds(q) by {}
        if ramp_due(mb, cell) {
            let dd = choose|dd: (int, int)| #![trigger orth(dd)] orth(dd) && {
                let np = GridPos { x: (x + dd.0) as i32, y: (y + dd.1) as i32 };
                mb.spec_in_bounds(np) && mb.spec_elevation_at(np) != mb.tile(cell).elevation
            };
            let np = GridPos { x: (x + dd.0) as i32, y: (y + dd.1) as i32 };
            assert(after_brush.spec_in_bounds(np));
            assert(after_brush.spec_elevation_at(np) == mb.spec_elevation_at(np));
            assert(after_brush.spec_in_bounds(cell));
            assert(at_elevation_change(after_brush, x, y, after_brush.tile(cell).elevation));
        }
    }
    // Place a ramp at an elevation transition.
    let pos = GridPos::new(x, y);
    if map.in_bounds(pos) {
        let tile = *map.get(pos).unwrap();
        if needs_ramp_at(map, x, y, tile.elevation) {
            let ghost mr = *map;
            map.set_tile(pos, TileData { terrain: TerrainType::Ramp, ..tile });
            proof {
                assert forall|q: GridPos| #[trigger] open_ground(mr, q) implies open_ground(*map, q) by {
                    assert(mr.spec_in_bounds(q) == map.spec_in_bounds(q));
                }
                assert forall|q: GridPos| #[trigger] map.spec_in_bounds(q) implies {
                    let a = map.tile(q);
                    let b = mr.tile(q);
                    &&& a.elevation == b.elevation
                    &&& a.dynamic_flags == b.dynamic_flags
                    &&& a.passable == b.passable
                    &&& (a.terrain == b.terrain || (a.terrain == TerrainType::Dirt && !b.terrain.spec_base_passable())
                        || a.terrain == TerrainType::Ramp)
                    &&& (map.tile(q) != mb.tile(q) ==> brush_near(cell, q))
                    &&& (mb.tile(q).terrain == TerrainType::Ramp ==> map.tile(q).terrain == TerrainType::Ramp)
                    &&& (map.tile(q).terrain == TerrainType::Ramp && mb.tile(q).terrain != TerrainType::Ramp
                        ==> q == cell)
                } by {
                    assert(mr.spec_in_bounds(q));
                }
                lemma_carved_trans(mb, mr, *map);
            }
        }
    }
    proof {
        assert forall|q: GridPos| #[trigger] map.spec_in_bounds(q) implies {
            &&& (map.tile(q) != mb.tile(q) ==> brush_near(cell, q))
            &&& (mb.tile(q).terrain == TerrainType::Ramp ==> map.tile(q).terrain == TerrainType::Ramp)
            &&& (map.tile(q).terrain == TerrainType::Ramp && mb.tile(q).terrain != TerrainType::Ramp ==> q
                == cell)
        } by {
            assert(after_brush.spec_in_bounds(q));
        }
    }
}

/// Carve an emergency dirt path from `(x0, y0)` to `(x1, y1)` along a
/// Bresenham line with a 3-wide brush, turning Rock and Water into Dirt and
/// putting a Ramp on each line cell that sits at an elevation change.
#[verifier::rlimit(60)]
#[verifier::spinoff_prover]
fn carve_emergency_path(map: &mut GameMap, x0: i32, y0: i32, x1: i32, y1: i32)
    requires
        old(map).wf(),
        i32::MIN < x0 < i32::MAX,
        i32::MIN < y0 < i32::MAX,
        i32::MIN < x1 < i32::MAX,
        i32::MIN < y1 < i32::MAX,
    ensures
        only_paths_carved(*old(map), *final(map)),
        line_carved(*old(map), *final(map), bresenham_line(x0, y0, x1, y1)),
        brush_cleared(*final(map), bresenham_line(x0, y0, x1, y1)),
        changes_near_line(*old(map), *final(map), bresenham_line(x0, y0, x1, y1)),
{
    let ghost m0 = *map;
    let ghost full = bresenham_line(x0, y0, x1, y1);
    let ghost mut done: Seq<GridPos> = Seq::empty();
    let dx: i64 = if x1 >= x0 { x1 as i64 - x0 as i64 } else { x0 as i64 - x1 as i64 };
    let dy: i64 = if y1 >= y0 { y1 as i64 - y0 as i64 } else { y0 as i64 - y1 as i64 };
    let sx: i32 = if x0 < x1 { 1 } else { -1 };
    let sy: i32 = if y0 < y1 { 1 } else { -1 };
    let mut err: i64 = dx - dy;
    let mut x = x0;
    let mut y = y0;
    let ghost mut kx: int = 0;
    let ghost mut ky: int = 0;
    proof {
        assert(err == dx * (1 + ky) - dy * (1 + kx)) by (nonlinear_arith)
            requires
                err == dx - dy,
                kx == 0,
                ky == 0,
        ;
        assert(full == done + bresenham_from(x0, y0, x1, y1, kx, ky));
        assert forall|q: GridPos| #[trigger] map.spec_in_bounds(q) implies {
            let a = map.tile(q);
            let b = m0.tile(q);
            &&& a.elevation == b.elevation
            &&& a.dynamic_flags == b.dynamic_flags
            &&& a.passable == b.passable
            &&& (a.terrain == b.terrain || (a.terrain == TerrainType::Dirt && !b.terrain.spec_base_passable())
                || a.terrain == TerrainType::Ramp)
        } by {}
    }
    loop
        invariant_except_break
            0 <= kx <= dx,
            0 <= ky <= dy,
            x == x0 + (if x0 < x1 { kx } else { -kx }),
            y == y0 + (if y0 < y1 { ky } else { -ky }),
            dx == iabs(x1 - x0),
            dy == iabs(y1 - y0),
            sx == (if x0 < x1 { 1i32 } else { -1i32 }),
            sy == (if y0 < y1 { 1i32 } else { -1i32 }),
            err == dx * (1 + ky) - dy * (1 + kx),
            -3 * dy <= 2 * err <= 3 * dx,
            i32::MIN < x0 < i32::MAX,
            i32::MIN < y0 < i32::MAX,
            i32::MIN < x1 < i32::MAX,
            i32::MIN < y1 < i32::MAX,
            full == bresenham_line(x0, y0, x1, y1),
            full == done + bresenham_from(x0, y0, x1, y1, kx, ky),
            map.wf(),
            only_paths_carved(m0, *map),
            line_carved(m0, *map, done),
            changes_near_line(m0, *map, done),
            brush_cleared(*map, done),
        ensures
            map.wf(),
            only_paths_carved(m0, *map),
            full == bresenham_line(x0, y0, x1, y1),
            full == done,
            line_carved(m0, *map, done),
            changes_near_line(m0, *map, done),
            brush_cleared(*map, done),
        decreases (dx - kx) + (dy - ky),
    {
        let ghost mb = *map;
        let ghost cell = GridPos { x, y };
        proof {
            assert(cell == line_cell(x0, y0, x1, y1, kx, ky));
            lemma_ramp_due_same(m0, mb, cell);
        }
        carve_cell(map, x, y);
        proof {
            lemma_carved_trans(m0, mb, *map);
            let nd = done.push(cell);
            assert forall|j: int| 0 <= j < nd.len() implies {
                &&& open_ground(*map, #[trigger] nd[j])
                &&& (ramp_due(m0, nd[j]) ==> map.tile(nd[j]).terrain == TerrainType::Ramp)
            } by {
                if j < done.len() {
                    assert(nd[j] == done[j]);
                    assert(open_ground(mb, done[j]));
                    if ramp_due(m0, nd[j]) {
                        assert(mb.tile(nd[j]).terrain == TerrainType::Ramp);
                        assert(map.spec_in_bounds(nd[j]));
                    }
                } else {
                    assert(nd[j] == cell);
                }
            }
            assert forall|q: GridPos| #[trigger] map.spec_in_bounds(q) implies {
                &&& (map.tile(q) != m0.tile(q) ==> near_line(nd, q))
                &&& (map.tile(q).terrain == TerrainType::Ramp && m0.tile(q).terrain != TerrainType::Ramp
                    ==> nd.contains(q))
            } by {
                assert(mb.spec_in_bounds(q));
                if map.tile(q) != mb.tile(q) {
                    assert(brush_near(nd[done.len() as int], q));
                } else if map.tile(q) != m0.tile(q) {
                    let j = choose|j: int| 0 <= j < done.len() && #[trigger] brush_near(done[j], q);
                    assert(nd[j] == done[j]);
                }
                if map.tile(q).terrain == TerrainType::Ramp && m0.tile(q).terrain != TerrainType::Ramp {
                    if mb.tile(q).terrain == TerrainType::Ramp {
                        let j = choose|j: int| 0 <= j < done.len() && done[j] == q;
                        assert(nd[j] == q);
                    } else {
                        assert(nd[done.len() as int] == q);
                    }
                }
            }
            assert forall|q: GridPos| #[trigger] near_line(nd, q) implies open_ground(*map, q) by {
                let j = choose|j: int| 0 <= j < nd.len() && #[trigger] brush_near(nd[j], q);
                if j < done.len() {
                    assert(nd[j] == done[j]);
                    assert(near_line(done, q));
                    assert(open_ground(mb, q));
                } else {
                    assert(nd[j] == cell);
                }
            }
            let dxi = dx as int;
            let dyi = dy as int;
            if kx == dxi && ky == dyi {
                assert(bresenham_from(x0, y0, x1, y1, kx, ky) == seq![cell]);
            } else {
                let e = line_err(dxi, dyi, kx, ky);
                let step_x = 2 * e > -dyi;
                let step_y = 2 * e < dxi;
                assert(bresenham_from(x0, y0, x1, y1, kx, ky) == seq![cell] + bresenham_from(
                    x0,
                    y0,
                    x1,
                    y1,
                    kx + if step_x { 1int } else { 0int },
                    ky + if step_y { 1int } else { 0int },
                ));
                assert(full == nd + bresenham_from(
                    x0,
                    y0,
                    x1,
                    y1,
                    kx + if step_x { 1int } else { 0int },
                    ky + if step_y { 1int } else { 0int },
                ));
            }
            done = nd;
        }
        if x == x1 && y == y1 {
            proof {
                assert(kx == dx && ky == dy);
            }
            break;
        }
        let e2 = 2 * err;
        let step_x = e2 > -dy;
        let step_y = e2 < dx;
        proof {
            lemma_bresenham_step(dx as int, dy as int, kx, ky, err as int, step_x, step_y);
        }
        if step_x {
            err = err - dy;
            x = x + sx;
            proof { kx = kx + 1; }
        }
        if step_y {
            err = err + dx;
            y = y + sy;
            proof { ky = ky + 1; }
        }
    }
}

/// Whether a cell sits at an elevation change depends only on elevations and
/// the map's size, which carving keeps.
proof fn lemma_ramp_due_same(a: GameMap, b: GameMap, c: GridPos)
    requires
        only_paths_carved(a, b),
    ensures
        ramp_due(a, c) == ramp_due(b, c),
{
    assert forall|d: (int, int)| #![trigger orth(d)] orth(d) implies ({
        let np = GridPos { x: (c.x + d.0) as i32, y: (c.y + d.1) as i32 };
        a.spec_in_bounds(np) && a.spec_elevation_at(np) != a.tile(c).elevation
    } <==> {
        let np = GridPos { x: (c.x + d.0) as i32, y: (c.y + d.1) as i32 };
        b.spec_in_bounds(np) && b.spec_elevation_at(np) != b.tile(c).elevation
    }) || !a.spec_in_bounds(c) by {
        let np = GridPos { x: (c.x + d.0) as i32, y: (c.y + d.1) as i32 };
        if b.spec_in_bounds(np) {
            assert(a.spec_in_bounds(np));
        }
        if b.spec_in_bounds(c) {
            assert(a.spec_in_bounds(c));
        }
    }
    if a.spec_in_bounds(c) {
        assert(b.spec_in_bounds(c));
        if ramp_due(a, c) {
            let d = choose|d: (int, int)| #![trigger orth(d)] orth(d) && {
                let np = GridPos { x: (c.x + d.0) as i32, y: (c.y + d.1) as i32 };
                a.spec_in_bounds(np) && a.spec_elevation_at(np) != a.tile(c).elevation
            };
            assert(orth(d));
        }
        if ramp_due(b, c) {
            let d = choose|d: (int, int)| #![trigger orth(d)] orth(d) && {
                let np = GridPos { x: (c.x + d.0) as i32, y: (c.y + d.1) as i32 };
                b.spec_in_bounds(np) && b.spec_elevation_at(np) != b.tile(c).elevation
            };
            assert(orth(d));
        }
    }
}

// ---------------------------------------------------------------------------
// Symmetry
// ---------------------------------------------------------------------------

/// Whether `q` is in the part of the map that `enforce_symmetry` copies from:
/// the top half rows (Rotational180, MirrorVertical), the left half columns
/// (MirrorHorizontal), or the top-left quadrant (Rotational90).
pub open spec fn in_symmetry_source(sym: MapSymmetry, w: int, h: int, q: GridPos) -> bool {
    match sym {
        MapSymmetry::Rotational180 => 0 <= q.x < w && 0 <= q.y < h / 2,
        MapSymmetry::MirrorHorizontal => 0 <= q.x < w / 2 && 0 <= q.y < h,
        MapSymmetry::MirrorVertical => 0 <= q.x < w && 0 <= q.y < h / 2,
        MapSymmetry::Rotational90 => 0 <= q.x < w / 2 && 0 <= q.y < h / 2,
    }
}

/// How many images each source cell is copied to.
pub open spec fn symmetry_image_count(sym: MapSymmetry) -> int {
    if sym is Rotational90 { 3 } else { 1 }
}

/// The `k`-th image of source cell `q`.
pub open spec fn symmetry_image(sym: MapSymmetry, w: int, h: int, q: GridPos, k: int) -> GridPos {
    match sym {
        MapSymmetry::Rotational180 => GridPos { x: (w - 1 - q.x) as i32, y: (h - 1 - q.y) as i32 },
        MapSymmetry::MirrorHorizontal => GridPos { x: (w - 1 - q.x) as i32, y: q.y },
        MapSymmetry::MirrorVertical => GridPos { x: q.x, y: (h - 1 - q.y) as i32 },
        MapSymmetry::Rotational90 => if k == 0 {
            GridPos { x: (w - 1 - q.y) as i32, y: q.x }
        } else if k == 1 {
            GridPos { x: (w - 1 - q.x) as i32, y: (h - 1 - q.y) as i32 }
        } else {
            GridPos { x: q.y, y: (h - 1 - q.x) as i32 }
        },
    }
}

/// Images of source cells lie on the map, outside the source part, and distinct
/// (source, image number) pairs have distinct images.
proof fn lemma_symmetry_images(sym: MapSymmetry, w: int, h: int, q: GridPos, k: int, q2: GridPos, k2: int)
    requires
        0 <= w <= i32::MAX,
        0 <= h <= i32::MAX,
        sym is Rotational90 ==> w == h,
        in_symmetry_source(sym, w, h, q),
        0 <= k < symmetry_image_count(sym),
    ensures
        spec_in_grid_pos(w, h, symmetry_image(sym, w, h, q, k)),
        !in_symmetry_source(sym, w, h, symmetry_image(sym, w, h, q, k)),
        in_symmetry_source(sym, w, h, q2) && 0 <= k2 < symmetry_image_count(sym)
            && symmetry_image(sym, w, h, q, k) == symmetry_image(sym, w, h, q2, k2) ==> q == q2 && k == k2,
{
}

/// Whether `q` is an image of some source cell.
pub open spec fn is_symmetry_image(sym: MapSymmetry, w: int, h: int, q: GridPos) -> bool {
    exists|p: GridPos, k: int|
        in_symmetry_source(sym, w, h, p) && 0 <= k < symmetry_image_count(sym) && #[trigger] symmetry_image(sym, w, h, p, k)
            == q
}

/// Whether `p` lies inside a `w` by `h` grid.
pub open spec fn spec_in_grid_pos(w: int, h: int, p: GridPos) -> bool {
    0 <= p.x < w && 0 <= p.y < h
}

/// The terrain and elevation of `a` in map `ma` equal those of `b` in map `mb`.
pub open spec fn same_ground(ma: GameMap, a: GridPos, mb: GameMap, b: GridPos) -> bool {
    ma.tile(a).terrain == mb.tile(b).terrain && ma.tile(a).elevation == mb.tile(b).elevation
}

/// Copies the terrain and elevation of `src` onto `dst` (both on the map);
/// every other cell, and the flags of `dst`, stay.
fn copy_ground(map: &mut GameMap, src: GridPos, dst: GridPos)
    requires
        old(map).wf(),
        old(map).spec_in_bounds(src),
        old(map).spec_in_bounds(dst),
    ensures
        final(map).wf(),
        final(map).width == old(map).width,
        final(map).height == old(map).height,
        same_ground(*final(map), dst, *old(map), src),
        final(map).tile(dst).dynamic_flags == old(map).tile(dst).dynamic_flags,
        final(map).tile(dst).passable == old(map).tile(dst).passable,
        forall|q: GridPos| old(map).spec_in_bounds(q) && q != dst ==> #[trigger] final(map).tile(q) == old(map).tile(q),
        forall|q: GridPos| #[trigger] final(map).spec_in_bounds(q) ==> final(map).tile(q).dynamic_flags
            == old(map).tile(q).dynamic_flags && final(map).tile(q).passable == old(map).tile(q).passable,
{
    let s = *map.get(src).unwrap();
    let d = *map.get(dst).unwrap();
    map.set_tile(dst, TileData { terrain: s.terrain, elevation: s.elevation, ..d });
}

/// Whether the part that `enforce_symmetry` copies from is exactly the share
/// of the map that the symmetry gives it: an even width for a left-right
/// mirror, an even height for a top-bottom mirror or a half turn, an even side
/// of a square map for a quarter turn.
pub open spec fn source_is_half(sym: MapSymmetry, w: int, h: int) -> bool {
    match sym {
        MapSymmetry::MirrorHorizontal => w % 2 == 0,
        MapSymmetry::Rotational180 | MapSymmetry::MirrorVertical => h % 2 == 0,
        MapSymmetry::Rotational90 => w == h && w % 2 == 0,
    }
}

/// Where the source part is exactly half the map, a cell outside it is the
/// image of its own image, which lies inside it.
proof fn lemma_half_image(sym: MapSymmetry, w: int, h: int, q: GridPos)
    requires
        source_is_half(sym, w, h),
        !(sym is Rotational90),
        0 <= w <= i32::MAX,
        0 <= h <= i32::MAX,
        spec_in_grid_pos(w, h, q),
    ensures
        spec_in_grid_pos(w, h, symmetry_image(sym, w, h, q, 0)),
        symmetry_image(sym, w, h, symmetry_image(sym, w, h, q, 0), 0) == q,
        !in_symmetry_source(sym, w, h, q) ==> in_symmetry_source(sym, w, h, symmetry_image(sym, w, h, q, 0)),
{
}

/// On a square map of even side, every cell is a source cell or one of the
/// three quarter-turn images of one, and turning it a quarter more gives the
/// next image of the same source cell (the source cell itself after the third).
proof fn lemma_quarter_image(n: int, q: GridPos)
    requires
        0 <= n <= i32::MAX,
        n % 2 == 0,
        spec_in_grid_pos(n, n, q),
    ensures
        ({
            let sym = MapSymmetry::Rotational90;
            let r = symmetry_image(sym, n, n, q, 0);
            ||| in_symmetry_source(sym, n, n, q) && r == symmetry_image(sym, n, n, q, 0)
            ||| exists|p: GridPos, k: int|
                #![trigger symmetry_image(sym, n, n, p, k)]
                in_symmetry_source(sym, n, n, p) && 0 <= k < 3 && q == symmetry_image(sym, n, n, p, k) && (
                if k < 2 { r == symmetry_image(sym, n, n, p, k + 1) } else { r == p })
        }),
{
    let sym = MapSymmetry::Rotational90;
    let h = n / 2;
    if q.x >= h && q.y < h {
        let p = GridPos { x: q.y, y: (n - 1 - q.x) as i32 };
        assert(q == symmetry_image(sym, n, n, p, 0));
        assert(symmetry_image(sym, n, n, q, 0) == symmetry_image(sym, n, n, p, 1));
    } else if q.x >= h && q.y >= h {
        let p = GridPos { x: (n - 1 - q.x) as i32, y: (n - 1 - q.y) as i32 };
        assert(q == symmetry_image(sym, n, n, p, 1));
        assert(symmetry_image(sym, n, n, q, 0) == symmetry_image(sym, n, n, p, 2));
    } else if q.x < h && q.y >= h {
        let p = GridPos { x: (n - 1 - q.y) as i32, y: q.x };
        assert(q == symmetry_image(sym, n, n, p, 2));
        assert(symmetry_image(sym, n, n, q, 0) == p);
    }
}

/// After symmetry is enforced with a source part that is exactly its share of
/// the map, every cell has the same terrain and elevation as its mirror image,
/// or its image under a half or quarter turn.
proof fn lemma_symmetry_pairs(before: GameMap, after: GameMap, sym: MapSymmetry)
    requires
        source_is_half(sym, before.width as int, before.height as int),
        before.width <= i32::MAX,
        before.height <= i32::MAX,
        after.width == before.width,
        after.height == before.height,
        forall|q: GridPos, k: int|
            in_symmetry_source(sym, before.width as int, before.height as int, q) && 0 <= k
                < symmetry_image_count(sym) ==> same_ground(after, q, before, q) && #[trigger] same_ground(
                after,
                symmetry_image(sym, before.width as int, before.height as int, q, k),
                before,
                q,
            ),
    ensures
        forall|q: GridPos| #[trigger] after.spec_in_bounds(q) ==> same_ground(
            after,
            q,
            after,
            symmetry_image(sym, after.width as int, after.height as int, q, 0),
        ),
{
    let w = before.width as int;
    let h = before.height as int;
    assert forall|q: GridPos| #[trigger] after.spec_in_bounds(q) implies same_ground(
        after,
        q,
        after,
        symmetry_image(sym, w, h, q, 0),
    ) by {
        if sym is Rotational90 {
            lemma_quarter_image(w, q);
            if in_symmetry_source(sym, w, h, q) {
                assert(same_ground(after, symmetry_image(sym, w, h, q, 0), before, q));
            } else {
                let (p, k) = choose|p: GridPos, k: int|
                    #![trigger symmetry_image(sym, w, h, p, k)]
                    in_symmetry_source(sym, w, h, p) && 0 <= k < 3 && q == symmetry_image(sym, w, h, p, k) && (if k
                        < 2 {
                        symmetry_image(sym, w, h, q, 0) == symmetry_image(sym, w, h, p, k + 1)
                    } else {
                        symmetry_image(sym, w, h, q, 0) == p
                    });
                assert(same_ground(after, symmetry_image(sym, w, h, p, k), before, p));
                if k < 2 {
                    assert(same_ground(after, symmetry_image(sym, w, h, p, k + 1), before, p));
                }
            }
        } else {
            lemma_half_image(sym, w, h, q);
            let p = symmetry_image(sym, w, h, q, 0);
            if in_symmetry_source(sym, w, h, q) {
                assert(same_ground(after, symmetry_image(sym, w, h, q, 0), before, q));
            } else {
                assert(same_ground(after, symmetry_image(sym, w, h, p, 0), before, p));
            }
        }
    }
}

/// Enforce map symmetry by mirroring the first quadrant/half onto the rest.
/// Rotational90 needs a square map.
pub fn enforce_symmetry(map: &mut GameMap, symmetry: MapSymmetry)
    requires
        old(map).wf(),
        old(map).width <= i32::MAX,
        old(map).height <= i32::MAX,
        symmetry is Rotational90 ==> old(map).width == old(map).height,
    ensures
        final(map).wf(),
        final(map).width == old(map).width,
        final(map).height == old(map).height,
        forall|q: GridPos| #[trigger] final(map).spec_in_bounds(q) ==> final(map).tile(q).dynamic_flags
            == old(map).tile(q).dynamic_flags && final(map).tile(q).passable == old(map).tile(q).passable,
        forall|q: GridPos, k: int|
            in_symmetry_source(symmetry, old(map).width as int, old(map).height as int, q) && 0 <= k
                < symmetry_image_count(symmetry) ==> same_ground(*final(map), q, *old(map), q) && #[trigger] same_ground(
                *final(map),
                symmetry_image(symmetry, old(map).width as int, old(map).height as int, q, k),
                *old(map),
                q,
            ),
        forall|q: GridPos|
            #[trigger] old(map).spec_in_bounds(q) && !in_symmetry_source(
                symmetry,
                old(map).width as int,
                old(map).height as int,
                q,
            ) && !is_symmetry_image(symmetry, old(map).width as int, old(map).height as int, q) ==> final(map).tile(q)
                == old(map).tile(q),
        source_is_half(symmetry, old(map).width as int, old(map).height as int) ==> forall|q: GridPos|
            #[trigger] final(map).spec_in_bounds(q) ==> same_ground(
                *final(map),
                q,
                *final(map),
                symmetry_image(symmetry, final(map).width as int, final(map).height as int, q, 0),
            ),
{
    let ghost m0 = *map;
    let w = map.width as i32;
    let h = map.height as i32;
    let ghost wi = w as int;
    let ghost hi = h as int;
    let (xmax, ymax): (i32, i32) = match symmetry {
        MapSymmetry::Rotational180 => (w, h / 2),
        MapSymmetry::MirrorHorizontal => (w / 2, h),
        MapSymmetry::MirrorVertical => (w, h / 2),
        MapSymmetry::Rotational90 => (w / 2, h / 2),
    };
    let mut y: i32 = 0;
    while y < ymax
        invariant
            0 <= y <= ymax,
            w == m0.width,
            h == m0.height,
            wi == w,
            hi == h,
            symmetry is Rotational90 ==> w == h,
            xmax == (match symmetry {
                MapSymmetry::Rotational180 => w as int,
                MapSymmetry::MirrorHorizontal => w / 2,
                MapSymmetry::MirrorVertical => w as int,
                MapSymmetry::Rotational90 => w / 2,
            }),
            ymax == (match symmetry {
                MapSymmetry::Rotational180 => h / 2,
                MapSymmetry::MirrorHorizontal => h as int,
                MapSymmetry::MirrorVertical => h / 2,
                MapSymmetry::Rotational90 => h / 2,
            }),
            map.wf(),
            map.width == m0.width,
            map.height == m0.height,
            forall|q: GridPos| #[trigger] map.spec_in_bounds(q) ==> map.tile(q).dynamic_flags
                == m0.tile(q).dynamic_flags && map.tile(q).passable == m0.tile(q).passable,
            forall|q: GridPos| in_symmetry_source(symmetry, wi, hi, q) ==> #[trigger] map.tile(q) == m0.tile(q),
            forall|q: GridPos|
                #[trigger] m0.spec_in_bounds(q) && !in_symmetry_source(symmetry, wi, hi, q) && !is_symmetry_image(
                    symmetry,
                    wi,
                    hi,
                    q,
                ) ==> map.tile(q) == m0.tile(q),
            forall|q: GridPos, k: int|
                in_symmetry_source(symmetry, wi, hi, q) && q.y < y && 0 <= k < symmetry_image_count(symmetry)
                    ==> #[trigger] same_ground(*map, symmetry_image(symmetry, wi, hi, q, k), m0, q),
        decreases ymax - y,
    {
        let mut x: i32 = 0;
        while x < xmax
            invariant
                0 <= x <= xmax,
                0 <= y < ymax,
                w == m0.width,
                h == m0.height,
                wi == w,
                hi == h,
                symmetry is Rotational90 ==> w == h,
                xmax == (match symmetry {
                    MapSymmetry::Rotational180 => w as int,
                    MapSymmetry::MirrorHorizontal => w / 2,
                    MapSymmetry::MirrorVertical => w as int,
                    MapSymmetry::Rotational90 => w / 2,
                }),
                ymax == (match symmetry {
                    MapSymmetry::Rotational180 => h / 2,
                    MapSymmetry::MirrorHorizontal => h as int,
                    MapSymmetry::MirrorVertical => h / 2,
                    MapSymmetry::Rotational90 => h / 2,
                }),
                map.wf(),
                map.width == m0.width,
                map.height == m0.height,
                forall|q: GridPos| #[trigger] map.spec_in_bounds(q) ==> map.tile(q).dynamic_flags
                    == m0.tile(q).dynamic_flags && map.tile(q).passable == m0.tile(q).passable,
                forall|q: GridPos| in_symmetry_source(symmetry, wi, hi, q) ==> #[trigger] map.tile(q) == m0.tile(q),
                forall|q: GridPos|
                    #[trigger] m0.spec_in_bounds(q) && !in_symmetry_source(symmetry, wi, hi, q) && !is_symmetry_image(
                        symmetry,
                        wi,
                        hi,
                        q,
                    ) ==> map.tile(q) == m0.tile(q),
                forall|q: GridPos, k: int|
                    in_symmetry_source(symmetry, wi, hi, q) && (q.y < y || (q.y == y && q.x < x)) && 0 <= k
                        < symmetry_image_count(symmetry) ==> #[trigger] same_ground(
                        *map,
                        symmetry_image(symmetry, wi, hi, q, k),
                        m0,
                        q,
                    ),
            decreases xmax - x,
        {
            let src = GridPos::new(x, y);
            let ghost before = *map;
            match symmetry {
                MapSymmetry::Rotational180 => {
                    copy_ground(map, src, GridPos::new(w - 1 - x, h - 1 - y));
                },
                MapSymmetry::MirrorHorizontal => {
                    copy_ground(map, src, GridPos::new(w - 1 - x, y));
                },
                MapSymmetry::MirrorVertical => {
                    copy_ground(map, src, GridPos::new(x, h - 1 - y));
                },
                MapSymmetry::Rotational90 => {
                    copy_ground(map, src, GridPos::new(w - 1 - y, x));
                    let ghost m1 = *map;
                    copy_ground(map, src, GridPos::new(w - 1 - x, h - 1 - y));
                    let ghost m2 = *map;
                    copy_ground(map, src, GridPos::new(y, h - 1 - x));
                    proof {
                        assert forall|q: GridPos| #[trigger] map.spec_in_bounds(q) implies map.tile(q).dynamic_flags
                            == before.tile(q).dynamic_flags && map.tile(q).passable == before.tile(q).passable by {
                            assert(m1.spec_in_bounds(q));
                            assert(m2.spec_in_bounds(q));
                        }
                    }
                },
            }
            proof {
                assert forall|q: GridPos| #[trigger] map.spec_in_bounds(q) implies map.tile(q).dynamic_flags
                    == m0.tile(q).dynamic_flags && map.tile(q).passable == m0.tile(q).passable by {
                    assert(before.spec_in_bounds(q));
                }
                assert forall|k: int| 0 <= k < symmetry_image_count(symmetry)
                    implies #[trigger] same_ground(*map, symmetry_image(symmetry, wi, hi, src, k), m0, src) by {
                    lemma_symmetry_images(symmetry, wi, hi, src, k, src, 0);
                    lemma_symmetry_images(symmetry, wi, hi, src, k, src, 1);
                    lemma_symmetry_images(symmetry, wi, hi, src, k, src, 2);
                }
                assert forall|q: GridPos, k: int|
                    in_symmetry_source(symmetry, wi, hi, q) && (q.y < y || (q.y == y && q.x < x + 1)) && 0 <= k
                        < symmetry_image_count(symmetry) implies #[trigger] same_ground(
                        *map,
                        symmetry_image(symmetry, wi, hi, q, k),
                        m0,
                        q,
                    ) by {
                    if q != src {
                        lemma_symmetry_images(symmetry, wi, hi, src, 0, q, k);
                        if symmetry is Rotational90 {
                            lemma_symmetry_images(symmetry, wi, hi, src, 1, q, k);
                            lemma_symmetry_images(symmetry, wi, hi, src, 2, q, k);
                        }
                        lemma_symmetry_images(symmetry, wi, hi, q, k, q, k);
                        assert(same_ground(before, symmetry_image(symmetry, wi, hi, q, k), m0, q));
                    }
                }
                assert forall|q: GridPos| in_symmetry_source(symmetry, wi, hi, q) implies #[trigger] map.tile(q)
                    == m0.tile(q) by {
                    lemma_symmetry_images(symmetry, wi, hi, src, 0, q, 0);
                    if symmetry is Rotational90 {
                        lemma_symmetry_images(symmetry, wi, hi, src, 1, q, 0);
                        lemma_symmetry_images(symmetry, wi, hi, src, 2, q, 0);
                    }
                    assert(before.tile(q) == m0.tile(q));
                }
                assert forall|q: GridPos|
                    #[trigger] m0.spec_in_bounds(q) && !in_symmetry_source(symmetry, wi, hi, q) && !is_symmetry_image(
                        symmetry,
                        wi,
                        hi,
                        q,
                    ) implies map.tile(q) == m0.tile(q) by {
                    assert(q != symmetry_image(symmetry, wi, hi, src, 0));
                    assert(q != symmetry_image(symmetry, wi, hi, src, 1));
                    assert(q != symmetry_image(symmetry, wi, hi, src, 2));
                    assert(before.tile(q) == m0.tile(q));
                }
            }
            x = x + 1;
        }
        y = y + 1;
    }
    proof {
        if source_is_half(symmetry, m0.width as int, m0.height as int) {
            lemma_symmetry_pairs(m0, *map, symmetry);
        }
    }
}

/// Carving never cuts a connection: every land step, and so every walk, of the
/// map before carving is still one afterwards.
pub proof fn lemma_carving_keeps_reachability(a: GameMap, b: GameMap, s: GridPos, q: GridPos)
    requires
        only_paths_carved(a, b),
    ensures
        forall|p: GridPos, n: GridPos| #[trigger] land_step(a, p, n) ==> land_step(b, p, n),
        land_reachable(a, s, q) ==> land_reachable(b, s, q),
        forall|c: GridPos| #[trigger] open_ground(a, c) ==> open_ground(b, c),
{
    assert forall|p: GridPos, n: GridPos| #[trigger] land_step(a, p, n) implies land_step(b, p, n) by {
        assert(b.spec_in_bounds(n));
        if b.spec_in_bounds(p) {
            assert(a.spec_in_bounds(p));
        }
    }
    assert forall|c: GridPos| #[trigger] open_ground(a, c) implies open_ground(b, c) by {
        if b.spec_in_bounds(c) {
            assert(a.spec_in_bounds(c));
        }
    }
    if land_reachable(a, s, q) {
        let path = choose|path: Seq<GridPos>| #[trigger] is_land_path(a, path) && path[0] == s && path.last() == q;
        assert forall|i: int| 0 <= i < path.len() - 1 implies #[trigger] land_step(b, path[i], path[i + 1]) by {
            assert(land_step(a, path[i], path[i + 1]));
        }
        assert(is_land_path(b, path));
    }
}

/// A tile whose passability switch is on and that carries no temporary block.
pub open spec fn unblocked(t: TileData) -> bool {
    t.passable && t.dynamic_flags & FLAG_TEMP_BLOCKED == 0
}

/// The Bresenham line from spawn `k` to spawn 0, along which an emergency path
/// is carved when spawn `k` cannot be reached.
pub open spec fn spawn_line(spawns: Seq<(i32, i32)>, k: int) -> Seq<GridPos> {
    bresenham_line(spawns[k].0, spawns[k].1, spawns[0].0, spawns[0].1)
}

/// Every cell of the line from spawn `k` to spawn 0 lies on the map and is
/// unblocked.
pub open spec fn spawn_line_open(m: GameMap, spawns: Seq<(i32, i32)>, k: int) -> bool {
    forall|j: int| 0 <= j < spawn_line(spawns, k).len() ==> {
        &&& m.spec_in_bounds(#[trigger] spawn_line(spawns, k)[j])
        &&& unblocked(m.tile(spawn_line(spawns, k)[j]))
    }
}

/// Every cell of the line from each spawn to spawn 0 lies on the map and is
/// unblocked.
pub open spec fn spawn_lines_open(m: GameMap, spawns: Seq<(i32, i32)>) -> bool {
    forall|k: int| 1 <= k < spawns.len() ==> #[trigger] spawn_line_open(m, spawns, k)
}

/// The emergency path of spawn `k` has been carved on `m` (from the map `m0`
/// it was carved on): every cell of its line is open ground, each one at an
/// elevation change is a Ramp, and every cell under its brush is open ground.
pub open spec fn spawn_path_carved(m0: GameMap, m: GameMap, spawns: Seq<(i32, i32)>, k: int) -> bool {
    line_carved(m0, m, spawn_line(spawns, k)) && brush_cleared(m, spawn_line(spawns, k))
}

/// A carved line stays carved through later carving: open ground stays open
/// and Ramps stay Ramps.
proof fn lemma_carved_line_kept(m0: GameMap, a: GameMap, b: GameMap, line: Seq<GridPos>)
    requires
        only_paths_carved(m0, a),
        only_paths_carved(a, b),
        line_carved(m0, a, line),
        brush_cleared(a, line),
    ensures
        line_carved(m0, b, line),
        brush_cleared(b, line),
{
    let any = GridPos { x: 0, y: 0 };
    lemma_carving_keeps_reachability(a, b, any, any);
    assert forall|j: int| 0 <= j < line.len() implies {
        &&& open_ground(b, #[trigger] line[j])
        &&& (ramp_due(m0, line[j]) ==> b.tile(line[j]).terrain == TerrainType::Ramp)
    } by {
        assert(open_ground(a, line[j]));
        if ramp_due(m0, line[j]) {
            assert(a.spec_in_bounds(line[j]));
            assert(b.spec_in_bounds(line[j]));
        }
    }
    assert forall|q: GridPos| #[trigger] near_line(line, q) implies open_ground(b, q) by {
        assert(open_ground(a, q));
    }
}

/// A line carved on a map that was itself carved from `m0` marks its Ramps by
/// the elevation changes of `m0`, which carving keeps.
proof fn lemma_carved_line_from(m0: GameMap, a: GameMap, b: GameMap, line: Seq<GridPos>)
    requires
        only_paths_carved(m0, a),
        line_carved(a, b, line),
    ensures
        line_carved(m0, b, line),
{
    assert forall|j: int| 0 <= j < line.len() implies {
        &&& open_ground(b, #[trigger] line[j])
        &&& (ramp_due(m0, line[j]) ==> b.tile(line[j]).terrain == TerrainType::Ramp)
    } by {
        lemma_ramp_due_same(m0, a, line[j]);
    }
}

/// Every spawn after the first can be reached from spawn 0.
pub open spec fn all_spawns_connected(m: GameMap, spawns: Seq<(i32, i32)>) -> bool {
    forall|k: int| 1 <= k < spawns.len() ==> #[trigger] spawn_connected(m, spawns, k)
}

/// `n` is one of the eight cells around `p`.
proof fn lemma_king_neighbor(p: GridPos, n: GridPos)
    requires
        king_step(p, n),
    ensures
        neighbor_cells(p).contains(n),
{
    let ddx = n.x - p.x;
    let ddy = n.y - p.y;
    let k: int = if ddy == -1 {
        ddx + 1
    } else if ddy == 0 {
        if ddx == -1 { 3 } else { 4 }
    } else {
        ddx + 6
    };
    assert(crate::map::dir_dx(k) == ddx && crate::map::dir_dy(k) == ddy);
    assert(neighbor_cells(p)[k] == n);
}

/// Between two neighboring cells of a carved line, both on the map, the
/// elevation rule allows the step: at a height difference one of the two, or
/// the cell beside both of them, marks an elevation change, so one of the two
/// carries a Ramp.
proof fn lemma_carved_step_moves(m0: GameMap, m: GameMap, p: GridPos, n: GridPos)
    requires
        only_paths_carved(m0, m),
        king_step(p, n),
        m.spec_in_bounds(p),
        m.spec_in_bounds(n),
        ramp_due(m0, p) ==> m.tile(p).terrain == TerrainType::Ramp,
        ramp_due(m0, n) ==> m.tile(n).terrain == TerrainType::Ramp,
    ensures
        m.spec_can_move_between(p, n),
{
    assert(m0.spec_in_bounds(p) && m0.spec_in_bounds(n));
    let ep = m.tile(p).elevation;
    let en = m.tile(n).elevation;
    if ep != en {
        if p.x == n.x || p.y == n.y {
            let d = ((n.x - p.x) as int, (n.y - p.y) as int);
            assert(orth(d));
            let np = GridPos { x: (p.x + d.0) as i32, y: (p.y + d.1) as i32 };
            assert(np == n);
            assert(at_elevation_change(m0, p.x, p.y, m0.tile(p).elevation));
        } else {
            let c = GridPos { x: n.x, y: p.y };
            assert(m.spec_in_bounds(c));
            assert(m0.spec_in_bounds(c));
            if m.tile(c).elevation != ep {
                let d = ((n.x - p.x) as int, 0int);
                assert(orth(d));
                let np = GridPos { x: (p.x + d.0) as i32, y: (p.y + d.1) as i32 };
                assert(np == c);
                assert(at_elevation_change(m0, p.x, p.y, m0.tile(p).elevation));
            } else {
                let d = (0int, (p.y - n.y) as int);
                assert(orth(d));
                let np = GridPos { x: (n.x + d.0) as i32, y: (n.y + d.1) as i32 };
                assert(np == c);
                assert(at_elevation_change(m0, n.x, n.y, m0.tile(n).elevation));
            }
        }
    }
}

/// On a carved line whose cells all lie on the map and are unblocked, a land
/// unit on the line's last cell can walk back to every one of its cells.
proof fn lemma_carved_line_walk(m0: GameMap, m: GameMap, line: Seq<GridPos>, k: int)
    requires
        only_paths_carved(m0, m),
        line_carved(m0, m, line),
        forall|i: int| 0 <= i < line.len() - 1 ==> #[trigger] king_step(line[i], line[i + 1]),
        forall|i: int| 0 <= i < line.len() ==> m.spec_in_bounds(#[trigger] line[i]) && unblocked(m.tile(line[i])),
        0 <= k < line.len(),
    ensures
        line[k] == line.last() || land_reachable(m, line.last(), line[k]),
    decreases line.len() - k,
{
    if k < line.len() - 1 {
        lemma_carved_line_walk(m0, m, line, k + 1);
        let p = line[k + 1];
        let n = line[k];
        assert(king_step(line[k], line[k + 1]));
        assert(king_step(p, n));
        lemma_king_neighbor(p, n);
        assert(m.spec_in_bounds(n) && unblocked(m.tile(n)));
        assert(m.spec_in_bounds(p));
        assert(open_ground(m, line[k]));
        assert(m.spec_is_passable_for(n, FactionId::CatGPT));
        assert(ramp_due(m0, line[k]) ==> m.tile(line[k]).terrain == TerrainType::Ramp);
        assert(ramp_due(m0, line[k + 1]) ==> m.tile(line[k + 1]).terrain == TerrainType::Ramp);
        lemma_carved_step_moves(m0, m, p, n);
        assert(land_step(m, p, n));
        lemma_reach_extend(m, line.last(), p, n);
    }
}

/// Carving keeps the cells of an open spawn line on the map and unblocked.
proof fn lemma_open_line_stays_open(m0: GameMap, m: GameMap, spawns: Seq<(i32, i32)>, k: int)
    requires
        spawn_line_open(m0, spawns, k),
        only_paths_carved(m0, m),
        1 <= k < spawns.len(),
    ensures
        forall|j: int| 0 <= j < spawn_line(spawns, k).len() ==> m.spec_in_bounds(#[trigger] spawn_line(spawns, k)[j])
            && unblocked(m.tile(spawn_line(spawns, k)[j])),
{
    assert forall|j: int| 0 <= j < spawn_line(spawns, k).len() implies m.spec_in_bounds(
        #[trigger] spawn_line(spawns, k)[j],
    ) && unblocked(m.tile(spawn_line(spawns, k)[j])) by {
        let c = spawn_line(spawns, k)[j];
        assert(m0.spec_in_bounds(c) && unblocked(m0.tile(c)));
        assert(m.spec_in_bounds(c));
        assert(m.tile(c).passable == m0.tile(c).passable && m.tile(c).dynamic_flags == m0.tile(c).dynamic_flags);
    }
}

/// Check that every spawn can be reached from spawn 0 and carve an emergency
/// dirt path from each one that cannot. A map on which every spawn is already
/// reachable is left as it is. A spawn that was reachable stays reachable; a
/// spawn whose line to spawn 0 runs over unblocked cells of the map ends
/// reachable; every other spawn ends reachable or with its emergency path
/// carved. Only tiles under the brush of such a line change.
#[verifier::rlimit(40)]
#[verifier::spinoff_prover]
pub fn repair_connectivity(map: &mut GameMap, spawns: &[(i32, i32)])
    requires
        old(map).wf(),
        old(map).width <= i32::MAX,
        old(map).height <= i32::MAX,
        forall|k: int| 0 <= k < spawns@.len() ==> #[trigger] coord_ok(GridPos { x: spawns@[k].0, y: spawns@[k].1 }),
    ensures
        only_paths_carved(*old(map), *final(map)),
        (spawns@.len() < 2 || all_spawns_connected(*old(map), spawns@)) ==> *final(map) == *old(map),
        spawn_lines_open(*old(map), spawns@) ==> all_spawns_connected(*final(map), spawns@),
        forall|k: int| 1 <= k < spawns@.len() && #[trigger] spawn_connected(*old(map), spawns@, k) ==> spawn_connected(
            *final(map),
            spawns@,
            k,
        ),
        forall|k: int| 1 <= k < spawns@.len() && #[trigger] spawn_line_open(*old(map), spawns@, k) ==> spawn_connected(
            *final(map),
            spawns@,
            k,
        ),
        forall|k: int| 1 <= k < spawns@.len() ==> #[trigger] spawn_connected(*final(map), spawns@, k) || spawn_path_carved(
            *old(map),
            *final(map),
            spawns@,
            k,
        ),
        forall|q: GridPos| #[trigger] final(map).spec_in_bounds(q) ==> (final(map).tile(q) != old(map).tile(q)
            ==> exists|k: int| 1 <= k < spawns@.len() && near_line(#[trigger] spawn_line(spawns@, k), q)),
{
    let ghost m0 = *map;
    proof {
        assert forall|q: GridPos| #[trigger] map.spec_in_bounds(q) implies {
            let a = map.tile(q);
            let b = m0.tile(q);
            &&& a.elevation == b.elevation
            &&& a.dynamic_flags == b.dynamic_flags
            &&& a.passable == b.passable
            &&& (a.terrain == b.terrain || (a.terrain == TerrainType::Dirt && !b.terrain.spec_base_passable())
                || a.terrain == TerrainType::Ramp)
        } by {}
    }
    if spawns.len() < 2 {
        return;
    }
    let start = GridPos::new(spawns[0].0, spawns[0].1);
    proof {
        assert(coord_ok(GridPos { x: spawns@[0].0, y: spawns@[0].1 }));
    }
    let mut visited = flood_fill_passable(map, start);
    let mut i: usize = 1;
    while i < spawns.len()
        invariant
            1 <= i <= spawns@.len(),
            map.wf(),
            map.width == m0.width,
            map.height == m0.height,
            map.width <= i32::MAX,
            map.height <= i32::MAX,
            only_paths_carved(m0, *map),
            start == (GridPos { x: spawns@[0].0, y: spawns@[0].1 }),
            forall|k: int| 0 <= k < spawns@.len() ==> #[trigger] coord_ok(GridPos { x: spawns@[k].0, y: spawns@[k].1 }),
            visited@.len() == map.tiles_view().len(),
            forall|q: GridPos| map.spec_in_bounds(q) ==> (#[trigger] visited@[map.spec_index(q)] <==> (q == start
                || land_reachable(*map, start, q))),
            all_spawns_connected(m0, spawns@) ==> *map == m0,
            forall|k: int| 0 <= k < spawns@.len() && #[trigger] spawn_connected(m0, spawns@, k) ==> spawn_connected(
                *map,
                spawns@,
                k,
            ),
            forall|j: int| 1 <= j < i && #[trigger] spawn_line_open(m0, spawns@, j) ==> spawn_connected(*map, spawns@, j),
            forall|j: int| 1 <= j < i ==> #[trigger] spawn_connected(*map, spawns@, j) || spawn_path_carved(
                m0,
                *map,
                spawns@,
                j,
            ),
            forall|q: GridPos| #[trigger] map.spec_in_bounds(q) ==> (map.tile(q) != m0.tile(q) ==> exists|k: int|
                1 <= k < i && near_line(#[trigger] spawn_line(spawns@, k), q)),
        decreases spawns@.len() - i,
    {
        let (sx, sy) = spawns[i];
        let q = GridPos::new(sx, sy);
        let found = if q == start {
            true
        } else if map.in_bounds(q) {
            proof {
                crate::map::lemma_grid_index_bounds(map.width as int, map.height as int, q.x as int, q.y as int);
            }
            visited[(q.y as u32 * map.width + q.x as u32) as usize]
        } else {
            false
        };
        proof {
            assert(coord_ok(GridPos { x: spawns@[i as int].0, y: spawns@[i as int].1 }));
            if map.spec_in_bounds(q) && q != start {
                assert(visited@[map.spec_index(q)] == found);
            }
            if !map.spec_in_bounds(q) && q != start && land_reachable(*map, start, q) {
                let path = choose|path: Seq<GridPos>| #[trigger] is_land_path(*map, path) && path[0] == start
                    && path.last() == q;
                let j = path.len() - 2;
                assert(land_step(*map, path[j], path[j + 1]));
            }
            assert(found == spawn_connected(*map, spawns@, i as int));
            if all_spawns_connected(m0, spawns@) {
                assert(spawn_connected(m0, spawns@, i as int));
            }
        }
        if !found {
            let ghost mb = *map;
            let (tx, ty) = spawns[0];
            proof {
                assert(coord_ok(GridPos { x: spawns@[0].0, y: spawns@[0].1 }));
            }
            carve_emergency_path(map, sx, sy, tx, ty);
            proof {
                let line = spawn_line(spawns@, i as int);
                assert(line == bresenham_line(sx, sy, tx, ty));
                lemma_carved_trans(m0, mb, *map);
                assert forall|p: GridPos| #[trigger] map.spec_in_bounds(p) implies (map.tile(p) != m0.tile(p)
                    ==> exists|k: int| 1 <= k < i + 1 && near_line(#[trigger] spawn_line(spawns@, k), p)) by {
                    assert(mb.spec_in_bounds(p));
                    if map.tile(p) != mb.tile(p) {
                        assert(near_line(spawn_line(spawns@, i as int), p));
                    } else if map.tile(p) != m0.tile(p) {
                        let k = choose|k: int| 1 <= k < i && near_line(#[trigger] spawn_line(spawns@, k), p);
                        assert(near_line(spawn_line(spawns@, k), p));
                    }
                }
                assert forall|k: int| 0 <= k < spawns@.len() && #[trigger] spawn_connected(mb, spawns@, k) implies
                    spawn_connected(*map, spawns@, k) by {
                    let qk = GridPos { x: spawns@[k].0, y: spawns@[k].1 };
                    lemma_carving_keeps_reachability(mb, *map, start, qk);
                }
                assert forall|j: int| 1 <= j < i implies #[trigger] spawn_connected(*map, spawns@, j)
                    || spawn_path_carved(m0, *map, spawns@, j) by {
                    if spawn_connected(mb, spawns@, j) {
                        assert(spawn_connected(*map, spawns@, j));
                    } else {
                        assert(spawn_path_carved(m0, mb, spawns@, j));
                        lemma_carved_line_kept(m0, mb, *map, spawn_line(spawns@, j));
                    }
                }
                lemma_carved_line_from(m0, mb, *map, line);
                assert(spawn_path_carved(m0, *map, spawns@, i as int));
                assert forall|j: int| 1 <= j < i && #[trigger] spawn_line_open(m0, spawns@, j) implies spawn_connected(
                    *map,
                    spawns@,
                    j,
                ) by {
                    assert(spawn_connected(mb, spawns@, j));
                }
                assert forall|k: int| 0 <= k < spawns@.len() && #[trigger] spawn_connected(m0, spawns@, k) implies
                    spawn_connected(*map, spawns@, k) by {
                    assert(spawn_connected(mb, spawns@, k));
                }
                if spawn_line_open(m0, spawns@, i as int) {
                    let dx = iabs(tx - sx);
                    let dy = iabs(ty - sy);
                    assert(line_err(dx, dy, 0, 0) == dx - dy);
                    lemma_bresenham_shape(sx, sy, tx, ty, 0, 0);
                    lemma_open_line_stays_open(m0, *map, spawns@, i as int);
                    lemma_carved_line_walk(mb, *map, line, 0);
                    assert(line[0] == q);
                    assert(line.last() == start);
                    assert(spawn_connected(*map, spawns@, i as int));
                }
            }
            visited = flood_fill_passable(map, start);
        } else {
            proof {
                assert forall|p: GridPos| #[trigger] map.spec_in_bounds(p) implies (map.tile(p) != m0.tile(p)
                    ==> exists|k: int| 1 <= k < i + 1 && near_line(#[trigger] spawn_line(spawns@, k), p)) by {
                    if map.tile(p) != m0.tile(p) {
                        let k = choose|k: int| 1 <= k < i && near_line(#[trigger] spawn_line(spawns@, k), p);
                        assert(near_line(spawn_line(spawns@, k), p));
                    }
                }
            }
        }
        i = i + 1;
    }
    proof {
        if spawn_lines_open(m0, spawns@) {
            assert forall|k: int| 1 <= k < spawns@.len() implies #[trigger] spawn_connected(*map, spawns@, k) by {
                assert(spawn_line_open(m0, spawns@, k));
            }
        }
    }
}

// ---------------------------------------------------------------------------
// Resource and camp placement
// ---------------------------------------------------------------------------

/// `|v|` for a machine integer, as a mathematical integer.
pub open spec fn iabs(v: int) -> int {
    if v < 0 { -v } else { v }
}

/// Chebyshev distance of the offset `(dx, dy)` from the origin.
pub open spec fn cheb(dx: int, dy: int) -> int {
    if iabs(dx) >= iabs(dy) { iabs(dx) } else { iabs(dy) }
}

/// The cell at offset `(dx, dy)` from `(x, y)` is on the map and walkable.
pub open spec fn walkable_at(m: GameMap, x: int, y: int, dx: int, dy: int) -> bool {
    m.spec_is_passable(GridPos { x: (x + dx) as i32, y: (y + dy) as i32 })
}

/// Offset `(dx, dy)` is a walkable cell on one of the rings 1..=radius.
pub open spec fn ring_candidate(m: GameMap, x: int, y: int, radius: int, dx: int, dy: int) -> bool {
    1 <= cheb(dx, dy) <= radius && walkable_at(m, x, y, dx, dy)
}

/// Search order of `find_passable_near`: rings outward, then columns left to
/// right, then rows top to bottom.
pub open spec fn search_before(dx1: int, dy1: int, dx2: int, dy2: int) -> bool {
    cheb(dx1, dy1) < cheb(dx2, dy2) || (cheb(dx1, dy1) == cheb(dx2, dy2) && (dx1 < dx2 || (dx1 == dx2 && dy1 < dy2)))
}

/// `res` is what the spiral search from `(x, y)` up to `radius` finds: `(x, y)`
/// itself when walkable, else the first walkable ring cell in search order,
/// else `(x, y)` when no cell within the radius is walkable.
pub open spec fn search_result(m: GameMap, x: i32, y: i32, radius: i32, res: (i32, i32)) -> bool {
    if m.spec_is_passable(GridPos { x, y }) {
        res == (x, y)
    } else if exists|dx: int, dy: int| #[trigger] ring_candidate(m, x as int, y as int, radius as int, dx, dy) {
        exists|dx: int, dy: int| {
            &&& #[trigger] ring_candidate(m, x as int, y as int, radius as int, dx, dy)
            &&& res == ((x + dx) as i32, (y + dy) as i32)
            &&& forall|dx2: int, dy2: int|
                #[trigger] ring_candidate(m, x as int, y as int, radius as int, dx2, dy2) ==> !search_before(dx2, dy2, dx, dy)
        }
    } else {
        res == (x, y)
    }
}

/// Offsets up to `radius` around `(x, y)` stay inside `i32`.
pub open spec fn search_fits(x: i32, y: i32, radius: i32) -> bool {
    radius < i32::MAX && (radius >= 1 ==> (i32::MIN <= x - radius && x + radius <= i32::MAX && i32::MIN <= y - radius
        && y + radius <= i32::MAX))
}

/// Some cell within ring distance `radius` of `(x, y)`, `(x, y)` itself
/// included, is on the map and walkable.
pub open spec fn walkable_within(m: GameMap, x: i32, y: i32, radius: i32) -> bool {
    exists|dx: int, dy: int| cheb(dx, dy) <= radius && #[trigger] walkable_at(m, x as int, y as int, dx, dy)
}

/// Where some cell within `radius` of `(x, y)` is walkable, `res` is such a
/// cell and no walkable cell within the radius is nearer (by ring distance);
/// where none is, `res` is `(x, y)` itself.
pub open spec fn nearest_walkable(m: GameMap, x: i32, y: i32, radius: i32, res: (i32, i32)) -> bool {
    if walkable_within(m, x, y, radius) {
        &&& cheb(res.0 - x, res.1 - y) <= radius
        &&& m.spec_is_passable(GridPos { x: res.0, y: res.1 })
        &&& forall|dx: int, dy: int|
            cheb(dx, dy) <= radius && #[trigger] walkable_at(m, x as int, y as int, dx, dy) ==> cheb(
                res.0 - x,
                res.1 - y,
            ) <= cheb(dx, dy)
    } else {
        res == (x, y)
    }
}

/// The spiral search finds a nearest walkable cell within the radius.
proof fn lemma_search_is_nearest(m: GameMap, x: i32, y: i32, radius: i32, res: (i32, i32))
    requires
        search_fits(x, y, radius),
        search_result(m, x, y, radius, res),
    ensures
        nearest_walkable(m, x, y, radius, res),
{
    let here = m.spec_is_passable(GridPos { x, y });
    assert(walkable_at(m, x as int, y as int, 0, 0) == here);
    if here {
        assert(cheb(0, 0) == 0);
        if radius >= 0 {
            assert(walkable_within(m, x, y, radius));
        }
    } else if exists|dx: int, dy: int| #[trigger] ring_candidate(m, x as int, y as int, radius as int, dx, dy) {
        let (dx, dy) = choose|dx: int, dy: int|
            {
                &&& #[trigger] ring_candidate(m, x as int, y as int, radius as int, dx, dy)
                &&& res == ((x + dx) as i32, (y + dy) as i32)
                &&& forall|dx2: int, dy2: int|
                    #[trigger] ring_candidate(m, x as int, y as int, radius as int, dx2, dy2) ==> !search_before(
                        dx2,
                        dy2,
                        dx,
                        dy,
                    )
            };
        assert(res.0 - x == dx && res.1 - y == dy);
        assert(walkable_within(m, x, y, radius));
        assert forall|dx2: int, dy2: int|
            cheb(dx2, dy2) <= radius && #[trigger] walkable_at(m, x as int, y as int, dx2, dy2) implies cheb(
            res.0 - x,
            res.1 - y,
        ) <= cheb(dx2, dy2) by {
            if cheb(dx2, dy2) == 0 {
                assert(dx2 == 0 && dy2 == 0);
            } else {
                assert(ring_candidate(m, x as int, y as int, radius as int, dx2, dy2));
            }
        }
    } else {
        assert(res == (x, y));
        if walkable_within(m, x, y, radius) {
            let (dx, dy) = choose|dx: int, dy: int|
                cheb(dx, dy) <= radius && #[trigger] walkable_at(m, x as int, y as int, dx, dy);
            if cheb(dx, dy) == 0 {
                assert(dx == 0 && dy == 0);
            } else {
                assert(ring_candidate(m, x as int, y as int, radius as int, dx, dy));
            }
        }
    }
}

/// Find a passable tile near `(x, y)`, spiraling outward up to `radius`.
pub fn find_passable_near(map: &GameMap, x: i32, y: i32, radius: i32) -> (res: (i32, i32))
    requires
        map.wf(),
        search_fits(x, y, radius),
    ensures
        search_result(*map, x, y, radius, res),
        nearest_walkable(*map, x, y, radius, res),
{
    let pos = GridPos::new(x, y);
    if map.in_bounds(pos) && map.is_passable(pos) {
        proof {
            lemma_search_is_nearest(*map, x, y, radius, (x, y));
        }
        return (x, y);
    }
    let mut r: i32 = 1;
    while r <= radius
        invariant
            1 <= r,
            r <= radius + 1 || r == 1,
            map.wf(),
            search_fits(x, y, radius),
            !map.spec_is_passable(GridPos { x, y }),
            forall|dx2: int, dy2: int|
                cheb(dx2, dy2) < r && #[trigger] ring_candidate(*map, x as int, y as int, radius as int, dx2, dy2) ==> false,
        decreases radius + 1 - r,
    {
        let mut dx: i32 = -r;
        while dx <= r
            invariant
                1 <= r <= radius,
                -r <= dx <= r + 1,
                map.wf(),
                search_fits(x, y, radius),
                !map.spec_is_passable(GridPos { x, y }),
                forall|dx2: int, dy2: int|
                    (cheb(dx2, dy2) < r || (cheb(dx2, dy2) == r && dx2 < dx)) && #[trigger] ring_candidate(
                        *map,
                        x as int,
                        y as int,
                        radius as int,
                        dx2,
                        dy2,
                    ) ==> false,
            decreases r + 1 - dx,
        {
            let mut dy: i32 = -r;
            while dy <= r
                invariant
                    1 <= r <= radius,
                    -r <= dx <= r,
                    -r <= dy <= r + 1,
                    map.wf(),
                    search_fits(x, y, radius),
                    !map.spec_is_passable(GridPos { x, y }),
                    forall|dx2: int, dy2: int|
                        (cheb(dx2, dy2) < r || (cheb(dx2, dy2) == r && (dx2 < dx || (dx2 == dx && dy2 < dy))))
                            && #[trigger] ring_candidate(*map, x as int, y as int, radius as int, dx2, dy2) ==> false,
                decreases r + 1 - dy,
            {
                let adx = if dx < 0 { -dx } else { dx };
                let ady = if dy < 0 { -dy } else { dy };
                if adx == r || ady == r {
                    let p = GridPos::new(x + dx, y + dy);
                    if map.in_bounds(p) && map.is_passable(p) {
                        proof {
                            assert(ring_candidate(*map, x as int, y as int, radius as int, dx as int, dy as int));
                            assert(search_result(*map, x, y, radius, ((x + dx) as i32, (y + dy) as i32)));
                            lemma_search_is_nearest(*map, x, y, radius, ((x + dx) as i32, (y + dy) as i32));
                        }
                        return (x + dx, y + dy);
                    }
                }
                dy = dy + 1;
            }
            dx = dx + 1;
        }
        r = r + 1;
    }
    proof {
        assert(search_result(*map, x, y, radius, (x, y)));
        lemma_search_is_nearest(*map, x, y, radius, (x, y));
    }
    (x, y)
}

/// `v` fits in an `i32`.
pub open spec fn fits_i32(v: int) -> bool {
    i32::MIN <= v <= i32::MAX
}

/// Sign of `v`: -1, 0 or 1.
pub open spec fn sign(v: int) -> int {
    if v < 0 { -1 } else if v > 0 { 1 } else { 0 }
}

/// The six search targets placed around a spawn at `(sx, sy)` on a map with
/// center `(cx, cy)`, with the kind placed at each: T0 fish and GPU next to the
/// base, T1 fish and berries 12 tiles toward the center, T2 GPU and berries 60%
/// of the way to the center.
pub open spec fn resource_targets(sx: int, sy: int, cx: int, cy: int) -> Seq<(ResourceKind, int, int)> {
    let t1x = sx + sign(cx - sx) * 12;
    let t1y = sy + sign(cy - sy) * 12;
    let t2x = sx + trunc_div((cx - sx) * 6, 10);
    let t2y = sy + trunc_div((cy - sy) * 6, 10);
    seq![
        (ResourceKind::FishPond, sx + 3, sy + 1),
        (ResourceKind::GpuDeposit, sx - 3, sy + 2),
        (ResourceKind::FishPond, t1x, t1y),
        (ResourceKind::BerryBush, t1x + 2, t1y + 1),
        (ResourceKind::GpuDeposit, t2x + 3, t2y - 2),
        (ResourceKind::BerryBush, t2x - 2, t2y + 3),
    ]
}

/// Integer division rounding toward zero, as Rust's `/` on integers does.
pub open spec fn trunc_div(a: int, b: int) -> int {
    if a >= 0 { a / b } else { -((-a) / b) }
}

/// All the arithmetic that placing resources around a spawn does stays in
/// `i32`, including the radius-5 searches.
pub open spec fn resource_math_fits(sx: int, sy: int, cx: int, cy: int) -> bool {
    &&& fits_i32(cx - sx)
    &&& fits_i32(cy - sy)
    &&& fits_i32((cx - sx) * 6)
    &&& fits_i32((cy - sy) * 6)
    &&& forall|k: int| 0 <= k < 6 ==> {
        let t = #[trigger] resource_targets(sx, sy, cx, cy)[k];
        fits_i32(t.1 - 5) && fits_i32(t.1 + 5) && fits_i32(t.2 - 5) && fits_i32(t.2 + 5)
    }
    &&& fits_i32(sx + 12) && fits_i32(sx - 12) && fits_i32(sy + 12) && fits_i32(sy - 12)
    &&& fits_i32(sx + 3) && fits_i32(sx - 3) && fits_i32(sy + 3)
}

/// A search of radius `radius` around `(x, y)` ends no more than `radius`
/// cells from `(x, y)` on either axis.
proof fn lemma_search_stays_near(m: GameMap, x: i32, y: i32, radius: i32, res: (i32, i32))
    requires
        0 <= radius,
        fits_i32(x - radius) && fits_i32(x + radius) && fits_i32(y - radius) && fits_i32(y + radius),
        search_result(m, x, y, radius, res),
    ensures
        iabs(res.0 - x) <= radius,
        iabs(res.1 - y) <= radius,
{
    if !m.spec_is_passable(GridPos { x, y }) && exists|dx: int, dy: int|
        #[trigger] ring_candidate(m, x as int, y as int, radius as int, dx, dy) {
        let (dx, dy) = choose|dx: int, dy: int|
            {
                &&& #[trigger] ring_candidate(m, x as int, y as int, radius as int, dx, dy)
                &&& res == ((x + dx) as i32, (y + dy) as i32)
                &&& forall|dx2: int, dy2: int|
                    #[trigger] ring_candidate(m, x as int, y as int, radius as int, dx2, dy2) ==> !search_before(
                        dx2,
                        dy2,
                        dx,
                        dy,
                    )
            };
        assert(iabs(dx) <= radius && iabs(dy) <= radius);
    }
}

/// The second tier of a base's resources (the fish pond and the berry bush,
/// placements 2 and 3 of each spawn) lies toward the map center: on each axis
/// on which the spawn is off the center, the placed cell is 5 to 19 tiles from
/// the spawn in the direction of the center, the two axes judged
/// independently.
pub proof fn lemma_second_tier_toward_center(
    m: GameMap,
    sx: i32,
    sy: i32,
    cx: i32,
    cy: i32,
    j: int,
    p: (i32, i32),
)
    requires
        j == 2 || j == 3,
        resource_math_fits(sx as int, sy as int, cx as int, cy as int),
        search_result(
            m,
            resource_targets(sx as int, sy as int, cx as int, cy as int)[j].1 as i32,
            resource_targets(sx as int, sy as int, cx as int, cy as int)[j].2 as i32,
            5,
            p,
        ),
    ensures
        sx < cx ==> sx + 5 <= p.0 <= sx + 19,
        sx > cx ==> sx - 19 <= p.0 <= sx - 5,
        sy < cy ==> sy + 5 <= p.1 <= sy + 19,
        sy > cy ==> sy - 19 <= p.1 <= sy - 5,
{
    let t = resource_targets(sx as int, sy as int, cx as int, cy as int)[j];
    assert(fits_i32(t.1 - 5) && fits_i32(t.1 + 5) && fits_i32(t.2 - 5) && fits_i32(t.2 + 5));
    lemma_search_stays_near(m, t.1 as i32, t.2 as i32, 5, p);
}

/// Place tiered resources following RTS conventions: six per spawn (see
/// `resource_targets`), each at the walkable cell the radius-5 search finds, and
/// a Monkey Mine found within radius 8 of the map center.
#[verifier::rlimit(40)]
#[verifier::spinoff_prover]
pub fn place_tiered_resources(map: &GameMap, spawns: &[(i32, i32)], w: u32, h: u32) -> (res: Vec<ResourcePlacement>)
    requires
        map.wf(),
        w <= i32::MAX,
        h <= i32::MAX,
        forall|k: int| 0 <= k < spawns@.len() ==> #[trigger] resource_math_fits(
            spawns@[k].0 as int,
            spawns@[k].1 as int,
            (w / 2) as int,
            (h / 2) as int,
        ),
    ensures
        res@.len() == 6 * spawns@.len() + 1,
        forall|k: int, j: int| 0 <= k < spawns@.len() && 0 <= j < 6 ==> {
            let t = resource_targets(spawns@[k].0 as int, spawns@[k].1 as int, (w / 2) as int, (h / 2) as int)[j];
            let placed = #[trigger] res@[6 * k + j];
            placed.kind == t.0 && search_result(*map, t.1 as i32, t.2 as i32, 5, placed.pos)
        },
        res@[6 * spawns@.len() as int].kind == ResourceKind::MonkeyMine,
        search_result(*map, (w / 2) as i32, (h / 2) as i32, 8, res@[6 * spawns@.len() as int].pos),
{
    let mut resources: Vec<ResourcePlacement> = Vec::new();
    let cx = w as i32 / 2;
    let cy = h as i32 / 2;
    let mut i: usize = 0;
    while i < spawns.len()
        invariant
            i <= spawns@.len(),
            map.wf(),
            cx == (w / 2) as int,
            cy == (h / 2) as int,
            forall|k: int| 0 <= k < spawns@.len() ==> #[trigger] resource_math_fits(
                spawns@[k].0 as int,
                spawns@[k].1 as int,
                (w / 2) as int,
                (h / 2) as int,
            ),
            resources@.len() == 6 * i,
            forall|k: int, j: int| 0 <= k < i && 0 <= j < 6 ==> {
                let t = resource_targets(spawns@[k].0 as int, spawns@[k].1 as int, (w / 2) as int, (h / 2) as int)[j];
                let placed = #[trigger] resources@[6 * k + j];
                placed.kind == t.0 && search_result(*map, t.1 as i32, t.2 as i32, 5, placed.pos)
            },
        decreases spawns@.len() - i,
    {
        let (sx, sy) = spawns[i];
        let ghost ts = resource_targets(sx as int, sy as int, cx as int, cy as int);
        proof {
            assert(resource_math_fits(sx as int, sy as int, cx as int, cy as int));
            assert(resource_targets(sx as int, sy as int, cx as int, cy as int)[0] == ts[0]);
            assert(resource_targets(sx as int, sy as int, cx as int, cy as int)[1] == ts[1]);
            assert(resource_targets(sx as int, sy as int, cx as int, cy as int)[2] == ts[2]);
            assert(resource_targets(sx as int, sy as int, cx as int, cy as int)[3] == ts[3]);
            assert(resource_targets(sx as int, sy as int, cx as int, cy as int)[4] == ts[4]);
            assert(resource_targets(sx as int, sy as int, cx as int, cy as int)[5] == ts[5]);
        }
        let ghost before = resources@;
        // T0 (safe): FishPond + GpuDeposit within 5 tiles of spawn
        let fish_pos = find_passable_near(map, sx + 3, sy + 1, 5);
        resources.push(ResourcePlacement { kind: ResourceKind::FishPond, pos: fish_pos });
        let gpu_pos = find_passable_near(map, sx - 3, sy + 2, 5);
        resources.push(ResourcePlacement { kind: ResourceKind::GpuDeposit, pos: gpu_pos });
        // T1 (natural): FishPond + BerryBush about 12 tiles toward center
        let dx_to_center = if cx - sx < 0 { -1i32 } else if cx - sx > 0 { 1 } else { 0 };
        let dy_to_center = if cy - sy < 0 { -1i32 } else if cy - sy > 0 { 1 } else { 0 };
        let t1_x = sx + dx_to_center * 12;
        let t1_y = sy + dy_to_center * 12;
        let t1_fish = find_passable_near(map, t1_x, t1_y, 5);
        resources.push(ResourcePlacement { kind: ResourceKind::FishPond, pos: t1_fish });
        let t1_berry = find_passable_near(map, t1_x + 2, t1_y + 1, 5);
        resources.push(ResourcePlacement { kind: ResourceKind::BerryBush, pos: t1_berry });
        // T2 (contested): GpuDeposit + BerryBush about 60% toward center
        let t2_x = sx + (cx - sx) * 6 / 10;
        let t2_y = sy + (cy - sy) * 6 / 10;
        let t2_gpu = find_passable_near(map, t2_x + 3, t2_y - 2, 5);
        resources.push(ResourcePlacement { kind: ResourceKind::GpuDeposit, pos: t2_gpu });
        let t2_berry = find_passable_near(map, t2_x - 2, t2_y + 3, 5);
        resources.push(ResourcePlacement { kind: ResourceKind::BerryBush, pos: t2_berry });
        proof {
            assert forall|k: int, j: int| 0 <= k < i + 1 && 0 <= j < 6 implies {
                let t = resource_targets(spawns@[k].0 as int, spawns@[k].1 as int, (w / 2) as int, (h / 2) as int)[j];
                let placed = #[trigger] resources@[6 * k + j];
                placed.kind == t.0 && search_result(*map, t.1 as i32, t.2 as i32, 5, placed.pos)
            } by {
                if k < i {
                    assert(resources@[6 * k + j] == before[6 * k + j]);
                }
            }
        }
        i = i + 1;
    }
    // T3 (objective): MonkeyMine at map center
    let mm_pos = find_passable_near(map, cx, cy, 8);
    resources.push(ResourcePlacement { kind: ResourceKind::MonkeyMine, pos: mm_pos });
    proof {
        assert forall|k: int, j: int| 0 <= k < spawns@.len() && 0 <= j < 6 implies {
            let t = resource_targets(spawns@[k].0 as int, spawns@[k].1 as int, (w / 2) as int, (h / 2) as int)[j];
            let placed = #[trigger] resources@[6 * k + j];
            placed.kind == t.0 && search_result(*map, t.1 as i32, t.2 as i32, 5, placed.pos)
        } by {
            assert(6 * k + j < 6 * spawns@.len());
        }
    }
    resources
}

/// The three camps placed for a spawn at `(sx, sy)` around map center `(cx, cy)`:
/// a Green camp 5 tiles toward the center on each axis, an Orange camp 60% of
/// the way to the center.
pub open spec fn spawn_camps(sx: int, sy: int, cx: int, cy: int) -> Seq<NeutralCamp> {
    seq![
        NeutralCamp { tier: CampTier::Green, pos: ((sx + sign(cx - sx) * 5) as i32, (sy + sign(cy - sy) * 5) as i32) },
        NeutralCamp {
            tier: CampTier::Orange,
            pos: ((sx + trunc_div((cx - sx) * 6, 10)) as i32, (sy + trunc_div((cy - sy) * 6, 10)) as i32),
        },
    ]
}

/// Arithmetic for placing camps around a spawn stays in `i32`.
pub open spec fn camp_math_fits(sx: int, sy: int, cx: int, cy: int) -> bool {
    &&& fits_i32(cx - sx)
    &&& fits_i32(cy - sy)
    &&& fits_i32((cx - sx) * 6)
    &&& fits_i32((cy - sy) * 6)
    &&& fits_i32(sx + 5) && fits_i32(sx - 5) && fits_i32(sy + 5) && fits_i32(sy - 5)
}

/// The camps of a spawn lie toward the map center, each axis judged on its
/// own: the Green camp is 5 tiles from the spawn toward the center on every
/// axis on which the spawn is off the center (and level with the spawn on an
/// axis on which it is not); the Orange camp lies between the spawn and the
/// center on both axes.
pub proof fn lemma_camps_toward_center(sx: i32, sy: i32, cx: i32, cy: i32)
    requires
        camp_math_fits(sx as int, sy as int, cx as int, cy as int),
    ensures
        ({
            let g = spawn_camps(sx as int, sy as int, cx as int, cy as int)[0].pos;
            &&& sx < cx ==> g.0 == sx + 5
            &&& sx > cx ==> g.0 == sx - 5
            &&& sx == cx ==> g.0 == sx
            &&& sy < cy ==> g.1 == sy + 5
            &&& sy > cy ==> g.1 == sy - 5
            &&& sy == cy ==> g.1 == sy
        }),
        ({
            let o = spawn_camps(sx as int, sy as int, cx as int, cy as int)[1].pos;
            &&& (if sx <= cx { sx <= o.0 <= cx } else { cx <= o.0 <= sx })
            &&& (if sy <= cy { sy <= o.1 <= cy } else { cy <= o.1 <= sy })
        }),
        spawn_camps(sx as int, sy as int, cx as int, cy as int)[0].tier == CampTier::Green,
        spawn_camps(sx as int, sy as int, cx as int, cy as int)[1].tier == CampTier::Orange,
{
    let ax = (cx - sx) * 6;
    let ay = (cy - sy) * 6;
    if ax >= 0 {
        assert(0 <= ax / 10 <= cx - sx) by (nonlinear_arith)
            requires ax == (cx - sx) * 6, ax >= 0;
    } else {
        assert(0 <= (-ax) / 10 <= sx - cx) by (nonlinear_arith)
            requires ax == (cx - sx) * 6, ax < 0;
    }
    if ay >= 0 {
        assert(0 <= ay / 10 <= cy - sy) by (nonlinear_arith)
            requires ay == (cy - sy) * 6, ay >= 0;
    } else {
        assert(0 <= (-ay) / 10 <= sy - cy) by (nonlinear_arith)
            requires ay == (cy - sy) * 6, ay < 0;
    }
}

/// Place tiered neutral camps: two per spawn (see `spawn_camps`) and a Red
/// camp at the map center.
pub fn place_tiered_camps(spawns: &[(i32, i32)], w: u32, h: u32) -> (camps: Vec<NeutralCamp>)
    requires
        w <= i32::MAX,
        h <= i32::MAX,
        forall|k: int| 0 <= k < spawns@.len() ==> #[trigger] camp_math_fits(
            spawns@[k].0 as int,
            spawns@[k].1 as int,
            (w / 2) as int,
            (h / 2) as int,
        ),
    ensures
        camps@.len() == 2 * spawns@.len() + 1,
        forall|k: int, j: int| 0 <= k < spawns@.len() && 0 <= j < 2 ==> #[trigger] camps@[2 * k + j]
            == spawn_camps(spawns@[k].0 as int, spawns@[k].1 as int, (w / 2) as int, (h / 2) as int)[j],
        camps@[2 * spawns@.len() as int] == (NeutralCamp { tier: CampTier::Red, pos: ((w / 2) as i32, (h / 2) as i32) }),
{
    let mut camps: Vec<NeutralCamp> = Vec::new();
    let cx = w as i32 / 2;
    let cy = h as i32 / 2;
    let mut i: usize = 0;
    while i < spawns.len()
        invariant
            i <= spawns@.len(),
            cx == (w / 2) as int,
            cy == (h / 2) as int,
            forall|k: int| 0 <= k < spawns@.len() ==> #[trigger] camp_math_fits(
                spawns@[k].0 as int,
                spawns@[k].1 as int,
                (w / 2) as int,
                (h / 2) as int,
            ),
            camps@.len() == 2 * i,
            forall|k: int, j: int| 0 <= k < i && 0 <= j < 2 ==> #[trigger] camps@[2 * k + j]
                == spawn_camps(spawns@[k].0 as int, spawns@[k].1 as int, (w / 2) as int, (h / 2) as int)[j],
        decreases spawns@.len() - i,
    {
        let (sx, sy) = spawns[i];
        proof {
            assert(camp_math_fits(sx as int, sy as int, cx as int, cy as int));
        }
        let ghost before = camps@;
        // Green camp near base (about 5 tiles toward center)
        let sgx: i32 = if cx - sx < 0 { -1 } else if cx - sx > 0 { 1 } else { 0 };
        let sgy: i32 = if cy - sy < 0 { -1 } else if cy - sy > 0 { 1 } else { 0 };
        let dx = sgx * 5;
        let dy = sgy * 5;
        camps.push(NeutralCamp { tier: CampTier::Green, pos: (sx + dx, sy + dy) });
        // Orange camp at contested (about 60% toward center)
        let dx2 = (cx - sx) * 6 / 10;
        let dy2 = (cy - sy) * 6 / 10;
        proof {
            assert(fits_i32(sx + trunc_div((cx - sx) * 6, 10)));
        }
        camps.push(NeutralCamp { tier: CampTier::Orange, pos: (sx + dx2, sy + dy2) });
        proof {
            assert forall|k: int, j: int| 0 <= k < i + 1 && 0 <= j < 2 implies #[trigger] camps@[2 * k + j]
                == spawn_camps(spawns@[k].0 as int, spawns@[k].1 as int, (w / 2) as int, (h / 2) as int)[j] by {
                if k < i {
                    assert(camps@[2 * k + j] == before[2 * k + j]);
                }
            }
        }
        i = i + 1;
    }
    camps.push(NeutralCamp { tier: CampTier::Red, pos: (cx, cy) });
    proof {
        assert forall|k: int, j: int| 0 <= k < spawns@.len() && 0 <= j < 2 implies #[trigger] camps@[2 * k + j]
            == spawn_camps(spawns@[k].0 as int, spawns@[k].1 as int, (w / 2) as int, (h / 2) as int)[j] by {
            assert(2 * k + j < 2 * spawns@.len());
        }
    }
    camps
}

// ---------------------------------------------------------------------------
// Painting
// ---------------------------------------------------------------------------

/// Sets the terrain and elevation of the cell at `pos` (if on the map),
/// keeping its flags; every other cell stays.
pub fn paint_cell(map: &mut GameMap, pos: GridPos, terrain: TerrainType, elevation: u8)
    requires
        old(map).wf(),
    ensures
        final(map).wf(),
        final(map).width == old(map).width,
        final(map).height == old(map).height,
        final(map).spec_in_bounds(pos) ==> final(map).tile(pos).terrain == terrain && final(map).tile(pos).elevation
            == elevation,
        forall|q: GridPos| old(map).spec_in_bounds(q) && q != pos ==> #[trigger] final(map).tile(q) == old(map).tile(q),
        forall|q: GridPos| #[trigger] final(map).spec_in_bounds(q) ==> final(map).tile(q).dynamic_flags
            == old(map).tile(q).dynamic_flags && final(map).tile(q).passable == old(map).tile(q).passable,
{
    if map.in_bounds(pos) {
        let t = *map.get(pos).unwrap();
        map.set_tile(pos, TileData { terrain, elevation, ..t });
    }
}

/// `q` lies within Chebyshev distance 3 of `(sx, sy)`: the 7x7 base plateau.
pub open spec fn in_plateau(q: GridPos, sx: int, sy: int) -> bool {
    iabs(q.x - sx) <= 3 && iabs(q.y - sy) <= 3
}

/// The column offset of a base's side wall: toward the nearer vertical map
/// border, judged against the center column `cx`.
pub open spec fn wall_dx(sx: int, cx: int) -> int {
    if sx < cx { -4 } else { 4 }
}

/// The row offset of a base's top or bottom wall, judged against the center
/// row `cy`.
pub open spec fn wall_dy(sy: int, cy: int) -> int {
    if sy < cy { -4 } else { 4 }
}

/// Whether `q` is one of the wall cells of the base at `(sx, sy)` whose
/// offset along the wall is below `lim`: the walls run four cells out from
/// the spawn on its border-facing sides, from offset -3 to 3 with a gap of
/// three in the middle.
pub open spec fn base_wall_below(q: GridPos, sx: int, sy: int, cx: int, cy: int, lim: int) -> bool {
    ||| (q.x == sx + wall_dx(sx, cx) && 2 <= iabs(q.y - sy) <= 3 && q.y - sy < lim)
    ||| (q.y == sy + wall_dy(sy, cy) && 2 <= iabs(q.x - sx) <= 3 && q.x - sx < lim)
}

/// Whether `q` is a wall cell of the base at `(sx, sy)`.
pub open spec fn base_wall(q: GridPos, sx: int, sy: int, cx: int, cy: int) -> bool {
    base_wall_below(q, sx, sy, cx, cy, 4)
}

/// `t` with its terrain and elevation replaced.
pub open spec fn reground(t: TileData, terrain: TerrainType, elevation: u8) -> TileData {
    TileData { terrain, elevation, ..t }
}

/// What sculpting the base at `(sx, sy)` does to the tile `t` at `q`: wall
/// cells become level-2 Rock, plateau cells level-2 Grass, others stay.
pub open spec fn sculpt_tile(t: TileData, q: GridPos, sx: int, sy: int, cx: int, cy: int) -> TileData {
    if base_wall(q, sx, sy, cx, cy) {
        reground(t, TerrainType::Rock, 2)
    } else if in_plateau(q, sx, sy) {
        reground(t, TerrainType::Grass, 2)
    } else {
        t
    }
}

/// The tile at `q` after the bases of the first `n` spawns are sculpted, in
/// order, onto `m0` (later bases paint over earlier ones).
pub open spec fn sculpted(m0: GameMap, spawns: Seq<(i32, i32)>, n: int, cx: int, cy: int, q: GridPos) -> TileData
    decreases n,
{
    if n <= 0 {
        m0.tile(q)
    } else {
        sculpt_tile(sculpted(m0, spawns, n - 1, cx, cy, q), q, spawns[n - 1].0 as int, spawns[n - 1].1 as int, cx, cy)
    }
}

/// A cell on the plateau of some sculpted base ends at elevation 2.
proof fn lemma_sculpted_plateau(m0: GameMap, spawns: Seq<(i32, i32)>, n: int, cx: int, cy: int, q: GridPos, k: int)
    requires
        0 <= k < n <= spawns.len(),
        in_plateau(q, spawns[k].0 as int, spawns[k].1 as int),
    ensures
        sculpted(m0, spawns, n, cx, cy, q).elevation == 2,
    decreases n,
{
    if k < n - 1 {
        lemma_sculpted_plateau(m0, spawns, n - 1, cx, cy, q, k);
    }
}

/// No two spawns are within seven cells of each other (by ring distance), so
/// no base's plateau or wall reaches another base's.
pub open spec fn bases_apart(spawns: Seq<(i32, i32)>) -> bool {
    forall|i: int, j: int|
        #![trigger spawns[i], spawns[j]]
        0 <= i < j < spawns.len() ==> cheb(spawns[i].0 - spawns[j].0, spawns[i].1 - spawns[j].1) >= 8
}

/// `q` is a wall cell of one of the first `n` bases.
pub open spec fn on_some_wall(spawns: Seq<(i32, i32)>, n: int, cx: int, cy: int, q: GridPos) -> bool {
    exists|k: int| 0 <= k < n && #[trigger] base_wall(q, spawns[k].0 as int, spawns[k].1 as int, cx, cy)
}

/// `q` is on the plateau of one of the first `n` bases.
pub open spec fn on_some_plateau(spawns: Seq<(i32, i32)>, n: int, q: GridPos) -> bool {
    exists|k: int| 0 <= k < n && #[trigger] in_plateau(q, spawns[k].0 as int, spawns[k].1 as int)
}

/// The tile `t` at `q` once the first `n` bases are laid out: level-2 Rock on
/// a wall cell, level-2 Grass on a plateau, unchanged elsewhere.
pub open spec fn base_layout_tile(t: TileData, spawns: Seq<(i32, i32)>, n: int, cx: int, cy: int, q: GridPos) -> TileData {
    if on_some_wall(spawns, n, cx, cy, q) {
        reground(t, TerrainType::Rock, 2)
    } else if on_some_plateau(spawns, n, q) {
        reground(t, TerrainType::Grass, 2)
    } else {
        t
    }
}

/// With the bases apart, the order in which they are sculpted does not show:
/// each tile ends as the layout of all the bases makes it.
#[verifier::spinoff_prover]
#[verifier::rlimit(40)]
proof fn lemma_sculpted_layout(m0: GameMap, spawns: Seq<(i32, i32)>, n: int, cx: int, cy: int, q: GridPos)
    requires
        bases_apart(spawns),
        0 <= n <= spawns.len(),
    ensures
        sculpted(m0, spawns, n, cx, cy, q) == base_layout_tile(m0.tile(q), spawns, n, cx, cy, q),
    decreases n,
{
    if n > 0 {
        lemma_sculpted_layout(m0, spawns, n - 1, cx, cy, q);
        let t = m0.tile(q);
        let sx = spawns[n - 1].0 as int;
        let sy = spawns[n - 1].1 as int;
        if base_wall(q, sx, sy, cx, cy) {
            assert(on_some_wall(spawns, n, cx, cy, q));
        } else if in_plateau(q, sx, sy) {
            assert(on_some_plateau(spawns, n, q));
            assert forall|k: int| 0 <= k < n - 1 implies !#[trigger] base_wall(
                q,
                spawns[k].0 as int,
                spawns[k].1 as int,
                cx,
                cy,
            ) && !in_plateau(q, spawns[k].0 as int, spawns[k].1 as int) by {
                assert(cheb(spawns[k].0 - spawns[n - 1].0, spawns[k].1 - spawns[n - 1].1) >= 8);
            }
            assert(!on_some_wall(spawns, n - 1, cx, cy, q));
            assert(!on_some_plateau(spawns, n - 1, q));
            if on_some_wall(spawns, n, cx, cy, q) {
                let k = choose|k: int| 0 <= k < n && #[trigger] base_wall(q, spawns[k].0 as int, spawns[k].1 as int, cx, cy);
                assert(k < n - 1);
            }
        } else {
            if on_some_wall(spawns, n, cx, cy, q) {
                let k = choose|k: int| 0 <= k < n && #[trigger] base_wall(q, spawns[k].0 as int, spawns[k].1 as int, cx, cy);
                assert(on_some_wall(spawns, n - 1, cx, cy, q));
            }
            if on_some_plateau(spawns, n, q) {
                let k = choose|k: int| 0 <= k < n && #[trigger] in_plateau(q, spawns[k].0 as int, spawns[k].1 as int);
                assert(on_some_plateau(spawns, n - 1, q));
            }
        }
    }
}

/// Every wall a base puts up faces the nearer map border, away from the
/// center: a cell that sculpting turns into Rock is four cells from some spawn
/// (by ring distance), and on that axis it lies on the side of the spawn away
/// from the center line (right of a spawn at or right of the center column,
/// below a spawn at or below the center row; left or above otherwise). Such
/// cells end at elevation 2.
#[verifier::spinoff_prover]
#[verifier::rlimit(40)]
pub proof fn lemma_walls_face_border(m0: GameMap, spawns: Seq<(i32, i32)>, n: int, cx: int, cy: int, q: GridPos)
    requires
        0 <= n <= spawns.len(),
    ensures
        sculpted(m0, spawns, n, cx, cy, q).terrain == TerrainType::Rock && m0.tile(q).terrain != TerrainType::Rock
            ==> sculpted(m0, spawns, n, cx, cy, q).elevation == 2 && exists|k: int|
            0 <= k < n && {
                let sx = (#[trigger] spawns[k]).0 as int;
                let sy = spawns[k].1 as int;
                &&& cheb(q.x - sx, q.y - sy) == 4
                &&& iabs(q.x - sx) == 4 ==> ((q.x < sx) == (sx < cx))
                &&& iabs(q.y - sy) == 4 ==> ((q.y < sy) == (sy < cy))
            },
    decreases n,
{
    if n > 0 {
        lemma_walls_face_border(m0, spawns, n - 1, cx, cy, q);
        let sx = spawns[n - 1].0 as int;
        let sy = spawns[n - 1].1 as int;
        if base_wall(q, sx, sy, cx, cy) {
            let k = n - 1;
            assert(cheb(q.x - sx, q.y - sy) == 4);
        }
    }
}

/// Where the bases are apart, each base's walls stand on its border-facing
/// sides: every cell on the map four rows from a spawn on the side away from
/// the center row, two or three columns to either side of it, is level-2
/// Rock; so is every cell four columns from a spawn on the side away from the
/// center column, two or three rows above or below it.
pub proof fn lemma_walls_on_border_side(m0: GameMap, spawns: Seq<(i32, i32)>, k: int, cx: int, cy: int, q: GridPos)
    requires
        bases_apart(spawns),
        0 <= k < spawns.len(),
        ({
            let sx = spawns[k].0 as int;
            let sy = spawns[k].1 as int;
            ||| iabs(q.y - sy) == 4 && 2 <= iabs(q.x - sx) <= 3 && ((q.y < sy) == (sy < cy))
            ||| iabs(q.x - sx) == 4 && 2 <= iabs(q.y - sy) <= 3 && ((q.x < sx) == (sx < cx))
        }),
    ensures
        sculpted(m0, spawns, spawns.len() as int, cx, cy, q).terrain == TerrainType::Rock,
        sculpted(m0, spawns, spawns.len() as int, cx, cy, q).elevation == 2,
{
    lemma_sculpted_layout(m0, spawns, spawns.len() as int, cx, cy, q);
    assert(base_wall(q, spawns[k].0 as int, spawns[k].1 as int, cx, cy));
    assert(on_some_wall(spawns, spawns.len() as int, cx, cy, q));
}

/// Sculpt base areas: a 7x7 level-2 Grass plateau around each spawn, with
/// Rock walls (level 2, a gap of three in the middle) on the two sides that
/// face the map border. Bases are sculpted in spawn order; every base plateau
/// ends up at elevation 2.
pub fn sculpt_base_areas(map: &mut GameMap, spawns: &[(i32, i32)])
    requires
        old(map).wf(),
        old(map).width <= i32::MAX,
        old(map).height <= i32::MAX,
        forall|k: int| 0 <= k < spawns@.len() ==> i32::MIN + 4 <= #[trigger] spawns@[k].0 <= i32::MAX - 4
            && i32::MIN + 4 <= spawns@[k].1 <= i32::MAX - 4,
    ensures
        final(map).wf(),
        final(map).width == old(map).width,
        final(map).height == old(map).height,
        forall|q: GridPos| #[trigger] old(map).spec_in_bounds(q) ==> final(map).tile(q) == sculpted(
            *old(map),
            spawns@,
            spawns@.len() as int,
            (old(map).width / 2) as int,
            (old(map).height / 2) as int,
            q,
        ),
        forall|k: int, q: GridPos|
            #![trigger final(map).tile(q), spawns@[k]]
            0 <= k < spawns@.len() && final(map).spec_in_bounds(q) && in_plateau(q, spawns@[k].0 as int, spawns@[k].1 as int)
                ==> final(map).tile(q).elevation == 2,
        bases_apart(spawns@) ==> forall|q: GridPos| #[trigger] old(map).spec_in_bounds(q) ==> final(map).tile(q)
            == base_layout_tile(
            old(map).tile(q),
            spawns@,
            spawns@.len() as int,
            (old(map).width / 2) as int,
            (old(map).height / 2) as int,
            q,
        ),
{
    let ghost m0 = *map;
    let w = map.width as i32;
    let h = map.height as i32;
    let cx = w / 2;
    let cy = h / 2;
    let ghost gcx = cx as int;
    let ghost gcy = cy as int;
    let mut i: usize = 0;
    while i < spawns.len()
        invariant
            i <= spawns@.len(),
            forall|k: int| 0 <= k < spawns@.len() ==> i32::MIN + 4 <= #[trigger] spawns@[k].0 <= i32::MAX - 4
                && i32::MIN + 4 <= spawns@[k].1 <= i32::MAX - 4,
            gcx == m0.width / 2,
            gcy == m0.height / 2,
            cx == gcx,
            cy == gcy,
            map.wf(),
            map.width == m0.width,
            map.height == m0.height,
            forall|q: GridPos| #[trigger] m0.spec_in_bounds(q) ==> map.tile(q) == sculpted(m0, spawns@, i as int, gcx, gcy, q),
        decreases spawns@.len() - i,
    {
        let (sx, sy) = spawns[i];
        proof {
            assert(i32::MIN + 4 <= spawns@[i as int].0 <= i32::MAX - 4);
        }
        let ghost before_base = *map;
        // 7x7 grass plateau
        let mut dy: i32 = -3;
        while dy <= 3
            invariant
                -3 <= dy <= 4,
                i < spawns@.len(),
                (sx, sy) == spawns@[i as int],
                i32::MIN + 4 <= sx <= i32::MAX - 4,
                i32::MIN + 4 <= sy <= i32::MAX - 4,
                map.wf(),
                map.width == m0.width,
                map.height == m0.height,
                forall|q: GridPos| #[trigger] m0.spec_in_bounds(q) ==> map.tile(q) == if in_plateau(q, sx as int, sy as int)
                    && q.y < sy + dy {
                    reground(sculpted(m0, spawns@, i as int, gcx, gcy, q), TerrainType::Grass, 2)
                } else {
                    sculpted(m0, spawns@, i as int, gcx, gcy, q)
                },
            decreases 4 - dy,
        {
            let mut dx: i32 = -3;
            while dx <= 3
                invariant
                    -3 <= dy <= 3,
                    -3 <= dx <= 4,
                    i < spawns@.len(),
                    (sx, sy) == spawns@[i as int],
                    i32::MIN + 4 <= sx <= i32::MAX - 4,
                    i32::MIN + 4 <= sy <= i32::MAX - 4,
                    map.wf(),
                    map.width == m0.width,
                    map.height == m0.height,
                    forall|q: GridPos| #[trigger] m0.spec_in_bounds(q) ==> map.tile(q) == if in_plateau(q, sx as int, sy as int)
                        && (q.y < sy + dy || (q.y == sy + dy && q.x < sx + dx)) {
                        reground(sculpted(m0, spawns@, i as int, gcx, gcy, q), TerrainType::Grass, 2)
                    } else {
                        sculpted(m0, spawns@, i as int, gcx, gcy, q)
                    },
                decreases 4 - dx,
            {
                let ghost before = *map;
                let pos = GridPos::new(sx + dx, sy + dy);
                paint_cell(map, pos, TerrainType::Grass, 2);
                proof {
                    assert forall|q: GridPos| #[trigger] m0.spec_in_bounds(q) implies map.tile(q) == if in_plateau(
                        q,
                        sx as int,
                        sy as int,
                    ) && (q.y < sy + dy || (q.y == sy + dy && q.x < sx + dx + 1)) {
                        reground(sculpted(m0, spawns@, i as int, gcx, gcy, q), TerrainType::Grass, 2)
                    } else {
                        sculpted(m0, spawns@, i as int, gcx, gcy, q)
                    } by {
                        assert(before.spec_in_bounds(q));
                        assert(map.spec_in_bounds(q));
                    }
                }
                dx = dx + 1;
            }
            dy = dy + 1;
        }
        // Rock walls on the border-facing sides, with a gap toward the center.
        let wdx: i32 = if sx < cx { -4 } else { 4 };
        let wdy: i32 = if sy < cy { -4 } else { 4 };
        let mut j: i32 = -3;
        while j <= 3
            invariant
                -3 <= j <= 4,
                i < spawns@.len(),
                (sx, sy) == spawns@[i as int],
                i32::MIN + 4 <= sx <= i32::MAX - 4,
                i32::MIN + 4 <= sy <= i32::MAX - 4,
                cx == gcx,
                cy == gcy,
                wdx == wall_dx(sx as int, gcx),
                wdy == wall_dy(sy as int, gcy),
                map.wf(),
                map.width == m0.width,
                map.height == m0.height,
                forall|q: GridPos| #[trigger] m0.spec_in_bounds(q) ==> map.tile(q) == if base_wall_below(
                    q,
                    sx as int,
                    sy as int,
                    gcx,
                    gcy,
                    j as int,
                ) {
                    reground(sculpted(m0, spawns@, i as int, gcx, gcy, q), TerrainType::Rock, 2)
                } else if in_plateau(q, sx as int, sy as int) {
                    reground(sculpted(m0, spawns@, i as int, gcx, gcy, q), TerrainType::Grass, 2)
                } else {
                    sculpted(m0, spawns@, i as int, gcx, gcy, q)
                },
            decreases 4 - j,
        {
            let aj = if j < 0 { -j } else { j };
            if aj > 1 {
                let ghost b1 = *map;
                let p1 = GridPos::new(sx + wdx, sy + j);
                paint_cell(map, p1, TerrainType::Rock, 2);
                let ghost b2 = *map;
                let p2 = GridPos::new(sx + j, sy + wdy);
                paint_cell(map, p2, TerrainType::Rock, 2);
                proof {
                    assert forall|q: GridPos| #[trigger] m0.spec_in_bounds(q) implies map.tile(q) == if base_wall_below(
                        q,
                        sx as int,
                        sy as int,
                        gcx,
                        gcy,
                        j + 1,
                    ) {
                        reground(sculpted(m0, spawns@, i as int, gcx, gcy, q), TerrainType::Rock, 2)
                    } else if in_plateau(q, sx as int, sy as int) {
                        reground(sculpted(m0, spawns@, i as int, gcx, gcy, q), TerrainType::Grass, 2)
                    } else {
                        sculpted(m0, spawns@, i as int, gcx, gcy, q)
                    } by {
                        assert(b1.spec_in_bounds(q));
                        assert(b2.spec_in_bounds(q));
                        assert(map.spec_in_bounds(q));
                    }
                }
            } else {
                proof {
                    assert forall|q: GridPos| #[trigger] m0.spec_in_bounds(q) implies map.tile(q) == if base_wall_below(
                        q,
                        sx as int,
                        sy as int,
                        gcx,
                        gcy,
                        j + 1,
                    ) {
                        reground(sculpted(m0, spawns@, i as int, gcx, gcy, q), TerrainType::Rock, 2)
                    } else if in_plateau(q, sx as int, sy as int) {
                        reground(sculpted(m0, spawns@, i as int, gcx, gcy, q), TerrainType::Grass, 2)
                    } else {
                        sculpted(m0, spawns@, i as int, gcx, gcy, q)
                    } by {
                    }
                }
            }
            j = j + 1;
        }
        proof {
            assert forall|q: GridPos| #[trigger] m0.spec_in_bounds(q) implies map.tile(q) == sculpted(
                m0,
                spawns@,
                i as int + 1,
                gcx,
                gcy,
                q,
            ) by {
            }
        }
        i = i + 1;
    }
    proof {
        assert forall|k: int, q: GridPos|
            #![trigger map.tile(q), spawns@[k]]
            0 <= k < spawns@.len() && map.spec_in_bounds(q) && in_plateau(q, spawns@[k].0 as int, spawns@[k].1 as int)
                implies map.tile(q).elevation == 2 by {
            assert(m0.spec_in_bounds(q));
            lemma_sculpted_plateau(m0, spawns@, spawns@.len() as int, gcx, gcy, q, k);
        }
        if bases_apart(spawns@) {
            assert forall|q: GridPos| #[trigger] m0.spec_in_bounds(q) implies map.tile(q) == base_layout_tile(
                m0.tile(q),
                spawns@,
                spawns@.len() as int,
                gcx,
                gcy,
                q,
            ) by {
                lemma_sculpted_layout(m0, spawns@, spawns@.len() as int, gcx, gcy, q);
            }
        }
    }
}

// ---------------------------------------------------------------------------
// Brushes
// ---------------------------------------------------------------------------

/// What a brush does to each cell it covers.
#[derive(Debug, Clone, Copy, PartialEq, Eq, Structural)]
pub enum BrushOp {
    /// Set both terrain and elevation (zone painting).
    Paint(TerrainType, u8),
    /// Set the terrain, keeping the elevation (lane carving).
    Carve(TerrainType),
    /// Turn Water into Shallows, leaving every other terrain (fords).
    Ford,
}

/// The tile `t` becomes under the brush operation `op`; flags and the
/// passable bit stay.
pub open spec fn brushed(op: BrushOp, t: TileData) -> TileData {
    match op {
        BrushOp::Paint(terrain, elevation) => TileData { terrain, elevation, ..t },
        BrushOp::Carve(terrain) => TileData { terrain, ..t },
        BrushOp::Ford => if t.terrain == TerrainType::Water {
            TileData { terrain: TerrainType::Shallows, ..t }
        } else {
            t
        },
    }
}

/// Whether `q` lies within the disc of radius `r` around `(cx, cy)`.
pub open spec fn in_disc(q: GridPos, cx: int, cy: int, r: int) -> bool {
    (q.x - cx) * (q.x - cx) + (q.y - cy) * (q.y - cy) <= r * r
}

/// A coordinate inside a disc lies within `r` of its center on each axis.
proof fn lemma_disc_box(dx: int, dy: int, r: int)
    requires
        r >= 0,
        dx * dx + dy * dy <= r * r,
    ensures
        -r <= dx <= r,
        -r <= dy <= r,
{
    assert(dx * dx <= r * r) by (nonlinear_arith)
        requires
            dx * dx + dy * dy <= r * r,
    ;
    assert(dy * dy <= r * r) by (nonlinear_arith)
        requires
            dx * dx + dy * dy <= r * r,
    ;
    assert(-r <= dx <= r) by (nonlinear_arith)
        requires
            dx * dx <= r * r,
            r >= 0,
    ;
    assert(-r <= dy <= r) by (nonlinear_arith)
        requires
            dy * dy <= r * r,
            r >= 0,
    ;
}

/// The tile `t` becomes under `op`.
fn brush_tile(t: TileData, op: BrushOp) -> (r: TileData)
    ensures
        r == brushed(op, t),
{
    match op {
        BrushOp::Paint(terrain, elevation) => TileData { terrain, elevation, ..t },
        BrushOp::Carve(terrain) => TileData { terrain, ..t },
        BrushOp::Ford => if t.terrain == TerrainType::Water {
            TileData { terrain: TerrainType::Shallows, ..t }
        } else {
            t
        },
    }
}

/// Applies `op` to the cell at `pos` (if on the map); every other cell stays.
pub fn brush_cell(map: &mut GameMap, pos: GridPos, op: BrushOp)
    requires
        old(map).wf(),
    ensures
        final(map).wf(),
        final(map).width == old(map).width,
        final(map).height == old(map).height,
        final(map).spec_in_bounds(pos) ==> final(map).tile(pos) == brushed(op, old(map).tile(pos)),
        forall|q: GridPos| old(map).spec_in_bounds(q) && q != pos ==> #[trigger] final(map).tile(q) == old(map).tile(q),
{
    if map.in_bounds(pos) {
        let t = *map.get(pos).unwrap();
        map.set_tile(pos, brush_tile(t, op));
    }
}

/// Applies `op` to every cell of the map (the base fill of zone painting).
pub fn brush_all(map: &mut GameMap, op: BrushOp)
    requires
        old(map).wf(),
    ensures
        final(map).wf(),
        final(map).width == old(map).width,
        final(map).height == old(map).height,
        forall|q: GridPos| #[trigger] old(map).spec_in_bounds(q) ==> final(map).tile(q) == brushed(op, old(map).tile(q)),
{
    let ghost m0 = *map;
    let n = map.tiles.len();
    let mut i: usize = 0;
    while i < n
        invariant
            map.width == m0.width,
            map.height == m0.height,
            map.tiles@.len() == n,
            n == m0.tiles@.len(),
            m0.wf(),
            i <= n,
            forall|j: int| 0 <= j < i ==> #[trigger] map.tiles@[j] == brushed(op, m0.tiles@[j]),
            forall|j: int| i <= j < n ==> #[trigger] map.tiles@[j] == m0.tiles@[j],
        decreases n - i,
    {
        let t = map.tiles[i];
        map.tiles.set(i, brush_tile(t, op));
        i = i + 1;
    }
    proof {
        assert forall|q: GridPos| #[trigger] m0.spec_in_bounds(q) implies map.tile(q) == brushed(op, m0.tile(q)) by {
            crate::map::lemma_grid_index_bounds(m0.width as int, m0.height as int, q.x as int, q.y as int);
        }
    }
}

/// Applies `op` to every map cell within the disc of radius `r` around
/// `(cx, cy)`, as the zone, lane and ford brushes of map generation do; cells
/// outside the disc stay.
pub fn brush_disc(map: &mut GameMap, cx: i32, cy: i32, r: i32, op: BrushOp)
    requires
        old(map).wf(),
        0 <= r <= 32767,
        i32::MIN <= cx - r,
        cx + r <= i32::MAX,
        i32::MIN <= cy - r,
        cy + r <= i32::MAX,
    ensures
        final(map).wf(),
        final(map).width == old(map).width,
        final(map).height == old(map).height,
        forall|q: GridPos| #[trigger] old(map).spec_in_bounds(q) ==> final(map).tile(q) == if in_disc(q, cx as int, cy as int, r as int) {
            brushed(op, old(map).tile(q))
        } else {
            old(map).tile(q)
        },
{
    let ghost m0 = *map;
    let mut dy: i32 = -r;
    proof {
        assert forall|q: GridPos| #[trigger] m0.spec_in_bounds(q) implies !(in_disc(q, cx as int, cy as int, r as int)
            && q.y < cy + dy) by {
            if in_disc(q, cx as int, cy as int, r as int) {
                lemma_disc_box(q.x - cx, q.y - cy, r as int);
            }
        }
    }
    while dy <= r
        invariant
            -r <= dy <= r + 1,
            0 <= r <= 32767,
            i32::MIN <= cx - r,
            cx + r <= i32::MAX,
            i32::MIN <= cy - r,
            cy + r <= i32::MAX,
            map.wf(),
            map.width == m0.width,
            map.height == m0.height,
            forall|q: GridPos| #[trigger] m0.spec_in_bounds(q) ==> map.tile(q) == if in_disc(q, cx as int, cy as int, r as int)
                && q.y < cy + dy {
                brushed(op, m0.tile(q))
            } else {
                m0.tile(q)
            },
        decreases r + 1 - dy,
    {
        let mut dx: i32 = -r;
        proof {
            assert forall|q: GridPos| #[trigger] m0.spec_in_bounds(q) && in_disc(q, cx as int, cy as int, r as int)
                && q.y == cy + dy implies !(q.x < cx + dx) by {
                lemma_disc_box(q.x - cx, q.y - cy, r as int);
            }
        }
        while dx <= r
            invariant
                -r <= dy <= r,
                -r <= dx <= r + 1,
                0 <= r <= 32767,
                i32::MIN <= cx - r,
                cx + r <= i32::MAX,
                i32::MIN <= cy - r,
                cy + r <= i32::MAX,
                map.wf(),
                map.width == m0.width,
                map.height == m0.height,
                forall|q: GridPos| #[trigger] m0.spec_in_bounds(q) ==> map.tile(q) == if in_disc(q, cx as int, cy as int, r as int)
                    && (q.y < cy + dy || (q.y == cy + dy && q.x < cx + dx)) {
                    brushed(op, m0.tile(q))
                } else {
                    m0.tile(q)
                },
            decreases r + 1 - dx,
        {
            assert(0 <= dx * dx <= 1073676289) by (nonlinear_arith)
                requires
                    -32767 <= dx <= 32767,
            ;
            assert(0 <= dy * dy <= 1073676289) by (nonlinear_arith)
                requires
                    -32767 <= dy <= 32767,
            ;
            assert(0 <= r * r <= 1073676289) by (nonlinear_arith)
                requires
                    0 <= r <= 32767,
            ;
            if dx * dx + dy * dy <= r * r {
                let pos = GridPos::new(cx + dx, cy + dy);
                let ghost before = *map;
                brush_cell(map, pos, op);
                proof {
                    assert forall|q: GridPos| #[trigger] m0.spec_in_bounds(q) implies map.tile(q) == if in_disc(q, cx as int, cy as int, r as int)
                        && (q.y < cy + dy || (q.y == cy + dy && q.x < cx + dx + 1)) {
                        brushed(op, m0.tile(q))
                    } else {
                        m0.tile(q)
                    } by {
                        assert(before.spec_in_bounds(q));
                        if q == pos {
                            assert(in_disc(q, cx as int, cy as int, r as int));
                        }
                    }
                }
            } else {
                proof {
                    assert forall|q: GridPos| #[trigger] m0.spec_in_bounds(q) implies map.tile(q) == if in_disc(q, cx as int, cy as int, r as int)
                        && (q.y < cy + dy || (q.y == cy + dy && q.x < cx + dx + 1)) {
                        brushed(op, m0.tile(q))
                    } else {
                        m0.tile(q)
                    } by {
                        if q.y == cy + dy && q.x == cx + dx {
                            assert(!in_disc(q, cx as int, cy as int, r as int));
                        }
                    }
                }
            }
            dx = dx + 1;
        }
        proof {
            assert forall|q: GridPos| #[trigger] m0.spec_in_bounds(q) implies map.tile(q) == if in_disc(q, cx as int, cy as int, r as int)
                && q.y < cy + dy + 1 {
                brushed(op, m0.tile(q))
            } else {
                m0.tile(q)
            } by {
                if in_disc(q, cx as int, cy as int, r as int) && q.y == cy + dy {
                    lemma_disc_box(q.x - cx, q.y - cy, r as int);
                }
            }
        }
        dy = dy + 1;
    }
    proof {
        assert forall|q: GridPos| #[trigger] m0.spec_in_bounds(q) implies map.tile(q) == if in_disc(q, cx as int, cy as int, r as int) {
            brushed(op, m0.tile(q))
        } else {
            m0.tile(q)
        } by {
            if in_disc(q, cx as int, cy as int, r as int) {
                lemma_disc_box(q.x - cx, q.y - cy, r as int);
            }
        }
    }
}

// ---------------------------------------------------------------------------
// Ramps and noise detail
// ---------------------------------------------------------------------------

/// Turns the cell at `(px, py)` into a Ramp (keeping its elevation) when it
/// lies on the map next to an orthogonal neighbour on the map at a different
/// elevation; otherwise nothing changes. This is the step taken at each
/// sampled lane point when ramps are placed.
pub fn ramp_at_transition(map: &mut GameMap, px: i32, py: i32)
    requires
        old(map).wf(),
        i32::MIN < px < i32::MAX,
        i32::MIN < py < i32::MAX,
    ensures
        final(map).wf(),
        final(map).width == old(map).width,
        final(map).height == old(map).height,
        ({
            let p = GridPos { x: px, y: py };
            if old(map).spec_in_bounds(p) && at_elevation_change(*old(map), px, py, old(map).tile(p).elevation) {
                final(map).tile(p) == (TileData { terrain: TerrainType::Ramp, ..old(map).tile(p) })
            } else {
                final(map).tile(p) == old(map).tile(p) || !old(map).spec_in_bounds(p)
            }
        }),
        forall|q: GridPos| old(map).spec_in_bounds(q) && q != (GridPos { x: px, y: py }) ==> #[trigger] final(map).tile(q)
            == old(map).tile(q),
{
    let pos = GridPos::new(px, py);
    if !map.in_bounds(pos) {
        return;
    }
    let elev = map.elevation_at(pos);
    let w = GridPos::new(px - 1, py);
    let e = GridPos::new(px + 1, py);
    let n = GridPos::new(px, py - 1);
    let s = GridPos::new(px, py + 1);
    let change = (map.in_bounds(w) && map.elevation_at(w) != elev) || (map.in_bounds(e) && map.elevation_at(e) != elev)
        || (map.in_bounds(n) && map.elevation_at(n) != elev) || (map.in_bounds(s) && map.elevation_at(s) != elev);
    proof {
        if map.spec_in_bounds(w) && map.spec_elevation_at(w) != elev {
            assert(orth((-1int, 0int)));
        }
        if map.spec_in_bounds(e) && map.spec_elevation_at(e) != elev {
            assert(orth((1int, 0int)));
        }
        if map.spec_in_bounds(n) && map.spec_elevation_at(n) != elev {
            assert(orth((0int, -1int)));
        }
        if map.spec_in_bounds(s) && map.spec_elevation_at(s) != elev {
            assert(orth((0int, 1int)));
        }
    }
    if change {
        let t = *map.get(pos).unwrap();
        map.set_tile(pos, TileData { terrain: TerrainType::Ramp, ..t });
    }
}

/// Terrain that noise detail never repaints: roads, water, rock, ramps, tech
/// ruins and shallows.
pub open spec fn structural(t: TerrainType) -> bool {
    t == TerrainType::Road || t == TerrainType::Water || t == TerrainType::Rock || t == TerrainType::Ramp
        || t == TerrainType::TechRuins || t == TerrainType::Shallows
}

/// Whether `(x, y)` lies within five tiles (on both axes) of some spawn.
pub open spec fn near_spawn(spawns: Seq<(i32, i32)>, x: int, y: int) -> bool {
    exists|k: int| 0 <= k < spawns.len() && iabs(x - (#[trigger] spawns[k]).0) <= 5 && iabs(y - spawns[k].1) <= 5
}

/// Noise detail repaints only open natural ground well away from the bases:
/// a cell is eligible exactly when its terrain is Grass, Dirt, Sand or Forest
/// (never a ford of Shallows, a Road, Water, Rock, a Ramp or Tech Ruins) and
/// every spawn is more than five tiles from it on some axis.
pub proof fn lemma_noise_repaints_open_ground(t: TerrainType, spawns: Seq<(i32, i32)>, x: int, y: int)
    ensures
        (!structural(t) && !near_spawn(spawns, x, y)) <==> ((t is Grass || t is Dirt || t is Sand || t is Forest)
            && forall|k: int| 0 <= k < spawns.len() ==> cheb(x - (#[trigger] spawns[k]).0, y - spawns[k].1) > 5),
{
    if !near_spawn(spawns, x, y) {
        assert forall|k: int| 0 <= k < spawns.len() implies cheb(x - (#[trigger] spawns[k]).0, y - spawns[k].1) > 5 by {
            if cheb(x - spawns[k].0, y - spawns[k].1) <= 5 {
                assert(iabs(x - spawns[k].0) <= 5 && iabs(y - spawns[k].1) <= 5);
            }
        }
    }
    if near_spawn(spawns, x, y) {
        let k = choose|k: int| 0 <= k < spawns.len() && iabs(x - (#[trigger] spawns[k]).0) <= 5 && iabs(y - spawns[k].1) <= 5;
        assert(cheb(x - spawns[k].0, y - spawns[k].1) <= 5);
    }
}

/// Whether noise detail may repaint the cell `(x, y)`: its terrain is not
/// structural and it lies more than five tiles from every spawn.
pub fn noise_may_repaint(map: &GameMap, spawns: &[(i32, i32)], x: i32, y: i32) -> (r: bool)
    requires
        map.wf(),
        map.spec_in_bounds(GridPos { x, y }),
    ensures
        r == (!structural(map.tile(GridPos { x, y }).terrain) && !near_spawn(spawns@, x as int, y as int)),
{
    let t = map.get(GridPos::new(x, y)).unwrap().terrain;
    match t {
        TerrainType::Road | TerrainType::Water | TerrainType::Rock | TerrainType::Ramp | TerrainType::TechRuins
        | TerrainType::Shallows => {
            return false;
        },
        _ => {},
    }
    let mut k: usize = 0;
    while k < spawns.len()
        invariant
            k <= spawns@.len(),
            forall|j: int|
                0 <= j < k ==> !(iabs(x - (#[trigger] spawns@[j]).0) <= 5 && iabs(y - spawns@[j].1) <= 5),
        decreases spawns@.len() - k,
    {
        let (sx, sy) = spawns[k];
        let ddx: i64 = x as i64 - sx as i64;
        let ddy: i64 = y as i64 - sy as i64;
        let adx: i64 = if ddx < 0 { -ddx } else { ddx };
        let ady: i64 = if ddy < 0 { -ddy } else { ddy };
        if adx <= 5 && ady <= 5 {
            assert(iabs(x - spawns@[k as int].0) <= 5 && iabs(y - spawns@[k as int].1) <= 5);
            return false;
        }
        k = k + 1;
    }
    true
}

// ---------------------------------------------------------------------------
// Spawns from symmetry
// ---------------------------------------------------------------------------

/// Spawn positions derived from the symmetry alone, six tiles in from the
/// edges, for the player counts and symmetries that have a fixed layout:
/// two players opposite each other (rotation, left-right or top-bottom
/// mirror) or four players in the corners. `None` for any other combination.
pub open spec fn symmetric_spawn_layout(num_players: u8, symmetry: MapSymmetry, w: int, h: int) -> Option<
    Seq<(int, int)>,
> {
    let m = 6int;
    let far_x = w - m - 1;
    let far_y = h - m - 1;
    if num_players == 2 && symmetry == MapSymmetry::Rotational180 {
        Some(seq![(m, m), (far_x, far_y)])
    } else if num_players == 2 && symmetry == MapSymmetry::MirrorHorizontal {
        Some(seq![(m, h / 2), (far_x, h / 2)])
    } else if num_players == 2 && symmetry == MapSymmetry::MirrorVertical {
        Some(seq![(w / 2, m), (w / 2, far_y)])
    } else if num_players == 4 {
        Some(seq![(m, m), (far_x, m), (far_x, far_y), (m, far_y)])
    } else {
        None
    }
}

/// The spawn positions that `symmetric_spawn_layout` describes, as integers.
pub fn symmetric_spawns(num_players: u8, symmetry: MapSymmetry, w: u32, h: u32) -> (r: Option<Vec<(i32, i32)>>)
    requires
        w <= i32::MAX,
        h <= i32::MAX,
    ensures
        match (r, symmetric_spawn_layout(num_players, symmetry, w as int, h as int)) {
            (Some(v), Some(s)) => v@.len() == s.len() && forall|i: int|
                0 <= i < s.len() ==> (#[trigger] v@[i]).0 == s[i].0 && v@[i].1 == s[i].1,
            (None, None) => true,
            _ => false,
        },
{
    let margin: i32 = 6;
    let wi = w as i32;
    let hi = h as i32;
    let far_x = wi - margin - 1;
    let far_y = hi - margin - 1;
    if num_players == 2 && symmetry == MapSymmetry::Rotational180 {
        Some(vec![(margin, margin), (far_x, far_y)])
    } else if num_players == 2 && symmetry == MapSymmetry::MirrorHorizontal {
        let cy = hi / 2;
        Some(vec![(margin, cy), (far_x, cy)])
    } else if num_players == 2 && symmetry == MapSymmetry::MirrorVertical {
        let cx = wi / 2;
        Some(vec![(cx, margin), (cx, far_y)])
    } else if num_players == 4 {
        Some(vec![(margin, margin), (far_x, margin), (far_x, far_y), (margin, far_y)])
    } else {
        None
    }
}

} // verus!

//! Where the buildings of a board stand, which items lack a factory,
//! and what can be built next.

use crate::cells::{aged_grid, Cell};
use crate::economy::{Factory, Item, ItemFilter, Market};
use crate::hex::{Coordinate, COORD_LIMIT};
use vstd::prelude::*;

verus! {

/// The hexes on which a building stands.
pub open spec fn buildings(cells: Map<Coordinate, Cell>) -> Set<Coordinate> {
    cells.dom().filter(|c: Coordinate| cells[c].is_building())
}

/// The number of buildings among the first `n` of a list of hexes.
pub open spec fn tally(cells: Map<Coordinate, Cell>, hexes: Seq<Coordinate>, n: int) -> int
    decreases n,
{
    if n <= 0 {
        0
    } else {
        tally(cells, hexes, n - 1) + if cells[hexes[n - 1]].is_building() {
            1int
        } else {
            0int
        }
    }
}

/// Counting the buildings along a list that holds every hex with a
/// cell once gives the number of buildings.
pub proof fn lemma_tally(cells: Map<Coordinate, Cell>, hexes: Seq<Coordinate>, n: int)
    requires
        hexes.no_duplicates(),
        hexes.to_set() == cells.dom(),
        0 <= n <= hexes.len(),
    ensures
        ({
            let seen = Set::new(
                |c: Coordinate| hexes.take(n).contains(c) && cells[c].is_building(),
            );
            seen.finite() && seen.len() == tally(cells, hexes, n)
        }),
        0 <= tally(cells, hexes, n) <= n,
        n == hexes.len() ==> buildings(cells).len() == tally(cells, hexes, n),
    decreases n,
{
    let seen = Set::new(|c: Coordinate| hexes.take(n).contains(c) && cells[c].is_building());
    if n == 0 {
        assert(seen =~= Set::<Coordinate>::empty());
    } else {
        lemma_tally(cells, hexes, n - 1);
        let earlier = Set::new(
            |c: Coordinate| hexes.take(n - 1).contains(c) && cells[c].is_building(),
        );
        let h = hexes[n - 1];
        assert(hexes.take(n) == hexes.take(n - 1).push(h));
        let short = hexes.take(n - 1);
        let long = hexes.take(n);
        assert(!short.contains(h)) by {
            if short.contains(h) {
                let j = choose|j: int| 0 <= j < short.len() && short[j] == h;
                assert(hexes[j] == hexes[n - 1]);
            }
        }
        assert forall|c: Coordinate| long.contains(c) <==> (short.contains(c) || c == h) by {
            if long.contains(c) {
                let j = choose|j: int| 0 <= j < long.len() && long[j] == c;
                if j < n - 1 {
                    assert(short[j] == c);
                }
            }
            if short.contains(c) {
                let j = choose|j: int| 0 <= j < short.len() && short[j] == c;
                assert(long[j] == c);
            }
            assert(long[n - 1] == h);
        }
        if cells[h].is_building() {
            assert(seen =~= earlier.insert(h));
        } else {
            assert(seen =~= earlier);
        }
    }
    if n == hexes.len() {
        assert(hexes.take(n) == hexes);
        assert forall|c: Coordinate| seen.contains(c) <==> buildings(cells).contains(c) by {
            assert(hexes.contains(c) <==> hexes.to_set().contains(c));
        }
        assert(seen =~= buildings(cells));
    }
}

/// A market's price clock does not change where the buildings stand.
pub proof fn lemma_aged_buildings(cells: Map<Coordinate, Cell>)
    ensures
        buildings(aged_grid(cells)) == buildings(cells),
{
    assert(aged_grid(cells).dom() =~= cells.dom());
    assert(buildings(aged_grid(cells)) =~= buildings(cells));
}

/// Whether a cell is a factory that makes `item`.
pub open spec fn makes(cell: Cell, item: Item) -> bool {
    cell matches Cell::Factory(f) && f.product == item
}

/// Whether a cell is a market that asks for `item` and nothing else.
pub open spec fn wants(cell: Cell, item: Item) -> bool {
    cell matches Cell::Market(m) && m.request == ItemFilter::Specific(item)
}

/// Whether some factory on the board makes `item`.
pub open spec fn produced(cells: Map<Coordinate, Cell>, item: Item) -> bool {
    exists|c: Coordinate| #[trigger] cells.contains_key(c) && makes(cells[c], item)
}

/// Whether some market on the board asks for `item` and nothing else.
pub open spec fn requested(cells: Map<Coordinate, Cell>, item: Item) -> bool {
    exists|c: Coordinate| #[trigger] cells.contains_key(c) && wants(cells[c], item)
}

/// Whether `item` lacks a factory: a market asks for it and no factory
/// makes it.
pub open spec fn lacking(cells: Map<Coordinate, Cell>, item: Item) -> bool {
    requested(cells, item) && !produced(cells, item)
}

/// What is to be built next.
#[derive(Debug, Clone, Copy, PartialEq, Eq)]
pub enum Blueprint {
    /// A factory for this item.
    Factory(Item),
    /// A market with this request.
    Market(ItemFilter),
}

/// What is built next, given the items that lack a factory and four
/// draws. Where items lack a factory, a factory for the one that `pick`
/// points at, counted round the list. Else a factory for `item` if
/// `factory` is drawn, else a market for any item if `any` is drawn,
/// else a market for `item`.
pub open spec fn planned(
    lacking: Seq<Item>,
    pick: int,
    factory: bool,
    any: bool,
    item: Item,
) -> Blueprint {
    if lacking.len() > 0 {
        Blueprint::Factory(lacking[pick % (lacking.len() as int)])
    } else if factory {
        Blueprint::Factory(item)
    } else if any {
        Blueprint::Market(ItemFilter::Any)
    } else {
        Blueprint::Market(ItemFilter::Specific(item))
    }
}

/// Whether `building` can be the next to be built on a board with the
/// given cells: a new factory for an item that lacks one, if there is
/// such an item; else any new factory or market.
pub open spec fn fits(cells: Map<Coordinate, Cell>, building: Cell, frames_elapsed: u64) -> bool {
    if exists|item: Item| lacking(cells, item) {
        building matches Cell::Factory(f) && lacking(cells, f.product) && Factory::fresh(
            f,
            f.product,
        )
    } else {
        match building {
            Cell::Factory(f) => Factory::fresh(f, f.product),
            Cell::Market(m) => Market::fresh(m, m.request, frames_elapsed),
            _ => false,
        }
    }
}

/// Whether a board's cells can be `after` once `building` was to be
/// put on the ring one step outside the radius: it stands on a hex of
/// the ring that was void, or nothing has changed because no hex of the
/// ring was void.
pub open spec fn settled_on_ring(
    before: Map<Coordinate, Cell>,
    after: Map<Coordinate, Cell>,
    building: Cell,
    radius: int,
) -> bool {
    ||| after == before && forall|c: Coordinate| #[trigger]
        c.reach() == radius + 1 ==> before.contains_key(c)
    ||| exists|c: Coordinate| #[trigger]
        c.reach() == radius + 1 && !before.contains_key(c) && after == before.insert(c, building)
}

/// Whether a board's cells can be `after` once a building was added
/// after `frames_elapsed` frames.
pub open spec fn spawned(
    before: Map<Coordinate, Cell>,
    after: Map<Coordinate, Cell>,
    radius: int,
    frames_elapsed: u64,
) -> bool {
    exists|building: Cell| #[trigger]
        fits(before, building, frames_elapsed) && settled_on_ring(before, after, building, radius)
}

/// The number of buildings a board starts with.
pub const FIRST_BUILDINGS: u64 = 6;

/// Buildings are only added on frames that are a multiple of this.
pub const SPAWN_PERIOD: u64 = 60;

/// After each span of this many frames, one more building for each
/// truck can stand on the board.
pub const GROWTH_PERIOD: u64 = 3600;

/// A ring has room as long as fewer than six hexes outside the radius
/// hold a cell: one of its six corners is then void.
pub proof fn lemma_ring_has_room(
    cells: Map<Coordinate, Cell>,
    radius: int,
    outside: Set<Coordinate>,
)
    requires
        0 <= radius < COORD_LIMIT,
        outside.finite(),
        outside.len() < 6,
        forall|c: Coordinate| #[trigger]
            cells.contains_key(c) ==> c.reach() <= radius || outside.contains(c),
    ensures
        exists|c: Coordinate| #[trigger] c.reach() == radius + 1 && !cells.contains_key(c),
{
    let r = (radius + 1) as i32;
    let c1 = Coordinate { x: r, y: 0 };
    let c2 = Coordinate { x: 0, y: r };
    let c3 = Coordinate { x: (-r) as i32, y: r };
    let c4 = Coordinate { x: (-r) as i32, y: 0 };
    let c5 = Coordinate { x: 0, y: (-r) as i32 };
    let c6 = Coordinate { x: r, y: (-r) as i32 };
    assert(c1.reach() == radius + 1 && c2.reach() == radius + 1 && c3.reach() == radius + 1);
    assert(c4.reach() == radius + 1 && c5.reach() == radius + 1 && c6.reach() == radius + 1);
    if cells.contains_key(c1) && cells.contains_key(c2) && cells.contains_key(c3)
        && cells.contains_key(c4) && cells.contains_key(c5) && cells.contains_key(c6) {
        let corners = set![c1, c2, c3, c4, c5, c6];
        assert(corners.len() == 6);
        assert(corners.subset_of(outside));
        vstd::set_lib::lemma_len_subset(corners, outside);
    }
}

/// Whether a building can be added: the frame is a multiple of
/// `SPAWN_PERIOD`, and there are fewer buildings than `FIRST_BUILDINGS`
/// plus, for each truck, one and one more for each `GROWTH_PERIOD` that
/// has elapsed.
pub open spec fn spawn_due(buildings: int, trucks: int, frames_elapsed: u64) -> bool {
    buildings < FIRST_BUILDINGS + (1 + frames_elapsed / GROWTH_PERIOD) * trucks && frames_elapsed
        % SPAWN_PERIOD == 0
}

} // verus!

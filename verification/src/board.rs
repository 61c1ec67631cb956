//! The board: the grid of cells, the trucks on it and the treads they
//! have left, and what one frame does to them.

use crate::cells::{aged_grid, Cell, CellMap, Instruction};
use crate::chance::{chance, pick_index};
use crate::economy::{Factory, Item, ItemFilter, Market, ITEM_KINDS};
use crate::fleet::{
    capped, crash_count, crashed, decayed, drive_all, fleet_in_reach, fleet_on_the_way,
    lemma_crash_count, lemma_drive_all_sums, lemma_wrecks_step, survivors, wrecks, Scene,
    TAX_CRASH, TREAD_PERIOD,
};
use crate::hex::Coordinate;
use crate::motion::{grid_sound, lemma_reach, steer, MAX_RADIUS};
use crate::spawn::{
    buildings, fits, lacking, lemma_aged_buildings, lemma_tally, makes, planned, produced,
    requested, settled_on_ring, spawn_due, spawned, tally, wants, Blueprint, FIRST_BUILDINGS,
    GROWTH_PERIOD, SPAWN_PERIOD,
};
use crate::trucks::{Treads, Truck};
use vstd::prelude::*;

verus! {

/// The board of a game.
pub struct Board {
    /// Maps coordinates to cells. A hex without a cell is void: a truck
    /// that drives into it is lost.
    cells: CellMap,
    /// All the trucks.
    trucks: Vec<Truck>,
    /// All the treads.
    treads: Vec<Treads>,
    /// Radius of the board proper, not counting the buildings on the
    /// outside.
    radius: usize,
}

/// What a frame makes of a board before a building may be added. The
/// trucks move, and lay treads on every third frame; the treads age;
/// the trucks that are then in a crash are taken off, each for
/// `TAX_CRASH` and leaving wreckage; the price clocks advance.
pub open spec fn settled(
    cells: Map<Coordinate, Cell>,
    trucks: Seq<Truck>,
    treads: Seq<Treads>,
    frames_elapsed: u64,
) -> Scene {
    let run = drive_all(cells, trucks, frames_elapsed % TREAD_PERIOD == 0);
    let n = run.trucks.len() as int;
    Scene {
        cells: aged_grid(wrecks(run.cells, run.trucks, n)),
        trucks: survivors(run.trucks, n),
        treads: decayed(treads + run.treads),
        money: run.money,
        tax: run.tax + TAX_CRASH * crash_count(run.trucks, n),
    }
}

/// Neither the money earned nor the tax incurred in a frame is
/// negative.
pub proof fn lemma_settled_sums(
    cells: Map<Coordinate, Cell>,
    trucks: Seq<Truck>,
    treads: Seq<Treads>,
    frames_elapsed: u64,
)
    ensures
        settled(cells, trucks, treads, frames_elapsed).money >= 0,
        settled(cells, trucks, treads, frames_elapsed).tax >= 0,
{
    let lay = frames_elapsed % TREAD_PERIOD == 0;
    lemma_drive_all_sums(cells, trucks, lay);
    let run = drive_all(cells, trucks, lay);
    lemma_crash_count(run.trucks, run.trucks.len() as int);
}

/// The grid of a new board: an empty cell on every hex within the
/// radius.
pub open spec fn blank_grid(radius: int) -> Map<Coordinate, Cell> {
    Map::new(|c: Coordinate| c.reach() <= radius, |c: Coordinate| Cell::Empty)
}

impl Board {
    /// The cells of the board, by hex.
    pub closed spec fn grid(&self) -> Map<Coordinate, Cell> {
        self.cells@
    }

    /// The trucks on the board, in the order in which they move.
    pub closed spec fn fleet(&self) -> Seq<Truck> {
        self.trucks@
    }

    /// The treads on the board, oldest first.
    pub closed spec fn trail(&self) -> Seq<Treads> {
        self.treads@
    }

    /// The radius of the board.
    pub closed spec fn size(&self) -> int {
        self.radius as int
    }

    /// What every board keeps: its radius is at most `MAX_RADIUS`, its
    /// grid is sound, and its trucks stand at most one step outside the
    /// radius.
    pub open spec fn wf(&self) -> bool {
        &&& 0 <= self.size() <= MAX_RADIUS
        &&& grid_sound(self.grid(), self.size())
        &&& fleet_in_reach(self.fleet(), self.size())
    }

    /// A board of the given radius with an empty cell on every hex, and
    /// neither trucks nor treads.
    pub fn new(radius: usize) -> (board: Board)
        requires
            radius <= MAX_RADIUS,
        ensures
            board.wf(),
            board.size() == radius,
            board.grid() == blank_grid(radius as int),
            board.fleet() == Seq::<Truck>::empty(),
            board.trail() == Seq::<Treads>::empty(),
    {
        let origin = Coordinate::new(0, 0);
        let hexes = origin.range(radius as i32);
        let mut cells = CellMap::new();
        let mut i: usize = 0;
        while i < hexes.len()
            invariant
                i <= hexes.len(),
                forall|c: Coordinate| #[trigger]
                    cells@.contains_key(c) <==> hexes@.take(i as int).contains(c),
                forall|c: Coordinate| #[trigger]
                    cells@.contains_key(c) ==> cells@[c] == Cell::Empty,
            decreases hexes.len() - i,
        {
            cells.insert(hexes[i], Cell::Empty);
            proof {
                let before = hexes@.take(i as int);
                let after = hexes@.take(i + 1);
                assert(after == before.push(hexes@[i as int]));
                assert forall|c: Coordinate| #[trigger]
                    cells@.contains_key(c) <==> after.contains(c) by {
                    if after.contains(c) {
                        let j = choose|j: int| 0 <= j < after.len() && after[j] == c;
                        if j < i {
                            assert(before[j] == c);
                        }
                    }
                    if before.contains(c) {
                        let j = choose|j: int| 0 <= j < before.len() && before[j] == c;
                        assert(after[j] == c);
                    }
                    assert(after[i as int] == hexes@[i as int]);
                }
            }
            i += 1;
        }
        proof {
            assert(hexes@.take(hexes@.len() as int) == hexes@);
            assert(cells@ =~= blank_grid(radius as int));
        }
        Board { cells, trucks: Vec::new(), treads: Vec::new(), radius }
    }

    /// The radius of the board.
    pub fn radius(&self) -> (r: usize)
        ensures
            r == self.size(),
    {
        self.radius
    }

    /// The cell at `coord`, if there is one.
    pub fn cell_at(&self, coord: Coordinate) -> (cell: Option<Cell>)
        ensures
            cell == if self.grid().contains_key(coord) {
                Some(self.grid()[coord])
            } else {
                None
            },
    {
        self.cells.get(coord)
    }

    /// The hexes that hold a cell, each once, in no particular order.
    pub fn coordinates(&self) -> (hexes: Vec<Coordinate>)
        ensures
            hexes@.no_duplicates(),
            hexes@.to_set() == self.grid().dom(),
    {
        self.cells.coordinates()
    }

    /// The trucks on the board, in the order in which they move.
    pub fn trucks(&self) -> (trucks: &Vec<Truck>)
        ensures
            trucks@ == self.fleet(),
    {
        &self.trucks
    }

    /// The treads on the board, oldest first.
    pub fn treads(&self) -> (treads: &Vec<Treads>)
        ensures
            treads@ == self.trail(),
    {
        &self.treads
    }

    /// Whether `coord` lies within the radius of the board.
    pub fn within_radius(&self, coord: Coordinate) -> (b: bool)
        requires
            self.wf(),
        ensures
            b == (coord.reach() <= self.size()),
    {
        if !coord.is_in_bounds() {
            false
        } else {
            coord.distance(Coordinate::new(0, 0)) <= self.radius as i32
        }
    }

    /// Whether `coord` lies on the ring one step outside the radius,
    /// where buildings stand.
    pub fn on_ring(&self, coord: Coordinate) -> (b: bool)
        requires
            self.wf(),
        ensures
            b == (coord.reach() == self.size() + 1),
    {
        if !coord.is_in_bounds() {
            false
        } else {
            coord.distance(Coordinate::new(0, 0)) == self.radius as i32 + 1
        }
    }

    /// Moves every truck by its speed and lets it meet what it finds.
    /// Returns the money earned and the tax incurred, each capped at the
    /// largest 32-bit number.
    fn drive_trucks(&mut self, lay: bool) -> (earned: (u32, u32))
        requires
            old(self).wf(),
        ensures
            final(self).wf(),
            final(self).size() == old(self).size(),
            ({
                let scene = drive_all(old(self).grid(), old(self).fleet(), lay);
                &&& final(self).grid() == scene.cells
                &&& final(self).fleet() == scene.trucks
                &&& final(self).trail() == old(self).trail() + scene.treads
                &&& earned.0 == capped(scene.money)
                &&& earned.1 == capped(scene.tax)
            }),
            fleet_on_the_way(final(self).fleet()),
    {
        let mut kept: Vec<Truck> = Vec::new();
        let mut money: u32 = 0;
        let mut tax: u32 = 0;
        let n = self.trucks.len();
        let mut i: usize = 0;
        proof {
            assert(old(self).fleet().take(0) == Seq::<Truck>::empty());
            assert(old(self).trail() + Seq::<Treads>::empty() == old(self).trail());
        }
        while i < n
            invariant
                i <= n,
                n == self.trucks.len(),
                self.trucks@ == old(self).fleet(),
                self.radius == old(self).radius,
                self.radius <= MAX_RADIUS,
                fleet_in_reach(self.trucks@, self.radius as int),
                grid_sound(self.cells@, self.radius as int),
                fleet_in_reach(kept@, self.radius as int),
                fleet_on_the_way(kept@),
                ({
                    let scene = drive_all(old(self).grid(), old(self).fleet().take(i as int), lay);
                    &&& self.cells@ == scene.cells
                    &&& kept@ == scene.trucks
                    &&& self.treads@ == old(self).trail() + scene.treads
                    &&& money == capped(scene.money)
                    &&& tax == capped(scene.tax)
                    &&& scene.money >= 0
                    &&& scene.tax >= 0
                }),
            decreases n - i,
        {
            let truck = self.trucks[i].advance();
            if lay {
                self.treads.push(Treads::lay(&truck));
            }
            let outcome = steer(&mut self.cells, truck, self.radius);
            if let Some(survivor) = outcome.truck {
                kept.push(survivor);
            }
            money = money.saturating_add(outcome.money);
            tax = tax.saturating_add(outcome.tax);
            proof {
                let prefix = old(self).fleet().take(i + 1);
                assert(prefix.drop_last() == old(self).fleet().take(i as int));
                assert(prefix.last() == old(self).fleet()[i as int]);
                let scene = drive_all(old(self).grid(), prefix, lay);
                assert(self.treads@ == old(self).trail() + scene.treads);
            }
            i += 1;
        }
        proof {
            assert(old(self).fleet().take(n as int) == old(self).fleet());
        }
        self.trucks = kept;
        (money, tax)
    }

    /// Lets every tread age by one frame and takes away those at the
    /// end of their life.
    fn decay_treads(&mut self)
        ensures
            final(self).trail() == decayed(old(self).trail()),
            final(self).grid() == old(self).grid(),
            final(self).fleet() == old(self).fleet(),
            final(self).size() == old(self).size(),
    {
        let mut kept: Vec<Treads> = Vec::new();
        let n = self.treads.len();
        let mut i: usize = 0;
        proof {
            assert(self.treads@.take(0) == Seq::<Treads>::empty());
        }
        while i < n
            invariant
                i <= n,
                n == self.treads.len(),
                self.treads@ == old(self).trail(),
                self.cells == old(self).cells,
                self.trucks == old(self).trucks,
                self.radius == old(self).radius,
                kept@ == decayed(self.treads@.take(i as int)),
            decreases n - i,
        {
            let tread = self.treads[i];
            if tread.lifetime != 0 {
                kept.push(
                    Treads { pos: tread.pos, facing: tread.facing, lifetime: tread.lifetime - 1 },
                );
            }
            proof {
                let prefix = self.treads@.take(i + 1);
                assert(prefix.drop_last() == self.treads@.take(i as int));
                assert(prefix.last() == tread);
            }
            i += 1;
        }
        proof {
            assert(self.treads@.take(n as int) == self.treads@);
        }
        self.treads = kept;
    }

    /// For each truck, whether it is in a crash.
    fn find_crashes(&self) -> (flags: Vec<bool>)
        ensures
            flags@.len() == self.fleet().len(),
            forall|i: int| 0 <= i < flags@.len() ==> flags@[i] == crashed(self.fleet(), i),
    {
        let n = self.trucks.len();
        let mut points: Vec<(i64, i64)> = Vec::new();
        let mut k: usize = 0;
        while k < n
            invariant
                k <= n,
                n == self.trucks.len(),
                points@.len() == k,
                forall|j: int|
                    0 <= j < k ==> {
                        &&& (#[trigger] points@[j]) == self.trucks@[j].xy()
                        &&& -0x20_0000_0000_0000 <= points@[j].0 <= 0x20_0000_0000_0000
                        &&& -0x20_0000_0000_0000 <= points@[j].1 <= 0x20_0000_0000_0000
                    },
            decreases n - k,
        {
            points.push(self.trucks[k].get_xy());
            k += 1;
        }
        let mut flags: Vec<bool> = Vec::new();
        let mut i: usize = 0;
        while i < n
            invariant
                i <= n,
                n == self.trucks.len(),
                points@.len() == n,
                forall|j: int|
                    0 <= j < n ==> {
                        &&& (#[trigger] points@[j]) == self.trucks@[j].xy()
                        &&& -0x20_0000_0000_0000 <= points@[j].0 <= 0x20_0000_0000_0000
                        &&& -0x20_0000_0000_0000 <= points@[j].1 <= 0x20_0000_0000_0000
                    },
                flags@.len() == i,
                forall|j: int| 0 <= j < i ==> flags@[j] == crashed(self.trucks@, j),
            decreases n - i,
        {
            let mut found = false;
            let mut j: usize = 0;
            while j < n
                invariant
                    j <= n,
                    i < n,
                    n == self.trucks.len(),
                    points@.len() == n,
                    forall|j: int|
                        0 <= j < n ==> {
                            &&& (#[trigger] points@[j]) == self.trucks@[j].xy()
                            &&& -0x20_0000_0000_0000 <= points@[j].0 <= 0x20_0000_0000_0000
                            &&& -0x20_0000_0000_0000 <= points@[j].1 <= 0x20_0000_0000_0000
                        },
                    found == exists|m: int|
                        0 <= m < j && m != i && #[trigger] self.trucks@[i as int].crashes_with(
                            self.trucks@[m],
                        ),
                decreases n - j,
            {
                if j != i && crate::trucks::too_close(points[i], points[j]) {
                    assert(self.trucks@[i as int].crashes_with(self.trucks@[j as int]));
                    found = true;
                }
                j += 1;
            }
            flags.push(found);
            i += 1;
        }
        flags
    }

    /// Takes the trucks that are in a crash off the board and turns the
    /// cells under their centres into wreckage. Returns the tax
    /// incurred: `TAX_CRASH` for each truck, capped at the largest
    /// 32-bit number.
    fn crash_trucks(&mut self) -> (tax: u32)
        requires
            old(self).wf(),
            fleet_on_the_way(old(self).fleet()),
        ensures
            final(self).wf(),
            fleet_on_the_way(final(self).fleet()),
            final(self).size() == old(self).size(),
            final(self).trail() == old(self).trail(),
            final(self).fleet() == survivors(old(self).fleet(), old(self).fleet().len() as int),
            final(self).grid() == wrecks(
                old(self).grid(),
                old(self).fleet(),
                old(self).fleet().len() as int,
            ),
            tax == capped(
                TAX_CRASH * crash_count(old(self).fleet(), old(self).fleet().len() as int),
            ),
    {
        let flags = self.find_crashes();
        let n = self.trucks.len();
        let mut kept: Vec<Truck> = Vec::new();
        let mut tax: u32 = 0;
        let mut i: usize = 0;
        proof {
            assert(self.cells@ =~= wrecks(old(self).grid(), old(self).fleet(), 0));
        }
        while i < n
            invariant
                i <= n,
                n == self.trucks.len(),
                self.trucks@ == old(self).fleet(),
                self.treads@ == old(self).trail(),
                self.radius == old(self).radius,
                self.radius <= MAX_RADIUS,
                flags@.len() == n,
                forall|j: int| 0 <= j < n ==> flags@[j] == crashed(self.trucks@, j),
                fleet_in_reach(self.trucks@, self.radius as int),
                fleet_on_the_way(self.trucks@),
                grid_sound(old(self).grid(), self.radius as int),
                grid_sound(self.cells@, self.radius as int),
                fleet_in_reach(kept@, self.radius as int),
                fleet_on_the_way(kept@),
                kept@ == survivors(self.trucks@, i as int),
                self.cells@ == wrecks(old(self).grid(), self.trucks@, i as int),
                tax == capped(TAX_CRASH * crash_count(self.trucks@, i as int)),
                crash_count(self.trucks@, i as int) >= 0,
            decreases n - i,
        {
            let truck = self.trucks[i];
            if flags[i] {
                tax = tax.saturating_add(TAX_CRASH);
                proof {
                    lemma_reach(truck.position, truck.facing, self.radius + 1);
                }
                let hex = truck.get_hex();
                if self.cells.contains_key(hex) {
                    self.cells.insert(hex, Cell::Wreckage);
                }
            } else {
                kept.push(truck);
            }
            proof {
                lemma_wrecks_step(old(self).grid(), self.trucks@, i as int);
            }
            i += 1;
        }
        self.trucks = kept;
        tax
    }

    /// Advances the price clock of every market by one step. Returns
    /// the number of buildings on the board.
    fn age_cells(&mut self) -> (count: usize)
        requires
            old(self).wf(),
        ensures
            final(self).wf(),
            final(self).size() == old(self).size(),
            final(self).trail() == old(self).trail(),
            final(self).fleet() == old(self).fleet(),
            final(self).grid() == aged_grid(old(self).grid()),
            count == buildings(old(self).grid()).len(),
            count == buildings(final(self).grid()).len(),
    {
        let hexes = self.cells.coordinates();
        let n = hexes.len();
        let mut count: usize = 0;
        let mut i: usize = 0;
        let ghost start = self.cells@;
        while i < n
            invariant
                i <= n,
                n == hexes.len(),
                hexes@.no_duplicates(),
                hexes@.to_set() == start.dom(),
                start == old(self).grid(),
                self.trucks == old(self).trucks,
                self.treads == old(self).treads,
                self.radius == old(self).radius,
                grid_sound(start, self.radius as int),
                forall|c: Coordinate| #[trigger]
                    self.cells@.contains_key(c) == start.contains_key(c),
                forall|c: Coordinate| #[trigger]
                    start.contains_key(c) ==> self.cells@[c] == if hexes@.take(i as int).contains(
                        c,
                    ) {
                        start[c].aged()
                    } else {
                        start[c]
                    },
                count == tally(start, hexes@, i as int),
                count <= i,
            decreases n - i,
        {
            let hex = hexes[i];
            proof {
                assert(hexes@.to_set().contains(hex));
                assert(start.contains_key(hex));
                let short = hexes@.take(i as int);
                if short.contains(hex) {
                    let j = choose|j: int| 0 <= j < short.len() && short[j] == hex;
                    assert(hexes@[j] == hexes@[i as int]);
                }
                lemma_tally(start, hexes@, i + 1);
            }
            match self.cells.get(hex) {
                Some(Cell::Market(market)) => {
                    let mut prices = market.prices;
                    prices.timestep();
                    self.cells.insert(
                        hex,
                        Cell::Market(
                            crate::economy::Market {
                                request: market.request,
                                demand: market.demand,
                                prices,
                            },
                        ),
                    );
                    count += 1;
                },
                Some(Cell::Factory(_)) => {
                    count += 1;
                },
                _ => {},
            }
            proof {
                let before = hexes@.take(i as int);
                let after = hexes@.take(i + 1);
                assert(after == before.push(hex));
                assert forall|c: Coordinate| #[trigger] start.contains_key(c) implies self.cells@[c]
                    == if after.contains(c) {
                    start[c].aged()
                } else {
                    start[c]
                } by {
                    assert(after[i as int] == hex);
                    if c != hex {
                        if after.contains(c) {
                            let j = choose|j: int| 0 <= j < after.len() && after[j] == c;
                            assert(before[j] == c);
                        }
                        if before.contains(c) {
                            let j = choose|j: int| 0 <= j < before.len() && before[j] == c;
                            assert(after[j] == c);
                        }
                    }
                }
            }
            i += 1;
        }
        proof {
            assert(hexes@.take(n as int) == hexes@);
            assert forall|c: Coordinate| #[trigger] start.contains_key(c) implies hexes@.contains(
                c,
            ) by {
                assert(hexes@.to_set().contains(c));
            }
            assert(self.cells@ =~= aged_grid(start));
            lemma_tally(start, hexes@, n as int);
            lemma_aged_buildings(start);
        }
        count
    }

    /// Whether some market among the cells on `hexes` asks for `item`
    /// and nothing else, and whether some factory among them makes it.
    fn item_status(&self, hexes: &Vec<Coordinate>, item: Item) -> (status: (bool, bool))
        requires
            hexes@.to_set() == self.grid().dom(),
        ensures
            status.0 == requested(self.grid(), item),
            status.1 == produced(self.grid(), item),
    {
        let mut asked = false;
        let mut made = false;
        let n = hexes.len();
        let mut i: usize = 0;
        while i < n
            invariant
                i <= n,
                n == hexes.len(),
                hexes@.to_set() == self.cells@.dom(),
                asked == exists|j: int|
                    0 <= j < i && wants(self.cells@[#[trigger] hexes@[j]], item),
                made == exists|j: int|
                    0 <= j < i && makes(self.cells@[#[trigger] hexes@[j]], item),
            decreases n - i,
        {
            let hex = hexes[i];
            assert(hexes@.to_set().contains(hex));
            match self.cells.get(hex) {
                Some(Cell::Factory(f)) => {
                    if f.product == item {
                        made = true;
                    }
                },
                Some(Cell::Market(m)) => {
                    match m.request {
                        ItemFilter::Specific(wanted) => {
                            if wanted == item {
                                asked = true;
                            }
                        },
                        ItemFilter::Any => {},
                    }
                },
                _ => {},
            }
            i += 1;
        }
        proof {
            if requested(self.cells@, item) {
                let c = choose|c: Coordinate| #[trigger]
                    self.cells@.contains_key(c) && wants(self.cells@[c], item);
                assert(hexes@.to_set().contains(c));
                let j = choose|j: int| 0 <= j < hexes@.len() && hexes@[j] == c;
                assert(wants(self.cells@[hexes@[j]], item));
            }
            if asked {
                let j = choose|j: int| 0 <= j < n && wants(self.cells@[#[trigger] hexes@[j]], item);
                assert(hexes@.to_set().contains(hexes@[j]));
                assert(self.cells@.contains_key(hexes@[j]));
            }
            if produced(self.cells@, item) {
                let c = choose|c: Coordinate| #[trigger]
                    self.cells@.contains_key(c) && makes(self.cells@[c], item);
                assert(hexes@.to_set().contains(c));
                let j = choose|j: int| 0 <= j < hexes@.len() && hexes@[j] == c;
                assert(makes(self.cells@[hexes@[j]], item));
            }
            if made {
                let j = choose|j: int| 0 <= j < n && makes(self.cells@[#[trigger] hexes@[j]], item);
                assert(hexes@.to_set().contains(hexes@[j]));
                assert(self.cells@.contains_key(hexes@[j]));
            }
        }
        (asked, made)
    }

    /// The items that lack a factory, in the order of their kinds.
    pub fn lacking_items(&self) -> (items: Vec<Item>)
        ensures
            forall|item: Item| #[trigger] items@.contains(item) <==> lacking(self.grid(), item),
            items@.no_duplicates(),
    {
        let hexes = self.cells.coordinates();
        let mut items: Vec<Item> = Vec::new();
        let mut k: usize = 0;
        while k < ITEM_KINDS
            invariant
                k <= ITEM_KINDS,
                hexes@.to_set() == self.cells@.dom(),
                forall|item: Item| #[trigger]
                    items@.contains(item) <==> (item.ordinal() < k && lacking(self.cells@, item)),
                forall|j: int| 0 <= j < items@.len() ==> (#[trigger] items@[j]).ordinal() < k,
                items@.no_duplicates(),
            decreases ITEM_KINDS - k,
        {
            let item = Item::at(k);
            let (asked, made) = self.item_status(&hexes, item);
            let ghost before = items@;
            if asked && !made {
                items.push(item);
                assert(items@[items@.len() - 1] == item);
            }
            proof {
                assert forall|other: Item| #[trigger]
                    items@.contains(other) <==> (other.ordinal() < k + 1 && lacking(
                        self.cells@,
                        other,
                    )) by {
                    if before.contains(other) {
                        let j = choose|j: int| 0 <= j < before.len() && before[j] == other;
                        assert(items@[j] == other);
                    }
                    if items@.contains(other) && other != item {
                        let j = choose|j: int| 0 <= j < items@.len() && items@[j] == other;
                        assert(before[j] == other);
                    }
                    if other.ordinal() == k {
                        assert(other == item);
                    }
                }
            }
            k += 1;
        }
        items
    }

    /// What is built next, given the items that lack a factory and
    /// four draws.
    pub fn plan(
        lacking: &Vec<Item>,
        pick: usize,
        factory: bool,
        any: bool,
        item: Item,
    ) -> (blueprint: Blueprint)
        ensures
            blueprint == planned(lacking@, pick as int, factory, any, item),
    {
        if lacking.len() > 0 {
            Blueprint::Factory(lacking[pick % lacking.len()])
        } else if factory {
            Blueprint::Factory(item)
        } else if any {
            Blueprint::Market(ItemFilter::Any)
        } else {
            Blueprint::Market(ItemFilter::Specific(item))
        }
    }

    /// A new building for the board as it is, with a random stock or
    /// demand; where no item lacks a factory, of a random kind.
    fn choose_building(&self, frames_elapsed: u64) -> (building: Cell)
        ensures
            fits(self.grid(), building, frames_elapsed),
            building.is_building(),
            building.sound(),
    {
        let wanting = self.lacking_items();
        let pick: usize = if wanting.len() > 0 {
            pick_index(wanting.len())
        } else {
            0
        };
        let factory = chance(3, 5);
        let any = chance(1, 5);
        let item = Item::sample();
        let blueprint = Board::plan(&wanting, pick, factory, any, item);
        proof {
            if wanting@.len() > 0 {
                vstd::arithmetic::div_mod::lemma_small_mod(pick as nat, wanting@.len());
                let chosen = wanting@[pick as int];
                assert(wanting@.contains(chosen));
                assert(lacking(self.grid(), chosen));
            } else {
                assert forall|other: Item| !lacking(self.grid(), other) by {
                    if lacking(self.grid(), other) {
                        assert(wanting@.contains(other));
                    }
                }
            }
        }
        match blueprint {
            Blueprint::Factory(product) => Cell::Factory(
                Factory::generate(product, frames_elapsed),
            ),
            Blueprint::Market(request) => Cell::Market(Market::generate(request, frames_elapsed)),
        }
    }

    /// Puts `building` on a random void hex of the ring one step
    /// outside the radius, if there is one.
    fn settle(&mut self, building: Cell)
        requires
            old(self).wf(),
            building.is_building(),
            building.sound(),
        ensures
            final(self).wf(),
            settled_on_ring(old(self).grid(), final(self).grid(), building, old(self).size()),
            final(self).fleet() == old(self).fleet(),
            final(self).trail() == old(self).trail(),
            final(self).size() == old(self).size(),
    {
        let origin = Coordinate::new(0, 0);
        let mut candidates = origin.ring(self.radius as i32 + 1);
        let mut placed = false;
        proof {
            assert forall|c: Coordinate| #[trigger]
                c.reach() == self.radius + 1 implies candidates@.contains(c) by {
                assert(origin.span(c) == c.reach());
            }
            assert forall|j: int| 0 <= j < candidates@.len() implies (
            #[trigger] candidates@[j]).reach() == self.radius + 1 by {
                assert(candidates@.contains(candidates@[j]));
                assert(origin.span(candidates@[j]) == candidates@[j].reach());
            }
        }
        while candidates.len() > 0 && !placed
            invariant
                self.fleet() == old(self).fleet(),
                self.trail() == old(self).trail(),
                self.radius == old(self).radius,
                self.wf(),
                forall|j: int|
                    0 <= j < candidates@.len() ==> (#[trigger] candidates@[j]).reach()
                        == self.radius + 1,
                building.is_building(),
                building.sound(),
                !placed ==> self.cells@ == old(self).grid(),
                !placed ==> forall|c: Coordinate| #[trigger]
                    c.reach() == self.radius + 1 ==> candidates@.contains(c)
                        || self.cells@.contains_key(c),
                placed ==> settled_on_ring(
                    old(self).grid(),
                    self.cells@,
                    building,
                    self.radius as int,
                ),
            decreases candidates.len() + if placed { 0int } else { 1int },
        {
            let ghost before = candidates@;
            let at = pick_index(candidates.len());
            let coord = candidates.remove(at);
            assert(coord == before[at as int]);
            if !self.cells.contains_key(coord) {
                let done = self.place_building(coord, building);
                assert(done);
                assert(coord.reach() == self.radius + 1 && !old(self).grid().contains_key(coord)
                    && self.cells@ == old(self).grid().insert(coord, building));
                placed = true;
            } else {
                assert forall|c: Coordinate| #[trigger]
                    c.reach() == self.radius + 1 implies candidates@.contains(c)
                    || self.cells@.contains_key(c) by {
                    if before.contains(c) && c != coord {
                        let j = choose|j: int| 0 <= j < before.len() && before[j] == c;
                        if j < at {
                            assert(candidates@[j] == c);
                        } else {
                            assert(candidates@[j - 1] == c);
                        }
                    }
                }
            }
        }
        proof {
            if !placed {
                assert forall|c: Coordinate| #[trigger]
                    c.reach() == self.radius + 1 implies self.cells@.contains_key(c) by {
                    assert(!candidates@.contains(c));
                }
            }
        }
    }

    /// Add a new market or factory, accounting for current buildings.
    pub fn add_building(&mut self, frames_elapsed: u64)
        requires
            old(self).wf(),
        ensures
            final(self).wf(),
            spawned(old(self).grid(), final(self).grid(), old(self).size(), frames_elapsed),
            final(self).fleet() == old(self).fleet(),
            final(self).trail() == old(self).trail(),
            final(self).size() == old(self).size(),
    {
        let building = self.choose_building(frames_elapsed);
        self.settle(building);
    }

    /// Whether a building can be added on this frame.
    fn spawn_is_due(buildings: usize, trucks: usize, frames_elapsed: u64) -> (due: bool)
        ensures
            due == spawn_due(buildings as int, trucks as int, frames_elapsed),
    {
        let rate: u128 = 1 + (frames_elapsed / GROWTH_PERIOD) as u128;
        let fleet: u128 = trucks as u128;
        assert(0 <= rate * fleet <= 0x20_0000_0000_0000 * 0x1_0000_0000_0000_0000)
            by (nonlinear_arith)
            requires
                0 <= rate <= 0x20_0000_0000_0000,
                0 <= fleet <= 0x1_0000_0000_0000_0000,
        ;
        frames_elapsed % SPAWN_PERIOD == 0 && (buildings as u128) < (FIRST_BUILDINGS as u128)
            + rate * fleet
    }

    /// Update the board and trucks for one frame.
    ///
    /// Returns the money earned and the tax incurred in this frame, each
    /// capped at the largest 32-bit number.
    pub fn update(&mut self, frames_elapsed: u64) -> (earned: (u32, u32))
        requires
            old(self).wf(),
        ensures
            final(self).wf(),
            final(self).size() == old(self).size(),
            fleet_on_the_way(final(self).fleet()),
            ({
                let scene = settled(
                    old(self).grid(),
                    old(self).fleet(),
                    old(self).trail(),
                    frames_elapsed,
                );
                &&& earned.0 == capped(scene.money)
                &&& earned.1 == capped(scene.tax)
                &&& final(self).fleet() == scene.trucks
                &&& final(self).trail() == scene.treads
                &&& final(self).grid() == scene.cells || (spawn_due(
                    buildings(scene.cells).len() as int,
                    scene.trucks.len() as int,
                    frames_elapsed,
                ) && spawned(scene.cells, final(self).grid(), old(self).size(), frames_elapsed))
            }),
    {
        let (money, toll) = self.drive_trucks(frames_elapsed % TREAD_PERIOD == 0);
        self.decay_treads();
        let fine = self.crash_trucks();
        let count = self.age_cells();
        if Board::spawn_is_due(count, self.trucks.len(), frames_elapsed) && chance(1, 5) {
            self.add_building(frames_elapsed);
        }
        proof {
            let run = drive_all(
                old(self).grid(),
                old(self).fleet(),
                frames_elapsed % TREAD_PERIOD == 0,
            );
            lemma_drive_all_sums(
                old(self).grid(),
                old(self).fleet(),
                frames_elapsed % TREAD_PERIOD == 0,
            );
            lemma_crash_count(run.trucks, run.trucks.len() as int);
        }
        (money, toll.saturating_add(fine))
    }

    /// Puts a truck from a card on `coord`, if that lies within the
    /// radius. The new truck moves after all others.
    pub fn place_truck(&mut self, coord: Coordinate, cargo: Option<Item>, rotation: i32) -> (placed:
        bool)
        requires
            old(self).wf(),
        ensures
            final(self).wf(),
            placed == (coord.reach() <= old(self).size()),
            final(self).fleet() == if placed {
                old(self).fleet().push(Truck::placed(coord, cargo, rotation))
            } else {
                old(self).fleet()
            },
            final(self).grid() == old(self).grid(),
            final(self).trail() == old(self).trail(),
            final(self).size() == old(self).size(),
    {
        if self.within_radius(coord) {
            self.trucks.push(Truck::from_rot(coord, cargo, rotation));
            true
        } else {
            false
        }
    }

    /// Lays an instruction on `coord`, if the cell there is empty or an
    /// instruction already.
    pub fn place_instruction(&mut self, coord: Coordinate, instruction: Instruction) -> (placed:
        bool)
        requires
            old(self).wf(),
        ensures
            final(self).wf(),
            placed == (old(self).grid().contains_key(coord) && (old(self).grid()[coord] is Empty
                || old(self).grid()[coord] is Instruction)),
            final(self).grid() == if placed {
                old(self).grid().insert(coord, Cell::Instruction(instruction))
            } else {
                old(self).grid()
            },
            final(self).fleet() == old(self).fleet(),
            final(self).trail() == old(self).trail(),
            final(self).size() == old(self).size(),
    {
        match self.cells.get(coord) {
            Some(Cell::Empty) => {
                self.cells.insert(coord, Cell::Instruction(instruction));
                true
            },
            Some(Cell::Instruction(_)) => {
                self.cells.insert(coord, Cell::Instruction(instruction));
                true
            },
            _ => false,
        }
    }

    /// Takes the instruction on `coord` off the board, if there is one,
    /// and leaves an empty cell.
    pub fn take_instruction(&mut self, coord: Coordinate) -> (taken: Option<Instruction>)
        requires
            old(self).wf(),
        ensures
            final(self).wf(),
            taken == if old(self).grid().contains_key(coord) {
                match old(self).grid()[coord] {
                    Cell::Instruction(instruction) => Some(instruction),
                    _ => None,
                }
            } else {
                None
            },
            final(self).grid() == if taken is Some {
                old(self).grid().insert(coord, Cell::Empty)
            } else {
                old(self).grid()
            },
            final(self).fleet() == old(self).fleet(),
            final(self).trail() == old(self).trail(),
            final(self).size() == old(self).size(),
    {
        match self.cells.get(coord) {
            Some(Cell::Instruction(instruction)) => {
                self.cells.insert(coord, Cell::Empty);
                Some(instruction)
            },
            _ => None,
        }
    }

    /// Clears the cell on `coord`, whatever it holds, if there is one.
    pub fn cleanup(&mut self, coord: Coordinate) -> (cleared: bool)
        requires
            old(self).wf(),
        ensures
            final(self).wf(),
            cleared == old(self).grid().contains_key(coord),
            final(self).grid() == if cleared {
                old(self).grid().insert(coord, Cell::Empty)
            } else {
                old(self).grid()
            },
            final(self).fleet() == old(self).fleet(),
            final(self).trail() == old(self).trail(),
            final(self).size() == old(self).size(),
    {
        if self.cells.contains_key(coord) {
            self.cells.insert(coord, Cell::Empty);
            true
        } else {
            false
        }
    }

    /// Puts a building on `coord`, if that is a void hex of the ring one
    /// step outside the radius and the building has something left.
    pub fn place_building(&mut self, coord: Coordinate, building: Cell) -> (placed: bool)
        requires
            old(self).wf(),
        ensures
            final(self).wf(),
            placed == (coord.reach() == old(self).size() + 1 && !old(self).grid().contains_key(
                coord,
            ) && building.is_building() && building.sound()),
            final(self).grid() == if placed {
                old(self).grid().insert(coord, building)
            } else {
                old(self).grid()
            },
            final(self).fleet() == old(self).fleet(),
            final(self).trail() == old(self).trail(),
            final(self).size() == old(self).size(),
    {
        let stocked = match building {
            Cell::Factory(f) => f.stock >= 1,
            Cell::Market(m) => m.demand >= 1,
            _ => false,
        };
        if stocked && self.on_ring(coord) && !self.cells.contains_key(coord) {
            self.cells.insert(coord, building);
            true
        } else {
            false
        }
    }
}

} // verus!

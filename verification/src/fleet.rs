//! What a frame does to the trucks of a board and to the treads they
//! have left: the trucks move one after the other, the treads fade, and
//! trucks that have come too close to each other crash.

use crate::cells::Cell;
use crate::hex::Coordinate;
use crate::motion::{advanced, driven};
use crate::trucks::{Treads, Truck, PROGRESS_FULL, PROGRESS_HALF};
use vstd::prelude::*;

verus! {

/// Tax increase from two trucks crashing into each other, for each of
/// them.
pub const TAX_CRASH: u32 = 10;

/// Trucks lay treads on frames that are a multiple of this.
pub const TREAD_PERIOD: u64 = 3;

/// Whether every truck of a fleet stands at most one step outside the
/// radius.
pub open spec fn fleet_in_reach(trucks: Seq<Truck>, radius: int) -> bool {
    forall|i: int| 0 <= i < trucks.len() ==> (#[trigger] trucks[i]).position.reach() <= radius + 1
}

/// Whether every truck of a fleet is short of the next hex, and none is
/// immune to the void from half way on.
pub open spec fn fleet_on_the_way(trucks: Seq<Truck>) -> bool {
    forall|i: int|
        0 <= i < trucks.len() ==> {
            &&& (#[trigger] trucks[i]).move_progress < PROGRESS_FULL
            &&& trucks[i].out_of_bounds_immunity ==> trucks[i].move_progress < PROGRESS_HALF
        }
}

/// `x`, or the largest 32-bit number if `x` is beyond it.
pub open spec fn capped(x: int) -> int {
    if x > u32::MAX {
        u32::MAX as int
    } else {
        x
    }
}

/// What a part of a frame has made of a board: the cells, the trucks
/// and the treads after it, and the money earned and the tax incurred
/// in it.
pub struct Scene {
    pub cells: Map<Coordinate, Cell>,
    pub trucks: Seq<Truck>,
    pub treads: Seq<Treads>,
    pub money: int,
    pub tax: int,
}

/// The trucks of a fleet move one after the other, each over the cells
/// as the trucks before it have left them. With `lay`, each truck lays
/// a tread once it has moved, also where it is then lost. The scene
/// holds the trucks that are still there, in their order, and the new
/// treads.
pub open spec fn drive_all(cells: Map<Coordinate, Cell>, trucks: Seq<Truck>, lay: bool) -> Scene
    decreases trucks.len(),
{
    if trucks.len() == 0 {
        Scene { cells, trucks: Seq::empty(), treads: Seq::empty(), money: 0, tax: 0 }
    } else {
        let before = drive_all(cells, trucks.drop_last(), lay);
        let (after, outcome) = driven(before.cells, trucks.last());
        Scene {
            cells: after,
            trucks: match outcome.truck {
                Some(truck) => before.trucks.push(truck),
                None => before.trucks,
            },
            treads: if lay {
                before.treads.push(Treads::laid_by(advanced(trucks.last())))
            } else {
                before.treads
            },
            money: before.money + outcome.money,
            tax: before.tax + outcome.tax,
        }
    }
}

/// The treads one frame later: those at the end of their life are gone,
/// the others have one frame less to live.
pub open spec fn decayed(treads: Seq<Treads>) -> Seq<Treads>
    decreases treads.len(),
{
    if treads.len() == 0 {
        Seq::empty()
    } else {
        let before = decayed(treads.drop_last());
        let tread = treads.last();
        if tread.lifetime == 0 {
            before
        } else {
            before.push(Treads { lifetime: (tread.lifetime - 1) as u64, ..tread })
        }
    }
}

/// Whether truck `i` of a fleet is in a crash: its centre is less than
/// the crash distance from the centre of another truck of the fleet.
pub open spec fn crashed(trucks: Seq<Truck>, i: int) -> bool {
    exists|j: int| 0 <= j < trucks.len() && j != i && #[trigger] trucks[i].crashes_with(trucks[j])
}

/// The number of trucks among the first `n` of a fleet that are in a
/// crash.
pub open spec fn crash_count(trucks: Seq<Truck>, n: int) -> int
    decreases n,
{
    if n <= 0 {
        0
    } else {
        crash_count(trucks, n - 1) + if crashed(trucks, n - 1) {
            1int
        } else {
            0int
        }
    }
}

/// The trucks among the first `n` of a fleet that are in no crash, in
/// their order.
pub open spec fn survivors(trucks: Seq<Truck>, n: int) -> Seq<Truck>
    decreases n,
{
    if n <= 0 {
        Seq::empty()
    } else if crashed(trucks, n - 1) {
        survivors(trucks, n - 1)
    } else {
        survivors(trucks, n - 1).push(trucks[n - 1])
    }
}

/// The cells after the crashes among the first `n` trucks of a fleet:
/// a cell over which the centre of a crashed truck is has become
/// wreckage. A void stays a void.
pub open spec fn wrecks(cells: Map<Coordinate, Cell>, trucks: Seq<Truck>, n: int) -> Map<
    Coordinate,
    Cell,
> {
    Map::new(
        |c: Coordinate| cells.contains_key(c),
        |c: Coordinate|
            if exists|k: int| 0 <= k < n && crashed(trucks, k) && #[trigger] trucks[k].hex() == c {
                Cell::Wreckage
            } else {
                cells[c]
            },
    )
}

/// Neither the money earned nor the tax incurred by a fleet is negative.
pub proof fn lemma_drive_all_sums(cells: Map<Coordinate, Cell>, trucks: Seq<Truck>, lay: bool)
    ensures
        drive_all(cells, trucks, lay).money >= 0,
        drive_all(cells, trucks, lay).tax >= 0,
    decreases trucks.len(),
{
    if trucks.len() > 0 {
        lemma_drive_all_sums(cells, trucks.drop_last(), lay);
    }
}

/// At most `n` of the first `n` trucks are in a crash.
pub proof fn lemma_crash_count(trucks: Seq<Truck>, n: int)
    ensures
        0 <= crash_count(trucks, n),
        n >= 0 ==> crash_count(trucks, n) <= n,
    decreases n,
{
    if n > 0 {
        lemma_crash_count(trucks, n - 1);
    }
}

/// The crash of one more truck turns the cell under its centre into
/// wreckage, if there is a cell.
pub proof fn lemma_wrecks_step(cells: Map<Coordinate, Cell>, trucks: Seq<Truck>, i: int)
    requires
        0 <= i < trucks.len(),
    ensures
        wrecks(cells, trucks, i + 1) == if crashed(trucks, i) && cells.contains_key(
            trucks[i].hex(),
        ) {
            wrecks(cells, trucks, i).insert(trucks[i].hex(), Cell::Wreckage)
        } else {
            wrecks(cells, trucks, i)
        },
{
    let before = wrecks(cells, trucks, i);
    let after = wrecks(cells, trucks, i + 1);
    let here = trucks[i].hex();
    let expected = if crashed(trucks, i) && cells.contains_key(here) {
        before.insert(here, Cell::Wreckage)
    } else {
        before
    };
    assert forall|c: Coordinate| #[trigger] after.contains_key(c) implies expected[c]
        == after[c] by {
        let hit_before = exists|k: int|
            0 <= k < i && crashed(trucks, k) && #[trigger] trucks[k].hex() == c;
        let hit_after = exists|k: int|
            0 <= k < i + 1 && crashed(trucks, k) && #[trigger] trucks[k].hex() == c;
        if hit_before {
            let k = choose|k: int|
                0 <= k < i && crashed(trucks, k) && #[trigger] trucks[k].hex() == c;
            assert(0 <= k < i + 1 && crashed(trucks, k) && trucks[k].hex() == c);
        }
        if crashed(trucks, i) && here == c {
            assert(0 <= i < i + 1 && crashed(trucks, i) && trucks[i].hex() == c);
        }
        if hit_after {
            let k = choose|k: int|
                0 <= k < i + 1 && crashed(trucks, k) && #[trigger] trucks[k].hex() == c;
            if k < i {
                assert(hit_before);
            }
        }
    }
    assert(after =~= expected);
}

} // verus!

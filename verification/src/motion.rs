//! What one tick does to one truck: it moves on, runs into something, or
//! arrives at the next hex and meets what is there.

use crate::cells::{Cell, CellMap, Instruction};
use crate::economy::{Factory, Market};
use crate::hex::{Angle, Coordinate, Direction, COORD_LIMIT};
use crate::trucks::{Truck, PROGRESS_FULL, PROGRESS_HALF};
use vstd::prelude::*;

verus! {

/// Tax increase from colliding with a wreckage or going off the board.
pub const TAX_COLLISION: u32 = 5;

/// Tax increase from picking up a good when full.
pub const TAX_OVERLOAD: u32 = 1;

/// Tax increase from bringing an empty truck to a market.
pub const TAX_SHORTSELL: u32 = 2;

/// Tax increase from bringing the wrong thing to market.
pub const TAX_BAD_SELL: u32 = 5;

/// The largest radius a board can have: the ring of buildings one step
/// outside it then still lies within `COORD_LIMIT` of the centre.
pub const MAX_RADIUS: usize = 268_435_454;

/// The rules that the cells of a board of the given radius keep: every
/// cell lies at most one step outside the radius; every hex within the
/// radius has a cell; buildings stand only on the ring one step outside,
/// and have something left.
pub open spec fn grid_sound(cells: Map<Coordinate, Cell>, radius: int) -> bool {
    &&& forall|c: Coordinate| #[trigger]
        cells.contains_key(c) ==> {
            &&& c.reach() <= radius + 1
            &&& cells[c].sound()
            &&& cells[c].is_building() ==> c.reach() == radius + 1
        }
    &&& forall|c: Coordinate| #[trigger] c.reach() <= radius ==> cells.contains_key(c)
}

/// Whether a truck can drive through `c`: there is a cell and it is no
/// wreckage, or there is none and the truck is immune to the void.
pub open spec fn passable(cells: Map<Coordinate, Cell>, c: Coordinate, immunity: bool) -> bool {
    if cells.contains_key(c) {
        !(cells[c] is Wreckage)
    } else {
        immunity
    }
}

/// Check if the given hex can be driven through.
pub fn is_passable(cells: &CellMap, coord: Coordinate, out_of_bounds_immunity: bool) -> (b: bool)
    ensures
        b == passable(cells@, coord, out_of_bounds_immunity),
{
    match cells.get(coord) {
        None => out_of_bounds_immunity,
        Some(Cell::Wreckage) => false,
        _ => true,
    }
}

/// What a tick has made of a truck: the truck if it is still there, the
/// money it has earned and the tax it has incurred.
#[derive(Debug, Clone, Copy, PartialEq, Eq)]
pub struct Outcome {
    pub truck: Option<Truck>,
    pub money: u32,
    pub tax: u32,
}

/// The outcome for a truck that drives on and has neither earned nor
/// incurred anything.
pub open spec fn keeps(truck: Truck) -> Outcome {
    Outcome { truck: Some(truck), money: 0, tax: 0 }
}

/// The outcome for a truck that is lost at the price of `tax`.
pub open spec fn loses(tax: u32) -> Outcome {
    Outcome { truck: None, money: 0, tax }
}

/// The truck after it has moved by its speed. From half way on it is no
/// longer immune to the void.
pub open spec fn advanced(truck: Truck) -> Truck {
    let progress = if truck.move_progress + truck.speed > u32::MAX {
        u32::MAX
    } else {
        (truck.move_progress + truck.speed) as u32
    };
    Truck {
        move_progress: progress,
        out_of_bounds_immunity: truck.out_of_bounds_immunity && progress < PROGRESS_HALF,
        ..truck
    }
}

/// The cells after a truck has crashed on its way from `source`: a
/// building there is gone, any other cell there is wreckage.
pub open spec fn littered(cells: Map<Coordinate, Cell>, source: Coordinate) -> Map<
    Coordinate,
    Cell,
> {
    if !cells.contains_key(source) {
        cells
    } else if cells[source].is_building() {
        cells.remove(source)
    } else {
        cells.insert(source, Cell::Wreckage)
    }
}

/// A truck loads at a factory: it takes one unit of the product, pays
/// for a load it was already holding, and turns back. The factory is
/// gone with its last unit, and the truck is then immune to the void.
pub open spec fn loaded(cells: Map<Coordinate, Cell>, truck: Truck, factory: Factory) -> (
    Map<Coordinate, Cell>,
    Outcome,
) {
    let emptied = factory.stock <= 1;
    let after = if emptied {
        cells.remove(truck.position)
    } else {
        cells.insert(
            truck.position,
            Cell::Factory(Factory { stock: (factory.stock - 1) as usize, ..factory }),
        )
    };
    let driver = Truck {
        cargo: Some(factory.product),
        facing: truck.facing.turned(Angle::Back),
        out_of_bounds_immunity: truck.out_of_bounds_immunity || emptied,
        ..truck
    };
    (
        after,
        Outcome {
            truck: Some(driver),
            money: 0,
            tax: if truck.cargo is Some {
                TAX_OVERLOAD
            } else {
                0
            },
        },
    )
}

/// A truck calls at a market and turns back. Empty, it pays; with a
/// load that the market does not accept, it pays and loses the load;
/// with one that it accepts, it sells the load at the current price. The
/// market is gone with its last sale, and the truck is then immune to
/// the void.
pub open spec fn sold(cells: Map<Coordinate, Cell>, truck: Truck, market: Market) -> (
    Map<Coordinate, Cell>,
    Outcome,
) {
    let facing = truck.facing.turned(Angle::Back);
    match truck.cargo {
        None => (
            cells,
            Outcome { truck: Some(Truck { facing, ..truck }), money: 0, tax: TAX_SHORTSELL },
        ),
        Some(item) => if market.request.accepts(item) {
            let emptied = market.demand <= 1;
            let after = if emptied {
                cells.remove(truck.position)
            } else {
                cells.insert(
                    truck.position,
                    Cell::Market(Market { demand: (market.demand - 1) as usize, ..market }),
                )
            };
            (
                after,
                Outcome {
                    truck: Some(
                        Truck {
                            cargo: None,
                            facing,
                            out_of_bounds_immunity: truck.out_of_bounds_immunity || emptied,
                            ..truck
                        },
                    ),
                    money: market.prices.price() as u32,
                    tax: 0,
                },
            )
        } else {
            (
                cells,
                Outcome {
                    truck: Some(Truck { cargo: None, facing, ..truck }),
                    money: 0,
                    tax: TAX_BAD_SELL,
                },
            )
        },
    }
}

/// A truck follows an instruction. It turns by an angle, or takes a
/// direction, or is shunted one hex aside; where it cannot drive through
/// that hex it is lost and leaves wreckage on the instruction.
pub open spec fn instructed(
    cells: Map<Coordinate, Cell>,
    truck: Truck,
    instruction: Instruction,
) -> (Map<Coordinate, Cell>, Outcome) {
    match instruction {
        Instruction::Rotate(angle) => (
            cells,
            keeps(Truck { facing: truck.facing.turned(angle), ..truck }),
        ),
        Instruction::Direct(direction) => (cells, keeps(Truck { facing: direction, ..truck })),
        Instruction::Shunt(direction) => {
            let aside = truck.position.moved(direction);
            if passable(cells, aside, truck.out_of_bounds_immunity) {
                (cells, keeps(Truck { position: aside, ..truck }))
            } else {
                (cells.insert(truck.position, Cell::Wreckage), loses(TAX_COLLISION))
            }
        },
    }
}

/// A truck that stands on the centre of a hex meets what is there.
pub open spec fn arrived(cells: Map<Coordinate, Cell>, truck: Truck) -> (
    Map<Coordinate, Cell>,
    Outcome,
) {
    if !cells.contains_key(truck.position) {
        (cells, keeps(truck))
    } else {
        match cells[truck.position] {
            Cell::Empty => (cells, keeps(truck)),
            Cell::Wreckage => (cells, loses(0)),
            Cell::Factory(factory) => loaded(cells, truck, factory),
            Cell::Market(market) => sold(cells, truck, market),
            Cell::Instruction(instruction) => instructed(cells, truck, instruction),
        }
    }
}

/// What becomes of a truck that has moved by its speed. If it cannot
/// drive through the hex its centre is over, it is lost and litters the
/// hex it came from. If it has come all the way, it stands on the next
/// hex and meets what is there. Otherwise it drives on.
pub open spec fn steered(cells: Map<Coordinate, Cell>, truck: Truck) -> (
    Map<Coordinate, Cell>,
    Outcome,
) {
    if !passable(cells, truck.hex(), truck.out_of_bounds_immunity) {
        (littered(cells, truck.position), loses(TAX_COLLISION))
    } else if truck.move_progress >= PROGRESS_FULL {
        arrived(cells, Truck { position: truck.target(), move_progress: 0, ..truck })
    } else {
        (cells, keeps(truck))
    }
}

/// What one tick makes of a truck and of the cells.
pub open spec fn driven(cells: Map<Coordinate, Cell>, truck: Truck) -> (
    Map<Coordinate, Cell>,
    Outcome,
) {
    steered(cells, advanced(truck))
}

/// A hex within `n` steps of the centre has components within `n` of
/// zero, and its neighbours are within `n + 1` steps.
pub proof fn lemma_reach(c: Coordinate, d: Direction, n: int)
    requires
        c.reach() <= n,
        n <= COORD_LIMIT,
    ensures
        -n <= c.x <= n,
        -n <= c.y <= n,
        c.in_bounds(),
        c.steps_fit(),
        c.moved(d).reach() <= n + 1,
        c.moved(d).x == c.x + d.dx(),
        c.moved(d).y == c.y + d.dy(),
{
}

/// A truck that is still there after a tick is short of the next hex.
pub proof fn lemma_progress_stays_short(cells: Map<Coordinate, Cell>, truck: Truck)
    ensures
        driven(cells, truck).1.truck matches Some(t) ==> t.move_progress < PROGRESS_FULL,
{
}

/// After a tick, the centre of a truck that is still there is over a
/// hex that holds a cell, unless the truck is immune to the void; and a
/// truck that is immune to the void is short of half way.
pub proof fn lemma_centre_over_cell(cells: Map<Coordinate, Cell>, truck: Truck)
    ensures
        driven(cells, truck).1.truck matches Some(t) ==> {
            &&& driven(cells, truck).0.contains_key(t.hex()) || t.out_of_bounds_immunity
            &&& t.out_of_bounds_immunity ==> t.move_progress < PROGRESS_HALF
        },
{
}

/// A truck is immune to the void after it has moved only if it was
/// before and is still short of half way.
pub proof fn lemma_immunity_ends_half_way(truck: Truck)
    ensures
        advanced(truck).out_of_bounds_immunity == (truck.out_of_bounds_immunity && advanced(
            truck,
        ).move_progress < PROGRESS_HALF),
{
}

/// A truck that arrives at a factory with something left takes one
/// unit of its product. The factory has then one unit less, or is gone
/// if that was its last; no other cell changes.
pub proof fn lemma_factory_stock(cells: Map<Coordinate, Cell>, truck: Truck, factory: Factory)
    requires
        cells.contains_key(truck.position),
        cells[truck.position] == Cell::Factory(factory),
        factory.stock >= 1,
    ensures
        ({
            let (after, outcome) = arrived(cells, truck);
            &&& outcome.truck matches Some(t) && t.cargo == Some(factory.product)
            &&& outcome.money == 0
            &&& factory.stock == 1 ==> !after.contains_key(truck.position)
            &&& factory.stock > 1 ==> after.contains_key(truck.position) && after[truck.position]
                == Cell::Factory(
                Factory { product: factory.product, stock: (factory.stock - 1) as usize },
            )
            &&& forall|c: Coordinate|
                c != truck.position ==> after.contains_key(c) == cells.contains_key(c) && (
                #[trigger] after[c]) == cells[c]
        }),
{
}

/// A truck that arrives at a market with something left to ask for
/// sells its load only if the market accepts it. The market then asks
/// for one unit less, or is gone if that was its last. A truck without
/// a load, or with one that the market does not accept, earns nothing
/// and leaves the market as it was. No other cell changes.
pub proof fn lemma_market_demand(cells: Map<Coordinate, Cell>, truck: Truck, market: Market)
    requires
        cells.contains_key(truck.position),
        cells[truck.position] == Cell::Market(market),
        market.demand >= 1,
    ensures
        ({
            let (after, outcome) = arrived(cells, truck);
            let sells = truck.cargo matches Some(item) && market.request.accepts(item);
            &&& outcome.truck matches Some(t) && t.cargo is None
            &&& sells ==> outcome.money == market.prices.price() && outcome.tax == 0
            &&& sells && market.demand == 1 ==> !after.contains_key(truck.position)
            &&& sells && market.demand > 1 ==> after.contains_key(truck.position)
                && after[truck.position] == Cell::Market(
                Market { demand: (market.demand - 1) as usize, ..market },
            )
            &&& !sells ==> after == cells && outcome.money == 0 && outcome.tax > 0
            &&& forall|c: Coordinate|
                c != truck.position ==> after.contains_key(c) == cells.contains_key(c) && (
                #[trigger] after[c]) == cells[c]
        }),
{
    crate::economy::lemma_price_at_least_one(market.prices);
}

/// A tick of a truck leaves a sound grid sound: no building is left
/// that has nothing left, no hex within the radius becomes void, and
/// nothing appears outside the ring.
pub proof fn lemma_grid_stays_sound(cells: Map<Coordinate, Cell>, truck: Truck, radius: int)
    requires
        grid_sound(cells, radius),
    ensures
        grid_sound(driven(cells, truck).0, radius),
{
}

impl Truck {
    /// Moves the truck by its speed.
    pub fn advance(&self) -> (truck: Truck)
        ensures
            truck == advanced(*self),
    {
        let progress = self.move_progress.saturating_add(self.speed);
        Truck {
            cargo: self.cargo,
            speed: self.speed,
            facing: self.facing,
            position: self.position,
            move_progress: progress,
            out_of_bounds_immunity: self.out_of_bounds_immunity && progress < PROGRESS_HALF,
        }
    }
}

/// Lets a truck that has moved by its speed run into something, arrive
/// or drive on, and changes the cells accordingly.
pub fn steer(cells: &mut CellMap, truck: Truck, radius: usize) -> (outcome: Outcome)
    requires
        radius <= MAX_RADIUS,
        grid_sound(old(cells)@, radius as int),
        truck.position.reach() <= radius + 1,
        truck.out_of_bounds_immunity ==> truck.move_progress < PROGRESS_HALF,
    ensures
        (final(cells)@, outcome) == steered(old(cells)@, truck),
        grid_sound(final(cells)@, radius as int),
        outcome.truck matches Some(t) ==> {
            &&& t.position.reach() <= radius + 1
            &&& t.move_progress < PROGRESS_FULL
            &&& final(cells)@.contains_key(t.hex()) || t.out_of_bounds_immunity
            &&& t.out_of_bounds_immunity ==> t.move_progress < PROGRESS_HALF
        },
{
    proof {
        lemma_reach(truck.position, truck.facing, radius + 1);
    }
    let target = truck.position.neighbor(truck.facing);
    let realpos = if truck.move_progress >= PROGRESS_HALF {
        target
    } else {
        truck.position
    };
    if !is_passable(cells, realpos, truck.out_of_bounds_immunity) {
        match cells.get(truck.position) {
            Some(Cell::Factory(_)) => {
                cells.remove(truck.position);
            },
            Some(Cell::Market(_)) => {
                cells.remove(truck.position);
            },
            Some(_) => {
                cells.insert(truck.position, Cell::Wreckage);
            },
            None => {},
        }
        return Outcome { truck: None, money: 0, tax: TAX_COLLISION };
    }
    if truck.move_progress < PROGRESS_FULL {
        return Outcome { truck: Some(truck), money: 0, tax: 0 };
    }
    let here = Truck {
        cargo: truck.cargo,
        speed: truck.speed,
        facing: truck.facing,
        position: target,
        move_progress: 0,
        out_of_bounds_immunity: truck.out_of_bounds_immunity,
    };
    arrive(cells, here, radius)
}

/// Lets a truck that stands on the centre of a hex meet what is there.
fn arrive(cells: &mut CellMap, truck: Truck, radius: usize) -> (outcome: Outcome)
    requires
        radius <= MAX_RADIUS,
        grid_sound(old(cells)@, radius as int),
        old(cells)@.contains_key(truck.position),
        !(old(cells)@[truck.position] is Wreckage),
        truck.move_progress == 0,
        !truck.out_of_bounds_immunity,
    ensures
        (final(cells)@, outcome) == arrived(old(cells)@, truck),
        grid_sound(final(cells)@, radius as int),
        outcome.truck matches Some(t) ==> {
            &&& t.position.reach() <= radius + 1
            &&& t.move_progress == 0
            &&& final(cells)@.contains_key(t.hex()) || t.out_of_bounds_immunity
        },
{
    let back = truck.facing.turn(Angle::Back);
    match cells.get(truck.position) {
        Some(Cell::Factory(factory)) => {
            let tax: u32 = if truck.cargo.is_some() {
                TAX_OVERLOAD
            } else {
                0
            };
            let left: usize = factory.stock - 1;
            if left == 0 {
                cells.remove(truck.position);
            } else {
                cells.insert(
                    truck.position,
                    Cell::Factory(Factory { product: factory.product, stock: left }),
                );
            }
            Outcome {
                truck: Some(
                    Truck {
                        cargo: Some(factory.product),
                        speed: truck.speed,
                        facing: back,
                        position: truck.position,
                        move_progress: truck.move_progress,
                        out_of_bounds_immunity: truck.out_of_bounds_immunity || left == 0,
                    },
                ),
                money: 0,
                tax,
            }
        },
        Some(Cell::Market(market)) => {
            match truck.cargo {
                None => Outcome {
                    truck: Some(
                        Truck {
                            cargo: truck.cargo,
                            speed: truck.speed,
                            facing: back,
                            position: truck.position,
                            move_progress: truck.move_progress,
                            out_of_bounds_immunity: truck.out_of_bounds_immunity,
                        },
                    ),
                    money: 0,
                    tax: TAX_SHORTSELL,
                },
                Some(item) => {
                    if market.request.matches(&item) {
                        let money = market.prices.sample();
                        let left: usize = market.demand - 1;
                        if left == 0 {
                            cells.remove(truck.position);
                        } else {
                            cells.insert(
                                truck.position,
                                Cell::Market(
                                    Market {
                                        request: market.request,
                                        demand: left,
                                        prices: market.prices,
                                    },
                                ),
                            );
                        }
                        Outcome {
                            truck: Some(
                                Truck {
                                    cargo: None,
                                    speed: truck.speed,
                                    facing: back,
                                    position: truck.position,
                                    move_progress: truck.move_progress,
                                    out_of_bounds_immunity: truck.out_of_bounds_immunity || left
                                        == 0,
                                },
                            ),
                            money,
                            tax: 0,
                        }
                    } else {
                        Outcome {
                            truck: Some(
                                Truck {
                                    cargo: None,
                                    speed: truck.speed,
                                    facing: back,
                                    position: truck.position,
                                    move_progress: truck.move_progress,
                                    out_of_bounds_immunity: truck.out_of_bounds_immunity,
                                },
                            ),
                            money: 0,
                            tax: TAX_BAD_SELL,
                        }
                    }
                },
            }
        },
        Some(Cell::Instruction(instruction)) => {
            match instruction {
                Instruction::Rotate(angle) => Outcome {
                    truck: Some(
                        Truck {
                            cargo: truck.cargo,
                            speed: truck.speed,
                            facing: truck.facing.turn(angle),
                            position: truck.position,
                            move_progress: truck.move_progress,
                            out_of_bounds_immunity: truck.out_of_bounds_immunity,
                        },
                    ),
                    money: 0,
                    tax: 0,
                },
                Instruction::Direct(direction) => Outcome {
                    truck: Some(
                        Truck {
                            cargo: truck.cargo,
                            speed: truck.speed,
                            facing: direction,
                            position: truck.position,
                            move_progress: truck.move_progress,
                            out_of_bounds_immunity: truck.out_of_bounds_immunity,
                        },
                    ),
                    money: 0,
                    tax: 0,
                },
                Instruction::Shunt(direction) => {
                    proof {
                        lemma_reach(truck.position, direction, radius + 1);
                    }
                    let aside = truck.position.neighbor(direction);
                    if is_passable(cells, aside, truck.out_of_bounds_immunity) {
                        Outcome {
                            truck: Some(
                                Truck {
                                    cargo: truck.cargo,
                                    speed: truck.speed,
                                    facing: truck.facing,
                                    position: aside,
                                    move_progress: truck.move_progress,
                                    out_of_bounds_immunity: truck.out_of_bounds_immunity,
                                },
                            ),
                            money: 0,
                            tax: 0,
                        }
                    } else {
                        cells.insert(truck.position, Cell::Wreckage);
                        Outcome { truck: None, money: 0, tax: TAX_COLLISION }
                    }
                },
            }
        },
        Some(Cell::Empty) => Outcome { truck: Some(truck), money: 0, tax: 0 },
        Some(Cell::Wreckage) => Outcome { truck: None, money: 0, tax: 0 },
        None => Outcome { truck: Some(truck), money: 0, tax: 0 },
    }
}

} // verus!

//! What a hex of the board can hold, and the board's grid of cells.

use crate::economy::{Factory, Market};
use crate::hex::{Angle, Coordinate, Direction};
use std::collections::HashMap;
use vstd::std_specs::hash::{axiom_spec_keys_iter, spec_keys_iter};
use vstd::std_specs::iter::IteratorSpec;
use vstd::prelude::*;

verus! {

/// Special instructions you can place on the board.
#[derive(Debug, Clone, Copy, PartialEq, Eq)]
pub enum Instruction {
    /// Rotate the truck relative to its current direction.
    Rotate(Angle),
    /// Direct the truck to the given direction.
    Direct(Direction),
    /// Move the truck in the direction by one hex.
    Shunt(Direction),
}

/// A cell is a spot on the board that trucks can drive on.
#[derive(Debug, Clone, Copy, PartialEq, Eq)]
pub enum Cell {
    Empty,
    /// The remains of a crash: nothing can drive here.
    Wreckage,
    Instruction(Instruction),
    Factory(Factory),
    Market(Market),
}

impl Cell {
    /// Whether the cell is a factory or a market.
    pub open spec fn is_building(self) -> bool {
        self is Factory || self is Market
    }

    /// Whether a building has something left: a factory stock, a market
    /// demand. Other cells are always sound.
    pub open spec fn sound(self) -> bool {
        match self {
            Cell::Factory(f) => f.stock >= 1,
            Cell::Market(m) => m.demand >= 1,
            _ => true,
        }
    }

    /// The cell one frame later: the price clock of a market has
    /// advanced, any other cell is unchanged.
    pub open spec fn aged(self) -> Cell {
        match self {
            Cell::Market(m) => Cell::Market(Market { prices: m.prices.stepped(), ..m }),
            _ => self,
        }
    }

    /// Whether the cell is a factory or a market.
    pub fn building(&self) -> (b: bool)
        ensures
            b == self.is_building(),
    {
        match self {
            Cell::Factory(_) => true,
            Cell::Market(_) => true,
            _ => false,
        }
    }
}

/// The cells one frame later: every market's price clock has advanced
/// by one step.
pub open spec fn aged_grid(cells: Map<Coordinate, Cell>) -> Map<Coordinate, Cell> {
    Map::new(|c: Coordinate| cells.contains_key(c), |c: Coordinate| cells[c].aged())
}

/// The distance between the codes of two hexes whose `x` differs by one.
pub const CODE_SPAN: u64 = 0x1_0000_0000;

/// What is added to a component to make it non-negative.
pub const CODE_SHIFT: i64 = 0x8000_0000;

/// The code under which a hex is filed: both components shifted to be
/// non-negative, the first in the upper half of the code, the second in
/// the lower.
pub open spec fn code(c: Coordinate) -> u64 {
    ((c.x + CODE_SHIFT) * CODE_SPAN + (c.y + CODE_SHIFT)) as u64
}

/// The hex that is filed under a code.
pub open spec fn decode(k: u64) -> Coordinate {
    Coordinate {
        x: (k as int / CODE_SPAN as int - CODE_SHIFT) as i32,
        y: (k as int % CODE_SPAN as int - CODE_SHIFT) as i32,
    }
}

/// Every hex is found again under its code, and every code under its hex.
pub proof fn lemma_code_round_trip()
    ensures
        forall|c: Coordinate| #[trigger] decode(code(c)) == c,
        forall|k: u64| #[trigger] code(decode(k)) == k,
{
    assert forall|c: Coordinate| #[trigger] decode(code(c)) == c by {
        let a = c.x + CODE_SHIFT;
        let b = c.y + CODE_SHIFT;
        assert(0 <= a < CODE_SPAN && 0 <= b < CODE_SPAN);
        let k = a * CODE_SPAN + b;
        assert(k / (CODE_SPAN as int) == a && k % (CODE_SPAN as int) == b) by (nonlinear_arith)
            requires
                k == a * CODE_SPAN + b,
                0 <= b < CODE_SPAN,
                CODE_SPAN > 0,
        ;
        assert(0 <= k <= u64::MAX) by (nonlinear_arith)
            requires
                k == a * CODE_SPAN + b,
                0 <= a < CODE_SPAN,
                0 <= b < CODE_SPAN,
                CODE_SPAN == 0x1_0000_0000,
        ;
    }
    assert forall|k: u64| #[trigger] code(decode(k)) == k by {
        let a = k as int / CODE_SPAN as int;
        let b = k as int % CODE_SPAN as int;
        assert(0 <= a < CODE_SPAN && 0 <= b < CODE_SPAN && k == a * CODE_SPAN + b)
            by (nonlinear_arith)
            requires
                a == k as int / CODE_SPAN as int,
                b == k as int % CODE_SPAN as int,
                0 <= k <= u64::MAX,
                CODE_SPAN == 0x1_0000_0000,
        ;
    }
}

/// The code under which a hex is filed.
fn encode(c: Coordinate) -> (k: u64)
    ensures
        k == code(c),
{
    let a: u64 = (c.x as i64 + CODE_SHIFT) as u64;
    let b: u64 = (c.y as i64 + CODE_SHIFT) as u64;
    assert(a * CODE_SPAN + b <= u64::MAX) by (nonlinear_arith)
        requires
            0 <= a < CODE_SPAN,
            0 <= b < CODE_SPAN,
            CODE_SPAN == 0x1_0000_0000,
    ;
    a * CODE_SPAN + b
}

/// The hex that is filed under a code.
fn unfile(k: u64) -> (c: Coordinate)
    ensures
        c == decode(k),
{
    let a: i64 = (k / CODE_SPAN) as i64 - CODE_SHIFT;
    let b: i64 = (k % CODE_SPAN) as i64 - CODE_SHIFT;
    Coordinate { x: a as i32, y: b as i32 }
}

/// The cells of a board, by hex. A hex without a cell is void.
pub struct CellMap {
    map: HashMap<u64, Cell>,
}

impl View for CellMap {
    type V = Map<Coordinate, Cell>;

    closed spec fn view(&self) -> Map<Coordinate, Cell> {
        Map::new(
            |c: Coordinate| self.map@.contains_key(code(c)),
            |c: Coordinate| self.map@[code(c)],
        )
    }
}

impl CellMap {
    /// Only finitely many hexes hold a cell.
    pub proof fn lemma_finite(&self)
        ensures
            self@.dom().finite(),
    {
        lemma_code_round_trip();
        let image = self.map@.dom().map(|k: u64| decode(k));
        self.map@.dom().lemma_map_finite(|k: u64| decode(k));
        assert forall|c: Coordinate| self@.dom().contains(c) implies image.contains(c) by {
            assert(self.map@.dom().contains(code(c)));
            assert(decode(code(c)) == c);
        }
        assert(self@.dom() =~= image);
    }

    /// A grid without cells.
    pub fn new() -> (cells: CellMap)
        ensures
            cells@ == Map::<Coordinate, Cell>::empty(),
    {
        let cells = CellMap { map: HashMap::new() };
        assert(cells@ =~= Map::<Coordinate, Cell>::empty());
        cells
    }

    /// The cell at `c`, if there is one.
    pub fn get(&self, c: Coordinate) -> (cell: Option<Cell>)
        ensures
            cell == if self@.contains_key(c) {
                Some(self@[c])
            } else {
                None
            },
    {
        let k = encode(c);
        match self.map.get(&k) {
            Some(cell) => Some(*cell),
            None => None,
        }
    }

    /// Whether there is a cell at `c`.
    pub fn contains_key(&self, c: Coordinate) -> (b: bool)
        ensures
            b == self@.contains_key(c),
    {
        let k = encode(c);
        self.map.contains_key(&k)
    }

    /// Puts `cell` at `c`, in place of what was there.
    pub fn insert(&mut self, c: Coordinate, cell: Cell)
        ensures
            final(self)@ == old(self)@.insert(c, cell),
    {
        let k = encode(c);
        self.map.insert(k, cell);
        proof {
            lemma_code_round_trip();
            assert(self@ =~= old(self)@.insert(c, cell)) by {
                assert forall|d: Coordinate| d != c implies code(d) != code(c) by {
                    assert(decode(code(d)) == d);
                    assert(decode(code(c)) == c);
                }
            }
        }
    }

    /// Takes away the cell at `c`, if there is one, and leaves a void.
    pub fn remove(&mut self, c: Coordinate)
        ensures
            final(self)@ == old(self)@.remove(c),
    {
        let k = encode(c);
        self.map.remove(&k);
        proof {
            lemma_code_round_trip();
            assert(self@ =~= old(self)@.remove(c)) by {
                assert forall|d: Coordinate| d != c implies code(d) != code(c) by {
                    assert(decode(code(d)) == d);
                    assert(decode(code(c)) == c);
                }
            }
        }
    }

    /// The hexes that hold a cell, each once, in no particular order.
    pub fn coordinates(&self) -> (hexes: Vec<Coordinate>)
        ensures
            hexes@.no_duplicates(),
            hexes@.to_set() == self@.dom(),
    {
        let mut hexes: Vec<Coordinate> = Vec::new();
        let ghost filed = spec_keys_iter(&self.map).remaining();
        let ghost codes = filed.unref();
        proof {
            axiom_spec_keys_iter(&self.map);
        }
        for k in it: self.map.keys()
            invariant
                hexes@.len() == it.index(),
                it.seq() == filed,
                forall|j: int| 0 <= j < hexes@.len() ==> hexes@[j] == decode(*filed[j]),
        {
            hexes.push(unfile(*k));
        }
        proof {
            lemma_code_round_trip();
            assert(codes.len() == filed.len());
            assert(forall|j: int| 0 <= j < codes.len() ==> codes[j] == *filed[j]);
            assert(codes.no_duplicates()) by {
                assert forall|i: int, j: int|
                    0 <= i < codes.len() && 0 <= j < codes.len() && i != j implies codes[i]
                    != codes[j] by {
                    assert(filed[i] != filed[j]);
                }
            }
            assert forall|i: int, j: int|
                0 <= i < hexes@.len() && 0 <= j < hexes@.len() && i != j implies hexes@[i]
                != hexes@[j] by {
                assert(code(decode(codes[i])) == codes[i]);
                assert(code(decode(codes[j])) == codes[j]);
            }
            assert forall|c: Coordinate| hexes@.to_set().contains(c) == self@.dom().contains(
                c,
            ) by {
                if hexes@.to_set().contains(c) {
                    let j = choose|j: int| 0 <= j < hexes@.len() && hexes@[j] == c;
                    assert(codes.to_set().contains(codes[j]));
                    assert(code(decode(codes[j])) == codes[j]);
                }
                if self@.dom().contains(c) {
                    assert(codes.to_set().contains(code(c)));
                    let j = choose|j: int| 0 <= j < codes.len() && codes[j] == code(c);
                    assert(hexes@[j] == decode(code(c)));
                    assert(decode(code(c)) == c);
                }
            }
            assert(hexes@.to_set() =~= self@.dom());
        }
        hexes
    }
}

} // verus!

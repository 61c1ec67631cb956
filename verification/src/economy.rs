//! Goods, the factories that make them, the markets that buy them, and
//! the price curve of a market.

use crate::chance::{chance, pick_between, pick_index};
use crate::fixed::{
    cosine, isqrt, lemma_root_monotonic, lemma_sine_bounds, root, sine, wave, wave_ahead, FULL_TURN,
    QUARTER_TURN, UNIT,
};
use vstd::prelude::*;

verus! {

/// Items that can be bought and sold.
#[derive(Debug, Clone, Copy, PartialEq, Eq, Hash, Structural)]
pub enum Item {
    RedApple,
    Orange,
    YellowLemon,
    GreenLettuce,
    PurpleGrape,
    BrownTater,
}

/// The number of kinds of item.
pub const ITEM_KINDS: usize = 6;

impl Item {
    /// The place of this item in the list of kinds, from 0 to 5.
    pub open spec fn ordinal(self) -> int {
        match self {
            Item::RedApple => 0,
            Item::Orange => 1,
            Item::YellowLemon => 2,
            Item::GreenLettuce => 3,
            Item::PurpleGrape => 4,
            Item::BrownTater => 5,
        }
    }

    /// The item at place `i` of the list of kinds.
    pub open spec fn kind(i: int) -> Item {
        if i == 0 {
            Item::RedApple
        } else if i == 1 {
            Item::Orange
        } else if i == 2 {
            Item::YellowLemon
        } else if i == 3 {
            Item::GreenLettuce
        } else if i == 4 {
            Item::PurpleGrape
        } else {
            Item::BrownTater
        }
    }

    /// The name under which this item is shown.
    pub open spec fn label(self) -> Seq<char> {
        match self {
            Item::RedApple => "Apple"@,
            Item::Orange => "Orange"@,
            Item::YellowLemon => "Lemon"@,
            Item::GreenLettuce => "Lettuce"@,
            Item::PurpleGrape => "Grape"@,
            Item::BrownTater => "Potato"@,
        }
    }

    /// The name under which this item is shown.
    pub fn name(&self) -> (s: &'static str)
        ensures
            s@ == self.label(),
    {
        match self {
            Item::RedApple => "Apple",
            Item::Orange => "Orange",
            Item::YellowLemon => "Lemon",
            Item::GreenLettuce => "Lettuce",
            Item::PurpleGrape => "Grape",
            Item::BrownTater => "Potato",
        }
    }

    /// The place of this item in the list of kinds.
    pub fn index(&self) -> (i: usize)
        ensures
            i == self.ordinal(),
            i < ITEM_KINDS,
            Item::kind(i as int) == *self,
    {
        match self {
            Item::RedApple => 0,
            Item::Orange => 1,
            Item::YellowLemon => 2,
            Item::GreenLettuce => 3,
            Item::PurpleGrape => 4,
            Item::BrownTater => 5,
        }
    }

    /// The item at place `i` of the list of kinds; past the end of the
    /// list, the last kind.
    pub fn at(i: usize) -> (item: Item)
        ensures
            item == Item::kind(i as int),
            i < ITEM_KINDS ==> item.ordinal() == i,
    {
        if i == 0 {
            Item::RedApple
        } else if i == 1 {
            Item::Orange
        } else if i == 2 {
            Item::YellowLemon
        } else if i == 3 {
            Item::GreenLettuce
        } else if i == 4 {
            Item::PurpleGrape
        } else {
            Item::BrownTater
        }
    }

    /// A random item, each kind equally likely.
    pub fn sample() -> (item: Item) {
        Item::at(pick_index(ITEM_KINDS))
    }
}

/// Indicates what a market is interested in.
#[derive(Debug, Clone, Copy, PartialEq, Eq, Structural)]
pub enum ItemFilter {
    /// Any item is accepted.
    Any,
    /// Only this item is accepted.
    Specific(Item),
}

impl ItemFilter {
    /// Whether the filter accepts `checkee`.
    pub open spec fn accepts(self, checkee: Item) -> bool {
        match self {
            ItemFilter::Any => true,
            ItemFilter::Specific(wanted) => checkee == wanted,
        }
    }

    /// Whether the filter accepts `checkee`.
    pub fn matches(&self, checkee: &Item) -> (b: bool)
        ensures
            b == self.accepts(*checkee),
    {
        match self {
            ItemFilter::Any => true,
            ItemFilter::Specific(other) => *checkee == *other,
        }
    }

    /// The filter that is chosen when the first draw is `any` and the
    /// second draw is `item`.
    pub fn choose_from(any: bool, item: Item) -> (f: ItemFilter)
        ensures
            f == if any {
                ItemFilter::Any
            } else {
                ItemFilter::Specific(item)
            },
    {
        if any {
            ItemFilter::Any
        } else {
            ItemFilter::Specific(item)
        }
    }

    /// A random filter: one time in five any item, else a random item.
    pub fn sample() -> (f: ItemFilter) {
        ItemFilter::choose_from(chance(1, 5), Item::sample())
    }
}

/// A factory that produces items.
#[derive(Debug, Clone, Copy, PartialEq, Eq)]
pub struct Factory {
    /// The thing this factory produces.
    pub product: Item,
    /// How many it has left.
    pub stock: usize,
}

impl Factory {
    /// Whether `f` can come out of `generate` for `product`: it makes the
    /// product and holds one to four of it.
    pub open spec fn fresh(f: Factory, product: Item) -> bool {
        f.product == product && 1 <= f.stock < 5
    }

    /// A new factory for `product` with a random stock.
    pub fn generate(product: Item, frames_elapsed: u64) -> (f: Factory)
        ensures
            Factory::fresh(f, product),
    {
        Factory { stock: pick_between(1, 5) as usize, product }
    }
}

/// The price curve of a market: a wave over a clock that each step
/// advances. All fields are in millionths.
#[derive(Debug, Clone, Copy, PartialEq, Eq)]
pub struct Pricer {
    /// The clock at which the curve is read.
    pub time: u64,
    /// How far the clock advances with each step.
    pub dt: u64,
    /// The height of the curve: the price moves between 1 and
    /// this plus 1.
    pub multiplier: u64,
    /// How fast the first component of the curve swings.
    pub m: u64,
    /// How fast the second component swings.
    pub n: u64,
    /// How fast the third component swings.
    pub o: u64,
}

/// The highest price a market ever pays.
pub const PRICE_CAP: u32 = u32::MAX;

impl Pricer {
    /// The phase of a component that swings at `rate`, at clock `time`.
    pub open spec fn angle(time: int, rate: int) -> int {
        (time * rate / (UNIT as int)) % (FULL_TURN as int)
    }

    /// The curve at the current clock, between 0 and 6 `UNIT`: three
    /// units plus one wave, minus a second, a quarter turn ahead, minus
    /// a third.
    pub open spec fn swing(self) -> int {
        3 * UNIT + sine(Pricer::angle(self.time as int, self.m as int)) - cosine(
            Pricer::angle(self.time as int, self.n as int),
        ) - sine(Pricer::angle(self.time as int, self.o as int))
    }

    /// The price at the current clock: a sixth of the curve times the
    /// multiplier, rounded down, plus one; never above `PRICE_CAP`.
    pub open spec fn price(self) -> int {
        let raw = self.swing() * self.multiplier / (6 * UNIT * UNIT);
        if raw >= PRICE_CAP {
            PRICE_CAP as int
        } else {
            raw + 1
        }
    }

    /// This curve one step later: the clock has advanced by `dt`, and
    /// stops at the largest value it can hold.
    pub open spec fn stepped(self) -> Pricer {
        Pricer {
            time: if self.time + self.dt > u64::MAX {
                u64::MAX
            } else {
                (self.time + self.dt) as u64
            },
            ..self
        }
    }

    /// Whether `p` can come out of `new` for `dt` and `multiplier`: its
    /// clock is at zero and its three rates lie in their ranges.
    pub open spec fn fresh(p: Pricer, dt: u64, multiplier: u64) -> bool {
        &&& p.time == 0
        &&& p.dt == dt
        &&& p.multiplier == multiplier
        &&& UNIT <= p.m < 3 * UNIT
        &&& UNIT <= p.n < 2 * UNIT
        &&& 2 * UNIT <= p.o < 4 * UNIT
    }

    /// The curve with the given step, multiplier and rates, its clock at
    /// zero.
    pub fn with_rates(dt: u64, multiplier: u64, m: u64, n: u64, o: u64) -> (p: Pricer)
        ensures
            p == (Pricer { time: 0, dt, multiplier, m, n, o }),
    {
        Pricer { time: 0, dt, multiplier, m, n, o }
    }

    /// A new curve with the given step and multiplier and random rates.
    pub fn new(dt: u64, multiplier: u64) -> (p: Pricer)
        ensures
            Pricer::fresh(p, dt, multiplier),
    {
        let m = pick_between(UNIT, 3 * UNIT);
        let n = pick_between(UNIT, 2 * UNIT);
        let o = pick_between(2 * UNIT, 4 * UNIT);
        Pricer::with_rates(dt, multiplier, m, n, o)
    }

    /// The phase of a component that swings at `rate`.
    fn phase(&self, rate: u64) -> (a: u64)
        ensures
            a == Pricer::angle(self.time as int, rate as int),
    {
        assert(self.time * rate <= 0xFFFF_FFFF_FFFF_FFFF * 0xFFFF_FFFF_FFFF_FFFF)
            by (nonlinear_arith)
            requires
                0 <= self.time <= 0xFFFF_FFFF_FFFF_FFFF,
                0 <= rate <= 0xFFFF_FFFF_FFFF_FFFF,
        ;
        let product: u128 = (self.time as u128) * (rate as u128);
        ((product / (UNIT as u128)) % (FULL_TURN as u128)) as u64
    }

    /// Sample the price at the current clock.
    pub fn sample(&self) -> (price: u32)
        ensures
            price == self.price(),
            price >= 1,
    {
        let a = wave(self.phase(self.m));
        let b = wave_ahead(self.phase(self.n));
        let c = wave(self.phase(self.o));
        let swing: i64 = 3 * (UNIT as i64) + a - b - c;
        assert(self.swing() == swing);
        assert(swing * self.multiplier <= 6_000_000 * 0xFFFF_FFFF_FFFF_FFFF) by (nonlinear_arith)
            requires
                0 <= swing <= 6_000_000,
                0 <= self.multiplier <= 0xFFFF_FFFF_FFFF_FFFF,
        ;
        assert(0 <= swing * self.multiplier) by (nonlinear_arith)
            requires
                0 <= swing,
                0 <= self.multiplier,
        ;
        let raw: u128 = (swing as u128) * (self.multiplier as u128) / (6 * (UNIT as u128) * (
        UNIT as u128));
        if raw >= PRICE_CAP as u128 {
            PRICE_CAP
        } else {
            raw as u32 + 1
        }
    }

    /// Advance the clock by one step.
    pub fn timestep(&mut self)
        ensures
            *final(self) == old(self).stepped(),
    {
        self.time = self.time.saturating_add(self.dt);
    }
}

/// The price is at least one and at most `PRICE_CAP`, whatever the
/// clock, the multiplier and the rates.
pub proof fn lemma_price_at_least_one(p: Pricer)
    ensures
        1 <= p.price() <= PRICE_CAP,
        0 <= p.swing() <= 6 * UNIT,
{
    lemma_sine_bounds(Pricer::angle(p.time as int, p.m as int));
    lemma_sine_bounds(Pricer::angle(p.time as int, p.n as int) + QUARTER_TURN);
    lemma_sine_bounds(Pricer::angle(p.time as int, p.o as int));
    let swing = p.swing();
    let product = swing * p.multiplier;
    assert(product >= 0) by (nonlinear_arith)
        requires
            product == swing * p.multiplier,
            swing >= 0,
            p.multiplier >= 0,
    ;
    assert(product / (6 * UNIT * UNIT) >= 0);
}

/// A market for any item is worth half: its price clock steps half as
/// far, and the part of its multiplier that grows with the frames is
/// half of what a market for one item gets from the same draw.
pub proof fn lemma_any_item_is_worth_half(item: Item, frames_elapsed: u64, bonus: u64)
    ensures
        Market::pace(ItemFilter::Any, frames_elapsed) == Market::pace(
            ItemFilter::Specific(item),
            frames_elapsed,
        ) / 2,
        Market::multiplier_for(ItemFilter::Any, bonus) - 5 * UNIT == (Market::multiplier_for(
            ItemFilter::Specific(item),
            bonus,
        ) - 5 * UNIT) / 2,
{
}

/// A market that consumes items.
#[derive(Debug, Clone, Copy, PartialEq, Eq)]
pub struct Market {
    /// What the market wants.
    pub request: ItemFilter,
    /// How many more of the item it wants.
    pub demand: usize,
    /// Price generator.
    pub prices: Pricer,
}

impl Market {
    /// The step of the price clock of a market opened after
    /// `frames_elapsed` frames: the square root of the thousandth part of
    /// the frames, divided by 800; half of that where any item is
    /// accepted.
    pub open spec fn pace(request: ItemFilter, frames_elapsed: u64) -> int {
        let base = root(frames_elapsed * 1_000_000_000) / 800;
        if request is Any {
            base / 2
        } else {
            base
        }
    }

    /// The least bonus a market opened after `frames_elapsed` frames
    /// can draw: the square root of a tenth of the frames.
    pub open spec fn least_bonus(frames_elapsed: u64) -> int {
        root(frames_elapsed * 100_000_000_000)
    }

    /// The bound below which the bonus is drawn: the square root of a
    /// fifth of the frames.
    pub open spec fn bonus_bound(frames_elapsed: u64) -> int {
        root(frames_elapsed * 200_000_000_000)
    }

    /// Whether `bonus` can be drawn after `frames_elapsed` frames: it
    /// lies between the least bonus and the bound, or is the least bonus
    /// where the two coincide.
    pub open spec fn bonus_in_range(bonus: u64, frames_elapsed: u64) -> bool {
        Market::least_bonus(frames_elapsed) <= bonus && (bonus < Market::bonus_bound(
            frames_elapsed,
        ) || bonus == Market::least_bonus(frames_elapsed))
    }

    /// The multiplier of a market that has drawn `bonus`: five units plus
    /// the bonus; plus half of the bonus where any item is accepted.
    pub open spec fn multiplier_for(request: ItemFilter, bonus: u64) -> int {
        5 * UNIT + if request is Any {
            bonus as int / 2
        } else {
            bonus as int
        }
    }

    /// Whether `m` can come out of `generate` for `request` after
    /// `frames_elapsed` frames.
    pub open spec fn fresh(m: Market, request: ItemFilter, frames_elapsed: u64) -> bool {
        &&& m.request == request
        &&& 2 <= m.demand < 10
        &&& exists|bonus: u64| #[trigger]
            Market::bonus_in_range(bonus, frames_elapsed) && Pricer::fresh(
                m.prices,
                Market::pace(request, frames_elapsed) as u64,
                Market::multiplier_for(request, bonus) as u64,
            )
    }

    /// The step of the price clock of a market opened after
    /// `frames_elapsed` frames.
    pub fn pace_after(request: &ItemFilter, frames_elapsed: u64) -> (dt: u64)
        ensures
            dt == Market::pace(*request, frames_elapsed),
    {
        let base: u64 = isqrt((frames_elapsed as u128) * 1_000_000_000) / 800;
        match request {
            ItemFilter::Any => base / 2,
            ItemFilter::Specific(_) => base,
        }
    }

    /// The range from which the bonus of a market opened after
    /// `frames_elapsed` frames is drawn: the least bonus and the bound.
    pub fn bonus_range(frames_elapsed: u64) -> (r: (u64, u64))
        ensures
            r.0 == Market::least_bonus(frames_elapsed),
            r.1 == Market::bonus_bound(frames_elapsed),
            r.0 <= r.1 < 0x10_0000_0000_0000,
    {
        let low: u64 = isqrt((frames_elapsed as u128) * 100_000_000_000);
        let high: u64 = isqrt((frames_elapsed as u128) * 200_000_000_000);
        proof {
            lemma_root_monotonic(
                frames_elapsed * 100_000_000_000,
                frames_elapsed * 200_000_000_000,
                low as int,
                high as int,
            );
            if high >= 0x10_0000_0000_0000 {
                assert(high * high >= 0x10_0000_0000_0000 * 0x10_0000_0000_0000)
                    by (nonlinear_arith)
                    requires
                        high >= 0x10_0000_0000_0000,
                ;
            }
        }
        (low, high)
    }

    /// The multiplier of a market that has drawn `bonus`.
    pub fn multiplier_after(request: &ItemFilter, bonus: u64) -> (multiplier: u64)
        requires
            5 * UNIT + bonus <= u64::MAX,
        ensures
            multiplier == Market::multiplier_for(*request, bonus),
    {
        let scaled: u64 = match request {
            ItemFilter::Any => bonus / 2,
            ItemFilter::Specific(_) => bonus,
        };
        5 * UNIT + scaled
    }

    /// A new market for `request` with a random demand and a random
    /// price curve, which is the steeper and the faster the more frames
    /// have elapsed.
    pub fn generate(request: ItemFilter, frames_elapsed: u64) -> (market: Market)
        ensures
            Market::fresh(market, request, frames_elapsed),
    {
        let demand = pick_between(2, 10) as usize;
        let (low, high) = Market::bonus_range(frames_elapsed);
        let bonus: u64 = if low < high {
            pick_between(low, high)
        } else {
            low
        };
        let prices = Pricer::new(
            Market::pace_after(&request, frames_elapsed),
            Market::multiplier_after(&request, bonus),
        );
        let market = Market { request, demand, prices };
        assert(Market::bonus_in_range(bonus, frames_elapsed));
        market
    }
}

} // verus!

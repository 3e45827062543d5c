//! Simulate dice rolls and coin flips, drawing randomness from the
//! thread-local generator of the `rand` crate.
//!
//! A die is anything that can be rolled: [`RangeDie`] covers the integers of
//! an inclusive range, [`GenericDie`] an explicit list of faces. The free
//! functions [`roll`] and [`n_rolls`] drive single and repeated rolls, and
//! the named constructors build the common polyhedral dice.

use vstd::prelude::*;

mod rng;

verus! {

use crate::rng::{fresh_rng, sample_inclusive, sample_index};

/// A simulation of rolling some kind of die.
///
/// Dice may be marked with numbers, letters, or arbitrary symbols, so the
/// trait is generic over the type a roll returns. A die never owns a
/// generator: every roll draws from a source the caller supplies.
pub trait RollableDie<T> {
    /// Whether this die is well formed: it has at least one face to land on.
    spec fn wf(&self) -> bool;

    /// Whether `v` is a value a roll of this die can produce.
    spec fn can_roll(&self, v: T) -> bool;

    /// Simulate one roll of the die, drawing from the given generator.
    fn roll(&self, rng: &mut rand::rngs::ThreadRng) -> (r: T)
        requires
            self.wf(),
        ensures
            self.can_roll(r);
}

/// A die whose faces are the integers of the inclusive range
/// `min..=max`, each equally likely.
#[derive(Clone, Copy, Debug)]
pub struct RangeDie {
    min: i32,
    max: i32,
}

impl RangeDie {
    /// The smallest face value.
    pub closed spec fn spec_min(&self) -> i32 {
        self.min
    }

    /// The largest face value.
    pub closed spec fn spec_max(&self) -> i32 {
        self.max
    }

    /// Create a die with the given minimum and maximum face values.
    pub fn new(min: i32, max: i32) -> (d: Self)
        requires
            min <= max,
        ensures
            d.spec_min() == min,
            d.spec_max() == max,
    {
        RangeDie { min, max }
    }
}

impl RollableDie<i32> for RangeDie {
    open spec fn wf(&self) -> bool {
        self.spec_min() <= self.spec_max()
    }

    open spec fn can_roll(&self, v: i32) -> bool {
        self.spec_min() <= v <= self.spec_max()
    }

    fn roll(&self, rng: &mut rand::rngs::ThreadRng) -> (r: i32) {
        sample_inclusive(rng, self.min, self.max)
    }
}

impl<'a> RollableDie<i32> for &'a RangeDie {
    open spec fn wf(&self) -> bool {
        self.spec_min() <= self.spec_max()
    }

    open spec fn can_roll(&self, v: i32) -> bool {
        self.spec_min() <= v <= self.spec_max()
    }

    fn roll(&self, rng: &mut rand::rngs::ThreadRng) -> (r: i32) {
        sample_inclusive(rng, self.min, self.max)
    }
}

/// A die with arbitrary data or symbols on its faces.
///
/// Faces need not be unique: repeating a face raises its probability in
/// proportion to its multiplicity, which makes "averaging" dice and other
/// dice with identical faces easy to express with a uniform draw over
/// positions.
#[derive(Clone, Debug)]
pub struct GenericDie<T> {
    faces: Vec<T>,
}

impl<T> View for GenericDie<T> {
    type V = Seq<T>;

    closed spec fn view(&self) -> Seq<T> {
        self.faces@
    }
}

impl<T: Copy> GenericDie<T> {
    /// Create a die whose faces are exactly the given values, in order.
    pub fn new_from(faces: Vec<T>) -> (d: Self)
        requires
            faces@.len() > 0,
        ensures
            d@ == faces@,
    {
        GenericDie { faces }
    }
}

impl<T: Copy> RollableDie<T> for GenericDie<T> {
    open spec fn wf(&self) -> bool {
        self@.len() > 0
    }

    open spec fn can_roll(&self, v: T) -> bool {
        self@.contains(v)
    }

    fn roll(&self, rng: &mut rand::rngs::ThreadRng) -> (r: T) {
        let i = sample_index(rng, self.faces.len());
        self.faces[i]
    }
}

impl<'a, T: Copy> RollableDie<T> for &'a GenericDie<T> {
    open spec fn wf(&self) -> bool {
        self@.len() > 0
    }

    open spec fn can_roll(&self, v: T) -> bool {
        self@.contains(v)
    }

    fn roll(&self, rng: &mut rand::rngs::ThreadRng) -> (r: T) {
        let i = sample_index(rng, self.faces.len());
        self.faces[i]
    }
}

/// Simulate a die roll using the thread-local generator.
pub fn roll<T, D: RollableDie<T>>(d: &D) -> (r: T)
    requires
        d.wf(),
    ensures
        d.can_roll(r),
{
    let mut rng = fresh_rng();
    d.roll(&mut rng)
}

/// Simulate `n` rolls of one die and return the results in the order they
/// were generated, all drawn from one generator obtained at the start.
pub fn n_rolls<T, D: RollableDie<T>>(n: usize, d: &D) -> (rolls: Vec<T>)
    requires
        d.wf(),
    ensures
        rolls@.len() == n,
        forall|i: int| 0 <= i < n ==> d.can_roll(#[trigger] rolls@[i]),
{
    let mut rng = fresh_rng();
    let mut rolls: Vec<T> = Vec::new();
    let mut k: usize = 0;
    while k < n
        invariant
            k <= n,
            d.wf(),
            rolls@.len() == k,
            forall|i: int| 0 <= i < k ==> d.can_roll(#[trigger] rolls@[i]),
        decreases n - k,
    {
        let v = d.roll(&mut rng);
        rolls.push(v);
        k = k + 1;
    }
    rolls
}

/// Create an n-sided die numbered `1..=n`. Uses a signed integer so that
/// roll results can be used directly in calculations that may go negative
/// due to bonuses or penalties.
///
/// Fails exactly when `n < 1`: a die needs at least one face.
pub fn n_sided(n: i32) -> (r: Result<RangeDie, &'static str>)
    ensures
        r is Ok <==> n >= 1,
        n >= 1 ==> r->Ok_0.spec_min() == 1 && r->Ok_0.spec_max() == n,
        n < 1 ==> r->Err_0@ == "Invalid number of sides for a die."@,
{
    if n < 1 {
        Err("Invalid number of sides for a die.")
    } else {
        Ok(RangeDie::new(1, n))
    }
}

/// Convenience wrapper for 100-sided (percentile) dice.
pub fn d100() -> (d: RangeDie)
    ensures
        d.spec_min() == 1,
        d.spec_max() == 100,
{
    n_sided(100).unwrap()
}

/// Convenience wrapper for 20-sided dice.
pub fn d20() -> (d: RangeDie)
    ensures
        d.spec_min() == 1,
        d.spec_max() == 20,
{
    n_sided(20).unwrap()
}

/// Convenience wrapper for 12-sided dice.
pub fn d12() -> (d: RangeDie)
    ensures
        d.spec_min() == 1,
        d.spec_max() == 12,
{
    n_sided(12).unwrap()
}

/// Convenience wrapper for 10-sided dice.
pub fn d10() -> (d: RangeDie)
    ensures
        d.spec_min() == 1,
        d.spec_max() == 10,
{
    n_sided(10).unwrap()
}

/// Convenience wrapper for 8-sided dice.
pub fn d8() -> (d: RangeDie)
    ensures
        d.spec_min() == 1,
        d.spec_max() == 8,
{
    n_sided(8).unwrap()
}

/// Convenience wrapper for 6-sided dice.
pub fn d6() -> (d: RangeDie)
    ensures
        d.spec_min() == 1,
        d.spec_max() == 6,
{
    n_sided(6).unwrap()
}

/// Convenience wrapper for 4-sided dice.
pub fn d4() -> (d: RangeDie)
    ensures
        d.spec_min() == 1,
        d.spec_max() == 4,
{
    n_sided(4).unwrap()
}

/// Convenience wrapper for 2-sided dice (a coin flip with numeric value):
/// the faces are exactly 1 and 2.
pub fn d2() -> (d: RangeDie)
    ensures
        d.spec_min() == 1,
        d.spec_max() == 2,
{
    n_sided(2).unwrap()
}

/// Represent coin flip results in a readable way.
#[derive(Clone, Copy, Debug, PartialEq, Eq, Structural)]
pub enum CoinFace {
    Heads,
    Tails,
}

/// Simulate one coin flip: the result is always `Heads` or `Tails`,
/// each drawn with equal probability from two outcomes.
pub fn coin_flip() -> (face: CoinFace)
    ensures
        face == CoinFace::Heads || face == CoinFace::Tails,
{
    let mut rng = fresh_rng();
    let draw = sample_index(&mut rng, 2);
    if draw == 0 {
        CoinFace::Heads
    } else {
        CoinFace::Tails
    }
}

/// Law: a die built by `n_sided(n)` for `n >= 1` can only ever roll values
/// in `1..=n`, both bounds included.
pub proof fn lemma_n_sided_roll_range(n: i32, d: RangeDie, v: i32)
    requires
        n >= 1,
        d.spec_min() == 1,
        d.spec_max() == n,
        d.can_roll(v),
    ensures
        1 <= v <= n,
{
}

} // verus!

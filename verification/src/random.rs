//! The source of randomness that the bag, the streams and their manager
//! draw from.

use vstd::prelude::*;
use rand::rngs::mock::StepRng;
use rand::rngs::ThreadRng;

verus! {

/// rand's generator of the current thread. Nothing is known of its state.
#[verifier::external_type_specification]
#[verifier::external_body]
pub struct ExThreadRng(ThreadRng);

/// rand's mock generator, which counts up in fixed steps. Nothing is known
/// of its state.
#[verifier::external_type_specification]
#[verifier::external_body]
pub struct ExStepRng(StepRng);

/// rand's `thread_rng` hands out the generator of the current thread.
/// Nothing is claimed of it.
pub assume_specification[ rand::thread_rng ]() -> (rng: ThreadRng);

/// rand's `StepRng::new` makes a generator that gives `initial` first and
/// `increment` more with each number. Nothing is claimed of it.
pub assume_specification[ StepRng::new ](initial: u64, increment: u64) -> (rng: StepRng);

/// Calls rand's `Rng::gen_range` on the range `0..bound`, which rand
/// documents to give a value of that range and to panic when the range is
/// empty. rand draws again until a number suits, so the call ends only
/// for a generator that does not repeat unsuitable numbers for ever: the
/// library hands it the thread's generator or one of a `Stepping`.
#[verifier::external_body]
fn sample_below<R: rand::RngCore>(rng: &mut R, bound: usize) -> (index: usize)
    requires
        bound > 0,
    ensures
        index < bound,
{
    rand::Rng::gen_range(rng, 0..bound)
}

/// Calls rand's `Rng::gen_range` on the range `low..=high`, which rand
/// documents to give a value of that range and to panic when the range is
/// empty. It ends for the generators that the library hands it, as for
/// `sample_below`.
#[verifier::external_body]
fn sample_between<R: rand::RngCore>(rng: &mut R, low: u16, high: u16) -> (value: u16)
    requires
        low <= high,
    ensures
        low <= value <= high,
{
    rand::Rng::gen_range(rng, low..=high)
}

/// Calls rand's `SliceRandom::shuffle`, which reorders the slice in place by
/// swapping its elements: the same elements are there afterwards, each as
/// often as before. It draws an index for each swap, and ends for the
/// generators that the library hands it, as for `sample_below`.
#[verifier::external_body]
fn shuffle_with<T, R: rand::RngCore>(rng: &mut R, items: &mut Vec<T>)
    ensures
        final(items)@.to_multiset() == old(items)@.to_multiset(),
{
    rand::seq::SliceRandom::shuffle(items.as_mut_slice(), rng)
}

/// Calls rand's `SliceRandom::choose`, which gives one element of the slice,
/// or `None` when the slice is empty. It draws an index, and ends for the
/// generators that the library hands it, as for `sample_below`.
#[verifier::external_body]
fn choose_with<R: rand::RngCore>(rng: &mut R, glyphs: &Vec<char>) -> (glyph: Option<char>)
    ensures
        glyphs@.len() == 0 ==> glyph.is_none(),
        glyphs@.len() > 0 ==> glyph.is_some() && glyphs@.contains(glyph.unwrap()),
{
    rand::seq::SliceRandom::choose(glyphs.as_slice(), rng).copied()
}

/// Calls rand's `Rng::gen_ratio`, which is `true` with a chance of
/// `numerator` in `denominator`: always when the two are equal, never when
/// `numerator` is 0. It panics when `denominator` is 0 or less than
/// `numerator`.
#[verifier::external_body]
fn ratio_with<R: rand::RngCore>(rng: &mut R, numerator: u32, denominator: u32) -> (hit: bool)
    requires
        denominator > 0,
        numerator <= denominator,
    ensures
        numerator == denominator ==> hit,
        numerator == 0 ==> !hit,
{
    rand::Rng::gen_ratio(rng, numerator, denominator)
}

/// A generator that counts up from a start in fixed steps and so gives the
/// same numbers in every run. Its step is odd: it then comes by every
/// number before it repeats one, so that a draw which rejects some numbers
/// and waits for others always ends.
pub struct Stepping {
    rng: StepRng,
    initial: u64,
    increment: OddStep,
}

/// A step that is odd.
struct OddStep {
    value: u64,
}

impl OddStep {
    #[verifier::type_invariant]
    spec fn is_odd(self) -> bool {
        self.value % 2 == 1
    }
}

impl Stepping {
    /// The first number of the generator.
    pub closed spec fn start(&self) -> u64 {
        self.initial
    }

    /// What the generator adds from one number to the next.
    pub closed spec fn step(&self) -> u64 {
        self.increment.value
    }

    /// The generator that starts at `initial` and adds `increment` each
    /// time, or `None` for an even `increment`.
    pub fn new(initial: u64, increment: u64) -> (stepping: Option<Self>)
        ensures
            stepping.is_some() == (increment % 2 == 1),
            stepping.is_some() ==> stepping.unwrap().start() == initial
                && stepping.unwrap().step() == increment,
    {
        if increment % 2 == 1 {
            Some(
                Stepping {
                    rng: StepRng::new(initial, increment),
                    initial,
                    increment: OddStep { value: increment },
                },
            )
        } else {
            None
        }
    }
}

/// A source of random numbers: the generator of the current thread, or a
/// generator that counts up in fixed odd steps.
pub enum RandomSource {
    /// The generator of the current thread.
    Thread(ThreadRng),
    /// A generator that counts up in fixed odd steps.
    Step(Stepping),
}

impl RandomSource {
    /// The generator of the current thread.
    pub fn thread() -> (source: Self)
        ensures
            source is Thread,
    {
        RandomSource::Thread(rand::thread_rng())
    }

    /// A random index below `bound`.
    pub fn index_below(&mut self, bound: usize) -> (index: usize)
        requires
            bound > 0,
        ensures
            index < bound,
    {
        match self {
            RandomSource::Thread(rng) => sample_below(rng, bound),
            RandomSource::Step(stepping) => sample_below(&mut stepping.rng, bound),
        }
    }

    /// A random value from `low` to `high`, both included.
    pub fn value_between(&mut self, low: u16, high: u16) -> (value: u16)
        requires
            low <= high,
        ensures
            low <= value <= high,
    {
        match self {
            RandomSource::Thread(rng) => sample_between(rng, low, high),
            RandomSource::Step(stepping) => sample_between(&mut stepping.rng, low, high),
        }
    }

    /// Brings `items` into a random order.
    pub fn shuffle<T>(&mut self, items: &mut Vec<T>)
        ensures
            final(items)@.to_multiset() == old(items)@.to_multiset(),
            final(items)@.len() == old(items)@.len(),
    {
        proof {
            old(items)@.to_multiset_ensures();
        }
        match self {
            RandomSource::Thread(rng) => shuffle_with(rng, items),
            RandomSource::Step(stepping) => shuffle_with(&mut stepping.rng, items),
        }
        proof {
            items@.to_multiset_ensures();
        }
    }

    /// One of `glyphs`, picked at random; `None` when there are none.
    pub fn pick(&mut self, glyphs: &Vec<char>) -> (glyph: Option<char>)
        ensures
            glyphs@.len() == 0 ==> glyph.is_none(),
            glyphs@.len() > 0 ==> glyph.is_some() && glyphs@.contains(glyph.unwrap()),
    {
        match self {
            RandomSource::Thread(rng) => choose_with(rng, glyphs),
            RandomSource::Step(stepping) => choose_with(&mut stepping.rng, glyphs),
        }
    }

    /// A trial that succeeds with a chance of `numerator` in `denominator`.
    pub fn ratio(&mut self, numerator: u32, denominator: u32) -> (hit: bool)
        requires
            denominator > 0,
            numerator <= denominator,
        ensures
            numerator == denominator ==> hit,
            numerator == 0 ==> !hit,
    {
        match self {
            RandomSource::Thread(rng) => ratio_with(rng, numerator, denominator),
            RandomSource::Step(stepping) => ratio_with(&mut stepping.rng, numerator, denominator),
        }
    }
}

} // verus!

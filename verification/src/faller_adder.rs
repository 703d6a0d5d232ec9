//! The manager of the streams: it retires those that have left the screen
//! and admits new ones.

use vstd::prelude::*;
use vstd::pervasive::unreached;
use crate::config::Config;
use crate::falling_char::least_size;
use crate::falling_char::FallingChar;
use crate::message::Message;
use crate::position::Position;
use crate::random::RandomSource;
use crate::random_vec_bag::deals;
use crate::random_vec_bag::is_run;
use crate::random_vec_bag::swap_items;
use crate::random_vec_bag::RandomVecBag;

verus! {

/// The chance of an admission is no part of a whole.
#[derive(Debug)]
pub struct ProbabilityOutOfBoundsError;

/// A chance of `numerator` in `denominator`.
#[derive(Clone, Copy, Debug, PartialEq, Eq, Structural)]
pub struct Probability {
    /// How many of the cases succeed.
    pub numerator: u32,
    /// How many cases there are.
    pub denominator: u32,
}

impl Probability {
    /// Whether this is a chance from 0 to 1: a part of a whole that is not
    /// empty.
    pub open spec fn in_bounds(&self) -> bool {
        self.denominator > 0 && self.numerator <= self.denominator
    }

    /// A chance of `numerator` in `denominator`.
    pub fn new(numerator: u32, denominator: u32) -> (r: Self)
        ensures
            r == (Probability { numerator, denominator }),
    {
        Probability { numerator, denominator }
    }

    /// Whether this is a chance from 0 to 1.
    pub fn is_in_bounds(&self) -> (r: bool)
        ensures
            r == self.in_bounds(),
    {
        self.denominator > 0 && self.numerator <= self.denominator
    }
}

/// The streams of `streams` that stay, in their order.
pub open spec fn retained(streams: Seq<FallingChar>) -> Seq<FallingChar> {
    streams.filter(|stream: FallingChar| stream.is_retained())
}

/// Whether `stream` is one that the manager may have just admitted: a
/// stream without a trail at the top of one of `columns`, set up as
/// `config` says.
pub open spec fn is_admitted(stream: FallingChar, columns: Seq<u16>, config: Config) -> bool {
    &&& stream.wf()
    &&& stream.head().y == 1
    &&& columns.contains(stream.head().x)
    &&& stream.trail().len() == 0
    &&& stream.bounds() == config.screen_size
    &&& stream.palette() == config.colors
    &&& stream.overlay() == config.message
    &&& least_size(config.screen_size.y) <= stream.capacity() <= config.screen_size.y
    &&& forall|i: int|
        0 <= i < stream.glyphs().len() ==> config.chars_to_use@.contains(
            #[trigger] stream.glyphs()[i],
        )
}

/// Whether `states` and `dealt` record how `admitted` came by their
/// columns: one deal of the bag for each stream, in their order, and each
/// stream starts in the column that its deal handed out.
pub open spec fn deals_columns(
    states: Seq<(Seq<u16>, int)>,
    dealt: Seq<Option<u16>>,
    admitted: Seq<FallingChar>,
) -> bool {
    &&& is_run(states, dealt)
    &&& dealt.len() == admitted.len()
    &&& forall|i: int|
        0 <= i < admitted.len() ==> #[trigger] dealt[i] == Some(admitted[i].head().x)
}

/// Whether a call can admit a stream: the chance is a part of a whole and
/// not 0, and fewer streams stay than there are to be.
pub open spec fn can_admit(probability: Probability, streams: Seq<FallingChar>, target: int) -> bool {
    &&& probability.in_bounds()
    &&& probability.numerator > 0
    &&& retained(streams).len() < target
}

/// The manager of the streams.
pub struct FallerAdder {
    /// Where the random numbers come from.
    pub rng: RandomSource,
    /// The streams on the screen.
    pub falling_chars: Vec<FallingChar>,
    /// The chance with which a free place is filled in one call.
    pub probability_to_add: Probability,
    /// The columns in which streams may start.
    pub positions: RandomVecBag<u16>,
    /// The settings for new streams.
    pub config: Config,
}

/// The columns in which streams start on a screen of `width` columns:
/// every column from 1 to `width`, three times over, so that a column may
/// hold a few streams at once.
pub open spec fn columns_of(width: u16) -> Seq<u16> {
    Seq::new(3 * width as nat, |i: int| (i % width as int + 1) as u16)
}

/// The columns in which streams start on a screen of `width` columns.
pub fn spawn_columns(width: u16) -> (columns: Vec<u16>)
    ensures
        columns@ == columns_of(width),
{
    let mut columns: Vec<u16> = Vec::new();
    let mut round: u8 = 0;
    while round < 3
        invariant
            round <= 3,
            columns@.len() == round * width,
            forall|i: int| 0 <= i < columns@.len() ==> columns@[i] == (i % width as int + 1) as u16,
        decreases 3 - round,
    {
        let mut column: u16 = 0;
        while column < width
            invariant
                round < 3,
                column <= width,
                columns@.len() == round * width + column,
                forall|i: int|
                    0 <= i < columns@.len() ==> columns@[i] == (i % width as int + 1) as u16,
            decreases width - column,
        {
            proof {
                let i = round * width + column;
                assert(i % width as int == column) by (nonlinear_arith)
                    requires
                        i == round * width + column,
                        0 <= column < width,
                        0 <= round,
                ;
            }
            columns.push(column + 1);
            column += 1;
        }
        round += 1;
        assert(columns@.len() == round * width) by (nonlinear_arith)
            requires
                columns@.len() == (round - 1) * width + width,
        ;
    }
    assert(columns@ =~= columns_of(width));
    columns
}

/// Removes the streams that do not stay, and keeps the order of the others.
pub fn retire(streams: &mut Vec<FallingChar>)
    ensures
        final(streams)@ == retained(old(streams)@),
{
    let ghost before = streams@;
    let ghost stays = |stream: FallingChar| stream.is_retained();
    let len = streams.len();
    let mut kept: usize = 0;
    let mut next: usize = 0;
    proof {
        reveal(Seq::filter);
        assert(before.take(0).filter(stays) =~= streams@.take(0));
    }
    while next < len
        invariant
            stays == |stream: FallingChar| stream.is_retained(),
            len == before.len(),
            streams@.len() == len,
            kept <= next <= len,
            streams@.take(kept as int) == before.take(next as int).filter(stays),
            forall|i: int| next <= i < len ==> streams@[i] == before[i],
        decreases len - next,
    {
        let ghost current = streams@;
        let stay = streams[next].should_be_retained();
        proof {
            assert(before.take(next + 1) == before.take(next as int).push(before[next as int]));
            before.take(next as int).lemma_filter_push(before[next as int], stays);
        }
        if stay {
            swap_items(streams, kept, next);
            assert(streams@.take(kept + 1) == current.take(kept as int).push(before[next as int]));
            kept += 1;
        } else {
            assert(streams@.take(kept as int) == current.take(kept as int));
        }
        next += 1;
    }
    assert(before.take(len as int) == before);
    streams.truncate(kept);
}

impl FallerAdder {
    /// A manager without streams, set up as `config` says, that fills a
    /// free place with the chance `probability_to_add`. Its bag holds the
    /// columns of the screen, and it draws from the generator of the
    /// current thread.
    pub fn new(config: Config, probability_to_add: Probability) -> (adder: Self)
        ensures
            adder.falling_chars@.len() == 0,
            adder.config == config,
            adder.probability_to_add == probability_to_add,
            adder.positions@.to_multiset() == columns_of(config.screen_size.x).to_multiset(),
            adder.positions@.len() == 3 * config.screen_size.x,
            adder.positions.cursor() == 0,
    {
        let positions = RandomVecBag::new(spawn_columns(config.screen_size.x));
        FallerAdder {
            rng: RandomSource::thread(),
            falling_chars: Vec::new(),
            probability_to_add,
            positions,
            config,
        }
    }

    /// Retires the streams that have left the screen, then fills each free
    /// place with the chance `probability_to_add`: a new stream starts in
    /// row 1 of a column dealt by the bag. The bag deals once for each new
    /// stream and not otherwise. With a chance that is no part of a whole
    /// nothing is done at all. The bag, the rows and the characters are
    /// needed only where a stream can be admitted.
    pub fn add_and_retire(&mut self) -> (r: Result<(), ProbabilityOutOfBoundsError>)
        requires
            can_admit(
                old(self).probability_to_add,
                old(self).falling_chars@,
                old(self).config.no_fallers as int,
            ) ==> {
                &&& old(self).positions@.len() > 0
                &&& old(self).config.screen_size.y >= 1
                &&& old(self).config.chars_to_use@.len() > 0
            },
        ensures
            r.is_err() == !old(self).probability_to_add.in_bounds(),
            r.is_err() ==> *final(self) == *old(self),
            final(self).config == old(self).config,
            final(self).probability_to_add == old(self).probability_to_add,
            final(self).positions@.to_multiset() == old(self).positions@.to_multiset(),
            r.is_ok() ==> {
                let stayed = retained(old(self).falling_chars@);
                let target = old(self).config.no_fallers as int;
                let live = final(self).falling_chars@;
                &&& stayed.len() <= live.len()
                &&& live.take(stayed.len() as int) == stayed
                &&& live.len() <= target || live.len() == stayed.len()
                &&& old(self).falling_chars@.len() <= target ==> live.len() <= target
                &&& forall|i: int|
                    stayed.len() <= i < live.len() ==> is_admitted(
                        #[trigger] live[i],
                        old(self).positions@,
                        old(self).config,
                    )
                &&& old(self).probability_to_add.numerator == old(self).probability_to_add.denominator
                    && stayed.len() <= target ==> live.len() == target
                &&& old(self).probability_to_add.numerator == 0 ==> live.len() == stayed.len()
                &&& live.len() == stayed.len() ==> final(self).positions == old(self).positions
                &&& exists|states: Seq<(Seq<u16>, int)>, dealt: Seq<Option<u16>>|
                    {
                        &&& #[trigger] deals_columns(states, dealt, live.skip(stayed.len() as int))
                        &&& states[0] == (old(self).positions@, old(self).positions.cursor() as int)
                        &&& states.last() == (
                            final(self).positions@,
                            final(self).positions.cursor() as int,
                        )
                    }
            },
    {
        if !self.probability_to_add.is_in_bounds() {
            return Err(ProbabilityOutOfBoundsError);
        }
        retire(&mut self.falling_chars);
        let ghost stayed = self.falling_chars@;
        proof {
            old(self).falling_chars@.lemma_filter_len(|stream: FallingChar| stream.is_retained());
        }
        let ghost columns = self.positions@;
        let ghost mut states: Seq<(Seq<u16>, int)> = seq![
            (self.positions@, self.positions.cursor() as int),
        ];
        let ghost mut dealt: Seq<Option<u16>> = Seq::empty();
        let first = self.falling_chars.len();
        let target = self.config.no_fallers;
        let mut place = first;
        while place < target
            invariant
                is_run(states, dealt),
                states[0] == (old(self).positions@, old(self).positions.cursor() as int),
                states.last() == (self.positions@, self.positions.cursor() as int),
                dealt.len() == self.falling_chars@.len() - first,
                forall|i: int|
                    0 <= i < dealt.len() ==> #[trigger] dealt[i] == Some(
                        self.falling_chars@[first + i].head().x,
                    ),
                self.falling_chars@.len() == first ==> self.positions == old(self).positions,
                self.probability_to_add.numerator > 0 && first < target ==> {
                    &&& columns.len() > 0
                    &&& self.config.screen_size.y >= 1
                    &&& self.config.chars_to_use@.len() > 0
                },
                self.config == old(self).config,
                self.probability_to_add == old(self).probability_to_add,
                self.probability_to_add.in_bounds(),
                self.positions@.to_multiset() == columns.to_multiset(),
                columns == old(self).positions@,
                target == self.config.no_fallers,
                first == stayed.len(),
                first <= place,
                place <= target || place == first,
                self.positions@.len() == columns.len(),
                first <= self.falling_chars@.len() <= place,
                self.falling_chars@.take(first as int) == stayed,
                forall|i: int|
                    first <= i < self.falling_chars@.len() ==> is_admitted(
                        #[trigger] self.falling_chars@[i],
                        columns,
                        self.config,
                    ),
                self.probability_to_add.numerator == self.probability_to_add.denominator
                    ==> self.falling_chars@.len() == place,
                self.probability_to_add.numerator == 0 ==> self.falling_chars@.len() == first,
            decreases target - place,
        {
            if self.rng.ratio(self.probability_to_add.numerator, self.probability_to_add.denominator) {
                let ghost bag = self.positions@;
                let ghost cursor = self.positions.cursor() as int;
                proof {
                    bag.to_multiset_ensures();
                }
                let column: u16 = match self.positions.get() {
                    Some(column) => *column,
                    None => unreached(),
                };
                proof {
                    assert(column == bag[0] || (0 <= cursor < bag.len() && column == bag[cursor]));
                    columns.to_multiset_ensures();
                    assert(columns.to_multiset().count(column) > 0);
                    assert(columns.contains(column));
                    self.positions@.to_multiset_ensures();
                    let reached = (self.positions@, self.positions.cursor() as int);
                    let longer = states.push(reached);
                    let more = dealt.push(Some(column));
                    assert(deals(bag, cursor, reached.0, reached.1, Some(column)));
                    assert forall|k: int| 0 <= k < more.len() implies deals(
                        longer[k].0,
                        longer[k].1,
                        longer[k + 1].0,
                        longer[k + 1].1,
                        #[trigger] more[k],
                    ) by {
                        if k < dealt.len() {
                            assert(more[k] == dealt[k]);
                        }
                    }
                    states = longer;
                    dealt = more;
                }
                let position = Position::new(column, 1);
                let message: Option<Message> = match &self.config.message {
                    Some(message) => Some(message.clone()),
                    None => None,
                };
                let stream = FallingChar::new(
                    &mut self.rng,
                    position,
                    self.config.screen_size,
                    &self.config.colors,
                    self.config.chars_to_use.as_str(),
                    message,
                );
                let ghost before = self.falling_chars@;
                self.falling_chars.push(stream);
                assert(self.falling_chars@.take(first as int) == before.take(first as int));
            }
            place += 1;
        }
        proof {
            let admitted = self.falling_chars@.skip(first as int);
            assert(deals_columns(states, dealt, admitted));
        }
        Ok(())
    }
}

} // verus!

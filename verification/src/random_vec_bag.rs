//! A bag that deals out its items in random order, each once per round.

use vstd::prelude::*;
use crate::random::RandomSource;

verus! {

/// Calls std's `swap` of slices, which exchanges the elements at `a` and
/// `b` and panics when one of them is out of range.
#[verifier::external_body]
pub(crate) fn swap_items<T>(items: &mut Vec<T>, a: usize, b: usize)
    requires
        a < old(items)@.len(),
        b < old(items)@.len(),
    ensures
        final(items)@ == swapped(old(items)@, a as int, b as int),
{
    items.swap(a, b)
}

/// `items` with the elements at `a` and `b` exchanged.
pub open spec fn swapped<T>(items: Seq<T>, a: int, b: int) -> Seq<T> {
    items.update(a, items[b]).update(b, items[a])
}

/// A bag of items that shuffles itself: when it is made, and behind the
/// cursor while it deals, so that each round comes in a new order.
pub struct RandomVecBag<T: Clone> {
    vec: Vec<T>,
    pointer: usize,
    rng: RandomSource,
}

/// What one call of `get` does to a bag of `before` with the cursor at
/// `pointer`: the items and the cursor that it leaves, and the item that it
/// hands out.
///
/// An empty bag gives nothing. With the cursor at the end, the round is
/// over: the cursor goes back to the start, and the first item is handed
/// out without the cursor moving on, so the next call hands it out again.
/// Otherwise the item just before the cursor changes places with some item
/// before the cursor, then the item at the cursor is handed out and the
/// cursor moves on.
pub open spec fn deals<T>(
    before: Seq<T>,
    pointer: int,
    after: Seq<T>,
    next_pointer: int,
    dealt: Option<T>,
) -> bool {
    if before.len() == 0 {
        after == before && next_pointer == pointer && dealt.is_none()
    } else if pointer >= before.len() {
        after == before && next_pointer == 0 && dealt == Some(before[0])
    } else {
        &&& next_pointer == pointer + 1
        &&& dealt == Some(before[pointer])
        &&& if pointer > 0 {
            exists|other: int|
                0 <= other < pointer && after == #[trigger] swapped(before, pointer - 1, other)
        } else {
            after == before
        }
    }
}

impl<T: Clone> View for RandomVecBag<T> {
    type V = Seq<T>;

    closed spec fn view(&self) -> Seq<T> {
        self.vec@
    }
}

impl<T: Clone> RandomVecBag<T> {
    /// The index of the item that is dealt next.
    pub closed spec fn cursor(&self) -> nat {
        self.pointer as nat
    }

    /// A bag of the items of `vec`, shuffled by the generator of the
    /// current thread.
    pub fn new(vec: Vec<T>) -> (bag: RandomVecBag<T>)
        ensures
            bag@.to_multiset() == vec@.to_multiset(),
            bag@.len() == vec@.len(),
            bag.cursor() == 0,
    {
        Self::with_custom_rng(vec, RandomSource::thread())
    }

    /// A bag of the items of `vec`, shuffled by `rng`, which the bag keeps
    /// for its later draws.
    pub fn with_custom_rng(vec: Vec<T>, rng: RandomSource) -> (bag: RandomVecBag<T>)
        ensures
            bag@.to_multiset() == vec@.to_multiset(),
            bag@.len() == vec@.len(),
            bag.cursor() == 0,
    {
        let mut rvb = Self { vec, pointer: 0, rng };
        rvb.rng.shuffle(&mut rvb.vec);
        rvb
    }

    /// The items in the order in which the bag holds them now.
    pub fn items(&self) -> (items: &Vec<T>)
        ensures
            items@ == self@,
    {
        &self.vec
    }

    /// The index of the item that is dealt next.
    pub fn pointer(&self) -> (pointer: usize)
        ensures
            pointer == self.cursor(),
    {
        self.pointer
    }

    /// Deals the next item, or `None` when the bag is empty.
    pub fn get(&mut self) -> (dealt: Option<&T>)
        ensures
            deals(
                old(self)@,
                old(self).cursor() as int,
                final(self)@,
                final(self).cursor() as int,
                match dealt {
                    Some(item) => Some(*item),
                    None => None,
                },
            ),
            final(self)@.to_multiset() == old(self)@.to_multiset(),
            final(self)@.len() == old(self)@.len(),
            forall|i: int|
                old(self).cursor() <= i < old(self)@.len() ==> final(self)@[i] == old(self)@[i],
    {
        if self.vec.is_empty() {
            return None;
        }
        if self.pointer >= self.vec.len() {
            self.pointer = 0;
            return Some(&self.vec[0]);
        }
        if self.pointer > 0 {
            let other = self.rng.index_below(self.pointer);
            proof {
                lemma_swapped_keeps_items(self.vec@, self.pointer - 1, other as int);
            }
            swap_items(&mut self.vec, self.pointer - 1, other);
        }
        let element = &self.vec[self.pointer];
        self.pointer += 1;
        Some(element)
    }
}

/// Exchanging two elements keeps the elements, each as often as before.
pub proof fn lemma_swapped_keeps_items<T>(items: Seq<T>, a: int, b: int)
    requires
        0 <= a < items.len(),
        0 <= b < items.len(),
    ensures
        swapped(items, a, b).to_multiset() == items.to_multiset(),
        swapped(items, a, b).len() == items.len(),
{
    broadcast use vstd::seq_lib::to_multiset_update;

    let middle = items.update(a, items[b]);
    assert(middle[b] == items[b]);
    assert(items.contains(items[a]));
    assert(middle.contains(middle[b]));
    items.to_multiset_ensures();
    middle.to_multiset_ensures();
    assert(middle.to_multiset() == items.to_multiset().insert(items[b]).remove(items[a]));
    assert(swapped(items, a, b).to_multiset() == middle.to_multiset().insert(items[a]).remove(
        middle[b],
    ));
    assert(swapped(items, a, b).to_multiset() =~= items.to_multiset());
}

/// Whether `states` and `dealt` record successive calls of `get`: each
/// state holds the items and the cursor of the bag, and call `k` leads from
/// state `k` to state `k + 1` and hands out `dealt[k]`.
pub open spec fn is_run<T>(states: Seq<(Seq<T>, int)>, dealt: Seq<Option<T>>) -> bool {
    &&& states.len() == dealt.len() + 1
    &&& forall|k: int|
        0 <= k < dealt.len() ==> deals(
            states[k].0,
            states[k].1,
            states[k + 1].0,
            states[k + 1].1,
            #[trigger] dealt[k],
        )
}

proof fn lemma_run_prefix<T>(states: Seq<(Seq<T>, int)>, dealt: Seq<Option<T>>, k: int)
    requires
        is_run(states, dealt),
        states[0].1 == 0,
        0 <= k <= dealt.len(),
        k <= states[0].0.len(),
    ensures
        states[k].1 == k,
        states[k].0.len() == states[0].0.len(),
        states[k].0.to_multiset() == states[0].0.to_multiset(),
        forall|i: int| k <= i < states[0].0.len() ==> states[k].0[i] == states[0].0[i],
        forall|j: int| 0 <= j < k ==> dealt[j] == Some(states[0].0[j]),
    decreases k,
{
    if k > 0 {
        lemma_run_prefix(states, dealt, k - 1);
        let before = states[k - 1].0;
        let after = states[k].0;
        assert(deals(before, states[k - 1].1, after, states[k].1, dealt[k - 1]));
        if k - 1 > 0 {
            let other = choose|other: int|
                0 <= other < k - 1 && after == #[trigger] swapped(before, k - 2, other);
            lemma_swapped_keeps_items(before, k - 2, other);
        }
    }
}

/// A round deals every item once. In a run of as many calls of `get` as
/// the bag holds items, begun with the cursor at the start, the calls hand
/// out the items in the order that they had when the round began, the
/// cursor ends behind the last item, and the bag holds the same items
/// afterwards.
pub proof fn lemma_round_deals_each_item_once<T>(
    states: Seq<(Seq<T>, int)>,
    dealt: Seq<Option<T>>,
)
    requires
        is_run(states, dealt),
        states[0].1 == 0,
        dealt.len() == states[0].0.len(),
    ensures
        dealt == states[0].0.map_values(|item: T| Some(item)),
        dealt.map_values(|item: Option<T>| item.unwrap()).to_multiset()
            == states[0].0.to_multiset(),
        states.last().1 == states[0].0.len(),
        states.last().0.to_multiset() == states[0].0.to_multiset(),
{
    lemma_run_prefix(states, dealt, dealt.len() as int);
    assert(dealt =~= states[0].0.map_values(|item: T| Some(item)));
    assert(dealt.map_values(|item: Option<T>| item.unwrap()) =~= states[0].0);
}

} // verus!

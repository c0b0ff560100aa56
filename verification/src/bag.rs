//! The order in which pieces come: bag after bag, each bag holding the seven kinds
//! once, shuffled.
//!
//! The shuffle is driven by a small generator of numbers that is started from a
//! seed, so that a game can be played again move for move. `stream(seed, n)` is
//! draw number `n` of the order that a seed gives.

use vstd::prelude::*;
use crate::piece::{all_kinds, PieceKind};

verus! {

/// Number of pieces in a bag.
pub const BAG_SIZE: usize = 7;

/// Modulus of the generator.
pub const MODULUS: u64 = 0x8000_0000;

/// Multiplier of the generator.
pub const MULTIPLIER: u64 = 1103515245;

/// Increment of the generator.
pub const INCREMENT: u64 = 12345;

/// The state that follows `state` in the generator.
pub open spec fn next_state(state: u64) -> u64 {
    (((state % MODULUS) * MULTIPLIER + INCREMENT) % (MODULUS as int)) as u64
}

/// The number below `bound` that a state of the generator picks.
pub open spec fn pick(state: u64, bound: int) -> int {
    (state / 65536) as int % bound
}

/// The state of the generator `n` steps after `state`.
pub open spec fn advanced(state: u64, n: int) -> u64
    decreases n,
{
    if n <= 0 {
        state
    } else {
        advanced(next_state(state), n - 1)
    }
}

/// `order` with the entries at `i` and `j` exchanged.
pub open spec fn swapped(order: Seq<PieceKind>, i: int, j: int) -> Seq<PieceKind> {
    order.update(i, order[j]).update(j, order[i])
}

/// `order` after the shuffle has dealt with its entries from index `i` down to 1:
/// each in turn is exchanged with an entry at or before it that the generator
/// picks.
pub open spec fn shuffled(order: Seq<PieceKind>, state: u64, i: int) -> Seq<PieceKind>
    decreases i,
{
    if i <= 0 {
        order
    } else {
        let state = next_state(state);
        shuffled(swapped(order, i, pick(state, i + 1)), state, i - 1)
    }
}

/// The bag that the generator deals from `state`.
pub open spec fn bag_of(state: u64) -> Seq<PieceKind> {
    shuffled(all_kinds(), state, BAG_SIZE - 1)
}

/// The state in which the generator is after it has dealt a bag from `state`.
pub open spec fn state_after_bag(state: u64) -> u64 {
    advanced(state, BAG_SIZE - 1)
}

/// Draw number `n`, counted from 0, of the order of pieces that `seed` gives.
pub open spec fn stream(seed: u64, n: int) -> PieceKind
    decreases n,
{
    if n < BAG_SIZE {
        bag_of(seed)[n]
    } else {
        stream(state_after_bag(seed), n - BAG_SIZE)
    }
}

/// How often `kind` stands in `order` at the indices `lo..hi`.
pub open spec fn occurrences(order: Seq<PieceKind>, kind: PieceKind, lo: int, hi: int) -> int
    decreases hi - lo,
{
    if hi <= lo {
        0
    } else {
        occurrences(order, kind, lo, hi - 1) + (if order[hi - 1] == kind {
            1int
        } else {
            0int
        })
    }
}

/// How often `kind` comes among the draws `lo..hi` of the order that `seed` gives.
pub open spec fn stream_count(seed: u64, kind: PieceKind, lo: int, hi: int) -> int
    decreases hi - lo,
{
    if hi <= lo {
        0
    } else {
        stream_count(seed, kind, lo, hi - 1) + (if stream(seed, hi - 1) == kind {
            1int
        } else {
            0int
        })
    }
}

/// Whether `order` is a bag: seven pieces, each kind once.
pub open spec fn is_bag(order: Seq<PieceKind>) -> bool {
    order.len() == BAG_SIZE && forall|kind: PieceKind|
        #[trigger] occurrences(order, kind, 0, BAG_SIZE as int) == 1
}

/// The seven draws of bag number `b` of the order that `seed` gives.
pub open spec fn nth_bag(seed: u64, b: int) -> Seq<PieceKind> {
    Seq::new(BAG_SIZE as nat, |i: int| stream(seed, BAG_SIZE * b + i))
}

/// Model of a queue of pieces: the bag that is being dealt, how many of its pieces
/// are gone, and the state of the generator for the bags to come.
pub struct QueueModel {
    pub bag: Seq<PieceKind>,
    pub taken: int,
    pub state: u64,
}

impl QueueModel {
    /// The bag in hand is a bag and at least one piece of it is left.
    pub open spec fn wf(self) -> bool {
        is_bag(self.bag) && 0 <= self.taken < BAG_SIZE
    }

    /// The queue that a seed gives before any piece is drawn.
    pub open spec fn fresh(seed: u64) -> QueueModel {
        QueueModel { bag: bag_of(seed), taken: 0, state: state_after_bag(seed) }
    }

    /// The piece that comes `n` draws from now.
    pub open spec fn upcoming(self, n: int) -> PieceKind {
        if self.taken + n < BAG_SIZE {
            self.bag[self.taken + n]
        } else {
            stream(self.state, self.taken + n - BAG_SIZE)
        }
    }

    /// The queue after one piece is drawn. When the bag in hand is used up the next
    /// one is dealt at once.
    pub open spec fn after_draw(self) -> QueueModel {
        if self.taken + 1 < BAG_SIZE {
            QueueModel { bag: self.bag, taken: self.taken + 1, state: self.state }
        } else {
            QueueModel { bag: bag_of(self.state), taken: 0, state: state_after_bag(self.state) }
        }
    }
}

/// A generator of numbers that is started from a seed and deals shuffled bags.
#[derive(Clone, Copy, Debug)]
pub struct Randomizer {
    state: u64,
}

impl View for Randomizer {
    type V = u64;

    closed spec fn view(&self) -> u64 {
        self.state
    }
}

impl Randomizer {
    /// The generator in the state `seed`.
    pub fn new(seed: u64) -> (randomizer: Randomizer)
        ensures
            randomizer@ == seed,
    {
        Randomizer { state: seed }
    }

    fn step(&mut self) -> (state: u64)
        ensures
            state == next_state(old(self)@),
            final(self)@ == state,
    {
        self.state = ((self.state % MODULUS) * MULTIPLIER + INCREMENT) % MODULUS;
        self.state
    }

    /// Deals the next bag: the seven kinds, each once, in the order that the
    /// shuffle gives from the generator's state.
    pub fn next_bag(&mut self) -> (bag: Vec<PieceKind>)
        ensures
            bag@ == bag_of(old(self)@),
            final(self)@ == state_after_bag(old(self)@),
            is_bag(bag@),
    {
        let mut bag: Vec<PieceKind> = vec![
            PieceKind::I,
            PieceKind::O,
            PieceKind::S,
            PieceKind::Z,
            PieceKind::J,
            PieceKind::L,
            PieceKind::T,
        ];
        let mut i: usize = BAG_SIZE - 1;
        while i > 0
            invariant
                i < BAG_SIZE,
                bag@.len() == BAG_SIZE,
                shuffled(bag@, self@, i as int) == bag_of(old(self)@),
                advanced(self@, i as int) == state_after_bag(old(self)@),
            decreases i,
        {
            let state = self.step();
            let j = ((state / 65536) % (i as u64 + 1)) as usize;
            let upper = bag[i];
            let lower = bag[j];
            bag.set(i, lower);
            bag.set(j, upper);
            i = i - 1;
        }
        proof {
            lemma_bag_of_is_bag(old(self)@);
        }
        bag
    }
}

/// The queue from which the game takes its pieces, first in, first out.
#[derive(Clone, Debug)]
pub struct PieceQueue {
    bag: Vec<PieceKind>,
    taken: usize,
    randomizer: Randomizer,
}

impl View for PieceQueue {
    type V = QueueModel;

    closed spec fn view(&self) -> QueueModel {
        QueueModel { bag: self.bag@, taken: self.taken as int, state: self.randomizer@ }
    }
}

impl PieceQueue {
    /// The invariant of a queue: its model is well formed.
    pub open spec fn wf(&self) -> bool {
        self@.wf()
    }

    /// The queue that `seed` gives, with no piece drawn yet.
    pub fn new(seed: u64) -> (queue: PieceQueue)
        ensures
            queue.wf(),
            queue@ == QueueModel::fresh(seed),
    {
        let mut randomizer = Randomizer::new(seed);
        let bag = randomizer.next_bag();
        PieceQueue { bag, taken: 0, randomizer }
    }

    /// The piece that the next draw gives.
    pub fn peek(&self) -> (kind: PieceKind)
        requires
            self.wf(),
        ensures
            kind == self@.upcoming(0),
    {
        self.bag[self.taken]
    }

    /// Takes the next piece out of the queue.
    pub fn draw(&mut self) -> (kind: PieceKind)
        requires
            old(self).wf(),
        ensures
            final(self).wf(),
            kind == old(self)@.upcoming(0),
            final(self)@ == old(self)@.after_draw(),
    {
        let kind = self.bag[self.taken];
        if self.taken + 1 < BAG_SIZE {
            self.taken = self.taken + 1;
        } else {
            let bag = self.randomizer.next_bag();
            self.bag = bag;
            self.taken = 0;
        }
        kind
    }
}

/// Writing one entry of an order changes the count of a kind by what goes and what
/// comes.
proof fn lemma_occurrences_update(
    order: Seq<PieceKind>,
    kind: PieceKind,
    lo: int,
    hi: int,
    p: int,
    v: PieceKind,
)
    requires
        0 <= lo <= hi <= order.len(),
        0 <= p < order.len(),
    ensures
        occurrences(order.update(p, v), kind, lo, hi) == occurrences(order, kind, lo, hi) - (if lo
            <= p < hi && order[p] == kind {
            1int
        } else {
            0int
        }) + (if lo <= p < hi && v == kind {
            1int
        } else {
            0int
        }),
    decreases hi - lo,
{
    if hi > lo {
        lemma_occurrences_update(order, kind, lo, hi - 1, p, v);
    }
}

/// Exchanging two entries of a bag leaves a bag.
proof fn lemma_swapped_is_bag(order: Seq<PieceKind>, i: int, j: int)
    requires
        is_bag(order),
        0 <= i < BAG_SIZE,
        0 <= j < BAG_SIZE,
    ensures
        is_bag(swapped(order, i, j)),
{
    let first = order.update(i, order[j]);
    assert forall|kind: PieceKind| #[trigger]
        occurrences(swapped(order, i, j), kind, 0, BAG_SIZE as int) == 1 by {
        lemma_occurrences_update(order, kind, 0, BAG_SIZE as int, i, order[j]);
        lemma_occurrences_update(first, kind, 0, BAG_SIZE as int, j, order[i]);
    }
}

/// The shuffle turns a bag into a bag.
proof fn lemma_shuffled_is_bag(order: Seq<PieceKind>, state: u64, i: int)
    requires
        is_bag(order),
        0 <= i < BAG_SIZE,
    ensures
        is_bag(shuffled(order, state, i)),
    decreases i,
{
    if i > 0 {
        let next = next_state(state);
        lemma_swapped_is_bag(order, i, pick(next, i + 1));
        lemma_shuffled_is_bag(swapped(order, i, pick(next, i + 1)), next, i - 1);
    }
}

/// The seven kinds in their fixed order are a bag.
proof fn lemma_all_kinds_is_bag()
    ensures
        is_bag(all_kinds()),
{
    reveal_with_fuel(occurrences, 8);
    assert forall|kind: PieceKind| #[trigger]
        occurrences(all_kinds(), kind, 0, BAG_SIZE as int) == 1 by {
        let s = all_kinds();
        assert(s[0] == PieceKind::I && s[1] == PieceKind::O && s[2] == PieceKind::S && s[3]
            == PieceKind::Z && s[4] == PieceKind::J && s[5] == PieceKind::L && s[6]
            == PieceKind::T);
    }
}

/// Every bag that the generator deals holds each of the seven kinds once.
pub proof fn lemma_bag_of_is_bag(state: u64)
    ensures
        is_bag(bag_of(state)),
{
    lemma_all_kinds_is_bag();
    lemma_shuffled_is_bag(all_kinds(), state, BAG_SIZE - 1);
}

} // verus!

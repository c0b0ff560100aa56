//! What holds of the order in which pieces come: every bag is a permutation of the
//! seven kinds, and a kind cannot come more often than the bags allow.

use vstd::prelude::*;
use crate::bag::{
    bag_of, is_bag, lemma_bag_of_is_bag, nth_bag, occurrences, state_after_bag, stream,
    stream_count, QueueModel, BAG_SIZE,
};
use crate::piece::PieceKind;

verus! {

/// The state from which bag number `b` of the order that `seed` gives is dealt.
pub open spec fn bag_seed(seed: u64, b: int) -> u64
    decreases b,
{
    if b <= 0 {
        seed
    } else {
        bag_seed(state_after_bag(seed), b - 1)
    }
}

/// Draw `i` of bag `b` is entry `i` of the bag dealt from that bag's state.
proof fn lemma_stream_in_bag(seed: u64, b: int, i: int)
    requires
        0 <= b,
        0 <= i < BAG_SIZE,
    ensures
        stream(seed, BAG_SIZE * b + i) == bag_of(bag_seed(seed, b))[i],
    decreases b,
{
    if b > 0 {
        lemma_stream_in_bag(state_after_bag(seed), b - 1, i);
    }
}

/// Every seven draws that begin at a bag's boundary hold each of the seven kinds
/// exactly once.
pub proof fn law_bags_are_permutations(seed: u64, b: int)
    requires
        0 <= b,
    ensures
        is_bag(nth_bag(seed, b)),
{
    assert forall|i: int| 0 <= i < BAG_SIZE implies nth_bag(seed, b)[i] == bag_of(
        bag_seed(seed, b),
    )[i] by {
        lemma_stream_in_bag(seed, b, i);
    }
    lemma_bag_of_is_bag(bag_seed(seed, b));
    assert(nth_bag(seed, b) =~= bag_of(bag_seed(seed, b)));
}

/// A queue that has drawn no piece yet gives the order of its seed.
pub proof fn law_fresh_queue_follows_stream(seed: u64, n: int)
    requires
        0 <= n,
    ensures
        QueueModel::fresh(seed).upcoming(n) == stream(seed, n),
{
}

/// Drawing a piece moves the queue on by one: what came `n + 1` draws ahead now
/// comes `n` draws ahead.
pub proof fn law_draw_moves_on(queue: QueueModel, n: int)
    requires
        queue.wf(),
        0 <= n,
    ensures
        queue.after_draw().upcoming(n) == queue.upcoming(n + 1),
{
}

/// Counting a kind over two adjoining runs of draws adds up.
pub proof fn lemma_stream_count_split(seed: u64, kind: PieceKind, lo: int, mid: int, hi: int)
    requires
        lo <= mid <= hi,
    ensures
        stream_count(seed, kind, lo, hi) == stream_count(seed, kind, lo, mid) + stream_count(
            seed,
            kind,
            mid,
            hi,
        ),
        0 <= stream_count(seed, kind, mid, hi),
    decreases hi - mid,
{
    if hi > mid {
        lemma_stream_count_split(seed, kind, lo, mid, hi - 1);
    }
}

/// Counting a kind over the first draws of a bag is counting it in the bag.
proof fn lemma_stream_count_in_bag(seed: u64, kind: PieceKind, b: int, m: int)
    requires
        0 <= b,
        0 <= m <= BAG_SIZE,
    ensures
        stream_count(seed, kind, BAG_SIZE * b, BAG_SIZE * b + m) == occurrences(
            nth_bag(seed, b),
            kind,
            0,
            m,
        ),
    decreases m,
{
    if m > 0 {
        lemma_stream_count_in_bag(seed, kind, b, m - 1);
    }
}

/// Each kind comes exactly once among the draws of one bag.
pub proof fn law_once_in_a_bag(seed: u64, kind: PieceKind, b: int)
    requires
        0 <= b,
    ensures
        stream_count(seed, kind, BAG_SIZE * b, BAG_SIZE * b + BAG_SIZE) == 1,
{
    lemma_stream_count_in_bag(seed, kind, b, BAG_SIZE as int);
    law_bags_are_permutations(seed, b);
}

/// Within one bag a kind comes at most once, over whatever part of the bag's draws.
pub proof fn lemma_at_most_once_in_a_bag(seed: u64, kind: PieceKind, b: int, lo: int, hi: int)
    requires
        0 <= b,
        BAG_SIZE * b <= lo <= hi <= BAG_SIZE * b + BAG_SIZE,
    ensures
        0 <= stream_count(seed, kind, lo, hi) <= 1,
{
    let first = BAG_SIZE * b;
    law_once_in_a_bag(seed, kind, b);
    lemma_stream_count_split(seed, kind, first, lo, first + BAG_SIZE);
    lemma_stream_count_split(seed, kind, lo, hi, first + BAG_SIZE);
    lemma_stream_count_split(seed, kind, first, first, lo);
    lemma_stream_count_split(seed, kind, lo, lo, hi);
}

/// Among twelve draws in a row, wherever they begin, a kind comes more than twice
/// in one case only: the twelve draws reach into three bags, and the kind stands
/// both in what they hold of the first and in what they hold of the third. With
/// `first` the draw at which the bag of the first of the twelve begins, the kind
/// comes at most twice exactly when it does not come both among the draws from
/// `start` to the end of that bag and among those from `first + 14` on.
pub proof fn law_twelve_draws(seed: u64, kind: PieceKind, start: int)
    requires
        0 <= start,
    ensures
        stream_count(seed, kind, start, start + 12) <= 2 <==> !(stream_count(
            seed,
            kind,
            start,
            BAG_SIZE * (start / (BAG_SIZE as int)) + BAG_SIZE,
        ) == 1 && stream_count(
            seed,
            kind,
            BAG_SIZE * (start / (BAG_SIZE as int)) + 2 * BAG_SIZE,
            start + 12,
        ) == 1),
{
    let b = start / (BAG_SIZE as int);
    let first = BAG_SIZE * b;
    assert(first <= start <= first + 6);
    assert(BAG_SIZE * (b + 1) == first + BAG_SIZE);
    assert(BAG_SIZE * (b + 2) == first + 2 * BAG_SIZE);
    lemma_at_most_once_in_a_bag(seed, kind, b, start, first + BAG_SIZE);
    if start + 12 <= first + 2 * BAG_SIZE {
        lemma_at_most_once_in_a_bag(seed, kind, b + 1, first + BAG_SIZE, start + 12);
        lemma_stream_count_split(seed, kind, start, first + BAG_SIZE, start + 12);
    } else {
        law_once_in_a_bag(seed, kind, b + 1);
        lemma_at_most_once_in_a_bag(seed, kind, b + 2, first + 2 * BAG_SIZE, start + 12);
        lemma_stream_count_split(seed, kind, start, first + BAG_SIZE, start + 12);
        lemma_stream_count_split(seed, kind, first + BAG_SIZE, first + 2 * BAG_SIZE, start + 12);
    }
}

/// Twelve draws in a row that begin at most two draws after a bag's boundary lie
/// within two bags, and no kind comes more than twice among them.
pub proof fn law_twelve_draws_in_two_bags(seed: u64, kind: PieceKind, start: int)
    requires
        0 <= start,
        start % (BAG_SIZE as int) <= 2,
    ensures
        stream_count(seed, kind, start, start + 12) <= 2,
{
    law_twelve_draws(seed, kind, start);
}

/// Among any twelve draws in a row no kind comes more than three times.
pub proof fn law_twelve_draws_anywhere(seed: u64, kind: PieceKind, start: int)
    requires
        0 <= start,
    ensures
        stream_count(seed, kind, start, start + 12) <= 3,
{
    let b = start / (BAG_SIZE as int);
    let first = BAG_SIZE * b;
    assert(first <= start <= first + 6);
    assert(BAG_SIZE * (b + 1) == first + BAG_SIZE);
    assert(BAG_SIZE * (b + 2) == first + 2 * BAG_SIZE);
    law_once_in_a_bag(seed, kind, b);
    law_once_in_a_bag(seed, kind, b + 1);
    law_once_in_a_bag(seed, kind, b + 2);
    lemma_stream_count_split(seed, kind, first, first + BAG_SIZE, first + 3 * BAG_SIZE);
    lemma_stream_count_split(seed, kind, first + BAG_SIZE, first + 2 * BAG_SIZE, first + 3 * BAG_SIZE);
    lemma_stream_count_split(seed, kind, first, start, first + 3 * BAG_SIZE);
    lemma_stream_count_split(seed, kind, start, start + 12, first + 3 * BAG_SIZE);
    lemma_stream_count_split(seed, kind, first, first, start);
}

} // verus!

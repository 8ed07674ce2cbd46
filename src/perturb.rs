//! The discrete part of the neighbour step: how many single-coordinate edits
//! one step attempts, and which biscuit and axis each of them touches. The
//! size of each edit, and whether it keeps the biscuit strictly inside the
//! pan, is decided by the caller on its own coordinates.
use vstd::prelude::*;
use rand::rngs::SmallRng;
use crate::random::{coin, index_below};

verus! {

/// One attempted edit: move the biscuit at `index` along the x axis when
/// `along_x` holds, along the y axis otherwise.
#[derive(Clone, Copy, Debug, PartialEq, Eq, Structural)]
pub struct Move {
    pub index: usize,
    pub along_x: bool,
}

/// How many edits a step attempts at a temperature whose floor is
/// `temp_floor`, for `n` biscuits: one more than the floored temperature
/// times half the count, rounded up, so that larger problems get
/// proportionally more edits.
pub open spec fn attempts(temp_floor: nat, n: nat) -> nat {
    temp_floor * ((n + 1) / 2) + 1
}

/// The number of edits of one step, `attempts(temp_floor, n)`, saturated at
/// the largest `usize`.
pub fn attempt_count(temp_floor: usize, n: usize) -> (r: usize)
    ensures
        attempts(temp_floor as nat, n as nat) <= usize::MAX ==> r == attempts(
            temp_floor as nat,
            n as nat,
        ),
        attempts(temp_floor as nat, n as nat) > usize::MAX ==> r == usize::MAX,
{
    let scale: usize = n / 2 + n % 2;
    assert(scale == (n + 1) / 2);
    if scale == 0 {
        return 1;
    }
    let limit: usize = (usize::MAX - 1) / scale;
    if temp_floor > limit {
        assert(temp_floor * scale + 1 > usize::MAX) by (nonlinear_arith)
            requires
                scale > 0,
                limit == (usize::MAX - 1) / scale as int,
                temp_floor > limit,
        ;
        usize::MAX
    } else {
        assert(temp_floor * scale <= usize::MAX - 1) by (nonlinear_arith)
            requires
                scale > 0,
                limit == (usize::MAX - 1) / scale as int,
                temp_floor <= limit,
        ;
        temp_floor * scale + 1
    }
}

/// The moves of one step on a placement of `len` biscuits: `count` of them,
/// each on a biscuit drawn uniformly from the placement and along an axis
/// chosen by a fair coin.
pub fn plan_moves(rng: &mut SmallRng, len: usize, count: usize) -> (r: Vec<Move>)
    requires
        0 < len,
    ensures
        r.len() == count,
        forall|i: int| 0 <= i < r.len() ==> #[trigger] r@[i].index < len,
{
    let mut moves: Vec<Move> = Vec::new();
    let mut k: usize = 0;
    while k < count
        invariant
            0 < len,
            k <= count,
            moves.len() == k,
            forall|i: int| 0 <= i < moves.len() ==> #[trigger] moves@[i].index < len,
        decreases count - k,
    {
        let index = index_below(rng, len);
        let along_x = coin(rng);
        moves.push(Move { index, along_x });
        k = k + 1;
    }
    moves
}

} // verus!

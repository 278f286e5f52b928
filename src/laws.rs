//! What holds of every decision, proved from the definition of `decide`.
use vstd::prelude::*;

use crate::board::{Battlesnake, Board};
use crate::coord::{manhattan, Movements};
use crate::engine::{best_among, decide, is_safe, nearest_among, target};

verus! {

/// The distance from the cell that `d` leads to, to `goal`.
pub open spec fn reach(you: &Battlesnake, d: Movements, goal: (int, int)) -> int {
    manhattan(d.project(you.head@), goal)
}

proof fn lemma_rank_round_trip(d: Movements)
    ensures
        0 <= d.rank() < 4,
        Movements::at_rank(d.rank()) == d,
{
}

/// `best_among` over the first `k` moves is the safe move among them that ends
/// nearest to `goal`, the earliest of several at the same distance.
proof fn lemma_best_among(board: &Board, you: &Battlesnake, goal: (int, int), k: nat)
    requires
        k <= 4,
    ensures
        best_among(board, you, goal, k) is None <==> forall|d: Movements|
            d.rank() < k ==> !is_safe(board, you, d),
        best_among(board, you, goal, k) matches Some(b) ==> {
            &&& is_safe(board, you, b)
            &&& b.rank() < k
            &&& forall|d: Movements|
                d.rank() < k && is_safe(board, you, d) ==> reach(you, b, goal) <= reach(
                    you,
                    d,
                    goal,
                )
            &&& forall|d: Movements|
                d.rank() < b.rank() && is_safe(board, you, d) ==> reach(you, d, goal) > reach(
                    you,
                    b,
                    goal,
                )
        },
    decreases k,
{
    if k > 0 {
        lemma_best_among(board, you, goal, (k - 1) as nat);
        let c = Movements::at_rank(k - 1);
        assert(c.rank() == k - 1);
        assert forall|d: Movements| d.rank() < k ==> d.rank() < k - 1 || d == c by {
            lemma_rank_round_trip(d);
        }
    }
}

/// Whatever the board, the decision is one of the four moves.
pub proof fn lemma_decision_is_a_move(board: &Board, you: &Battlesnake)
    ensures
        0 <= decide(board, you).rank() < 4,
        Movements::at_rank(decide(board, you).rank()) == decide(board, you),
{
    lemma_rank_round_trip(decide(board, you));
}

/// With food on the board and a safe move at hand, the decision is a safe
/// move.
pub proof fn lemma_safe_when_possible(board: &Board, you: &Battlesnake, d: Movements)
    requires
        board.food@.len() > 0,
        is_safe(board, you, d),
    ensures
        is_safe(board, you, decide(board, you)),
{
    lemma_best_among(board, you, target(board, you), 4);
    lemma_rank_round_trip(d);
}

/// With no safe move, the decision is `Up`.
pub proof fn lemma_trapped_goes_up(board: &Board, you: &Battlesnake)
    requires
        forall|d: Movements| !is_safe(board, you, d),
    ensures
        decide(board, you) == Movements::Up,
{
    lemma_best_among(board, you, target(board, you), 4);
}

/// With no food on the board, the decision is `Up`.
pub proof fn lemma_no_food_goes_up(board: &Board, you: &Battlesnake)
    requires
        board.food@.len() == 0,
    ensures
        decide(board, you) == Movements::Up,
{
}

/// The target is a food item at the least distance from the head, and no
/// earlier item is as near.
pub proof fn lemma_target_is_nearest(board: &Board, you: &Battlesnake)
    requires
        board.food@.len() > 0,
    ensures
        0 <= nearest_among(board.food@, you.head@, board.food@.len()) < board.food@.len(),
        target(board, you) == board.food@[nearest_among(
            board.food@,
            you.head@,
            board.food@.len(),
        )]@,
        forall|j: int|
            0 <= j < board.food@.len() ==> manhattan(target(board, you), you.head@) <= manhattan(
                #[trigger] board.food@[j]@,
                you.head@,
            ),
        forall|j: int|
            0 <= j < nearest_among(board.food@, you.head@, board.food@.len()) ==> manhattan(
                target(board, you),
                you.head@,
            ) < manhattan(#[trigger] board.food@[j]@, you.head@),
{
    lemma_nearest_among(board.food@, you.head@, board.food@.len());
}

proof fn lemma_nearest_among(food: Seq<crate::coord::Coord>, from: (int, int), n: nat)
    requires
        1 <= n <= food.len(),
    ensures
        0 <= nearest_among(food, from, n) < n,
        forall|j: int|
            0 <= j < n ==> manhattan(food[nearest_among(food, from, n)]@, from) <= manhattan(
                #[trigger] food[j]@,
                from,
            ),
        forall|j: int|
            0 <= j < nearest_among(food, from, n) ==> manhattan(
                food[nearest_among(food, from, n)]@,
                from,
            ) < manhattan(#[trigger] food[j]@, from),
    decreases n,
{
    if n > 1 {
        lemma_nearest_among(food, from, (n - 1) as nat);
    }
}

/// Among the safe moves, the decision ends nearest to the target.
pub proof fn lemma_decision_is_nearest(board: &Board, you: &Battlesnake, d: Movements)
    requires
        board.food@.len() > 0,
        is_safe(board, you, d),
    ensures
        reach(you, decide(board, you), target(board, you)) <= reach(you, d, target(board, you)),
{
    lemma_best_among(board, you, target(board, you), 4);
    lemma_rank_round_trip(d);
}

/// Of two safe moves that end equally near the target, the later one in the
/// order Up, Down, Left, Right is not chosen.
pub proof fn lemma_ties_go_to_earlier(
    board: &Board,
    you: &Battlesnake,
    first: Movements,
    second: Movements,
)
    requires
        is_safe(board, you, first),
        is_safe(board, you, second),
        first.rank() < second.rank(),
        reach(you, first, target(board, you)) == reach(you, second, target(board, you)),
    ensures
        decide(board, you) != second,
{
    lemma_best_among(board, you, target(board, you), 4);
    lemma_rank_round_trip(first);
}

} // verus!

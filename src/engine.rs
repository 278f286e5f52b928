//! The move decision: keep the moves that stay on the grid and off every
//! body and hazard, then take the one that ends nearest to the food closest
//! to the head.
use vstd::prelude::*;

use crate::board::{holds_cell, Battlesnake, Board};
use crate::coord::{manhattan, Coord, Movements};

verus! {

/// The answer to one turn: a move and an optional remark.
#[derive(Debug)]
pub struct MoveResponse {
    pub direction: Movements,
    pub shout: String,
}

/// Whether moving `d` from the controlled snake's head stays on the grid and
/// ends on a cell without a hazard or a snake's body.
pub open spec fn is_safe(board: &Board, you: &Battlesnake, d: Movements) -> bool {
    let p = d.project(you.head@);
    board.contains_at(p) && !board.blocked_at(you, p)
}

/// Index of the item nearest to `from` among the first `n` items of `food`;
/// of several at the same distance, the first.
pub open spec fn nearest_among(food: Seq<Coord>, from: (int, int), n: nat) -> int
    decreases n,
{
    if n <= 1 {
        0
    } else {
        let k = nearest_among(food, from, (n - 1) as nat);
        if manhattan(food[n - 1]@, from) < manhattan(food[k]@, from) {
            n - 1
        } else {
            k
        }
    }
}

/// The food that the snake heads for: the one nearest to its head, the first
/// of several at the same distance.
pub open spec fn target(board: &Board, you: &Battlesnake) -> (int, int) {
    board.food@[nearest_among(board.food@, you.head@, board.food@.len())]@
}

/// The best safe move among the first `k` moves of the fixed order: the one
/// ending nearest to `goal`, the earliest of several at the same distance.
pub open spec fn best_among(board: &Board, you: &Battlesnake, goal: (int, int), k: nat) -> Option<
    Movements,
>
    decreases k,
{
    if k == 0 {
        None
    } else {
        let prev = best_among(board, you, goal, (k - 1) as nat);
        let d = Movements::at_rank(k - 1);
        if !is_safe(board, you, d) {
            prev
        } else {
            match prev {
                None => Some(d),
                Some(b) => if manhattan(d.project(you.head@), goal) < manhattan(
                    b.project(you.head@),
                    goal,
                ) {
                    Some(d)
                } else {
                    Some(b)
                },
            }
        }
    }
}

/// The move chosen for a turn. Without food, or without a safe move, it is
/// `Up`.
pub open spec fn decide(board: &Board, you: &Battlesnake) -> Movements {
    if board.food@.len() == 0 {
        Movements::Up
    } else {
        match best_among(board, you, target(board, you), 4) {
            Some(d) => d,
            None => Movements::Up,
        }
    }
}

/// Manhattan distance between two cells, computed without overflow.
pub fn distance(a: Coord, b: Coord) -> (r: i64)
    ensures
        r == manhattan(a@, b@),
{
    let dx: i64 = a.x as i64 - b.x as i64;
    let dy: i64 = a.y as i64 - b.y as i64;
    let ax: i64 = if dx < 0 { -dx } else { dx };
    let ay: i64 = if dy < 0 { -dy } else { dy };
    ax + ay
}

/// The food nearest to `from`; of several at the same distance, the first.
pub fn closest_food(food: &Vec<Coord>, from: Coord) -> (r: Coord)
    requires
        food@.len() > 0,
    ensures
        r@ == food@[nearest_among(food@, from@, food@.len())]@,
{
    let mut k: usize = 0;
    let mut best: i64 = distance(food[0], from);
    let mut i: usize = 1;
    while i < food.len()
        invariant
            1 <= i <= food@.len(),
            k == nearest_among(food@, from@, i as nat),
            k < i,
            best == manhattan(food@[k as int]@, from@),
        decreases food@.len() - i,
    {
        let dist = distance(food[i], from);
        if dist < best {
            k = i;
            best = dist;
        }
        i += 1;
    }
    food[k]
}

/// Chooses the move for one turn of `you` on `board`: among the safe moves,
/// the one ending nearest to the food closest to the head, the earliest in
/// the order Up, Down, Left, Right on a tie; `Up` when there is no food or
/// no safe move.
pub fn on_turn(board: &Board, you: &Battlesnake) -> (r: MoveResponse)
    ensures
        r.direction == decide(board, you),
        r.shout@ == Seq::<char>::empty(),
{
    if board.food.len() == 0 {
        return MoveResponse { direction: Movements::Up, shout: String::new() };
    }
    let head = you.head;
    let occupied = board.occupied_cells(you);
    let goal = closest_food(&board.food, head);
    let moves = Movements::all();
    let mut best: Option<Movements> = None;
    let mut best_dist: i64 = 0;
    let mut i: usize = 0;
    while i < 4
        invariant
            i <= 4,
            head == you.head,
            goal@ == target(board, you),
            forall|j: int| 0 <= j < 4 ==> #[trigger] moves@[j] == Movements::at_rank(j),
            forall|p: (int, int)|
                holds_cell(occupied@, p) <==> board.occupied_at(you, p),
            best == best_among(board, you, goal@, i as nat),
            best matches Some(b) ==> best_dist == manhattan(b.project(head@), goal@),
        decreases 4 - i,
    {
        let d = moves[i];
        assert(d == Movements::at_rank(i as int));
        if let Some(next) = d.step(head) {
            if board.in_bounds(next) && !board.is_blocked(&occupied, next) {
                let dist = distance(next, goal);
                let better = match best {
                    None => true,
                    Some(_) => dist < best_dist,
                };
                if better {
                    best = Some(d);
                    best_dist = dist;
                }
            }
        }
        i += 1;
    }
    let direction = match best {
        Some(d) => d,
        None => Movements::Up,
    };
    MoveResponse { direction, shout: String::new() }
}

} // verus!

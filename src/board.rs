//! One turn's snapshot of the game: the grid, its food and hazards, and the
//! snakes on it.
use std::collections::HashMap;
use vstd::prelude::*;

use crate::coord::Coord;

verus! {

/// Declares `serde_json::Value` so that ruleset settings can hold it; no
/// verified code looks inside such a value.
#[verifier::external_type_specification]
#[verifier::external_body]
pub struct ExJsonValue(serde_json::Value);

/// The rules a game is played under; `settings` keeps whatever the game
/// engine sends, in whatever shape it has.
#[derive(Debug)]
pub struct Ruleset {
    pub name: String,
    pub version: String,
    pub settings: HashMap<String, serde_json::Value>,
}

/// Metadata of one game.
#[derive(Debug)]
pub struct Game {
    pub id: String,
    pub ruleset: Ruleset,
    pub map: String,
    pub timeout: i32,
    pub source: String,
}

/// Cosmetic choices of a snake.
#[derive(Debug)]
pub struct Customizations {
    pub color: String,
    pub head: String,
    pub tail: String,
}

/// A snake on the board. `body` runs from the head to the tail.
#[derive(Debug)]
pub struct Battlesnake {
    pub id: String,
    pub name: String,
    pub health: i32,
    pub body: Vec<Coord>,
    pub latency: String,
    pub head: Coord,
    pub length: i32,
    pub shout: String,
    pub squad: Option<String>,
    pub customizations: Customizations,
}

/// The grid `[0, width) x [0, height)` with what lies on it.
#[derive(Debug)]
pub struct Board {
    pub height: i32,
    pub width: i32,
    pub food: Vec<Coord>,
    pub hazards: Vec<Coord>,
    pub snakes: Vec<Battlesnake>,
}

/// What the game engine sends each turn.
#[derive(Debug)]
pub struct EngineInput {
    pub game: Game,
    pub turn: i32,
    pub board: Board,
    pub you: Battlesnake,
}

/// Whether some element of `cells` is the cell `p`.
pub open spec fn holds_cell(cells: Seq<Coord>, p: (int, int)) -> bool {
    exists|j: int| 0 <= j < cells.len() && #[trigger] cells[j]@ == p
}

pub fn contains_cell(cells: &Vec<Coord>, c: Coord) -> (r: bool)
    ensures
        r == holds_cell(cells@, c@),
{
    let mut i: usize = 0;
    while i < cells.len()
        invariant
            i <= cells@.len(),
            forall|j: int| 0 <= j < i ==> cells@[j]@ != c@,
        decreases cells@.len() - i,
    {
        if cells[i] == c {
            return true;
        }
        i += 1;
    }
    false
}

impl Board {
    /// Whether the cell `p` lies inside the grid.
    pub open spec fn contains_at(&self, p: (int, int)) -> bool {
        0 <= p.0 < self.width && 0 <= p.1 < self.height
    }

    /// Whether the cell `p` is part of some snake's body, `you`'s included.
    pub open spec fn occupied_at(&self, you: &Battlesnake, p: (int, int)) -> bool {
        holds_cell(you.body@, p) || exists|i: int|
            0 <= i < self.snakes.len() && holds_cell(#[trigger] self.snakes@[i].body@, p)
    }

    /// Whether the cell `p` holds a hazard or a snake's body.
    pub open spec fn blocked_at(&self, you: &Battlesnake, p: (int, int)) -> bool {
        holds_cell(self.hazards@, p) || self.occupied_at(you, p)
    }

    pub fn in_bounds(&self, c: Coord) -> (r: bool)
        ensures
            r == self.contains_at(c@),
    {
        0 <= c.x && c.x < self.width && 0 <= c.y && c.y < self.height
    }

    /// Every snake's body cells, `you`'s first, merged into one list.
    pub fn occupied_cells(&self, you: &Battlesnake) -> (r: Vec<Coord>)
        ensures
            forall|p: (int, int)| holds_cell(r@, p) <==> self.occupied_at(you, p),
    {
        let mut cells: Vec<Coord> = Vec::new();
        append_cells(&mut cells, &you.body);
        assert forall|p: (int, int)| holds_cell(cells@, p) <==> holds_cell(you.body@, p) by {
            assert(cells@ =~= you.body@);
        }
        let mut i: usize = 0;
        while i < self.snakes.len()
            invariant
                i <= self.snakes@.len(),
                forall|p: (int, int)| holds_cell(cells@, p) <==> (holds_cell(you.body@, p)
                    || exists|k: int| 0 <= k < i && holds_cell(#[trigger] self.snakes@[k].body@, p)),
            decreases self.snakes@.len() - i,
        {
            let ghost before = cells@;
            append_cells(&mut cells, &self.snakes[i].body);
            assert forall|p: (int, int)| holds_cell(cells@, p) <==> (holds_cell(you.body@, p)
                || exists|k: int| 0 <= k < i + 1 && holds_cell(#[trigger] self.snakes@[k].body@, p)) by {
                lemma_holds_cell_concat(before, self.snakes@[i as int].body@, p);
                if holds_cell(self.snakes@[i as int].body@, p) {
                    assert(0 <= i < i + 1 && holds_cell(self.snakes@[i as int].body@, p));
                }
            }
            i += 1;
        }
        cells
    }

    /// Whether `c` holds a hazard or one of the `occupied` cells.
    pub fn is_blocked(&self, occupied: &Vec<Coord>, c: Coord) -> (r: bool)
        ensures
            r == (holds_cell(self.hazards@, c@) || holds_cell(occupied@, c@)),
    {
        contains_cell(&self.hazards, c) || contains_cell(occupied, c)
    }
}

fn append_cells(cells: &mut Vec<Coord>, more: &Vec<Coord>)
    ensures
        final(cells)@ == old(cells)@ + more@,
{
    let ghost start = cells@;
    let mut i: usize = 0;
    while i < more.len()
        invariant
            i <= more@.len(),
            start == old(cells)@,
            cells@ == start + more@.subrange(0, i as int),
        decreases more@.len() - i,
    {
        cells.push(more[i]);
        proof {
            assert(more@.subrange(0, i + 1) =~= more@.subrange(0, i as int).push(more@[i as int]));
        }
        i += 1;
    }
    assert(more@.subrange(0, more@.len() as int) =~= more@);
}

/// A cell is in a concatenation exactly when it is in one of its parts.
proof fn lemma_holds_cell_concat(a: Seq<Coord>, b: Seq<Coord>, p: (int, int))
    ensures
        holds_cell(a + b, p) <==> (holds_cell(a, p) || holds_cell(b, p)),
{
    if holds_cell(a + b, p) {
        let j = choose|j: int| 0 <= j < (a + b).len() && #[trigger] (a + b)[j]@ == p;
        if j >= a.len() {
            assert(b[j - a.len()]@ == p);
        }
    }
    if holds_cell(a, p) {
        let j = choose|j: int| 0 <= j < a.len() && #[trigger] a[j]@ == p;
        assert((a + b)[j]@ == p);
    }
    if holds_cell(b, p) {
        let j = choose|j: int| 0 <= j < b.len() && #[trigger] b[j]@ == p;
        assert((a + b)[a.len() + j]@ == p);
    }
}

} // verus!

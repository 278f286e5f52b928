use std::collections::HashMap;

use battlesnake::board::{contains_cell, Battlesnake, Board, Customizations, EngineInput, Game, Ruleset};
use battlesnake::config::{describe_agent, SnakeConfig};
use battlesnake::coord::{Coord, Movements};
use battlesnake::engine::{closest_food, distance, on_turn};

fn c(x: i32, y: i32) -> Coord {
    Coord::new(x, y)
}

fn snake(head: Coord, body: Vec<Coord>) -> Battlesnake {
    Battlesnake {
        id: "you".to_string(),
        name: "you".to_string(),
        health: 100,
        length: body.len() as i32,
        body,
        latency: "0".to_string(),
        head,
        shout: String::new(),
        squad: None,
        customizations: Customizations {
            color: "#00E6BF".to_string(),
            head: "default".to_string(),
            tail: "default".to_string(),
        },
    }
}

fn board(width: i32, height: i32, food: Vec<Coord>, hazards: Vec<Coord>, snakes: Vec<Battlesnake>) -> Board {
    Board { height, width, food, hazards, snakes }
}

#[test]
fn head_moves_straight_to_food_above() {
    let you = snake(c(5, 5), vec![c(5, 5)]);
    let b = board(11, 11, vec![c(5, 7)], vec![], vec![snake(c(5, 5), vec![c(5, 5)])]);
    assert_eq!(on_turn(&b, &you).direction, Movements::Up);
}

#[test]
fn corner_trap_falls_back_to_up() {
    let you = snake(c(0, 0), vec![c(0, 0)]);
    let b = board(11, 11, vec![c(10, 10)], vec![c(0, 1), c(1, 0)], vec![]);
    assert_eq!(on_turn(&b, &you).direction, Movements::Up);
}

#[test]
fn corner_trap_by_bodies_falls_back_to_up() {
    let you = snake(c(0, 0), vec![c(0, 0), c(0, 1)]);
    let other = snake(c(1, 0), vec![c(1, 0), c(2, 0)]);
    let b = board(11, 11, vec![c(10, 10)], vec![], vec![other]);
    assert_eq!(on_turn(&b, &you).direction, Movements::Up);
}

#[test]
fn no_food_falls_back_to_up() {
    let you = snake(c(5, 5), vec![c(5, 5), c(5, 6)]);
    let b = board(11, 11, vec![], vec![c(4, 5)], vec![]);
    assert_eq!(on_turn(&b, &you).direction, Movements::Up);
}

#[test]
fn no_food_on_a_crowded_board_falls_back_to_up() {
    let you = snake(c(3, 3), vec![c(3, 3), c(3, 4), c(4, 4)]);
    let other = snake(c(2, 3), vec![c(2, 3), c(2, 2), c(3, 2)]);
    let b = board(7, 7, vec![], vec![c(4, 3)], vec![other]);
    assert_eq!(on_turn(&b, &you).direction, Movements::Up);
}

#[test]
fn equidistant_food_first_in_order_is_the_target() {
    let you = snake(c(3, 3), vec![c(3, 3)]);
    let b = board(11, 11, vec![c(3, 5), c(5, 3)], vec![], vec![]);
    assert_eq!(on_turn(&b, &you).direction, Movements::Up);
    let b = board(11, 11, vec![c(5, 3), c(3, 5)], vec![], vec![]);
    assert_eq!(on_turn(&b, &you).direction, Movements::Right);
    let b = board(11, 11, vec![c(5, 3), c(3, 5)], vec![], vec![]);
    assert_eq!(on_turn(&b, &you).direction, Movements::Right);
}

#[test]
fn safe_move_is_taken_when_food_side_is_blocked() {
    // food lies above, but the cell above is a hazard: Left and Right tie, Left comes first
    let you = snake(c(5, 5), vec![c(5, 5), c(5, 4)]);
    let b = board(11, 11, vec![c(5, 8)], vec![c(5, 6)], vec![]);
    assert_eq!(on_turn(&b, &you).direction, Movements::Left);
}

#[test]
fn only_safe_move_is_taken_even_away_from_food() {
    let you = snake(c(0, 5), vec![c(0, 5), c(0, 4)]);
    let b = board(11, 11, vec![c(0, 9)], vec![c(0, 6)], vec![]);
    assert_eq!(on_turn(&b, &you).direction, Movements::Right);
}

#[test]
fn nearest_safe_move_wins() {
    // food down and to the right: Down and Right both bring it one closer; Down comes first
    let you = snake(c(5, 5), vec![c(5, 5)]);
    let b = board(11, 11, vec![c(8, 2)], vec![], vec![]);
    assert_eq!(on_turn(&b, &you).direction, Movements::Down);
    let b = board(11, 11, vec![c(8, 2)], vec![c(5, 4)], vec![]);
    assert_eq!(on_turn(&b, &you).direction, Movements::Right);
}

#[test]
fn own_body_blocks_like_any_other() {
    let you = snake(c(5, 5), vec![c(5, 5), c(4, 5), c(4, 4)]);
    let b = board(11, 11, vec![c(0, 5)], vec![], vec![]);
    // Left is the own neck; Up and Down tie at distance 6, Up comes first
    assert_eq!(on_turn(&b, &you).direction, Movements::Up);
}

#[test]
fn other_snakes_block() {
    // Up is another snake, Down the own neck; Left and Right tie, Left comes first
    let you = snake(c(5, 5), vec![c(5, 5), c(5, 4)]);
    let other = snake(c(5, 6), vec![c(5, 6), c(5, 7)]);
    let b = board(11, 11, vec![c(5, 9)], vec![], vec![other]);
    assert_eq!(on_turn(&b, &you).direction, Movements::Left);
}

#[test]
fn edge_of_the_grid_is_not_crossed() {
    let you = snake(c(10, 10), vec![c(10, 10)]);
    let b = board(11, 11, vec![c(10, 10)], vec![], vec![]);
    // Up and Right leave the grid; Down and Left tie, Down comes first
    assert_eq!(on_turn(&b, &you).direction, Movements::Down);
}

#[test]
fn extreme_head_does_not_overflow() {
    let you = snake(c(i32::MAX, i32::MIN), vec![c(i32::MAX, i32::MIN)]);
    let b = board(i32::MAX, i32::MAX, vec![c(i32::MIN, i32::MAX)], vec![], vec![]);
    assert_eq!(on_turn(&b, &you).direction, Movements::Up);
}

#[test]
fn shout_is_empty() {
    let you = snake(c(5, 5), vec![c(5, 5)]);
    let b = board(11, 11, vec![c(5, 7)], vec![], vec![]);
    assert_eq!(on_turn(&b, &you).shout, "");
}

#[test]
fn repeated_decisions_agree() {
    let you = snake(c(2, 2), vec![c(2, 2), c(2, 1)]);
    let b = board(6, 6, vec![c(5, 2), c(2, 5)], vec![c(3, 2)], vec![]);
    let first = on_turn(&b, &you).direction;
    assert_eq!(first, Movements::Up);
    assert_eq!(on_turn(&b, &you).direction, first);
}

#[test]
fn manhattan_distance_values() {
    assert_eq!(distance(c(1, 2), c(4, 0)), 5);
    assert_eq!(distance(c(4, 0), c(1, 2)), 5);
    assert_eq!(distance(c(3, 3), c(3, 3)), 0);
    assert_eq!(distance(c(i32::MIN, i32::MIN), c(i32::MAX, i32::MAX)), 2 * 4294967295i64);
}

#[test]
fn closest_food_keeps_first_of_equals() {
    let food = vec![c(9, 9), c(3, 5), c(5, 3), c(3, 1)];
    assert_eq!(closest_food(&food, c(3, 3)), c(3, 5));
    let food = vec![c(9, 9), c(4, 3)];
    assert_eq!(closest_food(&food, c(3, 3)), c(4, 3));
}

#[test]
fn moves_have_unit_deltas() {
    assert_eq!(Movements::Up.coords(), c(0, 1));
    assert_eq!(Movements::Down.coords(), c(0, -1));
    assert_eq!(Movements::Left.coords(), c(-1, 0));
    assert_eq!(Movements::Right.coords(), c(1, 0));
    assert_eq!(Movements::all(), [Movements::Up, Movements::Down, Movements::Left, Movements::Right]);
}

#[test]
fn steps_and_sums() {
    assert_eq!(c(2, 3).add(c(-1, 4)), c(1, 7));
    assert_eq!(Movements::Left.step(c(2, 3)), Some(c(1, 3)));
    assert_eq!(Movements::Up.step(c(2, i32::MAX)), None);
    assert_eq!(Movements::Left.step(c(i32::MIN, 0)), None);
    assert_eq!(Movements::Down.step(c(0, i32::MIN)), None);
    assert_eq!(Movements::Right.step(c(i32::MAX, 0)), None);
}

#[test]
fn board_queries() {
    let you = snake(c(1, 1), vec![c(1, 1), c(1, 2)]);
    let other = snake(c(3, 3), vec![c(3, 3), c(3, 4)]);
    let b = board(5, 6, vec![c(0, 0)], vec![c(4, 4)], vec![other]);
    assert!(b.in_bounds(c(0, 0)));
    assert!(b.in_bounds(c(4, 5)));
    assert!(!b.in_bounds(c(5, 0)));
    assert!(!b.in_bounds(c(0, 6)));
    assert!(!b.in_bounds(c(-1, 2)));
    let occupied = b.occupied_cells(&you);
    assert_eq!(occupied, vec![c(1, 1), c(1, 2), c(3, 3), c(3, 4)]);
    assert!(b.is_blocked(&occupied, c(4, 4)));
    assert!(b.is_blocked(&occupied, c(1, 2)));
    assert!(b.is_blocked(&occupied, c(3, 4)));
    assert!(!b.is_blocked(&occupied, c(2, 2)));
    assert!(contains_cell(&occupied, c(3, 3)));
    assert!(!contains_cell(&occupied, c(0, 0)));
}

#[test]
fn agent_description_is_constant() {
    let a = describe_agent();
    let b = describe_agent();
    assert_eq!(a.apiversion, "1");
    assert_eq!(a.author, "dvalinn");
    assert_eq!(a.color, "#00E6BF");
    assert_eq!(a.head, "default");
    assert_eq!(a.tail, "default");
    assert_eq!(a.version, "0.0.1-alpha.0");
    assert_eq!(format!("{:?}", a), format!("{:?}", b));
    assert_eq!(format!("{:?}", SnakeConfig::default()), format!("{:?}", a));
}

#[test]
fn engine_input_carries_the_board() {
    let input = EngineInput {
        game: Game {
            id: "g".to_string(),
            ruleset: Ruleset {
                name: "standard".to_string(),
                version: "v1".to_string(),
                settings: HashMap::new(),
            },
            map: "standard".to_string(),
            timeout: 500,
            source: "custom".to_string(),
        },
        turn: 3,
        board: board(11, 11, vec![c(5, 3)], vec![], vec![]),
        you: snake(c(5, 5), vec![c(5, 5), c(5, 6)]),
    };
    assert_eq!(on_turn(&input.board, &input.you).direction, Movements::Down);
}

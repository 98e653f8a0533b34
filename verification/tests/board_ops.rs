//! Tests of the board: lane navigation, the cross-lane card move and its
//! count preservation, and reading the highlighted card.

use kanban::board::{Board, MoveDirection, NavDirection};
use kanban::card::Card;
use kanban::errors::KanbanError;
use kanban::input::Config;

fn fresh_board() -> Board {
    let config = Config::default();
    Board::new(&config.lane_names)
}

fn total_card_count(board: &Board) -> usize {
    let mut total: usize = 0;
    for i in 0..board.lane_count() {
        total += board.lane(i).cards.len();
    }
    total
}

#[test]
fn new_board_has_named_empty_lanes() {
    let board = fresh_board();
    assert_eq!(board.lane_count(), 4);
    assert_eq!(board.current_lane(), 0);
    assert_eq!(board.lane(0).name, "Todo");
    assert_eq!(board.lane(1).name, "In Progress");
    assert_eq!(board.lane(2).name, "Finished");
    assert_eq!(board.lane(3).name, "In review");
    for i in 0..4 {
        assert_eq!(board.lane(i).cards.len(), 0);
        assert_eq!(board.lane(i).cards.selected_index(), None);
    }
}

#[test]
fn navigate_switches_focus_and_selection() {
    let mut board = fresh_board();
    board.push_card(0, Card::new("first".to_string(), 0));
    board.push_card(1, Card::new("second".to_string(), 0));
    board.select_next();
    assert_eq!(board.lane(0).cards.selected_index(), Some(0));
    assert_eq!(board.navigate(NavDirection::Right), Ok(()));
    assert_eq!(board.current_lane(), 1);
    // The lane left behind is unselected, the new lane selects a card.
    assert_eq!(board.lane(0).cards.selected_index(), None);
    assert_eq!(board.lane(1).cards.selected_index(), Some(0));
}

#[test]
fn navigate_does_not_wrap_at_either_end() {
    let mut board = fresh_board();
    assert_eq!(board.navigate(NavDirection::Left), Err(KanbanError::AtBoundary));
    assert_eq!(board.current_lane(), 0);
    for _ in 0..3 {
        assert_eq!(board.navigate(NavDirection::Right), Ok(()));
    }
    assert_eq!(board.current_lane(), 3);
    assert_eq!(board.navigate(NavDirection::Right), Err(KanbanError::AtBoundary));
    assert_eq!(board.current_lane(), 3);
}

#[test]
fn move_transfers_the_selected_card() {
    let mut board = fresh_board();
    board.push_card(0, Card::new("stays".to_string(), 0));
    board.push_card(0, Card::new("moves".to_string(), 0));
    board.select_next();
    board.select_next();
    assert_eq!(board.lane(0).cards.selected_index(), Some(1));
    let before = total_card_count(&board);
    assert_eq!(board.move_current_card(MoveDirection::Next), Ok(()));
    assert_eq!(total_card_count(&board), before);
    assert_eq!(board.lane(0).cards.len(), 1);
    assert_eq!(board.lane(0).cards.items()[0].title, "stays");
    assert_eq!(board.lane(1).cards.len(), 1);
    assert_eq!(board.lane(1).cards.items()[0].title, "moves");
    assert_eq!(board.current_lane(), 1);
    assert_eq!(board.lane(1).cards.selected_index(), Some(0));
    // The source lane's selection was cleared by the move.
    assert_eq!(board.lane(0).cards.selected_index(), None);
}

#[test]
fn move_at_last_lane_is_a_noop() {
    let mut board = fresh_board();
    board.push_card(3, Card::new("resting".to_string(), 0));
    for _ in 0..3 {
        board.navigate(NavDirection::Right).unwrap();
    }
    assert_eq!(board.current_lane(), 3);
    assert_eq!(board.lane(3).cards.selected_index(), Some(0));
    let before = total_card_count(&board);
    assert_eq!(board.move_current_card(MoveDirection::Next), Err(KanbanError::AtBoundary));
    assert_eq!(board.current_lane(), 3);
    assert_eq!(board.lane(3).cards.len(), 1);
    assert_eq!(board.lane(3).cards.selected_index(), Some(0));
    assert_eq!(total_card_count(&board), before);
}

#[test]
fn move_at_first_lane_is_a_noop() {
    let mut board = fresh_board();
    board.push_card(0, Card::new("resting".to_string(), 0));
    board.select_next();
    assert_eq!(board.move_current_card(MoveDirection::Previous), Err(KanbanError::AtBoundary));
    assert_eq!(board.current_lane(), 0);
    assert_eq!(board.lane(0).cards.len(), 1);
}

#[test]
fn move_without_selection_is_a_noop() {
    let mut board = fresh_board();
    board.push_card(0, Card::new("unselected".to_string(), 0));
    assert_eq!(board.move_current_card(MoveDirection::Next), Err(KanbanError::EmptySelection));
    assert_eq!(board.lane(0).cards.len(), 1);
    assert_eq!(board.lane(1).cards.len(), 0);
    assert_eq!(board.current_lane(), 0);
}

#[test]
fn get_current_card_is_safe_without_selection() {
    let mut board = fresh_board();
    assert!(board.get_current_card().is_none());
    board.push_card(0, Card::new("reachable".to_string(), 3));
    assert!(board.get_current_card().is_none());
    board.select_next();
    let card = board.get_current_card().expect("a card is selected");
    assert_eq!(card.title, "reachable");
    assert_eq!(card.priority, 3);
    assert!(card.description.is_empty());
}

#[test]
fn append_description_reaches_the_right_card() {
    let mut board = fresh_board();
    board.push_card(0, Card::new("first".to_string(), 0));
    board.push_card(0, Card::new("second".to_string(), 0));
    board.append_description(0, 1, "note".to_string());
    assert!(board.lane(0).cards.items()[0].description.is_empty());
    assert_eq!(board.lane(0).cards.items()[1].description, vec!["note".to_string()]);
}

#[test]
fn default_card_is_blank() {
    let card = Card::default();
    assert_eq!(card.title, "");
    assert!(card.description.is_empty());
    assert_eq!(card.priority, 0);
}

//! Tests of the input-mode state machine: buffer editing, the title-length
//! and empty-paragraph guards, card creation, and the full keyboard
//! scenario from an empty board to a moved card.

use kanban::board::Board;
use kanban::errors::KanbanError;
use kanban::input::{Config, CreatePolicy, InputController, InputMode, KeyEvent, Signal};

fn setup() -> (InputController, Board, Config) {
    let config = Config::default();
    let board = Board::new(&config.lane_names);
    (InputController::new(), board, config)
}

fn type_str(
    controller: &mut InputController,
    board: &mut Board,
    config: &Config,
    text: &str,
) {
    for c in text.chars() {
        assert_eq!(controller.handle(board, config, KeyEvent::Char(c)), Ok(Signal::Continue));
    }
}

#[test]
fn title_of_six_rejected_seven_accepted() {
    let (mut controller, mut board, config) = setup();
    controller.handle(&mut board, &config, KeyEvent::Char('t')).unwrap();
    assert_eq!(controller.mode(), InputMode::TitleEntry);
    type_str(&mut controller, &mut board, &config, "Sixchr");
    assert_eq!(controller.buffer_len(), 6);
    assert_eq!(
        controller.handle(&mut board, &config, KeyEvent::Commit),
        Err(KanbanError::InputRejected)
    );
    assert_eq!(controller.mode(), InputMode::TitleEntry);
    assert_eq!(controller.buffer_len(), 6);
    assert_eq!(board.lane(0).cards.len(), 0);
    type_str(&mut controller, &mut board, &config, "s");
    assert_eq!(controller.buffer_len(), 7);
    assert_eq!(controller.handle(&mut board, &config, KeyEvent::Commit), Ok(Signal::Continue));
    assert_eq!(controller.mode(), InputMode::DescriptionEntry);
    assert_eq!(controller.buffer_len(), 0);
    assert_eq!(board.lane(0).cards.len(), 1);
    assert_eq!(board.lane(0).cards.items()[0].title, "Sixchrs");
}

#[test]
fn scenario_create_describe_and_move_forward() {
    let (mut controller, mut board, config) = setup();
    assert_eq!(board.current_lane(), 0);
    // Type a 10-character title and commit.
    controller.handle(&mut board, &config, KeyEvent::Char('t')).unwrap();
    type_str(&mut controller, &mut board, &config, "Write spec");
    assert_eq!(controller.buffer_len(), 10);
    assert_eq!(controller.handle(&mut board, &config, KeyEvent::Commit), Ok(Signal::Continue));
    assert_eq!(board.lane(0).cards.len(), 1);
    assert_eq!(board.lane(0).cards.items()[0].title, "Write spec");
    assert_eq!(controller.mode(), InputMode::DescriptionEntry);
    // Committing an empty description buffer is rejected.
    assert_eq!(
        controller.handle(&mut board, &config, KeyEvent::Commit),
        Err(KanbanError::InputRejected)
    );
    assert_eq!(controller.mode(), InputMode::DescriptionEntry);
    assert!(board.lane(0).cards.items()[0].description.is_empty());
    // A real paragraph lands on the new card.
    type_str(&mut controller, &mut board, &config, "first pass");
    assert_eq!(controller.handle(&mut board, &config, KeyEvent::Commit), Ok(Signal::Continue));
    assert_eq!(
        board.lane(0).cards.items()[0].description,
        vec!["first pass".to_string()]
    );
    // Back to normal mode, select the card, move it forward.
    controller.handle(&mut board, &config, KeyEvent::Cancel).unwrap();
    assert_eq!(controller.mode(), InputMode::Normal);
    controller.handle(&mut board, &config, KeyEvent::Down).unwrap();
    assert_eq!(board.lane(0).cards.selected_index(), Some(0));
    assert_eq!(controller.handle(&mut board, &config, KeyEvent::MoveRight), Ok(Signal::Continue));
    assert_eq!(board.lane(0).cards.len(), 0);
    assert_eq!(board.lane(1).cards.len(), 1);
    assert_eq!(board.lane(1).cards.items()[0].title, "Write spec");
    assert_eq!(
        board.lane(1).cards.items()[0].description,
        vec!["first pass".to_string()]
    );
    assert_eq!(board.current_lane(), 1);
    assert_eq!(board.lane(1).cards.selected_index(), Some(0));
}

#[test]
fn move_forward_from_last_lane_reports_boundary() {
    let (mut controller, mut board, config) = setup();
    for _ in 0..3 {
        controller.handle(&mut board, &config, KeyEvent::Right).unwrap();
    }
    assert_eq!(board.current_lane(), 3);
    assert_eq!(
        controller.handle(&mut board, &config, KeyEvent::MoveRight),
        Err(KanbanError::AtBoundary)
    );
    assert_eq!(board.current_lane(), 3);
    assert_eq!(controller.mode(), InputMode::Normal);
    for i in 0..4 {
        assert_eq!(board.lane(i).cards.len(), 0);
    }
}

#[test]
fn quit_is_signalled_only_from_normal_mode() {
    let (mut controller, mut board, config) = setup();
    assert_eq!(controller.handle(&mut board, &config, KeyEvent::Char('q')), Ok(Signal::Quit));
    controller.handle(&mut board, &config, KeyEvent::Char('t')).unwrap();
    // In an entry mode 'q' is just a character.
    assert_eq!(
        controller.handle(&mut board, &config, KeyEvent::Char('q')),
        Ok(Signal::Continue)
    );
    assert_eq!(controller.buffer_string(), "q");
}

#[test]
fn navigation_keys_delegate_to_the_board() {
    let (mut controller, mut board, config) = setup();
    assert_eq!(
        controller.handle(&mut board, &config, KeyEvent::Left),
        Err(KanbanError::AtBoundary)
    );
    assert_eq!(controller.handle(&mut board, &config, KeyEvent::Right), Ok(Signal::Continue));
    assert_eq!(board.current_lane(), 1);
    assert_eq!(controller.handle(&mut board, &config, KeyEvent::Left), Ok(Signal::Continue));
    assert_eq!(board.current_lane(), 0);
}

#[test]
fn buffer_editing_appends_and_deletes() {
    let (mut controller, mut board, config) = setup();
    controller.handle(&mut board, &config, KeyEvent::Char('t')).unwrap();
    // Backspace on an empty buffer is a safe no-op.
    assert_eq!(
        controller.handle(&mut board, &config, KeyEvent::Backspace),
        Ok(Signal::Continue)
    );
    assert_eq!(controller.buffer_len(), 0);
    type_str(&mut controller, &mut board, &config, "abc");
    assert_eq!(controller.buffer_string(), "abc");
    controller.handle(&mut board, &config, KeyEvent::Backspace).unwrap();
    assert_eq!(controller.buffer_string(), "ab");
}

#[test]
fn cancel_clears_buffer_and_returns_to_normal() {
    let (mut controller, mut board, config) = setup();
    controller.handle(&mut board, &config, KeyEvent::Char('t')).unwrap();
    type_str(&mut controller, &mut board, &config, "half a title");
    controller.handle(&mut board, &config, KeyEvent::Cancel).unwrap();
    assert_eq!(controller.mode(), InputMode::Normal);
    assert_eq!(controller.buffer_len(), 0);
    assert_eq!(board.lane(0).cards.len(), 0);
}

#[test]
fn description_commit_without_card_reports_empty_selection() {
    let (mut controller, mut board, config) = setup();
    controller.handle(&mut board, &config, KeyEvent::Char('d')).unwrap();
    assert_eq!(controller.mode(), InputMode::DescriptionEntry);
    type_str(&mut controller, &mut board, &config, "orphan paragraph");
    assert_eq!(
        controller.handle(&mut board, &config, KeyEvent::Commit),
        Err(KanbanError::EmptySelection)
    );
    assert_eq!(controller.mode(), InputMode::DescriptionEntry);
    assert_eq!(controller.buffer_string(), "orphan paragraph");
}

#[test]
fn description_mode_targets_the_selected_card() {
    let (mut controller, mut board, config) = setup();
    controller.handle(&mut board, &config, KeyEvent::Char('t')).unwrap();
    type_str(&mut controller, &mut board, &config, "Long enough");
    controller.handle(&mut board, &config, KeyEvent::Commit).unwrap();
    controller.handle(&mut board, &config, KeyEvent::Cancel).unwrap();
    // Select the card and re-enter description mode on it.
    controller.handle(&mut board, &config, KeyEvent::Down).unwrap();
    controller.handle(&mut board, &config, KeyEvent::Char('d')).unwrap();
    type_str(&mut controller, &mut board, &config, "addendum");
    assert_eq!(controller.handle(&mut board, &config, KeyEvent::Commit), Ok(Signal::Continue));
    // A second paragraph goes onto the same card.
    type_str(&mut controller, &mut board, &config, "more detail");
    assert_eq!(controller.handle(&mut board, &config, KeyEvent::Commit), Ok(Signal::Continue));
    assert_eq!(
        board.lane(0).cards.items()[0].description,
        vec!["addendum".to_string(), "more detail".to_string()]
    );
}

#[test]
fn fixed_lane_policy_creates_into_that_lane() {
    let mut config = Config::default();
    config.create_policy = CreatePolicy::FixedLane(2);
    let mut board = Board::new(&config.lane_names);
    let mut controller = InputController::new();
    controller.handle(&mut board, &config, KeyEvent::Char('t')).unwrap();
    type_str(&mut controller, &mut board, &config, "Elsewhere");
    assert_eq!(controller.handle(&mut board, &config, KeyEvent::Commit), Ok(Signal::Continue));
    assert_eq!(board.lane(0).cards.len(), 0);
    assert_eq!(board.lane(2).cards.len(), 1);
    assert_eq!(board.lane(2).cards.items()[0].title, "Elsewhere");
}

#[test]
fn fixed_lane_policy_out_of_range_is_rejected() {
    let mut config = Config::default();
    config.create_policy = CreatePolicy::FixedLane(9);
    let mut board = Board::new(&config.lane_names);
    let mut controller = InputController::new();
    controller.handle(&mut board, &config, KeyEvent::Char('t')).unwrap();
    type_str(&mut controller, &mut board, &config, "Nowhere to go");
    assert_eq!(
        controller.handle(&mut board, &config, KeyEvent::Commit),
        Err(KanbanError::IndexOutOfRange)
    );
    assert_eq!(controller.mode(), InputMode::TitleEntry);
    assert_eq!(controller.buffer_string(), "Nowhere to go");
    for i in 0..4 {
        assert_eq!(board.lane(i).cards.len(), 0);
    }
}

#[test]
fn mode_labels_match_the_modes() {
    let (mut controller, mut board, config) = setup();
    assert_eq!(controller.mode_label(), "Normal");
    controller.handle(&mut board, &config, KeyEvent::Char('t')).unwrap();
    assert_eq!(controller.mode_label(), "Title");
    controller.handle(&mut board, &config, KeyEvent::Cancel).unwrap();
    controller.handle(&mut board, &config, KeyEvent::Char('d')).unwrap();
    assert_eq!(controller.mode_label(), "Description");
}

#[test]
fn unmapped_keys_are_harmless_in_normal_mode() {
    let (mut controller, mut board, config) = setup();
    assert_eq!(
        controller.handle(&mut board, &config, KeyEvent::Char('x')),
        Ok(Signal::Continue)
    );
    assert_eq!(controller.handle(&mut board, &config, KeyEvent::Char('h')), Ok(Signal::Continue));
    assert_eq!(controller.mode(), InputMode::Normal);
    assert_eq!(controller.buffer_len(), 0);
    assert_eq!(board.current_lane(), 0);
}

//! The input-mode state machine: how a decoded key event edits the text
//! buffer, commits cards and paragraphs into the board, or delegates
//! navigation and card moves to it.

use vstd::prelude::*;

use crate::board::{
    append_description_state, move_in_range, move_ok_state, nav_in_range, navigate_ok_state,
    select_step_state, Board, MoveDirection, NavDirection,
};
use crate::card::Card;
use crate::errors::KanbanError;
use crate::selection::{spec_next, spec_previous};
use crate::text::chars_to_string;

verus! {

/// The input mode: how a key event is interpreted.
#[derive(Clone, Copy, Debug, PartialEq, Eq, Structural)]
pub enum InputMode {
    /// Keys navigate the board, move cards, and start text entry.
    Normal,
    /// Keys edit the buffer; a commit creates a card titled by it.
    TitleEntry,
    /// Keys edit the buffer; a commit appends it as a description paragraph.
    DescriptionEntry,
}

/// A decoded key event, as the event-source collaborator classifies keys:
/// printable characters, the named control keys, the four directional keys,
/// and the card-move combinations.
#[derive(Clone, Copy, Debug, PartialEq, Eq, Structural)]
pub enum KeyEvent {
    /// A printable character.
    Char(char),
    /// Enter: commit the buffer in an entry mode.
    Commit,
    /// Escape: cancel text entry.
    Cancel,
    /// Backspace: drop the last buffer character.
    Backspace,
    Up,
    Down,
    Left,
    Right,
    /// Move the selected card one lane towards the first lane.
    MoveLeft,
    /// Move the selected card one lane towards the last lane.
    MoveRight,
}

/// What the event loop should do after an event was handled.
#[derive(Clone, Copy, Debug, PartialEq, Eq, Structural)]
pub enum Signal {
    /// Keep going: wait for the next key event.
    Continue,
    /// The user asked to quit.
    Quit,
}

/// Which lane a committed title creates its card in.
#[derive(Clone, Copy, Debug, PartialEq, Eq, Structural)]
pub enum CreatePolicy {
    /// The lane that currently has keyboard focus.
    CurrentLane,
    /// One fixed lane, whichever lane has focus.
    FixedLane(usize),
}

/// The lane index a title commit creates into, under `policy`, when the
/// focus is on lane `cur`.
pub open spec fn create_lane_index(policy: CreatePolicy, cur: int) -> int {
    match policy {
        CreatePolicy::CurrentLane => cur,
        CreatePolicy::FixedLane(i) => i as int,
    }
}

/// Explicit configuration of the board core: the lane names (the lane count
/// is their number), the minimum accepted title length, and where a
/// committed title creates its card.
pub struct Config {
    pub lane_names: Vec<String>,
    pub min_title_len: usize,
    pub create_policy: CreatePolicy,
}

impl Default for Config {
    /// The standard configuration: the four lanes Todo, In Progress,
    /// Finished and In review; titles of at least 7 characters; cards
    /// created into the lane that has keyboard focus.
    fn default() -> (config: Config)
        ensures
            config.lane_names@.len() == 4,
            config.lane_names@[0]@ == "Todo"@,
            config.lane_names@[1]@ == "In Progress"@,
            config.lane_names@[2]@ == "Finished"@,
            config.lane_names@[3]@ == "In review"@,
            config.min_title_len == 7,
            config.create_policy == CreatePolicy::CurrentLane,
    {
        let mut lane_names: Vec<String> = Vec::new();
        lane_names.push("Todo".to_owned());
        lane_names.push("In Progress".to_owned());
        lane_names.push("Finished".to_owned());
        lane_names.push("In review".to_owned());
        Config { lane_names, min_title_len: 7, create_policy: CreatePolicy::CurrentLane }
    }
}

/// Mathematical model of an [`InputController`].
pub ghost struct ControllerView {
    pub buffer: Seq<char>,
    pub mode: InputMode,
    pub target: Option<(int, int)>,
}

/// The state change of a title commit that was accepted: a card titled by
/// the old buffer, with an empty description log and priority 0, lands at
/// the end of lane `lane_index`; everything else on the board is untouched.
pub open spec fn create_card_state(b0: Board, b1: Board, lane_index: int, title: Seq<char>) -> bool {
    let lane0 = b0.lanes_seq()[lane_index];
    let lane1 = b1.lanes_seq()[lane_index];
    &&& crate::board::lanes_preserved_except(b0, b1, lane_index, lane_index)
    &&& b1.cur() == b0.cur()
    &&& lane1.name == lane0.name
    &&& lane1.cards@.items.len() == lane0.cards@.items.len() + 1
    &&& forall|j: int|
        0 <= j < lane0.cards@.items.len() ==> lane1.cards@.items[j] == lane0.cards@.items[j]
    &&& lane1.cards@.items.last()@.title == title
    &&& lane1.cards@.items.last()@.description == Seq::<Seq<char>>::empty()
    &&& lane1.cards@.items.last()@.priority == 0
    &&& lane1.cards@.selected == lane0.cards@.selected
}

/// The text buffer, the active input mode, and — while a description is
/// being entered — the card (lane index, card index) a committed paragraph
/// lands on.
///
/// The buffer accumulates only while an entry mode is active and is cleared
/// exactly on the transitions that commit or cancel an entry.
pub struct InputController {
    buffer: Vec<char>,
    mode: InputMode,
    target: Option<(usize, usize)>,
}

impl View for InputController {
    type V = ControllerView;

    closed spec fn view(&self) -> ControllerView {
        ControllerView {
            buffer: self.buffer@,
            mode: self.mode,
            target: match self.target {
                Some((lane, card)) => Some((lane as int, card as int)),
                None => None,
            },
        }
    }
}

impl InputController {
    /// Well-formed: the buffer is empty in normal mode, and a paragraph
    /// target exists only while a description is being entered.
    pub open spec fn inv(&self) -> bool {
        &&& self@.mode is Normal ==> self@.buffer.len() == 0
        &&& !(self@.mode is DescriptionEntry) ==> self@.target is None
    }

    /// A fresh controller: normal mode, empty buffer.
    pub fn new() -> (controller: InputController)
        ensures
            controller@.mode is Normal,
            controller@.buffer.len() == 0,
            controller@.target is None,
            controller.inv(),
    {
        InputController { buffer: Vec::new(), mode: InputMode::Normal, target: None }
    }

    /// The active input mode.
    pub fn mode(&self) -> (mode: InputMode)
        ensures
            mode == self@.mode,
    {
        self.mode
    }

    /// The display label of the active mode, for the input box title.
    pub fn mode_label(&self) -> (label: &'static str)
        ensures
            self@.mode is Normal ==> label@ == "Normal"@,
            self@.mode is TitleEntry ==> label@ == "Title"@,
            self@.mode is DescriptionEntry ==> label@ == "Description"@,
    {
        match self.mode {
            InputMode::Normal => "Normal",
            InputMode::TitleEntry => "Title",
            InputMode::DescriptionEntry => "Description",
        }
    }

    /// The buffer length, in characters.
    pub fn buffer_len(&self) -> (n: usize)
        ensures
            n == self@.buffer.len(),
    {
        self.buffer.len()
    }

    /// The buffer contents as an owned string, for the text box.
    pub fn buffer_string(&self) -> (s: String)
        ensures
            s@ == self@.buffer,
    {
        chars_to_string(&self.buffer)
    }

    /// Applies one decoded key event: edits the buffer, commits a card or a
    /// paragraph into `board`, or delegates navigation and card moves to it,
    /// according to the active mode.
    ///
    /// Every reported error is a no-op: the controller and the board are
    /// then unchanged, except that a rejected or failed commit keeps the
    /// buffer and the mode so the entry can be fixed and retried. Policy
    /// guards: a title shorter than `config.min_title_len` and an empty
    /// description paragraph are rejected with `InputRejected`; a paragraph
    /// commit with no card to land on reports `EmptySelection`; a commit
    /// whose destination does not exist on `board` reports `IndexOutOfRange`.
    pub fn handle(&mut self, board: &mut Board, config: &Config, key: KeyEvent) -> (r: Result<
        Signal,
        KanbanError,
    >)
        requires
            old(self).inv(),
            old(board).inv(),
        ensures
            final(self).inv(),
            final(board).inv(),
            r == Ok::<Signal, KanbanError>(Signal::Quit) <==> (old(self)@.mode is Normal
                && key == KeyEvent::Char('q')),
            old(self)@.mode is Normal ==> ({
                let b0 = *old(board);
                let b1 = *final(board);
                match key {
                    KeyEvent::Char(c) => {
                        if c == 't' {
                            &&& final(self)@.mode is TitleEntry
                            &&& final(self)@.buffer.len() == 0
                            &&& final(self)@.target is None
                            &&& b1 == b0
                            &&& r == Ok::<Signal, KanbanError>(Signal::Continue)
                        } else if c == 'd' {
                            &&& final(self)@.mode is DescriptionEntry
                            &&& final(self)@.buffer.len() == 0
                            &&& final(self)@.target == (match b0.lanes_seq()[b0.cur()].cards@.selected {
                                Some(i) => Some((b0.cur(), i)),
                                None => None::<(int, int)>,
                            })
                            &&& b1 == b0
                            &&& r == Ok::<Signal, KanbanError>(Signal::Continue)
                        } else if c == 'q' {
                            &&& *final(self) == *old(self)
                            &&& b1 == b0
                            &&& r == Ok::<Signal, KanbanError>(Signal::Quit)
                        } else {
                            &&& *final(self) == *old(self)
                            &&& b1 == b0
                            &&& r == Ok::<Signal, KanbanError>(Signal::Continue)
                        }
                    },
                    KeyEvent::Up => {
                        &&& *final(self) == *old(self)
                        &&& select_step_state(
                            b0,
                            b1,
                            spec_previous(
                                b0.lanes_seq()[b0.cur()].cards@.selected,
                                b0.lanes_seq()[b0.cur()].cards@.items.len(),
                            ),
                        )
                        &&& r == Ok::<Signal, KanbanError>(Signal::Continue)
                    },
                    KeyEvent::Down => {
                        &&& *final(self) == *old(self)
                        &&& select_step_state(
                            b0,
                            b1,
                            spec_next(
                                b0.lanes_seq()[b0.cur()].cards@.selected,
                                b0.lanes_seq()[b0.cur()].cards@.items.len(),
                            ),
                        )
                        &&& r == Ok::<Signal, KanbanError>(Signal::Continue)
                    },
                    KeyEvent::Left => {
                        &&& *final(self) == *old(self)
                        &&& if nav_in_range(b0, NavDirection::Left) {
                            navigate_ok_state(b0, b1, NavDirection::Left) && r == Ok::<
                                Signal,
                                KanbanError,
                            >(Signal::Continue)
                        } else {
                            b1 == b0 && r == Err::<Signal, KanbanError>(KanbanError::AtBoundary)
                        }
                    },
                    KeyEvent::Right => {
                        &&& *final(self) == *old(self)
                        &&& if nav_in_range(b0, NavDirection::Right) {
                            navigate_ok_state(b0, b1, NavDirection::Right) && r == Ok::<
                                Signal,
                                KanbanError,
                            >(Signal::Continue)
                        } else {
                            b1 == b0 && r == Err::<Signal, KanbanError>(KanbanError::AtBoundary)
                        }
                    },
                    KeyEvent::MoveLeft => {
                        &&& *final(self) == *old(self)
                        &&& if !move_in_range(b0, MoveDirection::Previous) {
                            b1 == b0 && r == Err::<Signal, KanbanError>(KanbanError::AtBoundary)
                        } else if b0.lanes_seq()[b0.cur()].cards@.selected is None {
                            b1 == b0 && r == Err::<Signal, KanbanError>(KanbanError::EmptySelection)
                        } else {
                            move_ok_state(b0, b1, MoveDirection::Previous) && r == Ok::<
                                Signal,
                                KanbanError,
                            >(Signal::Continue)
                        }
                    },
                    KeyEvent::MoveRight => {
                        &&& *final(self) == *old(self)
                        &&& if !move_in_range(b0, MoveDirection::Next) {
                            b1 == b0 && r == Err::<Signal, KanbanError>(KanbanError::AtBoundary)
                        } else if b0.lanes_seq()[b0.cur()].cards@.selected is None {
                            b1 == b0 && r == Err::<Signal, KanbanError>(KanbanError::EmptySelection)
                        } else {
                            move_ok_state(b0, b1, MoveDirection::Next) && r == Ok::<
                                Signal,
                                KanbanError,
                            >(Signal::Continue)
                        }
                    },
                    _ => {
                        &&& *final(self) == *old(self)
                        &&& b1 == b0
                        &&& r == Ok::<Signal, KanbanError>(Signal::Continue)
                    },
                }
            }),
            !(old(self)@.mode is Normal) ==> ({
                let b0 = *old(board);
                let b1 = *final(board);
                match key {
                    KeyEvent::Char(c) => {
                        &&& final(self)@.mode == old(self)@.mode
                        &&& final(self)@.buffer == old(self)@.buffer.push(c)
                        &&& final(self)@.target == old(self)@.target
                        &&& b1 == b0
                        &&& r == Ok::<Signal, KanbanError>(Signal::Continue)
                    },
                    KeyEvent::Backspace => {
                        &&& final(self)@.mode == old(self)@.mode
                        &&& final(self)@.buffer == (if old(self)@.buffer.len() == 0 {
                            old(self)@.buffer
                        } else {
                            old(self)@.buffer.drop_last()
                        })
                        &&& final(self)@.target == old(self)@.target
                        &&& b1 == b0
                        &&& r == Ok::<Signal, KanbanError>(Signal::Continue)
                    },
                    KeyEvent::Cancel => {
                        &&& final(self)@.mode is Normal
                        &&& final(self)@.buffer.len() == 0
                        &&& final(self)@.target is None
                        &&& b1 == b0
                        &&& r == Ok::<Signal, KanbanError>(Signal::Continue)
                    },
                    KeyEvent::Commit => {
                        if old(self)@.mode is TitleEntry {
                            title_commit_effect(*old(self), *final(self), b0, b1, config, r)
                        } else {
                            description_commit_effect(*old(self), *final(self), b0, b1, r)
                        }
                    },
                    _ => {
                        &&& *final(self) == *old(self)
                        &&& b1 == b0
                        &&& r == Ok::<Signal, KanbanError>(Signal::Continue)
                    },
                }
            }),
    {
        match self.mode {
            InputMode::Normal => match key {
                KeyEvent::Char(c) => {
                    if c == 't' {
                        self.mode = InputMode::TitleEntry;
                        Ok(Signal::Continue)
                    } else if c == 'd' {
                        let lane_index = board.current_lane();
                        let selected = board.lane(lane_index).cards.selected_index();
                        self.target = match selected {
                            Some(i) => Some((lane_index, i)),
                            None => None,
                        };
                        self.mode = InputMode::DescriptionEntry;
                        Ok(Signal::Continue)
                    } else if c == 'q' {
                        Ok(Signal::Quit)
                    } else {
                        Ok(Signal::Continue)
                    }
                },
                KeyEvent::Up => {
                    board.select_previous();
                    Ok(Signal::Continue)
                },
                KeyEvent::Down => {
                    board.select_next();
                    Ok(Signal::Continue)
                },
                KeyEvent::Left => match board.navigate(NavDirection::Left) {
                    Ok(()) => Ok(Signal::Continue),
                    Err(e) => Err(e),
                },
                KeyEvent::Right => match board.navigate(NavDirection::Right) {
                    Ok(()) => Ok(Signal::Continue),
                    Err(e) => Err(e),
                },
                KeyEvent::MoveLeft => match board.move_current_card(MoveDirection::Previous) {
                    Ok(()) => Ok(Signal::Continue),
                    Err(e) => Err(e),
                },
                KeyEvent::MoveRight => match board.move_current_card(MoveDirection::Next) {
                    Ok(()) => Ok(Signal::Continue),
                    Err(e) => Err(e),
                },
                _ => Ok(Signal::Continue),
            },
            InputMode::TitleEntry => match key {
                KeyEvent::Char(c) => {
                    self.buffer.push(c);
                    Ok(Signal::Continue)
                },
                KeyEvent::Backspace => {
                    let _ = self.buffer.pop();
                    Ok(Signal::Continue)
                },
                KeyEvent::Cancel => {
                    self.buffer.clear();
                    self.mode = InputMode::Normal;
                    Ok(Signal::Continue)
                },
                KeyEvent::Commit => self.commit_title(board, config),
                _ => Ok(Signal::Continue),
            },
            InputMode::DescriptionEntry => match key {
                KeyEvent::Char(c) => {
                    self.buffer.push(c);
                    Ok(Signal::Continue)
                },
                KeyEvent::Backspace => {
                    let _ = self.buffer.pop();
                    Ok(Signal::Continue)
                },
                KeyEvent::Cancel => {
                    self.buffer.clear();
                    self.target = None;
                    self.mode = InputMode::Normal;
                    Ok(Signal::Continue)
                },
                KeyEvent::Commit => self.commit_description(board),
                _ => Ok(Signal::Continue),
            },
        }
    }

    /// Commits the buffer as the title of a new card; see
    /// [`title_commit_effect`] for the exact outcome.
    fn commit_title(&mut self, board: &mut Board, config: &Config) -> (r: Result<
        Signal,
        KanbanError,
    >)
        requires
            old(self).inv(),
            old(board).inv(),
            old(self)@.mode is TitleEntry,
        ensures
            final(self).inv(),
            final(board).inv(),
            title_commit_effect(*old(self), *final(self), *old(board), *final(board), config, r),
    {
        if self.buffer.len() < config.min_title_len {
            return Err(KanbanError::InputRejected);
        }
        let create_lane: usize = match config.create_policy {
            CreatePolicy::CurrentLane => board.current_lane(),
            CreatePolicy::FixedLane(i) => i,
        };
        if create_lane >= board.lane_count() {
            return Err(KanbanError::IndexOutOfRange);
        }
        let new_index = board.lane(create_lane).cards.len();
        let title = chars_to_string(&self.buffer);
        board.push_card(create_lane, Card::new(title, 0));
        self.buffer.clear();
        self.mode = InputMode::DescriptionEntry;
        self.target = Some((create_lane, new_index));
        Ok(Signal::Continue)
    }

    /// Commits the buffer as a description paragraph; see
    /// [`description_commit_effect`] for the exact outcome.
    fn commit_description(&mut self, board: &mut Board) -> (r: Result<Signal, KanbanError>)
        requires
            old(self).inv(),
            old(board).inv(),
            old(self)@.mode is DescriptionEntry,
        ensures
            final(self).inv(),
            final(board).inv(),
            description_commit_effect(*old(self), *final(self), *old(board), *final(board), r),
    {
        if self.buffer.len() == 0 {
            return Err(KanbanError::InputRejected);
        }
        match self.target {
            None => Err(KanbanError::EmptySelection),
            Some((lane_index, card_index)) => {
                if lane_index >= board.lane_count() {
                    return Err(KanbanError::IndexOutOfRange);
                }
                if card_index >= board.lane(lane_index).cards.len() {
                    return Err(KanbanError::IndexOutOfRange);
                }
                let paragraph = chars_to_string(&self.buffer);
                board.append_description(lane_index, card_index, paragraph);
                self.buffer.clear();
                Ok(Signal::Continue)
            },
        }
    }
}

/// The outcome of a title commit. A buffer shorter than the configured
/// minimum is rejected: `InputRejected`, the mode stays `TitleEntry`, the
/// buffer is kept, no card is created. A destination lane that does not
/// exist reports `IndexOutOfRange`, changing nothing. Otherwise a card
/// titled by the buffer is created at the end of the destination lane, the
/// buffer clears, the mode becomes `DescriptionEntry`, and the new card
/// becomes the paragraph target.
pub open spec fn title_commit_effect(
    c0: InputController,
    c1: InputController,
    b0: Board,
    b1: Board,
    config: &Config,
    r: Result<Signal, KanbanError>,
) -> bool {
    let lane = create_lane_index(config.create_policy, b0.cur());
    if c0@.buffer.len() < config.min_title_len {
        &&& c1 == c0
        &&& b1 == b0
        &&& r == Err::<Signal, KanbanError>(KanbanError::InputRejected)
    } else if !(0 <= lane < b0.lanes_seq().len()) {
        &&& c1 == c0
        &&& b1 == b0
        &&& r == Err::<Signal, KanbanError>(KanbanError::IndexOutOfRange)
    } else {
        &&& create_card_state(b0, b1, lane, c0@.buffer)
        &&& c1@.mode is DescriptionEntry
        &&& c1@.buffer.len() == 0
        &&& c1@.target == Some((lane, b0.lanes_seq()[lane].cards@.items.len() as int))
        &&& r == Ok::<Signal, KanbanError>(Signal::Continue)
    }
}

/// The outcome of a description commit. An empty buffer is rejected:
/// `InputRejected`, nothing changes. With no target card (description entry
/// was started with nothing selected) it reports `EmptySelection`; a target
/// that no longer exists on the board reports `IndexOutOfRange`; in both
/// cases nothing changes and the buffer is kept. Otherwise the buffer is
/// appended as one paragraph to the target card's description log, the
/// buffer clears, and the mode stays `DescriptionEntry` so further
/// paragraphs can follow.
pub open spec fn description_commit_effect(
    c0: InputController,
    c1: InputController,
    b0: Board,
    b1: Board,
    r: Result<Signal, KanbanError>,
) -> bool {
    if c0@.buffer.len() == 0 {
        &&& c1 == c0
        &&& b1 == b0
        &&& r == Err::<Signal, KanbanError>(KanbanError::InputRejected)
    } else {
        match c0@.target {
            None => {
                &&& c1 == c0
                &&& b1 == b0
                &&& r == Err::<Signal, KanbanError>(KanbanError::EmptySelection)
            },
            Some((lane_index, card_index)) => {
                if !(0 <= lane_index < b0.lanes_seq().len()) || !(0 <= card_index < b0.lanes_seq()[
                    lane_index
                ].cards@.items.len()) {
                    &&& c1 == c0
                    &&& b1 == b0
                    &&& r == Err::<Signal, KanbanError>(KanbanError::IndexOutOfRange)
                } else {
                    &&& append_description_state(b0, b1, lane_index, card_index, c0@.buffer)
                    &&& c1@.mode is DescriptionEntry
                    &&& c1@.buffer.len() == 0
                    &&& c1@.target == c0@.target
                    &&& r == Ok::<Signal, KanbanError>(Signal::Continue)
                }
            },
        }
    }
}

} // verus!

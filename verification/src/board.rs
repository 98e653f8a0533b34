//! The board: a fixed, ordered row of named lanes plus the "current lane"
//! cursor, and the cross-lane card move.

use vstd::prelude::*;

use crate::card::Card;
use crate::errors::KanbanError;
use crate::selection::{spec_next, spec_previous, SelectionList};

verus! {

/// A named slot of the board, holding its cards in display order.
pub struct Lane {
    pub name: String,
    pub cards: SelectionList<Card>,
}

/// Direction of a cross-lane card move.
#[derive(Clone, Copy, Debug, PartialEq, Eq, Structural)]
pub enum MoveDirection {
    Previous,
    Next,
}

/// Direction of lane navigation.
#[derive(Clone, Copy, Debug, PartialEq, Eq, Structural)]
pub enum NavDirection {
    Left,
    Right,
}

/// Offset a card move applies to the current lane index.
pub open spec fn move_offset(direction: MoveDirection) -> int {
    match direction {
        MoveDirection::Previous => -1,
        MoveDirection::Next => 1,
    }
}

/// Offset lane navigation applies to the current lane index.
pub open spec fn nav_offset(direction: NavDirection) -> int {
    match direction {
        NavDirection::Left => -1,
        NavDirection::Right => 1,
    }
}

/// The total number of cards on the board: the sum over all lanes.
pub open spec fn total_cards(lanes: Seq<Lane>) -> nat
    decreases lanes.len(),
{
    if lanes.len() == 0 {
        0
    } else {
        lanes[0].cards@.items.len() + total_cards(lanes.drop_first())
    }
}

/// Overwriting one lane changes the board's total card count by exactly the
/// difference between the new and the old lane's card count.
proof fn lemma_total_cards_update(lanes: Seq<Lane>, k: int, lane: Lane)
    requires
        0 <= k < lanes.len(),
    ensures
        total_cards(lanes.update(k, lane)) == total_cards(lanes) - lanes[k].cards@.items.len()
            + lane.cards@.items.len(),
    decreases lanes.len(),
{
    if k == 0 {
        assert(lanes.update(0, lane).drop_first() =~= lanes.drop_first());
    } else {
        assert(lanes.update(k, lane).drop_first() =~= lanes.drop_first().update(k - 1, lane));
        lemma_total_cards_update(lanes.drop_first(), k - 1, lane);
    }
}

/// The lane count is unchanged and every lane other than `a` and `b` is
/// exactly as before.
pub open spec fn lanes_preserved_except(b0: Board, b1: Board, a: int, b: int) -> bool {
    &&& b1.lanes_seq().len() == b0.lanes_seq().len()
    &&& forall|k: int|
        0 <= k < b0.lanes_seq().len() && k != a && k != b ==> b1.lanes_seq()[k]
            == b0.lanes_seq()[k]
}

/// Whether the neighbouring lane in `direction` exists. At the outermost
/// lanes it does not: lane traversal never wraps around, unlike card-list
/// cycling — that asymmetry is deliberate (browsing many cards versus a
/// small fixed lane row).
pub open spec fn nav_in_range(b0: Board, direction: NavDirection) -> bool {
    0 <= b0.cur() + nav_offset(direction) < b0.lanes_seq().len()
}

/// Whether the lane a card move in `direction` targets exists (no
/// wrap-around, as for [`nav_in_range`]).
pub open spec fn move_in_range(b0: Board, direction: MoveDirection) -> bool {
    0 <= b0.cur() + move_offset(direction) < b0.lanes_seq().len()
}

/// The state change of stepping the current lane's selection to `selected1`:
/// focus and all card data are untouched.
pub open spec fn select_step_state(b0: Board, b1: Board, selected1: Option<int>) -> bool {
    let lane0 = b0.lanes_seq()[b0.cur()];
    let lane1 = b1.lanes_seq()[b0.cur()];
    &&& lanes_preserved_except(b0, b1, b0.cur(), b0.cur())
    &&& b1.cur() == b0.cur()
    &&& lane1.name == lane0.name
    &&& lane1.cards@.items == lane0.cards@.items
    &&& lane1.cards@.selected == selected1
}

/// The state change of a successful lane navigation: focus switches to the
/// neighbouring lane, the old lane is unselected, the new lane selects a
/// card (one forward step from its previous selection), and no card data
/// moves.
pub open spec fn navigate_ok_state(b0: Board, b1: Board, direction: NavDirection) -> bool {
    let target = b0.cur() + nav_offset(direction);
    let source_lane0 = b0.lanes_seq()[b0.cur()];
    let source_lane1 = b1.lanes_seq()[b0.cur()];
    let target_lane0 = b0.lanes_seq()[target];
    let target_lane1 = b1.lanes_seq()[target];
    &&& lanes_preserved_except(b0, b1, b0.cur(), target)
    &&& b1.cur() == target
    &&& source_lane1.name == source_lane0.name
    &&& source_lane1.cards@.items == source_lane0.cards@.items
    &&& source_lane1.cards@.selected is None
    &&& target_lane1.name == target_lane0.name
    &&& target_lane1.cards@.items == target_lane0.cards@.items
    &&& target_lane1.cards@.selected == spec_next(
        target_lane0.cards@.selected,
        target_lane0.cards@.items.len(),
    )
}

/// The state change of a successful card move: the selected card leaves the
/// current lane (whose selection clears), lands at the end of the target
/// lane, focus switches to the target lane and its selection steps forward
/// so a card is highlighted.
pub open spec fn move_ok_state(b0: Board, b1: Board, direction: MoveDirection) -> bool {
    let target = b0.cur() + move_offset(direction);
    let source_lane0 = b0.lanes_seq()[b0.cur()];
    let source_lane1 = b1.lanes_seq()[b0.cur()];
    let target_lane0 = b0.lanes_seq()[target];
    let target_lane1 = b1.lanes_seq()[target];
    let index = source_lane0.cards@.selected->0;
    let moved = source_lane0.cards@.items[index];
    &&& lanes_preserved_except(b0, b1, b0.cur(), target)
    &&& b1.cur() == target
    &&& source_lane1.name == source_lane0.name
    &&& source_lane1.cards@.items == source_lane0.cards@.items.remove(index)
    &&& source_lane1.cards@.selected is None
    &&& target_lane1.name == target_lane0.name
    &&& target_lane1.cards@.items == target_lane0.cards@.items.push(moved)
    &&& target_lane1.cards@.selected == spec_next(
        target_lane0.cards@.selected,
        target_lane0.cards@.items.len() + 1,
    )
}

/// The state change of appending `paragraph` to the description log of the
/// card at `card_index` in lane `lane_index`: everything else — the card's
/// title and priority, the lane's order and selection, all other lanes, the
/// focus — is untouched.
pub open spec fn append_description_state(
    b0: Board,
    b1: Board,
    lane_index: int,
    card_index: int,
    paragraph: Seq<char>,
) -> bool {
    let lane0 = b0.lanes_seq()[lane_index];
    let lane1 = b1.lanes_seq()[lane_index];
    let card0 = lane0.cards@.items[card_index];
    let card1 = lane1.cards@.items[card_index];
    &&& lanes_preserved_except(b0, b1, lane_index, lane_index)
    &&& b1.cur() == b0.cur()
    &&& lane1.name == lane0.name
    &&& lane1.cards@.items.len() == lane0.cards@.items.len()
    &&& forall|j: int|
        0 <= j < lane0.cards@.items.len() && j != card_index ==> lane1.cards@.items[j]
            == lane0.cards@.items[j]
    &&& card1@.title == card0@.title
    &&& card1@.description == card0@.description.push(paragraph)
    &&& card1@.priority == card0@.priority
    &&& lane1.cards@.selected == lane0.cards@.selected
}

/// The fixed, ordered sequence of lanes plus the lane that has keyboard
/// focus.
pub struct Board {
    lanes: Vec<Lane>,
    current_lane: usize,
}

impl Board {
    /// The lanes, in display order.
    pub closed spec fn lanes_seq(&self) -> Seq<Lane> {
        self.lanes@
    }

    /// The index of the lane that has keyboard focus.
    pub closed spec fn cur(&self) -> int {
        self.current_lane as int
    }

    /// Well-formed: the current lane index is valid and every lane's card
    /// list is well-formed. Constructors establish this and every method
    /// preserves it.
    pub open spec fn inv(&self) -> bool {
        &&& 0 <= self.cur() < self.lanes_seq().len()
        &&& forall|k: int|
            0 <= k < self.lanes_seq().len() ==> (#[trigger] self.lanes_seq()[k]).cards.inv()
    }

    /// A board with one empty lane per name, focused on the first lane.
    pub fn new(lane_names: &Vec<String>) -> (board: Board)
        requires
            lane_names@.len() >= 1,
        ensures
            board.inv(),
            board.cur() == 0,
            board.lanes_seq().len() == lane_names@.len(),
            forall|k: int|
                0 <= k < lane_names@.len() ==> {
                    &&& (#[trigger] board.lanes_seq()[k]).name@ == lane_names@[k]@
                    &&& board.lanes_seq()[k].cards@.items.len() == 0
                    &&& board.lanes_seq()[k].cards@.selected is None
                },
    {
        let mut lanes: Vec<Lane> = Vec::new();
        let mut k: usize = 0;
        while k < lane_names.len()
            invariant
                k <= lane_names@.len(),
                lanes@.len() == k as int,
                forall|j: int|
                    0 <= j < k as int ==> {
                        &&& (#[trigger] lanes@[j]).name@ == lane_names@[j]@
                        &&& lanes@[j].cards@.items.len() == 0
                        &&& lanes@[j].cards@.selected is None
                        &&& lanes@[j].cards.inv()
                    },
            decreases lane_names@.len() - k,
        {
            let lane = Lane {
                name: lane_names[k].clone(),
                cards: SelectionList::with_items(Vec::new()),
            };
            lanes.push(lane);
            k = k + 1;
        }
        Board { lanes, current_lane: 0 }
    }

    /// Number of lanes.
    pub fn lane_count(&self) -> (n: usize)
        ensures
            n == self.lanes_seq().len(),
    {
        self.lanes.len()
    }

    /// The index of the lane that currently has keyboard focus.
    pub fn current_lane(&self) -> (i: usize)
        ensures
            i == self.cur(),
    {
        self.current_lane
    }

    /// A read-only look at lane `index`.
    pub fn lane(&self, index: usize) -> (r: &Lane)
        requires
            index < self.lanes_seq().len(),
        ensures
            *r == self.lanes_seq()[index as int],
    {
        &self.lanes[index]
    }

    /// Moves the current lane's card selection one step forward, cyclically.
    pub fn select_next(&mut self)
        requires
            old(self).inv(),
        ensures
            final(self).inv(),
            select_step_state(
                *old(self),
                *final(self),
                spec_next(
                    old(self).lanes_seq()[old(self).cur()].cards@.selected,
                    old(self).lanes_seq()[old(self).cur()].cards@.items.len(),
                ),
            ),
    {
        let index = self.current_lane;
        let lane = &mut self.lanes[index];
        lane.cards.next();
    }

    /// Moves the current lane's card selection one step backward, cyclically.
    pub fn select_previous(&mut self)
        requires
            old(self).inv(),
        ensures
            final(self).inv(),
            select_step_state(
                *old(self),
                *final(self),
                spec_previous(
                    old(self).lanes_seq()[old(self).cur()].cards@.selected,
                    old(self).lanes_seq()[old(self).cur()].cards@.items.len(),
                ),
            ),
    {
        let index = self.current_lane;
        let lane = &mut self.lanes[index];
        lane.cards.previous();
    }

    /// Switches keyboard focus to the neighbouring lane without moving any
    /// card: the old lane is unselected and the new lane selects a card, as
    /// a card move does, but card data is untouched. A no-op reporting
    /// `AtBoundary` past the first or last lane: lane traversal does not
    /// wrap.
    pub fn navigate(&mut self, direction: NavDirection) -> (r: Result<(), KanbanError>)
        requires
            old(self).inv(),
        ensures
            final(self).inv(),
            !nav_in_range(*old(self), direction) ==> {
                &&& r matches Err(e) && e == KanbanError::AtBoundary
                &&& *final(self) == *old(self)
            },
            nav_in_range(*old(self), direction) ==> {
                &&& r is Ok
                &&& navigate_ok_state(*old(self), *final(self), direction)
            },
    {
        let len = self.lanes.len();
        let target: usize = match direction {
            NavDirection::Left => {
                if self.current_lane == 0 {
                    return Err(KanbanError::AtBoundary);
                }
                self.current_lane - 1
            },
            NavDirection::Right => {
                if self.current_lane + 1 >= len {
                    return Err(KanbanError::AtBoundary);
                }
                self.current_lane + 1
            },
        };
        let source = self.current_lane;
        let source_lane = &mut self.lanes[source];
        source_lane.cards.unselect();
        let target_lane = &mut self.lanes[target];
        target_lane.cards.next();
        self.current_lane = target;
        Ok(())
    }

    /// Moves the currently selected card of the current lane into the
    /// neighbouring lane, atomically: either the whole move happens — the
    /// card leaves the source lane, lands at the end of the target lane,
    /// focus switches to the target lane and a card is selected there — or
    /// nothing changes at all. The total card count across all lanes is
    /// preserved in every case: cards are neither duplicated nor lost.
    ///
    /// A no-op reporting `AtBoundary` past the first or last lane (lane
    /// traversal does not wrap), and `EmptySelection` when no card is
    /// selected in the current lane.
    pub fn move_current_card(&mut self, direction: MoveDirection) -> (r: Result<(), KanbanError>)
        requires
            old(self).inv(),
        ensures
            final(self).inv(),
            total_cards(final(self).lanes_seq()) == total_cards(old(self).lanes_seq()),
            !move_in_range(*old(self), direction) ==> {
                &&& r matches Err(e) && e == KanbanError::AtBoundary
                &&& *final(self) == *old(self)
            },
            move_in_range(*old(self), direction) && old(self).lanes_seq()[old(
                self,
            ).cur()].cards@.selected is None ==> {
                &&& r matches Err(e) && e == KanbanError::EmptySelection
                &&& *final(self) == *old(self)
            },
            move_in_range(*old(self), direction) && old(self).lanes_seq()[old(
                self,
            ).cur()].cards@.selected is Some ==> {
                &&& r is Ok
                &&& move_ok_state(*old(self), *final(self), direction)
            },
    {
        let len = self.lanes.len();
        let target: usize = match direction {
            MoveDirection::Previous => {
                if self.current_lane == 0 {
                    return Err(KanbanError::AtBoundary);
                }
                self.current_lane - 1
            },
            MoveDirection::Next => {
                if self.current_lane + 1 >= len {
                    return Err(KanbanError::AtBoundary);
                }
                self.current_lane + 1
            },
        };
        let source = self.current_lane;
        let index: usize = match self.lanes[source].cards.selected_index() {
            None => {
                return Err(KanbanError::EmptySelection);
            },
            Some(i) => i,
        };
        let source_lane = &mut self.lanes[source];
        let card = match source_lane.cards.remove(index) {
            Ok(c) => c,
            // Not reachable: a selected index is in range by the lane's
            // well-formedness, so the removal cannot be refused.
            Err(e) => {
                return Err(e);
            },
        };
        let target_lane = &mut self.lanes[target];
        target_lane.cards.push(card);
        target_lane.cards.next();
        self.current_lane = target;
        proof {
            let lanes0 = old(self).lanes_seq();
            let source_lane1 = self.lanes@[source as int];
            let target_lane1 = self.lanes@[target as int];
            assert(self.lanes@ =~= lanes0.update(source as int, source_lane1).update(
                target as int,
                target_lane1,
            ));
            lemma_total_cards_update(lanes0, source as int, source_lane1);
            lemma_total_cards_update(
                lanes0.update(source as int, source_lane1),
                target as int,
                target_lane1,
            );
        }
        Ok(())
    }

    /// The currently highlighted card, as a copy, or `None` when the current
    /// lane has no selection. Always safe to call: an empty or unselected
    /// lane yields `None`, never a fault.
    pub fn get_current_card(&self) -> (r: Option<Card>)
        requires
            self.inv(),
        ensures
            match self.lanes_seq()[self.cur()].cards@.selected {
                Some(i) => r matches Some(card) && card@
                    == self.lanes_seq()[self.cur()].cards@.items[i]@,
                None => r is None,
            },
    {
        match self.lanes[self.current_lane].cards.current() {
            Some(card) => Some(card.clone()),
            None => None,
        }
    }

    /// Appends `card` at the end of lane `lane_index`; the lane's selection,
    /// the focus and every other lane are untouched.
    pub fn push_card(&mut self, lane_index: usize, card: Card)
        requires
            old(self).inv(),
            lane_index < old(self).lanes_seq().len(),
        ensures
            final(self).inv(),
            final(self).cur() == old(self).cur(),
            lanes_preserved_except(*old(self), *final(self), lane_index as int, lane_index as int),
            ({
                let lane0 = old(self).lanes_seq()[lane_index as int];
                let lane1 = final(self).lanes_seq()[lane_index as int];
                &&& lane1.name == lane0.name
                &&& lane1.cards@.items == lane0.cards@.items.push(card)
                &&& lane1.cards@.selected == lane0.cards@.selected
            }),
    {
        let lane = &mut self.lanes[lane_index];
        lane.cards.push(card);
    }

    /// Appends `paragraph` to the description log of the card at
    /// `card_index` in lane `lane_index`; see [`append_description_state`]
    /// for everything this leaves untouched.
    pub fn append_description(&mut self, lane_index: usize, card_index: usize, paragraph: String)
        requires
            old(self).inv(),
            lane_index < old(self).lanes_seq().len(),
            card_index < old(self).lanes_seq()[lane_index as int].cards@.items.len(),
        ensures
            final(self).inv(),
            append_description_state(
                *old(self),
                *final(self),
                lane_index as int,
                card_index as int,
                paragraph@,
            ),
    {
        let lane = &mut self.lanes[lane_index];
        let mut card = lane.cards.replace(card_index, Card::default());
        card.push_paragraph(paragraph);
        let _ = lane.cards.replace(card_index, card);
    }
}

} // verus!

//! The card: the unit of work held inside each lane.

use vstd::prelude::*;

verus! {

/// Mathematical model of a [`Card`].
pub ghost struct CardView {
    pub title: Seq<char>,
    pub description: Seq<Seq<char>>,
    pub priority: u8,
}

/// A unit of work: a title, an append-only log of description paragraphs,
/// and a small priority number.
///
/// Which lane a card sits in is decided purely by container membership; the
/// card itself does not record a lane, so there is exactly one authority for
/// its position.
pub struct Card {
    pub title: String,
    pub description: Vec<String>,
    pub priority: u8,
}

impl View for Card {
    type V = CardView;

    open spec fn view(&self) -> CardView {
        CardView {
            title: self.title@,
            description: self.description.deep_view(),
            priority: self.priority,
        }
    }
}

impl Card {
    /// A new card with the given title, an empty description log, and the
    /// given priority.
    pub fn new(title: String, priority: u8) -> (card: Card)
        ensures
            card@.title == title@,
            card@.description == Seq::<Seq<char>>::empty(),
            card@.priority == priority,
    {
        let card = Card { title, description: Vec::new(), priority };
        proof {
            assert(card@.description =~= Seq::<Seq<char>>::empty());
        }
        card
    }

    /// Appends one paragraph to the description log. Paragraphs are only
    /// ever appended, never edited or removed.
    pub fn push_paragraph(&mut self, paragraph: String)
        ensures
            final(self)@.title == old(self)@.title,
            final(self)@.description == old(self)@.description.push(paragraph@),
            final(self)@.priority == old(self)@.priority,
    {
        self.description.push(paragraph);
        proof {
            assert(self@.description =~= old(self)@.description.push(paragraph@));
        }
    }
}

impl Default for Card {
    /// The blank card: empty title, no paragraphs, priority 0.
    fn default() -> (card: Card)
        ensures
            card@.title == Seq::<char>::empty(),
            card@.description == Seq::<Seq<char>>::empty(),
            card@.priority == 0,
    {
        let card = Card { title: String::new(), description: Vec::new(), priority: 0 };
        proof {
            assert(card@.description =~= Seq::<Seq<char>>::empty());
        }
        card
    }
}

impl Clone for Card {
    /// A clone models the same card: same title, description and priority.
    fn clone(&self) -> (card: Card)
        ensures
            card@ == self@,
    {
        let card = Card {
            title: self.title.clone(),
            description: self.description.clone(),
            priority: self.priority,
        };
        proof {
            assert forall|i: int| 0 <= i < self.description@.len() implies card.description@[i]
                == self.description@[i] by {
                assert(cloned::<String>(self.description@[i], card.description@[i]));
            }
            assert(card.description@ =~= self.description@);
            assert(card@.description =~= self@.description);
        }
        card
    }
}

} // verus!

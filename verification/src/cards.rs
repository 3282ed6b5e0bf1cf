//! The domain records: flashcards and decks, with their mathematical models.

use vstd::prelude::*;

verus! {

/// A question/answer study unit with a system-assigned identifier.
/// The identifier is chosen by this library when the card is accepted from the
/// generator's output, never by the external model.
#[derive(Debug, Clone, PartialEq, Eq)]
pub struct Flashcard {
    pub id: String,
    pub question: String,
    pub answer: String,
}

/// A named, ordered collection of flashcards. Ordering is insertion order and
/// is significant to callers.
#[derive(Debug, Clone, PartialEq, Eq)]
pub struct Deck {
    pub name: String,
    pub cards: Vec<Flashcard>,
}

/// Model of a flashcard: each text field as a sequence of characters.
#[verifier::ext_equal]
pub struct FlashcardV {
    pub id: Seq<char>,
    pub question: Seq<char>,
    pub answer: Seq<char>,
}

/// Model of a deck: its name and the ordered sequence of card models.
#[verifier::ext_equal]
pub struct DeckV {
    pub name: Seq<char>,
    pub cards: Seq<FlashcardV>,
}

impl View for Flashcard {
    type V = FlashcardV;

    open spec fn view(&self) -> FlashcardV {
        FlashcardV { id: self.id@, question: self.question@, answer: self.answer@ }
    }
}

impl View for Deck {
    type V = DeckV;

    open spec fn view(&self) -> DeckV {
        DeckV { name: self.name@, cards: self.cards@.map_values(|c: Flashcard| c@) }
    }
}

} // verus!

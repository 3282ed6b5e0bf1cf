//! The deck persistence format: writing, reading back, and rejection of
//! texts that do not have the deck shape.

use flashcards::cards::{Deck, Flashcard};
use flashcards::persist::{deck_from_text, deck_to_text, PersistenceError};

fn sample_deck() -> Deck {
    Deck {
        name: "Geography".to_string(),
        cards: vec![
            Flashcard {
                id: "id-1".to_string(),
                question: "What is the capital of France?".to_string(),
                answer: "Paris".to_string(),
            },
            Flashcard {
                id: "id-2".to_string(),
                question: "Longest river?".to_string(),
                answer: "The Nile".to_string(),
            },
        ],
    }
}

#[test]
fn deck_round_trips_through_the_persistence_format() {
    let deck = sample_deck();
    let text = deck_to_text(&deck);
    let back = deck_from_text(&text).unwrap();
    assert_eq!(back.name, deck.name);
    assert_eq!(back.cards.len(), deck.cards.len());
    for (a, b) in back.cards.iter().zip(deck.cards.iter()) {
        assert_eq!(a.id, b.id);
        assert_eq!(a.question, b.question);
        assert_eq!(a.answer, b.answer);
    }
}

#[test]
fn deck_round_trip_preserves_awkward_text() {
    let deck = Deck {
        name: "Quotes \"and\" slashes \\ and\nnewlines\tand unicode: déjà vu ✓".to_string(),
        cards: vec![Flashcard {
            id: String::new(),
            question: "{\"cards\": looks like JSON}".to_string(),
            answer: "".to_string(),
        }],
    };
    let text = deck_to_text(&deck);
    let back = deck_from_text(&text).unwrap();
    assert_eq!(back.name, deck.name);
    assert_eq!(back.cards[0].id, deck.cards[0].id);
    assert_eq!(back.cards[0].question, deck.cards[0].question);
    assert_eq!(back.cards[0].answer, deck.cards[0].answer);
}

#[test]
fn empty_deck_round_trips() {
    let deck = Deck { name: String::new(), cards: vec![] };
    let text = deck_to_text(&deck);
    let back = deck_from_text(&text).unwrap();
    assert_eq!(back.name, "");
    assert_eq!(back.cards.len(), 0);
}

#[test]
fn written_deck_text_is_readable_json_of_the_documented_shape() {
    let text = deck_to_text(&sample_deck());
    let v: serde_json::Value = serde_json::from_str(&text).unwrap();
    assert_eq!(v["name"], "Geography");
    assert_eq!(v["cards"][0]["id"], "id-1");
    assert_eq!(v["cards"][1]["answer"], "The Nile");
}

#[test]
fn reading_accepts_any_field_order_and_extra_fields() {
    let text = r#"{
        "cards": [
            {"answer":"A","extra":true,"question":"Q","id":"x"}
        ],
        "name": "N",
        "version": 2
    }"#;
    let deck = deck_from_text(text).unwrap();
    assert_eq!(deck.name, "N");
    assert_eq!(deck.cards[0].id, "x");
    assert_eq!(deck.cards[0].question, "Q");
    assert_eq!(deck.cards[0].answer, "A");
}

#[test]
fn reading_rejects_texts_without_the_deck_shape() {
    assert_eq!(deck_from_text("not json"), Err(PersistenceError::InvalidDeck));
    assert_eq!(deck_from_text("[]"), Err(PersistenceError::InvalidDeck));
    assert_eq!(
        deck_from_text(r#"{"cards":[]}"#),
        Err(PersistenceError::InvalidDeck)
    );
    assert_eq!(
        deck_from_text(r#"{"name":"N"}"#),
        Err(PersistenceError::InvalidDeck)
    );
    assert_eq!(
        deck_from_text(r#"{"name":"N","cards":[{"id":"x","question":"Q"}]}"#),
        Err(PersistenceError::InvalidDeck)
    );
    assert_eq!(
        deck_from_text(r#"{"name":"N","cards":[{"id":1,"question":"Q","answer":"A"}]}"#),
        Err(PersistenceError::InvalidDeck)
    );
    assert_eq!(PersistenceError::InvalidDeck.message(), "Invalid deck file");
}

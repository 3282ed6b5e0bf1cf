//! The deck persistence format: a deck as pretty-printed JSON of shape
//! `{"name": ..., "cards": [{"id", "question", "answer"}, ...]}`, and the
//! reading of that shape back. Writing the text to disk and reading it again
//! are the caller's affair; this module owns the format and proves the round
//! trip.

use vstd::prelude::*;
use vstd::string::StringExecFns;
use crate::cards::{Deck, DeckV, Flashcard, FlashcardV};
use crate::json::{
    Json, JsonV, jview, elems_view, fields_view, obj_get, keys_unique, depth_at_most, json_parse,
    parse_json, json_to_text, lookup, lemma_jview_arr, lemma_jview_obj,
};

verus! {

broadcast use crate::json::lemma_jview_arr, crate::json::lemma_jview_obj;

/// Why a deck text was rejected.
#[derive(Debug, Clone, Copy, PartialEq, Eq)]
pub enum PersistenceError {
    /// The text was not JSON of the deck shape.
    InvalidDeck,
}

impl PersistenceError {
    /// The user-facing description of the failure.
    pub fn message(&self) -> (r: String)
        ensures
            r@ == "Invalid deck file"@,
    {
        String::from_str("Invalid deck file")
    }
}

/// The tree a card is written as: an object carrying its three texts.
pub open spec fn card_json(c: FlashcardV) -> JsonV {
    JsonV::Obj(
        seq![
            ("id"@, JsonV::Str(c.id)),
            ("question"@, JsonV::Str(c.question)),
            ("answer"@, JsonV::Str(c.answer)),
        ],
    )
}

/// The trees of a card sequence, in deck order.
pub open spec fn cards_json(cs: Seq<FlashcardV>) -> Seq<JsonV> {
    cs.map_values(|c: FlashcardV| card_json(c))
}

/// The tree a deck is written as.
pub open spec fn deck_json(d: DeckV) -> JsonV {
    JsonV::Obj(
        seq![("name"@, JsonV::Str(d.name)), ("cards"@, JsonV::Arr(cards_json(d.cards)))],
    )
}

/// The card a tree reads back as, if it is an object whose `id`, `question`
/// and `answer` fields are all strings.
pub open spec fn card_of_json(j: JsonV) -> Option<FlashcardV> {
    match j {
        JsonV::Obj(fs) => match (obj_get(fs, "id"@), obj_get(fs, "question"@), obj_get(
            fs,
            "answer"@,
        )) {
            (Some(JsonV::Str(id)), Some(JsonV::Str(q)), Some(JsonV::Str(a))) => Some(
                FlashcardV { id, question: q, answer: a },
            ),
            _ => None,
        },
        _ => None,
    }
}

/// The cards a tree sequence reads back as — or `None` as soon as one tree is
/// not a card.
pub open spec fn cards_of_json(es: Seq<JsonV>) -> Option<Seq<FlashcardV>>
    decreases es.len(),
{
    if es.len() == 0 {
        Some(Seq::empty())
    } else {
        match (cards_of_json(es.drop_last()), card_of_json(es.last())) {
            (Some(init), Some(c)) => Some(init.push(c)),
            _ => None,
        }
    }
}

/// The deck a tree reads back as, if it has the deck shape.
pub open spec fn deck_of_json(j: JsonV) -> Option<DeckV> {
    match j {
        JsonV::Obj(fs) => match (obj_get(fs, "name"@), obj_get(fs, "cards"@)) {
            (Some(JsonV::Str(name)), Some(JsonV::Arr(es))) => match cards_of_json(es) {
                Some(cs) => Some(DeckV { name, cards: cs }),
                _ => None,
            },
            _ => None,
        },
        _ => None,
    }
}

/// The deck a text reads back as: it must parse, and the tree must have the
/// deck shape.
pub open spec fn decoded_deck(p: Option<JsonV>) -> Option<DeckV> {
    match p {
        Some(j) => deck_of_json(j),
        None => None,
    }
}

/// All-or-nothing: one tree that is not a card invalidates the whole list.
pub proof fn lemma_cards_none(es: Seq<JsonV>, i: int)
    requires
        0 <= i < es.len(),
        card_of_json(es[i]) is None,
    ensures
        cards_of_json(es) is None,
    decreases es.len(),
{
    if i < es.len() - 1 {
        assert(es.drop_last()[i] == es[i]);
        lemma_cards_none(es.drop_last(), i);
    }
}

/// A card's written tree is well-formed: its three field names are distinct,
/// and it nests two levels at most.
proof fn lemma_card_json_wf(c: FlashcardV)
    ensures
        keys_unique(card_json(c)),
        depth_at_most(card_json(c), 98),
{
    reveal_strlit("id");
    reveal_strlit("question");
    reveal_strlit("answer");
    let fs = card_json(c)->Obj_0;
    assert(fs.len() == 3);
    assert(fs[0] == ("id"@, JsonV::Str(c.id)));
    assert(fs[1] == ("question"@, JsonV::Str(c.question)));
    assert(fs[2] == ("answer"@, JsonV::Str(c.answer)));
    assert("id"@.len() == 2 && "question"@.len() == 8 && "answer"@.len() == 6);
    assert(keys_unique(JsonV::Str(c.id)));
    assert(keys_unique(JsonV::Str(c.question)));
    assert(keys_unique(JsonV::Str(c.answer)));
    assert forall|i: int| 0 <= i < fs.len() implies keys_unique(#[trigger] fs[i].1) by {
        if i == 0 {
        } else if i == 1 {
        } else {
            assert(fs[i] == fs[2]);
        }
    }
    assert(depth_at_most(JsonV::Str(c.id), 97));
    assert(depth_at_most(JsonV::Str(c.question), 97));
    assert(depth_at_most(JsonV::Str(c.answer), 97));
    assert forall|i: int| 0 <= i < fs.len() implies depth_at_most(#[trigger] fs[i].1, 97) by {
        if i == 0 {
        } else if i == 1 {
        } else {
            assert(fs[i] == fs[2]);
        }
    }
}

/// The written tree is well-formed: every object names each field once, and
/// the nesting is shallow.
proof fn lemma_deck_json_wf(d: DeckV)
    ensures
        keys_unique(deck_json(d)),
        depth_at_most(deck_json(d), 100),
{
    reveal_strlit("name");
    reveal_strlit("cards");
    let cs = cards_json(d.cards);
    assert forall|k: int| 0 <= k < cs.len() implies keys_unique(#[trigger] cs[k]) && depth_at_most(
        cs[k],
        98,
    ) by {
        assert(cs[k] == card_json(d.cards[k]));
        lemma_card_json_wf(d.cards[k]);
    }
    assert(keys_unique(JsonV::Arr(cs)));
    assert(depth_at_most(JsonV::Arr(cs), 99));
    let fs = deck_json(d)->Obj_0;
    assert(fs.len() == 2);
    assert(fs[0] == ("name"@, JsonV::Str(d.name)));
    assert(fs[1] == ("cards"@, JsonV::Arr(cs)));
    assert("name"@.len() == 4 && "cards"@.len() == 5);
    assert(keys_unique(JsonV::Str(d.name)));
    assert(depth_at_most(JsonV::Str(d.name), 99));
    assert forall|i: int| 0 <= i < fs.len() implies keys_unique(#[trigger] fs[i].1)
        && depth_at_most(fs[i].1, 99) by {
        if i == 0 {
        } else {
            assert(fs[i] == fs[1]);
        }
    }
}

/// A card's round trip through its tree.
pub proof fn lemma_card_round_trip(c: FlashcardV)
    ensures
        card_of_json(card_json(c)) == Some(c),
{
    reveal_strlit("id");
    reveal_strlit("question");
    reveal_strlit("answer");
    let fs = card_json(c)->Obj_0;
    assert(fs.len() == 3);
    assert(fs[0] == ("id"@, JsonV::Str(c.id)));
    assert(fs[1] == ("question"@, JsonV::Str(c.question)));
    assert(fs[2] == ("answer"@, JsonV::Str(c.answer)));
    assert("id"@.len() == 2 && "question"@.len() == 8 && "answer"@.len() == 6);
    assert(obj_get(fs, "id"@) == Some(JsonV::Str(c.id)));
    assert(fs.drop_first()[0] == fs[1]);
    assert(fs.drop_first().drop_first()[0] == fs[2]);
    assert(obj_get(fs, "question"@) == obj_get(fs.drop_first(), "question"@));
    assert(obj_get(fs.drop_first(), "question"@) == Some(JsonV::Str(c.question)));
    assert(obj_get(fs, "answer"@) == obj_get(fs.drop_first(), "answer"@));
    assert(obj_get(fs.drop_first(), "answer"@) == obj_get(
        fs.drop_first().drop_first(),
        "answer"@,
    ));
    assert(obj_get(fs.drop_first().drop_first(), "answer"@) == Some(JsonV::Str(c.answer)));
    assert(card_of_json(card_json(c)) matches Some(cv) && cv =~= c);
}

/// A card list's round trip through its trees.
pub proof fn lemma_cards_round_trip(cs: Seq<FlashcardV>)
    ensures
        cards_of_json(cards_json(cs)) == Some(cs),
    decreases cs.len(),
{
    if cs.len() == 0 {
        assert(cards_json(cs) =~= Seq::<JsonV>::empty());
    } else {
        lemma_cards_round_trip(cs.drop_last());
        lemma_card_round_trip(cs.last());
        assert(cards_json(cs).drop_last() =~= cards_json(cs.drop_last()));
        assert(cards_json(cs).last() == card_json(cs.last()));
        assert(cards_of_json(cards_json(cs))->0 =~= cs);
    }
}

/// Round trip at the tree level: a deck written as a tree reads back as
/// itself — name, identifiers, questions, answers and order all preserved.
pub proof fn lemma_deck_round_trip(d: DeckV)
    ensures
        deck_of_json(deck_json(d)) == Some(d),
{
    reveal_strlit("name");
    reveal_strlit("cards");
    let fs = deck_json(d)->Obj_0;
    assert(fs.len() == 2);
    assert(fs[0] == ("name"@, JsonV::Str(d.name)));
    assert(fs[1] == ("cards"@, JsonV::Arr(cards_json(d.cards))));
    assert("name"@.len() == 4 && "cards"@.len() == 5);
    assert(obj_get(fs, "name"@) == Some(JsonV::Str(d.name)));
    assert(fs.drop_first()[0] == fs[1]);
    assert(obj_get(fs, "cards"@) == obj_get(fs.drop_first(), "cards"@));
    assert(obj_get(fs.drop_first(), "cards"@) == Some(JsonV::Arr(cards_json(d.cards))));
    lemma_cards_round_trip(d.cards);
    assert(deck_of_json(deck_json(d)) matches Some(dv) && dv =~= d);
}

/// Round trip at the text level: any text that parses to a deck's written
/// tree — as the text this library writes for it does — reads back as that
/// deck.
pub proof fn lemma_deck_text_round_trip(d: DeckV, text: Seq<char>)
    requires
        json_parse(text) == Some(deck_json(d)),
    ensures
        decoded_deck(json_parse(text)) == Some(d),
{
    lemma_deck_round_trip(d);
}

/// Builds the tree a deck is written as.
pub fn deck_to_json(d: &Deck) -> (j: Json)
    ensures
        jview(j) == deck_json(d@),
{
    let mut card_nodes: Vec<Json> = Vec::new();
    let mut i: usize = 0;
    while i < d.cards.len()
        invariant
            i <= d.cards@.len(),
            card_nodes@.len() == i,
            forall|k: int|
                0 <= k < i ==> jview(#[trigger] card_nodes@[k]) == card_json(d.cards@[k]@),
        decreases d.cards@.len() - i,
    {
        let c = &d.cards[i];
        let fields: Vec<(String, Json)> = vec![
            (String::from_str("id"), Json::Str(c.id.clone())),
            (String::from_str("question"), Json::Str(c.question.clone())),
            (String::from_str("answer"), Json::Str(c.answer.clone())),
        ];
        let node = Json::Obj(fields);
        proof {
            assert(fields_view(node->Obj_0@) =~~= card_json(d.cards@[i as int]@)->Obj_0);
            assert(jview(node) =~~= card_json(d.cards@[i as int]@));
        }
        card_nodes.push(node);
        i = i + 1;
    }
    proof {
        assert(elems_view(card_nodes@) =~~= cards_json(d@.cards));
    }
    let fields: Vec<(String, Json)> = vec![
        (String::from_str("name"), Json::Str(d.name.clone())),
        (String::from_str("cards"), Json::Arr(card_nodes)),
    ];
    let j = Json::Obj(fields);
    proof {
        assert(fields_view(j->Obj_0@) =~~= deck_json(d@)->Obj_0);
        assert(jview(j) =~~= deck_json(d@));
    }
    j
}

/// Writes a deck in the persistence format: pretty-printed JSON that parses
/// back to exactly the deck's tree.
pub fn deck_to_text(d: &Deck) -> (r: String)
    ensures
        json_parse(r@) == Some(deck_json(d@)),
{
    let j = deck_to_json(d);
    proof {
        lemma_deck_json_wf(d@);
    }
    json_to_text(&j)
}

/// Reads a deck back from the persistence format: the text must be JSON of
/// the deck shape, and the deck read is exactly the one the text encodes.
pub fn deck_from_text(s: &str) -> (r: Result<Deck, PersistenceError>)
    ensures
        r is Ok <==> decoded_deck(json_parse(s@)) is Some,
        r matches Ok(d) ==> decoded_deck(json_parse(s@)) == Some(d@),
        r matches Err(e) ==> e == PersistenceError::InvalidDeck,
{
    match parse_json(s) {
        None => Err(PersistenceError::InvalidDeck),
        Some(doc) => match &doc {
            Json::Obj(fs) => {
                proof {
                    lemma_jview_obj(*fs);
                }
                let nkey = String::from_str("name");
                let ckey = String::from_str("cards");
                let name: &String = match lookup(fs, &nkey) {
                    Some(Json::Str(n)) => n,
                    _ => {
                        return Err(PersistenceError::InvalidDeck);
                    },
                };
                match lookup(fs, &ckey) {
                    Some(Json::Arr(es)) => {
                        proof {
                            lemma_jview_arr(*es);
                        }
                        let ikey = String::from_str("id");
                        let qkey = String::from_str("question");
                        let akey = String::from_str("answer");
                        let mut cards: Vec<Flashcard> = Vec::new();
                        let mut i: usize = 0;
                        while i < es.len()
                            invariant
                                i <= es@.len(),
                                ikey@ == "id"@,
                                qkey@ == "question"@,
                                akey@ == "answer"@,
                                json_parse(s@) == Some(JsonV::Obj(fields_view(fs@))),
                                obj_get(fields_view(fs@), "name"@) == Some(JsonV::Str(name@)),
                                obj_get(fields_view(fs@), "cards"@) == Some(
                                    JsonV::Arr(elems_view(es@)),
                                ),
                                cards_of_json(elems_view(es@).take(i as int)) == Some(
                                    cards@.map_values(|c: Flashcard| c@),
                                ),
                            decreases es@.len() - i,
                        {
                            proof {
                                let evs = elems_view(es@);
                                assert(evs.take(i + 1).drop_last() =~= evs.take(i as int));
                                assert(evs.take(i + 1).last() == evs[i as int]);
                                assert(evs[i as int] == jview(es@[i as int]));
                            }
                            match &es[i] {
                                Json::Obj(cfs) => {
                                    proof {
                                        lemma_jview_obj(*cfs);
                                    }
                                    let id: &String = match lookup(cfs, &ikey) {
                                        Some(Json::Str(v)) => v,
                                        _ => {
                                            proof {
                                                lemma_cards_none(elems_view(es@), i as int);
                                            }
                                            return Err(PersistenceError::InvalidDeck);
                                        },
                                    };
                                    let q: &String = match lookup(cfs, &qkey) {
                                        Some(Json::Str(v)) => v,
                                        _ => {
                                            proof {
                                                lemma_cards_none(elems_view(es@), i as int);
                                            }
                                            return Err(PersistenceError::InvalidDeck);
                                        },
                                    };
                                    let a: &String = match lookup(cfs, &akey) {
                                        Some(Json::Str(v)) => v,
                                        _ => {
                                            proof {
                                                lemma_cards_none(elems_view(es@), i as int);
                                            }
                                            return Err(PersistenceError::InvalidDeck);
                                        },
                                    };
                                    cards.push(
                                        Flashcard {
                                            id: id.clone(),
                                            question: q.clone(),
                                            answer: a.clone(),
                                        },
                                    );
                                    proof {
                                        assert(cards@.map_values(|c: Flashcard| c@) =~= cards@
                                            .drop_last().map_values(|c: Flashcard| c@).push(
                                            cards@.last()@,
                                        ));
                                    }
                                },
                                _ => {
                                    proof {
                                        lemma_cards_none(elems_view(es@), i as int);
                                    }
                                    return Err(PersistenceError::InvalidDeck);
                                },
                            }
                            i = i + 1;
                        }
                        proof {
                            assert(elems_view(es@).take(i as int) =~= elems_view(es@));
                        }
                        let d = Deck { name: name.clone(), cards };
                        proof {
                            assert(d@ =~~= decoded_deck(json_parse(s@))->0);
                        }
                        Ok(d)
                    },
                    _ => Err(PersistenceError::InvalidDeck),
                }
            },
            _ => Err(PersistenceError::InvalidDeck),
        },
    }
}

} // verus!

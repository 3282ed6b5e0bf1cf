//! Validation and normalization of the generator's output: the semi-trusted
//! JSON payload is either accepted whole — every entry well-formed — or
//! rejected whole, and accepted entries become flashcards with fresh
//! identifiers, in payload order.

use vstd::prelude::*;
use vstd::string::StringExecFns;
use crate::cards::{Flashcard, FlashcardV};
use crate::json::{
    Json, JsonV, jview, elems_view, obj_get, json_parse, parse_json, lookup, lemma_jview_arr,
    lemma_jview_obj,
};

verus! {

broadcast use crate::json::lemma_jview_arr, crate::json::lemma_jview_obj;

/// A raw question/answer pair as decoded from the model's payload, before an
/// identifier is assigned.
#[derive(Debug, Clone)]
pub struct GeneratedCard {
    pub question: String,
    pub answer: String,
}

/// The one way structural validation fails: the payload did not match
/// `{"cards": [{"question": ..., "answer": ...}, ...]}`.
#[derive(Debug, Clone, Copy, PartialEq, Eq)]
pub enum ValidationError {
    MalformedOutput,
}

impl ValidationError {
    /// The user-facing description; regeneration is the remedy.
    pub fn message(&self) -> (r: String)
        ensures
            r@ == "LLM returned invalid JSON. Try regenerating."@,
    {
        String::from_str("LLM returned invalid JSON. Try regenerating.")
    }
}

/// The question and answer texts of one payload entry, if it is an object
/// whose `question` and `answer` fields are both strings.
pub open spec fn entry_of(j: JsonV) -> Option<(Seq<char>, Seq<char>)> {
    match j {
        JsonV::Obj(fs) => match (obj_get(fs, "question"@), obj_get(fs, "answer"@)) {
            (Some(JsonV::Str(q)), Some(JsonV::Str(a))) => Some((q, a)),
            _ => None,
        },
        _ => None,
    }
}

/// The texts of a whole entry sequence, in order — or `None` as soon as one
/// entry is malformed.
pub open spec fn entries_of(es: Seq<JsonV>) -> Option<Seq<(Seq<char>, Seq<char>)>>
    decreases es.len(),
{
    if es.len() == 0 {
        Some(Seq::empty())
    } else {
        match (entries_of(es.drop_last()), entry_of(es.last())) {
            (Some(init), Some(e)) => Some(init.push(e)),
            _ => None,
        }
    }
}

/// The texts a payload tree yields, if it is an object whose `cards` field is
/// an array of well-formed entries.
pub open spec fn payload_entries(j: JsonV) -> Option<Seq<(Seq<char>, Seq<char>)>> {
    match j {
        JsonV::Obj(fs) => match obj_get(fs, "cards"@) {
            Some(JsonV::Arr(es)) => entries_of(es),
            _ => None,
        },
        _ => None,
    }
}

/// The texts a raw response text yields: it must parse, and the tree must
/// have the payload shape.
pub open spec fn accepted_entries(p: Option<JsonV>) -> Option<Seq<(Seq<char>, Seq<char>)>> {
    match p {
        Some(j) => payload_entries(j),
        None => None,
    }
}

/// All-or-nothing: one malformed entry invalidates the whole sequence.
pub proof fn lemma_entries_none(es: Seq<JsonV>, i: int)
    requires
        0 <= i < es.len(),
        entry_of(es[i]) is None,
    ensures
        entries_of(es) is None,
    decreases es.len(),
{
    if i < es.len() - 1 {
        assert(es.drop_last()[i] == es[i]);
        lemma_entries_none(es.drop_last(), i);
    }
}

/// The card texts of a decoded entry list.
pub open spec fn entry_texts(es: Seq<GeneratedCard>) -> Seq<(Seq<char>, Seq<char>)> {
    es.map_values(|e: GeneratedCard| (e.question@, e.answer@))
}

/// Decodes the payload tree: all entries or none, in payload order.
pub fn extract_entries(j: &Json) -> (r: Option<Vec<GeneratedCard>>)
    ensures
        match r {
            Some(es) => payload_entries(jview(*j)) == Some(entry_texts(es@)),
            None => payload_entries(jview(*j)) is None,
        },
{
    match j {
        Json::Obj(fs) => {
            proof {
                lemma_jview_obj(*fs);
            }
            let ckey = String::from_str("cards");
            match lookup(fs, &ckey) {
                Some(arr) => match arr {
                    Json::Arr(es) => {
                        proof {
                            lemma_jview_arr(*es);
                        }
                        let qkey = String::from_str("question");
                        let akey = String::from_str("answer");
                        let mut out: Vec<GeneratedCard> = Vec::new();
                        let mut i: usize = 0;
                        while i < es.len()
                            invariant
                                i <= es@.len(),
                                qkey@ == "question"@,
                                akey@ == "answer"@,
                                entries_of(elems_view(es@).take(i as int)) == Some(
                                    entry_texts(out@),
                                ),
                                payload_entries(jview(*j)) == entries_of(elems_view(es@)),
                            decreases es@.len() - i,
                        {
                            proof {
                                assert(elems_view(es@)[i as int] == jview(es@[i as int]));
                            }
                            match &es[i] {
                                Json::Obj(efs) => {
                                    proof {
                                        lemma_jview_obj(*efs);
                                    }
                                    let q: &String = match lookup(efs, &qkey) {
                                        Some(Json::Str(s)) => s,
                                        _ => {
                                            proof {
                                                lemma_entries_none(elems_view(es@), i as int);
                                            }
                                            return None;
                                        },
                                    };
                                    let a: &String = match lookup(efs, &akey) {
                                        Some(Json::Str(s)) => s,
                                        _ => {
                                            proof {
                                                lemma_entries_none(elems_view(es@), i as int);
                                            }
                                            return None;
                                        },
                                    };
                                    out.push(
                                        GeneratedCard { question: q.clone(), answer: a.clone() },
                                    );
                                    proof {
                                        let evs = elems_view(es@);
                                        assert(evs.take(i + 1).drop_last() =~= evs.take(i as int));
                                        assert(evs.take(i + 1).last() == evs[i as int]);
                                        assert(entry_texts(out@) =~= entry_texts(
                                            out@.drop_last(),
                                        ).push((q@, a@)));
                                    }
                                },
                                _ => {
                                    proof {
                                        lemma_entries_none(elems_view(es@), i as int);
                                    }
                                    return None;
                                },
                            }
                            i = i + 1;
                        }
                        proof {
                            assert(elems_view(es@).take(i as int) =~= elems_view(es@));
                        }
                        Some(out)
                    },
                    _ => None,
                },
                None => None,
            }
        },
        _ => None,
    }
}

/// Relies on uuid::Uuid::new_v4 and its display form: the hyphenated text of
/// a freshly drawn version-4 identifier, 36 characters long. Which identifier
/// comes back depends on process randomness; nothing is assumed beyond the
/// length.
#[verifier::external_body]
fn fresh_id() -> (r: String)
    ensures
        r@.len() == 36,
{
    uuid::Uuid::new_v4().to_string()
}

/// Cards carry exactly these identifiers, in order.
pub open spec fn cards_carry_ids(cards: Seq<FlashcardV>, ids: Seq<Seq<char>>) -> bool {
    cards.len() == ids.len() && forall|i: int|
        0 <= i < cards.len() ==> (#[trigger] cards[i]).id == ids[i]
}

/// Cards copy these texts verbatim, in order, each under a 36-character
/// identifier.
pub open spec fn cards_match_entries(
    cards: Seq<FlashcardV>,
    es: Seq<(Seq<char>, Seq<char>)>,
) -> bool {
    cards.len() == es.len() && forall|i: int|
        0 <= i < cards.len() ==> (#[trigger] cards[i]).question == es[i].0 && cards[i].answer
            == es[i].1 && cards[i].id.len() == 36
}

/// Builds one flashcard per accepted entry: texts verbatim, order preserved,
/// the i-th identifier on the i-th card.
pub fn assemble_cards(entries: &Vec<GeneratedCard>, ids: &Vec<String>) -> (r: Vec<Flashcard>)
    requires
        ids@.len() == entries@.len(),
    ensures
        r@.len() == entries@.len(),
        forall|i: int|
            0 <= i < r@.len() ==> (#[trigger] r@[i])@.question == entries@[i].question@ && r@[i]@.answer
                == entries@[i].answer@ && r@[i]@.id == ids@[i]@,
        cards_carry_ids(r@.map_values(|c: Flashcard| c@), ids@.map_values(|s: String| s@)),
{
    let mut r: Vec<Flashcard> = Vec::new();
    let mut i: usize = 0;
    while i < entries.len()
        invariant
            i <= entries@.len(),
            ids@.len() == entries@.len(),
            r@.len() == i,
            forall|k: int|
                0 <= k < i ==> (#[trigger] r@[k])@.question == entries@[k].question@ && r@[k]@.answer
                    == entries@[k].answer@ && r@[k]@.id == ids@[k]@,
        decreases entries@.len() - i,
    {
        r.push(
            Flashcard {
                id: ids[i].clone(),
                question: entries[i].question.clone(),
                answer: entries[i].answer.clone(),
            },
        );
        i = i + 1;
    }
    r
}

/// Decodes a raw response text and, where the whole payload is well-formed,
/// returns one flashcard per entry — texts verbatim, payload order, each with
/// a fresh 36-character identifier. Any deviation from the required shape
/// rejects the whole call.
pub fn normalize(raw: &str) -> (r: Result<Vec<Flashcard>, ValidationError>)
    ensures
        r is Ok <==> accepted_entries(json_parse(raw@)) is Some,
        r matches Ok(cards) ==> cards_match_entries(
            cards@.map_values(|c: Flashcard| c@),
            accepted_entries(json_parse(raw@)) -> 0,
        ),
        r matches Err(e) ==> e == ValidationError::MalformedOutput,
{
    match parse_json(raw) {
        Some(j) => match extract_entries(&j) {
            Some(entries) => {
                let mut ids: Vec<String> = Vec::new();
                while ids.len() < entries.len()
                    invariant
                        ids@.len() <= entries@.len(),
                        forall|k: int| 0 <= k < ids@.len() ==> (#[trigger] ids@[k])@.len() == 36,
                    decreases entries@.len() - ids@.len(),
                {
                    ids.push(fresh_id());
                }
                let cards = assemble_cards(&entries, &ids);
                proof {
                    let cvs = cards@.map_values(|c: Flashcard| c@);
                    let texts = entry_texts(entries@);
                    assert forall|i: int| 0 <= i < cvs.len() implies (#[trigger] cvs[i]).question
                        == texts[i].0 && cvs[i].answer == texts[i].1 && cvs[i].id.len() == 36 by {
                        assert(cvs[i] == cards@[i]@);
                        assert(texts[i] == (entries@[i].question@, entries@[i].answer@));
                    }
                }
                Ok(cards)
            },
            None => Err(ValidationError::MalformedOutput),
        },
        None => Err(ValidationError::MalformedOutput),
    }
}

/// Identifier uniqueness across assemblies: cards built over two identifier
/// sequences that share no identifier never collide, whichever entries they
/// carry.
pub proof fn lemma_no_id_collision(
    cards1: Seq<FlashcardV>,
    ids1: Seq<Seq<char>>,
    cards2: Seq<FlashcardV>,
    ids2: Seq<Seq<char>>,
)
    requires
        cards_carry_ids(cards1, ids1),
        cards_carry_ids(cards2, ids2),
        forall|i: int, k: int|
            0 <= i < ids1.len() && 0 <= k < ids2.len() ==> ids1[i] != ids2[k],
    ensures
        forall|i: int, k: int|
            0 <= i < cards1.len() && 0 <= k < cards2.len() ==> (#[trigger] cards1[i]).id != (
            #[trigger] cards2[k]).id,
{
}

/// Identifier uniqueness within one assembly: distinct identifiers give
/// distinct cards.
pub proof fn lemma_unique_ids_within(cards: Seq<FlashcardV>, ids: Seq<Seq<char>>)
    requires
        cards_carry_ids(cards, ids),
        forall|i: int, k: int| 0 <= i < k < ids.len() ==> ids[i] != ids[k],
    ensures
        forall|i: int, k: int|
            0 <= i < k < cards.len() ==> (#[trigger] cards[i]).id != (#[trigger] cards[k]).id,
{
}

} // verus!

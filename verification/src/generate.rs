//! The generation orchestrator's decisions: building the request for the
//! inference server from caller text and model choice, and turning the
//! transport's outcome into flashcards or a typed failure. The single HTTP
//! round trip itself happens outside this library; both halves here are pure.

use vstd::prelude::*;
use vstd::string::StringExecFns;
use crate::cards::Flashcard;
use crate::json::{Json, JsonV, obj_get, json_parse, parse_json, lookup, lemma_jview_obj};
use crate::normalize::{accepted_entries, cards_match_entries, normalize};

verus! {

broadcast use crate::json::lemma_jview_obj;

/// The decimal digit characters.
pub open spec fn dec_digit(d: nat) -> char {
    if d == 0 {
        '0'
    } else if d == 1 {
        '1'
    } else if d == 2 {
        '2'
    } else if d == 3 {
        '3'
    } else if d == 4 {
        '4'
    } else if d == 5 {
        '5'
    } else if d == 6 {
        '6'
    } else if d == 7 {
        '7'
    } else if d == 8 {
        '8'
    } else {
        '9'
    }
}

/// The decimal rendering of a number, most significant digit first.
pub open spec fn dec_str(n: nat) -> Seq<char>
    decreases n,
{
    if n < 10 {
        seq![dec_digit(n)]
    } else {
        dec_str(n / 10).push(dec_digit(n % 10))
    }
}

fn digit_str(d: u16) -> (r: &'static str)
    requires
        d < 10,
    ensures
        r@ == seq![dec_digit(d as nat)],
{
    if d == 0 {
        proof {
            reveal_strlit("0");
            assert("0"@ =~= seq![dec_digit(0)]);
        }
        "0"
    } else if d == 1 {
        proof {
            reveal_strlit("1");
            assert("1"@ =~= seq![dec_digit(1)]);
        }
        "1"
    } else if d == 2 {
        proof {
            reveal_strlit("2");
            assert("2"@ =~= seq![dec_digit(2)]);
        }
        "2"
    } else if d == 3 {
        proof {
            reveal_strlit("3");
            assert("3"@ =~= seq![dec_digit(3)]);
        }
        "3"
    } else if d == 4 {
        proof {
            reveal_strlit("4");
            assert("4"@ =~= seq![dec_digit(4)]);
        }
        "4"
    } else if d == 5 {
        proof {
            reveal_strlit("5");
            assert("5"@ =~= seq![dec_digit(5)]);
        }
        "5"
    } else if d == 6 {
        proof {
            reveal_strlit("6");
            assert("6"@ =~= seq![dec_digit(6)]);
        }
        "6"
    } else if d == 7 {
        proof {
            reveal_strlit("7");
            assert("7"@ =~= seq![dec_digit(7)]);
        }
        "7"
    } else if d == 8 {
        proof {
            reveal_strlit("8");
            assert("8"@ =~= seq![dec_digit(8)]);
        }
        "8"
    } else {
        proof {
            reveal_strlit("9");
            assert("9"@ =~= seq![dec_digit(9)]);
        }
        "9"
    }
}

/// Renders a status code in decimal.
fn dec_u16(n: u16) -> (r: String)
    ensures
        r@ == dec_str(n as nat),
    decreases n,
{
    if n < 10 {
        String::from_str(digit_str(n))
    } else {
        let mut s = dec_u16(n / 10);
        s.append(digit_str(n % 10));
        proof {
            assert(s@ =~= dec_str(n as nat));
        }
        s
    }
}

/// Why a generation call failed, stage by stage.
#[derive(Debug, Clone, Copy, PartialEq, Eq)]
pub enum GenerationError {
    /// The inference server was unreachable.
    Connection,
    /// The server answered with a non-success status.
    Server(u16),
    /// The response body did not carry the expected `{"response": ...}`
    /// envelope.
    Decode,
    /// The model's payload failed structural validation; regenerate.
    Malformed,
}

impl GenerationError {
    /// The user-facing description of the failure.
    pub fn message(&self) -> (r: String)
        ensures
            r@ == match *self {
                GenerationError::Connection => "Failed to connect to Ollama. Is it running?"@,
                GenerationError::Server(s) => "Ollama returned status: "@ + dec_str(s as nat),
                GenerationError::Decode => "Failed to parse Ollama response"@,
                GenerationError::Malformed => "LLM returned invalid JSON. Try regenerating."@,
            },
    {
        match self {
            GenerationError::Connection => String::from_str(
                "Failed to connect to Ollama. Is it running?",
            ),
            GenerationError::Server(s) => String::from_str("Ollama returned status: ").concat(
                dec_u16(*s).as_str(),
            ),
            GenerationError::Decode => String::from_str("Failed to parse Ollama response"),
            GenerationError::Malformed => String::from_str(
                "LLM returned invalid JSON. Try regenerating.",
            ),
        }
    }
}

/// One generation request, as handed to the transport: the chosen model, the
/// full prompt, and fixed decoding parameters. Temperature is carried in
/// tenths (3 stands for 0.3 on the 0–1 scale).
pub struct GenerationRequest {
    pub model: String,
    pub prompt: String,
    pub stream: bool,
    pub output_format: String,
    pub temperature_tenths: u8,
    pub num_predict: i32,
}

/// The instructional template that precedes the caller's text in every
/// prompt.
pub open spec fn prompt_prefix() -> Seq<char> {
    "You are a flashcard generator. Analyze the following text and create high-quality study flashcards.\n\nRules:\n- Extract the most important concepts, facts, and relationships.\n- Each flashcard must have a clear, specific question and a concise, accurate answer.\n- Aim for 5-15 flashcards depending on content density.\n- Questions should test understanding, not just recall.\n- Answers should be brief but complete.\n\nRespond with ONLY valid JSON in this exact format:\n{\"cards\": [{\"question\": \"...\", \"answer\": \"...\"}, ...]}\n\nText to analyze:\n"@
}

/// Builds the request for one generation call: the fixed template with the
/// caller's text embedded verbatim at its end, the fallback model where none
/// was chosen, and the fixed decoding parameters — low temperature, bounded
/// output, no streaming, structured output demanded.
pub fn build_generation_request(text: &str, model: &str) -> (r: GenerationRequest)
    ensures
        r.model@ == (if model@.len() == 0 {
            "mistral"@
        } else {
            model@
        }),
        r.prompt@ == prompt_prefix() + text@,
        r.stream == false,
        r.output_format@ == "json"@,
        r.temperature_tenths == 3,
        r.num_predict == 4096,
{
    let model_name = if model.is_empty() {
        String::from_str("mistral")
    } else {
        String::from_str(model)
    };
    let prompt = String::from_str(
        "You are a flashcard generator. Analyze the following text and create high-quality study flashcards.\n\nRules:\n- Extract the most important concepts, facts, and relationships.\n- Each flashcard must have a clear, specific question and a concise, accurate answer.\n- Aim for 5-15 flashcards depending on content density.\n- Questions should test understanding, not just recall.\n- Answers should be brief but complete.\n\nRespond with ONLY valid JSON in this exact format:\n{\"cards\": [{\"question\": \"...\", \"answer\": \"...\"}, ...]}\n\nText to analyze:\n",
    ).concat(text);
    GenerationRequest {
        model: model_name,
        prompt,
        stream: false,
        output_format: String::from_str("json"),
        temperature_tenths: 3,
        num_predict: 4096,
    }
}

/// What the transport came back with: nothing at all, or a status line and
/// the full body text.
pub enum InferenceOutcome {
    Unreachable,
    Http { status: u16, body: String },
}

/// An HTTP success status.
pub open spec fn is_success_status(s: u16) -> bool {
    200 <= s < 300
}

/// The model's raw output, if the body is an object whose `response` field is
/// a string.
pub open spec fn envelope_text(p: Option<JsonV>) -> Option<Seq<char>> {
    match p {
        Some(JsonV::Obj(fs)) => match obj_get(fs, "response"@) {
            Some(JsonV::Str(t)) => Some(t),
            _ => None,
        },
        _ => None,
    }
}

/// Turns the transport's outcome into the orchestrator's result: an
/// unreachable server is a connection failure; a non-success status is a
/// server failure; a body without the response envelope is a decode failure;
/// and the enveloped payload is normalized whole or rejected whole.
pub fn complete_generation(outcome: &InferenceOutcome) -> (r: Result<
    Vec<Flashcard>,
    GenerationError,
>)
    ensures
        match *outcome {
            InferenceOutcome::Unreachable => r == Result::<
                Vec<Flashcard>,
                GenerationError,
            >::Err(GenerationError::Connection),
            InferenceOutcome::Http { status, body } => if !is_success_status(status) {
                r == Result::<Vec<Flashcard>, GenerationError>::Err(
                    GenerationError::Server(status),
                )
            } else {
                match envelope_text(json_parse(body@)) {
                    None => r == Result::<Vec<Flashcard>, GenerationError>::Err(
                        GenerationError::Decode,
                    ),
                    Some(t) => {
                        &&& (r is Ok <==> accepted_entries(json_parse(t)) is Some)
                        &&& (r matches Ok(cards) ==> cards_match_entries(
                            cards@.map_values(|c: Flashcard| c@),
                            accepted_entries(json_parse(t)) -> 0,
                        ))
                        &&& (r is Err ==> r == Result::<Vec<Flashcard>, GenerationError>::Err(
                            GenerationError::Malformed,
                        ))
                    },
                }
            },
        },
{
    match outcome {
        InferenceOutcome::Unreachable => Err(GenerationError::Connection),
        InferenceOutcome::Http { status, body } => {
            if !(200 <= *status && *status < 300) {
                Err(GenerationError::Server(*status))
            } else {
                match parse_json(body.as_str()) {
                    None => Err(GenerationError::Decode),
                    Some(env) => match &env {
                        Json::Obj(fs) => {
                            proof {
                                lemma_jview_obj(*fs);
                            }
                            let rkey = String::from_str("response");
                            match lookup(fs, &rkey) {
                                Some(Json::Str(t)) => match normalize(t.as_str()) {
                                    Ok(cards) => Ok(cards),
                                    Err(_) => Err(GenerationError::Malformed),
                                },
                                _ => Err(GenerationError::Decode),
                            }
                        },
                        _ => Err(GenerationError::Decode),
                    },
                }
            }
        },
    }
}

} // verus!

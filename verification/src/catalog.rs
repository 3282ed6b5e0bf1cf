//! Model discovery: the tolerant reading of the inference server's catalog.
//! A missing or ill-shaped `models` field yields an empty catalog, and an
//! entry without a `name` string is skipped; only an unreachable server or an
//! undecodable body is an error.

use vstd::prelude::*;
use vstd::string::StringExecFns;
use crate::generate::InferenceOutcome;
use crate::json::{
    Json, JsonV, jview, elems_view, obj_get, json_parse, parse_json, lookup, lemma_jview_arr,
    lemma_jview_obj,
};

verus! {

broadcast use crate::json::lemma_jview_arr, crate::json::lemma_jview_obj;

/// Why discovery failed outright.
#[derive(Debug, Clone, Copy, PartialEq, Eq)]
pub enum DiscoveryError {
    /// The inference server was unreachable.
    Connection,
    /// The body was not well-formed JSON.
    Decode,
}

impl DiscoveryError {
    /// The user-facing description of the failure.
    pub fn message(&self) -> (r: String)
        ensures
            r@ == match *self {
                DiscoveryError::Connection => "Cannot connect to Ollama"@,
                DiscoveryError::Decode => "Invalid response from Ollama"@,
            },
    {
        match self {
            DiscoveryError::Connection => String::from_str("Cannot connect to Ollama"),
            DiscoveryError::Decode => String::from_str("Invalid response from Ollama"),
        }
    }
}

/// The names announced by a sequence of catalog entries, in order: each entry
/// that is an object with a string `name` field contributes it; every other
/// entry is skipped.
pub open spec fn names_of(es: Seq<JsonV>) -> Seq<Seq<char>>
    decreases es.len(),
{
    if es.len() == 0 {
        Seq::empty()
    } else {
        let init = names_of(es.drop_last());
        match es.last() {
            JsonV::Obj(fs) => match obj_get(fs, "name"@) {
                Some(JsonV::Str(n)) => init.push(n),
                _ => init,
            },
            _ => init,
        }
    }
}

/// The catalog a decoded body announces: the names under a `models` array,
/// or no names at all where that field is missing or not an array.
pub open spec fn catalog_names(j: JsonV) -> Seq<Seq<char>> {
    match j {
        JsonV::Obj(fs) => match obj_get(fs, "models"@) {
            Some(JsonV::Arr(es)) => names_of(es),
            _ => Seq::empty(),
        },
        _ => Seq::empty(),
    }
}

/// Reads the transport's outcome for a discovery call: an unreachable server
/// or an undecodable body is an error; otherwise the catalog is exactly the
/// names the body announces, in server order, without de-duplication.
pub fn read_model_catalog(outcome: &InferenceOutcome) -> (r: Result<Vec<String>, DiscoveryError>)
    ensures
        match *outcome {
            InferenceOutcome::Unreachable => r == Result::<Vec<String>, DiscoveryError>::Err(
                DiscoveryError::Connection,
            ),
            InferenceOutcome::Http { status, body } => match json_parse(body@) {
                None => r == Result::<Vec<String>, DiscoveryError>::Err(DiscoveryError::Decode),
                Some(jv) => r matches Ok(names) && names@.map_values(|s: String| s@)
                    == catalog_names(jv),
            },
        },
{
    match outcome {
        InferenceOutcome::Unreachable => Err(DiscoveryError::Connection),
        InferenceOutcome::Http { status: _, body } => {
            match parse_json(body.as_str()) {
                None => Err(DiscoveryError::Decode),
                Some(doc) => {
                    let mut out: Vec<String> = Vec::new();
                    match &doc {
                        Json::Obj(fs) => {
                            proof {
                                lemma_jview_obj(*fs);
                            }
                            let mkey = String::from_str("models");
                            match lookup(fs, &mkey) {
                                Some(Json::Arr(es)) => {
                                    proof {
                                        lemma_jview_arr(*es);
                                    }
                                    let nkey = String::from_str("name");
                                    let mut i: usize = 0;
                                    while i < es.len()
                                        invariant
                                            i <= es@.len(),
                                            nkey@ == "name"@,
                                            out@.map_values(|s: String| s@) == names_of(
                                                elems_view(es@).take(i as int),
                                            ),
                                        decreases es@.len() - i,
                                    {
                                        proof {
                                            let evs = elems_view(es@);
                                            assert(evs.take(i + 1).drop_last() =~= evs.take(
                                                i as int,
                                            ));
                                            assert(evs.take(i + 1).last() == evs[i as int]);
                                            assert(evs[i as int] == jview(es@[i as int]));
                                        }
                                        match &es[i] {
                                            Json::Obj(efs) => {
                                                proof {
                                                    lemma_jview_obj(*efs);
                                                }
                                                match lookup(efs, &nkey) {
                                                    Some(Json::Str(n)) => {
                                                        out.push(n.clone());
                                                        proof {
                                                            assert(out@.map_values(
                                                                |s: String| s@,
                                                            ) =~= out@.drop_last().map_values(
                                                                |s: String| s@,
                                                            ).push(n@));
                                                        }
                                                    },
                                                    _ => {},
                                                }
                                            },
                                            _ => {},
                                        }
                                        i = i + 1;
                                    }
                                    proof {
                                        assert(elems_view(es@).take(i as int) =~= elems_view(es@));
                                    }
                                    Ok(out)
                                },
                                _ => Ok(out),
                            }
                        },
                        _ => Ok(out),
                    }
                },
            }
        },
    }
}

} // verus!

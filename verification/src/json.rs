//! A library-owned model of JSON documents, and the trusted bridge to
//! serde_json that parses and prints them.
//!
//! Every shape this pipeline accepts (generation payloads, the response
//! envelope, the model catalog, deck files) is validated by verified code over
//! the [`Json`] tree; only turning text into a tree and back is delegated.

use vstd::prelude::*;

verus! {

broadcast use
    vstd::std_specs::vec::axiom_vec_index_decreases,
    vstd::std_specs::vec::axiom_vec_decreases_to_view,
    vstd::seq::axiom_seq_index_decreases;

/// A JSON document as this library sees it. A numeric value is recognized but
/// not retained (`Num`): no accepted shape carries a number, only the
/// presence of one, which every shape check rejects.
#[derive(Debug)]
pub enum Json {
    Null,
    Bool(bool),
    Num,
    Str(String),
    Arr(Vec<Json>),
    Obj(Vec<(String, Json)>),
}

/// Mathematical model of a JSON document.
#[verifier::ext_equal]
pub enum JsonV {
    Null,
    Bool(bool),
    Num,
    Str(Seq<char>),
    Arr(Seq<JsonV>),
    Obj(Seq<(Seq<char>, JsonV)>),
}

/// The models of a sequence of documents.
pub open spec fn elems_view(es: Seq<Json>) -> Seq<JsonV> {
    Seq::new(es.len(), |i: int| jview(es[i]))
}

/// The models of an object's fields, in order.
pub open spec fn fields_view(fs: Seq<(String, Json)>) -> Seq<(Seq<char>, JsonV)> {
    Seq::new(fs.len(), |i: int| (fs[i].0@, jview(fs[i].1)))
}

/// The model of a document.
pub open spec fn jview(j: Json) -> JsonV
    decreases j,
{
    match j {
        Json::Null => JsonV::Null,
        Json::Bool(b) => JsonV::Bool(b),
        Json::Num => JsonV::Num,
        Json::Str(s) => JsonV::Str(s@),
        Json::Arr(es) => JsonV::Arr(
            Seq::new(
                es@.len(),
                |i: int|
                    if 0 <= i < es@.len() {
                        jview(es@[i])
                    } else {
                        JsonV::Null
                    },
            ),
        ),
        Json::Obj(fs) => JsonV::Obj(
            Seq::new(
                fs@.len(),
                |i: int|
                    if 0 <= i < fs@.len() {
                        (fs@[i].0@, jview(fs@[i].1))
                    } else {
                        (Seq::empty(), JsonV::Null)
                    },
            ),
        ),
    }
}

impl View for Json {
    type V = JsonV;

    open spec fn view(&self) -> JsonV {
        jview(*self)
    }
}

/// The model of an array node is the sequence of its elements' models.
pub broadcast proof fn lemma_jview_arr(es: Vec<Json>)
    ensures
        #[trigger] jview(Json::Arr(es)) == JsonV::Arr(elems_view(es@)),
{
    assert(jview(Json::Arr(es))->Arr_0 =~= elems_view(es@));
}

/// The model of an object node is the sequence of its fields' models.
pub broadcast proof fn lemma_jview_obj(fs: Vec<(String, Json)>)
    ensures
        #[trigger] jview(Json::Obj(fs)) == JsonV::Obj(fields_view(fs@)),
{
    assert(jview(Json::Obj(fs))->Obj_0 =~= fields_view(fs@));
}

/// The value of the first field named `key`, if any. Trees that come out of
/// `parse_json` name each field of an object once, so this is map lookup.
pub open spec fn obj_get(fs: Seq<(Seq<char>, JsonV)>, key: Seq<char>) -> Option<JsonV>
    decreases fs.len(),
{
    if fs.len() == 0 {
        None
    } else if fs[0].0 == key {
        Some(fs[0].1)
    } else {
        obj_get(fs.drop_first(), key)
    }
}

/// Every object in the tree names each of its fields once.
pub open spec fn keys_unique(j: JsonV) -> bool
    decreases j,
{
    match j {
        JsonV::Arr(es) => forall|i: int| 0 <= i < es.len() ==> keys_unique(#[trigger] es[i]),
        JsonV::Obj(fs) => (forall|i: int, k: int|
            0 <= i < k < fs.len() ==> fs[i].0 != fs[k].0) && (forall|i: int|
            0 <= i < fs.len() ==> keys_unique(#[trigger] fs[i].1)),
        _ => true,
    }
}

/// The tree nests no more than `d` levels deep.
pub open spec fn depth_at_most(j: JsonV, d: nat) -> bool
    decreases j,
{
    d >= 1 && match j {
        JsonV::Arr(es) => forall|i: int|
            0 <= i < es.len() ==> depth_at_most(#[trigger] es[i], (d - 1) as nat),
        JsonV::Obj(fs) => forall|i: int|
            0 <= i < fs.len() ==> depth_at_most(#[trigger] fs[i].1, (d - 1) as nat),
        _ => true,
    }
}

/// Looks a field up by name in an object's field list; mirrors [`obj_get`].
pub fn lookup<'a>(fs: &'a Vec<(String, Json)>, key: &String) -> (r: Option<&'a Json>)
    ensures
        match r {
            Some(v) => obj_get(fields_view(fs@), key@) == Some(jview(*v)),
            None => obj_get(fields_view(fs@), key@) is None,
        },
{
    proof {
        assert(fields_view(fs@).skip(0) =~= fields_view(fs@));
    }
    let mut i: usize = 0;
    while i < fs.len()
        invariant
            i <= fs@.len(),
            obj_get(fields_view(fs@), key@) == obj_get(
                fields_view(fs@).skip(i as int),
                key@,
            ),
        decreases fs@.len() - i,
    {
        if fs[i].0 == *key {
            assert(fields_view(fs@).skip(i as int)[0] == (fs@[i as int].0@, jview(fs@[i as int].1)));
            return Some(&fs[i].1);
        }
        proof {
            let tail = fields_view(fs@).skip(i as int);
            assert(tail[0] == (fs@[i as int].0@, jview(fs@[i as int].1)));
            assert(tail.drop_first() =~= fields_view(fs@).skip(i as int + 1));
        }
        i = i + 1;
    }
    proof {
        assert(fields_view(fs@).skip(i as int).len() == 0);
    }
    None
}

/// The serde_json document type, declared so that the conversion legs below
/// can carry its values; opaque to this library.
#[verifier::external_type_specification]
#[verifier::external_body]
pub struct ExValue(serde_json::Value);

/// What `parse_json` yields on a given text: the parsed tree, or `None` where
/// the text is not well-formed JSON.
pub uninterp spec fn json_parse(s: Seq<char>) -> Option<JsonV>;

/// The conversion leg of `parse_json`: rebuilds a serde_json tree as the
/// library's own `Json`, one arm per serde_json::Value variant, moving the
/// fields. The numeric value of a number is not retained; with the
/// preserve_order feature, object fields keep document order.
#[verifier::external_body]
fn json_of_value(v: serde_json::Value) -> Json {
    match v {
        serde_json::Value::Null => Json::Null,
        serde_json::Value::Bool(b) => Json::Bool(b),
        serde_json::Value::Number(_) => Json::Num,
        serde_json::Value::String(s) => Json::Str(s),
        serde_json::Value::Array(a) => Json::Arr(a.into_iter().map(json_of_value).collect()),
        serde_json::Value::Object(m) => Json::Obj(
            m.into_iter().map(|(k, x)| (k, json_of_value(x))).collect(),
        ),
    }
}

/// Relies on serde_json::from_str::<serde_json::Value>: whether a text parses,
/// and the tree it parses to, depend on the text alone. `json_parse` names
/// that result, carried over through `json_of_value`.
#[verifier::external_body]
pub(crate) fn parse_json(s: &str) -> (r: Option<Json>)
    ensures
        r matches Some(j) ==> json_parse(s@) == Some(jview(j)),
        r is None ==> json_parse(s@) is None,
{
    serde_json::from_str::<serde_json::Value>(s).ok().map(json_of_value)
}

/// The conversion leg of `json_to_text`: rebuilds the library's `Json` as a
/// serde_json tree, one arm per variant. A number whose value was not
/// retained becomes the number zero, which reads back as `Json::Num`.
#[verifier::external_body]
fn value_of_json(j: &Json) -> serde_json::Value {
    match j {
        Json::Null => serde_json::Value::Null,
        Json::Bool(b) => serde_json::Value::Bool(*b),
        Json::Num => serde_json::Value::Number(serde_json::Number::from(0u8)),
        Json::Str(s) => serde_json::Value::String(s.clone()),
        Json::Arr(es) => serde_json::Value::Array(es.iter().map(value_of_json).collect()),
        Json::Obj(fs) => serde_json::Value::Object(
            fs.iter().map(|(k, x)| (k.clone(), value_of_json(x))).collect(),
        ),
    }
}

/// Relies on serde_json::to_string_pretty on a serde_json::Value: printing a
/// value whose map keys are strings always succeeds, and the printed text
/// parses back to the value that was printed. So for a tree whose objects
/// name each field once, parsing the text again yields the same tree (with
/// the preserve_order feature, fields keep their order through the round
/// trip). The depth bound keeps the tree inside both recursion limits.
#[verifier::external_body]
pub(crate) fn json_to_text(j: &Json) -> (r: String)
    requires
        depth_at_most(jview(*j), 100),
    ensures
        keys_unique(jview(*j)) ==> json_parse(r@) == Some(jview(*j)),
{
    serde_json::to_string_pretty(&value_of_json(j)).unwrap_or(String::new())
}

} // verus!

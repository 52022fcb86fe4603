use vstd::prelude::*;

verus! {

broadcast use vstd::std_specs::vec::axiom_vec_index_decreases;

#[verifier::external_type_specification]
#[verifier::external_body]
pub struct ExJsonError(serde_json::Error);

/// A JSON document as plain values. A number keeps only what the records
/// read from it: its value when it is a non-negative integer that fits in a
/// `u64`, `None` for any other number.
pub enum Json {
    Null,
    Bool(bool),
    Number(Option<u64>),
    Str(String),
    Array(Vec<Json>),
    Object(Vec<(String, Json)>),
}

/// A JSON document as mathematical values.
pub enum JsonModel {
    Null,
    Bool(bool),
    Number(Option<u64>),
    Str(Seq<char>),
    Array(Seq<JsonModel>),
    Object(Seq<(Seq<char>, JsonModel)>),
}

impl View for Json {
    type V = JsonModel;

    open spec fn view(&self) -> JsonModel
        decreases self,
    {
        match self {
            Json::Null => JsonModel::Null,
            Json::Bool(b) => JsonModel::Bool(*b),
            Json::Number(n) => JsonModel::Number(*n),
            Json::Str(s) => JsonModel::Str(s@),
            Json::Array(items) => JsonModel::Array(items_of(*items)),
            Json::Object(f) => JsonModel::Object(entries_of(*f)),
        }
    }
}

/// The items of an array, as mathematical values.
pub open spec fn items_of(items: Vec<Json>) -> Seq<JsonModel>
    decreases items,
{
    Seq::new(
        items@.len(),
        |i: int|
            if 0 <= i < items@.len() {
                items[i].view()
            } else {
                JsonModel::Null
            },
    )
}

/// The entries of an object, as mathematical values.
pub open spec fn entries_of(f: Vec<(String, Json)>) -> Seq<(Seq<char>, JsonModel)>
    decreases f,
{
    Seq::new(
        f@.len(),
        |i: int|
            if 0 <= i < f@.len() {
                (f[i].0@, f[i].1.view())
            } else {
                (Seq::empty(), JsonModel::Null)
            },
    )
}

/// Why a body could not be turned into the value asked for.
#[derive(Debug, Clone, Copy, PartialEq, Eq, Structural)]
pub enum DecodeError {
    /// The text is not JSON.
    Syntax,
    /// The document is JSON, but not of the shape asked for.
    Shape,
}

/// Whether serde_json accepts the text as one JSON document.
pub uninterp spec fn json_accepts(text: Seq<char>) -> bool;

/// The document serde_json parses the text into, with each number as
/// `serde_json::Number::as_u64` gives it.
pub uninterp spec fn json_of(text: Seq<char>) -> JsonModel;

/// The deepest nesting of arrays and objects that serde_json accepts: it
/// refuses text once its depth counter, starting at 128, reaches zero.
pub const MAX_DEPTH: usize = 127;

/// Arrays and objects nest at most `depth` deep in the document.
pub open spec fn nests_within(m: JsonModel, depth: nat) -> bool
    decreases m,
{
    match m {
        JsonModel::Array(items) => depth > 0 && forall|i: int|
            0 <= i < items.len() ==> nests_within(#[trigger] items[i], (depth - 1) as nat),
        JsonModel::Object(e) => depth > 0 && forall|i: int|
            0 <= i < e.len() ==> nests_within(#[trigger] e[i].1, (depth - 1) as nat),
        _ => true,
    }
}

/// One level of a parsed document, each child as its own JSON text.
enum Node {
    Null,
    Bool(bool),
    Number(Option<u64>),
    Str(String),
    Array(Vec<String>),
    Object(Vec<(String, String)>),
}

/// The text of each child is accepted and parses to that child.
spec fn node_matches(n: Node, m: JsonModel) -> bool {
    match n {
        Node::Null => m == JsonModel::Null,
        Node::Bool(b) => m == JsonModel::Bool(b),
        Node::Number(o) => m == JsonModel::Number(o),
        Node::Str(s) => m == JsonModel::Str(s@),
        Node::Array(c) => m is Array && m->Array_0.len() == c@.len() && forall|i: int|
            0 <= i < c@.len() ==> json_accepts(#[trigger] c@[i]@) && json_of(c@[i]@)
                == m->Array_0[i],
        Node::Object(e) => m is Object && m->Object_0.len() == e@.len() && forall|i: int|
            0 <= i < e@.len() ==> e@[i].0@ == m->Object_0[i].0 && json_accepts(
                #[trigger] e@[i].1@,
            ) && json_of(e@[i].1@) == m->Object_0[i].1,
    }
}

/// Relies on serde_json::from_str to parse the text (it fails or succeeds on
/// the text alone, and refuses nesting deeper than `MAX_DEPTH`), on
/// serde_json::Number::as_u64 for a number, and on serde_json's `Display`
/// of a child value, which writes JSON text that parses back to that value.
#[verifier::external_body]
fn parse_node(text: &str) -> (r: Result<Node, serde_json::Error>)
    ensures
        r is Ok <==> json_accepts(text@),
        r matches Ok(n) ==> node_matches(n, json_of(text@)) && nests_within(
            json_of(text@),
            MAX_DEPTH as nat,
        ),
{
    Ok(match serde_json::from_str::<serde_json::Value>(text)? {
        serde_json::Value::Null => Node::Null,
        serde_json::Value::Bool(b) => Node::Bool(b),
        serde_json::Value::Number(n) => Node::Number(n.as_u64()),
        serde_json::Value::String(s) => Node::Str(s),
        serde_json::Value::Array(a) => Node::Array(a.iter().map(|c| c.to_string()).collect()),
        serde_json::Value::Object(m) => Node::Object(m.into_iter().map(|(k, c)| (k, c.to_string())).collect()),
    })
}

/// Parses a text that serde_json accepts and nests at most `depth` deep.
fn to_json(text: &str, depth: usize) -> (r: Result<Json, DecodeError>)
    requires
        json_accepts(text@) && depth != MAX_DEPTH ==> nests_within(json_of(text@), depth as nat),
    ensures
        r is Ok <==> json_accepts(text@),
        r matches Ok(j) ==> j@ == json_of(text@),
        r is Err ==> r == Err::<Json, DecodeError>(DecodeError::Syntax),
    decreases depth,
{
    let node = match parse_node(text) {
        Ok(n) => n,
        Err(_) => return Err(DecodeError::Syntax),
    };
    let ghost m = json_of(text@);
    match node {
        Node::Null => Ok(Json::Null),
        Node::Bool(b) => Ok(Json::Bool(b)),
        Node::Number(n) => Ok(Json::Number(n)),
        Node::Str(s) => Ok(Json::Str(s)),
        Node::Array(children) => {
            let n = children.len();
            let mut out: Vec<Json> = Vec::new();
            let mut i: usize = 0;
            while i < n
                invariant
                    n == children@.len(),
                    i <= n,
                    depth > 0,
                    m is Array,
                    m->Array_0.len() == n,
                    nests_within(m, depth as nat),
                    forall|k: int|
                        0 <= k < n ==> json_accepts(#[trigger] children@[k]@) && json_of(
                            children@[k]@,
                        ) == m->Array_0[k],
                    out@.len() == i,
                    forall|k: int| 0 <= k < i ==> (#[trigger] out@[k])@ == m->Array_0[k],
                decreases n - i,
            {
                assert(nests_within(m->Array_0[i as int], (depth - 1) as nat));
                let j = match to_json(&children[i], depth - 1) {
                    Ok(j) => j,
                    Err(e) => return Err(e),
                };
                out.push(j);
                i = i + 1;
            }
            let r = Json::Array(out);
            assert(items_of(out) =~= m->Array_0);
            Ok(r)
        },
        Node::Object(children) => {
            let n = children.len();
            let mut out: Vec<(String, Json)> = Vec::new();
            let mut i: usize = 0;
            while i < n
                invariant
                    n == children@.len(),
                    i <= n,
                    depth > 0,
                    m is Object,
                    m->Object_0.len() == n,
                    nests_within(m, depth as nat),
                    forall|k: int|
                        0 <= k < n ==> children@[k].0@ == m->Object_0[k].0 && json_accepts(
                            #[trigger] children@[k].1@,
                        ) && json_of(children@[k].1@) == m->Object_0[k].1,
                    out@.len() == i,
                    forall|k: int|
                        0 <= k < i ==> (#[trigger] out@[k]).0@ == m->Object_0[k].0 && out@[k].1@
                            == m->Object_0[k].1,
                decreases n - i,
            {
                assert(nests_within(m->Object_0[i as int].1, (depth - 1) as nat));
                let j = match to_json(&children[i].1, depth - 1) {
                    Ok(j) => j,
                    Err(e) => return Err(e),
                };
                out.push((children[i].0.clone(), j));
                i = i + 1;
            }
            let r = Json::Object(out);
            assert(entries_of(out) =~= m->Object_0);
            Ok(r)
        },
    }
}

/// Parses a body: exactly the document serde_json reads from the text, or
/// `Syntax` exactly when it refuses the text.
pub fn read_json(text: &str) -> (r: Result<Json, DecodeError>)
    ensures
        json_accepts(text@) ==> (r matches Ok(j) && j@ == json_of(text@)),
        !json_accepts(text@) ==> r == Err::<Json, DecodeError>(DecodeError::Syntax),
{
    to_json(text, MAX_DEPTH)
}

/// The value of the first entry under `key`.
pub open spec fn field(fields: Seq<(Seq<char>, JsonModel)>, key: Seq<char>) -> Option<JsonModel>
    decreases fields.len(),
{
    if fields.len() == 0 {
        None
    } else if fields[0].0 == key {
        Some(fields[0].1)
    } else {
        field(fields.drop_first(), key)
    }
}

/// Finds the first entry under `key`.
pub fn find_field<'a>(fields: &'a Vec<(String, Json)>, key: &String) -> (r: Option<&'a Json>)
    ensures
        match r {
            Some(j) => field(entries_of(*fields), key@) == Some(j@),
            None => field(entries_of(*fields), key@) is None,
        },
{
    let ghost e = entries_of(*fields);
    let n = fields.len();
    let mut i: usize = 0;
    assert(e.subrange(0, n as int) =~= e);
    while i < n
        invariant
            n == fields@.len(),
            e == entries_of(*fields),
            e.len() == n,
            forall|k: int| 0 <= k < n ==> #[trigger] e[k] == (fields@[k].0@, fields@[k].1@),
            i <= n,
            field(e, key@) == field(e.subrange(i as int, n as int), key@),
        decreases n - i,
    {
        assert(e.subrange(i as int, n as int).drop_first() =~= e.subrange(i + 1, n as int));
        if fields[i].0 == *key {
            return Some(&fields[i].1);
        }
        i = i + 1;
    }
    None
}

} // verus!

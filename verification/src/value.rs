//! The structured values the gateway transports: a JSON-like tree of nulls,
//! booleans, integers, strings, sequences and string-keyed mappings, with a
//! mathematical model (`Json`) and the KV-v2 write envelope.

use vstd::prelude::*;
use vstd::string::StringExecFns;

verus! {

broadcast use vstd::seq::axiom_seq_index_decreases, vstd::std_specs::vec::axiom_vec_index_decreases;

/// The mathematical model of a structured document.
pub enum Json {
    Null,
    Bool(bool),
    Int(int),
    Str(Seq<char>),
    Arr(Seq<Json>),
    Obj(Seq<(Seq<char>, Json)>),
}

/// A structured document as the gateway carries it: the executable
/// counterpart of `Json`. Mappings keep their insertion order; duplicate
/// keys are allowed and a lookup returns the first binding.
#[derive(Debug, PartialEq, Eq)]
pub enum JsonValue {
    Null,
    Bool(bool),
    Int(i64),
    Str(String),
    Arr(Vec<JsonValue>),
    Obj(Vec<(String, JsonValue)>),
}

pub open spec fn arr_view(items: Vec<JsonValue>, i: int) -> Seq<Json>
    decreases items, items.len() - i, 0int,
{
    if i < 0 || i >= items.len() {
        Seq::empty()
    } else {
        seq![items[i]@] + arr_view(items, i + 1)
    }
}

pub open spec fn obj_view(fields: Vec<(String, JsonValue)>, i: int) -> Seq<(Seq<char>, Json)>
    decreases fields, fields.len() - i, 0int,
{
    if i < 0 || i >= fields.len() {
        Seq::empty()
    } else {
        seq![(fields[i].0@, fields[i].1@)] + obj_view(fields, i + 1)
    }
}

impl View for JsonValue {
    type V = Json;

    open spec fn view(&self) -> Json
        decreases self, 0int, 1int,
    {
        match self {
            JsonValue::Null => Json::Null,
            JsonValue::Bool(b) => Json::Bool(*b),
            JsonValue::Int(n) => Json::Int(*n as int),
            JsonValue::Str(s) => Json::Str(s@),
            JsonValue::Arr(items) => Json::Arr(arr_view(*items, 0)),
            JsonValue::Obj(fields) => Json::Obj(obj_view(*fields, 0)),
        }
    }
}

/// The first binding of `key` among `fields`, if any.
pub open spec fn fields_lookup(fields: Seq<(Seq<char>, Json)>, key: Seq<char>) -> Option<Json>
    decreases fields.len(),
{
    if fields.len() == 0 {
        None
    } else if fields[0].0 == key {
        Some(fields[0].1)
    } else {
        fields_lookup(fields.drop_first(), key)
    }
}

impl Json {
    /// The value bound to `key` when this document is a mapping; `None` on
    /// any other kind of document or when the key is absent.
    pub open spec fn lookup(self, key: Seq<char>) -> Option<Json> {
        match self {
            Json::Obj(fields) => fields_lookup(fields, key),
            _ => None,
        }
    }
}

/// The envelope key the versioned secret engine requires on writes.
pub open spec fn data_key() -> Seq<char> {
    seq!['d', 'a', 't', 'a']
}

/// The envelope a document is wrapped in before a write: exactly one level
/// deep, under the single key "data", with the document itself untouched.
pub open spec fn spec_wrap(d: Json) -> Json {
    Json::Obj(seq![(data_key(), d)])
}

/// The envelope key as a string.
pub fn data_field_name() -> (r: String)
    ensures
        r@ == data_key(),
{
    proof {
        reveal_strlit("data");
        assert("data"@ =~= data_key());
    }
    String::from_str("data")
}

/// Wraps a document for a versioned (KV-v2) write: `{ "data": payload }`.
/// The payload is carried opaquely; nothing in it is inspected or changed.
pub fn wrap_payload(payload: JsonValue) -> (r: JsonValue)
    ensures
        r@ == spec_wrap(payload@),
{
    let ghost p = payload@;
    let key = data_field_name();
    let mut fields: Vec<(String, JsonValue)> = Vec::new();
    fields.push((key, payload));
    let r = JsonValue::Obj(fields);
    proof {
        assert(obj_view(fields, 1) =~= Seq::<(Seq<char>, Json)>::empty());
        assert(obj_view(fields, 0) =~= seq![(data_key(), p)]);
    }
    r
}

impl JsonValue {
    /// The value bound to `key` when this document is a mapping: the first
    /// binding wins, as `Json::lookup` says.
    pub fn get<'a>(&'a self, key: &str) -> (r: Option<&'a JsonValue>)
        ensures
            match r {
                Some(v) => self@.lookup(key@) == Some(v@),
                None => self@.lookup(key@) is None,
            },
    {
        match self {
            JsonValue::Obj(fields) => {
                let wanted = String::from_str(key);
                let ghost all = obj_view(*fields, 0);
                let mut i: usize = 0;
                while i < fields.len()
                    invariant
                        0 <= i <= fields.len(),
                        wanted@ == key@,
                        self@ == Json::Obj(all),
                        all == obj_view(*fields, 0),
                        fields_lookup(all, key@) == fields_lookup(obj_view(*fields, i as int), key@),
                    decreases fields.len() - i,
                {
                    proof {
                        assert(obj_view(*fields, i as int) =~= seq![(fields[i as int].0@, fields[i as int].1@)]
                            + obj_view(*fields, i as int + 1));
                        assert(obj_view(*fields, i as int).drop_first() =~= obj_view(*fields, i as int + 1));
                    }
                    if fields[i].0 == wanted {
                        return Some(&fields[i].1);
                    }
                    i = i + 1;
                }
                proof {
                    assert(obj_view(*fields, i as int) =~= Seq::<(Seq<char>, Json)>::empty());
                }
                None
            },
            _ => None,
        }
    }
}

pub(crate) proof fn lemma_arr_view_len(items: Vec<JsonValue>, i: int)
    requires
        0 <= i <= items.len(),
    ensures
        arr_view(items, i).len() == items.len() - i,
    decreases items.len() - i,
{
    if i < items.len() {
        lemma_arr_view_len(items, i + 1);
        assert(arr_view(items, i) == seq![items[i]@] + arr_view(items, i + 1));
    }
}

pub(crate) proof fn lemma_arr_view_index(items: Vec<JsonValue>, i: int, k: int)
    requires
        0 <= i <= k < items.len(),
    ensures
        arr_view(items, i).len() == items.len() - i,
        arr_view(items, i)[k - i] == items[k]@,
    decreases k - i,
{
    lemma_arr_view_len(items, i);
    assert(arr_view(items, i) == seq![items[i]@] + arr_view(items, i + 1));
    if i < k {
        lemma_arr_view_index(items, i + 1, k);
        assert(arr_view(items, i)[k - i] == arr_view(items, i + 1)[k - (i + 1)]);
    }
}

pub(crate) proof fn lemma_obj_view_len(fields: Vec<(String, JsonValue)>, i: int)
    requires
        0 <= i <= fields.len(),
    ensures
        obj_view(fields, i).len() == fields.len() - i,
    decreases fields.len() - i,
{
    if i < fields.len() {
        lemma_obj_view_len(fields, i + 1);
        assert(obj_view(fields, i) == seq![(fields[i].0@, fields[i].1@)] + obj_view(fields, i + 1));
    }
}

pub(crate) proof fn lemma_obj_view_index(fields: Vec<(String, JsonValue)>, i: int, k: int)
    requires
        0 <= i <= k < fields.len(),
    ensures
        obj_view(fields, i).len() == fields.len() - i,
        obj_view(fields, i)[k - i] == (fields[k].0@, fields[k].1@),
    decreases k - i,
{
    lemma_obj_view_len(fields, i);
    assert(obj_view(fields, i) == seq![(fields[i].0@, fields[i].1@)] + obj_view(fields, i + 1));
    if i < k {
        lemma_obj_view_index(fields, i + 1, k);
        assert(obj_view(fields, i)[k - i] == obj_view(fields, i + 1)[k - (i + 1)]);
    }
}

/// Law: the write envelope is exactly one mapping with the single key
/// "data" bound to the caller's document. Looking that key up returns the
/// document unchanged, whatever it holds (even a "data" key of its own),
/// and no other key is present.
pub proof fn lemma_wrap_exact(d: Json)
    ensures
        spec_wrap(d) matches Json::Obj(fields) && fields.len() == 1 && fields[0] == (data_key(), d),
        spec_wrap(d).lookup(data_key()) == Some(d),
        forall|k: Seq<char>| k != data_key() ==> spec_wrap(d).lookup(k) is None,
{
    let fields = seq![(data_key(), d)];
    assert(spec_wrap(d).lookup(data_key()) == Some(d));
    assert forall|k: Seq<char>| k != data_key() implies spec_wrap(d).lookup(k) is None by {
        assert(fields.drop_first() =~= Seq::<(Seq<char>, Json)>::empty());
        assert(fields_lookup(fields.drop_first(), k) is None);
        assert(fields[0].0 == data_key());
    }
}

} // verus!

//! A structured JSON-like value: the shape of provider payloads, compute
//! contexts, and raw provider responses.  Numbers are integers; provider
//! token material never carries fractional numbers.

use vstd::prelude::*;

verus! {

/// Executable JSON-like value.  An object is an ordered list of key/value
/// pairs; lookup returns the first pair with a matching key.
#[derive(Debug, PartialEq, Eq)]
pub enum Json {
    Null,
    Bool(bool),
    Int(i64),
    Str(String),
    Arr(Vec<Json>),
    Obj(Vec<(String, Json)>),
}

/// Mathematical model of a `Json` value.
#[verifier::ext_equal]
pub enum JsonV {
    Null,
    Bool(bool),
    Int(int),
    Str(Seq<char>),
    Arr(Seq<JsonV>),
    Obj(Seq<(Seq<char>, JsonV)>),
}

/// Model of a `Json` value.
pub open spec fn json_v(j: Json) -> JsonV
    decreases j,
{
    match j {
        Json::Null => JsonV::Null,
        Json::Bool(b) => JsonV::Bool(b),
        Json::Int(i) => JsonV::Int(i as int),
        Json::Str(s) => JsonV::Str(s@),
        Json::Arr(v) => JsonV::Arr(items_v(v@)),
        Json::Obj(v) => JsonV::Obj(fields_v(v@)),
    }
}

/// Model of an array's items.
pub open spec fn items_v(items: Seq<Json>) -> Seq<JsonV>
    decreases items,
{
    Seq::new(
        items.len(),
        |i: int|
            if 0 <= i < items.len() {
                json_v(items[i])
            } else {
                JsonV::Null
            },
    )
}

/// Model of an object's field list.
pub open spec fn fields_v(fields: Seq<(String, Json)>) -> Seq<(Seq<char>, JsonV)>
    decreases fields,
{
    Seq::new(
        fields.len(),
        |i: int|
            if 0 <= i < fields.len() {
                (fields[i].0@, json_v(fields[i].1))
            } else {
                (Seq::<char>::empty(), JsonV::Null)
            },
    )
}

impl View for Json {
    type V = JsonV;

    open spec fn view(&self) -> JsonV {
        json_v(*self)
    }
}

/// First-match lookup among the fields of an object.
pub open spec fn lookup(fields: Seq<(Seq<char>, JsonV)>, key: Seq<char>) -> Option<JsonV>
    decreases fields.len(),
{
    if fields.len() == 0 {
        None
    } else if fields[0].0 == key {
        Some(fields[0].1)
    } else {
        lookup(fields.skip(1), key)
    }
}

/// Lookup of `key` in a value: `None` unless the value is an object with
/// that key.
pub open spec fn get_spec(j: JsonV, key: Seq<char>) -> Option<JsonV> {
    match j {
        JsonV::Obj(fields) => lookup(fields, key),
        _ => None,
    }
}

impl Json {
    /// Looks `key` up in this value; `None` unless this is an object
    /// holding the key.
    pub fn get<'a>(&'a self, key: &String) -> (r: Option<&'a Json>)
        ensures
            match r {
                Some(v) => get_spec(self@, key@) == Some(v@),
                None => get_spec(self@, key@) is None,
            },
    {
        match self {
            Json::Obj(fields) => {
                proof {
                    assert(fields_v(fields@).skip(0) =~= fields_v(fields@));
                }
                lookup_from(fields, 0, key)
            },
            _ => None,
        }
    }

    /// Structural copy; the copy models the same value.
    pub fn deep_copy(&self) -> (r: Json)
        ensures
            r@ == self@,
        decreases self,
    {
        match self {
            Json::Null => Json::Null,
            Json::Bool(b) => Json::Bool(*b),
            Json::Int(i) => Json::Int(*i),
            Json::Str(s) => Json::Str(s.clone()),
            Json::Arr(v) => {
                let mut out: Vec<Json> = Vec::new();
                let mut i: usize = 0;
                while i < v.len()
                    invariant
                        *self is Arr,
                        (*self)->Arr_0 == *v,
                        i <= v.len(),
                        out@.len() == i as int,
                        forall|k: int| 0 <= k < i as int ==> json_v(#[trigger] out@[k]) == json_v(v@[k]),
                    decreases v.len() - i,
                {
                    proof {
                        assert(decreases_to!(*self => (*self)->Arr_0));
                        assert(decreases_to!(*v => v[i as int]));
                    }
                    out.push(v[i].deep_copy());
                    i = i + 1;
                }
                let r = Json::Arr(out);
                proof {
                    assert forall|k: int| 0 <= k < v@.len() implies items_v(out@)[k] == items_v(
                        v@,
                    )[k] by {
                        assert(json_v(out@[k]) == json_v(v@[k]));
                    }
                    assert(items_v(out@) =~= items_v(v@));
                    assert(r@ =~= self@);
                }
                r
            },
            Json::Obj(v) => {
                let mut out: Vec<(String, Json)> = Vec::new();
                let mut i: usize = 0;
                while i < v.len()
                    invariant
                        *self is Obj,
                        (*self)->Obj_0 == *v,
                        i <= v.len(),
                        out@.len() == i as int,
                        forall|k: int| 0 <= k < i as int ==> (#[trigger] out@[k]).0@ == v@[k].0@,
                        forall|k: int| 0 <= k < i as int ==> json_v((#[trigger] out@[k]).1) == json_v(v@[k].1),
                    decreases v.len() - i,
                {
                    proof {
                        assert(decreases_to!(*self => (*self)->Obj_0));
                        assert(decreases_to!(*v => v[i as int]));
                        assert(decreases_to!(v[i as int] => v[i as int].1));
                    }
                    let copied = v[i].1.deep_copy();
                    out.push((v[i].0.clone(), copied));
                    i = i + 1;
                }
                let r = Json::Obj(out);
                proof {
                    assert forall|k: int| 0 <= k < v@.len() implies fields_v(out@)[k] == fields_v(
                        v@,
                    )[k] by {
                        assert(out@[k].0@ == v@[k].0@);
                        assert(json_v(out@[k].1) == json_v(v@[k].1));
                    }
                    assert(fields_v(out@) =~= fields_v(v@));
                    assert(r@ =~= self@);
                }
                r
            },
        }
    }
}

/// Scans the fields from position `i` on for the first pair whose key
/// equals `key`.
fn lookup_from<'a>(fields: &'a Vec<(String, Json)>, i: usize, key: &String) -> (r: Option<
    &'a Json,
>)
    requires
        i <= fields@.len(),
    ensures
        match r {
            Some(v) => lookup(fields_v(fields@).skip(i as int), key@) == Some(v@),
            None => lookup(fields_v(fields@).skip(i as int), key@) is None,
        },
    decreases fields@.len() - i,
{
    proof {
        assert(fields_v(fields@).skip(i as int).len() == fields@.len() - i);
    }
    if i == fields.len() {
        None
    } else {
        proof {
            assert(fields_v(fields@).skip(i as int)[0] == fields_v(fields@)[i as int]);
            assert(fields_v(fields@).skip(i as int).skip(1) =~= fields_v(fields@).skip(
                i as int + 1,
            ));
        }
        if fields[i].0.eq(key) {
            Some(&fields[i].1)
        } else {
            lookup_from(fields, i + 1, key)
        }
    }
}

} // verus!


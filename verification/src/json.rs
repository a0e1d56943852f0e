//! The library's own JSON tree: the wire documents this crate decodes are
//! trees of nulls, booleans, numbers, strings, arrays and objects.
//!
//! `JsonValue` is the executable tree; `JsonV` is its mathematical view,
//! with strings as `Seq<char>` and containers as `Seq`. A number is either
//! an exact 64-bit integer or, for anything else the wire may carry, its
//! decimal lexeme kept verbatim.

use vstd::prelude::*;

verus! {

/// A JSON number: an exact signed 64-bit integer, or the decimal lexeme of
/// any other number, kept verbatim so that nothing is coerced or rounded.
#[derive(Debug, PartialEq)]
pub enum JsonNumber {
    Int(i64),
    Dec(String),
}

/// An executable JSON tree. An object is an ordered list of key/value pairs.
#[derive(Debug, PartialEq)]
pub enum JsonValue {
    Null,
    Bool(bool),
    Num(JsonNumber),
    Str(String),
    Arr(Vec<JsonValue>),
    Obj(Vec<(String, JsonValue)>),
}

/// Mathematical view of a JSON number.
#[verifier::ext_equal]
pub enum NumV {
    Int(i64),
    Dec(Seq<char>),
}

/// Mathematical view of a JSON tree.
#[verifier::ext_equal]
pub enum JsonV {
    Null,
    Bool(bool),
    Num(NumV),
    Str(Seq<char>),
    Arr(Seq<JsonV>),
    Obj(Seq<(Seq<char>, JsonV)>),
}

impl View for JsonNumber {
    type V = NumV;

    open spec fn view(&self) -> NumV {
        match self {
            JsonNumber::Int(i) => NumV::Int(*i),
            JsonNumber::Dec(s) => NumV::Dec(s@),
        }
    }
}

/// The view of a JSON tree, recursively.
pub open spec fn json_view(v: JsonValue) -> JsonV
    decreases v,
{
    match v {
        JsonValue::Null => JsonV::Null,
        JsonValue::Bool(b) => JsonV::Bool(b),
        JsonValue::Num(n) => JsonV::Num(n@),
        JsonValue::Str(s) => JsonV::Str(s@),
        JsonValue::Arr(a) => JsonV::Arr(arr_view(a@)),
        JsonValue::Obj(o) => JsonV::Obj(kv_view(o@)),
    }
}

/// View of an executable array's element list.
pub open spec fn arr_view(a: Seq<JsonValue>) -> Seq<JsonV>
    decreases a,
{
    Seq::new(
        a.len(),
        |i: int|
            if 0 <= i < a.len() {
                json_view(a[i])
            } else {
                JsonV::Null
            },
    )
}

impl View for JsonValue {
    type V = JsonV;

    open spec fn view(&self) -> JsonV {
        json_view(*self)
    }
}

/// Looks a key up in an object's pair list: the first pair with that key wins.
pub open spec fn obj_get(o: Seq<(Seq<char>, JsonV)>, key: Seq<char>) -> Option<JsonV>
    decreases o.len(),
{
    if o.len() == 0 {
        None
    } else if o[0].0 == key {
        Some(o[0].1)
    } else {
        obj_get(o.drop_first(), key)
    }
}

/// The object's pair list with every pair under `key` taken out, the other
/// pairs kept in order.
pub open spec fn remove_key(o: Seq<(Seq<char>, JsonV)>, key: Seq<char>) -> Seq<(Seq<char>, JsonV)>
    decreases o.len(),
{
    if o.len() == 0 {
        Seq::empty()
    } else if o[0].0 == key {
        remove_key(o.drop_first(), key)
    } else {
        seq![o[0]] + remove_key(o.drop_first(), key)
    }
}

/// Finds a key in an executable object, returning a borrow of its value.
pub fn obj_get_ref<'a>(o: &'a Vec<(String, JsonValue)>, key: &String) -> (r: Option<&'a JsonValue>)
    ensures
        match r {
            Some(v) => obj_get(kv_view(o@), key@) == Some(json_view(*v)),
            None => obj_get(kv_view(o@), key@) is None,
        },
{
    let ghost kv = kv_view(o@);
    proof {
        assert(kv.skip(0) =~= kv);
    }
    let mut i: usize = 0;
    while i < o.len()
        invariant
            i <= o.len(),
            kv == kv_view(o@),
            kv.len() == o@.len(),
            obj_get(kv, key@) == obj_get(kv.skip(i as int), key@),
        decreases o.len() - i,
    {
        proof {
            assert(kv.skip(i as int).len() > 0);
            assert(kv.skip(i as int)[0] == kv[i as int]);
        }
        if o[i].0 == *key {
            proof {
                assert(obj_get(kv.skip(i as int), key@) == Some(kv[i as int].1));
            }
            return Some(&o[i].1);
        }
        proof {
            assert(kv.skip(i as int).drop_first() =~= kv.skip(i as int + 1));
        }
        i = i + 1;
    }
    proof {
        assert(kv.skip(o@.len() as int) =~= Seq::empty());
    }
    None
}

/// View of an executable object's pair list.
pub open spec fn kv_view(o: Seq<(String, JsonValue)>) -> Seq<(Seq<char>, JsonV)>
    decreases o,
{
    Seq::new(
        o.len(),
        |i: int|
            if 0 <= i < o.len() {
                (o[i].0@, json_view(o[i].1))
            } else {
                (Seq::empty(), JsonV::Null)
            },
    )
}

impl Clone for JsonNumber {
    /// The copy stands for the same number.
    fn clone(&self) -> (r: JsonNumber)
        ensures
            r@ == self@,
    {
        match self {
            JsonNumber::Int(i) => JsonNumber::Int(*i),
            JsonNumber::Dec(s) => JsonNumber::Dec(s.clone()),
        }
    }
}

/// Deep copy of a JSON tree: the copy has the same view.
pub fn json_clone(v: &JsonValue) -> (r: JsonValue)
    ensures
        r@ == v@,
    decreases *v,
{
    match v {
        JsonValue::Null => JsonValue::Null,
        JsonValue::Bool(b) => JsonValue::Bool(*b),
        JsonValue::Num(n) => JsonValue::Num(n.clone()),
        JsonValue::Str(s) => JsonValue::Str(s.clone()),
        JsonValue::Arr(a) => {
            let mut out: Vec<JsonValue> = Vec::new();
            let mut i: usize = 0;
            while i < a.len()
                invariant
                    *v == JsonValue::Arr(*a),
                    i <= a.len(),
                    out@.len() == i,
                    forall|j: int| 0 <= j < i ==> json_view(out@[j]) == json_view(a@[j]),
                decreases a.len() - i,
            {
                proof {
                    assert(*a == (*v)->Arr_0);
                    assert(decreases_to!(*v => (*v)->Arr_0));
                    assert(decreases_to!(*a => a@));
                    assert(decreases_to!(a@ => a@[i as int]));
                }
                out.push(json_clone(&a[i]));
                i = i + 1;
            }
            let r = JsonValue::Arr(out);
            proof {
                assert(out@.len() == a@.len());
                assert(r@ is Arr);
                assert(v@ is Arr);
                assert(r@->Arr_0 =~~= v@->Arr_0);
                assert(r@ =~~= v@);
            }
            r
        },
        JsonValue::Obj(o) => {
            let mut out: Vec<(String, JsonValue)> = Vec::new();
            let mut i: usize = 0;
            while i < o.len()
                invariant
                    *v == JsonValue::Obj(*o),
                    i <= o.len(),
                    out@.len() == i,
                    forall|j: int|
                        0 <= j < i ==> out@[j].0@ == o@[j].0@ && json_view(out@[j].1) == json_view(
                            o@[j].1,
                        ),
                decreases o.len() - i,
            {
                let key = o[i].0.clone();
                proof {
                    assert(*o == (*v)->Obj_0);
                    assert(decreases_to!(*v => (*v)->Obj_0));
                    assert(decreases_to!(*o => o@));
                    assert(decreases_to!(o@ => o@[i as int]));
                    assert(decreases_to!(o@[i as int] => o@[i as int].1));
                }
                let val = json_clone(&o[i].1);
                out.push((key, val));
                i = i + 1;
            }
            let r = JsonValue::Obj(out);
            proof {
                assert(out@.len() == o@.len());
                assert(r@ is Obj);
                assert(v@ is Obj);
                assert(r@->Obj_0 =~~= v@->Obj_0);
                assert(r@ =~~= v@);
            }
            r
        },
    }
}

impl Clone for JsonValue {
    /// The copy stands for the same tree.
    fn clone(&self) -> (r: JsonValue)
        ensures
            r@ == self@,
    {
        json_clone(self)
    }
}

} // verus!

//! The library's own representation of structured (JSON-like) values:
//! task parameters and operation outputs are values of this type.  The
//! mathematical shape of a value is [`JsonView`], reached through
//! `deep_view`; contracts speak of that shape.

use vstd::prelude::*;

verus! {

/// A structured value: the opaque parameter / output payload of a task.
/// Numbers are limited to signed 64-bit integers; objects keep their
/// entries in insertion order.
#[derive(Debug)]
pub enum JsonValue {
    Null,
    Bool(bool),
    Int(i64),
    Str(String),
    Arr(Vec<JsonValue>),
    Obj(Vec<(String, JsonValue)>),
}

/// The mathematical shape of a [`JsonValue`]: the same variants over
/// sequences.
pub enum JsonView {
    Null,
    Bool(bool),
    Int(i64),
    Str(Seq<char>),
    Arr(Seq<JsonView>),
    Obj(Seq<(Seq<char>, JsonView)>),
}

/// The shape of a value: every `String` becomes its character sequence,
/// every `Vec` its sequence of element shapes.
pub open spec fn json_view(v: JsonValue) -> JsonView
    decreases v,
{
    match v {
        JsonValue::Null => JsonView::Null,
        JsonValue::Bool(b) => JsonView::Bool(b),
        JsonValue::Int(n) => JsonView::Int(n),
        JsonValue::Str(s) => JsonView::Str(s@),
        JsonValue::Arr(items) => JsonView::Arr(
            Seq::new(
                items@.len(),
                |i: int|
                    if 0 <= i < items@.len() {
                        json_view(items@[i])
                    } else {
                        JsonView::Null
                    },
            ),
        ),
        JsonValue::Obj(entries) => JsonView::Obj(
            Seq::new(
                entries@.len(),
                |i: int|
                    if 0 <= i < entries@.len() {
                        (entries@[i].0@, json_view(entries@[i].1))
                    } else {
                        (Seq::<char>::empty(), JsonView::Null)
                    },
            ),
        ),
    }
}

impl View for JsonValue {
    type V = JsonView;

    open spec fn view(&self) -> JsonView {
        json_view(*self)
    }
}

/// Whether the views of two string slices are equal.
pub fn str_eq(a: &str, b: &str) -> (r: bool)
    ensures
        r == (a@ == b@),
{
    let sa = String::from_str(a);
    let sb = String::from_str(b);
    sa == sb
}

/// Look a key up among the entries of an object shape; the first entry
/// with that key wins.
pub open spec fn entries_lookup(es: Seq<(Seq<char>, JsonView)>, key: Seq<char>) -> Option<JsonView>
    decreases es.len(),
{
    if es.len() == 0 {
        None
    } else if es[0].0 == key {
        Some(es[0].1)
    } else {
        entries_lookup(es.drop_first(), key)
    }
}

/// Look a key up in a value shape: `None` unless the value is an object
/// holding the key.
pub open spec fn json_lookup(v: JsonView, key: Seq<char>) -> Option<JsonView> {
    match v {
        JsonView::Obj(es) => entries_lookup(es, key),
        _ => None,
    }
}

proof fn lemma_entries_lookup_match(es: Seq<(Seq<char>, JsonView)>, key: Seq<char>, i: int)
    requires
        0 <= i < es.len(),
        forall|j: int| 0 <= j < i ==> es[j].0 != key,
        es[i].0 == key,
    ensures
        entries_lookup(es, key) == Some(es[i].1),
    decreases i,
{
    if i > 0 {
        lemma_entries_lookup_match(es.drop_first(), key, i - 1);
    }
}

proof fn lemma_entries_lookup_miss(es: Seq<(Seq<char>, JsonView)>, key: Seq<char>)
    requires
        forall|j: int| 0 <= j < es.len() ==> es[j].0 != key,
    ensures
        entries_lookup(es, key) is None,
    decreases es.len(),
{
    if es.len() > 0 {
        lemma_entries_lookup_miss(es.drop_first(), key);
    }
}

impl JsonValue {
    /// The value stored at `key`, when this value is an object that
    /// holds the key.
    #[verifier::loop_isolation(false)]
    pub fn get<'a>(&'a self, key: &str) -> (r: Option<&'a JsonValue>)
        ensures
            match r {
                Some(f) => json_lookup(self@, key@) == Some(f@),
                None => json_lookup(self@, key@) is None,
            },
    {
        match self {
            JsonValue::Obj(entries) => {
                let key_s = String::from_str(key);
                let n = entries.len();
                for i in 0..n
                    invariant
                        n == entries@.len(),
                        key_s@ == key@,
                        forall|j: int| 0 <= j < i ==> entries@[j].0@ != key@,
                {
                    if entries[i].0 == key_s {
                        proof {
                            let es = self@->Obj_0;
                            lemma_entries_lookup_match(es, key@, i as int);
                        }
                        return Some(&entries[i].1);
                    }
                }
                proof {
                    let es = self@->Obj_0;
                    lemma_entries_lookup_miss(es, key@);
                }
                None
            },
            _ => None,
        }
    }

    /// A structurally equal copy of this value.
    #[verifier::loop_isolation(false)]
    pub fn deep_clone(&self) -> (r: JsonValue)
        ensures
            r@ == self@,
        decreases self,
    {
        match self {
            JsonValue::Null => JsonValue::Null,
            JsonValue::Bool(b) => JsonValue::Bool(*b),
            JsonValue::Int(n) => JsonValue::Int(*n),
            JsonValue::Str(s) => JsonValue::Str(s.clone()),
            JsonValue::Arr(items) => {
                let mut out: Vec<JsonValue> = Vec::new();
                let n = items.len();
                for i in 0..n
                    invariant
                        n == items@.len(),
                        out@.len() == i,
                        forall|j: int|
                            #![all_triggers]
                            0 <= j < i ==> json_view(out@[j]) == json_view(items@[j]),
                {
                    proof {
                        let v = *self;
                        assert(decreases_to!(v => v->Arr_0));
                        assert(decreases_to!(v->Arr_0 => v->Arr_0@));
                        assert(decreases_to!(v->Arr_0@ => v->Arr_0@[i as int]));
                    }
                    out.push(items[i].deep_clone());
                }
                let r = JsonValue::Arr(out);
                proof {
                    assert(r@->Arr_0 =~= self@->Arr_0);
                }
                r
            },
            JsonValue::Obj(entries) => {
                let mut out: Vec<(String, JsonValue)> = Vec::new();
                let n = entries.len();
                for i in 0..n
                    invariant
                        n == entries@.len(),
                        out@.len() == i,
                        forall|j: int|
                            #![all_triggers]
                            0 <= j < i ==> out@[j].0@ == entries@[j].0@ && json_view(out@[j].1)
                                == json_view(entries@[j].1),
                {
                    proof {
                        let v = *self;
                        assert(decreases_to!(v => v->Obj_0));
                        assert(decreases_to!(v->Obj_0 => v->Obj_0@));
                        assert(decreases_to!(v->Obj_0@ => v->Obj_0@[i as int]));
                        assert(decreases_to!(v->Obj_0@[i as int] => v->Obj_0@[i as int].1));
                    }
                    let pair = (entries[i].0.clone(), entries[i].1.deep_clone());
                    out.push(pair);
                }
                let r = JsonValue::Obj(out);
                proof {
                    assert(r@->Obj_0 =~= self@->Obj_0);
                }
                r
            },
        }
    }
}

/// The shape of an object with a single entry.
pub open spec fn obj1_view(k: Seq<char>, v: JsonView) -> JsonView {
    JsonView::Obj(seq![(k, v)])
}

/// The shape of an object with two entries, in order.
pub open spec fn obj2_view(k1: Seq<char>, v1: JsonView, k2: Seq<char>, v2: JsonView) -> JsonView {
    JsonView::Obj(seq![(k1, v1), (k2, v2)])
}

/// The shape of an array of strings.
pub open spec fn str_arr_view(ss: Seq<Seq<char>>) -> JsonView {
    JsonView::Arr(Seq::new(ss.len(), |i: int| JsonView::Str(ss[i])))
}

/// The shape of an array of arrays of strings.
pub open spec fn rows_view(rs: Seq<Seq<Seq<char>>>) -> JsonView {
    JsonView::Arr(Seq::new(rs.len(), |i: int| str_arr_view(rs[i])))
}

/// An object with a single entry.
pub fn obj1(key: &str, v: JsonValue) -> (r: JsonValue)
    ensures
        r@ == obj1_view(key@, v@),
{
    let mut es: Vec<(String, JsonValue)> = Vec::new();
    es.push((String::from_str(key), v));
    let r = JsonValue::Obj(es);
    proof {
        assert(r@->Obj_0 =~= seq![(key@, v@)]);
    }
    r
}

/// An object with two entries, in order.
pub fn obj2(k1: &str, v1: JsonValue, k2: &str, v2: JsonValue) -> (r: JsonValue)
    ensures
        r@ == obj2_view(k1@, v1@, k2@, v2@),
{
    let ghost gv1 = v1@;
    let ghost gv2 = v2@;
    let mut es: Vec<(String, JsonValue)> = Vec::new();
    es.push((String::from_str(k1), v1));
    es.push((String::from_str(k2), v2));
    let r = JsonValue::Obj(es);
    proof {
        assert(r@->Obj_0 =~= seq![(k1@, gv1), (k2@, gv2)]);
    }
    r
}

/// An array of strings, consuming the given vector.
pub fn str_list_value(items: Vec<String>) -> (r: JsonValue)
    ensures
        r@ == str_arr_view(items.deep_view()),
{
    let mut out: Vec<JsonValue> = Vec::new();
    let n = items.len();
    for i in 0..n
        invariant
            n == items@.len(),
            out@.len() == i,
            forall|j: int| 0 <= j < i ==> json_view(#[trigger] out@[j]) == JsonView::Str(
                items@[j]@,
            ),
    {
        out.push(JsonValue::Str(items[i].clone()));
    }
    let r = JsonValue::Arr(out);
    proof {
        assert(r@->Arr_0 =~= str_arr_view(items.deep_view())->Arr_0);
    }
    r
}

/// An array of arrays of strings, consuming the given vector.
pub fn rows_value(rows: Vec<Vec<String>>) -> (r: JsonValue)
    ensures
        r@ == rows_view(rows.deep_view()),
{
    let mut out: Vec<JsonValue> = Vec::new();
    let n = rows.len();
    for i in 0..n
        invariant
            n == rows@.len(),
            out@.len() == i,
            forall|j: int| 0 <= j < i ==> json_view(#[trigger] out@[j]) == str_arr_view(
                rows@[j].deep_view(),
            ),
    {
        let row = rows[i].clone();
        proof {
            assert(row.deep_view() =~= rows@[i as int].deep_view());
        }
        out.push(str_list_value(row));
    }
    let r = JsonValue::Arr(out);
    proof {
        assert(r@->Arr_0 =~= rows_view(rows.deep_view())->Arr_0);
    }
    r
}

} // verus!

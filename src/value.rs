//! The loosely-typed payload exchanged with callers and with the renderer.

use vstd::prelude::*;

verus! {

/// A JSON-compatible value. Numbers are kept as the numeral text they were
/// written with; object entries keep their order.
#[derive(Debug)]
pub enum Value {
    Null,
    Bool(bool),
    Number(String),
    Text(String),
    Array(Vec<Value>),
    Object(Vec<(String, Value)>),
}

/// The mathematical form of a [`Value`].
pub enum Json {
    Null,
    Bool(bool),
    Number(Seq<char>),
    Text(Seq<char>),
    Array(Seq<Json>),
    Object(Seq<(Seq<char>, Json)>),
}

/// Entries of an object, in their mathematical form.
pub type Entries = Seq<(Seq<char>, Json)>;

pub open spec fn json_of(v: Value) -> Json
    decreases v,
{
    match v {
        Value::Null => Json::Null,
        Value::Bool(b) => Json::Bool(b),
        Value::Number(t) => Json::Number(t@),
        Value::Text(t) => Json::Text(t@),
        Value::Array(items) => Json::Array(
            Seq::new(
                items@.len(),
                |i: int|
                    if 0 <= i < items@.len() {
                        json_of(items@[i])
                    } else {
                        Json::Null
                    },
            ),
        ),
        Value::Object(entries) => Json::Object(
            Seq::new(
                entries@.len(),
                |i: int|
                    if 0 <= i < entries@.len() {
                        (entries@[i].0@, json_of(entries@[i].1))
                    } else {
                        (Seq::empty(), Json::Null)
                    },
            ),
        ),
    }
}

impl View for Value {
    type V = Json;

    open spec fn view(&self) -> Json {
        json_of(*self)
    }
}

/// The mathematical form of the entries of an object.
pub open spec fn entries_view(entries: Seq<(String, Value)>) -> Entries {
    Seq::new(entries.len(), |i: int| (entries[i].0@, entries[i].1@))
}

pub proof fn lemma_object_view(entries: Vec<(String, Value)>)
    ensures
        Value::Object(entries)@ == Json::Object(entries_view(entries@)),
{
    assert(json_of(Value::Object(entries))->Object_0 =~= entries_view(entries@));
}

/// The mathematical form of the items of an array.
pub open spec fn items_view(items: Seq<Value>) -> Seq<Json> {
    items.map_values(|v: Value| v@)
}

pub proof fn lemma_array_view(items: Vec<Value>)
    ensures
        Value::Array(items)@ == Json::Array(items_view(items@)),
{
    assert(json_of(Value::Array(items))->Array_0 =~= items_view(items@));
}

/// The value of the first entry under `key`, if any.
#[verifier::opaque]
pub open spec fn lookup(entries: Entries, key: Seq<char>) -> Option<Json>
    decreases entries.len(),
{
    if entries.len() == 0 {
        None
    } else if entries[0].0 == key {
        Some(entries[0].1)
    } else {
        lookup(entries.drop_first(), key)
    }
}

/// The value reached from `j` by following the keys of `path`, each through an
/// object.
pub open spec fn value_at(j: Json, path: Seq<Seq<char>>) -> Option<Json>
    decreases path.len(),
{
    if path.len() == 0 {
        Some(j)
    } else {
        match j {
            Json::Object(e) => match lookup(e, path[0]) {
                Some(v) => value_at(v, path.drop_first()),
                None => None,
            },
            _ => None,
        }
    }
}

/// The keys are pairwise different.
pub open spec fn distinct_keys(keys: Seq<Seq<char>>) -> bool {
    forall|i: int, j: int| 0 <= i < j < keys.len() ==> keys[i] != keys[j]
}

/// One entry when the value is present, none otherwise.
pub open spec fn opt_entry(key: Seq<char>, value: Option<Json>) -> Entries {
    match value {
        Some(v) => seq![(key, v)],
        None => Seq::empty(),
    }
}

/// The entries of a record: each present field under its key, in field order.
#[verifier::opaque]
pub open spec fn fields_wire(keys: Seq<Seq<char>>, values: Seq<Option<Json>>) -> Entries
    decreases keys.len(),
{
    if keys.len() == 0 || values.len() == 0 {
        Seq::empty()
    } else {
        fields_wire(keys.drop_last(), values.drop_last()) + opt_entry(keys.last(), values.last())
    }
}

pub proof fn lemma_lookup_append(a: Entries, b: Entries, key: Seq<char>)
    ensures
        lookup(a + b, key) == (if lookup(a, key) is Some {
            lookup(a, key)
        } else {
            lookup(b, key)
        }),
    decreases a.len(),
{
    reveal(lookup);
    reveal(fields_wire);
    if a.len() == 0 {
        assert(a + b =~= b);
    } else {
        assert((a + b).drop_first() =~= a.drop_first() + b);
        lemma_lookup_append(a.drop_first(), b, key);
    }
}

pub proof fn lemma_lookup_fields_wire_absent(
    keys: Seq<Seq<char>>,
    values: Seq<Option<Json>>,
    key: Seq<char>,
)
    requires
        forall|i: int| 0 <= i < keys.len() ==> keys[i] != key,
    ensures
        lookup(fields_wire(keys, values), key) is None,
    decreases keys.len(),
{
    reveal(lookup);
    reveal(fields_wire);
    if keys.len() > 0 && values.len() > 0 {
        let front = fields_wire(keys.drop_last(), values.drop_last());
        lemma_lookup_fields_wire_absent(keys.drop_last(), values.drop_last(), key);
        lemma_lookup_append(front, opt_entry(keys.last(), values.last()), key);
        let tail = opt_entry(keys.last(), values.last());
        assert(keys[keys.len() - 1] != key);
        if values.last() is Some {
            assert(tail.drop_first() =~= Seq::<(Seq<char>, Json)>::empty());
            assert(lookup(tail.drop_first(), key) is None);
        }
        assert(lookup(tail, key) is None);
    }
}

/// A record's field is found under its own key, whatever the other fields hold.
pub proof fn lemma_lookup_fields_wire(keys: Seq<Seq<char>>, values: Seq<Option<Json>>, j: int)
    requires
        distinct_keys(keys),
        keys.len() == values.len(),
        0 <= j < keys.len(),
    ensures
        lookup(fields_wire(keys, values), keys[j]) == values[j],
    decreases keys.len(),
{
    reveal(lookup);
    reveal(fields_wire);
    let front = fields_wire(keys.drop_last(), values.drop_last());
    let tail = opt_entry(keys.last(), values.last());
    lemma_lookup_append(front, tail, keys[j]);
    if values.last() is Some {
        assert(tail.drop_first() =~= Seq::<(Seq<char>, Json)>::empty());
        assert(lookup(tail.drop_first(), keys[j]) is None);
    }
    if j == keys.len() - 1 {
        assert forall|i: int| 0 <= i < keys.drop_last().len() implies keys.drop_last()[i]
            != keys[j] by {
            assert(keys[i] != keys[j]);
        }
        lemma_lookup_fields_wire_absent(keys.drop_last(), values.drop_last(), keys[j]);
    } else {
        assert(keys[keys.len() - 1] != keys[j]);
        assert(distinct_keys(keys.drop_last()));
        lemma_lookup_fields_wire(keys.drop_last(), values.drop_last(), j);
    }
}

/// Finds the value of the first entry under `key`.
pub fn find<'a>(entries: &'a Vec<(String, Value)>, key: &str) -> (r: Option<&'a Value>)
    ensures
        match r {
            Some(v) => lookup(entries_view(entries@), key@) == Some(v@),
            None => lookup(entries_view(entries@), key@) is None,
        },
{
    proof {
        reveal(lookup);
    }
    let wanted = String::from_str(key);
    let ghost all = entries_view(entries@);
    let mut i: usize = 0;
    assert(all.skip(0) =~= all);
    while i < entries.len()
        invariant
            0 <= i <= entries@.len(),
            all == entries_view(entries@),
            wanted@ == key@,
            lookup(all, key@) == lookup(all.skip(i as int), key@),
        decreases entries@.len() - i,
    {
        proof {
            reveal(lookup);
        }
        assert(all.skip(i as int).drop_first() =~= all.skip(i as int + 1));
        if entries[i].0 == wanted {
            return Some(&entries[i].1);
        }
        i += 1;
    }
    None
}

/// The mathematical form of an optional value.
pub open spec fn opt_view(o: Option<Value>) -> Option<Json> {
    match o {
        Some(v) => Some(v@),
        None => None,
    }
}

/// The mathematical form of optional values.
pub open spec fn opt_views(values: Seq<Option<Value>>) -> Seq<Option<Json>> {
    values.map_values(|o: Option<Value>| opt_view(o))
}

/// The entries of a record: each present value under its key, in order.
pub fn entries_of(keys: &[&str], values: Vec<Option<Value>>) -> (r: Vec<(String, Value)>)
    requires
        keys@.len() == values@.len(),
    ensures
        entries_view(r@) == fields_wire(keys@.map_values(|k: &str| k@), opt_views(values@)),
{
    proof {
        reveal(fields_wire);
    }
    let ghost key_views = keys@.map_values(|k: &str| k@);
    let ghost value_views = opt_views(values@);
    let n = keys.len();
    let mut entries: Vec<(String, Value)> = Vec::new();
    let mut rest = values;
    let mut i: usize = 0;
    while i < n
        invariant
            n == keys@.len(),
            0 <= i <= n,
            key_views == keys@.map_values(|k: &str| k@),
            value_views.len() == n,
            rest@.len() == n - i,
            forall|j: int| 0 <= j < rest@.len() ==> opt_views(rest@)[j] == value_views[i + j],
            entries_view(entries@) == fields_wire(
                key_views.take(i as int),
                value_views.take(i as int),
            ),
        decreases n - i,
    {
        proof {
            reveal(fields_wire);
        }
        let ghost rest_before = rest@;
        let item = rest.remove(0);
        let ghost before = entries_view(entries@);
        assert(key_views.take(i as int + 1).drop_last() =~= key_views.take(i as int));
        assert(value_views.take(i as int + 1).drop_last() =~= value_views.take(i as int));
        assert(opt_views(rest_before)[0] == value_views[i as int]);
        assert(forall|j: int|
            0 <= j < rest@.len() ==> opt_views(rest@)[j] == opt_views(rest_before)[j + 1]);
        match item {
            Some(v) => {
                entries.push((String::from_str(keys[i]), v));
                assert(entries_view(entries@) =~= before + opt_entry(
                    key_views[i as int],
                    value_views[i as int],
                ));
            },
            None => {
                assert(before + opt_entry(key_views[i as int], value_views[i as int]) =~= before);
            },
        }
        i += 1;
    }
    assert(key_views.take(n as int) =~= key_views);
    assert(value_views.take(n as int) =~= value_views);
    entries
}

/// The object with these entries.
pub fn object_value(entries: Vec<(String, Value)>) -> (r: Value)
    ensures
        r@ == Json::Object(entries_view(entries@)),
{
    proof {
        lemma_object_view(entries);
    }
    Value::Object(entries)
}

} // verus!

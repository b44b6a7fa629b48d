//! Reading and writing single fields of a record, and the error that names a
//! field of the wrong kind.

use crate::numeral::{
    decimal_digits, lemma_numeral_round_trip, numeral_of, numeral_u32, parse_numeral,
};
use crate::value::{
    entries_view, find, items_view, lemma_array_view, lemma_object_view, lookup, opt_view,
    value_at, Entries, Json, Value,
};
use vstd::prelude::*;

verus! {

/// The kind of value a field takes.
#[derive(Debug, Clone, Copy, PartialEq, Eq, Structural)]
pub enum Expected {
    /// `true` or `false`.
    Flag,
    /// A numeral of an unsigned 32-bit count.
    Count,
    /// Any number.
    Number,
    /// A string.
    Text,
    /// An array of strings.
    TextList,
    /// An object.
    Object,
}

/// A field of the wrong kind: the keys that lead to it from the payload's
/// root, and the kind it should have had. An empty path names the payload.
#[derive(Debug, Clone, PartialEq)]
pub struct ConfigError {
    pub path: Vec<String>,
    pub expected: Expected,
}

pub struct ConfigErrorView {
    pub path: Seq<Seq<char>>,
    pub expected: Expected,
}

impl View for ConfigError {
    type V = ConfigErrorView;

    open spec fn view(&self) -> ConfigErrorView {
        ConfigErrorView { path: self.path.deep_view(), expected: self.expected }
    }
}

pub open spec fn leaf_error(key: Seq<char>, expected: Expected) -> ConfigErrorView {
    ConfigErrorView { path: seq![key], expected }
}

pub open spec fn nested_error(key: Seq<char>, e: ConfigErrorView) -> ConfigErrorView {
    ConfigErrorView { path: seq![key] + e.path, expected: e.expected }
}

impl ConfigError {
    /// The field under `key` has the wrong kind.
    pub fn leaf(key: &str, expected: Expected) -> (r: ConfigError)
        ensures
            r@ == leaf_error(key@, expected),
    {
        let mut path = Vec::new();
        path.push(String::from_str(key));
        let r = ConfigError { path, expected };
        assert(r@.path =~= seq![key@]);
        r
    }

    /// The same field, reached through the record under `key`.
    pub fn within(self, key: &str) -> (r: ConfigError)
        ensures
            r@ == nested_error(key@, self@),
    {
        let mut path = self.path;
        path.insert(0, String::from_str(key));
        let r = ConfigError { path, expected: self.expected };
        assert(r@.path =~= seq![key@] + self@.path);
        r
    }

    /// The path as one dotted name, such as `dependenciesVersions.jquery`.
    pub fn field_name(&self) -> (r: String)
        ensures
            r@ == dotted(self@.path),
    {
        let mut r = String::new();
        let mut i: usize = 0;
        while i < self.path.len()
            invariant
                0 <= i <= self.path@.len(),
                r@ == dotted(self@.path.take(i as int)),
            decreases self.path@.len() - i,
        {
            assert(self@.path.take(i as int + 1).drop_last() =~= self@.path.take(i as int));
            if i > 0 {
                r.append(".");
            }
            r.append(self.path[i].as_str());
            proof {
                reveal_strlit(".");
            }
            assert(r@ =~= dotted(self@.path.take(i as int + 1)));
            i += 1;
        }
        assert(self@.path.take(self.path@.len() as int) =~= self@.path);
        r
    }
}

/// Keys joined by dots.
pub open spec fn dotted(path: Seq<Seq<char>>) -> Seq<char>
    decreases path.len(),
{
    if path.len() == 0 {
        Seq::empty()
    } else if path.len() == 1 {
        path[0]
    } else {
        dotted(path.drop_last()) + seq!['.'] + path.last()
    }
}

/// The value is of the kind.
pub open spec fn fits(j: Json, expected: Expected) -> bool {
    match expected {
        Expected::Flag => j is Bool,
        Expected::Count => j is Number && numeral_u32(j->Number_0) is Some,
        Expected::Number => j is Number,
        Expected::Text => j is Text,
        Expected::TextList => j is Array && all_text(j->Array_0),
        Expected::Object => j is Object,
    }
}

/// An optional field's value: absent, null, or of the kind.
pub open spec fn optional_fits(value: Option<Json>, expected: Expected) -> bool {
    match value {
        None => true,
        Some(Json::Null) => true,
        Some(j) => fits(j, expected),
    }
}

/// A setting's value: absent (its default applies) or of the kind.
pub open spec fn setting_fits(value: Option<Json>, expected: Expected) -> bool {
    match value {
        None => true,
        Some(j) => fits(j, expected),
    }
}

/// The error's path leads to a value of the payload, and that value is not of
/// the kind the error expects.
pub open spec fn names_mismatch(payload: Json, err: ConfigErrorView) -> bool {
    &&& value_at(payload, err.path) is Some
    &&& !fits(value_at(payload, err.path)->Some_0, err.expected)
}

pub proof fn lemma_leaf_mismatch(e: Entries, key: Seq<char>, expected: Expected)
    requires
        lookup(e, key) is Some,
        !fits(lookup(e, key)->Some_0, expected),
    ensures
        names_mismatch(Json::Object(e), leaf_error(key, expected)),
{
    let path = seq![key];
    assert(path.drop_first() =~= Seq::<Seq<char>>::empty());
    assert(value_at(lookup(e, key)->Some_0, path.drop_first()) == Some(lookup(e, key)->Some_0));
}

pub proof fn lemma_nested_mismatch(e: Entries, key: Seq<char>, inner: Entries, err: ConfigErrorView)
    requires
        lookup(e, key) == Some(Json::Object(inner)),
        names_mismatch(Json::Object(inner), err),
    ensures
        names_mismatch(Json::Object(e), nested_error(key, err)),
{
    let path = seq![key] + err.path;
    assert(path[0] == key);
    assert(path.drop_first() =~= err.path);
}

/// A field's result with the field's key put on its error.
pub open spec fn at<T>(key: Seq<char>, r: Result<T, Expected>) -> Result<T, ConfigErrorView> {
    match r {
        Ok(v) => Ok(v),
        Err(k) => Err(leaf_error(key, k)),
    }
}

/// An optional nested record: absent or null is none; an object is read by
/// `read`, whose error is put under `key`.
pub open spec fn nest<T>(
    key: Seq<char>,
    r: Result<Option<Entries>, Expected>,
    read: spec_fn(Entries) -> Result<T, ConfigErrorView>,
) -> Result<Option<T>, ConfigErrorView> {
    match r {
        Ok(None) => Ok(None),
        Ok(Some(inner)) => match read(inner) {
            Ok(v) => Ok(Some(v)),
            Err(e) => Err(nested_error(key, e)),
        },
        Err(k) => Err(leaf_error(key, k)),
    }
}

/// A nested record with defaults: what `read` makes of the object, or of no
/// entries when the key is absent.
pub open spec fn nest_or<T>(
    key: Seq<char>,
    r: Result<Entries, Expected>,
    read: spec_fn(Entries) -> Result<T, ConfigErrorView>,
) -> Result<T, ConfigErrorView> {
    match r {
        Ok(inner) => match read(inner) {
            Ok(v) => Ok(v),
            Err(e) => Err(nested_error(key, e)),
        },
        Err(k) => Err(leaf_error(key, k)),
    }
}

pub open spec fn flag_field(e: Entries, key: Seq<char>) -> Result<Option<bool>, Expected> {
    match lookup(e, key) {
        None => Ok(None),
        Some(Json::Null) => Ok(None),
        Some(Json::Bool(b)) => Ok(Some(b)),
        Some(_) => Err(Expected::Flag),
    }
}

pub open spec fn count_field(e: Entries, key: Seq<char>) -> Result<Option<u32>, Expected> {
    match lookup(e, key) {
        None => Ok(None),
        Some(Json::Null) => Ok(None),
        Some(Json::Number(t)) => match numeral_u32(t) {
            Some(n) => Ok(Some(n)),
            None => Err(Expected::Count),
        },
        Some(_) => Err(Expected::Count),
    }
}

pub open spec fn number_field(e: Entries, key: Seq<char>) -> Result<Option<Seq<char>>, Expected> {
    match lookup(e, key) {
        None => Ok(None),
        Some(Json::Null) => Ok(None),
        Some(Json::Number(t)) => Ok(Some(t)),
        Some(_) => Err(Expected::Number),
    }
}

pub open spec fn text_field(e: Entries, key: Seq<char>) -> Result<Option<Seq<char>>, Expected> {
    match lookup(e, key) {
        None => Ok(None),
        Some(Json::Null) => Ok(None),
        Some(Json::Text(t)) => Ok(Some(t)),
        Some(_) => Err(Expected::Text),
    }
}

pub open spec fn all_text(items: Seq<Json>) -> bool {
    forall|i: int| 0 <= i < items.len() ==> #[trigger] items[i] is Text
}

pub open spec fn texts_of(items: Seq<Json>) -> Seq<Seq<char>> {
    Seq::new(items.len(), |i: int| items[i]->Text_0)
}

pub open spec fn list_field(e: Entries, key: Seq<char>) -> Result<
    Option<Seq<Seq<char>>>,
    Expected,
> {
    match lookup(e, key) {
        None => Ok(None),
        Some(Json::Null) => Ok(None),
        Some(Json::Array(items)) => if all_text(items) {
            Ok(Some(texts_of(items)))
        } else {
            Err(Expected::TextList)
        },
        Some(_) => Err(Expected::TextList),
    }
}

pub open spec fn group_field(e: Entries, key: Seq<char>) -> Result<Option<Entries>, Expected> {
    match lookup(e, key) {
        None => Ok(None),
        Some(Json::Null) => Ok(None),
        Some(Json::Object(inner)) => Ok(Some(inner)),
        Some(_) => Err(Expected::Object),
    }
}

pub open spec fn flag_or(e: Entries, key: Seq<char>, default: bool) -> Result<bool, Expected> {
    match lookup(e, key) {
        None => Ok(default),
        Some(Json::Bool(b)) => Ok(b),
        Some(_) => Err(Expected::Flag),
    }
}

pub open spec fn text_or(e: Entries, key: Seq<char>, default: Seq<char>) -> Result<
    Seq<char>,
    Expected,
> {
    match lookup(e, key) {
        None => Ok(default),
        Some(Json::Text(t)) => Ok(t),
        Some(_) => Err(Expected::Text),
    }
}

pub open spec fn group_or(e: Entries, key: Seq<char>) -> Result<Entries, Expected> {
    match lookup(e, key) {
        None => Ok(Seq::empty()),
        Some(Json::Object(inner)) => Ok(inner),
        Some(_) => Err(Expected::Object),
    }
}

pub open spec fn flag_json(v: Option<bool>) -> Option<Json> {
    match v {
        Some(b) => Some(Json::Bool(b)),
        None => None,
    }
}

pub open spec fn count_json(v: Option<u32>) -> Option<Json> {
    match v {
        Some(n) => Some(Json::Number(decimal_digits(n as nat))),
        None => None,
    }
}

pub open spec fn number_json(v: Option<Seq<char>>) -> Option<Json> {
    match v {
        Some(t) => Some(Json::Number(t)),
        None => None,
    }
}

pub open spec fn text_json(v: Option<Seq<char>>) -> Option<Json> {
    match v {
        Some(t) => Some(Json::Text(t)),
        None => None,
    }
}

pub open spec fn list_json(v: Option<Seq<Seq<char>>>) -> Option<Json> {
    match v {
        Some(l) => Some(Json::Array(Seq::new(l.len(), |i: int| Json::Text(l[i])))),
        None => None,
    }
}

pub proof fn lemma_count_round_trip(e: Entries, key: Seq<char>, v: Option<u32>)
    requires
        lookup(e, key) == count_json(v),
    ensures
        count_field(e, key) == Ok::<Option<u32>, Expected>(v),
{
    if let Some(n) = v {
        lemma_numeral_round_trip(n);
    }
}

pub proof fn lemma_list_round_trip(e: Entries, key: Seq<char>, v: Option<Seq<Seq<char>>>)
    requires
        lookup(e, key) == list_json(v),
    ensures
        list_field(e, key) == Ok::<Option<Seq<Seq<char>>>, Expected>(v),
{
    if let Some(l) = v {
        let items = Seq::new(l.len(), |i: int| Json::Text(l[i]));
        assert(all_text(items));
        assert(texts_of(items) =~= l);
    }
}

pub fn read_flag(entries: &Vec<(String, Value)>, key: &str) -> (r: Result<Option<bool>, Expected>)
    ensures
        r == flag_field(entries_view(entries@), key@),
{
    match find(entries, key) {
        None => Ok(None),
        Some(Value::Null) => Ok(None),
        Some(Value::Bool(b)) => Ok(Some(*b)),
        Some(_) => Err(Expected::Flag),
    }
}

pub fn read_count(entries: &Vec<(String, Value)>, key: &str) -> (r: Result<Option<u32>, Expected>)
    ensures
        r == count_field(entries_view(entries@), key@),
{
    match find(entries, key) {
        None => Ok(None),
        Some(Value::Null) => Ok(None),
        Some(Value::Number(t)) => match parse_numeral(t.as_str()) {
            Some(n) => Ok(Some(n)),
            None => Err(Expected::Count),
        },
        Some(_) => Err(Expected::Count),
    }
}

pub fn read_number(entries: &Vec<(String, Value)>, key: &str) -> (r: Result<
    Option<String>,
    Expected,
>)
    ensures
        match r {
            Ok(o) => number_field(entries_view(entries@), key@) == Ok::<
                Option<Seq<char>>,
                Expected,
            >(o.deep_view()),
            Err(k) => number_field(entries_view(entries@), key@) == Err::<
                Option<Seq<char>>,
                Expected,
            >(k),
        },
{
    match find(entries, key) {
        None => Ok(None),
        Some(Value::Null) => Ok(None),
        Some(Value::Number(t)) => Ok(Some(t.clone())),
        Some(_) => Err(Expected::Number),
    }
}

pub fn read_text(entries: &Vec<(String, Value)>, key: &str) -> (r: Result<
    Option<String>,
    Expected,
>)
    ensures
        match r {
            Ok(o) => text_field(entries_view(entries@), key@) == Ok::<
                Option<Seq<char>>,
                Expected,
            >(o.deep_view()),
            Err(k) => text_field(entries_view(entries@), key@) == Err::<
                Option<Seq<char>>,
                Expected,
            >(k),
        },
{
    match find(entries, key) {
        None => Ok(None),
        Some(Value::Null) => Ok(None),
        Some(Value::Text(t)) => Ok(Some(t.clone())),
        Some(_) => Err(Expected::Text),
    }
}

pub fn read_list(entries: &Vec<(String, Value)>, key: &str) -> (r: Result<
    Option<Vec<String>>,
    Expected,
>)
    ensures
        match r {
            Ok(o) => list_field(entries_view(entries@), key@) == Ok::<
                Option<Seq<Seq<char>>>,
                Expected,
            >(o.deep_view()),
            Err(k) => list_field(entries_view(entries@), key@) == Err::<
                Option<Seq<Seq<char>>>,
                Expected,
            >(k),
        },
{
    let found = find(entries, key);
    match found {
        None => Ok(None),
        Some(Value::Null) => Ok(None),
        Some(Value::Array(items)) => {
            assert(lookup(entries_view(entries@), key@) == Some(Value::Array(*items)@));
            let ghost views = items_view(items@);
            proof {
                lemma_array_view(*items);
            }
            let mut out: Vec<String> = Vec::new();
            let mut i: usize = 0;
            while i < items.len()
                invariant
                    0 <= i <= items@.len(),
                    views == items_view(items@),
                    lookup(entries_view(entries@), key@) == Some(Json::Array(views)),
                    all_text(views.take(i as int)),
                    out.deep_view() == texts_of(views.take(i as int)),
                decreases items@.len() - i,
            {
                match &items[i] {
                    Value::Text(t) => {
                        let ghost before = out.deep_view();
                        out.push(t.clone());
                        assert(views[i as int] == Json::Text(t@));
                        assert(out.deep_view() =~= before.push(t@));
                        assert(views.take(i as int + 1) =~= views.take(i as int).push(
                            Json::Text(t@),
                        ));
                        assert(all_text(views.take(i as int + 1)));
                        assert(out.deep_view() =~= texts_of(views.take(i as int + 1)));
                    },
                    _ => {
                        assert(!(views[i as int] is Text));
                        assert(!all_text(views));
                        return Err(Expected::TextList);
                    },
                }
                i += 1;
            }
            assert(views.take(items@.len() as int) =~= views);
            Ok(Some(out))
        },
        Some(_) => Err(Expected::TextList),
    }
}

pub fn read_group<'a>(entries: &'a Vec<(String, Value)>, key: &str) -> (r: Result<
    Option<&'a Vec<(String, Value)>>,
    Expected,
>)
    ensures
        match r {
            Ok(Some(inner)) => group_field(entries_view(entries@), key@) == Ok::<
                Option<Entries>,
                Expected,
            >(Some(entries_view(inner@))),
            Ok(None) => group_field(entries_view(entries@), key@) == Ok::<
                Option<Entries>,
                Expected,
            >(None),
            Err(k) => group_field(entries_view(entries@), key@) == Err::<
                Option<Entries>,
                Expected,
            >(k),
        },
{
    match find(entries, key) {
        None => Ok(None),
        Some(Value::Null) => Ok(None),
        Some(Value::Object(inner)) => {
            proof {
                lemma_object_view(*inner);
            }
            Ok(Some(inner))
        },
        Some(_) => Err(Expected::Object),
    }
}

pub fn read_flag_or(entries: &Vec<(String, Value)>, key: &str, default: bool) -> (r: Result<
    bool,
    Expected,
>)
    ensures
        r == flag_or(entries_view(entries@), key@, default),
{
    match find(entries, key) {
        None => Ok(default),
        Some(Value::Bool(b)) => Ok(*b),
        Some(_) => Err(Expected::Flag),
    }
}

pub fn read_text_or(entries: &Vec<(String, Value)>, key: &str, default: &str) -> (r: Result<
    String,
    Expected,
>)
    ensures
        match r {
            Ok(t) => text_or(entries_view(entries@), key@, default@) == Ok::<Seq<char>, Expected>(
                t@,
            ),
            Err(k) => text_or(entries_view(entries@), key@, default@) == Err::<
                Seq<char>,
                Expected,
            >(k),
        },
{
    match find(entries, key) {
        None => Ok(String::from_str(default)),
        Some(Value::Text(t)) => Ok(t.clone()),
        Some(_) => Err(Expected::Text),
    }
}

pub fn read_group_or<'a>(entries: &'a Vec<(String, Value)>, key: &str) -> (r: Result<
    Option<&'a Vec<(String, Value)>>,
    Expected,
>)
    ensures
        match r {
            Ok(Some(inner)) => group_or(entries_view(entries@), key@) == Ok::<Entries, Expected>(
                entries_view(inner@),
            ),
            Ok(None) => group_or(entries_view(entries@), key@) == Ok::<Entries, Expected>(
                Seq::empty(),
            ),
            Err(k) => group_or(entries_view(entries@), key@) == Err::<Entries, Expected>(k),
        },
{
    match find(entries, key) {
        None => Ok(None),
        Some(Value::Object(inner)) => {
            proof {
                lemma_object_view(*inner);
            }
            Ok(Some(inner))
        },
        Some(_) => Err(Expected::Object),
    }
}

pub fn flag_value(v: Option<bool>) -> (r: Option<Value>)
    ensures
        opt_view(r) == flag_json(v),
{
    match v {
        Some(b) => Some(Value::Bool(b)),
        None => None,
    }
}

pub fn count_value(v: Option<u32>) -> (r: Option<Value>)
    ensures
        opt_view(r) == count_json(v),
{
    match v {
        Some(n) => Some(Value::Number(numeral_of(n))),
        None => None,
    }
}

pub fn number_value(v: &Option<String>) -> (r: Option<Value>)
    ensures
        opt_view(r) == number_json(v.deep_view()),
{
    match v {
        Some(t) => Some(Value::Number(t.clone())),
        None => None,
    }
}

pub fn text_value(v: &Option<String>) -> (r: Option<Value>)
    ensures
        opt_view(r) == text_json(v.deep_view()),
{
    match v {
        Some(t) => Some(Value::Text(t.clone())),
        None => None,
    }
}

pub fn list_value(v: &Option<Vec<String>>) -> (r: Option<Value>)
    ensures
        opt_view(r) == list_json(v.deep_view()),
{
    match v {
        Some(l) => {
            let ghost texts = l.deep_view();
            let mut items: Vec<Value> = Vec::new();
            let mut i: usize = 0;
            while i < l.len()
                invariant
                    0 <= i <= l@.len(),
                    texts == l.deep_view(),
                    items@.len() == i,
                    forall|j: int| 0 <= j < i ==> #[trigger] items@[j]@ == Json::Text(texts[j]),
                decreases l@.len() - i,
            {
                items.push(Value::Text(l[i].clone()));
                i += 1;
            }
            proof {
                lemma_array_view(items);
            }
            assert(items_view(items@) =~= Seq::new(texts.len(), |i: int| Json::Text(texts[i])));
            let r = Value::Array(items);
            Some(r)
        },
        None => None,
    }
}

} // verus!

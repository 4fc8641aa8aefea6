//! JSON values, and their exchange with `serde_json`.
//!
//! [`Json`] is the value tree that the packet codec reads and builds. Its
//! meaning is a [`JsonView`]: an object is a map from keys to values, so the
//! order of its entries does not matter and a later entry overrides an
//! earlier one with the same key. Reading and writing JSON text is left to
//! `serde_json`; the conversions between its `Value` and [`Json`] are proved
//! against a model of what a `Value` holds.

use vstd::prelude::*;
use crate::text::str_eq;

verus! {

#[verifier::external_type_specification]
#[verifier::external_body]
pub struct ExValue(serde_json::Value);

#[verifier::external_type_specification]
#[verifier::external_body]
pub struct ExNumber(serde_json::Number);

/// `Clone::clone` of `serde_json::Number`: a number is plain data, and its
/// clone is the same number.
pub assume_specification[ <serde_json::Number as Clone>::clone ](
    n: &serde_json::Number,
) -> (r: serde_json::Number)
    ensures
        r == *n,
;

/// A JSON value.
#[derive(Debug, PartialEq)]
pub enum Json {
    Null,
    Bool(bool),
    Number(serde_json::Number),
    String(String),
    Array(Vec<Json>),
    /// The entries of an object, in any order. Where a key occurs more than
    /// once, the last entry counts.
    Object(Vec<(String, Json)>),
}

/// What a JSON value means.
pub enum JsonView {
    Null,
    Bool(bool),
    Number(serde_json::Number),
    String(Seq<char>),
    Array(Seq<JsonView>),
    Object(Map<Seq<char>, JsonView>),
}

/// The map that a list of object entries stands for.
pub open spec fn entries_view(entries: Seq<(String, Json)>) -> Map<Seq<char>, JsonView>
    decreases entries, 0nat,
{
    if entries.len() == 0 {
        Map::empty()
    } else {
        entries_view(entries.drop_last()).insert(entries.last().0@, entries.last().1.view())
    }
}

/// The views of a list of values.
pub open spec fn items_view(items: Seq<Json>) -> Seq<JsonView>
    decreases items, 0nat,
{
    if items.len() == 0 {
        Seq::empty()
    } else {
        items_view(items.drop_last()).push(items.last().view())
    }
}

impl Json {
    pub open spec fn view(self) -> JsonView
        decreases self, 1nat,
    {
        match self {
            Json::Null => JsonView::Null,
            Json::Bool(b) => JsonView::Bool(b),
            Json::Number(n) => JsonView::Number(n),
            Json::String(s) => JsonView::String(s@),
            Json::Array(items) => JsonView::Array(items_view(items@)),
            Json::Object(entries) => JsonView::Object(entries_view(entries@)),
        }
    }
}

impl JsonView {
    /// The member `key` of an object; `None` for a missing key and for a
    /// value that is no object.
    pub open spec fn member(self, key: Seq<char>) -> Option<JsonView> {
        match self {
            JsonView::Object(m) => if m.contains_key(key) {
                Some(m[key])
            } else {
                None
            },
            _ => None,
        }
    }

    /// The text of a string value.
    pub open spec fn text(self) -> Option<Seq<char>> {
        match self {
            JsonView::String(s) => Some(s),
            _ => None,
        }
    }

    /// The truth value of a boolean value.
    pub open spec fn truth(self) -> Option<bool> {
        match self {
            JsonView::Bool(b) => Some(b),
            _ => None,
        }
    }
}

/// `items_view` keeps length and positions.
pub proof fn lemma_items_view(items: Seq<Json>)
    ensures
        items_view(items).len() == items.len(),
        forall|i: int| 0 <= i < items.len() ==> (#[trigger] items_view(items)[i]) == items[i]@,
    decreases items.len(),
{
    if items.len() > 0 {
        lemma_items_view(items.drop_last());
    }
}

/// The entry at `i` gives the value of its key when no later entry has the
/// same key.
pub proof fn lemma_entries_last_wins(entries: Seq<(String, Json)>, i: int)
    requires
        0 <= i < entries.len(),
        forall|j: int| i < j < entries.len() ==> (#[trigger] entries[j]).0@ != entries[i].0@,
    ensures
        entries_view(entries).contains_key(entries[i].0@),
        entries_view(entries)[entries[i].0@] == entries[i].1@,
    decreases entries.len(),
{
    if i < entries.len() - 1 {
        let rest = entries.drop_last();
        assert(rest[i] == entries[i]);
        assert forall|j: int| i < j < rest.len() implies (#[trigger] rest[j]).0@ != rest[i].0@ by {
            assert(rest[j] == entries[j]);
        }
        lemma_entries_last_wins(rest, i);
        assert(entries.last() == entries[entries.len() - 1]);
    }
}

/// A key that no entry has is not a key of the object.
pub proof fn lemma_entries_absent(entries: Seq<(String, Json)>, key: Seq<char>)
    requires
        forall|j: int| 0 <= j < entries.len() ==> (#[trigger] entries[j]).0@ != key,
    ensures
        !entries_view(entries).contains_key(key),
    decreases entries.len(),
{
    if entries.len() > 0 {
        let rest = entries.drop_last();
        assert forall|j: int| 0 <= j < rest.len() implies (#[trigger] rest[j]).0@ != key by {
            assert(rest[j] == entries[j]);
        }
        lemma_entries_absent(rest, key);
        assert(entries.last() == entries[entries.len() - 1]);
    }
}

/// Entry lists that agree in keys and in the views of their values stand for
/// the same map.
pub proof fn lemma_entries_view_same(a: Seq<(String, Json)>, b: Seq<(String, Json)>)
    requires
        a.len() == b.len(),
        forall|k: int| 0 <= k < a.len() ==> (#[trigger] a[k]).0@ == b[k].0@ && a[k].1@ == b[k].1@,
    ensures
        entries_view(a) == entries_view(b),
    decreases a.len(),
{
    if a.len() > 0 {
        let ra = a.drop_last();
        let rb = b.drop_last();
        assert forall|k: int| 0 <= k < ra.len() implies (#[trigger] ra[k]).0@ == rb[k].0@ && ra[k].1@
            == rb[k].1@ by {
            assert(ra[k] == a[k]);
            assert(rb[k] == b[k]);
        }
        lemma_entries_view_same(ra, rb);
        assert(a.last() == a[a.len() - 1]);
        assert(b.last() == b[b.len() - 1]);
    }
}

impl Json {
    /// The member `key` of an object.
    pub fn get(&self, key: &str) -> (r: Option<&Json>)
        ensures
            match r {
                Some(x) => self@.member(key@) == Some(x@),
                None => self@.member(key@) is None,
            },
    {
        match self {
            Json::Object(entries) => {
                let mut i: usize = entries.len();
                while i > 0
                    invariant
                        i <= entries.len(),
                        self@ == JsonView::Object(entries_view(entries@)),
                        forall|j: int| i <= j < entries.len() ==> (#[trigger] entries@[j]).0@ != key@,
                    decreases i,
                {
                    i -= 1;
                    if str_eq(entries[i].0.as_str(), key) {
                        proof {
                            lemma_entries_last_wins(entries@, i as int);
                        }
                        return Some(&entries[i].1);
                    }
                }
                proof {
                    lemma_entries_absent(entries@, key@);
                }
                None
            },
            _ => None,
        }
    }

    /// The text of a string value.
    pub fn as_str(&self) -> (r: Option<&str>)
        ensures
            match r {
                Some(s) => self@.text() == Some(s@),
                None => self@.text() is None,
            },
    {
        match self {
            Json::String(s) => Some(s.as_str()),
            _ => None,
        }
    }

    /// The truth value of a boolean value.
    pub fn as_bool(&self) -> (r: Option<bool>)
        ensures
            r == self@.truth(),
    {
        match self {
            Json::Bool(b) => Some(*b),
            _ => None,
        }
    }

    /// Whether this is `null`.
    pub fn is_null(&self) -> (r: bool)
        ensures
            r == (self@ == JsonView::Null),
    {
        match self {
            Json::Null => true,
            _ => false,
        }
    }
}

/// What a `serde_json::Value` holds.
pub uninterp spec fn value_view(v: serde_json::Value) -> JsonView;

/// What `serde_json::from_str` makes of a text: the value it reads, or
/// `None` where it reports an error.
pub uninterp spec fn json_parse(text: Seq<char>) -> Option<JsonView>;

/// The compact text that `serde_json` writes for a value.
pub uninterp spec fn json_text(v: JsonView) -> Seq<char>;

/// The `serde_json::Number` of an unsigned integer.
pub uninterp spec fn number_of_u64(n: u64) -> serde_json::Number;

/// One level of a `serde_json::Value`: its variant, with the values below it
/// still as `serde_json` holds them.
pub enum ValueNode {
    Null,
    Bool(bool),
    Number(serde_json::Number),
    String(String),
    Array(Vec<serde_json::Value>),
    Object(Vec<(String, serde_json::Value)>),
}

/// What a list of `serde_json` values holds.
pub open spec fn values_view(items: Seq<serde_json::Value>) -> Seq<JsonView> {
    Seq::new(items.len(), |i: int| value_view(items[i]))
}

/// The map that a list of `serde_json` object entries stands for.
pub open spec fn value_entries_view(entries: Seq<(String, serde_json::Value)>) -> Map<
    Seq<char>,
    JsonView,
>
    decreases entries.len(),
{
    if entries.len() == 0 {
        Map::empty()
    } else {
        value_entries_view(entries.drop_last()).insert(
            entries.last().0@,
            value_view(entries.last().1),
        )
    }
}

/// No two entries have the same key.
pub open spec fn distinct_keys(entries: Seq<(String, serde_json::Value)>) -> bool {
    forall|i: int, j: int|
        0 <= i < j < entries.len() ==> (#[trigger] entries[i]).0@ != (#[trigger] entries[j]).0@
}

impl ValueNode {
    pub open spec fn view(self) -> JsonView {
        match self {
            ValueNode::Null => JsonView::Null,
            ValueNode::Bool(b) => JsonView::Bool(b),
            ValueNode::Number(n) => JsonView::Number(n),
            ValueNode::String(s) => JsonView::String(s@),
            ValueNode::Array(items) => JsonView::Array(values_view(items@)),
            ValueNode::Object(entries) => JsonView::Object(value_entries_view(entries@)),
        }
    }
}

/// `serde_json::from_str::<Value>`: reads a JSON text. The result is a
/// function of the text alone.
#[verifier::external_body]
fn parse_value(text: &str) -> (r: Option<serde_json::Value>)
    ensures
        match r {
            Some(v) => json_parse(text@) == Some(value_view(v)),
            None => json_parse(text@) is None,
        },
{
    serde_json::from_str::<serde_json::Value>(text).ok()
}

/// `Value::to_string`: writes a value as compact JSON text. The result is a
/// function of what the value holds.
#[verifier::external_body]
fn value_text(v: &serde_json::Value) -> (s: String)
    ensures
        s@ == json_text(value_view(*v)),
{
    v.to_string()
}

/// Takes a `serde_json::Value` apart by its variant. The entries of an object
/// come out of `Map::into_iter`, each key once.
#[verifier::external_body]
fn value_into_node(v: serde_json::Value) -> (node: ValueNode)
    ensures
        node@ == value_view(v),
        node matches ValueNode::Object(entries) ==> distinct_keys(entries@),
{
    match v {
        serde_json::Value::Null => ValueNode::Null,
        serde_json::Value::Bool(b) => ValueNode::Bool(b),
        serde_json::Value::Number(n) => ValueNode::Number(n),
        serde_json::Value::String(s) => ValueNode::String(s),
        serde_json::Value::Array(items) => ValueNode::Array(items),
        serde_json::Value::Object(m) => ValueNode::Object(m.into_iter().collect()),
    }
}

/// Builds a `serde_json::Value` of the given variant. The entries of an
/// object go through `Map::insert` in order, so a later entry replaces an
/// earlier one with the same key.
#[verifier::external_body]
fn value_from_node(node: ValueNode) -> (v: serde_json::Value)
    ensures
        value_view(v) == node@,
{
    match node {
        ValueNode::Null => serde_json::Value::Null,
        ValueNode::Bool(b) => serde_json::Value::Bool(b),
        ValueNode::Number(n) => serde_json::Value::Number(n),
        ValueNode::String(s) => serde_json::Value::String(s),
        ValueNode::Array(items) => serde_json::Value::Array(items),
        ValueNode::Object(entries) => {
            let mut m = serde_json::Map::new();
            for (k, x) in entries {
                m.insert(k, x);
            }
            serde_json::Value::Object(m)
        },
    }
}

/// `Number::from(u64)`: the JSON number of an unsigned integer.
#[verifier::external_body]
fn number_from_u64(n: u64) -> (r: serde_json::Number)
    ensures
        r == number_of_u64(n),
{
    serde_json::Number::from(n)
}

/// An object's map has finitely many keys.
proof fn lemma_value_entries_finite(entries: Seq<(String, serde_json::Value)>)
    ensures
        value_entries_view(entries).dom().finite(),
    decreases entries.len(),
{
    if entries.len() > 0 {
        lemma_value_entries_finite(entries.drop_last());
    }
}

/// With distinct keys, every entry gives the value of its key.
proof fn lemma_value_entries_lookup(entries: Seq<(String, serde_json::Value)>, i: int)
    requires
        distinct_keys(entries),
        0 <= i < entries.len(),
    ensures
        value_entries_view(entries).contains_key(entries[i].0@),
        value_entries_view(entries)[entries[i].0@] == value_view(entries[i].1),
    decreases entries.len(),
{
    let rest = entries.drop_last();
    assert(entries.last() == entries[entries.len() - 1]);
    if i < entries.len() - 1 {
        assert(rest[i] == entries[i]);
        assert(distinct_keys(rest)) by {
            assert forall|a: int, b: int| 0 <= a < b < rest.len() implies (#[trigger] rest[a]).0@ != (
            #[trigger] rest[b]).0@ by {
                assert(rest[a] == entries[a]);
                assert(rest[b] == entries[b]);
            }
        }
        lemma_value_entries_lookup(rest, i);
    }
}

/// Entry lists that agree in keys and in what their values hold stand for the
/// same map.
proof fn lemma_entries_match(a: Seq<(String, Json)>, b: Seq<(String, serde_json::Value)>)
    requires
        a.len() == b.len(),
        forall|k: int|
            0 <= k < a.len() ==> (#[trigger] a[k]).0@ == b[k].0@ && a[k].1@ == value_view(b[k].1),
    ensures
        entries_view(a) == value_entries_view(b),
    decreases a.len(),
{
    if a.len() > 0 {
        let ra = a.drop_last();
        let rb = b.drop_last();
        assert forall|k: int| 0 <= k < ra.len() implies (#[trigger] ra[k]).0@ == rb[k].0@ && ra[k].1@
            == value_view(rb[k].1) by {
            assert(ra[k] == a[k]);
            assert(rb[k] == b[k]);
        }
        lemma_entries_match(ra, rb);
        assert(a.last() == a[a.len() - 1]);
        assert(b.last() == b[b.len() - 1]);
    }
}

impl Json {
    /// The number `n`.
    pub fn from_u64(n: u64) -> (j: Json)
        ensures
            j@ == JsonView::Number(number_of_u64(n)),
    {
        Json::Number(number_from_u64(n))
    }

    /// The value tree of a `serde_json::Value`.
    #[verifier::loop_isolation(false)]
    fn from_value(v: serde_json::Value) -> (j: Json)
        ensures
            j@ == value_view(v),
        decreases value_view(v),
    {
        match value_into_node(v) {
            ValueNode::Null => Json::Null,
            ValueNode::Bool(b) => Json::Bool(b),
            ValueNode::Number(n) => Json::Number(n),
            ValueNode::String(s) => Json::String(s),
            ValueNode::Array(items) => {
                let ghost all = items@;
                let mut out: Vec<Json> = Vec::new();
                for x in it: items
                    invariant
                        it.seq() == all,
                        out@.len() == it.index(),
                        forall|k: int| 0 <= k < out@.len() ==> (#[trigger] out@[k])@ == value_view(all[k]),
                {
                    proof {
                        let below = values_view(all);
                        assert(below[it.index() as int] == value_view(x));
                        assert(value_view(v)->Array_0 == below);
                        assert(decreases_to!(value_view(v) => value_view(v)->Array_0));
                        assert(decreases_to!(below => below[it.index() as int]));
                    }
                    out.push(Json::from_value(x));
                }
                proof {
                    lemma_items_view(out@);
                    assert(items_view(out@) =~= values_view(all));
                }
                Json::Array(out)
            },
            ValueNode::Object(entries) => {
                let ghost all = entries@;
                let mut out: Vec<(String, Json)> = Vec::new();
                for e in it: entries
                    invariant
                        it.seq() == all,
                        out@.len() == it.index(),
                        forall|k: int|
                            0 <= k < out@.len() ==> (#[trigger] out@[k]).0@ == all[k].0@ && out@[k].1@
                                == value_view(all[k].1),
                {
                    proof {
                        let below = value_entries_view(all);
                        lemma_value_entries_finite(all);
                        lemma_value_entries_lookup(all, it.index() as int);
                        assert(value_view(v)->Object_0 == below);
                        assert(decreases_to!(value_view(v) => value_view(v)->Object_0));
                        assert(decreases_to!(below => below[e.0@]));
                    }
                    let (k, x) = e;
                    out.push((k, Json::from_value(x)));
                }
                proof {
                    lemma_entries_match(out@, all);
                }
                Json::Object(out)
            },
        }
    }

    /// This value as a `serde_json::Value`.
    #[verifier::loop_isolation(false)]
    fn to_value(&self) -> (v: serde_json::Value)
        ensures
            value_view(v) == self@,
        decreases self,
    {
        match self {
            Json::Null => value_from_node(ValueNode::Null),
            Json::Bool(b) => value_from_node(ValueNode::Bool(*b)),
            Json::Number(n) => value_from_node(ValueNode::Number(n.clone())),
            Json::String(s) => value_from_node(ValueNode::String(s.clone())),
            Json::Array(items) => {
                let mut out: Vec<serde_json::Value> = Vec::new();
                let mut i: usize = 0;
                while i < items.len()
                    invariant
                        i <= items.len(),
                        out@.len() == i,
                        forall|k: int| 0 <= k < i ==> value_view(#[trigger] out@[k]) == items@[k]@,
                    decreases items.len() - i,
                {
                    out.push(items[i].to_value());
                    i += 1;
                }
                proof {
                    lemma_items_view(items@);
                    assert(values_view(out@) =~= items_view(items@));
                }
                value_from_node(ValueNode::Array(out))
            },
            Json::Object(entries) => {
                let mut out: Vec<(String, serde_json::Value)> = Vec::new();
                let mut i: usize = 0;
                while i < entries.len()
                    invariant
                        i <= entries.len(),
                        out@.len() == i,
                        forall|k: int|
                            0 <= k < i ==> (#[trigger] entries@[k]).0@ == out@[k].0@ && entries@[k].1@
                                == value_view(out@[k].1),
                    decreases entries.len() - i,
                {
                    out.push((entries[i].0.clone(), entries[i].1.to_value()));
                    i += 1;
                }
                proof {
                    lemma_entries_match(entries@, out@);
                }
                value_from_node(ValueNode::Object(out))
            },
        }
    }

    /// Reads a JSON text. Gives `None` where `serde_json` rejects the text.
    pub fn parse(text: &str) -> (r: Option<Json>)
        ensures
            match r {
                Some(j) => json_parse(text@) == Some(j@),
                None => json_parse(text@) is None,
            },
    {
        match parse_value(text) {
            Some(v) => Some(Json::from_value(v)),
            None => None,
        }
    }

    /// Writes this value as compact JSON text.
    pub fn to_text(&self) -> (s: String)
        ensures
            s@ == json_text(self@),
    {
        let v = self.to_value();
        value_text(&v)
    }
}

impl Clone for Json {
    #[verifier::loop_isolation(false)]
    fn clone(&self) -> (out: Json)
        ensures
            out@ == self@,
        decreases self,
    {
        match self {
            Json::Null => Json::Null,
            Json::Bool(b) => Json::Bool(*b),
            Json::Number(n) => Json::Number(n.clone()),
            Json::String(s) => Json::String(s.clone()),
            Json::Array(items) => {
                let mut out: Vec<Json> = Vec::new();
                let mut i: usize = 0;
                while i < items.len()
                    invariant
                        i <= items.len(),
                        out@.len() == i,
                        forall|k: int| 0 <= k < i ==> (#[trigger] out@[k])@ == items@[k]@,
                    decreases items.len() - i,
                {
                    out.push(items[i].clone());
                    i += 1;
                }
                proof {
                    lemma_items_view(out@);
                    lemma_items_view(items@);
                    assert(items_view(out@) =~= items_view(items@));
                }
                Json::Array(out)
            },
            Json::Object(entries) => {
                let mut out: Vec<(String, Json)> = Vec::new();
                let mut i: usize = 0;
                while i < entries.len()
                    invariant
                        i <= entries.len(),
                        out@.len() == i,
                        forall|k: int|
                            0 <= k < i ==> (#[trigger] out@[k]).0@ == entries@[k].0@ && out@[k].1@
                                == entries@[k].1@,
                    decreases entries.len() - i,
                {
                    out.push((entries[i].0.clone(), entries[i].1.clone()));
                    i += 1;
                }
                proof {
                    lemma_entries_view_same(out@, entries@);
                }
                Json::Object(out)
            },
        }
    }
}

} // verus!

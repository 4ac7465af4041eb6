//! JSON documents as trees of plain values.
//!
//! The grammar of JSON is left to `serde_json`; this module holds the tree
//! that the decoders read and the lookups on it.

use serde_json::Error as JsonError;
use serde_json::Value;
use vstd::prelude::*;

verus! {

/// `serde_json::Error`, carried as it comes.
#[verifier::external_type_specification]
#[verifier::external_body]
pub struct ExJsonError(JsonError);

/// `serde_json::Value`, which [`json_value`] reads.
#[verifier::external_type_specification]
#[verifier::external_body]
pub struct ExJsonValue(Value);

/// A JSON value.
///
/// A number keeps what the decoders can use of it: its value as an `i64`
/// and as a `u64`, each where the number is an integer in that range. A
/// number with a fraction or an exponent has neither.
#[derive(Debug)]
pub enum Json {
    Null,
    Bool(bool),
    Number { signed: Option<i64>, unsigned: Option<u64> },
    Text(String),
    Array(Vec<Json>),
    Object(Vec<(String, Json)>),
}

/// The mathematical value of a [`Json`] tree.
pub ghost enum JsonView {
    Null,
    Bool(bool),
    Number { signed: Option<i64>, unsigned: Option<u64> },
    Text(Seq<char>),
    Array(Seq<JsonView>),
    Object(Seq<(Seq<char>, JsonView)>),
}

impl View for Json {
    type V = JsonView;

    open spec fn view(&self) -> JsonView {
        tree_view(*self)
    }
}

impl DeepView for Json {
    type V = JsonView;

    open spec fn deep_view(&self) -> JsonView {
        self@
    }
}

/// The value of a tree: that of each node, with the values of its children
/// in their order.
pub open spec fn tree_view(tree: Json) -> JsonView
    decreases tree,
{
    match tree {
        Json::Null => JsonView::Null,
        Json::Bool(b) => JsonView::Bool(b),
        Json::Number { signed, unsigned } => JsonView::Number { signed, unsigned },
        Json::Text(s) => JsonView::Text(s@),
        Json::Array(items) => JsonView::Array(
            Seq::new(
                items.len() as nat,
                |i: int|
                    if 0 <= i < items.len() {
                        tree_view(items[i])
                    } else {
                        JsonView::Null
                    },
            ),
        ),
        Json::Object(members) => JsonView::Object(
            Seq::new(
                members.len() as nat,
                |i: int|
                    if 0 <= i < members.len() {
                        (members[i].0@, tree_view(members[i].1))
                    } else {
                        (Seq::empty(), JsonView::Null)
                    },
            ),
        ),
    }
}

/// What `serde_json::from_str` reads from a text: the document, or `None`
/// where it refuses the text.
pub uninterp spec fn json_text(text: Seq<char>) -> Option<JsonView>;

/// The document that a `serde_json::Value` holds.
pub uninterp spec fn json_value(value: Value) -> JsonView;

/// `serde_json::from_str` with a `serde_json::Value` as its target. The
/// contract claims that the outcome depends on the text alone: the same
/// text is always refused or always read, and always as the same document.
/// Nothing is claimed of what the document is.
#[verifier::external_body]
fn parse_value(text: &str) -> (r: Result<Value, JsonError>)
    ensures
        match r {
            Ok(value) => json_text(text@) == Some(json_value(value)),
            Err(_) => json_text(text@) is None,
        },
{
    serde_json::from_str::<Value>(text)
}

/// Copies a `serde_json::Value` into a [`Json`] tree, variant by variant.
/// A number is copied as what `Number::as_i64` and `Number::as_u64` return
/// for it, and the members of an object in the order in which `Map::iter`
/// hands them out. The contract claims that the tree depends on the value
/// alone.
#[verifier::external_body]
fn json_tree(value: &Value) -> (r: Json)
    ensures
        r@ == json_value(*value),
{
    match value {
        Value::Null => Json::Null,
        Value::Bool(b) => Json::Bool(*b),
        Value::Number(n) => Json::Number { signed: n.as_i64(), unsigned: n.as_u64() },
        Value::String(s) => Json::Text(s.clone()),
        Value::Array(a) => Json::Array(a.iter().map(json_tree).collect()),
        Value::Object(o) => Json::Object(
            o.iter().map(|(k, v)| (k.clone(), json_tree(v))).collect(),
        ),
    }
}

impl JsonView {
    /// The value of the first member called `name`, where this is an object
    /// that has one.
    pub open spec fn member(self, name: Seq<char>) -> Option<JsonView> {
        match self {
            JsonView::Object(members) => first_named(members, name),
            _ => None,
        }
    }
}

/// The value of the first of `members` that is called `name`.
pub open spec fn first_named(members: Seq<(Seq<char>, JsonView)>, name: Seq<char>) -> Option<
    JsonView,
>
    decreases members.len(),
{
    if members.len() == 0 {
        None
    } else if members[0].0 == name {
        Some(members[0].1)
    } else {
        first_named(members.drop_first(), name)
    }
}

impl Json {
    /// The view of an array holds the views of its items, in their order.
    pub proof fn lemma_array_view(self)
        requires
            self is Array,
        ensures
            self@ is Array,
            self@->Array_0.len() == self->Array_0.len(),
            forall|k: int|
                0 <= k < self->Array_0.len() ==> self@->Array_0[k] == (
                    #[trigger] self->Array_0[k]
                )@,
    {
    }

    /// The view of an object holds the names and the views of its members,
    /// in their order.
    pub proof fn lemma_object_view(self)
        requires
            self is Object,
        ensures
            self@ is Object,
            self@->Object_0.len() == self->Object_0.len(),
            forall|k: int|
                0 <= k < self->Object_0.len() ==> self@->Object_0[k] == (
                    (#[trigger] self->Object_0[k]).0@,
                    self->Object_0[k].1@,
                ),
    {
    }

    /// Whether the value is an object.
    pub fn is_object(&self) -> (r: bool)
        ensures
            r == (self@ is Object),
    {
        match self {
            Json::Object(_) => true,
            _ => false,
        }
    }

    /// Looks a member of an object up by its name. Any other value has no
    /// members.
    pub fn get(&self, name: &str) -> (r: Option<&Json>)
        ensures
            match r {
                Some(found) => self@.member(name@) == Some(found@),
                None => self@.member(name@) is None,
            },
    {
        match self {
            Json::Object(members) => {
                let wanted = name.to_owned();
                let ghost all = self@->Object_0;
                proof {
                    self.lemma_object_view();
                    assert(all.skip(0) =~= all);
                }
                let mut i: usize = 0;
                while i < members.len()
                    invariant
                        i <= members.len(),
                        wanted@ == name@,
                        self@ == JsonView::Object(all),
                        all.len() == members.len(),
                        forall|k: int|
                            0 <= k < members.len() ==> all[k] == (
                                (#[trigger] members[k]).0@,
                                members[k].1@,
                            ),
                        first_named(all, name@) == first_named(all.skip(i as int), name@),
                    decreases members.len() - i,
                {
                    assert(all.skip(i as int)[0] == all[i as int]);
                    if members[i].0 == wanted {
                        return Some(&members[i].1);
                    }
                    assert(all.skip(i as int).drop_first() =~= all.skip(i + 1));
                    i += 1;
                }
                None
            },
            _ => None,
        }
    }

    /// Reads a JSON document from a text.
    pub fn parse(text: &str) -> (r: Result<Json, JsonError>)
        ensures
            match r {
                Ok(doc) => json_text(text@) == Some(doc@),
                Err(_) => json_text(text@) is None,
            },
    {
        match parse_value(text) {
            Ok(value) => Ok(json_tree(&value)),
            Err(e) => Err(e),
        }
    }
}

} // verus!

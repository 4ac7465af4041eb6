//! Reading the members of a JSON object against a schema.
//!
//! A schema names the members of an object and says of each what it must
//! hold and whether it may be absent. An optional member that holds `null`
//! counts as absent. Members that the schema does not name are ignored.

use super::json::{Json, JsonView};
use super::time::{parse_timestamp, timestamp_text, Timestamp};
use vstd::prelude::*;

verus! {

/// What is wrong with a member.
#[derive(Debug, Clone, Copy, PartialEq, Eq)]
pub enum Problem {
    /// A required member is absent.
    Missing,
    /// The member holds a value of the wrong kind, or one out of range.
    Invalid,
}

/// The first fault found in a document: the name of the member at fault and
/// what is wrong with it. The name is empty where the value that should be
/// an object is none.
#[derive(Debug, Clone, PartialEq, Eq)]
pub struct SchemaError {
    pub field: String,
    pub problem: Problem,
}

/// The mathematical value of a [`SchemaError`].
pub ghost struct SchemaFault {
    pub field: Seq<char>,
    pub problem: Problem,
}

impl View for SchemaError {
    type V = SchemaFault;

    open spec fn view(&self) -> SchemaFault {
        SchemaFault { field: self.field@, problem: self.problem }
    }
}

impl DeepView for SchemaError {
    type V = SchemaFault;

    open spec fn deep_view(&self) -> SchemaFault {
        self@
    }
}

/// The fault of a required member that is absent.
pub open spec fn missing(name: Seq<char>) -> SchemaFault {
    SchemaFault { field: name, problem: Problem::Missing }
}

/// The fault of a member that holds the wrong kind of value.
pub open spec fn invalid(name: Seq<char>) -> SchemaFault {
    SchemaFault { field: name, problem: Problem::Invalid }
}

/// The fault of a value that should be an object and is none.
pub open spec fn not_an_object() -> SchemaFault {
    invalid(Seq::empty())
}

/// The mathematical value of what a decoder returns.
pub open spec fn outcome<T: DeepView, E: DeepView>(r: Result<T, E>) -> Result<T::V, E::V> {
    match r {
        Ok(value) => Ok(value.deep_view()),
        Err(fault) => Err(fault.deep_view()),
    }
}

/// Continues with `next` on the value of `first`, or keeps its fault.
pub open spec fn and_then<A, B>(
    first: Result<A, SchemaFault>,
    next: spec_fn(A) -> Result<B, SchemaFault>,
) -> Result<B, SchemaFault> {
    match first {
        Ok(value) => next(value),
        Err(fault) => Err(fault),
    }
}

/// The value of the member `name`, where it is there and not `null`.
pub open spec fn present(doc: JsonView, name: Seq<char>) -> Option<JsonView> {
    match doc.member(name) {
        None | Some(JsonView::Null) => None,
        Some(value) => Some(value),
    }
}

/// A required member that holds a text.
pub open spec fn required_text_of(doc: JsonView, name: Seq<char>) -> Result<
    Seq<char>,
    SchemaFault,
> {
    match doc.member(name) {
        None => Err(missing(name)),
        Some(JsonView::Text(s)) => Ok(s),
        Some(_) => Err(invalid(name)),
    }
}

/// An optional member that holds a text.
pub open spec fn optional_text_of(doc: JsonView, name: Seq<char>) -> Result<
    Option<Seq<char>>,
    SchemaFault,
> {
    match present(doc, name) {
        None => Ok(None),
        Some(JsonView::Text(s)) => Ok(Some(s)),
        Some(_) => Err(invalid(name)),
    }
}

/// A required member that holds an integer in the range of `i64`.
pub open spec fn required_integer_of(doc: JsonView, name: Seq<char>) -> Result<i64, SchemaFault> {
    match doc.member(name) {
        None => Err(missing(name)),
        Some(JsonView::Number { signed: Some(n), unsigned: _ }) => Ok(n),
        Some(_) => Err(invalid(name)),
    }
}

/// An optional member that holds an integer in the range of `u64`.
pub open spec fn optional_unsigned_of(doc: JsonView, name: Seq<char>) -> Result<
    Option<u64>,
    SchemaFault,
> {
    match present(doc, name) {
        None => Ok(None),
        Some(JsonView::Number { signed: _, unsigned: Some(n) }) => Ok(Some(n)),
        Some(_) => Err(invalid(name)),
    }
}

/// An optional member that holds a text which denotes an instant.
pub open spec fn optional_timestamp_of(doc: JsonView, name: Seq<char>) -> Result<
    Option<Timestamp>,
    SchemaFault,
> {
    match present(doc, name) {
        None => Ok(None),
        Some(JsonView::Text(s)) => match timestamp_text(s) {
            Some(instant) => Ok(Some(instant)),
            None => Err(invalid(name)),
        },
        Some(_) => Err(invalid(name)),
    }
}

/// A required member that holds an object.
pub open spec fn required_object_of(doc: JsonView, name: Seq<char>) -> Result<
    JsonView,
    SchemaFault,
> {
    match doc.member(name) {
        None => Err(missing(name)),
        Some(JsonView::Object(members)) => Ok(JsonView::Object(members)),
        Some(_) => Err(invalid(name)),
    }
}

/// An optional member that holds an object.
pub open spec fn optional_object_of(doc: JsonView, name: Seq<char>) -> Result<
    Option<JsonView>,
    SchemaFault,
> {
    match present(doc, name) {
        None => Ok(None),
        Some(JsonView::Object(members)) => Ok(Some(JsonView::Object(members))),
        Some(_) => Err(invalid(name)),
    }
}

/// A required member that holds an array.
pub open spec fn required_array_of(doc: JsonView, name: Seq<char>) -> Result<
    Seq<JsonView>,
    SchemaFault,
> {
    match doc.member(name) {
        None => Err(missing(name)),
        Some(JsonView::Array(items)) => Ok(items),
        Some(_) => Err(invalid(name)),
    }
}

/// An optional text is what the member holds: the text that is there, or
/// nothing where the member is absent or `null`.
pub open spec fn holds_text(doc: JsonView, name: Seq<char>, value: Option<Seq<char>>) -> bool {
    match value {
        Some(text) => doc.member(name) == Some(JsonView::Text(text)),
        None => present(doc, name) is None,
    }
}

/// An optional unsigned integer is what the member holds.
pub open spec fn holds_unsigned(doc: JsonView, name: Seq<char>, value: Option<u64>) -> bool {
    match value {
        Some(n) => doc.member(name) matches Some(JsonView::Number { signed: _, unsigned: Some(m) })
            && m == n,
        None => present(doc, name) is None,
    }
}

/// An optional instant is what the text that the member holds denotes.
pub open spec fn holds_timestamp(doc: JsonView, name: Seq<char>, value: Option<Timestamp>) -> bool {
    match value {
        Some(instant) => doc.member(name) matches Some(JsonView::Text(text)) && timestamp_text(text)
            == Some(instant),
        None => present(doc, name) is None,
    }
}

impl SchemaError {
    /// The fault of a required member that is absent.
    pub fn missing(name: &str) -> (r: SchemaError)
        ensures
            r@ == missing(name@),
    {
        SchemaError { field: name.to_owned(), problem: Problem::Missing }
    }

    /// The fault of a value that should be an object and is none.
    pub fn not_an_object() -> (r: SchemaError)
        ensures
            r@ == not_an_object(),
    {
        proof {
            reveal_strlit("");
        }
        let r = SchemaError { field: "".to_owned(), problem: Problem::Invalid };
        assert(r.field@ =~= Seq::<char>::empty());
        r
    }

    /// The fault of a member that holds the wrong kind of value.
    pub fn invalid(name: &str) -> (r: SchemaError)
        ensures
            r@ == invalid(name@),
    {
        SchemaError { field: name.to_owned(), problem: Problem::Invalid }
    }
}

/// Looks up a member that may be absent; `null` counts as absent.
pub fn present_member<'a>(doc: &'a Json, name: &str) -> (r: Option<&'a Json>)
    ensures
        match r {
            Some(value) => present(doc@, name@) == Some(value@),
            None => present(doc@, name@) is None,
        },
{
    match doc.get(name) {
        None => None,
        Some(Json::Null) => None,
        Some(value) => Some(value),
    }
}

/// Reads a required member that holds a text.
pub fn required_text(doc: &Json, name: &str) -> (r: Result<String, SchemaError>)
    ensures
        outcome(r) == required_text_of(doc@, name@),
{
    match doc.get(name) {
        None => Err(SchemaError::missing(name)),
        Some(Json::Text(s)) => Ok(s.clone()),
        Some(_) => Err(SchemaError::invalid(name)),
    }
}

/// Reads an optional member that holds a text.
pub fn optional_text(doc: &Json, name: &str) -> (r: Result<Option<String>, SchemaError>)
    ensures
        outcome(r) == optional_text_of(doc@, name@),
{
    match present_member(doc, name) {
        None => Ok(None),
        Some(Json::Text(s)) => Ok(Some(s.clone())),
        Some(_) => Err(SchemaError::invalid(name)),
    }
}

/// Reads a required member that holds an integer in the range of `i64`.
pub fn required_integer(doc: &Json, name: &str) -> (r: Result<i64, SchemaError>)
    ensures
        outcome(r) == required_integer_of(doc@, name@),
{
    match doc.get(name) {
        None => Err(SchemaError::missing(name)),
        Some(Json::Number { signed: Some(n), unsigned: _ }) => Ok(*n),
        Some(_) => Err(SchemaError::invalid(name)),
    }
}

/// Reads an optional member that holds an integer in the range of `u64`.
pub fn optional_unsigned(doc: &Json, name: &str) -> (r: Result<Option<u64>, SchemaError>)
    ensures
        outcome(r) == optional_unsigned_of(doc@, name@),
{
    match present_member(doc, name) {
        None => Ok(None),
        Some(Json::Number { signed: _, unsigned: Some(n) }) => Ok(Some(*n)),
        Some(_) => Err(SchemaError::invalid(name)),
    }
}

/// Reads an optional member that holds the text of a timestamp.
pub fn optional_timestamp(doc: &Json, name: &str) -> (r: Result<Option<Timestamp>, SchemaError>)
    ensures
        outcome(r) == optional_timestamp_of(doc@, name@),
{
    match present_member(doc, name) {
        None => Ok(None),
        Some(Json::Text(s)) => match parse_timestamp(s.as_str()) {
            Some(instant) => Ok(Some(instant)),
            None => Err(SchemaError::invalid(name)),
        },
        Some(_) => Err(SchemaError::invalid(name)),
    }
}

/// Looks up a required member that holds an object.
pub fn required_object<'a>(doc: &'a Json, name: &str) -> (r: Result<&'a Json, SchemaError>)
    ensures
        outcome(r) == required_object_of(doc@, name@),
{
    match doc.get(name) {
        None => Err(SchemaError::missing(name)),
        Some(value) => match value {
            Json::Object(_) => Ok(value),
            _ => Err(SchemaError::invalid(name)),
        },
    }
}

/// Looks up an optional member that holds an object.
pub fn optional_object<'a>(doc: &'a Json, name: &str) -> (r: Result<
    Option<&'a Json>,
    SchemaError,
>)
    ensures
        outcome(r) == optional_object_of(doc@, name@),
{
    match present_member(doc, name) {
        None => Ok(None),
        Some(value) => match value {
            Json::Object(_) => Ok(Some(value)),
            _ => Err(SchemaError::invalid(name)),
        },
    }
}

/// Looks up a required member that holds an array, and hands out its items.
pub fn required_array<'a>(doc: &'a Json, name: &str) -> (r: Result<&'a Vec<Json>, SchemaError>)
    ensures
        match r {
            Ok(items) => required_array_of(doc@, name@) == Ok::<Seq<JsonView>, SchemaFault>(
                Json::Array(*items)@->Array_0,
            ),
            Err(fault) => required_array_of(doc@, name@) == Err::<Seq<JsonView>, SchemaFault>(
                fault@,
            ),
        },
{
    match doc.get(name) {
        None => Err(SchemaError::missing(name)),
        Some(Json::Array(items)) => Ok(items),
        Some(_) => Err(SchemaError::invalid(name)),
    }
}

} // verus!

//! A document model for JSON values, as far as the record decoders read
//! them, and the parser that fills it.

use vstd::prelude::*;

use crate::error::DecodeError;

verus! {

/// A JSON number: its value as a signed 64-bit integer, where it is one,
/// and its numeral.
#[derive(Clone, Debug, PartialEq, Eq)]
pub struct Number {
    pub int: Option<i64>,
    pub text: String,
}

/// A JSON value. An object keeps its members as a list of pairs; a lookup
/// takes the first member with the key.
#[derive(Debug, PartialEq, Eq)]
pub enum Json {
    Null,
    Bool(bool),
    Number(Number),
    Text(String),
    Array(Vec<Json>),
    Object(Vec<(String, Json)>),
}

/// The mathematical value of a [`Number`].
pub struct NumberView {
    pub int: Option<i64>,
    pub text: Seq<char>,
}

/// The mathematical value of a [`Json`].
pub enum JsonView {
    Null,
    Bool(bool),
    Number(NumberView),
    Text(Seq<char>),
    Array(Seq<JsonView>),
    Object(Seq<(Seq<char>, JsonView)>),
}

impl View for Number {
    type V = NumberView;

    open spec fn view(&self) -> NumberView {
        NumberView { int: self.int, text: self.text@ }
    }
}

/// The mathematical value of a JSON value.
pub open spec fn value_of(j: Json) -> JsonView
    decreases j,
{
    match j {
        Json::Null => JsonView::Null,
        Json::Bool(b) => JsonView::Bool(b),
        Json::Number(n) => JsonView::Number(n@),
        Json::Text(s) => JsonView::Text(s@),
        Json::Array(items) => JsonView::Array(
            Seq::new(
                items@.len(),
                |i: int|
                    if 0 <= i < items@.len() {
                        value_of(items@[i])
                    } else {
                        JsonView::Null
                    },
            ),
        ),
        Json::Object(members) => JsonView::Object(
            Seq::new(
                members@.len(),
                |i: int|
                    if 0 <= i < members@.len() {
                        (members@[i].0@, value_of(members@[i].1))
                    } else {
                        (Seq::empty(), JsonView::Null)
                    },
            ),
        ),
    }
}

impl DeepView for Json {
    type V = JsonView;

    open spec fn deep_view(&self) -> JsonView {
        value_of(*self)
    }
}

impl View for Json {
    type V = JsonView;

    open spec fn view(&self) -> JsonView {
        value_of(*self)
    }
}

/// The value of the first member under `key`, if there is one.
pub open spec fn member(members: Seq<(Seq<char>, JsonView)>, key: Seq<char>) -> Option<JsonView>
    decreases members.len(),
{
    if members.len() == 0 {
        None
    } else if members[0].0 == key {
        Some(members[0].1)
    } else {
        member(members.drop_first(), key)
    }
}

/// The view of an array is the list of its items' views.
pub proof fn lemma_array_view(items: Vec<Json>)
    ensures
        Json::Array(items)@ == JsonView::Array(items.deep_view()),
{
    let a = Json::Array(items)@;
    assert(a->Array_0 =~= items.deep_view());
}

/// The view of an object is the list of its members' views.
pub proof fn lemma_object_view(members: Vec<(String, Json)>)
    ensures
        Json::Object(members)@ == JsonView::Object(members.deep_view()),
{
    let o = Json::Object(members)@;
    assert(o->Object_0 =~= members.deep_view());
}

/// A member appended at the end is found under its key only where no
/// earlier member has that key; other lookups do not see it.
pub proof fn lemma_member_push(
    members: Seq<(Seq<char>, JsonView)>,
    last: (Seq<char>, JsonView),
    key: Seq<char>,
)
    ensures
        member(members.push(last), key) == if member(members, key) is Some {
            member(members, key)
        } else if last.0 == key {
            Some(last.1)
        } else {
            None
        },
    decreases members.len(),
{
    let all = members.push(last);
    if members.len() == 0 {
        assert(all.drop_first() =~= members);
    } else {
        assert(all[0] == members[0]);
        assert(all.drop_first() =~= members.drop_first().push(last));
        lemma_member_push(members.drop_first(), last, key);
    }
}

/// `serde_json::Value`, the tree that the JSON parser builds. Nothing of
/// it is read here; it is moved into the document model whole.
#[verifier::external_type_specification]
#[verifier::external_body]
pub struct ExValue(serde_json::Value);

/// `serde_json::Error`, the failure of the JSON parser.
#[verifier::external_type_specification]
#[verifier::external_body]
pub struct ExSyntaxError(serde_json::Error);

/// The document that a text is the JSON notation of, as the JSON parser
/// reads it; `None` where the parser refuses the text.
pub uninterp spec fn document_of(text: Seq<char>) -> Option<JsonView>;

/// The document that a tree of the JSON parser holds: its values, and the
/// members of its objects in the order in which the tree hands them out.
pub uninterp spec fn value_model(value: serde_json::Value) -> JsonView;

/// `serde_json::from_str` at the type `serde_json::Value`. Assumed:
/// whether the parser accepts the text, and the tree it then builds,
/// depend on the text alone.
#[verifier::external_body]
fn read_value(text: &str) -> (r: Result<serde_json::Value, serde_json::Error>)
    ensures
        r is Ok <==> document_of(text@) is Some,
        r matches Ok(value) ==> document_of(text@) == Some(value_model(value)),
{
    serde_json::from_str::<serde_json::Value>(text)
}

/// Moves a `serde_json::Value` into the document model, variant by
/// variant. A number gives what `serde_json::Number::as_i64` and its
/// `Display` give; an object gives its members in the order in which
/// `serde_json::Map::into_iter` hands them out. Assumed: the result
/// depends on the tree alone.
#[verifier::external_body]
fn model_of_value(value: serde_json::Value) -> (j: Json)
    ensures
        j@ == value_model(value),
{
    match value {
        serde_json::Value::Null => Json::Null,
        serde_json::Value::Bool(b) => Json::Bool(b),
        serde_json::Value::Number(n) => Json::Number(Number { int: n.as_i64(), text: n.to_string() }),
        serde_json::Value::String(s) => Json::Text(s),
        serde_json::Value::Array(a) => Json::Array(a.into_iter().map(model_of_value).collect()),
        serde_json::Value::Object(m) => Json::Object(
            m.into_iter().map(|(k, v)| (k, model_of_value(v))).collect(),
        ),
    }
}

/// The `Display` text of a `serde_json::Error`. Nothing is assumed of
/// it.
#[verifier::external_body]
fn syntax_message(e: &serde_json::Error) -> String {
    e.to_string()
}

impl Json {
    /// Parses a JSON text. A text that the parser refuses gives `Syntax`
    /// with the parser's message.
    pub fn parse(text: &str) -> (r: Result<Json, DecodeError>)
        ensures
            match r {
                Ok(j) => document_of(text@) == Some(j@),
                Err(e) => document_of(text@) is None && e is Syntax,
            },
    {
        match read_value(text) {
            Ok(value) => Ok(model_of_value(value)),
            Err(e) => Err(DecodeError::Syntax(syntax_message(&e))),
        }
    }

    /// A deep copy.
    pub fn duplicate(&self) -> (copy: Json)
        ensures
            copy@ == self@,
        decreases self,
    {
        match self {
            Json::Null => Json::Null,
            Json::Bool(b) => Json::Bool(*b),
            Json::Number(n) => Json::Number(Number { int: n.int, text: n.text.clone() }),
            Json::Text(s) => Json::Text(s.clone()),
            Json::Array(items) => {
                let mut out: Vec<Json> = Vec::new();
                let mut i: usize = 0;
                while i < items.len()
                    invariant
                        i <= items.len(),
                        out.len() == i,
                        *self == Json::Array(*items),
                        forall|k: int| 0 <= k < i ==> out[k]@ == items[k]@,
                    decreases items.len() - i,
                {
                    proof {
                        vstd::std_specs::vec::axiom_vec_index_decreases(*items, i as int);
                        assert(self->Array_0 == *items);
                    }
                    out.push(items[i].duplicate());
                    i += 1;
                }
                proof {
                    lemma_array_view(*items);
                    lemma_array_view(out);
                    assert(out.deep_view() =~= items.deep_view());
                }
                Json::Array(out)
            },
            Json::Object(members) => {
                let mut out: Vec<(String, Json)> = Vec::new();
                let mut i: usize = 0;
                while i < members.len()
                    invariant
                        i <= members.len(),
                        out.len() == i,
                        *self == Json::Object(*members),
                        forall|k: int|
                            0 <= k < i ==> out[k].0@ == members[k].0@ && out[k].1@
                                == members[k].1@,
                    decreases members.len() - i,
                {
                    proof {
                        vstd::std_specs::vec::axiom_vec_index_decreases(*members, i as int);
                        assert(self->Object_0 == *members);
                    }
                    out.push((members[i].0.clone(), members[i].1.duplicate()));
                    i += 1;
                }
                proof {
                    lemma_object_view(*members);
                    lemma_object_view(out);
                    assert(out.deep_view() =~= members.deep_view());
                }
                Json::Object(out)
            },
        }
    }
}

impl Clone for Json {
    fn clone(&self) -> (copy: Json)
        ensures
            copy@ == self@,
    {
        self.duplicate()
    }
}

/// Looks a member of an object up by its key.
pub fn find_member<'a>(members: &'a Vec<(String, Json)>, key: &str) -> (found: Option<&'a Json>)
    ensures
        match found {
            Some(j) => member(members.deep_view(), key@) == Some(j@),
            None => member(members.deep_view(), key@) is None,
        },
{
    let wanted = String::from_str(key);
    let ghost all = members.deep_view();
    let mut i: usize = 0;
    assert(all.skip(0) =~= all);
    while i < members.len()
        invariant
            i <= members.len(),
            wanted@ == key@,
            all == members.deep_view(),
            member(all, key@) == member(all.skip(i as int), key@),
        decreases members.len() - i,
    {
        proof {
            assert(all.skip(i as int).drop_first() =~= all.skip(i + 1));
        }
        if members[i].0 == wanted {
            return Some(&members[i].1);
        }
        i += 1;
    }
    assert(all.skip(i as int).len() == 0);
    None
}

} // verus!

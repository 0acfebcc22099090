//! Reading the typed fields of a record out of the members of a JSON
//! object.
//!
//! A required field fails with `Missing` where the object has no member
//! under its name and with `Invalid` where the member holds a value of
//! another type. An optional field is absent where the object has no
//! such member or the member is `null`, and fails with `Invalid` where
//! the member holds a value of another type.

use vstd::prelude::*;
use vstd::string::*;

use crate::error::{outcome, DecodeError};
use crate::json::{find_member, lemma_array_view, member, Json, JsonView};

verus! {

/// The members of a JSON object: keys and values, in the object's order.
pub type Members = Seq<(Seq<char>, JsonView)>;

/// The text that a JSON string holds.
pub open spec fn text_in(value: JsonView, name: &'static str) -> Result<Seq<char>, DecodeError> {
    match value {
        JsonView::Text(s) => Ok(s),
        _ => Err(DecodeError::Invalid(name)),
    }
}

/// The truth value that a JSON boolean holds.
pub open spec fn bool_in(value: JsonView, name: &'static str) -> Result<bool, DecodeError> {
    match value {
        JsonView::Bool(b) => Ok(b),
        _ => Err(DecodeError::Invalid(name)),
    }
}

/// The integer that a JSON number holds, where it is one that fits
/// 64 bits.
pub open spec fn int64_in(value: JsonView, name: &'static str) -> Result<i64, DecodeError> {
    match value {
        JsonView::Number(n) => match n.int {
            Some(i) => Ok(i),
            None => Err(DecodeError::Invalid(name)),
        },
        _ => Err(DecodeError::Invalid(name)),
    }
}

/// The integer that a JSON number holds, where it is one that fits
/// 32 bits.
pub open spec fn int32_in(value: JsonView, name: &'static str) -> Result<i32, DecodeError> {
    match value {
        JsonView::Number(n) => match n.int {
            Some(i) => if i32::MIN <= i <= i32::MAX {
                Ok(i as i32)
            } else {
                Err(DecodeError::Invalid(name))
            },
            None => Err(DecodeError::Invalid(name)),
        },
        _ => Err(DecodeError::Invalid(name)),
    }
}

/// Every item read in turn: the readings in order, or the failure of the
/// first item that fails.
pub open spec fn each_in<T>(
    items: Seq<JsonView>,
    one: spec_fn(JsonView) -> Result<T, DecodeError>,
) -> Result<Seq<T>, DecodeError>
    decreases items.len(),
{
    if items.len() == 0 {
        Ok(Seq::empty())
    } else {
        match each_in(items.drop_last(), one) {
            Err(e) => Err(e),
            Ok(front) => match one(items.last()) {
                Err(e) => Err(e),
                Ok(x) => Ok(front.push(x)),
            },
        }
    }
}

/// The items of a JSON array, each read by `one`.
pub open spec fn list_in<T>(
    value: JsonView,
    name: &'static str,
    one: spec_fn(JsonView) -> Result<T, DecodeError>,
) -> Result<Seq<T>, DecodeError> {
    match value {
        JsonView::Array(items) => each_in(items, one),
        _ => Err(DecodeError::Invalid(name)),
    }
}

/// The texts that a JSON array of strings holds.
pub open spec fn texts_in(value: JsonView, name: &'static str) -> Result<
    Seq<Seq<char>>,
    DecodeError,
> {
    list_in(value, name, |item: JsonView| text_in(item, name))
}

/// The integers that a JSON array of 32-bit integers holds.
pub open spec fn int32s_in(value: JsonView, name: &'static str) -> Result<Seq<i32>, DecodeError> {
    list_in(value, name, |item: JsonView| int32_in(item, name))
}

/// The reading of a required field: the member must be there.
pub open spec fn required<T>(
    o: Members,
    name: &'static str,
    read: spec_fn(JsonView) -> Result<T, DecodeError>,
) -> Result<T, DecodeError> {
    match member(o, name@) {
        None => Err(DecodeError::Missing(name)),
        Some(value) => read(value),
    }
}

/// The reading of an optional field: nothing where the member is not
/// there or is `null`.
pub open spec fn optional<T>(
    o: Members,
    name: &'static str,
    read: spec_fn(JsonView) -> Result<T, DecodeError>,
) -> Result<Option<T>, DecodeError> {
    match member(o, name@) {
        None => Ok(None),
        Some(JsonView::Null) => Ok(None),
        Some(value) => match read(value) {
            Ok(x) => Ok(Some(x)),
            Err(e) => Err(e),
        },
    }
}

/// A required field that holds a text.
pub open spec fn text_field(o: Members, name: &'static str) -> Result<Seq<char>, DecodeError> {
    required(o, name, |value: JsonView| text_in(value, name))
}

/// An optional field that holds a text.
pub open spec fn opt_text_field(o: Members, name: &'static str) -> Result<
    Option<Seq<char>>,
    DecodeError,
> {
    optional(o, name, |value: JsonView| text_in(value, name))
}

/// A required field that holds a truth value.
pub open spec fn bool_field(o: Members, name: &'static str) -> Result<bool, DecodeError> {
    required(o, name, |value: JsonView| bool_in(value, name))
}

/// A required field that holds a 32-bit integer.
pub open spec fn int32_field(o: Members, name: &'static str) -> Result<i32, DecodeError> {
    required(o, name, |value: JsonView| int32_in(value, name))
}

/// An optional field that holds a 32-bit integer.
pub open spec fn opt_int32_field(o: Members, name: &'static str) -> Result<
    Option<i32>,
    DecodeError,
> {
    optional(o, name, |value: JsonView| int32_in(value, name))
}

/// A required field that holds a 64-bit integer.
pub open spec fn int64_field(o: Members, name: &'static str) -> Result<i64, DecodeError> {
    required(o, name, |value: JsonView| int64_in(value, name))
}

/// An optional field that holds a 64-bit integer.
pub open spec fn opt_int64_field(o: Members, name: &'static str) -> Result<
    Option<i64>,
    DecodeError,
> {
    optional(o, name, |value: JsonView| int64_in(value, name))
}

/// A required field that holds a list of texts.
pub open spec fn texts_field(o: Members, name: &'static str) -> Result<
    Seq<Seq<char>>,
    DecodeError,
> {
    required(o, name, |value: JsonView| texts_in(value, name))
}

/// An optional field that holds a list of texts.
pub open spec fn opt_texts_field(o: Members, name: &'static str) -> Result<
    Option<Seq<Seq<char>>>,
    DecodeError,
> {
    optional(o, name, |value: JsonView| texts_in(value, name))
}

/// A required field that holds a list of 32-bit integers.
pub open spec fn int32s_field(o: Members, name: &'static str) -> Result<Seq<i32>, DecodeError> {
    required(o, name, |value: JsonView| int32s_in(value, name))
}

/// The character sequences of a list of names.
pub open spec fn names_of(names: Seq<&'static str>) -> Seq<Seq<char>> {
    Seq::new(names.len(), |i: int| names[i]@)
}

/// The members whose key is none of `names`, in the object's order.
pub open spec fn others(o: Members, names: Seq<Seq<char>>) -> Members
    decreases o.len(),
{
    if o.len() == 0 {
        Seq::empty()
    } else if names.contains(o.last().0) {
        others(o.drop_last(), names)
    } else {
        others(o.drop_last(), names).push(o.last())
    }
}

/// A reading of a list goes on from a prefix: one more item either
/// extends the readings or is the first to fail.
pub proof fn lemma_each_in_step<T>(
    items: Seq<JsonView>,
    one: spec_fn(JsonView) -> Result<T, DecodeError>,
    i: int,
)
    requires
        0 <= i < items.len(),
        each_in(items.subrange(0, i), one) is Ok,
    ensures
        each_in(items.subrange(0, i + 1), one) == match one(items[i]) {
            Err(e) => Err::<Seq<T>, DecodeError>(e),
            Ok(x) => Ok(each_in(items.subrange(0, i), one)->Ok_0.push(x)),
        },
{
    let next = items.subrange(0, i + 1);
    assert(next.drop_last() =~= items.subrange(0, i));
    assert(next.last() == items[i]);
}

/// Once a prefix of a list fails, the whole list fails in the same way.
pub proof fn lemma_each_in_fails<T>(
    items: Seq<JsonView>,
    one: spec_fn(JsonView) -> Result<T, DecodeError>,
    i: int,
)
    requires
        0 <= i <= items.len(),
        each_in(items.subrange(0, i), one) is Err,
    ensures
        each_in(items, one) == each_in(items.subrange(0, i), one),
    decreases items.len() - i,
{
    if i == items.len() {
        assert(items.subrange(0, i) =~= items);
    } else {
        let next = items.subrange(0, i + 1);
        assert(next.drop_last() =~= items.subrange(0, i));
        lemma_each_in_fails(items, one, i + 1);
    }
}

/// Among the members that `others` keeps, a key outside `names` finds what
/// it finds in the object, and a key among `names` finds nothing.
pub proof fn lemma_member_of_others(o: Members, names: Seq<Seq<char>>, key: Seq<char>)
    ensures
        member(others(o, names), key) == if names.contains(key) {
            None
        } else {
            member(o, key)
        },
    decreases o.len(),
{
    if o.len() > 0 {
        let front = o.drop_last();
        lemma_member_of_others(front, names, key);
        assert(front.push(o.last()) =~= o);
        crate::json::lemma_member_push(front, o.last(), key);
        if !names.contains(o.last().0) {
            crate::json::lemma_member_push(others(front, names), o.last(), key);
        }
    }
}

/// Reads a required text field.
pub fn read_text(o: &Vec<(String, Json)>, name: &'static str) -> (r: Result<String, DecodeError>)
    ensures
        outcome(r) == text_field(o.deep_view(), name),
{
    match find_member(o, name) {
        None => Err(DecodeError::Missing(name)),
        Some(value) => text_of(value, name),
    }
}

/// Reads an optional text field.
pub fn read_opt_text(o: &Vec<(String, Json)>, name: &'static str) -> (r: Result<
    Option<String>,
    DecodeError,
>)
    ensures
        outcome(r) == opt_text_field(o.deep_view(), name),
{
    match find_member(o, name) {
        None => Ok(None),
        Some(Json::Null) => Ok(None),
        Some(value) => match text_of(value, name) {
            Ok(s) => Ok(Some(s)),
            Err(e) => Err(e),
        },
    }
}

/// Reads a required boolean field.
pub fn read_bool(o: &Vec<(String, Json)>, name: &'static str) -> (r: Result<bool, DecodeError>)
    ensures
        outcome(r) == bool_field(o.deep_view(), name),
{
    match find_member(o, name) {
        None => Err(DecodeError::Missing(name)),
        Some(Json::Bool(b)) => Ok(*b),
        Some(_) => Err(DecodeError::Invalid(name)),
    }
}

/// Reads a required 32-bit integer field.
pub fn read_int32(o: &Vec<(String, Json)>, name: &'static str) -> (r: Result<i32, DecodeError>)
    ensures
        outcome(r) == int32_field(o.deep_view(), name),
{
    match find_member(o, name) {
        None => Err(DecodeError::Missing(name)),
        Some(value) => int32_of(value, name),
    }
}

/// Reads an optional 32-bit integer field.
pub fn read_opt_int32(o: &Vec<(String, Json)>, name: &'static str) -> (r: Result<
    Option<i32>,
    DecodeError,
>)
    ensures
        outcome(r) == opt_int32_field(o.deep_view(), name),
{
    match find_member(o, name) {
        None => Ok(None),
        Some(Json::Null) => Ok(None),
        Some(value) => match int32_of(value, name) {
            Ok(i) => Ok(Some(i)),
            Err(e) => Err(e),
        },
    }
}

/// Reads a required 64-bit integer field.
pub fn read_int64(o: &Vec<(String, Json)>, name: &'static str) -> (r: Result<i64, DecodeError>)
    ensures
        outcome(r) == int64_field(o.deep_view(), name),
{
    match find_member(o, name) {
        None => Err(DecodeError::Missing(name)),
        Some(value) => int64_of(value, name),
    }
}

/// Reads an optional 64-bit integer field.
pub fn read_opt_int64(o: &Vec<(String, Json)>, name: &'static str) -> (r: Result<
    Option<i64>,
    DecodeError,
>)
    ensures
        outcome(r) == opt_int64_field(o.deep_view(), name),
{
    match find_member(o, name) {
        None => Ok(None),
        Some(Json::Null) => Ok(None),
        Some(value) => match int64_of(value, name) {
            Ok(i) => Ok(Some(i)),
            Err(e) => Err(e),
        },
    }
}

/// Reads a required field that is a list of texts.
pub fn read_texts(o: &Vec<(String, Json)>, name: &'static str) -> (r: Result<
    Vec<String>,
    DecodeError,
>)
    ensures
        outcome(r) == texts_field(o.deep_view(), name),
{
    match find_member(o, name) {
        None => Err(DecodeError::Missing(name)),
        Some(value) => texts_of(value, name),
    }
}

/// Reads an optional field that is a list of texts.
pub fn read_opt_texts(o: &Vec<(String, Json)>, name: &'static str) -> (r: Result<
    Option<Vec<String>>,
    DecodeError,
>)
    ensures
        outcome(r) == opt_texts_field(o.deep_view(), name),
{
    match find_member(o, name) {
        None => Ok(None),
        Some(Json::Null) => Ok(None),
        Some(value) => match texts_of(value, name) {
            Ok(list) => Ok(Some(list)),
            Err(e) => Err(e),
        },
    }
}

/// Reads a required field that is a list of 32-bit integers.
pub fn read_int32s(o: &Vec<(String, Json)>, name: &'static str) -> (r: Result<
    Vec<i32>,
    DecodeError,
>)
    ensures
        outcome(r) == int32s_field(o.deep_view(), name),
{
    match find_member(o, name) {
        None => Err(DecodeError::Missing(name)),
        Some(value) => int32s_of(value, name),
    }
}

/// The text of a JSON string.
pub fn text_of(value: &Json, name: &'static str) -> (r: Result<String, DecodeError>)
    ensures
        outcome(r) == text_in(value@, name),
{
    match value {
        Json::Text(s) => Ok(s.clone()),
        _ => Err(DecodeError::Invalid(name)),
    }
}

/// The 64-bit integer of a JSON number.
pub fn int64_of(value: &Json, name: &'static str) -> (r: Result<i64, DecodeError>)
    ensures
        outcome(r) == int64_in(value@, name),
{
    match value {
        Json::Number(n) => match n.int {
            Some(i) => Ok(i),
            None => Err(DecodeError::Invalid(name)),
        },
        _ => Err(DecodeError::Invalid(name)),
    }
}

/// The 32-bit integer of a JSON number.
pub fn int32_of(value: &Json, name: &'static str) -> (r: Result<i32, DecodeError>)
    ensures
        outcome(r) == int32_in(value@, name),
{
    match value {
        Json::Number(n) => match n.int {
            Some(i) => if -2147483648 <= i && i <= 2147483647 {
                Ok(i as i32)
            } else {
                Err(DecodeError::Invalid(name))
            },
            None => Err(DecodeError::Invalid(name)),
        },
        _ => Err(DecodeError::Invalid(name)),
    }
}

/// The texts of a JSON array of strings.
pub fn texts_of(value: &Json, name: &'static str) -> (r: Result<Vec<String>, DecodeError>)
    ensures
        outcome(r) == texts_in(value@, name),
{
    match value {
        Json::Array(items) => {
            proof {
                lemma_array_view(*items);
            }
            let ghost all = items.deep_view();
            let ghost one = |item: JsonView| text_in(item, name);
            let mut out: Vec<String> = Vec::new();
            let mut i: usize = 0;
            assert(out.deep_view() =~= Seq::<Seq<char>>::empty());
            assert(all.subrange(0, 0) =~= Seq::<JsonView>::empty());
            while i < items.len()
                invariant
                    i <= items.len(),
                    all == items.deep_view(),
                    value@ == JsonView::Array(all),
                    one == (|item: JsonView| text_in(item, name)),
                    each_in(all.subrange(0, i as int), one) == Ok::<Seq<Seq<char>>, DecodeError>(
                        out.deep_view(),
                    ),
                decreases items.len() - i,
            {
                proof {
                    lemma_each_in_step(all, one, i as int);
                }
                match text_of(&items[i], name) {
                    Ok(s) => {
                        let ghost before = out.deep_view();
                        out.push(s);
                        assert(out.deep_view() =~= before.push(s@));
                    },
                    Err(e) => {
                        proof {
                            lemma_each_in_fails(all, one, i + 1);
                        }
                        return Err(e);
                    },
                }
                i += 1;
            }
            assert(all.subrange(0, i as int) =~= all);
            Ok(out)
        },
        _ => Err(DecodeError::Invalid(name)),
    }
}

/// The integers of a JSON array of 32-bit integers.
pub fn int32s_of(value: &Json, name: &'static str) -> (r: Result<Vec<i32>, DecodeError>)
    ensures
        outcome(r) == int32s_in(value@, name),
{
    match value {
        Json::Array(items) => {
            proof {
                lemma_array_view(*items);
            }
            let ghost all = items.deep_view();
            let ghost one = |item: JsonView| int32_in(item, name);
            let mut out: Vec<i32> = Vec::new();
            let mut i: usize = 0;
            assert(out.deep_view() =~= Seq::<i32>::empty());
            assert(all.subrange(0, 0) =~= Seq::<JsonView>::empty());
            while i < items.len()
                invariant
                    i <= items.len(),
                    all == items.deep_view(),
                    value@ == JsonView::Array(all),
                    one == (|item: JsonView| int32_in(item, name)),
                    each_in(all.subrange(0, i as int), one) == Ok::<Seq<i32>, DecodeError>(
                        out.deep_view(),
                    ),
                decreases items.len() - i,
            {
                proof {
                    lemma_each_in_step(all, one, i as int);
                }
                match int32_of(&items[i], name) {
                    Ok(n) => {
                        let ghost before = out.deep_view();
                        out.push(n);
                        assert(out.deep_view() =~= before.push(n));
                    },
                    Err(e) => {
                        proof {
                            lemma_each_in_fails(all, one, i + 1);
                        }
                        return Err(e);
                    },
                }
                i += 1;
            }
            assert(all.subrange(0, i as int) =~= all);
            Ok(out)
        },
        _ => Err(DecodeError::Invalid(name)),
    }
}

/// Whether `key` is one of `names`.
pub fn is_named(names: &[&'static str], key: &String) -> (found: bool)
    ensures
        found == names_of(names@).contains(key@),
{
    let mut i: usize = 0;
    while i < names.len()
        invariant
            i <= names.len(),
            forall|k: int| 0 <= k < i ==> names_of(names@)[k] != key@,
        decreases names.len() - i,
    {
        let name = String::from_str(names[i]);
        if name == *key {
            assert(names_of(names@)[i as int] == key@);
            return true;
        }
        i += 1;
    }
    false
}

/// The members of an object that no field is read from: those whose key
/// is none of `names`.
pub fn other_members(o: &Vec<(String, Json)>, names: &[&'static str]) -> (rest: Vec<
    (String, Json),
>)
    ensures
        rest.deep_view() == others(o.deep_view(), names_of(names@)),
{
    let ghost all = o.deep_view();
    let mut rest: Vec<(String, Json)> = Vec::new();
    let mut i: usize = 0;
    assert(rest.deep_view() =~= Seq::<(Seq<char>, JsonView)>::empty());
    assert(all.subrange(0, 0) =~= Seq::<(Seq<char>, JsonView)>::empty());
    while i < o.len()
        invariant
            i <= o.len(),
            all == o.deep_view(),
            rest.deep_view() == others(all.subrange(0, i as int), names_of(names@)),
        decreases o.len() - i,
    {
        proof {
            let next = all.subrange(0, i + 1);
            assert(next.drop_last() =~= all.subrange(0, i as int));
            assert(next.last() == all[i as int]);
        }
        if !is_named(names, &o[i].0) {
            let ghost before = rest.deep_view();
            let key = o[i].0.clone();
            let value = o[i].1.duplicate();
            rest.push((key, value));
            assert(rest.deep_view() =~= before.push(all[i as int]));
        }
        i += 1;
    }
    assert(all.subrange(0, i as int) =~= all);
    rest
}

} // verus!

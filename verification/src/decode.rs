use crate::globals::DecodeError;
use crate::sequence::{lemma_take_all, lemma_try_map_prefix_fails, lemma_try_map_step, try_map};
use crate::value::{lookup, JsonNumber, JsonValue, JsonView};
use vstd::prelude::*;

verus! {

/// The `u32` that a value holds: an integer from 0 to `u32::MAX`.
pub open spec fn as_u32(value: JsonView) -> Result<u32, DecodeError> {
    match value {
        JsonView::Number(n) => match n.as_int() {
            Some(i) => if 0 <= i <= u32::MAX {
                Ok(i as u32)
            } else {
                Err(DecodeError::OutOfRange)
            },
            None => Err(DecodeError::InvalidType),
        },
        _ => Err(DecodeError::InvalidType),
    }
}

/// The `usize` that a value holds: an integer from 0 to `usize::MAX`.
pub open spec fn as_usize(value: JsonView) -> Result<usize, DecodeError> {
    match value {
        JsonView::Number(n) => match n.as_int() {
            Some(i) => if 0 <= i <= usize::MAX {
                Ok(i as usize)
            } else {
                Err(DecodeError::OutOfRange)
            },
            None => Err(DecodeError::InvalidType),
        },
        _ => Err(DecodeError::InvalidType),
    }
}

/// The number that a value holds, whatever its form.
pub open spec fn as_number(value: JsonView) -> Result<JsonNumber, DecodeError> {
    match value {
        JsonView::Number(n) => Ok(n),
        _ => Err(DecodeError::InvalidType),
    }
}

/// The truth value that a value holds.
pub open spec fn as_bool(value: JsonView) -> Result<bool, DecodeError> {
    match value {
        JsonView::Bool(b) => Ok(b),
        _ => Err(DecodeError::InvalidType),
    }
}

/// The text that a value holds.
pub open spec fn as_text(value: JsonView) -> Result<Seq<char>, DecodeError> {
    match value {
        JsonView::Text(s) => Ok(s),
        _ => Err(DecodeError::InvalidType),
    }
}

/// [`as_u32`] as a function value.
pub open spec fn u32_decoder() -> spec_fn(JsonView) -> Result<u32, DecodeError> {
    |value: JsonView| as_u32(value)
}

/// [`as_text`] as a function value.
pub open spec fn text_decoder() -> spec_fn(JsonView) -> Result<Seq<char>, DecodeError> {
    |value: JsonView| as_text(value)
}

/// The list of `u32` that a value holds. The first element that is no `u32`
/// decides the failure.
pub open spec fn as_u32_list(value: JsonView) -> Result<Seq<u32>, DecodeError> {
    match value {
        JsonView::List(items) => try_map(items, u32_decoder()),
        _ => Err(DecodeError::InvalidType),
    }
}

/// The list of texts that a value holds. The first element that is no text
/// decides the failure.
pub open spec fn as_text_list(value: JsonView) -> Result<Seq<Seq<char>>, DecodeError> {
    match value {
        JsonView::List(items) => try_map(items, text_decoder()),
        _ => Err(DecodeError::InvalidType),
    }
}

/// The part of `payload` that stands for one field of a record with `arity`
/// fields. A record is written as an object, where the field is found by its
/// `name` and other fields are ignored, or as a list of exactly `arity`
/// elements, where the field is found by its `position`.
pub open spec fn record_field(payload: JsonView, name: Seq<char>, position: int, arity: int) -> Result<
    JsonView,
    DecodeError,
> {
    match payload {
        JsonView::Object(fields) => match lookup(fields, name) {
            Some(value) => Ok(value),
            None => Err(DecodeError::MissingField),
        },
        JsonView::List(items) => if items.len() == arity && 0 <= position < arity {
            Ok(items[position])
        } else {
            Err(DecodeError::InvalidLength)
        },
        _ => Err(DecodeError::InvalidType),
    }
}

pub fn decode_u32(value: &JsonValue) -> (r: Result<u32, DecodeError>)
    ensures
        r == as_u32(value@),
{
    match value {
        JsonValue::Number(JsonNumber::PosInt(n)) => {
            if *n <= u32::MAX as u64 {
                Ok(*n as u32)
            } else {
                Err(DecodeError::OutOfRange)
            }
        },
        JsonValue::Number(JsonNumber::NegInt(n)) => {
            if 0 <= *n && *n <= u32::MAX as i64 {
                Ok(*n as u32)
            } else {
                Err(DecodeError::OutOfRange)
            }
        },
        _ => Err(DecodeError::InvalidType),
    }
}

pub fn decode_usize(value: &JsonValue) -> (r: Result<usize, DecodeError>)
    ensures
        r == as_usize(value@),
{
    match value {
        JsonValue::Number(JsonNumber::PosInt(n)) => {
            if *n <= usize::MAX as u64 {
                Ok(*n as usize)
            } else {
                Err(DecodeError::OutOfRange)
            }
        },
        JsonValue::Number(JsonNumber::NegInt(n)) => {
            if 0 <= *n && *n as u64 <= usize::MAX as u64 {
                Ok(*n as usize)
            } else {
                Err(DecodeError::OutOfRange)
            }
        },
        _ => Err(DecodeError::InvalidType),
    }
}

pub fn decode_number(value: &JsonValue) -> (r: Result<JsonNumber, DecodeError>)
    ensures
        r == as_number(value@),
{
    match value {
        JsonValue::Number(n) => Ok(*n),
        _ => Err(DecodeError::InvalidType),
    }
}

pub fn decode_bool(value: &JsonValue) -> (r: Result<bool, DecodeError>)
    ensures
        r == as_bool(value@),
{
    match value {
        JsonValue::Bool(b) => Ok(*b),
        _ => Err(DecodeError::InvalidType),
    }
}

pub fn decode_text(value: &JsonValue) -> (r: Result<String, DecodeError>)
    ensures
        match r {
            Ok(text) => as_text(value@) == Ok::<Seq<char>, DecodeError>(text@),
            Err(e) => as_text(value@) == Err::<Seq<char>, DecodeError>(e),
        },
{
    match value {
        JsonValue::Text(s) => Ok(s.clone()),
        _ => Err(DecodeError::InvalidType),
    }
}

pub fn decode_u32_list(value: &JsonValue) -> (r: Result<Vec<u32>, DecodeError>)
    ensures
        match r {
            Ok(numbers) => as_u32_list(value@) == Ok::<Seq<u32>, DecodeError>(numbers@),
            Err(e) => as_u32_list(value@) == Err::<Seq<u32>, DecodeError>(e),
        },
{
    match value {
        JsonValue::List(items) => {
            let ghost model = value@->List_0;
            let mut numbers: Vec<u32> = Vec::new();
            let mut i: usize = 0;
            assert(model.take(0) =~= Seq::<JsonView>::empty());
            while i < items.len()
                invariant
                    i <= items.len(),
                    value@ == JsonView::List(model),
                    model.len() == items@.len(),
                    forall|j: int| 0 <= j < model.len() ==> #[trigger] model[j] == items@[j]@,
                    try_map(model.take(i as int), u32_decoder()) == Ok::<Seq<u32>, DecodeError>(
                        numbers@,
                    ),
                decreases items.len() - i,
            {
                proof {
                    lemma_try_map_step(model, u32_decoder(), i as int, numbers@);
                }
                match decode_u32(&items[i]) {
                    Ok(n) => {
                        numbers.push(n);
                    },
                    Err(e) => {
                        proof {
                            lemma_try_map_prefix_fails(model, u32_decoder(), i + 1);
                        }
                        return Err(e);
                    },
                }
                i += 1;
            }
            proof {
                lemma_take_all(model);
            }
            Ok(numbers)
        },
        _ => Err(DecodeError::InvalidType),
    }
}

pub fn decode_text_list(value: &JsonValue) -> (r: Result<Vec<String>, DecodeError>)
    ensures
        match r {
            Ok(list) => as_text_list(value@) == Ok::<Seq<Seq<char>>, DecodeError>(
                crate::globals::texts(list@),
            ),
            Err(e) => as_text_list(value@) == Err::<Seq<Seq<char>>, DecodeError>(e),
        },
{
    match value {
        JsonValue::List(items) => {
            let ghost model = value@->List_0;
            let mut list: Vec<String> = Vec::new();
            let mut i: usize = 0;
            assert(model.take(0) =~= Seq::<JsonView>::empty());
            assert(crate::globals::texts(list@) =~= Seq::<Seq<char>>::empty());
            while i < items.len()
                invariant
                    i <= items.len(),
                    value@ == JsonView::List(model),
                    model.len() == items@.len(),
                    forall|j: int| 0 <= j < model.len() ==> #[trigger] model[j] == items@[j]@,
                    try_map(model.take(i as int), text_decoder()) == Ok::<
                        Seq<Seq<char>>,
                        DecodeError,
                    >(crate::globals::texts(list@)),
                decreases items.len() - i,
            {
                proof {
                    lemma_try_map_step(model, text_decoder(), i as int, crate::globals::texts(list@));
                }
                let ghost before = list@;
                match decode_text(&items[i]) {
                    Ok(text) => {
                        list.push(text);
                        assert(crate::globals::texts(list@) =~= crate::globals::texts(before).push(
                            text@,
                        ));
                    },
                    Err(e) => {
                        proof {
                            lemma_try_map_prefix_fails(model, text_decoder(), i + 1);
                        }
                        return Err(e);
                    },
                }
                i += 1;
            }
            proof {
                lemma_take_all(model);
            }
            Ok(list)
        },
        _ => Err(DecodeError::InvalidType),
    }
}

/// The part of `payload` that stands for one field of a record.
pub fn field<'a>(payload: &'a JsonValue, name: &str, position: usize, arity: usize) -> (r: Result<
    &'a JsonValue,
    DecodeError,
>)
    ensures
        match r {
            Ok(value) => record_field(payload@, name@, position as int, arity as int) == Ok::<
                JsonView,
                DecodeError,
            >(value@),
            Err(e) => record_field(payload@, name@, position as int, arity as int) == Err::<
                JsonView,
                DecodeError,
            >(e),
        },
{
    match payload {
        JsonValue::Object(_) => match payload.get(name) {
            Some(value) => Ok(value),
            None => Err(DecodeError::MissingField),
        },
        JsonValue::List(items) => {
            if items.len() == arity && position < arity {
                Ok(&items[position])
            } else {
                Err(DecodeError::InvalidLength)
            }
        },
        _ => Err(DecodeError::InvalidType),
    }
}

/// What the `i`-th of the fields `names` decodes to as a number, in a record
/// of `arity` fields whose field `names[0]` stands at position `first`.
pub open spec fn number_field(
    payload: JsonView,
    names: Seq<Seq<char>>,
    first: int,
    arity: int,
) -> spec_fn(int) -> Result<JsonNumber, DecodeError> {
    |i: int|
        match record_field(payload, names[i], first + i, arity) {
            Ok(value) => as_number(value),
            Err(e) => Err(e),
        }
}

/// The positions from 0 up to, but not including, `count`.
pub open spec fn positions(count: nat) -> Seq<int> {
    Seq::new(count, |i: int| i)
}

/// The numbers that the fields `names` of a record hold, in the order of the
/// names. The first field that is missing or is no number decides the failure.
pub open spec fn number_fields(
    payload: JsonView,
    names: Seq<Seq<char>>,
    first: int,
    arity: int,
) -> Result<Seq<JsonNumber>, DecodeError> {
    try_map(positions(names.len()), number_field(payload, names, first, arity))
}

/// The views of a list of string slices, in order.
pub open spec fn name_views(names: Seq<&'static str>) -> Seq<Seq<char>> {
    Seq::new(names.len(), |i: int| names[i]@)
}

pub fn decode_number_fields(
    payload: &JsonValue,
    names: &Vec<&'static str>,
    first: usize,
    arity: usize,
) -> (r: Result<Vec<JsonNumber>, DecodeError>)
    requires
        first + names@.len() <= usize::MAX,
    ensures
        match r {
            Ok(numbers) => number_fields(payload@, name_views(names@), first as int, arity as int)
                == Ok::<Seq<JsonNumber>, DecodeError>(numbers@) && numbers@.len() == names@.len(),
            Err(e) => number_fields(payload@, name_views(names@), first as int, arity as int)
                == Err::<Seq<JsonNumber>, DecodeError>(e),
        },
{
    let ghost all = positions(names@.len());
    let ghost f = number_field(payload@, name_views(names@), first as int, arity as int);
    let mut numbers: Vec<JsonNumber> = Vec::new();
    let mut i: usize = 0;
    assert(all.take(0) =~= Seq::<int>::empty());
    while i < names.len()
        invariant
            i <= names.len(),
            first + names@.len() <= usize::MAX,
            all == positions(names@.len()),
            f == number_field(payload@, name_views(names@), first as int, arity as int),
            try_map(all.take(i as int), f) == Ok::<Seq<JsonNumber>, DecodeError>(numbers@),
            numbers@.len() == i,
        decreases names.len() - i,
    {
        proof {
            lemma_try_map_step(all, f, i as int, numbers@);
            assert(all[i as int] == i);
            assert(name_views(names@)[i as int] == names@[i as int]@);
        }
        let decoded = match field(payload, names[i], first + i, arity) {
            Ok(value) => decode_number(value),
            Err(e) => Err(e),
        };
        match decoded {
            Ok(n) => {
                numbers.push(n);
            },
            Err(e) => {
                proof {
                    lemma_try_map_prefix_fails(all, f, i + 1);
                }
                return Err(e);
            },
        }
        i += 1;
    }
    proof {
        lemma_take_all(all);
    }
    Ok(numbers)
}

} // verus!

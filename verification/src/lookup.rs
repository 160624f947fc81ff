//! Looking facts up in loosely structured records.
//!
//! A provider may put the same fact under several names, as text, as a
//! number, as a truth value or as a list. A fact is looked up by an ordered
//! list of names, and the first name under which something usable stands
//! wins. Where a track is described by two records, the first record is
//! searched through before the second is looked at.

use vstd::prelude::*;
use crate::fixed::{mentioned_number, parse_number, Fixed};
use crate::json::Json;
use crate::model::opt_text;
use crate::text::{join, joined, lowercase, names, str_eq, to_lowercase, trim, trimmed};

verus! {

/// What `read` makes of the first of `keys` under which `value` holds
/// something that `read` accepts.
pub open spec fn first_some<T>(
    value: Json,
    keys: Seq<Seq<char>>,
    read: spec_fn(Json) -> Option<T>,
) -> Option<T>
    decreases keys.len(),
{
    if keys.len() == 0 {
        None
    } else {
        let hit = match value.field(keys[0]) {
            Some(f) => read(f),
            None => None,
        };
        if hit is Some {
            hit
        } else {
            first_some(value, keys.skip(1), read)
        }
    }
}

/// The same lookup in `primary`, and in `secondary` where `primary` has
/// nothing.
pub open spec fn either<T>(
    primary: Json,
    secondary: Json,
    keys: Seq<Seq<char>>,
    read: spec_fn(Json) -> Option<T>,
) -> Option<T> {
    let p = first_some(primary, keys, read);
    if p is Some {
        p
    } else {
        first_some(secondary, keys, read)
    }
}

/// The strings among `items`, trimmed, without those that are then empty.
pub open spec fn trimmed_parts(items: Seq<Json>) -> Seq<Seq<char>>
    decreases items.len(),
{
    if items.len() == 0 {
        Seq::empty()
    } else {
        let rest = trimmed_parts(items.drop_last());
        match items.last() {
            Json::Text(s) => if trimmed(s@).len() > 0 {
                rest.push(trimmed(s@))
            } else {
                rest
            },
            _ => rest,
        }
    }
}

/// The text that a field holds: a string that is not blank, trimmed, or the
/// strings of an array, trimmed and joined by `", "`.
pub open spec fn field_text(f: Json) -> Option<Seq<char>> {
    match f {
        Json::Text(s) => if trimmed(s@).len() > 0 {
            Some(trimmed(s@))
        } else {
            None
        },
        Json::Array(items) => if trimmed_parts(items@).len() > 0 {
            Some(joined(trimmed_parts(items@), ", "@))
        } else {
            None
        },
        _ => None,
    }
}

/// The number that a field holds: a number, or the first number that a
/// string mentions.
pub open spec fn field_number(f: Json) -> Option<Fixed> {
    match f {
        Json::Number(n) => Some(n),
        Json::Text(s) => mentioned_number(s@),
        _ => None,
    }
}

/// The truth value that a lowercase word states.
pub open spec fn word_flag(lower: Seq<char>) -> Option<bool> {
    if lower == "yes"@ || lower == "true"@ {
        Some(true)
    } else if lower == "no"@ || lower == "false"@ {
        Some(false)
    } else {
        None
    }
}

/// The truth value that a field holds: a boolean, or one of the words
/// yes, true, no and false in any case.
pub open spec fn field_flag(f: Json) -> Option<bool> {
    match f {
        Json::Bool(b) => Some(b),
        Json::Text(s) => word_flag(lowercase(s@)),
        _ => None,
    }
}

/// The text found in `value` under the first of `keys` that holds any.
pub open spec fn text_in(value: Json, keys: Seq<Seq<char>>) -> Option<Seq<char>> {
    first_some(value, keys, |f: Json| field_text(f))
}

/// The number found in `value` under the first of `keys` that holds one.
pub open spec fn number_in(value: Json, keys: Seq<Seq<char>>) -> Option<Fixed> {
    first_some(value, keys, |f: Json| field_number(f))
}

/// The truth value found in `value` under the first of `keys` that holds
/// one.
pub open spec fn flag_in(value: Json, keys: Seq<Seq<char>>) -> Option<bool> {
    first_some(value, keys, |f: Json| field_flag(f))
}

/// [`text_in`] on `primary`, else on `secondary`.
pub open spec fn text_any(primary: Json, secondary: Json, keys: Seq<Seq<char>>) -> Option<
    Seq<char>,
> {
    either(primary, secondary, keys, |f: Json| field_text(f))
}

/// [`number_in`] on `primary`, else on `secondary`.
pub open spec fn number_any(primary: Json, secondary: Json, keys: Seq<Seq<char>>) -> Option<
    Fixed,
> {
    either(primary, secondary, keys, |f: Json| field_number(f))
}

/// [`flag_in`] on `primary`, else on `secondary`.
pub open spec fn flag_any(primary: Json, secondary: Json, keys: Seq<Seq<char>>) -> Option<bool> {
    either(primary, secondary, keys, |f: Json| field_flag(f))
}

/// One step of [`first_some`], at position `i` of the list of keys.
proof fn lemma_first_some_step<T>(
    value: Json,
    keys: Seq<Seq<char>>,
    read: spec_fn(Json) -> Option<T>,
    i: int,
)
    requires
        0 <= i < keys.len(),
    ensures
        first_some(value, keys.skip(i), read) == {
            let hit = match value.field(keys[i]) {
                Some(f) => read(f),
                None => None,
            };
            if hit is Some {
                hit
            } else {
                first_some(value, keys.skip(i + 1), read)
            }
        },
{
    assert(keys.skip(i).skip(1) =~= keys.skip(i + 1));
}

/// `text` as an owned string, unless it is empty.
pub fn keep_nonempty(text: &str) -> (r: Option<String>)
    ensures
        opt_text(r) == if text@.len() > 0 {
            Some(text@)
        } else {
            None
        },
{
    if text.is_empty() {
        None
    } else {
        Some(text.to_string())
    }
}

/// The text of one field; see [`field_text`].
pub fn text_of_field(field: &Json) -> (r: Option<String>)
    ensures
        opt_text(r) == field_text(*field),
{
    match field {
        Json::Text(s) => keep_nonempty(trim(s.as_str())),
        Json::Array(items) => {
            let mut parts: Vec<String> = Vec::new();
            let mut i: usize = 0;
            while i < items.len()
                invariant
                    i <= items.len(),
                    Seq::new(parts@.len(), |k: int| parts@[k]@) == trimmed_parts(
                        items@.take(i as int),
                    ),
                decreases items.len() - i,
            {
                let ghost before = Seq::new(parts@.len(), |k: int| parts@[k]@);
                proof {
                    assert(items@.take(i + 1).drop_last() =~= items@.take(i as int));
                }
                if let Some(s) = items[i].as_str() {
                    if let Some(part) = keep_nonempty(trim(s)) {
                        parts.push(part);
                        assert(Seq::new(parts@.len(), |k: int| parts@[k]@) =~= before.push(
                            trimmed(s@),
                        ));
                    }
                }
                i = i + 1;
            }
            assert(items@.take(items@.len() as int) =~= items@);
            if parts.len() > 0 {
                Some(join(&parts, ", "))
            } else {
                None
            }
        },
        _ => None,
    }
}

/// The number of one field; see [`field_number`].
pub fn number_of_field(field: &Json) -> (r: Option<Fixed>)
    ensures
        r == field_number(*field),
{
    match field {
        Json::Number(n) => Some(*n),
        Json::Text(s) => parse_number(s.as_str()),
        _ => None,
    }
}

/// The truth value that a lowercase word states: yes and true, no and
/// false.
pub fn flag_from_word(lower: &str) -> (r: Option<bool>)
    ensures
        r == word_flag(lower@),
{
    if str_eq(lower, "yes") || str_eq(lower, "true") {
        Some(true)
    } else if str_eq(lower, "no") || str_eq(lower, "false") {
        Some(false)
    } else {
        None
    }
}

/// The truth value of one field; see [`field_flag`].
pub fn flag_of_field(field: &Json) -> (r: Option<bool>)
    ensures
        r == field_flag(*field),
{
    match field {
        Json::Bool(b) => Some(*b),
        Json::Text(s) => {
            let lower = to_lowercase(s.as_str());
            flag_from_word(lower.as_str())
        },
        _ => None,
    }
}

/// The text under the first of `keys` that holds any.
pub fn doc_string(value: &Json, keys: &[&str]) -> (r: Option<String>)
    ensures
        opt_text(r) == text_in(*value, names(keys@)),
{
    let ghost ks = names(keys@);
    let ghost read = |f: Json| field_text(f);
    let mut i: usize = 0;
    assert(ks.skip(0) =~= ks);
    while i < keys.len()
        invariant
            i <= keys.len(),
            ks == names(keys@),
            read == |f: Json| field_text(f),
            text_in(*value, ks) == first_some(*value, ks.skip(i as int), read),
        decreases keys.len() - i,
    {
        proof {
            lemma_first_some_step(*value, ks, read, i as int);
        }
        if let Some(field) = value.get(keys[i]) {
            let found = text_of_field(field);
            if found.is_some() {
                return found;
            }
        }
        i = i + 1;
    }
    None
}

/// The number under the first of `keys` that holds one.
pub fn doc_number(value: &Json, keys: &[&str]) -> (r: Option<Fixed>)
    ensures
        r == number_in(*value, names(keys@)),
{
    let ghost ks = names(keys@);
    let ghost read = |f: Json| field_number(f);
    let mut i: usize = 0;
    assert(ks.skip(0) =~= ks);
    while i < keys.len()
        invariant
            i <= keys.len(),
            ks == names(keys@),
            read == |f: Json| field_number(f),
            number_in(*value, ks) == first_some(*value, ks.skip(i as int), read),
        decreases keys.len() - i,
    {
        proof {
            lemma_first_some_step(*value, ks, read, i as int);
        }
        if let Some(field) = value.get(keys[i]) {
            let found = number_of_field(field);
            if found.is_some() {
                return found;
            }
        }
        i = i + 1;
    }
    None
}

/// The truth value under the first of `keys` that holds one.
pub fn doc_bool(value: &Json, keys: &[&str]) -> (r: Option<bool>)
    ensures
        r == flag_in(*value, names(keys@)),
{
    let ghost ks = names(keys@);
    let ghost read = |f: Json| field_flag(f);
    let mut i: usize = 0;
    assert(ks.skip(0) =~= ks);
    while i < keys.len()
        invariant
            i <= keys.len(),
            ks == names(keys@),
            read == |f: Json| field_flag(f),
            flag_in(*value, ks) == first_some(*value, ks.skip(i as int), read),
        decreases keys.len() - i,
    {
        proof {
            lemma_first_some_step(*value, ks, read, i as int);
        }
        if let Some(field) = value.get(keys[i]) {
            let found = flag_of_field(field);
            if found.is_some() {
                return found;
            }
        }
        i = i + 1;
    }
    None
}

/// [`doc_string`] on `primary`, else on `secondary`.
pub fn doc_string_any(primary: &Json, secondary: &Json, keys: &[&str]) -> (r: Option<String>)
    ensures
        opt_text(r) == text_any(*primary, *secondary, names(keys@)),
{
    let first = doc_string(primary, keys);
    if first.is_some() {
        first
    } else {
        doc_string(secondary, keys)
    }
}

/// [`doc_number`] on `primary`, else on `secondary`.
pub fn doc_number_any(primary: &Json, secondary: &Json, keys: &[&str]) -> (r: Option<Fixed>)
    ensures
        r == number_any(*primary, *secondary, names(keys@)),
{
    let first = doc_number(primary, keys);
    if first.is_some() {
        first
    } else {
        doc_number(secondary, keys)
    }
}

/// [`doc_bool`] on `primary`, else on `secondary`.
pub fn doc_bool_any(primary: &Json, secondary: &Json, keys: &[&str]) -> (r: Option<bool>)
    ensures
        r == flag_any(*primary, *secondary, names(keys@)),
{
    let first = doc_bool(primary, keys);
    if first.is_some() {
        first
    } else {
        doc_bool(secondary, keys)
    }
}

} // verus!

//! JSON as plain values: reading the fields of a record, and writing an object.

use serde::de::{Deserialize, IgnoredAny};
use serde_json::{Deserializer, Value};
use vstd::prelude::*;

verus! {

/// A JSON value without parts.
#[derive(Debug)]
pub enum JsonScalar {
    Null,
    Bool(bool),
    Unsigned(u64),
    /// An integer below zero.
    Negative(i64),
    Text(String),
}

/// What a field of a JSON object holds, as far as settings tell values apart.
#[derive(Debug)]
pub enum JsonValue {
    Null,
    Bool(bool),
    Unsigned(u64),
    /// An integer below zero.
    Negative(i64),
    Text(String),
    /// A number that is no integer of 64 bits.
    Fraction,
    List,
    /// An object: its keys, each with whether its value is null.
    Object(Vec<(String, bool)>),
    /// Something that is no value.
    Broken,
}

/// A scalar, as a value.
pub enum ScalarView {
    Null,
    Bool(bool),
    Unsigned(u64),
    Negative(i64),
    Text(Seq<char>),
}

/// A field's content, as a value.
pub enum JsonView {
    Scalar(ScalarView),
    Fraction,
    List,
    Object(Seq<(Seq<char>, bool)>),
    Broken,
}

impl View for JsonScalar {
    type V = ScalarView;

    open spec fn view(&self) -> ScalarView {
        match *self {
            JsonScalar::Null => ScalarView::Null,
            JsonScalar::Bool(b) => ScalarView::Bool(b),
            JsonScalar::Unsigned(n) => ScalarView::Unsigned(n),
            JsonScalar::Negative(n) => ScalarView::Negative(n),
            JsonScalar::Text(text) => ScalarView::Text(text@),
        }
    }
}

impl View for JsonValue {
    type V = JsonView;

    open spec fn view(&self) -> JsonView {
        match *self {
            JsonValue::Null => JsonView::Scalar(ScalarView::Null),
            JsonValue::Bool(b) => JsonView::Scalar(ScalarView::Bool(b)),
            JsonValue::Unsigned(n) => JsonView::Scalar(ScalarView::Unsigned(n)),
            JsonValue::Negative(n) => JsonView::Scalar(ScalarView::Negative(n)),
            JsonValue::Text(text) => JsonView::Scalar(ScalarView::Text(text@)),
            JsonValue::Fraction => JsonView::Fraction,
            JsonValue::List => JsonView::List,
            JsonValue::Object(keys) => JsonView::Object(
                keys@.map_values(|k: (String, bool)| (k.0@, k.1)),
            ),
            JsonValue::Broken => JsonView::Broken,
        }
    }
}

/// The fields of a record that was read.
pub open spec fn fields_view(fields: Seq<(String, JsonValue)>) -> Seq<(Seq<char>, JsonView)> {
    fields.map_values(|f: (String, JsonValue)| (f.0@, f.1@))
}

/// The fields of an object to be written.
pub open spec fn scalars_view(fields: Seq<(String, JsonScalar)>) -> Seq<(Seq<char>, ScalarView)> {
    fields.map_values(|f: (String, JsonScalar)| (f.0@, f.1@))
}

/// Scalar fields as the fields that a reader sees.
pub open spec fn as_read(fields: Seq<(Seq<char>, ScalarView)>) -> Seq<(Seq<char>, JsonView)> {
    fields.map_values(|f: (Seq<char>, ScalarView)| (f.0, JsonView::Scalar(f.1)))
}

/// Fields that one object can hold side by side: no key occurs twice, and what
/// counts as negative is.
pub open spec fn writable(fields: Seq<(Seq<char>, ScalarView)>) -> bool {
    &&& forall|i: int, j: int| 0 <= i < j < fields.len() ==> fields[i].0 != fields[j].0
    &&& forall|i: int|
        0 <= i < fields.len() ==> (match #[trigger] fields[i].1 {
            ScalarView::Negative(n) => n < 0,
            _ => true,
        })
}

/// The value that a text begins with, and the text behind it. Where the text begins with
/// no value, the text behind is that from where this shows.
pub uninterp spec fn json_value(text: Seq<char>) -> (JsonView, Seq<char>);

/// The text behind the value that a text begins with, whatever the value holds; nothing
/// where the text begins with no value.
pub uninterp spec fn json_skip(text: Seq<char>) -> Option<Seq<char>>;

/// The indented JSON text of an object with these fields.
pub uninterp spec fn json_text(fields: Seq<(Seq<char>, ScalarView)>) -> Seq<char>;

/// The view of a text that may not be there.
pub open spec fn rest_view(rest: Option<&str>) -> Option<Seq<char>> {
    match rest {
        Some(rest) => Some(rest@),
        None => None,
    }
}

/// Calls `deserialize` of `serde_json::Value` on a `serde_json::Deserializer` made of the
/// text, and asks `StreamDeserializer::byte_offset` where the deserializer then stands.
/// The contract claims that the value and the text from there on are functions of the
/// text alone, and that the latter is no longer than the text. Where the deserializer
/// stops within a character, nothing counts as left.
#[verifier::external_body]
pub(crate) fn read_value<'a>(text: &'a str) -> (r: (JsonValue, &'a str))
    ensures
        (r.0@, r.1@) == json_value(text@),
        r.1@.len() <= text@.len(),
{
    let mut de = Deserializer::from_str(text);
    let value = Value::deserialize(&mut de).map_or(JsonValue::Broken, |value| match value {
        Value::Null => JsonValue::Null,
        Value::Bool(b) => JsonValue::Bool(b),
        Value::Number(n) => match n.as_u64() {
            Some(n) => JsonValue::Unsigned(n),
            None => n.as_i64().map_or(JsonValue::Fraction, JsonValue::Negative),
        }
        Value::String(s) => JsonValue::Text(s),
        Value::Array(_) => JsonValue::List,
        Value::Object(o) =>
            JsonValue::Object(o.into_iter().map(|(k, v)| (k, v.is_null())).collect()),
    });
    (value, text.get(de.into_iter::<Value>().byte_offset()..).unwrap_or_default())
}

/// Calls `deserialize` of `serde::de::IgnoredAny` on a `serde_json::Deserializer` made of
/// the text, and asks `StreamDeserializer::byte_offset` where the deserializer then
/// stands. The contract claims that the text from there on is a function of the text
/// alone and no longer than it.
#[verifier::external_body]
pub(crate) fn skip_value<'a>(text: &'a str) -> (r: Option<&'a str>)
    ensures
        rest_view(r) == json_skip(text@),
        r is Some ==> r->0@.len() <= text@.len(),
{
    let mut de = Deserializer::from_str(text);
    IgnoredAny::deserialize(&mut de).ok()?;
    text.get(de.into_iter::<Value>().byte_offset()..)
}

/// Calls `serde_json::to_string_pretty` for an object made of the given fields. The
/// contract claims that this succeeds, since keys are text and scalars never refuse to
/// be written; that the text is a function of the fields alone; and that reading it
/// member by member gives the same fields back, in the same order, where no key occurs
/// twice.
#[verifier::external_body]
pub(crate) fn write_object(fields: Vec<(String, JsonScalar)>) -> (r: Option<String>)
    ensures
        r is Some,
        r->0@ == json_text(scalars_view(fields@)),
        writable(scalars_view(fields@)) ==> holds_object(r->0@, scalars_view(fields@)),
{
    let values = fields.into_iter().map(|(key, value)| (key, match value {
        JsonScalar::Null => Value::Null,
        JsonScalar::Bool(b) => Value::from(b),
        JsonScalar::Unsigned(n) => Value::from(n),
        JsonScalar::Negative(n) => Value::from(n),
        JsonScalar::Text(s) => Value::from(s),
    }));
    let object: serde_json::Map<String, Value> = values.collect();
    serde_json::to_string_pretty(&object).ok()
}

// ---- marks ----------------------------------------------------------------------

/// Whether a character may stand between values and marks.
pub open spec fn is_blank(c: char) -> bool {
    c == ' ' || c == '\n' || c == '\t' || c == '\r'
}

/// A text from its first character that is no blank.
pub open spec fn after_blanks(text: Seq<char>) -> Seq<char>
    decreases text.len(),
{
    if text.len() > 0 && is_blank(text[0]) {
        after_blanks(text.skip(1))
    } else {
        text
    }
}

/// What follows a mark, where a text begins with it, blanks aside.
pub open spec fn after_mark(text: Seq<char>, mark: char) -> Option<Seq<char>> {
    let rest = after_blanks(text);
    if rest.len() > 0 && rest[0] == mark {
        Some(rest.skip(1))
    } else {
        None
    }
}

/// Goes to the first character that is no blank.
fn skip_blanks<'a>(text: &'a str) -> (r: &'a str)
    ensures
        r@ == after_blanks(text@),
        r@.len() <= text@.len(),
{
    let len: usize = text.unicode_len();
    let mut i: usize = 0;
    assert(text@.skip(0) =~= text@);
    while i < len
        invariant
            i <= len,
            len == text@.len(),
            after_blanks(text@) == after_blanks(text@.skip(i as int)),
        decreases len - i,
    {
        let c: char = text.get_char(i);
        if !(c == ' ' || c == '\n' || c == '\t' || c == '\r') {
            assert(text@.subrange(i as int, len as int) =~= text@.skip(i as int));
            return text.substring_char(i, len);
        }
        assert(text@.skip(i as int).skip(1) =~= text@.skip(i + 1));
        i += 1;
    }
    assert(text@.subrange(i as int, len as int) =~= text@.skip(i as int));
    text.substring_char(i, len)
}

/// Goes behind a mark.
fn take_mark<'a>(text: &'a str, mark: char) -> (r: Option<&'a str>)
    ensures
        rest_view(r) == after_mark(text@, mark),
        r is Some ==> r->0@.len() < text@.len(),
{
    let rest: &'a str = skip_blanks(text);
    let len: usize = rest.unicode_len();
    if len > 0 && rest.get_char(0) == mark {
        assert(rest@.subrange(1, len as int) =~= rest@.skip(1));
        Some(rest.substring_char(1, len))
    } else {
        None
    }
}

// ---- records --------------------------------------------------------------------

/// The keys of a record.
pub open spec fn keys_view(keys: Seq<String>) -> Seq<Seq<char>> {
    keys.map_values(|key: String| key@)
}

/// Whether a key is one of these.
fn is_key(keys: &Vec<String>, key: &String) -> (r: bool)
    ensures
        r == keys_view(keys@).contains(key@),
{
    let mut i: usize = 0;
    while i < keys.len()
        invariant
            i <= keys.len(),
            forall|k: int| 0 <= k < i ==> keys_view(keys@)[k] != key@,
        decreases keys.len() - i,
    {
        if keys[i] == *key {
            assert(keys_view(keys@)[i as int] == key@);
            return true;
        }
        i += 1;
    }
    false
}

/// A value inside a record, and the text behind it; nothing where the value is nested
/// too deep for one that stands inside another. How deep that is shows where the same
/// text is read inside a list: reading then stops before the value ends.
pub open spec fn inner_value(text: Seq<char>) -> Option<(JsonView, Seq<char>)> {
    let (value, rest) = json_value(text);
    let nests = value is List || value is Object;
    if nests && json_value(seq!['['] + text).1.len() > rest.len() {
        None
    } else {
        Some((value, rest))
    }
}

fn read_inner_value<'a>(text: &'a str) -> (r: Option<(JsonValue, &'a str)>)
    ensures
        (match r {
            Some((value, rest)) => inner_value(text@) == Some((value@, rest@)),
            None => inner_value(text@) is None,
        }),
        r matches Some((value, rest)) ==> rest@.len() <= text@.len(),
{
    let (value, rest) = read_value(text);
    let nests: bool = match &value {
        JsonValue::List => true,
        JsonValue::Object(_) => true,
        _ => false,
    };
    if nests {
        let mut list: String = "[".to_owned();
        list.append(text);
        proof {
            reveal_strlit("[");
            assert(list@ =~= seq!['['] + text@);
        }
        let (_, left) = read_value(list.as_str());
        if left.unicode_len() > rest.unicode_len() {
            return None;
        }
    }
    Some((value, rest))
}

/// A member of an object, and the text behind it. Under a key of the record it counts
/// with its value; under another key it is skipped.
pub open spec fn member(text: Seq<char>, keys: Seq<Seq<char>>) -> Option<
    (Option<(Seq<char>, JsonView)>, Seq<char>),
> {
    match json_value(text) {
        (JsonView::Scalar(ScalarView::Text(key)), rest) => match after_mark(rest, ':') {
            Some(at) => if keys.contains(key) {
                match inner_value(at) {
                    Some((value, rest)) => Some((Some((key, value)), rest)),
                    None => None,
                }
            } else {
                match json_skip(at) {
                    Some(rest) => Some((None, rest)),
                    None => None,
                }
            },
            None => None,
        },
        _ => None,
    }
}

/// The view of a member.
pub open spec fn member_view(member: Option<(String, JsonValue)>) -> Option<
    (Seq<char>, JsonView),
> {
    match member {
        Some((key, value)) => Some((key@, value@)),
        None => None,
    }
}

fn read_member<'a>(text: &'a str, keys: &Vec<String>) -> (r: Option<
    (Option<(String, JsonValue)>, &'a str),
>)
    ensures
        (match r {
            Some((found, rest)) => member(text@, keys_view(keys@)) == Some(
                (member_view(found), rest@),
            ),
            None => member(text@, keys_view(keys@)) is None,
        }),
        r matches Some((found, rest)) ==> rest@.len() < text@.len(),
{
    let (key, rest) = read_value(text);
    let key: String = match key {
        JsonValue::Text(key) => key,
        _ => {
            return None;
        },
    };
    let at: &'a str = match take_mark(rest, ':') {
        Some(at) => at,
        None => {
            return None;
        },
    };
    if is_key(keys, &key) {
        match read_inner_value(at) {
            Some((value, rest)) => Some((Some((key, value)), rest)),
            None => None,
        }
    } else {
        match skip_value(at) {
            Some(rest) => Some((None, rest)),
            None => None,
        }
    }
}

/// The members of an object from the beginning of one of them to the closing mark, and
/// the text behind that. `found` are the members before; a key of the record comes only
/// once.
pub open spec fn members(
    text: Seq<char>,
    keys: Seq<Seq<char>>,
    found: Seq<(Seq<char>, JsonView)>,
) -> Option<(Seq<(Seq<char>, JsonView)>, Seq<char>)>
    decreases text.len(),
{
    match member(text, keys) {
        Some((next, rest)) => {
            let repeated = next matches Some(field) && field_of(found, field.0) is Some;
            let all = match next {
                Some(field) => found.push(field),
                None => found,
            };
            if repeated {
                None
            } else {
                match after_mark(rest, ',') {
                    Some(at) => if at.len() < text.len() {
                        members(at, keys, all)
                    } else {
                        None
                    },
                    None => match after_mark(rest, '}') {
                        Some(end) => Some((all, end)),
                        None => None,
                    },
                }
            }
        },
        None => None,
    }
}

/// Whether reading a part of a record gave what it holds.
pub open spec fn is_part(
    r: Option<(Vec<(String, JsonValue)>, &str)>,
    part: Option<(Seq<(Seq<char>, JsonView)>, Seq<char>)>,
) -> bool {
    match r {
        Some((fields, rest)) => part == Some((fields_view(fields@), rest@)),
        None => part is None,
    }
}

fn read_members<'a>(text: &'a str, keys: &Vec<String>) -> (r: Option<
    (Vec<(String, JsonValue)>, &'a str),
>)
    ensures
        is_part(r, members(text@, keys_view(keys@), Seq::empty())),
{
    let ghost names = keys_view(keys@);
    let ghost all = members(text@, names, Seq::empty());
    let mut fields: Vec<(String, JsonValue)> = Vec::new();
    let mut at: &'a str = text;
    assert(fields_view(fields@) =~= Seq::empty());
    loop
        invariant
            names == keys_view(keys@),
            members(at@, names, fields_view(fields@)) == all,
            all == members(text@, names, Seq::empty()),
        decreases at@.len(),
    {
        let rest: &'a str = match read_member(at, keys) {
            Some((Some((key, value)), rest)) => {
                if field(&fields, key.as_str()).is_some() {
                    return None;
                }
                let ghost before = fields_view(fields@);
                fields.push((key, value));
                assert(fields_view(fields@) =~= before.push((key@, value@)));
                rest
            },
            Some((None, rest)) => rest,
            None => {
                return None;
            },
        };
        match take_mark(rest, ',') {
            Some(next) => {
                at = next;
            },
            None => {
                return match take_mark(rest, '}') {
                    Some(end) => Some((fields, end)),
                    None => None,
                };
            },
        }
    }
}

/// The elements of a list from the beginning of one of them to the closing mark, and the
/// text behind that: the values of the record's first keys, in order. `found` are the
/// elements before.
pub open spec fn elements(
    text: Seq<char>,
    keys: Seq<Seq<char>>,
    found: Seq<(Seq<char>, JsonView)>,
) -> Option<(Seq<(Seq<char>, JsonView)>, Seq<char>)>
    decreases text.len(),
{
    if found.len() >= keys.len() || after_mark(text, ']') is Some {
        None
    } else {
        match inner_value(text) {
            Some((value, rest)) => {
                let all = found.push((keys[found.len() as int], value));
                match after_mark(rest, ',') {
                    Some(at) => if at.len() < text.len() {
                        elements(at, keys, all)
                    } else {
                        None
                    },
                    None => match after_mark(rest, ']') {
                        Some(end) => Some((all, end)),
                        None => None,
                    },
                }
            },
            None => None,
        }
    }
}

fn read_elements<'a>(text: &'a str, keys: &Vec<String>) -> (r: Option<
    (Vec<(String, JsonValue)>, &'a str),
>)
    ensures
        is_part(r, elements(text@, keys_view(keys@), Seq::empty())),
{
    let ghost names = keys_view(keys@);
    let ghost all = elements(text@, names, Seq::empty());
    let mut fields: Vec<(String, JsonValue)> = Vec::new();
    let mut at: &'a str = text;
    assert(fields_view(fields@) =~= Seq::empty());
    loop
        invariant
            names == keys_view(keys@),
            elements(at@, names, fields_view(fields@)) == all,
            all == elements(text@, names, Seq::empty()),
        decreases at@.len(),
    {
        if fields.len() >= keys.len() || take_mark(at, ']').is_some() {
            return None;
        }
        let rest: &'a str = match read_inner_value(at) {
            Some((value, rest)) => {
                let ghost before = fields_view(fields@);
                let key: String = keys[fields.len()].clone();
                fields.push((key, value));
                assert(fields_view(fields@) =~= before.push((key@, value@)));
                rest
            },
            None => {
                return None;
            },
        };
        match take_mark(rest, ',') {
            Some(next) => {
                at = next;
            },
            None => {
                return match take_mark(rest, ']') {
                    Some(end) => Some((fields, end)),
                    None => None,
                };
            },
        }
    }
}

/// What a record holds between its marks, up to the text behind it.
pub open spec fn record_part(text: Seq<char>, keys: Seq<Seq<char>>) -> Option<
    (Seq<(Seq<char>, JsonView)>, Seq<char>),
> {
    match after_mark(text, '{') {
        Some(at) => match after_mark(at, '}') {
            Some(end) => Some((Seq::empty(), end)),
            None => members(at, keys, Seq::empty()),
        },
        None => match after_mark(text, '[') {
            Some(at) => match after_mark(at, ']') {
                Some(end) => Some((Seq::empty(), end)),
                None => elements(at, keys, Seq::empty()),
            },
            None => None,
        },
    }
}

/// The fields of a record with these keys that a text holds: an object, in which other
/// keys are skipped and none of these occurs twice, or a list of the values of the first
/// keys. There are none where the text holds neither, or something more.
pub open spec fn record_in(text: Seq<char>, keys: Seq<Seq<char>>) -> Option<
    Seq<(Seq<char>, JsonView)>,
> {
    match record_part(text, keys) {
        Some((fields, end)) => if after_blanks(end).len() == 0 {
            Some(fields)
        } else {
            None
        },
        None => None,
    }
}

/// The view of the fields of a record that may not be there.
pub open spec fn record_view(fields: Option<Vec<(String, JsonValue)>>) -> Option<
    Seq<(Seq<char>, JsonView)>,
> {
    match fields {
        Some(fields) => Some(fields_view(fields@)),
        None => None,
    }
}

fn read_record_part<'a>(text: &'a str, keys: &Vec<String>) -> (r: Option<
    (Vec<(String, JsonValue)>, &'a str),
>)
    ensures
        is_part(r, record_part(text@, keys_view(keys@))),
{
    let none: Vec<(String, JsonValue)> = Vec::new();
    assert(fields_view(none@) =~= Seq::empty());
    match take_mark(text, '{') {
        Some(at) => match take_mark(at, '}') {
            Some(end) => Some((none, end)),
            None => read_members(at, keys),
        },
        None => match take_mark(text, '[') {
            Some(at) => match take_mark(at, ']') {
                Some(end) => Some((none, end)),
                None => read_elements(at, keys),
            },
            None => None,
        },
    }
}

/// Reads the fields of a record with these keys.
pub fn read_record(text: &str, keys: &Vec<String>) -> (r: Option<Vec<(String, JsonValue)>>)
    ensures
        record_view(r) == record_in(text@, keys_view(keys@)),
{
    match read_record_part(text, keys) {
        Some((fields, end)) => if skip_blanks(end).unicode_len() == 0 {
            Some(fields)
        } else {
            None
        },
        None => None,
    }
}

// ---- what is written --------------------------------------------------------------

/// Whether a text holds exactly these fields, from the beginning of the first of them to
/// the end of the object.
pub open spec fn holds_members(text: Seq<char>, fields: Seq<(Seq<char>, ScalarView)>) -> bool
    decreases fields.len(),
{
    let (key, rest) = json_value(text);
    &&& fields.len() > 0
    &&& key == JsonView::Scalar(ScalarView::Text(fields[0].0))
    &&& after_mark(rest, ':') matches Some(at) && {
        let (value, rest) = json_value(at);
        &&& value == JsonView::Scalar(fields[0].1)
        &&& if fields.len() == 1 {
            after_mark(rest, '}') matches Some(end) && after_blanks(end).len() == 0
        } else {
            after_mark(rest, ',') matches Some(next) && next.len() < text.len() && holds_members(
                next,
                fields.drop_first(),
            )
        }
    }
}

/// Whether a text is an object with exactly these fields.
pub open spec fn holds_object(text: Seq<char>, fields: Seq<(Seq<char>, ScalarView)>) -> bool {
    after_mark(text, '{') matches Some(at) && if fields.len() == 0 {
        after_mark(at, '}') matches Some(end) && after_blanks(end).len() == 0
    } else {
        after_mark(at, '}') is None && holds_members(at, fields)
    }
}

proof fn lemma_members_read_back(
    text: Seq<char>,
    keys: Seq<Seq<char>>,
    found: Seq<(Seq<char>, JsonView)>,
    fields: Seq<(Seq<char>, ScalarView)>,
)
    requires
        holds_members(text, fields),
        forall|i: int| 0 <= i < fields.len() ==> keys.contains((#[trigger] fields[i]).0),
        forall|i: int|
            0 <= i < fields.len() ==> field_of(found, (#[trigger] fields[i]).0) is None,
        forall|i: int, j: int| 0 <= i < j < fields.len() ==> fields[i].0 != fields[j].0,
    ensures
        (match members(text, keys, found) {
            Some((all, end)) => all == found + as_read(fields) && after_blanks(end).len() == 0,
            None => false,
        }),
    decreases fields.len(),
{
    let first = (fields[0].0, JsonView::Scalar(fields[0].1));
    let rest = json_value(text).1;
    let at = after_mark(rest, ':')->0;
    assert(member(text, keys) == Some((Some(first), json_value(at).1)));
    let all = found.push(first);
    assert(as_read(fields)[0] == first);
    if fields.len() == 1 {
        assert(all =~= found + as_read(fields));
    } else {
        let others = fields.drop_first();
        assert forall|i: int| 0 <= i < others.len() implies keys.contains((#[trigger] others[i]).0)
            && field_of(all, others[i].0) is None by {
            assert(others[i] == fields[i + 1]);
            assert(fields[0].0 != fields[i + 1].0);
            lemma_field_of_found(found, first, others[i].0);
        }
        assert forall|i: int, j: int| 0 <= i < j < others.len() implies others[i].0
            != others[j].0 by {
            assert(others[i] == fields[i + 1] && others[j] == fields[j + 1]);
        }
        let next = after_mark(json_value(at).1, ',')->0;
        lemma_members_read_back(next, keys, all, others);
        assert(all + as_read(others) =~= found + as_read(fields));
    }
}

/// Under another key, one field more changes nothing.
proof fn lemma_field_of_found(
    found: Seq<(Seq<char>, JsonView)>,
    last: (Seq<char>, JsonView),
    key: Seq<char>,
)
    requires
        field_of(found, key) is None,
        last.0 != key,
    ensures
        field_of(found.push(last), key) is None,
    decreases found.len(),
{
    reveal_with_fuel(field_of, 2);
    let all = found.push(last);
    if found.len() > 0 {
        assert(all[0] == found[0]);
        assert(all.drop_first() =~= found.drop_first().push(last));
        lemma_field_of_found(found.drop_first(), last, key);
    } else {
        assert(all.drop_first() =~= Seq::empty());
    }
}

/// An object that is written with keys of a record reads back as that record's fields.
pub proof fn written_object_reads_back(
    text: Seq<char>,
    keys: Seq<Seq<char>>,
    fields: Seq<(Seq<char>, ScalarView)>,
)
    requires
        writable(fields),
        holds_object(text, fields),
        forall|i: int| 0 <= i < fields.len() ==> keys.contains((#[trigger] fields[i]).0),
    ensures
        record_in(text, keys) == Some(as_read(fields)),
{
    let at = after_mark(text, '{')->0;
    if fields.len() == 0 {
        assert(as_read(fields) =~= Seq::empty());
    } else {
        assert forall|i: int| 0 <= i < fields.len() implies field_of(
            Seq::<(Seq<char>, JsonView)>::empty(),
            (#[trigger] fields[i]).0,
        ) is None by {}
        lemma_members_read_back(at, keys, Seq::empty(), fields);
        assert(Seq::<(Seq<char>, JsonView)>::empty() + as_read(fields) =~= as_read(fields));
    }
}

// ---- looking fields up --------------------------------------------------------

/// The first field under a key.
pub open spec fn field_of(fields: Seq<(Seq<char>, JsonView)>, key: Seq<char>) -> Option<JsonView>
    decreases fields.len(),
{
    if fields.len() == 0 {
        None
    } else if fields[0].0 == key {
        Some(fields[0].1)
    } else {
        field_of(fields.drop_first(), key)
    }
}

/// The view of a field that may not be there.
pub open spec fn field_view(field: Option<&JsonValue>) -> Option<JsonView> {
    match field {
        Some(value) => Some(value@),
        None => None,
    }
}

/// Looks a field up by its key.
pub fn field<'a>(fields: &'a Vec<(String, JsonValue)>, key: &str) -> (r: Option<&'a JsonValue>)
    ensures
        field_view(r) == field_of(fields_view(fields@), key@),
{
    let wanted: String = key.to_owned();
    let ghost all = fields_view(fields@);
    let mut i: usize = 0;
    assert(all.skip(0) =~= all);
    while i < fields.len()
        invariant
            i <= fields.len(),
            wanted@ == key@,
            all == fields_view(fields@),
            field_of(all, key@) == field_of(all.skip(i as int), key@),
        decreases fields.len() - i,
    {
        let entry: &(String, JsonValue) = &fields[i];
        assert(all.skip(i as int)[0] == (entry.0@, entry.1@));
        if entry.0 == wanted {
            return Some(&entry.1);
        }
        assert(all.skip(i as int).drop_first() =~= all.skip(i + 1));
        i += 1;
    }
    None
}

/// The name of a variant: a text, or an object with that one key and null under
/// it.
pub open spec fn variant_name(value: JsonView) -> Option<Seq<char>> {
    match value {
        JsonView::Scalar(ScalarView::Text(text)) => Some(text),
        JsonView::Object(keys) => if keys.len() == 1 && keys[0].1 {
            Some(keys[0].0)
        } else {
            None
        },
        _ => None,
    }
}

/// Reads the name of a variant.
pub fn read_variant_name(value: &JsonValue) -> (r: Option<&str>)
    ensures
        (match r {
            Some(name) => variant_name(value@) == Some(name@),
            None => variant_name(value@) is None,
        }),
{
    match value {
        JsonValue::Text(text) => Some(text.as_str()),
        JsonValue::Object(keys) => if keys.len() == 1 && keys[0].1 {
            Some(keys[0].0.as_str())
        } else {
            None
        },
        _ => None,
    }
}

// ---- laws -----------------------------------------------------------------------------

/// Only blanks are skipped, and all of them up to the next character that is none.
pub proof fn only_blanks_are_skipped(text: Seq<char>)
    ensures
        ({
            let rest = after_blanks(text);
            let skipped = text.len() - rest.len();
            &&& 0 <= skipped
            &&& rest == text.skip(skipped)
            &&& forall|i: int| 0 <= i < skipped ==> is_blank(#[trigger] text[i])
            &&& rest.len() > 0 ==> !is_blank(rest[0])
        }),
    decreases text.len(),
{
    if text.len() > 0 && is_blank(text[0]) {
        only_blanks_are_skipped(text.skip(1));
        let rest = after_blanks(text);
        let skipped = text.len() - rest.len();
        assert(text.skip(1).skip(skipped - 1) =~= text.skip(skipped));
        assert forall|i: int| 0 <= i < skipped implies is_blank(#[trigger] text[i]) by {
            if i > 0 {
                assert(text.skip(1)[i - 1] == text[i]);
            }
        }
    } else {
        assert(text.skip(0) =~= text);
    }
}

/// A blank in front of a record changes nothing.
pub proof fn blanks_in_front_change_nothing(text: Seq<char>, keys: Seq<Seq<char>>, blank: char)
    requires
        is_blank(blank),
    ensures
        record_in(seq![blank] + text, keys) == record_in(text, keys),
{
    let longer = seq![blank] + text;
    assert(longer[0] == blank);
    assert(longer.skip(1) =~= text);
}

/// What is found under a key is the value of its first field; nothing is found where no
/// field has the key.
pub proof fn field_is_the_first_with_its_key(fields: Seq<(Seq<char>, JsonView)>, key: Seq<char>)
    ensures
        field_of(fields, key) is None <==> forall|i: int|
            0 <= i < fields.len() ==> (#[trigger] fields[i]).0 != key,
        field_of(fields, key) matches Some(value) ==> exists|i: int|
            0 <= i < fields.len() && #[trigger] fields[i] == (key, value) && forall|j: int|
                0 <= j < i ==> (#[trigger] fields[j]).0 != key,
    decreases fields.len(),
{
    if fields.len() > 0 {
        let rest = fields.drop_first();
        if fields[0].0 == key {
            assert(fields[0] == (key, fields[0].1));
        } else {
            field_is_the_first_with_its_key(rest, key);
            if field_of(rest, key) is None {
                assert forall|i: int| 0 <= i < fields.len() implies (#[trigger] fields[i]).0
                    != key by {
                    if i > 0 {
                        assert(rest[i - 1] == fields[i]);
                    }
                }
            } else {
                let value = field_of(rest, key)->0;
                let i = choose|i: int|
                    0 <= i < rest.len() && #[trigger] rest[i] == (key, value) && forall|j: int|
                        0 <= j < i ==> (#[trigger] rest[j]).0 != key;
                assert(fields[i + 1] == (key, value));
                assert forall|j: int| 0 <= j < i + 1 implies (#[trigger] fields[j]).0 != key by {
                    if j > 0 {
                        assert(rest[j - 1] == fields[j]);
                    }
                }
            }
        }
    }
}

/// Whether fields have only some keys, each at most once.
pub open spec fn has_keys_once(fields: Seq<(Seq<char>, JsonView)>, keys: Seq<Seq<char>>) -> bool {
    &&& forall|i: int| 0 <= i < fields.len() ==> keys.contains((#[trigger] fields[i]).0)
    &&& forall|i: int, j: int|
        0 <= i < j < fields.len() ==> (#[trigger] fields[i]).0 != (#[trigger] fields[j]).0
}

proof fn lemma_members_have_keys_once(
    text: Seq<char>,
    keys: Seq<Seq<char>>,
    found: Seq<(Seq<char>, JsonView)>,
)
    requires
        has_keys_once(found, keys),
    ensures
        members(text, keys, found) matches Some(part) ==> has_keys_once(part.0, keys),
    decreases text.len(),
{
    match member(text, keys) {
        Some((next, rest)) => {
            let all = match next {
                Some(field) => found.push(field),
                None => found,
            };
            let repeated = next matches Some(field) && field_of(found, field.0) is Some;
            if !repeated {
                if next is Some {
                    let field = next->0;
                    field_is_the_first_with_its_key(found, field.0);
                }
                assert(has_keys_once(all, keys));
                match after_mark(rest, ',') {
                    Some(at) => {
                        if at.len() < text.len() {
                            lemma_members_have_keys_once(at, keys, all);
                        }
                    },
                    None => {},
                }
            }
        },
        None => {},
    }
}

proof fn lemma_elements_have_keys_once(
    text: Seq<char>,
    keys: Seq<Seq<char>>,
    found: Seq<(Seq<char>, JsonView)>,
)
    requires
        forall|i: int, j: int| 0 <= i < j < keys.len() ==> keys[i] != keys[j],
        found.len() <= keys.len(),
        forall|i: int| 0 <= i < found.len() ==> (#[trigger] found[i]).0 == keys[i],
    ensures
        elements(text, keys, found) matches Some(part) ==> has_keys_once(part.0, keys),
    decreases text.len(),
{
    if !(found.len() >= keys.len() || after_mark(text, ']') is Some) {
        match inner_value(text) {
            Some((value, rest)) => {
                let all = found.push((keys[found.len() as int], value));
                assert forall|i: int| 0 <= i < all.len() implies (#[trigger] all[i]).0
                    == keys[i] by {}
                assert(has_keys_once(all, keys));
                match after_mark(rest, ',') {
                    Some(at) => {
                        if at.len() < text.len() {
                            lemma_elements_have_keys_once(at, keys, all);
                        }
                    },
                    None => {},
                }
            },
            None => {},
        }
    }
}

/// A record has no fields but those of its keys, and none of them twice.
pub proof fn record_has_its_keys_once(text: Seq<char>, keys: Seq<Seq<char>>)
    requires
        forall|i: int, j: int| 0 <= i < j < keys.len() ==> keys[i] != keys[j],
    ensures
        record_in(text, keys) matches Some(fields) ==> has_keys_once(fields, keys),
{
    match after_mark(text, '{') {
        Some(at) => {
            lemma_members_have_keys_once(at, keys, Seq::empty());
        },
        None => match after_mark(text, '[') {
            Some(at) => {
                lemma_elements_have_keys_once(at, keys, Seq::empty());
            },
            None => {},
        },
    }
}

/// Blanks are the four characters that may stand between the parts of a JSON text: space,
/// tab, line feed and carriage return.
pub proof fn four_characters_are_blanks(c: char)
    ensures
        is_blank(c) <==> c as u32 == 0x20 || c as u32 == 0x09 || c as u32 == 0x0A || c as u32
            == 0x0D,
{
}

/// A variant is named by a text, or by the one key of an object that has nothing under it;
/// nothing else names one.
pub proof fn variants_are_named_by_a_text_or_a_bare_key(value: JsonView)
    ensures
        variant_name(value) matches Some(name) ==> value == JsonView::Scalar(
            ScalarView::Text(name),
        ) || value == JsonView::Object(seq![(name, true)]),
        forall|name: Seq<char>|
            value == JsonView::Scalar(ScalarView::Text(name)) || value == JsonView::Object(
                seq![(name, true)],
            ) ==> #[trigger] is_name_of(value, name),
{
    if let JsonView::Object(keys) = value {
        if keys.len() == 1 && keys[0].1 {
            assert(keys =~= seq![(keys[0].0, true)]);
        }
    }
}

/// Whether a value names a variant.
pub open spec fn is_name_of(value: JsonView, name: Seq<char>) -> bool {
    variant_name(value) == Some(name)
}

} // verus!

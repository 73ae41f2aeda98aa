//! JSON values as the client reads them from a node, and their text.

use serde_json::Value;
use vstd::prelude::*;

verus! {

/// A JSON value. An object keeps its members in the order in which they came.
#[derive(Debug, PartialEq)]
pub enum Json {
    Null,
    Bool(bool),
    /// An integer from zero up to the largest `u64`.
    Unsigned(u64),
    /// An integer below zero.
    Negative(i64),
    /// Any other number, by its text.
    Fraction(String),
    Text(String),
    Array(Vec<Json>),
    Object(Vec<(String, Json)>),
}

/// A JSON value as a mathematical tree.
pub enum JsonView {
    Null,
    Bool(bool),
    Unsigned(u64),
    Negative(i64),
    Fraction(Seq<char>),
    Text(Seq<char>),
    Array(Seq<JsonView>),
    Object(Seq<(Seq<char>, JsonView)>),
}

/// The tree of a JSON value.
pub open spec fn json_view(j: Json) -> JsonView
    decreases j,
{
    match j {
        Json::Null => JsonView::Null,
        Json::Bool(b) => JsonView::Bool(b),
        Json::Unsigned(n) => JsonView::Unsigned(n),
        Json::Negative(n) => JsonView::Negative(n),
        Json::Fraction(s) => JsonView::Fraction(s@),
        Json::Text(s) => JsonView::Text(s@),
        Json::Array(items) => JsonView::Array(
            Seq::new(
                items@.len(),
                |i: int|
                    if 0 <= i < items@.len() {
                        json_view(items@[i])
                    } else {
                        JsonView::Null
                    },
            ),
        ),
        Json::Object(members) => JsonView::Object(
            Seq::new(
                members@.len(),
                |i: int|
                    if 0 <= i < members@.len() {
                        (members@[i].0@, json_view(members@[i].1))
                    } else {
                        (Seq::empty(), JsonView::Null)
                    },
            ),
        ),
    }
}

impl View for Json {
    type V = JsonView;

    open spec fn view(&self) -> JsonView {
        json_view(*self)
    }
}

/// An optional value, mathematically.
pub open spec fn json_option_view(j: Option<Json>) -> Option<JsonView> {
    match j {
        Some(j) => Some(j@),
        None => None,
    }
}

/// The first member of that name.
pub open spec fn member(members: Seq<(Seq<char>, JsonView)>, name: Seq<char>) -> Option<JsonView>
    decreases members.len(),
{
    if members.len() == 0 {
        None
    } else if members[0].0 == name {
        Some(members[0].1)
    } else {
        member(members.skip(1), name)
    }
}

impl JsonView {
    /// The member of an object; nothing for a value that is no object.
    pub open spec fn get(self, name: Seq<char>) -> Option<JsonView> {
        match self {
            JsonView::Object(members) => member(members, name),
            _ => None,
        }
    }

    pub open spec fn as_text(self) -> Option<Seq<char>> {
        match self {
            JsonView::Text(s) => Some(s),
            _ => None,
        }
    }

    pub open spec fn as_bool(self) -> Option<bool> {
        match self {
            JsonView::Bool(b) => Some(b),
            _ => None,
        }
    }

    pub open spec fn as_u64(self) -> Option<u64> {
        match self {
            JsonView::Unsigned(n) => Some(n),
            _ => None,
        }
    }

    pub open spec fn array_len(self) -> Option<nat> {
        match self {
            JsonView::Array(items) => Some(items.len()),
            _ => None,
        }
    }

    /// The text that the member of that name holds.
    pub open spec fn text_member(self, name: Seq<char>) -> Option<Seq<char>> {
        match self.get(name) {
            Some(v) => v.as_text(),
            None => None,
        }
    }

    /// The member of that name is the value `true`.
    pub open spec fn flag(self, name: Seq<char>) -> bool {
        self.get(name) == Some(JsonView::Bool(true))
    }
}

impl Json {
    /// The member of an object with that name.
    pub fn get(&self, name: &str) -> (r: Option<&Json>)
        ensures
            match r {
                Some(v) => self@.get(name@) == Some(v@),
                None => self@.get(name@) is None,
            },
    {
        match self {
            Json::Object(members) => {
                let wanted = name.to_string();
                let ghost all = self@->Object_0;
                let mut i: usize = 0;
                assert(all.skip(0) =~= all);
                while i < members.len()
                    invariant
                        i <= members@.len(),
                        self@ == JsonView::Object(all),
                        all.len() == members@.len(),
                        forall|k: int|
                            0 <= k < members@.len() ==> #[trigger] all[k] == (
                                members@[k].0@,
                                members@[k].1@,
                            ),
                        wanted@ == name@,
                        member(all, name@) == member(all.skip(i as int), name@),
                    decreases members@.len() - i,
                {
                    assert(all.skip(i as int)[0] == all[i as int]);
                    if members[i].0 == wanted {
                        return Some(&members[i].1);
                    }
                    assert(all.skip(i as int).skip(1) =~= all.skip(i + 1));
                    i = i + 1;
                }
                None
            },
            _ => None,
        }
    }

    /// The text of a string value.
    pub fn as_text(&self) -> (r: Option<&String>)
        ensures
            match r {
                Some(s) => self@.as_text() == Some(s@),
                None => self@.as_text() is None,
            },
    {
        match self {
            Json::Text(s) => Some(s),
            _ => None,
        }
    }

    /// A boolean value.
    pub fn as_bool(&self) -> (r: Option<bool>)
        ensures
            r == self@.as_bool(),
    {
        match self {
            Json::Bool(b) => Some(*b),
            _ => None,
        }
    }

    /// An integer that fits a `u64`.
    pub fn as_u64(&self) -> (r: Option<u64>)
        ensures
            r == self@.as_u64(),
    {
        match self {
            Json::Unsigned(n) => Some(*n),
            _ => None,
        }
    }

    /// How many items an array has.
    pub fn array_len(&self) -> (r: Option<usize>)
        ensures
            match r {
                Some(n) => self@.array_len() == Some(n as nat),
                None => self@.array_len() is None,
            },
    {
        match self {
            Json::Array(items) => Some(items.len()),
            _ => None,
        }
    }

    /// The value is `null`.
    pub fn is_null(&self) -> (r: bool)
        ensures
            r == (self@ == JsonView::Null),
    {
        match self {
            Json::Null => true,
            _ => false,
        }
    }

    /// The text that the member of that name holds.
    pub fn text_member(&self, name: &str) -> (r: Option<&String>)
        ensures
            match r {
                Some(s) => self@.text_member(name@) == Some(s@),
                None => self@.text_member(name@) is None,
            },
    {
        match self.get(name) {
            Some(v) => v.as_text(),
            None => None,
        }
    }

    /// The member of that name is the value `true`.
    pub fn flag(&self, name: &str) -> (r: bool)
        ensures
            r == self@.flag(name@),
    {
        match self.get(name) {
            Some(v) => match v.as_bool() {
                Some(b) => b,
                None => false,
            },
            None => false,
        }
    }

    /// A separate copy of the value.
    pub fn copy(&self) -> (r: Json)
        ensures
            r@ == self@,
        decreases self,
    {
        match self {
            Json::Null => Json::Null,
            Json::Bool(b) => Json::Bool(*b),
            Json::Unsigned(n) => Json::Unsigned(*n),
            Json::Negative(n) => Json::Negative(*n),
            Json::Fraction(s) => Json::Fraction(s.clone()),
            Json::Text(s) => Json::Text(s.clone()),
            Json::Array(items) => {
                let mut out: Vec<Json> = Vec::new();
                let mut i: usize = 0;
                while i < items.len()
                    invariant
                        i <= items@.len(),
                        *self == Json::Array(*items),
                        out@.len() == i,
                        forall|k: int| 0 <= k < i ==> (#[trigger] out@[k])@ == items@[k]@,
                    decreases items@.len() - i,
                {
                    assert(decreases_to!(self => self->Array_0));
                    assert(decreases_to!(items => items@));
                    assert(decreases_to!(items@ => items@[i as int]));
                    let item = items[i].copy();
                    out.push(item);
                    i = i + 1;
                }
                let r = Json::Array(out);
                assert(r@->Array_0 =~= self@->Array_0);
                r
            },
            Json::Object(members) => {
                let mut out: Vec<(String, Json)> = Vec::new();
                let mut i: usize = 0;
                while i < members.len()
                    invariant
                        i <= members@.len(),
                        *self == Json::Object(*members),
                        out@.len() == i,
                        forall|k: int|
                            0 <= k < i ==> (#[trigger] out@[k]).0@ == members@[k].0@ && out@[k].1@
                                == members@[k].1@,
                    decreases members@.len() - i,
                {
                    assert(decreases_to!(self => self->Object_0));
                    assert(decreases_to!(members => members@));
                    assert(decreases_to!(members@ => members@[i as int]));
                    assert(decreases_to!(members@[i as int] => members@[i as int].1));
                    let value = members[i].1.copy();
                    out.push((members[i].0.clone(), value));
                    i = i + 1;
                }
                let r = Json::Object(out);
                assert(r@->Object_0 =~= self@->Object_0);
                r
            },
        }
    }
}

/// Declares `serde_json::Value`.
#[verifier::external_type_specification]
#[verifier::external_body]
pub struct ExValue(Value);

/// The `serde_json` form of a value.
pub uninterp spec fn value_of(j: JsonView) -> Value;

/// The compact text of a value.
pub uninterp spec fn value_text_of(v: Value) -> Seq<char>;

/// What `{:?}` shows for an optional value.
pub uninterp spec fn value_debug_of(v: Option<Value>) -> Seq<char>;

/// The compact text of a value.
pub open spec fn json_text_of(j: JsonView) -> Seq<char> {
    value_text_of(value_of(j))
}

/// What `{:?}` shows for an optional value.
pub open spec fn json_debug_of(j: Option<JsonView>) -> Seq<char> {
    match j {
        Some(j) => value_debug_of(Some(value_of(j))),
        None => "None"@,
    }
}

/// Makes the `serde_json::Value` of a value, by its `From` impls, by `parse` for a number
/// that is held by its text, and by collecting items and members. Claims only that the
/// outcome depends on the value alone. What becomes of members of one name, of their
/// order, and of a text that is no number is not said.
#[verifier::external_body]
fn json_value(j: &Json) -> (r: Value)
    ensures
        r == value_of(j@),
{
    match j {
        Json::Null => Value::Null,
        Json::Bool(b) => Value::from(*b),
        Json::Unsigned(n) => Value::from(*n),
        Json::Negative(n) => Value::from(*n),
        Json::Fraction(s) => match s.parse() {
            Ok(n) => Value::Number(n),
            Err(_) => Value::from(s.as_str()),
        },
        Json::Text(s) => Value::from(s.as_str()),
        Json::Array(items) => items.iter().map(json_value).collect(),
        Json::Object(members) => members.iter().map(|m| (m.0.clone(), json_value(&m.1))).collect(),
    }
}

/// Calls `to_string` of `serde_json::Value`. Claims only that the text depends on the
/// value alone; how it escapes a string and orders members is not said.
#[verifier::external_body]
fn value_text(v: &Value) -> (r: String)
    ensures
        r@ == value_text_of(*v),
{
    v.to_string()
}

/// Formats an optional `serde_json::Value` with its `{:?}`. Claims only that the text
/// depends on the value alone.
#[verifier::external_body]
fn value_debug(v: &Option<Value>) -> (r: String)
    ensures
        r@ == value_debug_of(*v),
{
    format!("{:?}", v)
}

impl Json {
    /// The compact text of the value.
    pub fn text(&self) -> (r: String)
        ensures
            r@ == json_text_of(self@),
    {
        value_text(&json_value(self))
    }
}

/// What `{:?}` shows for an optional value.
pub fn json_debug(j: &Option<Json>) -> (r: String)
    ensures
        r@ == json_debug_of(json_option_view(*j)),
{
    match j {
        Some(j) => value_debug(&Some(json_value(j))),
        None => "None".to_string(),
    }
}

/// The value of a member is that of the first member of its name.
pub proof fn law_first_of_its_name(members: Seq<(Seq<char>, JsonView)>, k: int)
    requires
        0 <= k < members.len(),
        forall|i: int| 0 <= i < k ==> (#[trigger] members[i]).0 != members[k].0,
    ensures
        JsonView::Object(members).get(members[k].0) == Some(members[k].1),
    decreases k,
{
    if k > 0 {
        assert(members[0].0 != members[k].0);
        let rest = members.skip(1);
        assert forall|i: int| 0 <= i < k - 1 implies (#[trigger] rest[i]).0 != rest[k - 1].0 by {
            assert(rest[i] == members[i + 1]);
        }
        assert(rest[k - 1] == members[k]);
        law_first_of_its_name(rest, k - 1);
    }
}

/// A name that no member has gives nothing, and neither does any name in a value that is
/// no object.
pub proof fn law_absent_name_gives_nothing(v: JsonView, name: Seq<char>)
    requires
        v matches JsonView::Object(members) ==> forall|i: int|
            0 <= i < members.len() ==> (#[trigger] members[i]).0 != name,
    ensures
        v.get(name) is None,
        v.text_member(name) is None,
        !v.flag(name),
    decreases v->Object_0.len(),
{
    if let JsonView::Object(members) = v {
        if members.len() > 0 {
            assert(members[0].0 != name);
            let rest = members.skip(1);
            assert forall|i: int| 0 <= i < rest.len() implies (#[trigger] rest[i]).0 != name by {
                assert(rest[i] == members[i + 1]);
            }
            law_absent_name_gives_nothing(JsonView::Object(rest), name);
        }
    }
}

/// A value is read only as what it is: text as text, a number as that number, a list by
/// its length; and a member is text, or set, only where it is there and is so.
pub proof fn law_values_are_read_as_what_they_are(v: JsonView, name: Seq<char>)
    ensures
        v.as_text() is Some <==> v is Text,
        v matches JsonView::Text(s) ==> v.as_text() == Some(s),
        v.as_bool() is Some <==> v is Bool,
        v matches JsonView::Bool(b) ==> v.as_bool() == Some(b),
        v.as_u64() is Some <==> v is Unsigned,
        v matches JsonView::Unsigned(n) ==> v.as_u64() == Some(n),
        v.array_len() is Some <==> v is Array,
        v matches JsonView::Array(items) ==> v.array_len() == Some(items.len()),
        v.text_member(name) is Some <==> (v.get(name) is Some && v.get(name)->0 is Text),
        v.get(name) matches Some(JsonView::Text(s)) ==> v.text_member(name) == Some(s),
        v.flag(name) <==> v.get(name) == Some(JsonView::Bool(true)),
{
}

/// A value stands for what it holds: scalars for themselves, a list for its items in
/// order, an object for its members in order.
pub proof fn law_json_stands_for_what_it_holds(j: Json)
    ensures
        match j {
            Json::Null => j@ == JsonView::Null,
            Json::Bool(b) => j@ == JsonView::Bool(b),
            Json::Unsigned(n) => j@ == JsonView::Unsigned(n),
            Json::Negative(n) => j@ == JsonView::Negative(n),
            Json::Fraction(s) => j@ == JsonView::Fraction(s@),
            Json::Text(s) => j@ == JsonView::Text(s@),
            Json::Array(items) => j@ matches JsonView::Array(v) && v.len() == items@.len()
                && forall|i: int| 0 <= i < v.len() ==> #[trigger] v[i] == items@[i]@,
            Json::Object(members) => j@ matches JsonView::Object(v) && v.len() == members@.len()
                && forall|i: int|
                0 <= i < v.len() ==> (#[trigger] v[i]).0 == members@[i].0@ && v[i].1
                    == members@[i].1@,
        },
{
}

/// Missing data is shown as `None`; an optional value stands for the value it holds.
pub proof fn law_missing_data_is_shown_as_none(j: Option<Json>)
    ensures
        json_debug_of(None) == "None"@,
        json_option_view(j) is Some <==> j is Some,
        j matches Some(v) ==> json_option_view(j) == Some(v@),
{
}

/// The text of a value, and what is shown for it, are of the whole value.
pub proof fn law_text_is_of_the_whole_value(j: JsonView)
    ensures
        json_text_of(j) == value_text_of(value_of(j)),
        json_debug_of(Some(j)) == value_debug_of(Some(value_of(j))),
{
}

} // verus!

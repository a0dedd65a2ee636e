//! JSON values: the executable form that goes over the wire and the
//! mathematical value it denotes.

use vstd::prelude::*;

verus! {

/// The mathematical content of a JSON value.
pub enum JsonValue {
    Null,
    Bool(bool),
    /// A number without fraction or exponent.
    Integer(int),
    /// Any other number, as the bit pattern of its IEEE 754 double.
    Real(u64),
    Text(Seq<char>),
    Array(Seq<JsonValue>),
    /// The members in the order in which they were written.
    Object(Seq<(Seq<char>, JsonValue)>),
}

/// A JSON value.
#[derive(Debug, PartialEq)]
pub enum Json {
    Null,
    Bool(bool),
    /// A number without fraction or exponent.
    Integer(i128),
    /// Any other number, as the bit pattern of its IEEE 754 double.
    Real(u64),
    Text(String),
    Array(Vec<Json>),
    /// The members in the order in which they were written.
    Object(Vec<(String, Json)>),
}

/// What `json` denotes.
pub open spec fn value_of(json: Json) -> JsonValue
    decreases json,
{
    match json {
        Json::Null => JsonValue::Null,
        Json::Bool(b) => JsonValue::Bool(b),
        Json::Integer(n) => JsonValue::Integer(n as int),
        Json::Real(bits) => JsonValue::Real(bits),
        Json::Text(s) => JsonValue::Text(s@),
        Json::Array(items) => JsonValue::Array(
            Seq::new(
                items@.len(),
                |i: int|
                    if 0 <= i < items@.len() {
                        value_of(items@[i])
                    } else {
                        JsonValue::Null
                    },
            ),
        ),
        Json::Object(members) => JsonValue::Object(
            Seq::new(
                members@.len(),
                |i: int|
                    if 0 <= i < members@.len() {
                        (members@[i].0@, value_of(members@[i].1))
                    } else {
                        (Seq::empty(), JsonValue::Null)
                    },
            ),
        ),
    }
}

impl View for Json {
    type V = JsonValue;

    open spec fn view(&self) -> JsonValue {
        value_of(*self)
    }
}

/// Whether `bits` is the pattern of a double that is a number: neither an
/// infinity nor one of the patterns that stand for no number.
pub open spec fn is_finite(bits: u64) -> bool {
    (bits >> 52) & 0x7ff != 0x7ff
}

/// Whether no two of `members` have the same name.
pub open spec fn distinct_names(members: Seq<(String, Json)>) -> bool {
    forall|i: int, j: int|
        0 <= i < j < members.len() ==> (#[trigger] members[i]).0@ != (#[trigger] members[j]).0@
}

/// Whether `json` can go over the wire: every integer in it fits 64 bits,
/// signed or unsigned, every other number in it is finite, and no object in
/// it has two members of one name.
pub open spec fn representable(json: Json) -> bool
    decreases json,
{
    match json {
        Json::Integer(n) => -0x8000_0000_0000_0000 <= n <= 0xffff_ffff_ffff_ffff,
        Json::Real(bits) => is_finite(bits),
        Json::Array(items) => forall|i: int|
            0 <= i < items@.len() ==> representable(#[trigger] items@[i]),
        Json::Object(members) => distinct_names(members@) && forall|i: int|
            0 <= i < members@.len() ==> representable((#[trigger] members@[i]).1),
        _ => true,
    }
}

impl Json {
    /// Executable form of [`representable`].
    #[verifier::loop_isolation(false)]
    pub fn is_representable(&self) -> (yes: bool)
        ensures
            yes == representable(*self),
        decreases self,
    {
        match self {
            Json::Integer(n) => -0x8000_0000_0000_0000 <= *n && *n <= 0xffff_ffff_ffff_ffff,
            Json::Real(bits) => (*bits >> 52) & 0x7ff != 0x7ff,
            Json::Array(items) => {
                let mut i: usize = 0;
                while i < items.len()
                    invariant
                        i <= items.len(),
                        forall|k: int| 0 <= k < i ==> representable(#[trigger] items@[k]),
                    decreases items.len() - i,
                {
                    if !items[i].is_representable() {
                        assert(!representable(items@[i as int]));
                        return false;
                    }
                    i = i + 1;
                }
                true
            },
            Json::Object(members) => {
                let mut i: usize = 0;
                while i < members.len()
                    invariant
                        i <= members.len(),
                        forall|k: int| 0 <= k < i ==> representable((#[trigger] members@[k]).1),
                        distinct_names(members@.take(i as int)),
                    decreases members.len() - i,
                {
                    if !members[i].1.is_representable() {
                        assert(!representable(members@[i as int].1));
                        return false;
                    }
                    let mut j: usize = 0;
                    while j < i
                        invariant
                            j <= i < members.len(),
                            forall|k: int| 0 <= k < j ==> (#[trigger] members@[k]).0@ != members@[i as int].0@,
                        decreases i - j,
                    {
                        if members[j].0 == members[i].0 {
                            assert(members@[j as int].0@ == members@[i as int].0@);
                            return false;
                        }
                        j = j + 1;
                    }
                    assert forall|a: int, b: int| 0 <= a < b < i + 1 implies (#[trigger] members@.take(
                        i + 1,
                    )[a]).0@ != (#[trigger] members@.take(i + 1)[b]).0@ by {
                        if b < i {
                            assert(members@.take(i as int)[a] == members@[a]);
                            assert(members@.take(i as int)[b] == members@[b]);
                        }
                    }
                    i = i + 1;
                }
                assert(members@.take(i as int) == members@);
                true
            },
            _ => true,
        }
    }
}

/// The values of `items`, one by one.
pub open spec fn values(items: Seq<Json>) -> Seq<JsonValue> {
    Seq::new(items.len(), |i: int| items[i]@)
}

/// The members of an object, each with the value of what it holds.
pub open spec fn member_values(members: Seq<(String, Json)>) -> Seq<(Seq<char>, JsonValue)> {
    Seq::new(members.len(), |i: int| (members[i].0@, members[i].1@))
}

/// An array denotes the array of what its items denote.
pub proof fn lemma_array_value(items: Vec<Json>)
    ensures
        Json::Array(items)@ == JsonValue::Array(values(items@)),
{
    let whole = Json::Array(items);
    assert(whole@ is Array);
    let inner = whole@->Array_0;
    assert(inner.len() == items@.len());
    assert forall|i: int| 0 <= i < inner.len() implies inner[i] == values(items@)[i] by {
        assert(inner[i] == items@[i]@);
    }
    assert(inner =~= values(items@));
}

/// An object denotes the object of what its members denote.
pub proof fn lemma_object_value(members: Vec<(String, Json)>)
    ensures
        Json::Object(members)@ == JsonValue::Object(member_values(members@)),
{
    assert(Json::Object(members)@->Object_0 =~= member_values(members@));
}

} // verus!

//! JSON values as the controller's protocol uses them, and the reading of
//! single members out of a JSON object.

use crate::codec::{deserialize_int_as_bool, flag_of};
use crate::text::same_text;
use vstd::prelude::*;

verus! {

/// One `"key": value` pair of a JSON object.
#[derive(Debug)]
pub struct Member {
    pub key: String,
    pub value: Json,
}

/// A JSON value.
#[derive(Debug)]
pub enum Json {
    Null,
    Bool(bool),
    /// A number that is a 64-bit signed integer.
    Int(i64),
    /// Any other number, as it is written.
    Real(String),
    Str(String),
    Array(Vec<Json>),
    /// An object, its members in the order in which they are written.
    Object(Vec<Member>),
}

/// The mathematical value of a `Json`.
pub enum JsonView {
    Null,
    Bool(bool),
    Int(int),
    Real(Seq<char>),
    Str(Seq<char>),
    Array(Seq<JsonView>),
    Object(Seq<(Seq<char>, JsonView)>),
}

/// The mathematical value of a `Json`.
pub open spec fn value_of(j: Json) -> JsonView
    decreases j,
{
    match j {
        Json::Null => JsonView::Null,
        Json::Bool(b) => JsonView::Bool(b),
        Json::Int(i) => JsonView::Int(i as int),
        Json::Real(t) => JsonView::Real(t@),
        Json::Str(t) => JsonView::Str(t@),
        Json::Array(items) => JsonView::Array(
            Seq::new(
                items.len() as nat,
                |i: int|
                    if 0 <= i < items.len() {
                        value_of(items[i])
                    } else {
                        JsonView::Null
                    },
            ),
        ),
        Json::Object(members) => JsonView::Object(
            Seq::new(
                members.len() as nat,
                |i: int|
                    if 0 <= i < members.len() {
                        (members[i].key@, value_of(members[i].value))
                    } else {
                        (Seq::empty(), JsonView::Null)
                    },
            ),
        ),
    }
}

impl View for Json {
    type V = JsonView;

    open spec fn view(&self) -> JsonView {
        value_of(*self)
    }
}

/// The members of an object are the views of its members, in order.
pub proof fn lemma_object_view(members: Vec<Member>)
    ensures
        Json::Object(members)@ is Object,
        Json::Object(members)@->Object_0.len() == members.len(),
        forall|i: int|
            0 <= i < members.len() ==> #[trigger] Json::Object(members)@->Object_0[i] == (
                members[i].key@,
                members[i].value@,
            ),
{
}

/// The items of an array are the views of its items, in order.
pub proof fn lemma_array_view(items: Vec<Json>)
    ensures
        Json::Array(items)@ is Array,
        Json::Array(items)@->Array_0.len() == items.len(),
        forall|i: int|
            0 <= i < items.len() ==> #[trigger] Json::Array(items)@->Array_0[i] == items[i]@,
{
}

/// The object without members.
pub open spec fn empty_object() -> JsonView {
    JsonView::Object(Seq::empty())
}

/// `i` is the first member of `members` with the key `key`.
pub open spec fn is_first_member(
    members: Seq<(Seq<char>, JsonView)>,
    key: Seq<char>,
    i: int,
) -> bool {
    &&& 0 <= i < members.len()
    &&& members[i].0 == key
    &&& forall|k: int| 0 <= k < i ==> (#[trigger] members[k]).0 != key
}

/// The value of the member `key` of the object `j`: of the first one, where
/// several have that key. `None` where `j` has no such member or is no object.
#[verifier::opaque]
pub open spec fn lookup(j: JsonView, key: Seq<char>) -> Option<JsonView> {
    match j {
        JsonView::Object(members) => if exists|i: int| is_first_member(members, key, i) {
            Some(members[choose|i: int| is_first_member(members, key, i)].1)
        } else {
            None
        },
        _ => None,
    }
}

/// The member `key` of `j`, or the empty object where there is none.
pub open spec fn child_or_empty(j: JsonView, key: Seq<char>) -> JsonView {
    match lookup(j, key) {
        Some(child) => child,
        None => empty_object(),
    }
}

/// What is wrong with a value that was to be decoded.
#[derive(Clone, Copy, Debug, PartialEq, Eq, Structural)]
pub enum Fault {
    /// An object was expected.
    NotAnObject,
    /// A member that must be there is not.
    Missing,
    /// The value is of another type than the one expected.
    WrongType,
    /// The number does not fit the type of the field.
    OutOfRange,
    /// A flag holds an integer other than 0 and 1.
    InvalidBoolean,
}

/// Why a response could not be decoded: the member at fault, by its key, and
/// what is wrong with it.
#[derive(Clone, Copy, Debug, PartialEq, Eq)]
pub struct DecodeError {
    pub field: &'static str,
    pub fault: Fault,
}

/// The earlier of two possible errors.
pub open spec fn prior(first: Option<DecodeError>, second: Option<DecodeError>) -> Option<
    DecodeError,
> {
    if first is Some {
        first
    } else {
        second
    }
}

/// What is wrong with `j` where an object is expected.
pub open spec fn object_fault(j: JsonView, field: &'static str) -> Option<DecodeError> {
    if j is Object {
        None
    } else {
        Some(DecodeError { field, fault: Fault::NotAnObject })
    }
}

/// What is wrong with the member `key` of `obj` as an integer between `low`
/// and `high`. A missing member is a fault only where it is required.
pub open spec fn int_fault(
    obj: JsonView,
    key: &'static str,
    low: int,
    high: int,
    required: bool,
) -> Option<DecodeError> {
    match lookup(obj, key@) {
        None => if required {
            Some(DecodeError { field: key, fault: Fault::Missing })
        } else {
            None
        },
        Some(JsonView::Int(v)) => if low <= v <= high {
            None
        } else {
            Some(DecodeError { field: key, fault: Fault::OutOfRange })
        },
        Some(_) => Some(DecodeError { field: key, fault: Fault::WrongType }),
    }
}

/// The integer that the member `key` of `obj` holds; 0 where it holds none.
pub open spec fn int_value(obj: JsonView, key: Seq<char>) -> int {
    match lookup(obj, key) {
        Some(JsonView::Int(v)) => v,
        _ => 0,
    }
}

/// What is wrong with the member `key` of `obj` as an integer between `low`
/// and `high` that may also be missing or null.
pub open spec fn nullable_int_fault(obj: JsonView, key: &'static str, low: int, high: int) -> Option<
    DecodeError,
> {
    match lookup(obj, key@) {
        None => None,
        Some(JsonView::Null) => None,
        Some(JsonView::Int(v)) => if low <= v <= high {
            None
        } else {
            Some(DecodeError { field: key, fault: Fault::OutOfRange })
        },
        Some(_) => Some(DecodeError { field: key, fault: Fault::WrongType }),
    }
}

/// The integer that the member `key` of `obj` holds, if it holds one.
pub open spec fn nullable_int_value(obj: JsonView, key: Seq<char>) -> Option<int> {
    match lookup(obj, key) {
        Some(JsonView::Int(v)) => Some(v),
        _ => None,
    }
}

/// What is wrong with the member `key` of `obj` as a flag: an integer of 8
/// bits that is 0 or 1.
pub open spec fn flag_fault(obj: JsonView, key: &'static str, required: bool) -> Option<
    DecodeError,
> {
    prior(
        int_fault(obj, key, -128, 127, required),
        if lookup(obj, key@) is Some && flag_of(int_value(obj, key@)) is None {
            Some(DecodeError { field: key, fault: Fault::InvalidBoolean })
        } else {
            None
        },
    )
}

/// The flag that the member `key` of `obj` holds; off where it is missing.
pub open spec fn flag_value(obj: JsonView, key: Seq<char>) -> bool {
    int_value(obj, key) == 1
}

/// What is wrong with the member `key` of `obj` as a text.
pub open spec fn text_fault(obj: JsonView, key: &'static str, required: bool) -> Option<
    DecodeError,
> {
    match lookup(obj, key@) {
        None => if required {
            Some(DecodeError { field: key, fault: Fault::Missing })
        } else {
            None
        },
        Some(JsonView::Str(_)) => None,
        Some(_) => Some(DecodeError { field: key, fault: Fault::WrongType }),
    }
}

/// The text that the member `key` of `obj` holds; empty where it holds none.
pub open spec fn text_value(obj: JsonView, key: Seq<char>) -> Seq<char> {
    match lookup(obj, key) {
        Some(JsonView::Str(t)) => t,
        _ => Seq::empty(),
    }
}

/// What is wrong with the member `key` of `obj` as a text that may also be
/// missing or null.
pub open spec fn nullable_text_fault(obj: JsonView, key: &'static str) -> Option<DecodeError> {
    match lookup(obj, key@) {
        None => None,
        Some(JsonView::Null) => None,
        Some(JsonView::Str(_)) => None,
        Some(_) => Some(DecodeError { field: key, fault: Fault::WrongType }),
    }
}

/// The text that the member `key` of `obj` holds, if it holds one.
pub open spec fn nullable_text_value(obj: JsonView, key: Seq<char>) -> Option<Seq<char>> {
    match lookup(obj, key) {
        Some(JsonView::Str(t)) => Some(t),
        _ => None,
    }
}

/// Whether the member `key` of `obj` is there and not null.
pub open spec fn is_given(obj: JsonView, key: Seq<char>) -> bool {
    lookup(obj, key) is Some && !(lookup(obj, key)->0 is Null)
}

/// An object has at most one first member of a given key.
pub proof fn lemma_first_member_unique(
    members: Seq<(Seq<char>, JsonView)>,
    key: Seq<char>,
    i: int,
    j: int,
)
    requires
        is_first_member(members, key, i),
        is_first_member(members, key, j),
    ensures
        i == j,
{
    if i < j {
        assert(members[i].0 == key);
    } else if j < i {
        assert(members[j].0 == key);
    }
}

/// A member whose key no earlier member has is found under its key.
pub proof fn lemma_lookup_at(members: Seq<(Seq<char>, JsonView)>, i: int)
    requires
        0 <= i < members.len(),
        forall|k: int| 0 <= k < i ==> (#[trigger] members[k]).0 != members[i].0,
    ensures
        lookup(JsonView::Object(members), members[i].0) == Some(members[i].1),
{
    reveal(lookup);
    let key = members[i].0;
    assert(is_first_member(members, key, i));
    let found = choose|k: int| is_first_member(members, key, k);
    lemma_first_member_unique(members, key, found, i);
}

/// The empty object has no member.
pub proof fn lemma_empty_object(key: Seq<char>)
    ensures
        lookup(empty_object(), key) is None,
{
    reveal(lookup);
}

/// The JSON object without members.
pub fn empty_json_object() -> (r: Json)
    ensures
        r@ == empty_object(),
{
    let members: Vec<Member> = Vec::new();
    proof {
        lemma_object_view(members);
    }
    let r = Json::Object(members);
    assert(r@->Object_0 =~= Seq::empty());
    r
}

impl Json {
    /// The value of the member `key` of this object: of the first one, where
    /// several have that key.
    pub fn get(&self, key: &str) -> (r: Option<&Json>)
        ensures
            r matches Some(v) ==> lookup(self@, key@) == Some(v@),
            r is None ==> lookup(self@, key@) is None,
    {
        reveal(lookup);
        match self {
            Json::Object(members) => {
                let ghost pairs = Seq::new(
                    members.len() as nat,
                    |i: int|
                        if 0 <= i < members.len() {
                            (members[i].key@, members[i].value@)
                        } else {
                            (Seq::empty(), JsonView::Null)
                        },
                );
                proof {
                    lemma_object_view(*members);
                }
                assert(self@->Object_0 =~= pairs);
                let mut i: usize = 0;
                while i < members.len()
                    invariant
                        i <= members.len(),
                        self@ is Object,
                        self@->Object_0 == pairs,
                        pairs.len() == members.len(),
                        forall|k: int|
                            0 <= k < members.len() ==> #[trigger] pairs[k] == (
                                members[k].key@,
                                members[k].value@,
                            ),
                        forall|k: int| 0 <= k < i ==> (#[trigger] pairs[k]).0 != key@,
                    decreases members.len() - i,
                {
                    if same_text(members[i].key.as_str(), key) {
                        proof {
                            reveal(lookup);
                            assert(is_first_member(pairs, key@, i as int));
                            let found = choose|k: int| is_first_member(pairs, key@, k);
                            lemma_first_member_unique(pairs, key@, found, i as int);
                        }
                        return Some(&members[i].value);
                    }
                    i += 1;
                }
                None
            },
            _ => None,
        }
    }

    /// Reads the member `key` as an integer between `low` and `high`; a
    /// member that is missing and not required reads as 0.
    pub fn read_int(&self, key: &'static str, low: i64, high: i64, required: bool) -> (r: Result<
        i64,
        DecodeError,
    >)
        ensures
            match int_fault(self@, key, low as int, high as int, required) {
                Some(e) => r == Err::<i64, DecodeError>(e),
                None => r == Ok::<i64, DecodeError>(int_value(self@, key@) as i64),
            },
    {
        match self.get(key) {
            None => if required {
                Err(DecodeError { field: key, fault: Fault::Missing })
            } else {
                Ok(0)
            },
            Some(Json::Int(v)) => if low <= *v && *v <= high {
                Ok(*v)
            } else {
                Err(DecodeError { field: key, fault: Fault::OutOfRange })
            },
            Some(_) => Err(DecodeError { field: key, fault: Fault::WrongType }),
        }
    }

    /// Reads the member `key` as an integer between `low` and `high` that
    /// may be missing or null.
    pub fn read_nullable_int(&self, key: &'static str, low: i64, high: i64) -> (r: Result<
        Option<i64>,
        DecodeError,
    >)
        ensures
            match nullable_int_fault(self@, key, low as int, high as int) {
                Some(e) => r == Err::<Option<i64>, DecodeError>(e),
                None => r is Ok && r->Ok_0 == match nullable_int_value(self@, key@) {
                    Some(v) => Some(v as i64),
                    None => None,
                },
            },
    {
        match self.get(key) {
            None => Ok(None),
            Some(Json::Null) => Ok(None),
            Some(Json::Int(v)) => if low <= *v && *v <= high {
                Ok(Some(*v))
            } else {
                Err(DecodeError { field: key, fault: Fault::OutOfRange })
            },
            Some(_) => Err(DecodeError { field: key, fault: Fault::WrongType }),
        }
    }

    /// Reads the member `key` as a flag that is sent as 0 or 1; a member
    /// that is missing and not required reads as off.
    pub fn read_flag(&self, key: &'static str, required: bool) -> (r: Result<bool, DecodeError>)
        ensures
            match flag_fault(self@, key, required) {
                Some(e) => r == Err::<bool, DecodeError>(e),
                None => r == Ok::<bool, DecodeError>(flag_value(self@, key@)),
            },
    {
        let raw = self.read_int(key, -128, 127, required)?;
        match deserialize_int_as_bool(raw as i8) {
            Ok(flag) => Ok(flag),
            Err(_) => Err(DecodeError { field: key, fault: Fault::InvalidBoolean }),
        }
    }

    /// Reads the member `key` as a text; a member that is missing and not
    /// required reads as the empty text.
    pub fn read_text(&self, key: &'static str, required: bool) -> (r: Result<String, DecodeError>)
        ensures
            match text_fault(self@, key, required) {
                Some(e) => r == Err::<String, DecodeError>(e),
                None => r is Ok && r->Ok_0@ == text_value(self@, key@),
            },
    {
        match self.get(key) {
            None => if required {
                Err(DecodeError { field: key, fault: Fault::Missing })
            } else {
                Ok(String::new())
            },
            Some(Json::Str(t)) => Ok(t.clone()),
            Some(_) => Err(DecodeError { field: key, fault: Fault::WrongType }),
        }
    }

    /// Reads the member `key` as a text that may be missing or null.
    pub fn read_nullable_text(&self, key: &'static str) -> (r: Result<Option<String>, DecodeError>)
        ensures
            match nullable_text_fault(self@, key) {
                Some(e) => r == Err::<Option<String>, DecodeError>(e),
                None => r is Ok && match nullable_text_value(self@, key@) {
                    Some(t) => r->Ok_0 is Some && r->Ok_0->0@ == t,
                    None => r->Ok_0 is None,
                },
            },
    {
        match self.get(key) {
            None => Ok(None),
            Some(Json::Null) => Ok(None),
            Some(Json::Str(t)) => Ok(Some(t.clone())),
            Some(_) => Err(DecodeError { field: key, fault: Fault::WrongType }),
        }
    }

    /// Whether this value is an object.
    pub fn is_object(&self) -> (r: bool)
        ensures
            r == (self@ is Object),
    {
        match self {
            Json::Object(_) => true,
            _ => false,
        }
    }

    /// Whether this value is null.
    pub fn is_null(&self) -> (r: bool)
        ensures
            r == (self@ is Null),
    {
        match self {
            Json::Null => true,
            _ => false,
        }
    }
}

} // verus!

//! JSON values as plain data, with the mathematical value each one stands for.

use crate::text::str_eq;
use vstd::prelude::*;
use vstd::std_specs::vec::axiom_vec_index_decreases;

verus! {

/// A JSON number: an integer between `i64::MIN` and `u64::MAX`, or the decimal
/// text of a number that is no such integer.
///
/// `==` compares two numbers as they stand, variant by variant. The view of a
/// number is its value: an integer is the same number in either variant.
#[derive(Debug, PartialEq, Eq)]
pub enum JsonNumber {
    PosInt(u64),
    NegInt(i64),
    Float(String),
}

/// The mathematical value of a [`JsonNumber`].
pub enum NumberView {
    Int(int),
    Float(Seq<char>),
}

impl View for JsonNumber {
    type V = NumberView;

    open spec fn view(&self) -> NumberView {
        match self {
            JsonNumber::PosInt(u) => NumberView::Int(*u as int),
            JsonNumber::NegInt(i) => NumberView::Int(*i as int),
            JsonNumber::Float(text) => NumberView::Float(text@),
        }
    }
}

impl Clone for JsonNumber {
    fn clone(&self) -> (out: Self)
        ensures
            out@ == self@,
    {
        match self {
            JsonNumber::PosInt(u) => JsonNumber::PosInt(*u),
            JsonNumber::NegInt(i) => JsonNumber::NegInt(*i),
            JsonNumber::Float(text) => JsonNumber::Float(text.clone()),
        }
    }
}

/// A JSON value. An object holds its members in order.
#[derive(Debug, PartialEq, Eq)]
pub enum Json {
    Null,
    Bool(bool),
    Number(JsonNumber),
    String(String),
    Array(Vec<Json>),
    Object(Vec<(String, Json)>),
}

/// The members of a JSON object, in order: each a name and a value.
pub type Members = Seq<(Seq<char>, JsonView)>;

/// The mathematical value of a [`Json`].
pub enum JsonView {
    Null,
    Bool(bool),
    Number(NumberView),
    String(Seq<char>),
    Array(Seq<JsonView>),
    Object(Members),
}

/// The mathematical value of `json`: that of each part, in place.
pub open spec fn value_of(json: Json) -> JsonView
    decreases json,
{
    match json {
        Json::Null => JsonView::Null,
        Json::Bool(b) => JsonView::Bool(b),
        Json::Number(n) => JsonView::Number(n@),
        Json::String(s) => JsonView::String(s@),
        Json::Array(items) => JsonView::Array(
            Seq::new(
                items@.len(),
                |i: int|
                    if 0 <= i < items@.len() {
                        value_of(items@[i])
                    } else {
                        JsonView::Null
                    },
            ),
        ),
        Json::Object(members) => JsonView::Object(
            Seq::new(
                members@.len(),
                |i: int|
                    if 0 <= i < members@.len() {
                        (members@[i].0@, value_of(members@[i].1))
                    } else {
                        (Seq::empty(), JsonView::Null)
                    },
            ),
        ),
    }
}

impl View for Json {
    type V = JsonView;

    open spec fn view(&self) -> JsonView {
        value_of(*self)
    }
}

/// The values that a vector of JSON values holds.
pub open spec fn items_view(items: Seq<Json>) -> Seq<JsonView> {
    Seq::new(items.len(), |i: int| items[i]@)
}

/// The members that a vector of names and JSON values holds.
pub open spec fn members_view(members: Seq<(String, Json)>) -> Members {
    Seq::new(members.len(), |i: int| (members[i].0@, members[i].1@))
}

/// The value of the first member from `start` on that is named `name`.
pub open spec fn member_from(members: Members, name: Seq<char>, start: int) -> Option<JsonView>
    decreases members.len() - start,
{
    if start < 0 || start >= members.len() {
        None
    } else if members[start].0 == name {
        Some(members[start].1)
    } else {
        member_from(members, name, start + 1)
    }
}

/// The value of the first member named `name`.
pub open spec fn member(members: Members, name: Seq<char>) -> Option<JsonView> {
    member_from(members, name, 0)
}

/// Whether some member is named `name`.
pub open spec fn has_member(members: Members, name: Seq<char>) -> bool {
    exists|i: int| 0 <= i < members.len() && #[trigger] members[i].0 == name
}

/// Whether no two members share a name.
pub open spec fn names_distinct(members: Members) -> bool {
    forall|i: int, j: int|
        0 <= i < j < members.len() ==> #[trigger] members[i].0 != #[trigger] members[j].0
}

impl JsonView {
    /// The members of an object; none for any other value.
    pub open spec fn members(self) -> Members {
        match self {
            JsonView::Object(members) => members,
            _ => Seq::empty(),
        }
    }

    /// The value of the member `name` of an object.
    pub open spec fn get(self, name: Seq<char>) -> Option<JsonView> {
        match self {
            JsonView::Object(members) => member(members, name),
            _ => None,
        }
    }

    /// The text of a string.
    pub open spec fn as_str(self) -> Option<Seq<char>> {
        match self {
            JsonView::String(s) => Some(s),
            _ => None,
        }
    }

    /// The value of an integer that fits `u64`.
    pub open spec fn as_u64(self) -> Option<u64> {
        match self {
            JsonView::Number(NumberView::Int(n)) if 0 <= n <= u64::MAX => Some(n as u64),
            _ => None,
        }
    }

    /// The value of an integer that fits `i64`.
    pub open spec fn as_i64(self) -> Option<i64> {
        match self {
            JsonView::Number(NumberView::Int(n)) if i64::MIN <= n <= i64::MAX => Some(n as i64),
            _ => None,
        }
    }
}

/// A member's value is found from `start` exactly when a member from `start`
/// on has the name.
pub proof fn lemma_member_from_found(members: Members, name: Seq<char>, start: int)
    requires
        0 <= start,
    ensures
        member_from(members, name, start) is Some <==> exists|i: int|
            start <= i < members.len() && #[trigger] members[i].0 == name,
    decreases members.len() - start,
{
    if start < members.len() && members[start].0 != name {
        lemma_member_from_found(members, name, start + 1);
        if member_from(members, name, start + 1) is Some {
            let i = choose|i: int| start + 1 <= i < members.len() && #[trigger] members[i].0 == name;
            assert(start <= i < members.len() && members[i].0 == name);
        }
    } else if start < members.len() {
        assert(start <= start < members.len() && members[start].0 == name);
    }
}

/// `member` finds a value exactly when `has_member` holds.
pub proof fn lemma_member_found(members: Members, name: Seq<char>)
    ensures
        member(members, name) is Some <==> has_member(members, name),
{
    lemma_member_from_found(members, name, 0);
}

impl Json {
    /// The view of an array is the array of its items' views.
    pub proof fn lemma_array(items: Vec<Json>)
        ensures
            Json::Array(items)@ == JsonView::Array(items_view(items@)),
    {
        assert(Json::Array(items)@->Array_0 =~= items_view(items@));
    }

    /// The view of an object is the object of its members' views.
    pub proof fn lemma_object(members: Vec<(String, Json)>)
        ensures
            Json::Object(members)@ == JsonView::Object(members_view(members@)),
    {
        assert(Json::Object(members)@.members() =~= members_view(members@));
    }
}

impl Clone for Json {
    fn clone(&self) -> (out: Self)
        ensures
            out@ == self@,
        decreases self,
    {
        match self {
            Json::Null => Json::Null,
            Json::Bool(b) => Json::Bool(*b),
            Json::Number(n) => Json::Number(n.clone()),
            Json::String(s) => Json::String(s.clone()),
            Json::Array(items) => {
                let mut out: Vec<Json> = Vec::new();
                let mut i: usize = 0;
                while i < items.len()
                    invariant
                        *self == Json::Array(*items),
                        i <= items.len(),
                        out@.len() == i,
                        forall|k: int| 0 <= k < i ==> out@[k]@ == items@[k]@,
                    decreases items.len() - i,
                {
                    proof {
                        axiom_vec_index_decreases(*items, i as int);
                        assert(decreases_to!(*self => self->Array_0));
                    }
                    out.push(items[i].clone());
                    i += 1;
                }
                proof {
                    Json::lemma_array(out);
                    Json::lemma_array(*items);
                    assert(items_view(out@) =~= items_view(items@));
                }
                Json::Array(out)
            },
            Json::Object(members) => {
                let mut out: Vec<(String, Json)> = Vec::new();
                let mut i: usize = 0;
                while i < members.len()
                    invariant
                        *self == Json::Object(*members),
                        i <= members.len(),
                        out@.len() == i,
                        forall|k: int|
                            0 <= k < i ==> out@[k].0@ == members@[k].0@ && out@[k].1@
                                == members@[k].1@,
                    decreases members.len() - i,
                {
                    proof {
                        axiom_vec_index_decreases(*members, i as int);
                        assert(decreases_to!(*self => self->Object_0));
                    }
                    let name = members[i].0.clone();
                    let value = members[i].1.clone();
                    out.push((name, value));
                    i += 1;
                }
                proof {
                    Json::lemma_object(out);
                    Json::lemma_object(*members);
                    assert(members_view(out@) =~= members_view(members@));
                }
                Json::Object(out)
            },
        }
    }
}

impl Json {
    /// Whether the value is `null`.
    pub fn is_null(&self) -> (b: bool)
        ensures
            b == (self@ is Null),
    {
        match self {
            Json::Null => true,
            _ => false,
        }
    }

    /// Whether the value is an object.
    pub fn is_object(&self) -> (b: bool)
        ensures
            b == (self@ is Object),
    {
        match self {
            Json::Object(_) => true,
            _ => false,
        }
    }

    /// The members of an object.
    pub fn as_object(&self) -> (found: Option<&Vec<(String, Json)>>)
        ensures
            match found {
                Some(members) => *self == Json::Object(*members),
                None => !(self@ is Object),
            },
    {
        match self {
            Json::Object(members) => Some(members),
            _ => None,
        }
    }

    /// The text of a string.
    pub fn as_str(&self) -> (found: Option<&str>)
        ensures
            match found {
                Some(s) => self@.as_str() == Some(s@),
                None => self@.as_str() is None,
            },
    {
        match self {
            Json::String(s) => Some(s.as_str()),
            _ => None,
        }
    }

    /// The value of an integer that fits `u64`.
    pub fn as_u64(&self) -> (found: Option<u64>)
        ensures
            found == self@.as_u64(),
    {
        match self {
            Json::Number(JsonNumber::PosInt(u)) => Some(*u),
            Json::Number(JsonNumber::NegInt(i)) => if *i >= 0 {
                Some(*i as u64)
            } else {
                None
            },
            _ => None,
        }
    }

    /// The value of an integer that fits `i64`.
    pub fn as_i64(&self) -> (found: Option<i64>)
        ensures
            found == self@.as_i64(),
    {
        match self {
            Json::Number(JsonNumber::PosInt(u)) => if *u <= i64::MAX as u64 {
                Some(*u as i64)
            } else {
                None
            },
            Json::Number(JsonNumber::NegInt(i)) => Some(*i),
            _ => None,
        }
    }

    /// The value of the first member named `name`, where the value is an
    /// object that has one.
    pub fn get(&self, name: &str) -> (found: Option<&Json>)
        ensures
            match found {
                Some(value) => self@.get(name@) == Some(value@),
                None => self@.get(name@) is None,
            },
    {
        match self {
            Json::Object(members) => {
                proof {
                    Json::lemma_object(*members);
                }
                let ghost all = members_view(members@);
                let mut i: usize = 0;
                while i < members.len()
                    invariant
                        i <= members.len(),
                        self@ == JsonView::Object(all),
                        all == members_view(members@),
                        member(all, name@) == member_from(all, name@, i as int),
                    decreases members.len() - i,
                {
                    if str_eq(members[i].0.as_str(), name) {
                        return Some(&members[i].1);
                    }
                    i += 1;
                }
                None
            },
            _ => None,
        }
    }

    /// Whether the value is an object of which no two members share a name.
    /// Any other value has no members, so none that share one.
    pub fn has_distinct_names(&self) -> (b: bool)
        ensures
            b == names_distinct(self@.members()),
    {
        match self {
            Json::Object(members) => {
                proof {
                    Json::lemma_object(*members);
                }
                let ghost all = members_view(members@);
                let mut j: usize = 0;
                while j < members.len()
                    invariant
                        j <= members.len(),
                        self@ == JsonView::Object(all),
                        all == members_view(members@),
                        forall|a: int, b: int|
                            0 <= a < b < j ==> #[trigger] all[a].0 != #[trigger] all[b].0,
                    decreases members.len() - j,
                {
                    let mut i: usize = 0;
                    while i < j
                        invariant
                            i <= j < members.len(),
                            self@ == JsonView::Object(all),
                        all == members_view(members@),
                            forall|a: int| 0 <= a < i ==> #[trigger] all[a].0 != all[j as int].0,
                        decreases j - i,
                    {
                        if str_eq(members[i].0.as_str(), members[j].0.as_str()) {
                            assert(all[i as int].0 == all[j as int].0);
                            return false;
                        }
                        i += 1;
                    }
                    j += 1;
                }
                true
            },
            _ => true,
        }
    }
}

} // verus!

//! A plain JSON value model used for request sub-objects and response payloads.

use crate::text::same_text;
use vstd::prelude::*;
use vstd::string::*;

verus! {

/// A JSON number.  Integers are held exactly; any other number is carried as
/// its decimal literal.
#[derive(Clone, Debug, PartialEq, Eq)]
pub enum JsonNumber {
    Unsigned(u64),
    Signed(i64),
    Literal(String),
}

/// A JSON value.  Object members keep the order in which they were added.
#[derive(Debug, PartialEq, Eq)]
pub enum Json {
    Null,
    Bool(bool),
    Number(JsonNumber),
    Str(String),
    Array(Vec<Json>),
    Object(Vec<(String, Json)>),
}

/// Mathematical model of a JSON number.
pub enum NumberView {
    Int(int),
    Literal(Seq<char>),
}

/// Mathematical model of a JSON value.
pub enum JsonView {
    Null,
    Bool(bool),
    Number(NumberView),
    Str(Seq<char>),
    Array(Seq<JsonView>),
    Object(Seq<(Seq<char>, JsonView)>),
}

impl View for JsonNumber {
    type V = NumberView;

    open spec fn view(&self) -> NumberView {
        match self {
            JsonNumber::Unsigned(n) => NumberView::Int(*n as int),
            JsonNumber::Signed(n) => NumberView::Int(*n as int),
            JsonNumber::Literal(s) => NumberView::Literal(s@),
        }
    }
}

/// The model of a value.
pub open spec fn json_view(j: Json) -> JsonView
    decreases j,
{
    match j {
        Json::Null => JsonView::Null,
        Json::Bool(b) => JsonView::Bool(b),
        Json::Number(n) => JsonView::Number(n@),
        Json::Str(s) => JsonView::Str(s@),
        Json::Array(items) => JsonView::Array(
            Seq::new(
                items@.len(),
                |i: int|
                    if 0 <= i < items@.len() {
                        json_view(items@[i])
                    } else {
                        JsonView::Null
                    },
            ),
        ),
        Json::Object(members) => JsonView::Object(
            Seq::new(
                members@.len(),
                |i: int|
                    if 0 <= i < members@.len() {
                        (members@[i].0@, json_view(members@[i].1))
                    } else {
                        (Seq::empty(), JsonView::Null)
                    },
            ),
        ),
    }
}

impl View for Json {
    type V = JsonView;

    open spec fn view(&self) -> JsonView {
        json_view(*self)
    }
}

/// The models of a run of values.
pub open spec fn item_views(items: Seq<Json>) -> Seq<JsonView> {
    Seq::new(items.len(), |i: int| items[i]@)
}

/// The models of a run of object members.
pub open spec fn member_views(members: Seq<(String, Json)>) -> Seq<(Seq<char>, JsonView)> {
    Seq::new(members.len(), |i: int| (members[i].0@, members[i].1@))
}

/// The index of the first member named `key` at or after `start`.
pub open spec fn position_from(
    members: Seq<(Seq<char>, JsonView)>,
    key: Seq<char>,
    start: int,
) -> Option<int>
    decreases members.len() - start,
{
    if start < 0 || start >= members.len() {
        None
    } else if members[start].0 == key {
        Some(start)
    } else {
        position_from(members, key, start + 1)
    }
}

/// The index of the first member named `key`.
pub open spec fn position(members: Seq<(Seq<char>, JsonView)>, key: Seq<char>) -> Option<int> {
    position_from(members, key, 0)
}

/// The value of the first member named `key`.
pub open spec fn lookup(members: Seq<(Seq<char>, JsonView)>, key: Seq<char>) -> Option<JsonView> {
    match position(members, key) {
        Some(i) => Some(members[i].1),
        None => None,
    }
}

/// The members after binding `key` to `value`: the first member of that name
/// is replaced where it stands, and a new name goes to the end.
pub open spec fn inserted(
    members: Seq<(Seq<char>, JsonView)>,
    key: Seq<char>,
    value: JsonView,
) -> Seq<(Seq<char>, JsonView)> {
    match position(members, key) {
        Some(i) => members.update(i, (key, value)),
        None => members.push((key, value)),
    }
}

/// A found position is in range, names the key, and nothing before it does.
pub proof fn lemma_position(members: Seq<(Seq<char>, JsonView)>, key: Seq<char>, start: int)
    requires
        0 <= start,
    ensures
        match position_from(members, key, start) {
            Some(i) => start <= i < members.len() && members[i].0 == key && forall|j: int|
                start <= j < i ==> (#[trigger] members[j]).0 != key,
            None => forall|j: int| start <= j < members.len() ==> (#[trigger] members[j]).0 != key,
        },
    decreases members.len() - start,
{
    if start < members.len() && members[start].0 != key {
        lemma_position(members, key, start + 1);
    }
}

impl Json {
    pub fn boolean(b: bool) -> (j: Json)
        ensures
            j@ == JsonView::Bool(b),
    {
        Json::Bool(b)
    }

    pub fn unsigned(n: u64) -> (j: Json)
        ensures
            j@ == JsonView::Number(NumberView::Int(n as int)),
    {
        Json::Number(JsonNumber::Unsigned(n))
    }

    pub fn signed(n: i64) -> (j: Json)
        ensures
            j@ == JsonView::Number(NumberView::Int(n as int)),
    {
        Json::Number(JsonNumber::Signed(n))
    }

    pub fn text(s: String) -> (j: Json)
        ensures
            j@ == JsonView::Str(s@),
    {
        Json::Str(s)
    }

    pub fn text_of(s: &str) -> (j: Json)
        ensures
            j@ == JsonView::Str(s@),
    {
        Json::Str(String::from_str(s))
    }

    /// A string, or `null` where there is none.
    pub fn optional_text(s: Option<String>) -> (j: Json)
        ensures
            j@ == match s {
                Some(t) => JsonView::Str(t@),
                None => JsonView::Null,
            },
    {
        match s {
            Some(t) => Json::Str(t),
            None => Json::Null,
        }
    }

    /// The value, or `null` where there is none.
    pub fn optional(v: Option<Json>) -> (j: Json)
        ensures
            j@ == match v {
                Some(inner) => inner@,
                None => JsonView::Null,
            },
    {
        match v {
            Some(inner) => inner,
            None => Json::Null,
        }
    }

    pub fn array(items: Vec<Json>) -> (j: Json)
        ensures
            j == Json::Array(items),
            j@ == JsonView::Array(item_views(items@)),
    {
        let j = Json::Array(items);
        assert(j@->Array_0 =~= item_views(items@));
        j
    }

    pub fn object(members: Vec<(String, Json)>) -> (j: Json)
        ensures
            j == Json::Object(members),
            j@ == JsonView::Object(member_views(members@)),
    {
        proof {
            lemma_object_view(members);
        }
        Json::Object(members)
    }
}

/// Where the first member named `key` stands.
pub fn find_member(members: &Vec<(String, Json)>, key: &str) -> (r: Option<usize>)
    ensures
        match r {
            Some(i) => i < members@.len() && position(member_views(members@), key@) == Some(
                i as int,
            ),
            None => position(member_views(members@), key@) is None,
        },
{
    let ghost model = member_views(members@);
    let mut i: usize = 0;
    while i < members.len()
        invariant
            i <= members.len(),
            model == member_views(members@),
            position(model, key@) == position_from(model, key@, i as int),
        decreases members.len() - i,
    {
        if same_text(members[i].0.as_str(), key) {
            return Some(i);
        }
        i = i + 1;
    }
    None
}

/// Binds `key` to `value`: the first member of that name is replaced where it
/// stands, and a new name goes to the end.
pub fn insert_member(members: &mut Vec<(String, Json)>, key: String, value: Json)
    ensures
        member_views(final(members)@) == inserted(member_views(old(members)@), key@, value@),
{
    let found = find_member(members, key.as_str());
    proof {
        lemma_position(member_views(members@), key@, 0);
    }
    match found {
        Some(i) => {
            members.set(i, (key, value));
            assert(member_views(members@) =~= inserted(
                member_views(old(members)@),
                key@,
                value@,
            ));
        },
        None => {
            members.push((key, value));
            assert(member_views(members@) =~= inserted(
                member_views(old(members)@),
                key@,
                value@,
            ));
        },
    }
}

/// The model of an array is the run of its elements' models.
pub proof fn lemma_array_view(items: Vec<Json>)
    ensures
        Json::Array(items)@ == JsonView::Array(item_views(items@)),
{
    assert(Json::Array(items)@->Array_0 =~= item_views(items@));
}

/// The model of an object is the run of its members' models.
pub proof fn lemma_object_view(members: Vec<(String, Json)>)
    ensures
        Json::Object(members)@ == JsonView::Object(member_views(members@)),
{
    let built = Json::Object(members)@->Object_0;
    let expected = member_views(members@);
    assert(built.len() == members@.len());
    assert forall|i: int| 0 <= i < built.len() implies built[i] == expected[i] by {
        assert(built[i].0 == members@[i].0@);
        assert(built[i].1 == members@[i].1@);
    }
    assert(built =~= expected);
}

impl JsonNumber {
    /// A copy of the number.
    pub fn duplicate(&self) -> (copy: JsonNumber)
        ensures
            copy@ == self@,
    {
        match self {
            JsonNumber::Unsigned(n) => JsonNumber::Unsigned(*n),
            JsonNumber::Signed(n) => JsonNumber::Signed(*n),
            JsonNumber::Literal(s) => JsonNumber::Literal(s.clone()),
        }
    }
}

impl Json {
    /// A deep copy of the value.
    pub fn duplicate(&self) -> (copy: Json)
        ensures
            copy@ == self@,
        decreases self,
    {
        match self {
            Json::Null => Json::Null,
            Json::Bool(b) => Json::Bool(*b),
            Json::Number(n) => Json::Number(n.duplicate()),
            Json::Str(s) => Json::Str(s.clone()),
            Json::Array(items) => {
                let mut copies: Vec<Json> = Vec::new();
                let mut i: usize = 0;
                while i < items.len()
                    invariant
                        i <= items@.len(),
                        copies@.len() == i,
                        *self is Array,
                        self->Array_0 == *items,
                        forall|k: int| 0 <= k < i ==> (#[trigger] copies@[k])@ == items@[k]@,
                    decreases items@.len() - i,
                {
                    proof {
                        assert(decreases_to!(*self => self->Array_0));
                        assert(decreases_to!(*items => items@));
                        assert(decreases_to!(items@ => items@[i as int]));
                    }
                    let copy = items[i].duplicate();
                    copies.push(copy);
                    i = i + 1;
                }
                let copy = Json::array(copies);
                assert(copy@->Array_0 =~= self@->Array_0);
                copy
            },
            Json::Object(members) => {
                let mut copies: Vec<(String, Json)> = Vec::new();
                let mut i: usize = 0;
                while i < members.len()
                    invariant
                        i <= members@.len(),
                        copies@.len() == i,
                        *self is Object,
                        self->Object_0 == *members,
                        forall|k: int|
                            0 <= k < i ==> (#[trigger] copies@[k]).0@ == members@[k].0@
                                && copies@[k].1@ == members@[k].1@,
                    decreases members@.len() - i,
                {
                    proof {
                        assert(decreases_to!(*self => self->Object_0));
                        assert(decreases_to!(*members => members@));
                        assert(decreases_to!(members@ => members@[i as int]));
                        assert(decreases_to!(members@[i as int] => members@[i as int].1));
                    }
                    let value = members[i].1.duplicate();
                    copies.push((members[i].0.clone(), value));
                    i = i + 1;
                }
                let copy = Json::object(copies);
                assert(copy@->Object_0 =~= self@->Object_0);
                copy
            },
        }
    }
}

} // verus!

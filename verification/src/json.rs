//! JSON values: what the server sends, and what a request carries.

use vstd::prelude::*;
use vstd::string::*;
use crate::text;

verus! {

/// A JSON value. An object keeps its members in a list; where a key occurs more
/// than once the first one counts.
#[derive(Debug)]
pub enum Json {
    Null,
    Bool(bool),
    /// A number, in the text that stands for it: of a parsed document, the one that
    /// `serde_json::Number` displays.
    Number(String),
    /// A number, as the bits of an IEEE 754 double.
    Double(u64),
    Text(String),
    Array(Vec<Json>),
    Object(Vec<(String, Json)>),
}

/// What a JSON value says.
pub enum JsonTree {
    Null,
    Bool(bool),
    Number(Seq<char>),
    Double(u64),
    Text(Seq<char>),
    Array(Seq<JsonTree>),
    Object(Seq<(Seq<char>, JsonTree)>),
}

impl Json {
    /// What the value says.
    pub open spec fn tree(self) -> JsonTree
        decreases self,
    {
        match self {
            Json::Null => JsonTree::Null,
            Json::Bool(b) => JsonTree::Bool(b),
            Json::Number(s) => JsonTree::Number(s@),
            Json::Double(bits) => JsonTree::Double(bits),
            Json::Text(s) => JsonTree::Text(s@),
            Json::Array(items) => JsonTree::Array(trees(items@)),
            Json::Object(members) => JsonTree::Object(members_of(members@)),
        }
    }
}

/// What each of the values says.
pub open spec fn trees(items: Seq<Json>) -> Seq<JsonTree>
    decreases items,
{
    Seq::new(
        items.len(),
        |i: int|
            if 0 <= i < items.len() {
                items[i].tree()
            } else {
                JsonTree::Null
            },
    )
}

/// What each of the members says.
pub open spec fn members_of(members: Seq<(String, Json)>) -> Seq<(Seq<char>, JsonTree)>
    decreases members,
{
    Seq::new(
        members.len(),
        |i: int|
            (
                members[i].0@,
                if 0 <= i < members.len() {
                    members[i].1.tree()
                } else {
                    JsonTree::Null
                },
            ),
    )
}

/// A parsed JSON document.
#[verifier::external_type_specification]
#[verifier::external_body]
pub struct ExValue(serde_json::Value);

/// Why a text is no JSON document.
#[verifier::external_type_specification]
#[verifier::external_body]
pub struct ExError(serde_json::Error);

/// What a `serde_json::Value` holds.
pub uninterp spec fn value_tree(value: serde_json::Value) -> JsonTree;

/// What `serde_json::from_str` reads from a text, or nothing where it refuses
/// the text.
pub uninterp spec fn document(source: Seq<char>) -> Option<JsonTree>;

/// `serde_json::from_str` into a `serde_json::Value`. Its result depends on the
/// text alone; what JSON texts it accepts, and what each one says, is left to
/// the name `document`.
#[verifier::external_body]
fn read_value(source: &str) -> (r: Result<serde_json::Value, serde_json::Error>)
    ensures
        r matches Ok(value) ==> document(source@) == Some(value_tree(value)),
        r is Err ==> document(source@) is None,
{
    serde_json::from_str::<serde_json::Value>(source)
}

/// The outermost layer of a parsed document.
enum Layer<'a> {
    Null,
    Bool(bool),
    /// A number, in the text that `serde_json::Number` displays.
    Number(String),
    Text(String),
    Array(Vec<&'a serde_json::Value>),
    Object(Vec<(&'a String, &'a serde_json::Value)>),
}

impl<'a> Layer<'a> {
    /// What the document says.
    spec fn tree(self) -> JsonTree {
        match self {
            Layer::Null => JsonTree::Null,
            Layer::Bool(b) => JsonTree::Bool(b),
            Layer::Number(s) => JsonTree::Number(s@),
            Layer::Text(s) => JsonTree::Text(s@),
            Layer::Array(items) => JsonTree::Array(
                Seq::new(items@.len(), |i: int| value_tree(*items@[i])),
            ),
            Layer::Object(members) => JsonTree::Object(
                Seq::new(members@.len(), |i: int| (members@[i].0@, value_tree(*members@[i].1))),
            ),
        }
    }
}

/// The variants of `serde_json::Value`, told apart: what stands in the outermost
/// layer of a value. A number is the text that `serde_json::Number` displays, and
/// the members of an object come in the order of its map.
#[verifier::external_body]
fn outermost(value: &serde_json::Value) -> (r: Layer<'_>)
    ensures
        r.tree() == value_tree(*value),
{
    match value {
        serde_json::Value::Null => Layer::Null,
        serde_json::Value::Bool(b) => Layer::Bool(*b),
        serde_json::Value::Number(n) => Layer::Number(n.to_string()),
        serde_json::Value::String(s) => Layer::Text(s.clone()),
        serde_json::Value::Array(items) => Layer::Array(items.iter().collect()),
        serde_json::Value::Object(members) => Layer::Object(members.iter().collect()),
    }
}

/// Turns a parsed document into a `Json`, layer by layer.
fn from_value(value: &serde_json::Value) -> (r: Json)
    ensures
        r.tree() == value_tree(*value),
    decreases value_tree(*value),
{
    match outermost(value) {
        Layer::Null => Json::Null,
        Layer::Bool(b) => Json::Bool(b),
        Layer::Number(s) => Json::Number(s),
        Layer::Text(s) => Json::Text(s),
        Layer::Array(items) => {
            let ghost all = value_tree(*value);
            let mut out: Vec<Json> = Vec::new();
            let mut i: usize = 0;
            while i < items.len()
                invariant
                    i <= items@.len(),
                    all == value_tree(*value),
                    all == Layer::Array(items).tree(),
                    out@.len() == i,
                    forall|k: int|
                        0 <= k < i ==> (#[trigger] out@[k]).tree() == value_tree(*items@[k]),
                decreases items@.len() - i,
            {
                assert(all->Array_0[i as int] == value_tree(*items@[i as int]));
                assert(decreases_to!(all => all->Array_0[i as int]));
                out.push(from_value(items[i]));
                i = i + 1;
            }
            assert(trees(out@) == all->Array_0);
            Json::Array(out)
        },
        Layer::Object(members) => {
            let ghost all = value_tree(*value);
            let mut out: Vec<(String, Json)> = Vec::new();
            let mut i: usize = 0;
            while i < members.len()
                invariant
                    i <= members@.len(),
                    all == value_tree(*value),
                    all == Layer::Object(members).tree(),
                    out@.len() == i,
                    forall|k: int|
                        #![trigger out@[k]]
                        0 <= k < i ==> out@[k].0@ == members@[k].0@ && out@[k].1.tree()
                            == value_tree(*members@[k].1),
                decreases members@.len() - i,
            {
                assert(all->Object_0[i as int].1 == value_tree(*members@[i as int].1));
                assert(decreases_to!(all => all->Object_0[i as int].1));
                out.push((members[i].0.clone(), from_value(members[i].1)));
                i = i + 1;
            }
            assert(members_of(out@) == all->Object_0);
            Json::Object(out)
        },
    }
}

/// Reads a JSON document.
pub fn parse(source: &str) -> (r: Option<Json>)
    ensures
        r is Some == document(source@) is Some,
        r matches Some(value) ==> Some(value.tree()) == document(source@),
{
    match read_value(source) {
        Ok(value) => Some(from_value(&value)),
        Err(_) => None,
    }
}

/// Where the first member called `key` stands, or the number of members.
pub open spec fn position(members: Seq<(Seq<char>, JsonTree)>, key: Seq<char>) -> int
    decreases members.len(),
{
    if members.len() == 0 || members[0].0 == key {
        0
    } else {
        1 + position(members.skip(1), key)
    }
}

impl JsonTree {
    /// The member of an object called `key`; null where there is none.
    pub open spec fn member(self, key: Seq<char>) -> JsonTree {
        match self {
            JsonTree::Object(members) => if position(members, key) < members.len() {
                members[position(members, key)].1
            } else {
                JsonTree::Null
            },
            _ => JsonTree::Null,
        }
    }

    /// Whether it is an object with a member called `key`.
    pub open spec fn has_member(self, key: Seq<char>) -> bool {
        match self {
            JsonTree::Object(members) => position(members, key) < members.len(),
            _ => false,
        }
    }

    /// The element of an array at `i`.
    pub open spec fn element(self, i: int) -> Option<JsonTree> {
        match self {
            JsonTree::Array(items) => if 0 <= i < items.len() {
                Some(items[i])
            } else {
                None
            },
            _ => None,
        }
    }

    /// The text of a string.
    pub open spec fn text(self) -> Option<Seq<char>> {
        match self {
            JsonTree::Text(s) => Some(s),
            _ => None,
        }
    }
}

/// The members with the one called `key` set to `value`: in place where there is
/// one, else at the end.
pub open spec fn with_member(
    members: Seq<(Seq<char>, JsonTree)>,
    key: Seq<char>,
    value: JsonTree,
) -> Seq<(Seq<char>, JsonTree)> {
    if position(members, key) < members.len() {
        members.update(position(members, key), (key, value))
    } else {
        members.push((key, value))
    }
}

/// The members after all of `more` were set, one after the other.
pub open spec fn with_members(
    members: Seq<(Seq<char>, JsonTree)>,
    more: Seq<(Seq<char>, JsonTree)>,
) -> Seq<(Seq<char>, JsonTree)>
    decreases more.len(),
{
    if more.len() == 0 {
        members
    } else {
        with_member(with_members(members, more.drop_last()), more.last().0, more.last().1)
    }
}

/// The first member called `key` is where `position` says.
pub proof fn lemma_position(members: Seq<(Seq<char>, JsonTree)>, key: Seq<char>)
    ensures
        0 <= position(members, key) <= members.len(),
        position(members, key) < members.len() ==> members[position(members, key)].0 == key,
        forall|i: int|
            #![trigger members[i]]
            0 <= i < position(members, key) ==> members[i].0 != key,
    decreases members.len(),
{
    if members.len() > 0 && members[0].0 != key {
        lemma_position(members.skip(1), key);
        assert forall|i: int|
            #![trigger members[i]]
            0 <= i < position(members, key) implies members[i].0 != key by {
            if i > 0 {
                assert(members.skip(1)[i - 1] == members[i]);
            }
        }
        let n = position(members.skip(1), key);
        if n < members.skip(1).len() {
            assert(members.skip(1)[n] == members[n + 1]);
        }
    }
}

/// Where the member called `key` stands among `members`.
fn locate(members: &Vec<(String, Json)>, key: &str) -> (r: usize)
    ensures
        r == position(members_of(members@), key@),
        r <= members@.len(),
{
    let ghost all = members_of(members@);
    proof {
        lemma_position(all, key@);
    }
    let mut i: usize = 0;
    while i < members.len() && !text::same(members[i].0.as_str(), key)
        invariant
            i <= members@.len(),
            all == members_of(members@),
            forall|k: int| #![trigger all[k]] 0 <= k < i ==> all[k].0 != key@,
        decreases members@.len() - i,
    {
        assert(all[i as int].0 == members@[i as int].0@);
        i = i + 1;
    }
    proof {
        let n = position(all, key@);
        if i < members@.len() {
            assert(all[i as int].0 == members@[i as int].0@);
        }
        if n < i {
            assert(all[n].0 == key@);
        }
    }
    i
}

impl Json {
    /// The member called `key`.
    pub fn member(&self, key: &str) -> (r: Option<&Json>)
        ensures
            r is Some == self.tree().has_member(key@),
            r matches Some(value) ==> value.tree() == self.tree().member(key@),
    {
        match self {
            Json::Object(members) => {
                let i: usize = locate(members, key);
                if i < members.len() {
                    assert(members_of(members@)[i as int].1 == members@[i as int].1.tree());
                    Some(&members[i].1)
                } else {
                    None
                }
            },
            _ => None,
        }
    }

    /// The element at `i`.
    pub fn element(&self, i: usize) -> (r: Option<&Json>)
        ensures
            r is Some == self.tree().element(i as int) is Some,
            r matches Some(value) ==> Some(value.tree()) == self.tree().element(i as int),
    {
        match self {
            Json::Array(items) => if i < items.len() {
                assert(trees(items@)[i as int] == items@[i as int].tree());
                Some(&items[i])
            } else {
                None
            },
            _ => None,
        }
    }

    /// The text of a string.
    pub fn text(&self) -> (r: Option<&str>)
        ensures
            r is Some == self.tree().text() is Some,
            r matches Some(s) ==> Some(s@) == self.tree().text(),
    {
        match self {
            Json::Text(s) => Some(s.as_str()),
            _ => None,
        }
    }
}

impl Clone for Json {
    fn clone(&self) -> (r: Self)
        ensures
            r.tree() == self.tree(),
        decreases self,
    {
        match self {
            Json::Null => Json::Null,
            Json::Bool(b) => Json::Bool(*b),
            Json::Number(s) => Json::Number(s.clone()),
            Json::Double(bits) => Json::Double(*bits),
            Json::Text(s) => Json::Text(s.clone()),
            Json::Array(items) => {
                let mut out: Vec<Json> = Vec::new();
                let mut i: usize = 0;
                while i < items.len()
                    invariant
                        i <= items@.len(),
                        *self == Json::Array(*items),
                        out@.len() == i,
                        forall|k: int|
                            0 <= k < i ==> (#[trigger] out@[k]).tree() == items@[k].tree(),
                    decreases items@.len() - i,
                {
                    assert(decreases_to!(*self => self->Array_0@[i as int]));
                    out.push(items[i].clone());
                    i = i + 1;
                }
                assert(trees(out@) == trees(items@));
                Json::Array(out)
            },
            Json::Object(members) => {
                let mut out: Vec<(String, Json)> = Vec::new();
                let mut i: usize = 0;
                while i < members.len()
                    invariant
                        i <= members@.len(),
                        *self == Json::Object(*members),
                        out@.len() == i,
                        forall|k: int|
                            #![trigger out@[k]]
                            0 <= k < i ==> out@[k].0@ == members@[k].0@ && out@[k].1.tree()
                                == members@[k].1.tree(),
                    decreases members@.len() - i,
                {
                    assert(decreases_to!(*self => self->Object_0@[i as int].1));
                    out.push((members[i].0.clone(), members[i].1.clone()));
                    i = i + 1;
                }
                assert(members_of(out@) == members_of(members@));
                Json::Object(out)
            },
        }
    }
}

/// Sets the member called `key`.
pub fn set_member(members: &mut Vec<(String, Json)>, key: &str, value: Json)
    ensures
        members_of(final(members)@) == with_member(members_of(old(members)@), key@, value.tree()),
{
    let ghost before = members_of(members@);
    let i: usize = locate(members, key);
    let entry = (key.to_string(), value);
    if i < members.len() {
        members.set(i, entry);
    } else {
        members.push(entry);
    }
    assert(members_of(members@) == with_member(before, key@, value.tree()));
}

/// Sets all of `more`, one after the other.
pub fn set_members(members: &mut Vec<(String, Json)>, more: &Vec<(String, Json)>)
    ensures
        members_of(final(members)@) == with_members(members_of(old(members)@), members_of(more@)),
{
    let ghost first = members_of(members@);
    let ghost all = members_of(more@);
    let mut i: usize = 0;
    assert(all.take(0) == Seq::<(Seq<char>, JsonTree)>::empty());
    while i < more.len()
        invariant
            i <= more@.len(),
            all == members_of(more@),
            members_of(members@) == with_members(first, all.take(i as int)),
        decreases more@.len() - i,
    {
        assert(all[i as int] == (more@[i as int].0@, more@[i as int].1.tree()));
        assert(all.take(i + 1).drop_last() == all.take(i as int));
        set_member(members, more[i].0.as_str(), more[i].1.clone());
        i = i + 1;
    }
    assert(all.take(i as int) == all);
}

/// A member that was set reads back, and the others stay as they were.
pub proof fn law_set_member(
    members: Seq<(Seq<char>, JsonTree)>,
    key: Seq<char>,
    value: JsonTree,
    other: Seq<char>,
)
    ensures
        JsonTree::Object(with_member(members, key, value)).member(key) == value,
        other != key ==> JsonTree::Object(with_member(members, key, value)).member(other) == JsonTree::Object(
            members,
        ).member(other),
{
    let after = with_member(members, key, value);
    lemma_position(members, key);
    lemma_position(members, other);
    lemma_position(after, key);
    lemma_position(after, other);
    let n = position(members, key);
    assert(after[n] == (key, value));
    let a = position(after, key);
    if a < n {
        assert(after[a] == members[a]);
    }
    let b = position(members, other);
    let c = position(after, other);
    if other != key && b < members.len() {
        assert(after[b] == members[b]);
    }
    if c < after.len() && c != n {
        assert(after[c] == members[c]);
    }
}

/// After several members were set, the last one called `key` counts; a key that
/// was not set keeps its value.
pub proof fn law_set_members(
    members: Seq<(Seq<char>, JsonTree)>,
    more: Seq<(Seq<char>, JsonTree)>,
    key: Seq<char>,
)
    ensures
        (forall|i: int| 0 <= i < more.len() ==> (#[trigger] more[i]).0 != key)
            ==> JsonTree::Object(with_members(members, more)).member(key) == JsonTree::Object(
            members,
        ).member(key),
        forall|i: int|
            0 <= i < more.len() && (#[trigger] more[i]).0 == key && (forall|j: int|
                i < j < more.len() ==> (#[trigger] more[j]).0 != key) ==> JsonTree::Object(
                with_members(members, more),
            ).member(key) == more[i].1,
    decreases more.len(),
{
    if more.len() > 0 {
        let init = more.drop_last();
        let last = more.last();
        law_set_members(members, init, key);
        if last.0 == key {
            law_set_member(with_members(members, init), key, last.1, key);
        } else {
            law_set_member(with_members(members, init), last.0, last.1, key);
        }
        if forall|i: int| 0 <= i < more.len() ==> (#[trigger] more[i]).0 != key {
            assert forall|i: int| 0 <= i < init.len() implies (#[trigger] init[i]).0 != key by {
                assert(init[i] == more[i]);
            }
            assert(more[more.len() - 1].0 != key);
        }
        assert forall|i: int|
            0 <= i < more.len() && (#[trigger] more[i]).0 == key && (forall|j: int|
                i < j < more.len() ==> (#[trigger] more[j]).0 != key) implies JsonTree::Object(
            with_members(members, more),
        ).member(key) == more[i].1 by {
            if i < more.len() - 1 {
                assert(init[i] == more[i]);
                assert(more[more.len() - 1].0 != key);
                assert forall|j: int| i < j < init.len() implies (#[trigger] init[j]).0
                    != key by {
                    assert(init[j] == more[j]);
                }
            }
        }
    }
}

/// A value says what it holds, item by item and member by member.
pub proof fn law_tree(b: bool, bits: u64, s: String, items: Vec<Json>, members: Vec<(String, Json)>)
    ensures
        Json::Null.tree() == JsonTree::Null,
        Json::Bool(b).tree() == JsonTree::Bool(b),
        Json::Number(s).tree() == JsonTree::Number(s@),
        Json::Double(bits).tree() == JsonTree::Double(bits),
        Json::Text(s).tree() == JsonTree::Text(s@),
        ({
            &&& Json::Array(items).tree() matches JsonTree::Array(all)
            &&& all.len() == items@.len()
            &&& forall|i: int| 0 <= i < all.len() ==> #[trigger] all[i] == items@[i].tree()
        }),
        ({
            &&& Json::Object(members).tree() matches JsonTree::Object(all)
            &&& all.len() == members@.len()
            &&& forall|i: int|
                0 <= i < all.len() ==> #[trigger] all[i] == (members@[i].0@, members@[i].1.tree())
        }),
{
}

/// A member is found by its key: the first one of that name, whatever stands
/// before and behind it. Without one there is nothing to find, and only an object
/// has members.
pub proof fn law_member(
    before: Seq<(Seq<char>, JsonTree)>,
    key: Seq<char>,
    value: JsonTree,
    after: Seq<(Seq<char>, JsonTree)>,
    other: JsonTree,
)
    requires
        forall|i: int| 0 <= i < before.len() ==> (#[trigger] before[i]).0 != key,
    ensures
        JsonTree::Object(before + seq![(key, value)] + after).member(key) == value,
        JsonTree::Object(before + seq![(key, value)] + after).has_member(key),
        JsonTree::Object(before).member(key) == JsonTree::Null,
        !JsonTree::Object(before).has_member(key),
        !(other is Object) ==> other.member(key) == JsonTree::Null && !other.has_member(key),
{
    let all = before + seq![(key, value)] + after;
    lemma_position(before, key);
    lemma_position(all, key);
    let n = before.len() as int;
    assert(all[n] == (key, value));
    let p = position(all, key);
    if p < n {
        assert(all[p] == before[p]);
    }
    assert(p == n);
    let q = position(before, key);
    if q < before.len() {
        assert(before[q].0 == key);
    }
}

/// The elements of an array and the text of a string are read as they are, and
/// nothing else has any.
pub proof fn law_element_and_text(items: Seq<JsonTree>, s: Seq<char>, i: int, other: JsonTree)
    ensures
        JsonTree::Array(items).element(i) == (if 0 <= i < items.len() {
            Some(items[i])
        } else {
            None
        }),
        !(other is Array) ==> other.element(i) is None,
        JsonTree::Text(s).text() == Some(s),
        !(other is Text) ==> other.text() is None,
{
}

/// Setting a member adds one exactly where there is none of that name.
pub proof fn law_set_member_count(
    members: Seq<(Seq<char>, JsonTree)>,
    key: Seq<char>,
    value: JsonTree,
)
    ensures
        with_member(members, key, value).len() == (if JsonTree::Object(members).has_member(key) {
            members.len()
        } else {
            members.len() + 1
        }),
        with_members(members, seq![]) == members,
        with_members(members, seq![(key, value)]) == with_member(members, key, value),
{
    lemma_position(members, key);
    let one = seq![(key, value)];
    assert(one.drop_last() == Seq::<(Seq<char>, JsonTree)>::empty());
    assert(with_members(members, one.drop_last()) == members);
}

/// After members were set there are those that were there and those that were
/// set, and no others.
pub proof fn law_members_after_setting(
    members: Seq<(Seq<char>, JsonTree)>,
    more: Seq<(Seq<char>, JsonTree)>,
    key: Seq<char>,
)
    ensures
        JsonTree::Object(with_members(members, more)).has_member(key) <==> {
            ||| JsonTree::Object(members).has_member(key)
            ||| exists|i: int| 0 <= i < more.len() && (#[trigger] more[i]).0 == key
        },
    decreases more.len(),
{
    if more.len() > 0 {
        let init = more.drop_last();
        let last = more.last();
        law_members_after_setting(members, init, key);
        let before = with_members(members, init);
        let after = with_members(members, more);
        lemma_position(before, last.0);
        lemma_position(before, key);
        lemma_position(after, key);
        let n = position(before, last.0);
        assert(after[n] == last);
        assert(more[more.len() - 1] == last);
        let b = position(before, key);
        let a = position(after, key);
        if b < before.len() && key != last.0 {
            assert(after[b] == before[b]);
        }
        if a < after.len() && key != last.0 {
            assert(a != n);
            assert(after[a] == before[a]);
        }
        assert(JsonTree::Object(after).has_member(key) <==> (JsonTree::Object(before).has_member(
            key,
        ) || key == last.0));
        if exists|i: int| 0 <= i < more.len() && (#[trigger] more[i]).0 == key {
            let i = choose|i: int| 0 <= i < more.len() && (#[trigger] more[i]).0 == key;
            if i < init.len() {
                assert(init[i] == more[i]);
            }
        }
        if exists|i: int| 0 <= i < init.len() && (#[trigger] init[i]).0 == key {
            let i = choose|i: int| 0 <= i < init.len() && (#[trigger] init[i]).0 == key;
            assert(more[i] == init[i]);
        }
    }
}

} // verus!

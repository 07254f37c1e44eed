//! JSON values: the library's own tree, and its exchange with `serde_json`.

use crate::text::{decimal, same_text};
use vstd::prelude::*;

verus! {

/// A JSON number, kept as `serde_json` holds it.
#[verifier::external_type_specification]
#[verifier::external_body]
pub struct ExNumber(serde_json::Number);

/// How a number is written: the text that `serde_json::Number` displays as.
pub uninterp spec fn number_literal(n: serde_json::Number) -> Seq<char>;

/// A JSON value.
#[derive(Debug)]
pub enum Json {
    Null,
    Bool(bool),
    Number(serde_json::Number),
    Text(String),
    Array(Vec<Json>),
    /// The members of an object. Where a name occurs twice, the last counts.
    Object(Vec<Member>),
}

/// One member of an object.
#[derive(Debug)]
pub struct Member {
    pub name: String,
    pub value: Json,
}

/// What a JSON value says: text as characters, a number as JSON writes it, an
/// object as a map.
pub enum JsonView {
    Null,
    Bool(bool),
    Number(Seq<char>),
    Text(Seq<char>),
    Array(Seq<JsonView>),
    Object(Map<Seq<char>, JsonView>),
}

/// The view of a value.
pub open spec fn json_view(json: Json) -> JsonView
    decreases json,
{
    match json {
        Json::Null => JsonView::Null,
        Json::Bool(b) => JsonView::Bool(b),
        Json::Number(n) => JsonView::Number(number_literal(n)),
        Json::Text(s) => JsonView::Text(s@),
        Json::Array(items) => JsonView::Array(
            Seq::new(
                items@.len(),
                |i: int|
                    if 0 <= i < items@.len() {
                        json_view(items@[i])
                    } else {
                        JsonView::Null
                    },
            ),
        ),
        Json::Object(members) => JsonView::Object(members_view(members@)),
    }
}

/// The map of an object without members.
pub open spec fn no_members() -> Map<Seq<char>, JsonView> {
    Map::empty()
}

/// The map that a list of members stands for.
pub open spec fn members_view(members: Seq<Member>) -> Map<Seq<char>, JsonView>
    decreases members,
{
    if members.len() == 0 {
        no_members()
    } else {
        members_view(members.drop_last()).insert(
            members.last().name@,
            json_view(members.last().value),
        )
    }
}

impl View for Json {
    type V = JsonView;

    open spec fn view(&self) -> JsonView {
        json_view(*self)
    }
}

impl JsonView {
    /// The member of an object under `name`; nothing else has members.
    pub open spec fn get(self, name: Seq<char>) -> Option<JsonView> {
        match self {
            JsonView::Object(members) => if members.contains_key(name) {
                Some(members[name])
            } else {
                None
            },
            _ => None,
        }
    }

    /// The text of a text value.
    pub open spec fn text(self) -> Option<Seq<char>> {
        match self {
            JsonView::Text(s) => Some(s),
            _ => None,
        }
    }

    /// The text of the member under `name`, where there is one and it is text.
    pub open spec fn text_at(self, name: Seq<char>) -> Option<Seq<char>> {
        match self.get(name) {
            Some(value) => value.text(),
            None => None,
        }
    }

    /// The truth value of the member under `name`, where it is one.
    pub open spec fn bool_at(self, name: Seq<char>) -> Option<bool> {
        match self.get(name) {
            Some(JsonView::Bool(b)) => Some(b),
            _ => None,
        }
    }
}

impl Json {
    /// The member of an object under `name`.
    pub fn get(&self, name: &str) -> (r: Option<&Json>)
        ensures
            r matches Some(value) ==> self@.get(name@) == Some(value@),
            r is None ==> self@.get(name@) is None,
    {
        match self {
            Json::Object(members) => {
                let mut at: usize = members.len();
                proof {
                    assert(members@.take(at as int) =~= members@);
                }
                while at > 0
                    invariant
                        at <= members@.len(),
                        self@ == JsonView::Object(members_view(members@)),
                        ({
                            let all = members_view(members@);
                            let rest = members_view(members@.take(at as int));
                            &&& all.contains_key(name@) <==> rest.contains_key(name@)
                            &&& all.contains_key(name@) ==> all[name@] == rest[name@]
                        }),
                    decreases at,
                {
                    let member: &Member = &members[at - 1];
                    proof {
                        assert(members@.take(at as int).drop_last() =~= members@.take(at - 1));
                        assert(members@.take(at as int).last() == *member);
                    }
                    if same_text(member.name.as_str(), name) {
                        return Some(&member.value);
                    }
                    at = at - 1;
                }
                None
            },
            _ => None,
        }
    }

    /// The text of a text value.
    pub fn as_str(&self) -> (r: Option<&str>)
        ensures
            r matches Some(s) ==> self@.text() == Some(s@),
            r is None ==> self@.text() is None,
    {
        match self {
            Json::Text(s) => Some(s.as_str()),
            _ => None,
        }
    }

    /// The text of the member under `name`.
    pub fn text_at(&self, name: &str) -> (r: Option<&str>)
        ensures
            r matches Some(s) ==> self@.text_at(name@) == Some(s@),
            r is None ==> self@.text_at(name@) is None,
    {
        match self.get(name) {
            Some(value) => value.as_str(),
            None => None,
        }
    }

    /// The truth value of the member under `name`.
    pub fn bool_at(&self, name: &str) -> (r: Option<bool>)
        ensures
            r == self@.bool_at(name@),
    {
        match self.get(name) {
            Some(Json::Bool(b)) => Some(*b),
            _ => None,
        }
    }

    /// An object without members.
    pub fn empty_object() -> (r: Json)
        ensures
            r@ == JsonView::Object(no_members()),
    {
        let members: Vec<Member> = Vec::new();
        assert(members_view(members@) == no_members());
        Json::Object(members)
    }

    /// A number.
    pub fn from_u16(n: u16) -> (r: Json)
        ensures
            r@ == JsonView::Number(decimal(n as nat)),
    {
        Json::Number(number_from(n))
    }

    /// A text value.
    pub fn from_text(s: &str) -> (r: Json)
        ensures
            r@ == JsonView::Text(s@),
    {
        Json::Text(s.to_string())
    }
}

/// `serde_json::Number`'s `clone`: the copy is written as the number is.
pub assume_specification[ <serde_json::Number as Clone>::clone ](
    n: &serde_json::Number,
) -> (r: serde_json::Number)
    ensures
        number_literal(r) == number_literal(*n),
;

/// `serde_json::Number::from` on a `u16`: the number is written in decimal.
#[verifier::external_body]
fn number_from(n: u16) -> (r: serde_json::Number)
    ensures
        number_literal(r) == decimal(n as nat),
{
    serde_json::Number::from(n)
}

impl Clone for Json {
    fn clone(&self) -> (r: Json)
        ensures
            r@ == self@,
        decreases self,
    {
        match self {
            Json::Null => Json::Null,
            Json::Bool(b) => Json::Bool(*b),
            Json::Number(n) => Json::Number(n.clone()),
            Json::Text(s) => Json::Text(s.clone()),
            Json::Array(items) => {
                let mut out: Vec<Json> = Vec::new();
                let mut at: usize = 0;
                while at < items.len()
                    invariant
                        at <= items@.len(),
                        out@.len() == at,
                        forall|i: int| 0 <= i < at ==> json_view(#[trigger] out@[i]) == json_view(items@[i]),
                        *self == Json::Array(*items),
                    decreases items@.len() - at,
                {
                    proof {
                        assert(decreases_to!(*self => self->Array_0));
                        assert(decreases_to!(items@ => items@[at as int]));
                    }
                    out.push(items[at].clone());
                    at = at + 1;
                }
                let r: Json = Json::Array(out);
                assert(r@->Array_0 =~= self@->Array_0);
                r
            },
            Json::Object(members) => {
                let mut out: Vec<Member> = Vec::new();
                let mut at: usize = 0;
                assert(members@.take(0) =~= Seq::empty());
                while at < members.len()
                    invariant
                        at <= members@.len(),
                        members_view(out@) == members_view(members@.take(at as int)),
                        *self == Json::Object(*members),
                    decreases members@.len() - at,
                {
                    proof {
                        assert(decreases_to!(*self => self->Object_0));
                        assert(decreases_to!(members@ => members@[at as int]));
                    }
                    let member: &Member = &members[at];
                    let ghost before = out@;
                    out.push(Member { name: member.name.clone(), value: member.value.clone() });
                    proof {
                        assert(out@.drop_last() =~= before);
                        assert(members@.take(at + 1).drop_last() =~= members@.take(at as int));
                    }
                    at = at + 1;
                }
                assert(members@.take(at as int) =~= members@);
                Json::Object(out)
            },
        }
    }
}

/// `serde_json`'s value, taken apart and put together by `open_value` and
/// `close_value` alone.
#[verifier::external_type_specification]
#[verifier::external_body]
pub struct ExValue(serde_json::Value);

/// `serde_json`'s object.
#[verifier::external_type_specification]
#[verifier::external_body]
#[verifier::reject_recursive_types(K)]
#[verifier::reject_recursive_types(V)]
pub struct ExMap<K, V>(serde_json::Map<K, V>);

/// What a `serde_json` value holds.
pub uninterp spec fn value_tree(value: serde_json::Value) -> JsonView;

/// What a `serde_json` object holds.
pub uninterp spec fn object_tree(
    object: serde_json::Map<String, serde_json::Value>,
) -> Map<Seq<char>, JsonView>;

/// One layer of a `serde_json` value.
enum Layer {
    Null,
    Bool(bool),
    Number(serde_json::Number),
    Text(String),
    Array(Vec<serde_json::Value>),
    Object(serde_json::Map<String, serde_json::Value>),
}

/// What a layer holds.
spec fn layer_tree(layer: Layer) -> JsonView {
    match layer {
        Layer::Null => JsonView::Null,
        Layer::Bool(b) => JsonView::Bool(b),
        Layer::Number(n) => JsonView::Number(number_literal(n)),
        Layer::Text(s) => JsonView::Text(s@),
        Layer::Array(items) => JsonView::Array(
            Seq::new(items@.len(), |i: int| value_tree(items@[i])),
        ),
        Layer::Object(object) => JsonView::Object(object_tree(object)),
    }
}

/// The variants of `serde_json::Value`, told apart: the layer holds what the
/// value holds.
#[verifier::external_body]
fn open_value(value: serde_json::Value) -> (r: Layer)
    ensures
        layer_tree(r) == value_tree(value),
{
    match value {
        serde_json::Value::Null => Layer::Null,
        serde_json::Value::Bool(b) => Layer::Bool(b),
        serde_json::Value::Number(n) => Layer::Number(n),
        serde_json::Value::String(s) => Layer::Text(s),
        serde_json::Value::Array(items) => Layer::Array(items),
        serde_json::Value::Object(object) => Layer::Object(object),
    }
}

/// The variants of `serde_json::Value`, put together: the value holds what the
/// layer holds.
#[verifier::external_body]
fn close_value(layer: Layer) -> (r: serde_json::Value)
    ensures
        value_tree(r) == layer_tree(layer),
{
    match layer {
        Layer::Null => serde_json::Value::Null,
        Layer::Bool(b) => serde_json::Value::Bool(b),
        Layer::Number(n) => serde_json::Value::Number(n),
        Layer::Text(s) => serde_json::Value::String(s),
        Layer::Array(items) => serde_json::Value::Array(items),
        Layer::Object(object) => serde_json::Value::Object(object),
    }
}

/// `serde_json::Map::into_iter`: every member of the object once.
#[verifier::external_body]
fn object_members(object: serde_json::Map<String, serde_json::Value>) -> (r: Vec<
    (String, serde_json::Value),
>)
    ensures
        forall|i: int|
            0 <= i < r@.len() ==> object_tree(object).contains_key(#[trigger] r@[i].0@)
                && object_tree(object)[r@[i].0@] == value_tree(r@[i].1),
        forall|i: int, j: int| 0 <= i < j < r@.len() ==> r@[i].0@ != r@[j].0@,
        forall|name: Seq<char>| #[trigger]
            object_tree(object).contains_key(name) ==> exists|i: int|
                0 <= i < r@.len() && #[trigger] r@[i].0@ == name,
{
    object.into_iter().collect()
}

/// `serde_json::Map::new`: an object without members.
pub assume_specification[ serde_json::Map::<String, serde_json::Value>::new ]() -> (r:
    serde_json::Map<String, serde_json::Value>)
    ensures
        object_tree(r) == no_members(),
;

/// `serde_json::Map::insert`: the member under the name is now this value.
pub assume_specification[ serde_json::Map::<String, serde_json::Value>::insert ](
    object: &mut serde_json::Map<String, serde_json::Value>,
    k: String,
    v: serde_json::Value,
) -> (r: Option<serde_json::Value>)
    ensures
        object_tree(*final(object)) == object_tree(*old(object)).insert(k@, value_tree(v)),
        r matches Some(previous) ==> object_tree(*old(object)).contains_key(k@) && object_tree(
            *old(object),
        )[k@] == value_tree(previous),
        r is None ==> !object_tree(*old(object)).contains_key(k@),
;

impl Json {
    /// The value that a `serde_json` value holds.
    pub fn from_value(value: serde_json::Value) -> (r: Json)
        ensures
            r@ == value_tree(value),
        decreases value_tree(value),
    {
        match open_value(value) {
            Layer::Null => Json::Null,
            Layer::Bool(b) => Json::Bool(b),
            Layer::Number(n) => Json::Number(n),
            Layer::Text(s) => Json::Text(s),
            Layer::Array(items) => {
                let ghost trees = value_tree(value)->Array_0;
                let mut out: Vec<Json> = Vec::new();
                for item in rest: items
                    invariant
                        rest.seq() == items@,
                        trees == Seq::new(items@.len(), |i: int| value_tree(items@[i])),
                        value_tree(value) == JsonView::Array(trees),
                        out@.len() == rest.index(),
                        forall|i: int|
                            0 <= i < out@.len() ==> json_view(#[trigger] out@[i]) == trees[i],
                {
                    proof {
                        assert(decreases_to!(value_tree(value) => value_tree(value)->Array_0));
                        assert(decreases_to!(trees => trees[rest.index()]));
                    }
                    out.push(Json::from_value(item));
                }
                let r: Json = Json::Array(out);
                assert(r@->Array_0 =~= trees);
                r
            },
            Layer::Object(object) => {
                let ghost tree = object_tree(object);
                let entries: Vec<(String, serde_json::Value)> = object_members(object);
                proof {
                    let names = entries@.map_values(|entry: (String, serde_json::Value)| entry.0@);
                    assert forall|name: Seq<char>| tree.contains_key(name) implies names.to_set().contains(
                        name,
                    ) by {
                        let i = choose|i: int|
                            0 <= i < entries@.len() && #[trigger] entries@[i].0@ == name;
                        assert(names[i] == name);
                    }
                    vstd::seq_lib::seq_to_set_is_finite(names);
                    assert(tree.dom().subset_of(names.to_set()));
                }
                let mut out: Vec<Member> = Vec::new();
                for entry in rest: entries
                    invariant
                        rest.seq() == entries@,
                        value_tree(value) == JsonView::Object(tree),
                        tree.dom().finite(),
                        forall|i: int|
                            0 <= i < entries@.len() ==> tree.contains_key(#[trigger] entries@[i].0@)
                                && tree[entries@[i].0@] == value_tree(entries@[i].1),
                        forall|i: int|
                            0 <= i < rest.index() ==> members_view(out@).contains_key(
                                #[trigger] entries@[i].0@,
                            ),
                        forall|name: Seq<char>| #[trigger]
                            members_view(out@).contains_key(name) ==> tree.contains_key(name)
                                && members_view(out@)[name] == tree[name],
                {
                    proof {
                        assert(entries@[rest.index()].0@ == entry.0@);
                        assert(decreases_to!(value_tree(value) => value_tree(value)->Object_0));
                        assert(decreases_to!(tree => tree[entry.0@]));
                    }
                    let ghost before = out@;
                    let item: Json = Json::from_value(entry.1);
                    out.push(Member { name: entry.0, value: item });
                    assert(out@.drop_last() =~= before);
                    assert(members_view(out@) == members_view(before).insert(entry.0@, item@));
                }
                assert(members_view(out@) =~= tree);
                Json::Object(out)
            },
        }
    }
}

impl Json {
    /// The `serde_json` value that holds this value.
    pub fn to_value(&self) -> (r: serde_json::Value)
        ensures
            value_tree(r) == self@,
        decreases self,
    {
        match self {
            Json::Null => close_value(Layer::Null),
            Json::Bool(b) => close_value(Layer::Bool(*b)),
            Json::Number(n) => close_value(Layer::Number(n.clone())),
            Json::Text(s) => close_value(Layer::Text(s.clone())),
            Json::Array(items) => {
                let mut out: Vec<serde_json::Value> = Vec::new();
                let mut at: usize = 0;
                while at < items.len()
                    invariant
                        at <= items@.len(),
                        out@.len() == at,
                        forall|i: int|
                            0 <= i < at ==> value_tree(#[trigger] out@[i]) == json_view(items@[i]),
                        *self == Json::Array(*items),
                    decreases items@.len() - at,
                {
                    proof {
                        assert(decreases_to!(*self => self->Array_0));
                        assert(decreases_to!(items@ => items@[at as int]));
                    }
                    out.push(items[at].to_value());
                    at = at + 1;
                }
                let layer: Layer = Layer::Array(out);
                assert(layer_tree(layer)->Array_0 =~= self@->Array_0);
                close_value(layer)
            },
            Json::Object(members) => {
                let mut out: serde_json::Map<String, serde_json::Value> = serde_json::Map::new();
                let mut at: usize = 0;
                assert(members@.take(0) =~= Seq::empty());
                while at < members.len()
                    invariant
                        at <= members@.len(),
                        object_tree(out) == members_view(members@.take(at as int)),
                        *self == Json::Object(*members),
                    decreases members@.len() - at,
                {
                    proof {
                        assert(decreases_to!(*self => self->Object_0));
                        assert(decreases_to!(members@ => members@[at as int]));
                        assert(members@.take(at + 1).drop_last() =~= members@.take(at as int));
                    }
                    let member: &Member = &members[at];
                    let _ = out.insert(member.name.clone(), member.value.to_value());
                    at = at + 1;
                }
                assert(members@.take(at as int) =~= members@);
                close_value(Layer::Object(out))
            },
        }
    }
}

/// What reading a text as JSON gives: the value, or the reader's message.
pub enum Parsed {
    Value(JsonView),
    Malformed(Seq<char>),
}

/// What `serde_json` reads in a text.
pub uninterp spec fn parsed_json(text: Seq<char>) -> Parsed;

/// How a value is written.
pub uninterp spec fn json_text(tree: JsonView) -> Seq<char>;

/// Whether `tree` is an object whose members are all text.
pub open spec fn is_flat(tree: JsonView) -> bool {
    match tree {
        JsonView::Object(members) => forall|name: Seq<char>| #[trigger]
            members.contains_key(name) ==> members[name] is Text,
        _ => false,
    }
}

/// `serde_json::from_str`: what it gives is named `parsed_json`.
#[verifier::external_body]
fn read_value(text: &str) -> (r: Result<serde_json::Value, String>)
    ensures
        match r {
            Ok(value) => parsed_json(text@) == Parsed::Value(value_tree(value)),
            Err(message) => parsed_json(text@) == Parsed::Malformed(message@),
        },
{
    match serde_json::from_str(text) {
        Ok(value) => Ok(value),
        Err(error) => Err(error.to_string()),
    }
}

/// `serde_json::to_string`, which does not fail on a value: what it gives is
/// named `json_text`, and an object of text reads back as it was. `serde_json`
/// keeps the members of an object in the order of their names, so that the text
/// rests on the value alone. It writes no line feed between tokens and escapes
/// those in text, so that the text is a single line.
#[verifier::external_body]
fn write_value(value: &serde_json::Value) -> (r: String)
    ensures
        r@ == json_text(value_tree(*value)),
        is_flat(value_tree(*value)) ==> parsed_json(r@) == Parsed::Value(value_tree(*value)),
        !r@.contains('\n'),
{
    serde_json::to_string(value).expect("a JSON value can be written")
}

impl Json {
    /// Reads a text as JSON.
    pub fn parse(text: &str) -> (r: Result<Json, String>)
        ensures
            match r {
                Ok(value) => parsed_json(text@) == Parsed::Value(value@),
                Err(message) => parsed_json(text@) == Parsed::Malformed(message@),
            },
    {
        match read_value(text) {
            Ok(value) => Ok(Json::from_value(value)),
            Err(message) => Err(message),
        }
    }

    /// Writes the value as JSON text, on a single line. An object of text reads
    /// back as it was.
    pub fn encode(&self) -> (r: String)
        ensures
            r@ == json_text(self@),
            is_flat(self@) ==> parsed_json(r@) == Parsed::Value(self@),
            !r@.contains('\n'),
    {
        write_value(&self.to_value())
    }
}

/// Adds a member to a list of members.
pub fn put(members: &mut Vec<Member>, name: &str, value: Json)
    ensures
        members_view(final(members)@) == members_view(old(members)@).insert(name@, value@),
{
    members.push(Member { name: name.to_string(), value });
    assert(members@.drop_last() =~= old(members)@);
}

/// What each kind of value says: itself, its number as it is written, its text,
/// its items in order.
pub proof fn law_values(b: bool, n: serde_json::Number, s: String, items: Vec<Json>)
    ensures
        Json::Null@ == JsonView::Null,
        Json::Bool(b)@ == JsonView::Bool(b),
        Json::Number(n)@ == JsonView::Number(number_literal(n)),
        Json::Text(s)@ == JsonView::Text(s@),
        Json::Array(items)@ matches JsonView::Array(seen) && seen.len() == items@.len() && forall|
            i: int,
        |
            0 <= i < items@.len() ==> #[trigger] seen[i] == items@[i]@,
{
}

/// An object holds its members under their names: nothing under any other name,
/// and of two members of one name the later.
pub proof fn law_members(members: Vec<Member>, fewer: Seq<Member>, member: Member)
    ensures
        Json::Object(members)@ == JsonView::Object(members_view(members@)),
        members_view(Seq::empty()) == Map::<Seq<char>, JsonView>::empty(),
        members_view(fewer.push(member)) == members_view(fewer).insert(member.name@, member.value@),
{
    assert(fewer.push(member).drop_last() =~= fewer);
}

/// A member is found under its name, where the value is an object that has it,
/// and its text or truth value where it is one.
pub proof fn law_lookup(value: JsonView, name: Seq<char>)
    ensures
        value.get(name) is Some <==> (value matches JsonView::Object(members)
            && members.contains_key(name)),
        value matches JsonView::Object(members) && members.contains_key(name) ==> value.get(name)
            == Some(value->Object_0[name]),
        value.get(name) matches Some(JsonView::Text(s)) ==> value.text_at(name) == Some(s),
        value.text_at(name) matches Some(s) ==> value.get(name) == Some(JsonView::Text(s)),
        value.get(name) matches Some(JsonView::Bool(b)) ==> value.bool_at(name) == Some(b),
        value.bool_at(name) matches Some(b) ==> value.get(name) == Some(JsonView::Bool(b)),
        value matches JsonView::Text(s) ==> value.text() == Some(s),
        value.text() matches Some(s) ==> value == JsonView::Text(s),
        no_members() == Map::<Seq<char>, JsonView>::empty(),
{
}

/// An object whose members are all text is what reads back once it is written.
pub proof fn law_flat(tree: JsonView)
    ensures
        is_flat(tree) <==> (tree matches JsonView::Object(members) && forall|name: Seq<char>|
            #[trigger]
            members.contains_key(name) ==> members[name] is Text),
{
}

} // verus!

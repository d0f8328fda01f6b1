//! JSON values: the tree that the protocol code reads and builds, and its
//! passage to and from JSON text through `serde_json`.
use crate::text::same_text;
use vstd::prelude::*;

verus! {

/// A JSON number, carried as `serde_json` holds it.
#[verifier::external_type_specification]
#[verifier::external_body]
pub struct ExNumber(serde_json::Number);

/// The JSON tree of `serde_json`.
#[verifier::external_type_specification]
#[verifier::external_body]
pub struct ExSerdeValue(serde_json::Value);

/// Specifies `Number::clone`. Claimed of it: the clone is the same number.
pub assume_specification[ <serde_json::Number as Clone>::clone ](
    n: &serde_json::Number,
) -> (r: serde_json::Number)
    ensures
        r == *n,
;

/// The JSON number for an integer.
pub uninterp spec fn integer_number(n: i128) -> serde_json::Number;

/// The integers that a JSON number holds exactly.
pub open spec fn integer_fits(n: i128) -> bool {
    i64::MIN <= n <= u64::MAX
}

/// The number is that of an integer.
pub open spec fn is_integer(number: serde_json::Number) -> bool {
    exists|n: i128| integer_fits(n) && #[trigger] integer_number(n) == number
}

/// Calls `serde_json::Number::from_i128`. Claimed of it: there is a number for
/// every integer from the least `i64` to the greatest `u64` and for no other, and
/// it depends on the integer alone.
#[verifier::external_body]
fn number_from(n: i128) -> (r: Option<serde_json::Number>)
    ensures
        r is Some <==> integer_fits(n),
        r matches Some(number) ==> number == integer_number(n),
{
    serde_json::Number::from_i128(n)
}

/// A JSON value as mathematics: what a [`JsonValue`] stands for. An object is the
/// sequence of its entries.
pub enum Json {
    Null,
    Bool(bool),
    Number(serde_json::Number),
    String(Seq<char>),
    Array(Seq<Json>),
    Object(Seq<(Seq<char>, Json)>),
}

/// No key occurs twice among the entries.
pub open spec fn distinct_keys(entries: Seq<(Seq<char>, Json)>) -> bool {
    forall|i: int, j: int| 0 <= i < j < entries.len() ==> entries[i].0 != entries[j].0
}

/// Where the entry for `key` stands.
pub open spec fn position(entries: Seq<(Seq<char>, Json)>, key: Seq<char>) -> Option<int>
    decreases entries.len(),
{
    if entries.len() == 0 {
        None
    } else if entries.last().0 == key {
        Some(entries.len() - 1)
    } else {
        position(entries.drop_last(), key)
    }
}

/// The value that the entries hold for `key`.
pub open spec fn lookup(entries: Seq<(Seq<char>, Json)>, key: Seq<char>) -> Option<Json> {
    match position(entries, key) {
        Some(i) => Some(entries[i].1),
        None => None,
    }
}

/// The entries with `value` for `key`: in the place of the entry that `key`
/// has, or else at the end.
pub open spec fn put(
    entries: Seq<(Seq<char>, Json)>,
    key: Seq<char>,
    value: Json,
) -> Seq<(Seq<char>, Json)> {
    match position(entries, key) {
        Some(i) => entries.update(i, (key, value)),
        None => entries.push((key, value)),
    }
}

impl Json {
    /// The member of an object under `key`; nothing on any other value.
    pub open spec fn member(self, key: Seq<char>) -> Option<Json> {
        match self {
            Json::Object(entries) => lookup(entries, key),
            _ => None,
        }
    }

    /// The text of a string value; nothing on any other value.
    pub open spec fn as_text(self) -> Option<Seq<char>> {
        match self {
            Json::String(s) => Some(s),
            _ => None,
        }
    }

    /// The member under `key` where it is a string.
    pub open spec fn text_member(self, key: Seq<char>) -> Option<Seq<char>> {
        match self.member(key) {
            Some(v) => v.as_text(),
            None => None,
        }
    }

    /// The elements of an array; nothing on any other value.
    pub open spec fn as_elements(self) -> Option<Seq<Json>> {
        match self {
            Json::Array(items) => Some(items),
            _ => None,
        }
    }

    /// The object without members.
    pub open spec fn object() -> Json {
        Json::Object(Seq::empty())
    }

    /// An object with `value` under `key`; any other value as it is.
    pub open spec fn with(self, key: Seq<char>, value: Json) -> Json {
        match self {
            Json::Object(entries) => Json::Object(put(entries, key, value)),
            _ => self,
        }
    }

    /// An object with `value` under `key` where there is one.
    pub open spec fn with_optional(self, key: Seq<char>, value: Option<Json>) -> Json {
        match value {
            Some(v) => self.with(key, v),
            None => self,
        }
    }

    /// A value whose numbers read back, and whose nesting stays within `depth`.
    pub open spec fn plain_within(self, depth: nat) -> bool {
        self.numbers_read_back() && self.nested_within(depth)
    }

    /// Every number in the value is an integer, or one whose own text parses to it.
    pub open spec fn numbers_read_back(self) -> bool
        decreases self,
    {
        match self {
            Json::Number(n) => is_integer(n) || parses_to(json_text(self), self),
            Json::Array(items) => forall|i: int|
                0 <= i < items.len() ==> (#[trigger] items[i]).numbers_read_back(),
            Json::Object(entries) => forall|i: int|
                0 <= i < entries.len() ==> (#[trigger] entries[i]).1.numbers_read_back(),
            _ => true,
        }
    }

    /// Arrays and objects are nested at most `depth` deep.
    pub open spec fn nested_within(self, depth: nat) -> bool
        decreases self,
    {
        match self {
            Json::Array(items) => depth > 0 && forall|i: int|
                0 <= i < items.len() ==> (#[trigger] items[i]).nested_within((depth - 1) as nat),
            Json::Object(entries) => depth > 0 && forall|i: int|
                0 <= i < entries.len() ==> (#[trigger] entries[i]).1.nested_within(
                    (depth - 1) as nat,
                ),
            _ => true,
        }
    }
}

/// A position holds the key that was asked for; without one, no entry does.
pub proof fn lemma_position(entries: Seq<(Seq<char>, Json)>, key: Seq<char>)
    ensures
        match position(entries, key) {
            Some(i) => 0 <= i < entries.len() && entries[i].0 == key,
            None => forall|i: int| 0 <= i < entries.len() ==> (#[trigger] entries[i]).0 != key,
        },
    decreases entries.len(),
{
    if entries.len() > 0 && entries.last().0 != key {
        lemma_position(entries.drop_last(), key);
        assert forall|i: int|
            position(entries, key) is None && 0 <= i < entries.len() implies (
        #[trigger] entries[i]).0 != key by {
            if i < entries.len() - 1 {
                assert(entries.drop_last()[i].0 != key);
            }
        }
    }
}

/// Among distinct keys, the only position of an entry's key is its own.
pub proof fn lemma_position_of_entry(entries: Seq<(Seq<char>, Json)>, i: int)
    requires
        distinct_keys(entries),
        0 <= i < entries.len(),
    ensures
        position(entries, entries[i].0) == Some(i),
{
    lemma_position(entries, entries[i].0);
}

/// After a value is put under a key, that key gives this value, every other
/// key gives what it gave before, and no key occurs twice.
pub proof fn law_put_then_lookup(
    entries: Seq<(Seq<char>, Json)>,
    key: Seq<char>,
    value: Json,
    other: Seq<char>,
)
    requires
        distinct_keys(entries),
    ensures
        distinct_keys(put(entries, key, value)),
        lookup(put(entries, key, value), key) == Some(value),
        other != key ==> lookup(put(entries, key, value), other) == lookup(entries, other),
{
    lemma_position(entries, key);
    lemma_position(entries, other);
    let after = put(entries, key, value);
    lemma_position(after, key);
    lemma_position(after, other);
    match position(entries, key) {
        Some(i) => {
            lemma_position_of_entry(after, i);
        },
        None => {
            lemma_position_of_entry(after, entries.len() as int);
        },
    }
    if other != key {
        match position(entries, other) {
            Some(i) => {
                assert(after[i] == entries[i]);
                lemma_position_of_entry(after, i);
            },
            None => {
                if let Some(i) = position(after, other) {
                    if i < entries.len() {
                        assert(after[i].0 == entries[i].0);
                    }
                }
            },
        }
    }
}

/// The value is an object in which no key occurs twice.
pub open spec fn well_formed_object(v: Json) -> bool {
    v is Object && distinct_keys(v->Object_0)
}

/// What the members of an object are once another may have been put into it.
pub proof fn lemma_members_with(object: Json, key: Seq<char>, value: Option<Json>)
    requires
        well_formed_object(object),
    ensures
        well_formed_object(object.with_optional(key, value)),
        forall|other: Seq<char>|
            #![trigger object.with_optional(key, value).member(other)]
            object.with_optional(key, value).member(other) == if other == key && value is Some {
                value
            } else {
                object.member(other)
            },
{
    let entries = object->Object_0;
    match value {
        Some(v) => {
            law_put_then_lookup(entries, key, v, key);
            assert forall|other: Seq<char>|
                #![trigger object.with_optional(key, value).member(other)]
                object.with_optional(key, value).member(other) == if other == key {
                    value
                } else {
                    object.member(other)
                } by {
                law_put_then_lookup(entries, key, v, other);
            }
        },
        None => {},
    }
}

/// Nesting within a bound stays within every larger one.
pub proof fn lemma_nested_within_more(v: Json, depth: nat, more: nat)
    requires
        v.nested_within(depth),
        depth <= more,
    ensures
        v.nested_within(more),
    decreases v,
{
    match v {
        Json::Array(items) => {
            assert forall|i: int| 0 <= i < items.len() implies (
            #[trigger] items[i]).nested_within((more - 1) as nat) by {
                lemma_nested_within_more(items[i], (depth - 1) as nat, (more - 1) as nat);
            }
        },
        Json::Object(entries) => {
            assert forall|i: int| 0 <= i < entries.len() implies (
            #[trigger] entries[i]).1.nested_within((more - 1) as nat) by {
                assert(decreases_to!(v => v->Object_0[i].1));
                lemma_nested_within_more(entries[i].1, (depth - 1) as nat, (more - 1) as nat);
            }
        },
        _ => {},
    }
}

/// A plain object stays plain when a plain member is put into it.
pub proof fn lemma_plain_with(object: Json, key: Seq<char>, value: Json, depth: nat)
    requires
        object is Object,
        depth > 0,
        object.plain_within(depth),
        value.plain_within((depth - 1) as nat),
    ensures
        object.with(key, value).plain_within(depth),
        object.with(key, value) is Object,
{
    let entries = object->Object_0;
    lemma_position(entries, key);
    let after = put(entries, key, value);
    assert forall|i: int| 0 <= i < after.len() implies (#[trigger] after[i]).1.numbers_read_back()
        && after[i].1.nested_within((depth - 1) as nat) by {
        if after[i] != (key, value) {
            assert(after[i] == entries[i]);
        }
    }
}

/// A JSON value.
#[derive(Debug, PartialEq)]
pub enum JsonValue {
    Null,
    Bool(bool),
    Number(serde_json::Number),
    String(String),
    Array(Vec<JsonValue>),
    Object(JsonObject),
}

/// A JSON object: its entries in order of insertion, no key twice.
#[derive(Debug, PartialEq)]
pub struct JsonObject {
    entries: Vec<(String, JsonValue)>,
}

impl JsonValue {
    /// The value as mathematics.
    pub open spec fn tree(self) -> Json
        decreases self,
    {
        match self {
            JsonValue::Null => Json::Null,
            JsonValue::Bool(b) => Json::Bool(b),
            JsonValue::Number(n) => Json::Number(n),
            JsonValue::String(s) => Json::String(s@),
            JsonValue::Array(items) => Json::Array(
                Seq::new(
                    items@.len(),
                    |i: int|
                        if 0 <= i < items@.len() {
                            items@[i].tree()
                        } else {
                            Json::Null
                        },
                ),
            ),
            JsonValue::Object(o) => Json::Object(o.model()),
        }
    }
}

impl JsonObject {
    /// The entries as mathematics.
    pub closed spec fn model(self) -> Seq<(Seq<char>, Json)>
        decreases self,
    {
        Seq::new(
            self.entries@.len(),
            |i: int|
                if 0 <= i < self.entries@.len() {
                    (self.entries@[i].0@, self.entries@[i].1.tree())
                } else {
                    (Seq::empty(), Json::Null)
                },
        )
    }

    #[verifier::type_invariant]
    spec fn no_key_twice(self) -> bool {
        distinct_keys(self.model())
    }
}

impl View for JsonValue {
    type V = Json;

    open spec fn view(&self) -> Json {
        self.tree()
    }
}

impl View for JsonObject {
    type V = Seq<(Seq<char>, Json)>;

    open spec fn view(&self) -> Seq<(Seq<char>, Json)> {
        self.model()
    }
}

/// The trees of a sequence of values.
pub open spec fn trees(values: Seq<JsonValue>) -> Seq<Json> {
    Seq::new(values.len(), |i: int| values[i]@)
}

/// The tree of a value that may be absent.
pub open spec fn tree_option(v: Option<JsonValue>) -> Option<Json> {
    match v {
        Some(v) => Some(v@),
        None => None,
    }
}

impl JsonObject {
    /// The object without entries.
    pub fn new() -> (r: JsonObject)
        ensures
            r@ == Seq::<(Seq<char>, Json)>::empty(),
            distinct_keys(r@),
    {
        let r = JsonObject { entries: Vec::new() };
        assert(r@ =~= Seq::empty());
        r
    }

    fn find(&self, key: &str) -> (r: Option<usize>)
        ensures
            match r {
                Some(i) => position(self@, key@) == Some(i as int),
                None => position(self@, key@) is None,
            },
            r matches Some(i) ==> i < self.entries.len(),
    {
        let mut n: usize = self.entries.len();
        assert(self@.take(n as int) =~= self@);
        while n > 0
            invariant
                n <= self.entries.len(),
                self@.len() == self.entries.len(),
                position(self@.take(n as int), key@) == position(self@, key@),
            decreases n,
        {
            assert(self@.take(n as int).last() == self@[n - 1]);
            if same_text(self.entries[n - 1].0.as_str(), key) {
                return Some(n - 1);
            }
            assert(self@.take(n as int).drop_last() =~= self@.take(n - 1));
            n = n - 1;
        }
        None
    }

    /// The value under `key`.
    pub fn get(&self, key: &str) -> (r: Option<&JsonValue>)
        ensures
            match r {
                Some(v) => lookup(self@, key@) == Some(v@),
                None => lookup(self@, key@) is None,
            },
    {
        match self.find(key) {
            Some(i) => {
                proof {
                    lemma_position(self@, key@);
                }
                Some(&self.entries[i].1)
            },
            None => None,
        }
    }

    /// The object with `value` under `key`, in place of what `key` held.
    pub fn with(self, key: String, value: JsonValue) -> (r: JsonObject)
        ensures
            r@ == put(self@, key@, value@),
            distinct_keys(r@),
    {
        proof {
            use_type_invariant(&self);
            law_put_then_lookup(self@, key@, value@, key@);
            lemma_position(self@, key@);
        }
        let place = self.find(key.as_str());
        let ghost before = self@;
        let JsonObject { mut entries } = self;
        let ghost new_key = key@;
        let ghost new_value = value@;
        let ghost old_entries = entries@;
        match place {
            Some(i) => {
                entries.set(i, (key, value));
            },
            None => {
                entries.push((key, value));
            },
        }
        proof {
            let shape = JsonObject { entries };
            assert forall|i: int| 0 <= i < old_entries.len() implies before[i] == (
                old_entries[i].0@,
                old_entries[i].1.tree(),
            ) by {}
            assert(shape.model() =~= put(before, new_key, new_value));
        }
        JsonObject { entries }
    }

    /// The object with the string `text` under `key`.
    pub fn with_text(self, key: &str, text: &str) -> (r: JsonObject)
        ensures
            Json::Object(r@) == Json::Object(self@).with(key@, Json::String(text@)),
    {
        self.with(key.to_owned(), JsonValue::string(text))
    }

    /// The object with `value` under `key`.
    pub fn with_value(self, key: &str, value: JsonValue) -> (r: JsonObject)
        ensures
            Json::Object(r@) == Json::Object(self@).with(key@, value@),
    {
        self.with(key.to_owned(), value)
    }

    /// The object with `value` under `key` where there is one.
    pub fn with_optional(self, key: &str, value: Option<JsonValue>) -> (r: JsonObject)
        ensures
            Json::Object(r@) == Json::Object(self@).with_optional(key@, tree_option(value)),
    {
        match value {
            Some(v) => self.with_value(key, v),
            None => self,
        }
    }
}

impl Default for JsonValue {
    fn default() -> (r: JsonValue)
        ensures
            r@ == Json::Null,
    {
        JsonValue::Null
    }
}

impl Clone for JsonValue {
    fn clone(&self) -> (r: JsonValue)
        ensures
            r@ == self@,
        decreases self,
    {
        match self {
            JsonValue::Null => JsonValue::Null,
            JsonValue::Bool(b) => JsonValue::Bool(*b),
            JsonValue::Number(n) => JsonValue::Number(n.clone()),
            JsonValue::String(s) => JsonValue::String(s.clone()),
            JsonValue::Array(items) => {
                let mut copy: Vec<JsonValue> = Vec::new();
                for i in 0..items.len()
                    invariant
                        copy.len() == i,
                        forall|j: int| 0 <= j < i ==> (#[trigger] copy@[j])@ == items@[j]@,
                        *self == JsonValue::Array(*items),
                {
                    assert(decreases_to!(self => self->Array_0@[i as int]));
                    copy.push(items[i].clone());
                }
                let r = JsonValue::Array(copy);
                assert(r@->Array_0 =~= self@->Array_0);
                r
            },
            JsonValue::Object(o) => JsonValue::Object(o.clone()),
        }
    }
}

impl Clone for JsonObject {
    fn clone(&self) -> (r: JsonObject)
        ensures
            r@ == self@,
        decreases self,
    {
        proof {
            use_type_invariant(self);
        }
        let mut copy: Vec<(String, JsonValue)> = Vec::new();
        for i in 0..self.entries.len()
            invariant
                copy.len() == i,
                forall|j: int|
                    0 <= j < i ==> (#[trigger] copy@[j]).0@ == self.entries@[j].0@ && copy@[j].1@
                        == self.entries@[j].1@,
        {
            copy.push((self.entries[i].0.clone(), self.entries[i].1.clone()));
        }
        proof {
            let shape = JsonObject { entries: copy };
            assert(shape.model() =~= self.model());
        }
        JsonObject { entries: copy }
    }
}

impl JsonValue {
    /// A string value with the given text.
    pub fn string(s: &str) -> (r: JsonValue)
        ensures
            r@ == Json::String(s@),
    {
        JsonValue::String(s.to_owned())
    }

    /// A number value for an integer.
    pub fn integer(n: i64) -> (r: JsonValue)
        ensures
            r@ == Json::Number(integer_number(n as i128)),
            reads_back(r@),
    {
        let number = number_from(n as i128).unwrap();
        assert(is_integer(number));
        JsonValue::Number(number)
    }

    /// The member of an object under `key`.
    pub fn get(&self, key: &str) -> (r: Option<&JsonValue>)
        ensures
            match r {
                Some(v) => self@.member(key@) == Some(v@),
                None => self@.member(key@) is None,
            },
    {
        match self {
            JsonValue::Object(o) => o.get(key),
            _ => None,
        }
    }

    /// The text of a string value.
    pub fn as_str(&self) -> (r: Option<&str>)
        ensures
            match r {
                Some(s) => self@.as_text() == Some(s@),
                None => self@.as_text() is None,
            },
    {
        match self {
            JsonValue::String(s) => Some(s.as_str()),
            _ => None,
        }
    }

    /// The text of the member under `key`, where that is a string.
    pub fn get_str(&self, key: &str) -> (r: Option<&str>)
        ensures
            match r {
                Some(s) => self@.text_member(key@) == Some(s@),
                None => self@.text_member(key@) is None,
            },
    {
        match self.get(key) {
            Some(v) => v.as_str(),
            None => None,
        }
    }

    /// The elements of an array value.
    pub fn as_array(&self) -> (r: Option<&Vec<JsonValue>>)
        ensures
            match r {
                Some(items) => self@.as_elements() == Some(trees(items@)),
                None => self@.as_elements() is None,
            },
    {
        match self {
            JsonValue::Array(items) => {
                assert(self@->Array_0 =~= trees(items@));
                Some(items)
            },
            _ => None,
        }
    }
}

/// What a `serde_json` tree holds.
pub uninterp spec fn json_of(v: serde_json::Value) -> Json;

/// One level of a `serde_json` tree.
enum Node {
    Null,
    Bool(bool),
    Number(serde_json::Number),
    String(String),
    Array(Vec<serde_json::Value>),
    Object(Vec<(String, serde_json::Value)>),
}

/// What the entries of an object node hold.
spec fn entries_of(entries: Seq<(String, serde_json::Value)>) -> Seq<(Seq<char>, Json)> {
    Seq::new(entries.len(), |i: int| (entries[i].0@, json_of(entries[i].1)))
}

/// What a node holds.
spec fn node_json(node: Node) -> Json {
    match node {
        Node::Null => Json::Null,
        Node::Bool(b) => Json::Bool(b),
        Node::Number(n) => Json::Number(n),
        Node::String(s) => Json::String(s@),
        Node::Array(items) => Json::Array(Seq::new(items@.len(), |i: int| json_of(items@[i]))),
        Node::Object(entries) => Json::Object(entries_of(entries@)),
    }
}

/// Tells the variants of `serde_json::Value` apart; an object's map hands its
/// entries out. Claimed: the node holds what the value holds, and the map
/// yields no key twice.
#[verifier::external_body]
fn open_value(v: serde_json::Value) -> (r: Node)
    ensures
        json_of(v) == node_json(r),
        r matches Node::Object(entries) ==> distinct_keys(entries_of(entries@)),
{
    match v {
        serde_json::Value::Null => Node::Null,
        serde_json::Value::Bool(b) => Node::Bool(b),
        serde_json::Value::Number(n) => Node::Number(n),
        serde_json::Value::String(s) => Node::String(s),
        serde_json::Value::Array(items) => Node::Array(items),
        serde_json::Value::Object(map) => Node::Object(map.into_iter().collect()),
    }
}

/// The value of a JSON tree that `serde_json` holds.
pub fn lift(v: serde_json::Value) -> (r: JsonValue)
    ensures
        r@ == json_of(v),
    decreases json_of(v),
{
    match open_value(v) {
        Node::Null => JsonValue::Null,
        Node::Bool(b) => JsonValue::Bool(b),
        Node::Number(n) => JsonValue::Number(n),
        Node::String(s) => JsonValue::String(s),
        Node::Array(items) => {
            let ghost source = items@;
            let mut lifted: Vec<JsonValue> = Vec::new();
            for item in it: items
                invariant
                    it.seq() == source,
                    lifted.len() == it.index(),
                    json_of(v) == Json::Array(Seq::new(source.len(), |i: int| json_of(source[i]))),
                    forall|i: int| 0 <= i < lifted.len() ==> (#[trigger] lifted@[i])@ == json_of(source[i]),
            {
                assert(json_of(v)->Array_0[it.index() as int] == json_of(source[it.index() as int]));
                lifted.push(lift(item));
            }
            let r = JsonValue::Array(lifted);
            assert(r@->Array_0 =~= json_of(v)->Array_0);
            r
        },
        Node::Object(entries) => {
            let ghost source = entries@;
            let mut lifted: Vec<(String, JsonValue)> = Vec::new();
            for entry in it: entries
                invariant
                    it.seq() == source,
                    lifted.len() == it.index(),
                    json_of(v) == Json::Object(entries_of(source)),
                    forall|i: int|
                        0 <= i < lifted.len() ==> (#[trigger] lifted@[i]).0@ == source[i].0@
                            && lifted@[i].1@ == json_of(source[i].1),
            {
                assert(json_of(v)->Object_0[it.index() as int] == (
                    source[it.index() as int].0@,
                    json_of(source[it.index() as int].1),
                ));
                assert(decreases_to!(json_of(v) => json_of(v)->Object_0[it.index() as int].1));
                let (key, item) = entry;
                lifted.push((key, lift(item)));
            }
            proof {
                let shape = JsonObject { entries: lifted };
                assert(shape.model() =~= entries_of(source));
            }
            JsonValue::Object(JsonObject { entries: lifted })
        },
    }
}

/// Puts a node back together as a `serde_json::Value`; the entries of an object
/// are collected into its map. Claimed: the value holds what the node holds.
/// The map keeps insertion order, so distinct keys stay in the order given.
#[verifier::external_body]
fn close_value(node: Node) -> (r: serde_json::Value)
    requires
        node matches Node::Object(entries) ==> distinct_keys(entries_of(entries@)),
    ensures
        json_of(r) == node_json(node),
{
    match node {
        Node::Null => serde_json::Value::Null,
        Node::Bool(b) => serde_json::Value::Bool(b),
        Node::Number(n) => serde_json::Value::Number(n),
        Node::String(s) => serde_json::Value::String(s),
        Node::Array(items) => serde_json::Value::Array(items),
        Node::Object(entries) => serde_json::Value::Object(entries.into_iter().collect()),
    }
}

/// The JSON tree of `serde_json` for a value.
pub fn lower(v: &JsonValue) -> (r: serde_json::Value)
    ensures
        json_of(r) == v@,
    decreases v,
{
    match v {
        JsonValue::Null => close_value(Node::Null),
        JsonValue::Bool(b) => close_value(Node::Bool(*b)),
        JsonValue::Number(n) => close_value(Node::Number(n.clone())),
        JsonValue::String(s) => close_value(Node::String(s.clone())),
        JsonValue::Array(items) => {
            let mut lowered: Vec<serde_json::Value> = Vec::new();
            for i in 0..items.len()
                invariant
                    *v == JsonValue::Array(*items),
                    lowered.len() == i,
                    forall|j: int| 0 <= j < i ==> json_of(#[trigger] lowered@[j]) == items@[j]@,
            {
                assert(decreases_to!(v => v->Array_0@[i as int]));
                lowered.push(lower(&items[i]));
            }
            let node = Node::Array(lowered);
            assert(node_json(node)->Array_0 =~= v@->Array_0);
            close_value(node)
        },
        JsonValue::Object(o) => {
            proof {
                use_type_invariant(o);
            }
            let mut lowered: Vec<(String, serde_json::Value)> = Vec::new();
            for i in 0..o.entries.len()
                invariant
                    *v == JsonValue::Object(*o),
                    lowered.len() == i,
                    forall|j: int|
                        0 <= j < i ==> (#[trigger] lowered@[j]).0@ == o.entries@[j].0@ && json_of(
                            lowered@[j].1,
                        ) == o.entries@[j].1@,
            {
                assert(decreases_to!(v => v->Object_0));
                assert(decreases_to!(v => v->Object_0.entries@[i as int].1));
                lowered.push((o.entries[i].0.clone(), lower(&o.entries[i].1)));
            }
            assert(entries_of(lowered@) =~= o@);
            close_value(Node::Object(lowered))
        },
    }
}

/// What `serde_json` makes of a text: the value, or the display text of the
/// error.
pub uninterp spec fn parsed_json(text: Seq<char>) -> Result<Json, Seq<char>>;

/// The text is one that `serde_json` reads as this value.
pub open spec fn parses_to(text: Seq<char>, v: Json) -> bool {
    parsed_json(text) == Ok::<Json, Seq<char>>(v)
}

/// Calls `serde_json::from_str` for a `serde_json::Value`. Claimed of it: what
/// comes back depends on the text alone.
#[verifier::external_body]
fn serde_parse(text: &str) -> (r: Result<serde_json::Value, String>)
    ensures
        match r {
            Ok(v) => parses_to(text@, json_of(v)),
            Err(e) => parsed_json(text@) == Err::<Json, Seq<char>>(e@),
        },
{
    serde_json::from_str::<serde_json::Value>(text).map_err(|e| e.to_string())
}

/// The compact JSON text that `serde_json` writes for a value.
pub uninterp spec fn json_text(v: Json) -> Seq<char>;

/// The values whose text is claimed to read back as the same value: no numbers in
/// them but integers and those whose own text parses to them (another number may
/// come back with another last digit), and no deeper nesting than the parser
/// follows.
pub open spec fn reads_back(v: Json) -> bool {
    v.numbers_read_back() && v.nested_within(127)
}

/// Plain values of moderate nesting read back.
pub proof fn lemma_plain_reads_back(v: Json, depth: nat)
    requires
        v.plain_within(depth),
        depth <= 127,
    ensures
        reads_back(v),
{
    lemma_nested_within_more(v, depth, 127);
}

/// Calls `serde_json::to_string` on a `serde_json::Value`. Claimed of it: it
/// succeeds, the text depends on what the value holds, and the text of a value
/// that [`reads_back`] covers parses to that value.
#[verifier::external_body]
fn serde_print(v: &serde_json::Value) -> (r: Result<String, String>)
    ensures
        r is Ok,
        r->Ok_0@ == json_text(json_of(*v)),
        reads_back(json_of(*v)) ==> parses_to(r->Ok_0@, json_of(*v)),
{
    serde_json::to_string(v).map_err(|e| e.to_string())
}

/// What `serde_json::Value` writes for a value under `{:?}`.
pub uninterp spec fn json_debug_text(v: Json) -> Seq<char>;

/// Formats a `serde_json::Value` with `{:?}`. Claimed: the text depends on what
/// the value holds.
#[verifier::external_body]
fn serde_debug(v: &serde_json::Value) -> (r: String)
    ensures
        r@ == json_debug_text(json_of(*v)),
{
    format!("{:?}", v)
}

/// The outcome of a parse as mathematics.
pub open spec fn parse_outcome(r: Result<JsonValue, String>) -> Result<Json, Seq<char>> {
    match r {
        Ok(v) => Ok(v@),
        Err(e) => Err(e@),
    }
}

impl JsonValue {
    /// Reads a JSON text; on failure, the display text of the parse error.
    pub fn parse(text: &str) -> (r: Result<JsonValue, String>)
        ensures
            parse_outcome(r) == parsed_json(text@),
    {
        match serde_parse(text) {
            Ok(v) => Ok(lift(v)),
            Err(e) => Err(e),
        }
    }

    /// The compact JSON text of the value. A value that [`reads_back`] covers is what
    /// the text parses to.
    pub fn to_text(&self) -> (r: Result<String, String>)
        ensures
            r is Ok,
            r->Ok_0@ == json_text(self@),
            reads_back(self@) ==> parses_to(r->Ok_0@, self@),
    {
        serde_print(&lower(self))
    }

    /// The value as `{:?}` shows it.
    pub fn debug_text(&self) -> (r: String)
        ensures
            r@ == json_debug_text(self@),
    {
        serde_debug(&lower(self))
    }
}

/// Where no key occurs twice, a key gives the value of the entry that has it, and
/// without such an entry nothing.
pub proof fn law_lookup_by_entry(entries: Seq<(Seq<char>, Json)>, key: Seq<char>, i: int)
    requires
        distinct_keys(entries),
    ensures
        0 <= i < entries.len() && entries[i].0 == key ==> lookup(entries, key) == Some(
            entries[i].1,
        ),
        0 <= i < entries.len() && entries[i].0 == key ==> Json::Object(entries).member(key) == Some(
            entries[i].1,
        ),
        (forall|j: int| 0 <= j < entries.len() ==> (#[trigger] entries[j]).0 != key) ==> lookup(
            entries,
            key,
        ) is None && Json::Object(entries).member(key) is None,
{
    lemma_position(entries, key);
    if 0 <= i < entries.len() && entries[i].0 == key {
        lemma_position_of_entry(entries, i);
    }
}

/// A member's text is what its string holds; no other member has one, and only
/// objects have members.
pub proof fn law_text_of_member(v: Json, key: Seq<char>, text: Seq<char>)
    ensures
        v.text_member(key) == Some(text) <==> v.member(key) == Some(Json::String(text)),
        !(v is Object) ==> v.member(key) is None,
        v.as_text() == Some(text) <==> v == Json::String(text),
        v matches Json::Array(items) ==> v.as_elements() == Some(items),
        !(v is Array) ==> v.as_elements() is None,
{
}

/// A member put into an object is there, and the others are as they were; a member
/// that is not there to put changes nothing.
pub proof fn law_with_member(object: Json, key: Seq<char>, value: Json, other: Seq<char>)
    requires
        well_formed_object(object),
    ensures
        object.with(key, value).member(key) == Some(value),
        other != key ==> object.with(key, value).member(other) == object.member(other),
        object.with_optional(key, Some(value)) == object.with(key, value),
        object.with_optional(key, None) == object,
        Json::object().member(key) is None,
{
    law_put_then_lookup(object->Object_0, key, value, other);
}

/// A value stands for the JSON of its own kind, with what it holds.
pub proof fn law_tree_of_value(text: String, flag: bool, number: serde_json::Number)
    ensures
        JsonValue::Null@ == Json::Null,
        JsonValue::Bool(flag)@ == Json::Bool(flag),
        JsonValue::Number(number)@ == Json::Number(number),
        JsonValue::String(text)@ == Json::String(text@),
{
}

/// An array stands for the JSON array of its elements, in order.
pub proof fn law_tree_of_array(items: Vec<JsonValue>)
    ensures
        JsonValue::Array(items)@ matches Json::Array(trees) && trees.len() == items@.len()
            && forall|
            i: int,
        |
            0 <= i < trees.len() ==> (#[trigger] trees[i]) == items@[i]@,
{
}

/// Texts, flags and null read back, and so does what holds only such, up to the
/// nesting that the parser follows.
pub proof fn law_plain_values_read_back(items: Seq<Json>, text: Seq<char>, flag: bool)
    requires
        forall|i: int|
            0 <= i < items.len() ==> (#[trigger] items[i]) is String || items[i] is Bool
                || items[i] is Null,
    ensures
        reads_back(Json::Null),
        reads_back(Json::Bool(flag)),
        reads_back(Json::String(text)),
        reads_back(Json::Array(items)),
        reads_back(Json::object()),
{
    assert forall|i: int| 0 <= i < items.len() implies (#[trigger] items[i]).numbers_read_back()
        && items[i].nested_within(126) by {
        assert(items[i] is String || items[i] is Bool || items[i] is Null);
    }
}

/// What came of parsing stands for the same value or the same words; values stand for
/// their trees, in order.
pub proof fn law_views_of_values(value: JsonValue, error: String, values: Seq<JsonValue>, i: int)
    ensures
        parse_outcome(Ok(value)) == Ok::<Json, Seq<char>>(value@),
        parse_outcome(Err(error)) == Err::<Json, Seq<char>>(error@),
        tree_option(Some(value)) == Some(value@),
        tree_option(None) is None,
        trees(values).len() == values.len(),
        0 <= i < values.len() ==> trees(values)[i] == values[i]@,
{
}

} // verus!

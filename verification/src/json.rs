//! Log records as values: objects whose members are set one after the
//! other, ready for a sink to write them out.
//!
//! Text is held as octets. What comes off the wire need not be UTF-8; the
//! sink decodes it and replaces what is not.

use vstd::prelude::*;
use vstd::string::StringSliceAdditionalSpecFns;

use crate::bytes::{bytes_eq, to_vec};

verus! {

/// A value that holds no other object.
#[derive(Debug, PartialEq, Eq)]
pub enum JsonLeaf {
    String(Vec<u8>),
    Integer(u64),
    Bool(bool),
    Array(Vec<Vec<u8>>),
}

/// A member of an object within an object.
#[derive(Debug, PartialEq, Eq)]
pub struct JsonLeafMember {
    pub key: &'static str,
    pub value: JsonLeaf,
}

/// An object within an object: its members hold no further objects.
#[derive(Debug, PartialEq, Eq)]
pub struct JsonObject {
    pub members: Vec<JsonLeafMember>,
}

/// A value of a log record.
#[derive(Debug, PartialEq, Eq)]
pub enum JsonValue {
    Leaf(JsonLeaf),
    Object(JsonObject),
}

/// A member of a log record.
#[derive(Debug, PartialEq, Eq)]
pub struct JsonMember {
    pub key: &'static str,
    pub value: JsonValue,
}

/// A log record: an object with its members in the order in which their
/// keys were first set.
#[derive(Debug, PartialEq, Eq)]
pub struct Json {
    pub members: Vec<JsonMember>,
}

/// Mathematical value of a [`JsonLeaf`].
pub enum LeafView {
    String(Seq<u8>),
    Integer(u64),
    Bool(bool),
    Array(Seq<Seq<u8>>),
}

/// Mathematical value of a [`JsonValue`].
pub enum ValueView {
    Leaf(LeafView),
    Object(Seq<(Seq<u8>, LeafView)>),
}

impl View for JsonLeaf {
    type V = LeafView;

    open spec fn view(&self) -> LeafView {
        match self {
            JsonLeaf::String(text) => LeafView::String(text@),
            JsonLeaf::Integer(n) => LeafView::Integer(*n),
            JsonLeaf::Bool(b) => LeafView::Bool(*b),
            JsonLeaf::Array(items) => LeafView::Array(items@.map_values(|t: Vec<u8>| t@)),
        }
    }
}

impl View for JsonObject {
    type V = Seq<(Seq<u8>, LeafView)>;

    open spec fn view(&self) -> Seq<(Seq<u8>, LeafView)> {
        self.members@.map_values(|m: JsonLeafMember| (m.key.spec_bytes(), m.value@))
    }
}

impl View for JsonValue {
    type V = ValueView;

    open spec fn view(&self) -> ValueView {
        match self {
            JsonValue::Leaf(leaf) => ValueView::Leaf(leaf@),
            JsonValue::Object(object) => ValueView::Object(object@),
        }
    }
}

impl View for Json {
    type V = Seq<(Seq<u8>, ValueView)>;

    open spec fn view(&self) -> Seq<(Seq<u8>, ValueView)> {
        self.members@.map_values(|m: JsonMember| (m.key.spec_bytes(), m.value@))
    }
}

/// The index of the first member of `members` under `key`; the number of
/// members where there is none.
pub open spec fn spec_key_index<V>(members: Seq<(Seq<u8>, V)>, key: Seq<u8>) -> int
    decreases members.len(),
{
    if members.len() == 0 || members[0].0 == key {
        0
    } else {
        1 + spec_key_index(members.drop_first(), key)
    }
}

/// `members` with `value` under `key`: in the place of the member that was
/// there under that key, or behind the other members.
pub open spec fn spec_set<V>(members: Seq<(Seq<u8>, V)>, key: Seq<u8>, value: V) -> Seq<
    (Seq<u8>, V),
> {
    let at = spec_key_index(members, key);
    if at < members.len() {
        members.update(at, (key, value))
    } else {
        members.push((key, value))
    }
}

/// The text of `s` as octets.
pub fn text(s: &str) -> (r: Vec<u8>)
    ensures
        r@ == s.spec_bytes(),
{
    to_vec(s.as_bytes())
}

/// The digit of `value` in a base of up to sixteen, in lower case.
pub open spec fn spec_digit_char(value: nat) -> u8 {
    if value < 10 {
        (0x30 + value) as u8
    } else {
        (0x61 + value - 10) as u8
    }
}

/// `n` written in base ten, without leading zeros.
pub open spec fn spec_decimal_text(n: nat) -> Seq<u8>
    decreases n,
{
    if n < 10 {
        seq![spec_digit_char(n)]
    } else {
        spec_decimal_text(n / 10).push(spec_digit_char(n % 10))
    }
}

/// `n` written in base sixteen, in lower case and without leading zeros.
pub open spec fn spec_hex_text(n: nat) -> Seq<u8>
    decreases n,
{
    if n < 16 {
        seq![spec_digit_char(n)]
    } else {
        spec_hex_text(n / 16).push(spec_digit_char(n % 16))
    }
}

/// The digit of `value`, below sixteen, in lower case.
pub fn digit_char(value: u8) -> (r: u8)
    requires
        value < 16,
    ensures
        r == spec_digit_char(value as nat),
{
    if value < 10 {
        0x30 + value
    } else {
        0x61 + value - 10
    }
}

/// Writes `n` in base ten.
pub fn decimal_text(n: u64) -> (r: Vec<u8>)
    ensures
        r@ == spec_decimal_text(n as nat),
    decreases n,
{
    if n < 10 {
        let mut out: Vec<u8> = Vec::new();
        out.push(digit_char(n as u8));
        assert(out@ =~= seq![spec_digit_char(n as nat)]);
        out
    } else {
        let mut out = decimal_text(n / 10);
        out.push(digit_char((n % 10) as u8));
        out
    }
}

/// Writes `n` in base sixteen, in lower case.
pub fn hex_text(n: u64) -> (r: Vec<u8>)
    ensures
        r@ == spec_hex_text(n as nat),
    decreases n,
{
    let digit = digit_char((n % 16) as u8);
    if n < 16 {
        let mut out: Vec<u8> = Vec::new();
        out.push(digit);
        assert(out@ =~= seq![spec_digit_char(n as nat)]);
        out
    } else {
        let mut out = hex_text(n / 16);
        out.push(digit);
        out
    }
}

impl JsonObject {
    /// An object without members.
    pub fn object() -> (js: JsonObject)
        ensures
            js@ == Seq::<(Seq<u8>, LeafView)>::empty(),
    {
        let js = JsonObject { members: Vec::new() };
        assert(js@ =~= Seq::empty());
        js
    }

    /// The index of the first member under `key`, or the number of
    /// members.
    fn key_index(&self, key: &str) -> (index: usize)
        ensures
            index == spec_key_index(self@, key.spec_bytes()),
            index <= self.members@.len(),
    {
        let len = self.members.len();
        let mut i: usize = 0;
        assert(self@.skip(0) =~= self@);
        while i < len
            invariant
                i <= len,
                len == self.members@.len(),
                spec_key_index(self@, key.spec_bytes()) == i + spec_key_index(
                    self@.skip(i as int),
                    key.spec_bytes(),
                ),
            decreases len - i,
        {
            let ghost rest = self@.skip(i as int);
            assert(rest[0] == (self.members@[i as int].key.spec_bytes(), self.members@[i as int].value@));
            assert(rest.drop_first() =~= self@.skip(i + 1));
            if bytes_eq(self.members[i].key.as_bytes(), key.as_bytes()) {
                return i;
            }
            i += 1;
        }
        len
    }

    /// Sets the member `key` to `value`.
    pub fn set_leaf(&mut self, key: &'static str, value: JsonLeaf)
        ensures
            final(self)@ == spec_set(old(self)@, key.spec_bytes(), value@),
    {
        let index = self.key_index(key);
        let ghost before = self.members@;
        if index < self.members.len() {
            self.members[index].value = value;
            self.members[index].key = key;
            assert(self@ =~= old(self)@.update(index as int, (key.spec_bytes(), value@)));
        } else {
            self.members.push(JsonLeafMember { key, value });
            assert(self@ =~= old(self)@.push((key.spec_bytes(), value@)));
        }
    }

    /// Sets the member `key` to the text `value`.
    pub fn set_string(&mut self, key: &'static str, value: &[u8])
        ensures
            final(self)@ == spec_set(old(self)@, key.spec_bytes(), LeafView::String(value@)),
    {
        self.set_leaf(key, JsonLeaf::String(to_vec(value)));
    }

    /// Sets the member `key` to the number `value`.
    pub fn set_integer(&mut self, key: &'static str, value: u64)
        ensures
            final(self)@ == spec_set(old(self)@, key.spec_bytes(), LeafView::Integer(value)),
    {
        self.set_leaf(key, JsonLeaf::Integer(value));
    }

    /// Sets the member `key` to the truth value `value`.
    pub fn set_boolean(&mut self, key: &'static str, value: bool)
        ensures
            final(self)@ == spec_set(old(self)@, key.spec_bytes(), LeafView::Bool(value)),
    {
        self.set_leaf(key, JsonLeaf::Bool(value));
    }

    /// Sets the member `key` to the list of texts `value`.
    pub fn set_array(&mut self, key: &'static str, value: Vec<Vec<u8>>)
        ensures
            final(self)@ == spec_set(
                old(self)@,
                key.spec_bytes(),
                LeafView::Array(spec_texts(value@)),
            ),
    {
        self.set_leaf(key, JsonLeaf::Array(value));
    }
}

/// The values of a list of texts, in order.
pub open spec fn spec_texts(list: Seq<Vec<u8>>) -> Seq<Seq<u8>> {
    list.map_values(|t: Vec<u8>| t@)
}

impl Json {
    /// A record without members.
    pub fn object() -> (js: Json)
        ensures
            js@ == Seq::<(Seq<u8>, ValueView)>::empty(),
    {
        let js = Json { members: Vec::new() };
        assert(js@ =~= Seq::empty());
        js
    }

    /// The index of the first member under `key`, or the number of
    /// members.
    fn key_index(&self, key: &str) -> (index: usize)
        ensures
            index == spec_key_index(self@, key.spec_bytes()),
            index <= self.members@.len(),
    {
        let len = self.members.len();
        let mut i: usize = 0;
        assert(self@.skip(0) =~= self@);
        while i < len
            invariant
                i <= len,
                len == self.members@.len(),
                spec_key_index(self@, key.spec_bytes()) == i + spec_key_index(
                    self@.skip(i as int),
                    key.spec_bytes(),
                ),
            decreases len - i,
        {
            let ghost rest = self@.skip(i as int);
            assert(rest[0] == (self.members@[i as int].key.spec_bytes(), self.members@[i as int].value@));
            assert(rest.drop_first() =~= self@.skip(i + 1));
            if bytes_eq(self.members[i].key.as_bytes(), key.as_bytes()) {
                return i;
            }
            i += 1;
        }
        len
    }

    /// Sets the member `key` to `value`.
    pub fn set_value(&mut self, key: &'static str, value: JsonValue)
        ensures
            final(self)@ == spec_set(old(self)@, key.spec_bytes(), value@),
    {
        let index = self.key_index(key);
        if index < self.members.len() {
            self.members[index].value = value;
            self.members[index].key = key;
            assert(self@ =~= old(self)@.update(index as int, (key.spec_bytes(), value@)));
        } else {
            self.members.push(JsonMember { key, value });
            assert(self@ =~= old(self)@.push((key.spec_bytes(), value@)));
        }
    }

    /// Sets the member `key` to the text `value`.
    pub fn set_string(&mut self, key: &'static str, value: &[u8])
        ensures
            final(self)@ == spec_set(
                old(self)@,
                key.spec_bytes(),
                ValueView::Leaf(LeafView::String(value@)),
            ),
    {
        self.set_value(key, JsonValue::Leaf(JsonLeaf::String(to_vec(value))));
    }

    /// Sets the member `key` to the number `value`.
    pub fn set_integer(&mut self, key: &'static str, value: u64)
        ensures
            final(self)@ == spec_set(
                old(self)@,
                key.spec_bytes(),
                ValueView::Leaf(LeafView::Integer(value)),
            ),
    {
        self.set_value(key, JsonValue::Leaf(JsonLeaf::Integer(value)));
    }

    /// Sets the member `key` to the truth value `value`.
    pub fn set_boolean(&mut self, key: &'static str, value: bool)
        ensures
            final(self)@ == spec_set(
                old(self)@,
                key.spec_bytes(),
                ValueView::Leaf(LeafView::Bool(value)),
            ),
    {
        self.set_value(key, JsonValue::Leaf(JsonLeaf::Bool(value)));
    }

    /// Sets the member `key` to the list of texts `value`.
    pub fn set_array(&mut self, key: &'static str, value: Vec<Vec<u8>>)
        ensures
            final(self)@ == spec_set(
                old(self)@,
                key.spec_bytes(),
                ValueView::Leaf(LeafView::Array(spec_texts(value@))),
            ),
    {
        self.set_value(key, JsonValue::Leaf(JsonLeaf::Array(value)));
    }

    /// Sets the member `key` to the object `value`.
    pub fn set(&mut self, key: &'static str, value: JsonObject)
        ensures
            final(self)@ == spec_set(old(self)@, key.spec_bytes(), ValueView::Object(value@)),
    {
        self.set_value(key, JsonValue::Object(value));
    }
}

} // verus!

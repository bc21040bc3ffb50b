//! Compact JSON documents, as far as fingerprints are taken over them.

use vstd::prelude::*;
use vstd::string::*;

use crate::text::{decimal, push_decimal};

verus! {

/// The error type of `serde_json`; nothing inside a value of it is looked at.
#[verifier::external_type_specification]
#[verifier::external_body]
pub struct ExSerdeJsonError(serde_json::Error);

/// How a character stands inside a string literal: a quotation mark and a backslash behind a
/// backslash, the control characters by a short escape or by their code, the rest as they are.
pub open spec fn json_char(c: char) -> Seq<char> {
    if c == '"' {
        seq!['\\', '"']
    } else if c == '\\' {
        seq!['\\', '\\']
    } else if c == '\u{8}' {
        seq!['\\', 'b']
    } else if c == '\t' {
        seq!['\\', 't']
    } else if c == '\n' {
        seq!['\\', 'n']
    } else if c == '\u{c}' {
        seq!['\\', 'f']
    } else if c == '\r' {
        seq!['\\', 'r']
    } else if (c as int) < 0x20 {
        seq![
            '\\',
            'u',
            '0',
            '0',
            crate::digest::hex_char(c as int / 16),
            crate::digest::hex_char(c as int % 16),
        ]
    } else {
        seq![c]
    }
}

/// How the characters of a text stand inside its literal.
pub open spec fn json_chars(s: Seq<char>) -> Seq<char>
    decreases s.len(),
{
    if s.len() == 0 {
        Seq::empty()
    } else {
        json_chars(s.drop_last()) + json_char(s.last())
    }
}

/// The JSON string literal of a text.
#[verifier::opaque]
pub open spec fn json_text(s: Seq<char>) -> Seq<char> {
    (seq!['"'] + json_chars(s)).push('"')
}

/// Calls `serde_json::to_string` on a string slice. It writes the text between quotation marks,
/// with quotation marks, backslashes and the control characters below U+0020 escaped and every
/// other character as it is. Serialising a string into memory has no failing case.
#[verifier::external_body]
pub(crate) fn serialize_text(s: &str) -> (literal: Result<String, serde_json::Error>)
    ensures
        literal is Ok,
        literal->Ok_0@ == json_text(s@),
{
    serde_json::to_string(s)
}

/// The JSON string literal of a text.
pub fn quoted(s: &str) -> (literal: String)
    ensures
        literal@ == json_text(s@),
{
    match serialize_text(s) {
        Ok(literal) => literal,
        Err(_) => String::new(),
    }
}

/// Parts separated by commas.
pub open spec fn json_joined(parts: Seq<Seq<char>>) -> Seq<char>
    decreases parts.len(),
{
    if parts.len() == 0 {
        Seq::empty()
    } else if parts.len() == 1 {
        parts[0]
    } else {
        json_joined(parts.drop_last()).push(',') + parts.last()
    }
}

#[verifier::opaque]
pub open spec fn json_array(parts: Seq<Seq<char>>) -> Seq<char> {
    (seq!['['] + json_joined(parts)).push(']')
}

#[verifier::opaque]
pub open spec fn json_object(fields: Seq<Seq<char>>) -> Seq<char> {
    (seq!['{'] + json_joined(fields)).push('}')
}

/// One member of an object.
#[verifier::opaque]
pub open spec fn json_field(key: Seq<char>, value: Seq<char>) -> Seq<char> {
    json_text(key).push(':') + value
}

#[verifier::opaque]
pub open spec fn json_number(n: int) -> Seq<char> {
    if n < 0 {
        seq!['-'] + crate::text::decimal_text((-n) as nat)
    } else {
        crate::text::decimal_text(n as nat)
    }
}

#[verifier::opaque]
pub open spec fn json_bool(b: bool) -> Seq<char> {
    if b {
        seq!['t', 'r', 'u', 'e']
    } else {
        seq!['f', 'a', 'l', 's', 'e']
    }
}

pub open spec fn json_null() -> Seq<char> {
    seq!['n', 'u', 'l', 'l']
}

pub open spec fn json_opt_text(s: Option<Seq<char>>) -> Seq<char> {
    match s {
        Some(t) => json_text(t),
        None => json_null(),
    }
}

pub open spec fn json_opt_number(n: Option<int>) -> Seq<char> {
    match n {
        Some(v) => json_number(v),
        None => json_null(),
    }
}

pub open spec fn json_opt_bool(b: Option<bool>) -> Seq<char> {
    match b {
        Some(v) => json_bool(v),
        None => json_null(),
    }
}

#[verifier::opaque]
pub open spec fn json_texts(items: Seq<Seq<char>>) -> Seq<char> {
    json_array(items.map_values(|t: Seq<char>| json_text(t)))
}

#[verifier::opaque]
pub open spec fn json_numbers(items: Seq<u32>) -> Seq<char> {
    json_array(items.map_values(|n: u32| json_number(n as int)))
}

/// The parts of a document under construction.
pub struct Parts {
    pub items: Vec<String>,
}

impl View for Parts {
    type V = Seq<Seq<char>>;

    open spec fn view(&self) -> Seq<Seq<char>> {
        crate::text::texts(self.items@)
    }
}

impl Parts {
    pub fn new() -> (parts: Self)
        ensures
            parts@ == Seq::<Seq<char>>::empty(),
    {
        let parts = Parts { items: Vec::new() };
        assert(parts@ =~= Seq::<Seq<char>>::empty());
        parts
    }

    /// Appends one finished part.
    pub fn push(&mut self, part: String)
        ensures
            final(self)@ == old(self)@.push(part@),
    {
        self.items.push(part);
        assert(self@ =~= old(self)@.push(part@));
    }

    pub fn push_text(&mut self, s: &str)
        ensures
            final(self)@ == old(self)@.push(json_text(s@)),
    {
        self.push(quoted(s));
    }

    pub fn push_number(&mut self, n: u64)
        ensures
            final(self)@ == old(self)@.push(json_number(n as int)),
    {
        proof {
            reveal(json_number);
        }
        self.push(decimal(n));
    }

    pub fn push_bool(&mut self, b: bool)
        ensures
            final(self)@ == old(self)@.push(json_bool(b)),
    {
        self.push(bool_literal(b));
    }

    pub fn push_opt_text(&mut self, s: &Option<String>)
        ensures
            final(self)@ == old(self)@.push(json_opt_text(crate::text::opt_text(*s))),
    {
        self.push(opt_text_literal(s));
    }

    /// Appends one member of an object.
    pub fn field(&mut self, key: &str, value: String)
        ensures
            final(self)@ == old(self)@.push(json_field(key@, value@)),
    {
        proof {
            reveal(json_field);
        }
        let mut member = quoted(key);
        member.push(':');
        member.append(value.as_str());
        self.push(member);
    }

    pub fn field_text(&mut self, key: &str, s: &str)
        ensures
            final(self)@ == old(self)@.push(json_field(key@, json_text(s@))),
    {
        self.field(key, quoted(s));
    }

    pub fn field_number(&mut self, key: &str, n: u64)
        ensures
            final(self)@ == old(self)@.push(json_field(key@, json_number(n as int))),
    {
        proof {
            reveal(json_number);
        }
        self.field(key, decimal(n));
    }

    pub fn field_bool(&mut self, key: &str, b: bool)
        ensures
            final(self)@ == old(self)@.push(json_field(key@, json_bool(b))),
    {
        self.field(key, bool_literal(b));
    }

    pub fn field_opt_text(&mut self, key: &str, s: &Option<String>)
        ensures
            final(self)@ == old(self)@.push(
                json_field(key@, json_opt_text(crate::text::opt_text(*s))),
            ),
    {
        self.field(key, opt_text_literal(s));
    }

    fn joined(&self) -> (text: String)
        ensures
            text@ == json_joined(self@),
    {
        let mut text = String::new();
        let mut i: usize = 0;
        while i < self.items.len()
            invariant
                i <= self.items.len(),
                text@ == json_joined(self@.take(i as int)),
            decreases self.items.len() - i,
        {
            let ghost before = text@;
            if i > 0 {
                text.push(',');
            }
            text.append(self.items[i].as_str());
            proof {
                assert(self@.take(i + 1).drop_last() =~= self@.take(i as int));
                assert(self@.take(i + 1).last() == self.items@[i as int]@);
                if i == 0 {
                    assert(before =~= Seq::<char>::empty());
                    assert(text@ =~= self.items@[0]@);
                }
            }
            i += 1;
        }
        assert(self@.take(self@.len() as int) =~= self@);
        text
    }

    /// The parts as a JSON array.
    pub fn array(&self) -> (text: String)
        ensures
            text@ == json_array(self@),
    {
        proof {
            reveal(json_array);
        }
        let mut text = String::new();
        text.push('[');
        text.append(self.joined().as_str());
        text.push(']');
        assert(text@ =~= json_array(self@));
        text
    }

    /// The parts, each a member, as a JSON object.
    pub fn object(&self) -> (text: String)
        ensures
            text@ == json_object(self@),
    {
        proof {
            reveal(json_object);
        }
        let mut text = String::new();
        text.push('{');
        text.append(self.joined().as_str());
        text.push('}');
        assert(text@ =~= json_object(self@));
        text
    }
}

pub fn bool_literal(b: bool) -> (text: String)
    ensures
        text@ == json_bool(b),
{
    proof {
        reveal(json_bool);
    }
    let mut text = String::new();
    if b {
        text.push('t');
        text.push('r');
        text.push('u');
        text.push('e');
    } else {
        text.push('f');
        text.push('a');
        text.push('l');
        text.push('s');
        text.push('e');
    }
    assert(text@ =~= json_bool(b));
    text
}

pub fn null_literal() -> (text: String)
    ensures
        text@ == json_null(),
{
    let mut text = String::new();
    text.push('n');
    text.push('u');
    text.push('l');
    text.push('l');
    assert(text@ =~= json_null());
    text
}

pub fn opt_text_literal(s: &Option<String>) -> (text: String)
    ensures
        text@ == json_opt_text(crate::text::opt_text(*s)),
{
    match s {
        Some(t) => quoted(t.as_str()),
        None => null_literal(),
    }
}

/// The literal of a signed number.
pub fn signed_literal(n: i32) -> (text: String)
    ensures
        text@ == json_number(n as int),
{
    proof {
        reveal(json_number);
    }
    if n < 0 {
        let mut text = String::new();
        text.push('-');
        push_decimal(&mut text, (-(n as i64)) as u64);
        assert(text@ =~= json_number(n as int));
        text
    } else {
        decimal(n as u64)
    }
}

pub fn opt_signed_literal(n: Option<i32>) -> (text: String)
    ensures
        text@ == json_opt_number(
            match n {
                Some(v) => Some(v as int),
                None => None,
            },
        ),
{
    match n {
        Some(v) => signed_literal(v),
        None => null_literal(),
    }
}

pub fn opt_bool_literal(b: Option<bool>) -> (text: String)
    ensures
        text@ == json_opt_bool(b),
{
    match b {
        Some(v) => bool_literal(v),
        None => null_literal(),
    }
}

/// The JSON array of a list of texts.
pub fn texts_literal(items: &Vec<String>) -> (text: String)
    ensures
        text@ == json_texts(crate::text::texts(items@)),
{
    proof {
        reveal(json_texts);
    }
    let mut parts = Parts::new();
    let ghost all = crate::text::texts(items@).map_values(|t: Seq<char>| json_text(t));
    let mut i: usize = 0;
    while i < items.len()
        invariant
            i <= items.len(),
            all == crate::text::texts(items@).map_values(|t: Seq<char>| json_text(t)),
            parts@ == all.take(i as int),
        decreases items.len() - i,
    {
        parts.push_text(items[i].as_str());
        assert(all.take(i + 1) =~= all.take(i as int).push(json_text(items@[i as int]@)));
        i += 1;
    }
    assert(all.take(all.len() as int) =~= all);
    parts.array()
}

/// The JSON array of a list of step numbers.
pub fn numbers_literal(items: &Vec<u32>) -> (text: String)
    ensures
        text@ == json_numbers(items@),
{
    proof {
        reveal(json_numbers);
        reveal(json_number);
    }
    let mut parts = Parts::new();
    let ghost all = items@.map_values(|n: u32| json_number(n as int));
    let mut i: usize = 0;
    while i < items.len()
        invariant
            i <= items.len(),
            all == items@.map_values(|n: u32| json_number(n as int)),
            parts@ == all.take(i as int),
        decreases items.len() - i,
    {
        parts.push_number(items[i] as u64);
        assert(all.take(i + 1) =~= all.take(i as int).push(json_number(items@[i as int] as int)));
        i += 1;
    }
    assert(all.take(all.len() as int) =~= all);
    parts.array()
}

} // verus!

//! JSON documents can be read back: what was written into one is all in it.

use vstd::prelude::*;

use crate::text;
use crate::json;
use crate::digest;

verus! {

/// Where a reader of a document stands: how many brackets are open, and whether a string literal is.
pub struct Reading {
    pub depth: int,
    pub quoted: bool,
    pub escaped: bool,
}

/// A reader outside all brackets and literals.
pub open spec fn outside() -> Reading {
    Reading { depth: 0, quoted: false, escaped: false }
}

/// A reader inside a literal that stands outside all brackets.
pub open spec fn inside_literal() -> Reading {
    Reading { depth: 0, quoted: true, escaped: false }
}

/// One character further.
pub open spec fn read_char(at: Reading, c: char) -> Reading {
    if at.quoted {
        if at.escaped {
            Reading { escaped: false, ..at }
        } else if c == '\\' {
            Reading { escaped: true, ..at }
        } else if c == '"' {
            Reading { quoted: false, ..at }
        } else {
            at
        }
    } else if c == '"' {
        Reading { quoted: true, ..at }
    } else if c == '[' || c == '{' {
        Reading { depth: at.depth + 1, ..at }
    } else if c == ']' || c == '}' {
        Reading { depth: at.depth - 1, ..at }
    } else {
        at
    }
}

/// All characters further.
pub open spec fn read_all(at: Reading, s: Seq<char>) -> Reading
    decreases s.len(),
{
    if s.len() == 0 {
        at
    } else {
        read_char(read_all(at, s.drop_last()), s.last())
    }
}

/// The same place, more brackets deep.
pub open spec fn deeper(at: Reading, d: int) -> Reading {
    Reading { depth: at.depth + d, ..at }
}

/// What ends a value of an array or an object.
pub open spec fn ends_value(c: char) -> bool {
    c == ',' || c == ']' || c == '}'
}

/// Whole values and what separates them: every bracket and literal is closed again.
pub closed spec fn is_balanced(s: Seq<char>) -> bool {
    &&& read_all(outside(), s) == outside()
    &&& forall|i: int| 0 <= i <= s.len() ==> read_all(outside(), #[trigger] s.take(i)).depth >= 0
}

/// One value: whole, not empty, and without anything that would end it from outside.
pub closed spec fn is_value(s: Seq<char>) -> bool {
    &&& s.len() > 0
    &&& is_balanced(s)
    &&& forall|i: int|
        0 <= i < s.len() && ends_value(s[i]) ==> read_all(outside(), #[trigger] s.take(i))
            != outside()
}

/// All parts are values.
pub closed spec fn are_values(parts: Seq<Seq<char>>) -> bool {
    forall|i: int| 0 <= i < parts.len() ==> is_value(#[trigger] parts[i])
}

proof fn lemma_read_concat(at: Reading, a: Seq<char>, b: Seq<char>)
    ensures
        read_all(at, a + b) == read_all(read_all(at, a), b),
    decreases b.len(),
{
    if b.len() == 0 {
        assert(a + b =~= a);
    } else {
        assert((a + b).drop_last() =~= a + b.drop_last());
        lemma_read_concat(at, a, b.drop_last());
    }
}

proof fn lemma_read_deeper(at: Reading, d: int, s: Seq<char>)
    ensures
        read_all(deeper(at, d), s) == deeper(read_all(at, s), d),
    decreases s.len(),
{
    if s.len() > 0 {
        lemma_read_deeper(at, d, s.drop_last());
    }
}

proof fn lemma_balanced_concat(a: Seq<char>, b: Seq<char>)
    requires
        is_balanced(a),
        is_balanced(b),
    ensures
        is_balanced(a + b),
{
    lemma_read_concat(outside(), a, b);
    assert forall|i: int| 0 <= i <= (a + b).len() implies read_all(
        outside(),
        #[trigger] (a + b).take(i),
    ).depth >= 0 by {
        if i <= a.len() {
            assert((a + b).take(i) =~= a.take(i));
        } else {
            assert((a + b).take(i) =~= a + b.take(i - a.len()));
            lemma_read_concat(outside(), a, b.take(i - a.len()));
        }
    }
}

proof fn lemma_value_concat(a: Seq<char>, b: Seq<char>)
    requires
        is_value(a),
        is_value(b),
    ensures
        is_value(a + b),
{
    lemma_balanced_concat(a, b);
    assert forall|i: int| 0 <= i < (a + b).len() && ends_value((a + b)[i]) implies read_all(
        outside(),
        #[trigger] (a + b).take(i),
    ) != outside() by {
        if i < a.len() {
            assert((a + b).take(i) =~= a.take(i));
        } else {
            assert((a + b).take(i) =~= a + b.take(i - a.len()));
            lemma_read_concat(outside(), a, b.take(i - a.len()));
        }
    }
}

/// A character that neither opens, closes nor separates anything.
pub open spec fn is_plain_char(c: char) -> bool {
    c != '"' && c != '[' && c != ']' && c != '{' && c != '}' && c != ','
}

proof fn lemma_plain_read(s: Seq<char>)
    requires
        forall|i: int| 0 <= i < s.len() ==> is_plain_char(#[trigger] s[i]),
    ensures
        read_all(outside(), s) == outside(),
    decreases s.len(),
{
    if s.len() > 0 {
        lemma_plain_read(s.drop_last());
    }
}

proof fn lemma_plain_value(s: Seq<char>)
    requires
        s.len() > 0,
        forall|i: int| 0 <= i < s.len() ==> is_plain_char(#[trigger] s[i]),
    ensures
        is_value(s),
{
    lemma_plain_read(s);
    assert forall|i: int| 0 <= i <= s.len() implies read_all(outside(), #[trigger] s.take(i))
        == outside() by {
        lemma_plain_read(s.take(i));
    }
}

proof fn lemma_escape_read(s: Seq<char>, k: int)
    requires
        0 <= k <= s.len(),
        s.len() > 0,
        s[0] == '\\' || (s.len() == 1 && s[0] != '"'),
        forall|i: int| 2 <= i < s.len() ==> #[trigger] s[i] != '"' && s[i] != '\\',
    ensures
        read_all(inside_literal(), s.take(k)) == (Reading {
            escaped: k == 1 && s[0] == '\\',
            ..inside_literal()
        }),
    decreases k,
{
    if k > 0 {
        lemma_escape_read(s, k - 1);
        assert(s.take(k).drop_last() =~= s.take(k - 1));
        assert(s.take(k).last() == s[k - 1]);
    }
}

proof fn lemma_char_read(c: char, k: int)
    requires
        0 <= k <= json::json_char(c).len(),
    ensures
        read_all(inside_literal(), json::json_char(c)) == inside_literal(),
        read_all(inside_literal(), json::json_char(c).take(k)).quoted,
        read_all(inside_literal(), json::json_char(c).take(k)).depth == 0,
{
    let s = json::json_char(c);
    lemma_escape_read(s, s.len() as int);
    lemma_escape_read(s, k);
    assert(s.take(s.len() as int) =~= s);
}

proof fn lemma_chars_read(s: Seq<char>, k: int)
    requires
        0 <= k <= json::json_chars(s).len(),
    ensures
        read_all(inside_literal(), json::json_chars(s)) == inside_literal(),
        read_all(inside_literal(), json::json_chars(s).take(k)).quoted,
        read_all(inside_literal(), json::json_chars(s).take(k)).depth == 0,
    decreases s.len(),
{
    let whole = json::json_chars(s);
    if s.len() == 0 {
        assert(whole.take(k) =~= whole);
    } else {
        let a = json::json_chars(s.drop_last());
        let b = json::json_char(s.last());
        lemma_chars_read(s.drop_last(), a.len() as int);
        lemma_char_read(s.last(), b.len() as int);
        lemma_read_concat(inside_literal(), a, b);
        if k <= a.len() {
            lemma_chars_read(s.drop_last(), k);
            assert(whole.take(k) =~= a.take(k));
        } else {
            assert(whole.take(k) =~= a + b.take(k - a.len()));
            lemma_read_concat(inside_literal(), a, b.take(k - a.len()));
            lemma_char_read(s.last(), k - a.len());
        }
    }
}

/// A string literal is a value.
pub broadcast proof fn text_is_value(s: Seq<char>)
    ensures
        #[trigger] is_value(json::json_text(s)),
{
    reveal(json::json_text);
    let literal = json::json_text(s);
    let inner = json::json_chars(s);
    let open = seq!['"'];
    reveal_with_fuel(read_all, 2);
    assert(read_all(outside(), open) == inside_literal());
    assert forall|i: int| 1 <= i < literal.len() implies read_all(
        outside(),
        #[trigger] literal.take(i),
    ).quoted && read_all(outside(), literal.take(i)).depth == 0 by {
        assert(literal.take(i) =~= open + inner.take(i - 1));
        lemma_read_concat(outside(), open, inner.take(i - 1));
        lemma_chars_read(s, i - 1);
    }
    assert(literal.drop_last() =~= open + inner);
    lemma_read_concat(outside(), open, inner);
    lemma_chars_read(s, 0);
    assert(literal.take(0) =~= Seq::<char>::empty());
    assert(literal.take(literal.len() as int) =~= literal);
}

proof fn lemma_decimal_plain(n: nat)
    ensures
        text::decimal_text(n).len() > 0,
        forall|i: int|
            0 <= i < text::decimal_text(n).len() ==> is_plain_char(#[trigger] text::decimal_text(n)[i])
                && text::decimal_text(n)[i] != '-' && text::decimal_text(n)[i] != 'n',
{
    text::lemma_decimal_digits(n);
    assert forall|i: int| 0 <= i < text::decimal_text(n).len() implies is_plain_char(
        #[trigger] text::decimal_text(n)[i],
    ) && text::decimal_text(n)[i] != '-' && text::decimal_text(n)[i] != 'n' by {
        assert(text::is_digit_char(text::decimal_text(n)[i]));
    }
}

/// A number is a value.
pub broadcast proof fn number_is_value(n: int)
    ensures
        #[trigger] is_value(json::json_number(n)),
{
    reveal(json::json_number);
    if n < 0 {
        lemma_decimal_plain((-n) as nat);
    } else {
        lemma_decimal_plain(n as nat);
    }
    lemma_plain_value(json::json_number(n));
}

/// A truth value is a value.
pub broadcast proof fn bool_is_value(b: bool)
    ensures
        #[trigger] is_value(json::json_bool(b)),
{
    reveal(json::json_bool);
    lemma_plain_value(json::json_bool(b));
}

/// An absent value is a value.
pub proof fn null_is_value()
    ensures
        is_value(json::json_null()),
{
    lemma_plain_value(json::json_null());
}

/// A text that may be absent is a value.
pub broadcast proof fn opt_text_is_value(s: Option<Seq<char>>)
    ensures
        #[trigger] is_value(json::json_opt_text(s)),
{
    match s {
        Some(t) => text_is_value(t),
        None => null_is_value(),
    }
}

/// A number that may be absent is a value.
pub broadcast proof fn opt_number_is_value(n: Option<int>)
    ensures
        #[trigger] is_value(json::json_opt_number(n)),
{
    match n {
        Some(v) => number_is_value(v),
        None => null_is_value(),
    }
}

/// A truth value that may be absent is a value.
pub broadcast proof fn opt_bool_is_value(b: Option<bool>)
    ensures
        #[trigger] is_value(json::json_opt_bool(b)),
{
    match b {
        Some(v) => bool_is_value(v),
        None => null_is_value(),
    }
}

/// No parts are values.
pub broadcast proof fn no_parts_are_values()
    ensures
        #[trigger] are_values(Seq::empty()),
{
}

/// Values with one more value are values.
pub broadcast proof fn more_values(parts: Seq<Seq<char>>, part: Seq<char>)
    requires
        are_values(parts),
        is_value(part),
    ensures
        #[trigger] are_values(parts.push(part)),
{
}

proof fn lemma_joined_balanced(parts: Seq<Seq<char>>)
    requires
        are_values(parts),
    ensures
        is_balanced(json::json_joined(parts)),
    decreases parts.len(),
{
    if parts.len() == 0 {
        assert(json::json_joined(parts).take(0) =~= json::json_joined(parts));
    } else if parts.len() > 1 {
        let comma = seq![','];
        lemma_joined_balanced(parts.drop_last());
        let before = json::json_joined(parts.drop_last());
        reveal_with_fuel(read_all, 2);
        assert(is_balanced(comma)) by {
            assert(comma.take(0) =~= Seq::empty());
            assert(comma.take(1) =~= comma);
        }
        lemma_balanced_concat(before, comma);
        assert(before.push(',') =~= before + comma);
        lemma_balanced_concat(before + comma, parts.last());
    } else {
        assert(is_value(parts[0]));
    }
}

proof fn lemma_bracketed_value(open: char, inner: Seq<char>, close: char)
    requires
        open == '[' || open == '{',
        close == ']' || close == '}',
        is_balanced(inner),
    ensures
        is_value((seq![open] + inner).push(close)),
{
    let s = (seq![open] + inner).push(close);
    let first = seq![open];
    reveal_with_fuel(read_all, 2);
    assert(read_all(outside(), first) == deeper(outside(), 1));
    assert forall|i: int| 1 <= i < s.len() implies read_all(outside(), #[trigger] s.take(i)).depth
        >= 1 by {
        assert(s.take(i) =~= first + inner.take(i - 1));
        lemma_read_concat(outside(), first, inner.take(i - 1));
        lemma_read_deeper(outside(), 1, inner.take(i - 1));
    }
    assert(s.drop_last() =~= first + inner);
    lemma_read_concat(outside(), first, inner);
    lemma_read_deeper(outside(), 1, inner);
    assert(s.take(0) =~= Seq::<char>::empty());
    assert(s.take(s.len() as int) =~= s);
}

/// An array of values is a value.
pub broadcast proof fn array_is_value(parts: Seq<Seq<char>>)
    requires
        are_values(parts),
    ensures
        #[trigger] is_value(json::json_array(parts)),
{
    reveal(json::json_array);
    lemma_joined_balanced(parts);
    lemma_bracketed_value('[', json::json_joined(parts), ']');
}

/// An object is there.
pub proof fn object_is_not_null(parts: Seq<Seq<char>>)
    ensures
        json::json_object(parts) != json::json_null(),
{
    reveal(json::json_object);
    assert(json::json_object(parts)[0] == '{');
    assert(json::json_null()[0] == 'n');
}

/// An object of members is a value.
pub broadcast proof fn object_is_value(parts: Seq<Seq<char>>)
    requires
        are_values(parts),
    ensures
        #[trigger] is_value(json::json_object(parts)),
{
    reveal(json::json_object);
    lemma_joined_balanced(parts);
    lemma_bracketed_value('{', json::json_joined(parts), '}');
}

/// A member with a value counts as one value.
pub broadcast proof fn field_is_value(key: Seq<char>, value: Seq<char>)
    requires
        is_value(value),
    ensures
        #[trigger] is_value(json::json_field(key, value)),
{
    reveal(json::json_field);
    let colon = seq![':'];
    text_is_value(key);
    lemma_plain_value(colon);
    lemma_value_concat(json::json_text(key), colon);
    assert(json::json_text(key).push(':') =~= json::json_text(key) + colon);
    lemma_value_concat(json::json_text(key) + colon, value);
}

/// A list of texts is a value.
pub broadcast proof fn texts_are_value(items: Seq<Seq<char>>)
    ensures
        #[trigger] is_value(json::json_texts(items)),
{
    reveal(json::json_texts);
    let parts = items.map_values(|t: Seq<char>| json::json_text(t));
    assert forall|i: int| 0 <= i < parts.len() implies is_value(#[trigger] parts[i]) by {
        text_is_value(items[i]);
    }
    array_is_value(parts);
}

/// A list of step numbers is a value.
pub broadcast proof fn numbers_are_value(items: Seq<u32>)
    ensures
        #[trigger] is_value(json::json_numbers(items)),
{
    reveal(json::json_numbers);
    let parts = items.map_values(|n: u32| json::json_number(n as int));
    assert forall|i: int| 0 <= i < parts.len() implies is_value(#[trigger] parts[i]) by {
        number_is_value(items[i] as int);
    }
    array_is_value(parts);
}

/// Two values that are followed by their end have the same end.
proof fn lemma_value_ends_once(a: Seq<char>, b: Seq<char>, after_a: Seq<char>, after_b: Seq<char>)
    requires
        is_value(a),
        is_value(b),
        after_a.len() > 0,
        after_b.len() > 0,
        ends_value(after_a[0]),
        ends_value(after_b[0]),
        a + after_a == b + after_b,
    ensures
        a == b,
        after_a == after_b,
{
    let whole = a + after_a;
    assert(whole == b + after_b);
    assert(forall|i: int| 0 <= i < a.len() ==> a[i] == whole[i]);
    assert(forall|i: int| 0 <= i < b.len() ==> b[i] == whole[i]);
    if a.len() < b.len() {
        assert(b[a.len() as int] == whole[a.len() as int]);
        assert(b.take(a.len() as int) =~= a);
    } else if b.len() < a.len() {
        assert(a[b.len() as int] == whole[b.len() as int]);
        assert(a.take(b.len() as int) =~= b);
    }
    assert(a =~= whole.take(a.len() as int));
    assert(b =~= whole.take(b.len() as int));
    assert(after_a =~= whole.skip(a.len() as int));
    assert(after_b =~= whole.skip(b.len() as int));
}

proof fn lemma_joined_from_front(parts: Seq<Seq<char>>)
    requires
        parts.len() >= 2,
    ensures
        json::json_joined(parts) == parts[0] + (seq![','] + json::json_joined(parts.drop_first())),
    decreases parts.len(),
{
    let rest = parts.drop_first();
    reveal_with_fuel(json::json_joined, 2);
    if parts.len() == 2 {
        assert(parts.drop_last()[0] == parts[0]);
        assert(json::json_joined(parts) =~= parts[0] + (seq![','] + rest[0]));
    } else {
        lemma_joined_from_front(parts.drop_last());
        assert(parts.drop_last().drop_first() =~= rest.drop_last());
        assert(json::json_joined(parts) =~= parts[0] + (seq![','] + json::json_joined(rest)));
    }
}

proof fn lemma_joined_injective(a: Seq<Seq<char>>, b: Seq<Seq<char>>, close: char)
    requires
        are_values(a),
        are_values(b),
        close == ']' || close == '}',
        json::json_joined(a).push(close) == json::json_joined(b).push(close),
    ensures
        a == b,
    decreases a.len() + b.len(),
{
    let end = seq![close];
    assert(json::json_joined(a).push(close) =~= json::json_joined(a) + end);
    assert(json::json_joined(b).push(close) =~= json::json_joined(b) + end);
    assert((json::json_joined(a) + end).len() == (json::json_joined(b) + end).len());
    if a.len() == 0 {
        if b.len() >= 2 {
            lemma_joined_from_front(b);
        }
        if b.len() > 0 {
            assert(is_value(b[0]));
        }
        assert(a =~= b);
    } else {
        assert(is_value(a[0]));
        if b.len() > 0 {
            assert(is_value(b[0]));
        }
        if a.len() >= 2 {
            lemma_joined_from_front(a);
        }
        if b.len() >= 2 {
            lemma_joined_from_front(b);
        }
        let after_a = if a.len() >= 2 {
            seq![','] + json::json_joined(a.drop_first()) + end
        } else {
            end
        };
        let after_b = if b.len() >= 2 {
            seq![','] + json::json_joined(b.drop_first()) + end
        } else {
            end
        };
        assert(json::json_joined(a) + end =~= a[0] + after_a);
        if b.len() > 0 {
            assert(json::json_joined(b) + end =~= b[0] + after_b);
            lemma_value_ends_once(a[0], b[0], after_a, after_b);
            assert(after_a[0] == after_b[0]);
            if a.len() >= 2 {
                let rest_a = json::json_joined(a.drop_first()).push(close);
                let rest_b = json::json_joined(b.drop_first()).push(close);
                assert(after_a.skip(1) =~= rest_a);
                assert(after_b.skip(1) =~= rest_b);
                assert(are_values(a.drop_first())) by {
                    assert forall|i: int| 0 <= i < a.drop_first().len() implies is_value(
                        #[trigger] a.drop_first()[i],
                    ) by {
                        assert(is_value(a[i + 1]));
                    }
                }
                assert(are_values(b.drop_first())) by {
                    assert forall|i: int| 0 <= i < b.drop_first().len() implies is_value(
                        #[trigger] b.drop_first()[i],
                    ) by {
                        assert(is_value(b[i + 1]));
                    }
                }
                lemma_joined_injective(a.drop_first(), b.drop_first(), close);
                assert(a =~= seq![a[0]] + a.drop_first());
                assert(b =~= seq![b[0]] + b.drop_first());
            } else {
                assert(a =~= b);
            }
        }
    }
}

/// Arrays of different values are different.
pub proof fn array_tells_its_parts(a: Seq<Seq<char>>, b: Seq<Seq<char>>)
    requires
        are_values(a),
        are_values(b),
        json::json_array(a) == json::json_array(b),
    ensures
        a == b,
{
    reveal(json::json_array);
    assert(json::json_array(a).skip(1) =~= json::json_joined(a).push(']'));
    assert(json::json_array(b).skip(1) =~= json::json_joined(b).push(']'));
    lemma_joined_injective(a, b, ']');
}

/// Objects of different members are different.
pub proof fn object_tells_its_parts(a: Seq<Seq<char>>, b: Seq<Seq<char>>)
    requires
        are_values(a),
        are_values(b),
        json::json_object(a) == json::json_object(b),
    ensures
        a == b,
{
    reveal(json::json_object);
    assert(json::json_object(a).skip(1) =~= json::json_joined(a).push('}'));
    assert(json::json_object(b).skip(1) =~= json::json_joined(b).push('}'));
    lemma_joined_injective(a, b, '}');
}

proof fn lemma_char_ends_once(c: char, d: char, after_c: Seq<char>, after_d: Seq<char>)
    requires
        json::json_char(c) + after_c == json::json_char(d) + after_d,
    ensures
        c == d,
        after_c == after_d,
{
    let whole = json::json_char(c) + after_c;
    let p = json::json_char(c);
    let q = json::json_char(d);
    assert(forall|i: int| 0 <= i < p.len() ==> p[i] == whole[i]);
    assert(forall|i: int| 0 <= i < q.len() ==> q[i] == whole[i]);
    assert(p[0] == q[0]);
    if p.len() >= 2 && q.len() >= 2 {
        assert(p[1] == q[1]);
        if p.len() == 6 && q.len() == 6 {
            assert(p[4] == q[4] && p[5] == q[5]);
            digest::lemma_hex_char_injective(c as int / 16, d as int / 16);
            digest::lemma_hex_char_injective(c as int % 16, d as int % 16);
            assert(c as int == d as int);
        }
    }
    assert(c == d);
    assert(after_c =~= whole.skip(p.len() as int));
    assert(after_d =~= whole.skip(q.len() as int));
}

proof fn lemma_chars_from_front(s: Seq<char>)
    requires
        s.len() > 0,
    ensures
        json::json_chars(s) == json::json_char(s[0]) + json::json_chars(s.drop_first()),
    decreases s.len(),
{
    reveal_with_fuel(json::json_chars, 2);
    if s.len() == 1 {
        assert(json::json_chars(s) =~= json::json_char(s[0]) + json::json_chars(s.drop_first()));
    } else {
        lemma_chars_from_front(s.drop_last());
        assert(s.drop_last().drop_first() =~= s.drop_first().drop_last());
        assert(json::json_chars(s) =~= json::json_char(s[0]) + json::json_chars(s.drop_first()));
    }
}

proof fn lemma_chars_injective(a: Seq<char>, b: Seq<char>)
    requires
        json::json_chars(a) == json::json_chars(b),
    ensures
        a == b,
    decreases a.len(),
{
    if a.len() > 0 {
        lemma_chars_from_front(a);
    }
    if b.len() > 0 {
        lemma_chars_from_front(b);
    }
    if a.len() > 0 && b.len() > 0 {
        lemma_char_ends_once(
            a[0],
            b[0],
            json::json_chars(a.drop_first()),
            json::json_chars(b.drop_first()),
        );
        lemma_chars_injective(a.drop_first(), b.drop_first());
        assert(a =~= seq![a[0]] + a.drop_first());
        assert(b =~= seq![b[0]] + b.drop_first());
    } else {
        assert(json::json_chars(a).len() == json::json_chars(b).len());
        assert(a =~= b);
    }
}

/// Different texts have different literals.
pub proof fn literal_tells_its_text(a: Seq<char>, b: Seq<char>)
    requires
        json::json_text(a) == json::json_text(b),
    ensures
        a == b,
{
    reveal(json::json_text);
    let p = json::json_text(a);
    let q = json::json_text(b);
    assert(p.subrange(1, p.len() - 1) =~= json::json_chars(a));
    assert(q.subrange(1, q.len() - 1) =~= json::json_chars(b));
    lemma_chars_injective(a, b);
}

/// Different numbers have different literals.
pub proof fn literal_tells_its_number(m: int, n: int)
    requires
        json::json_number(m) == json::json_number(n),
    ensures
        m == n,
{
    reveal(json::json_number);
    let p = json::json_number(m);
    let q = json::json_number(n);
    lemma_decimal_plain(if m < 0 { (-m) as nat } else { m as nat });
    lemma_decimal_plain(if n < 0 { (-n) as nat } else { n as nat });
    assert(p[0] == q[0]);
    if m < 0 && n < 0 {
        assert(p.skip(1) =~= text::decimal_text((-m) as nat));
        assert(q.skip(1) =~= text::decimal_text((-n) as nat));
        text::lemma_decimal_injective((-m) as nat, (-n) as nat);
    } else if m >= 0 && n >= 0 {
        text::lemma_decimal_injective(m as nat, n as nat);
    } else if m < 0 {
        assert(text::decimal_text(n as nat)[0] != '-');
    } else {
        assert(text::decimal_text(m as nat)[0] != '-');
    }
}

/// The text that a literal was written for.
pub closed spec fn text_read(literal: Seq<char>) -> Seq<char> {
    choose|s: Seq<char>| json::json_text(s) == literal
}

/// The number that a literal was written for.
pub closed spec fn number_read(literal: Seq<char>) -> int {
    choose|n: int| json::json_number(n) == literal
}

/// The parts that an array was written with.
pub closed spec fn array_read(document: Seq<char>) -> Seq<Seq<char>> {
    choose|parts: Seq<Seq<char>>| are_values(parts) && json::json_array(parts) == document
}

/// The members that an object was written with.
pub closed spec fn object_read(document: Seq<char>) -> Seq<Seq<char>> {
    choose|parts: Seq<Seq<char>>| are_values(parts) && json::json_object(parts) == document
}

/// The value behind a key.
pub closed spec fn field_read(key: Seq<char>, member: Seq<char>) -> Seq<char> {
    member.skip(json::json_text(key).len() as int + 1)
}

/// A text is read back from its literal.
pub broadcast proof fn text_is_read_back(s: Seq<char>)
    ensures
        text_read(#[trigger] json::json_text(s)) == s,
{
    let other = text_read(json::json_text(s));
    assert(json::json_text(other) == json::json_text(s));
    literal_tells_its_text(other, s);
}

/// A number is read back from its literal.
pub broadcast proof fn number_is_read_back(n: int)
    ensures
        number_read(#[trigger] json::json_number(n)) == n,
{
    let other = number_read(json::json_number(n));
    assert(json::json_number(other) == json::json_number(n));
    literal_tells_its_number(other, n);
}

/// The parts of an array are read back.
pub broadcast proof fn array_is_read_back(parts: Seq<Seq<char>>)
    requires
        are_values(parts),
    ensures
        array_read(#[trigger] json::json_array(parts)) == parts,
{
    let other = array_read(json::json_array(parts));
    assert(are_values(other) && json::json_array(other) == json::json_array(parts));
    array_tells_its_parts(other, parts);
}

/// The members of an object are read back.
pub broadcast proof fn object_is_read_back(parts: Seq<Seq<char>>)
    requires
        are_values(parts),
    ensures
        object_read(#[trigger] json::json_object(parts)) == parts,
{
    let other = object_read(json::json_object(parts));
    assert(are_values(other) && json::json_object(other) == json::json_object(parts));
    object_tells_its_parts(other, parts);
}

/// The value of a member is read back.
pub broadcast proof fn field_is_read_back(key: Seq<char>, value: Seq<char>)
    ensures
        field_read(key, #[trigger] json::json_field(key, value)) == value,
{
    reveal(json::json_field);
    assert(field_read(key, json::json_field(key, value)) =~= value);
}

/// Truth values have different literals.
pub proof fn literal_tells_its_bool(a: bool, b: bool)
    requires
        json::json_bool(a) == json::json_bool(b),
    ensures
        a == b,
{
    reveal(json::json_bool);
    assert(json::json_bool(a)[0] == json::json_bool(b)[0]);
}

/// Different texts that may be absent have different literals.
pub proof fn literal_tells_its_opt_text(a: Option<Seq<char>>, b: Option<Seq<char>>)
    requires
        json::json_opt_text(a) == json::json_opt_text(b),
    ensures
        a == b,
{
    reveal(json::json_text);
    assert(json::json_opt_text(a)[0] == json::json_opt_text(b)[0]);
    if a is Some && b is Some {
        literal_tells_its_text(a->Some_0, b->Some_0);
    }
}

/// Different numbers that may be absent have different literals.
pub proof fn literal_tells_its_opt_number(a: Option<int>, b: Option<int>)
    requires
        json::json_opt_number(a) == json::json_opt_number(b),
    ensures
        a == b,
{
    reveal(json::json_number);
    assert(json::json_opt_number(a)[0] == json::json_opt_number(b)[0]);
    if a is Some {
        lemma_decimal_plain(if a->Some_0 < 0 { (-a->Some_0) as nat } else { a->Some_0 as nat });
    }
    if b is Some {
        lemma_decimal_plain(if b->Some_0 < 0 { (-b->Some_0) as nat } else { b->Some_0 as nat });
    }
    if a is Some && b is Some {
        literal_tells_its_number(a->Some_0, b->Some_0);
    }
}

/// Different truth values that may be absent have different literals.
pub proof fn literal_tells_its_opt_bool(a: Option<bool>, b: Option<bool>)
    requires
        json::json_opt_bool(a) == json::json_opt_bool(b),
    ensures
        a == b,
{
    reveal(json::json_bool);
    assert(json::json_opt_bool(a)[0] == json::json_opt_bool(b)[0]);
}

/// Different lists of texts have different literals.
pub proof fn literal_tells_its_texts(a: Seq<Seq<char>>, b: Seq<Seq<char>>)
    requires
        json::json_texts(a) == json::json_texts(b),
    ensures
        a == b,
{
    reveal(json::json_texts);
    let write = |t: Seq<char>| json::json_text(t);
    let p = a.map_values(write);
    let q = b.map_values(write);
    assert(are_values(p)) by {
        assert forall|i: int| 0 <= i < p.len() implies is_value(#[trigger] p[i]) by {
            text_is_value(a[i]);
        }
    }
    assert(are_values(q)) by {
        assert forall|i: int| 0 <= i < q.len() implies is_value(#[trigger] q[i]) by {
            text_is_value(b[i]);
        }
    }
    array_tells_its_parts(p, q);
    assert forall|i: int| 0 <= i < a.len() implies a[i] == b[i] by {
        assert(p[i] == q[i]);
        literal_tells_its_text(a[i], b[i]);
    }
    assert(p.len() == q.len());
    assert(a =~= b);
}

/// Different lists of step numbers have different literals.
pub proof fn literal_tells_its_numbers(a: Seq<u32>, b: Seq<u32>)
    requires
        json::json_numbers(a) == json::json_numbers(b),
    ensures
        a == b,
{
    reveal(json::json_numbers);
    let write = |n: u32| json::json_number(n as int);
    let p = a.map_values(write);
    let q = b.map_values(write);
    assert(are_values(p)) by {
        assert forall|i: int| 0 <= i < p.len() implies is_value(#[trigger] p[i]) by {
            number_is_value(a[i] as int);
        }
    }
    assert(are_values(q)) by {
        assert forall|i: int| 0 <= i < q.len() implies is_value(#[trigger] q[i]) by {
            number_is_value(b[i] as int);
        }
    }
    array_tells_its_parts(p, q);
    assert forall|i: int| 0 <= i < a.len() implies a[i] == b[i] by {
        assert(p[i] == q[i]);
        literal_tells_its_number(a[i] as int, b[i] as int);
    }
    assert(p.len() == q.len());
    assert(a =~= b);
}

/// The truth value that a literal was written for.
pub closed spec fn bool_read(literal: Seq<char>) -> bool {
    choose|b: bool| json::json_bool(b) == literal
}

/// A truth value is read back from its literal.
pub broadcast proof fn bool_is_read_back(b: bool)
    ensures
        bool_read(#[trigger] json::json_bool(b)) == b,
{
    let other = bool_read(json::json_bool(b));
    assert(json::json_bool(other) == json::json_bool(b));
    literal_tells_its_bool(other, b);
}

/// The text, if any, that a literal was written for.
pub closed spec fn opt_text_read(literal: Seq<char>) -> Option<Seq<char>> {
    choose|s: Option<Seq<char>>| json::json_opt_text(s) == literal
}

/// A text that may be absent is read back from its literal.
pub broadcast proof fn opt_text_is_read_back(s: Option<Seq<char>>)
    ensures
        opt_text_read(#[trigger] json::json_opt_text(s)) == s,
{
    let other = opt_text_read(json::json_opt_text(s));
    assert(json::json_opt_text(other) == json::json_opt_text(s));
    literal_tells_its_opt_text(other, s);
}

/// The number, if any, that a literal was written for.
pub closed spec fn opt_number_read(literal: Seq<char>) -> Option<int> {
    choose|n: Option<int>| json::json_opt_number(n) == literal
}

/// A number that may be absent is read back from its literal.
pub broadcast proof fn opt_number_is_read_back(n: Option<int>)
    ensures
        opt_number_read(#[trigger] json::json_opt_number(n)) == n,
{
    let other = opt_number_read(json::json_opt_number(n));
    assert(json::json_opt_number(other) == json::json_opt_number(n));
    literal_tells_its_opt_number(other, n);
}

/// The truth value, if any, that a literal was written for.
pub closed spec fn opt_bool_read(literal: Seq<char>) -> Option<bool> {
    choose|b: Option<bool>| json::json_opt_bool(b) == literal
}

/// A truth value that may be absent is read back from its literal.
pub broadcast proof fn opt_bool_is_read_back(b: Option<bool>)
    ensures
        opt_bool_read(#[trigger] json::json_opt_bool(b)) == b,
{
    let other = opt_bool_read(json::json_opt_bool(b));
    assert(json::json_opt_bool(other) == json::json_opt_bool(b));
    literal_tells_its_opt_bool(other, b);
}

/// The list of texts that a literal was written for.
pub closed spec fn texts_read(literal: Seq<char>) -> Seq<Seq<char>> {
    choose|items: Seq<Seq<char>>| json::json_texts(items) == literal
}

/// A list of texts is read back.
pub broadcast proof fn texts_are_read_back(items: Seq<Seq<char>>)
    ensures
        texts_read(#[trigger] json::json_texts(items)) == items,
{
    let other = texts_read(json::json_texts(items));
    assert(json::json_texts(other) == json::json_texts(items));
    literal_tells_its_texts(other, items);
}

/// The list of step numbers that a literal was written for.
pub closed spec fn numbers_read(literal: Seq<char>) -> Seq<u32> {
    choose|items: Seq<u32>| json::json_numbers(items) == literal
}

/// A list of step numbers is read back.
pub broadcast proof fn numbers_are_read_back(items: Seq<u32>)
    ensures
        numbers_read(#[trigger] json::json_numbers(items)) == items,
{
    let other = numbers_read(json::json_numbers(items));
    assert(json::json_numbers(other) == json::json_numbers(items));
    literal_tells_its_numbers(other, items);
}

/// Everything that a document is read back by.
pub broadcast group group_json_reading {
    text_is_value,
    number_is_value,
    bool_is_value,
    opt_text_is_value,
    opt_number_is_value,
    opt_bool_is_value,
    texts_are_value,
    numbers_are_value,
    no_parts_are_values,
    more_values,
    array_is_value,
    object_is_value,
    field_is_value,
    text_is_read_back,
    number_is_read_back,
    bool_is_read_back,
    opt_text_is_read_back,
    opt_number_is_read_back,
    opt_bool_is_read_back,
    texts_are_read_back,
    numbers_are_read_back,
    array_is_read_back,
    object_is_read_back,
    field_is_read_back,
}

/// A list tells what each of its items was written as.
pub proof fn list_tells_its_items<T>(a: Seq<T>, b: Seq<T>, write: spec_fn(T) -> Seq<char>)
    requires
        forall|x: T| is_value(#[trigger] write(x)),
        json::json_array(a.map_values(write)) == json::json_array(b.map_values(write)),
    ensures
        a.len() == b.len(),
        forall|i: int| 0 <= i < a.len() ==> write(#[trigger] a[i]) == write(b[i]),
{
    let p = a.map_values(write);
    let q = b.map_values(write);
    assert(are_values(p) && are_values(q));
    array_tells_its_parts(p, q);
    assert(p.len() == q.len());
    assert forall|i: int| 0 <= i < a.len() implies write(#[trigger] a[i]) == write(b[i]) by {
        assert(p[i] == q[i]);
    }
}

/// A list of values is a value.
pub proof fn list_is_value<T>(items: Seq<T>, write: spec_fn(T) -> Seq<char>)
    requires
        forall|x: T| is_value(#[trigger] write(x)),
    ensures
        is_value(json::json_array(items.map_values(write))),
{
    let parts = items.map_values(write);
    assert(are_values(parts));
    array_is_value(parts);
}

} // verus!

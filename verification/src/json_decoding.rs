//! What a reader of JSON makes of a literal that was written here.

use vstd::prelude::*;

use crate::text;
use crate::reading;
use crate::json;

verus! {

/// The number that a hexadecimal digit of either case stands for, if it is one.
pub open spec fn written_digit(c: char) -> Option<int> {
    if '0' <= c <= '9' {
        Some(c as int - '0' as int)
    } else if 'a' <= c <= 'f' {
        Some(c as int - 'a' as int + 10)
    } else if 'A' <= c <= 'F' {
        Some(c as int - 'A' as int + 10)
    } else {
        None
    }
}

/// What the short escape with this letter stands for.
pub open spec fn short_escape(c: char) -> Option<char> {
    if c == '"' || c == '\\' || c == '/' {
        Some(c)
    } else if c == 'b' {
        Some('\u{8}')
    } else if c == 'f' {
        Some('\u{c}')
    } else if c == 'n' {
        Some('\u{a}')
    } else if c == 'r' {
        Some('\u{d}')
    } else if c == 't' {
        Some('\u{9}')
    } else {
        None
    }
}

/// The character codes that the inside of a string literal stands for, where it is the inside of one:
/// no bare quotation mark or control character, and every backslash starts an escape.
pub open spec fn decoded(s: Seq<char>) -> Option<Seq<int>>
    decreases s.len(),
{
    if s.len() == 0 {
        Some(Seq::empty())
    } else if s[0] == '"' || (s[0] as int) < 0x20 {
        None
    } else if s[0] != '\\' {
        match decoded(s.skip(1)) {
            Some(rest) => Some(seq![s[0] as int] + rest),
            None => None,
        }
    } else if s.len() >= 2 && short_escape(s[1]) is Some {
        match decoded(s.skip(2)) {
            Some(rest) => Some(seq![short_escape(s[1])->Some_0 as int] + rest),
            None => None,
        }
    } else if s.len() >= 6 && s[1] == 'u' && written_digit(s[2]) is Some && written_digit(s[3]) is Some
        && written_digit(s[4]) is Some && written_digit(s[5]) is Some {
        match decoded(s.skip(6)) {
            Some(rest) => Some(
                seq![
                    4096 * written_digit(s[2])->Some_0 + 256 * written_digit(s[3])->Some_0 + 16 * written_digit(
                        s[4],
                    )->Some_0 + written_digit(s[5])->Some_0,
                ] + rest,
            ),
            None => None,
        }
    } else {
        None
    }
}

/// The codes of the characters of a text.
pub open spec fn codes(s: Seq<char>) -> Seq<int> {
    s.map_values(|c: char| c as int)
}

proof fn lemma_char_is_decoded(c: char, rest: Seq<char>)
    ensures
        decoded(json::json_char(c) + rest) == match decoded(rest) {
            Some(more) => Some(seq![c as int] + more),
            None => None,
        },
{
    let s = json::json_char(c) + rest;
    if c == '"' || c == '\\' || c == '\u{8}' || c == '\t' || c == '\n' || c == '\u{c}' || c == '\r' {
        assert(s.skip(2) =~= rest);
        assert(s[0] == '\\');
    } else if (c as int) < 0x20 {
        assert(s.skip(6) =~= rest);
        assert(s[0] == '\\' && s[1] == 'u' && s[2] == '0' && s[3] == '0');
        let n = c as int;
        assert(n == 16 * (n / 16) + n % 16);
    } else {
        assert(s.skip(1) =~= rest);
        assert(s[0] == c);
    }
}

proof fn lemma_chars_from_the_front(s: Seq<char>)
    requires
        s.len() > 0,
    ensures
        json::json_chars(s) == json::json_char(s[0]) + json::json_chars(s.skip(1)),
    decreases s.len(),
{
    reveal_with_fuel(json::json_chars, 2);
    if s.len() == 1 {
        assert(s.drop_last() =~= Seq::empty());
        assert(s.skip(1) =~= Seq::empty());
        assert(json::json_chars(s) =~= json::json_char(s[0]) + json::json_chars(s.skip(1)));
    } else {
        lemma_chars_from_the_front(s.drop_last());
        assert(s.drop_last().skip(1) =~= s.skip(1).drop_last());
        assert(json::json_chars(s) =~= json::json_char(s[0]) + json::json_chars(s.skip(1)));
    }
}

proof fn lemma_chars_are_decoded(s: Seq<char>)
    ensures
        decoded(json::json_chars(s)) == Some(codes(s)),
    decreases s.len(),
{
    if s.len() == 0 {
        assert(codes(s) =~= Seq::empty());
    } else {
        lemma_chars_from_the_front(s);
        lemma_chars_are_decoded(s.skip(1));
        lemma_char_is_decoded(s[0], json::json_chars(s.skip(1)));
        assert(codes(s) =~= seq![s[0] as int] + codes(s.skip(1)));
    }
}

/// A text is written as a string literal: between two quotation marks stands what a reader of JSON
/// decodes to just that text.
pub proof fn text_is_decoded_from_its_literal(s: Seq<char>)
    ensures
        ({
            let literal = json::json_text(s);
            &&& literal.len() >= 2
            &&& literal[0] == '"'
            &&& literal[literal.len() - 1] == '"'
            &&& decoded(literal.subrange(1, literal.len() - 1)) == Some(codes(s))
        }),
{
    reveal(json::json_text);
    let literal = json::json_text(s);
    lemma_chars_are_decoded(s);
    assert(literal.subrange(1, literal.len() - 1) =~= json::json_chars(s));
}

/// A number is written as its digits, behind a minus sign where it is negative.
pub proof fn number_is_written_in_digits(n: int)
    ensures
        n >= 0 ==> reading::spells(json::json_number(n), n),
        n < 0 ==> exists|digits: Seq<char>|
            #[trigger] reading::spells(digits, -n) && json::json_number(n) == seq!['-'] + digits,
{
    reveal(json::json_number);
    if n >= 0 {
        reading::written_number_is_read_back(n as nat);
    } else {
        reading::written_number_is_read_back((-n) as nat);
        assert(reading::spells(text::decimal_text((-n) as nat), -n));
    }
}

/// Values are set apart by commas, however they are put together, and stand between the brackets of
/// their list or record. A member is its name as a literal, a colon, and its value.
pub proof fn values_are_set_apart_by_commas(a: Seq<Seq<char>>, b: Seq<Seq<char>>)
    ensures
        json::json_joined(Seq::empty()) == Seq::<char>::empty(),
        a.len() == 1 ==> json::json_joined(a) == a[0],
        a.len() > 0 && b.len() > 0 ==> json::json_joined(a + b) == json::json_joined(a) + seq![',']
            + json::json_joined(b),
        json::json_array(a) == seq!['['] + json::json_joined(a) + seq![']'],
        json::json_object(a) == seq!['{'] + json::json_joined(a) + seq!['}'],
        forall|key: Seq<char>, value: Seq<char>| #[trigger]
            json::json_field(key, value) == json::json_text(key) + seq![':'] + value,
    decreases b.len(),
{
    reveal(json::json_array);
    reveal(json::json_object);
    reveal(json::json_field);
    assert(json::json_array(a) =~= seq!['['] + json::json_joined(a) + seq![']']);
    assert(json::json_object(a) =~= seq!['{'] + json::json_joined(a) + seq!['}']);
    assert forall|key: Seq<char>, value: Seq<char>| #[trigger]
        json::json_field(key, value) == json::json_text(key) + seq![':'] + value by {
        assert(json::json_field(key, value) =~= json::json_text(key) + seq![':'] + value);
    }
    if a.len() > 0 && b.len() > 0 {
        let both = a + b;
        assert(both.last() == b.last());
        if b.len() == 1 {
            assert(both.drop_last() =~= a);
            assert(json::json_joined(both) =~= json::json_joined(a) + seq![','] + json::json_joined(b));
        } else {
            values_are_set_apart_by_commas(a, b.drop_last());
            assert(both.drop_last() =~= a + b.drop_last());
            assert(json::json_joined(both) =~= json::json_joined(a) + seq![','] + json::json_joined(b));
        }
    }
}

/// Truth values and absent values are written as their words.
pub proof fn words_are_written_out(t: Seq<char>, n: int, b: bool)
    ensures
        json::json_bool(true) == "true"@,
        json::json_bool(false) == "false"@,
        json::json_null() == "null"@,
        json::json_opt_text(None) == "null"@,
        json::json_opt_text(Some(t)) == json::json_text(t),
        json::json_opt_number(None) == "null"@,
        json::json_opt_number(Some(n)) == json::json_number(n),
        json::json_opt_bool(None) == "null"@,
        json::json_opt_bool(Some(b)) == json::json_bool(b),
{
    reveal(json::json_bool);
    reveal_strlit("true");
    reveal_strlit("false");
    reveal_strlit("null");
    assert(json::json_bool(true) =~= "true"@);
    assert(json::json_bool(false) =~= "false"@);
    assert(json::json_null() =~= "null"@);
}

} // verus!

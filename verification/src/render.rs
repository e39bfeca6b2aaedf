//! How a handle is written out for a reader: its kind and its address.

use vstd::prelude::*;

verus! {

/// `String::push` appends one character to the text.
pub assume_specification[ String::push ](text: &mut String, ch: char)
    ensures
        final(text)@ == old(text)@.push(ch),
;

/// `String::push_str` appends a string slice to the text.
pub assume_specification[ String::push_str ](text: &mut String, string: &str)
    ensures
        final(text)@ == old(text)@ + string@,
;

/// The hexadecimal digit for a value below 16, in lower case.
pub open spec fn hex_digit(value: nat) -> char {
    if value == 0 {
        '0'
    } else if value == 1 {
        '1'
    } else if value == 2 {
        '2'
    } else if value == 3 {
        '3'
    } else if value == 4 {
        '4'
    } else if value == 5 {
        '5'
    } else if value == 6 {
        '6'
    } else if value == 7 {
        '7'
    } else if value == 8 {
        '8'
    } else if value == 9 {
        '9'
    } else if value == 10 {
        'a'
    } else if value == 11 {
        'b'
    } else if value == 12 {
        'c'
    } else if value == 13 {
        'd'
    } else if value == 14 {
        'e'
    } else {
        'f'
    }
}

/// The hexadecimal digits of `value`, most significant first, without
/// leading zeros: zero is the single digit `0`.
pub open spec fn hex(value: nat) -> Seq<char>
    decreases value,
{
    if value < 16 {
        seq![hex_digit(value)]
    } else {
        hex(value / 16).push(hex_digit(value % 16))
    }
}

/// A handle of the given kind at `addr`, written out: the kind, and the
/// address in hexadecimal between brackets, as in `Handle(0x1f)`.
pub open spec fn rendering(kind: Seq<char>, addr: usize) -> Seq<char> {
    kind + seq!['(', '0', 'x'] + hex(addr as nat) + seq![')']
}

/// The hexadecimal digit for a value below 16.
fn digit(value: usize) -> (ch: char)
    requires
        value < 16,
    ensures
        ch == hex_digit(value as nat),
{
    if value == 0 {
        '0'
    } else if value == 1 {
        '1'
    } else if value == 2 {
        '2'
    } else if value == 3 {
        '3'
    } else if value == 4 {
        '4'
    } else if value == 5 {
        '5'
    } else if value == 6 {
        '6'
    } else if value == 7 {
        '7'
    } else if value == 8 {
        '8'
    } else if value == 9 {
        '9'
    } else if value == 10 {
        'a'
    } else if value == 11 {
        'b'
    } else if value == 12 {
        'c'
    } else if value == 13 {
        'd'
    } else if value == 14 {
        'e'
    } else {
        'f'
    }
}

/// Appends the hexadecimal digits of `value` to `text`.
fn push_hex(text: &mut String, value: usize)
    ensures
        final(text)@ == old(text)@ + hex(value as nat),
    decreases value,
{
    if value >= 16 {
        push_hex(text, value / 16);
    }
    text.push(digit(value % 16));
}

/// Writes out a handle of the given kind at `addr`.
pub fn render(kind: &str, addr: usize) -> (text: String)
    ensures
        text@ == rendering(kind@, addr),
{
    let mut text = String::new();
    text.push_str(kind);
    text.push('(');
    text.push('0');
    text.push('x');
    push_hex(&mut text, addr);
    text.push(')');
    text
}

} // verus!

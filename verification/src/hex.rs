//! Lowercase hexadecimal rendering of raw bytes: two digits per byte,
//! high digit first, used to print object ids.

use vstd::prelude::*;

verus! {

/// The lowercase hexadecimal digit of a value below sixteen.
pub open spec fn hex_digit(n: int) -> char {
    if n == 0 {
        '0'
    } else if n == 1 {
        '1'
    } else if n == 2 {
        '2'
    } else if n == 3 {
        '3'
    } else if n == 4 {
        '4'
    } else if n == 5 {
        '5'
    } else if n == 6 {
        '6'
    } else if n == 7 {
        '7'
    } else if n == 8 {
        '8'
    } else if n == 9 {
        '9'
    } else if n == 10 {
        'a'
    } else if n == 11 {
        'b'
    } else if n == 12 {
        'c'
    } else if n == 13 {
        'd'
    } else if n == 14 {
        'e'
    } else {
        'f'
    }
}

/// The rendering of the first `n` bytes: two digits each, in byte order.
pub open spec fn hex_of(bytes: Seq<u8>, n: int) -> Seq<char>
    decreases n,
{
    if n <= 0 {
        Seq::empty()
    } else {
        hex_of(bytes, n - 1) + seq![
            hex_digit(bytes[n - 1] as int / 16),
            hex_digit(bytes[n - 1] as int % 16),
        ]
    }
}

/// One digit, as a character.
fn hex_digit_char(n: u8) -> (c: char)
    requires
        n < 16,
    ensures
        c == hex_digit(n as int),
{
    match n {
        0 => '0',
        1 => '1',
        2 => '2',
        3 => '3',
        4 => '4',
        5 => '5',
        6 => '6',
        7 => '7',
        8 => '8',
        9 => '9',
        10 => 'a',
        11 => 'b',
        12 => 'c',
        13 => 'd',
        14 => 'e',
        _ => 'f',
    }
}

/// Relies on String's FromIterator over characters: the string of exactly
/// these characters, in order.
#[verifier::external_body]
fn string_from_chars(chars: Vec<char>) -> (r: String)
    ensures
        r@ == chars@,
{
    chars.into_iter().collect()
}

/// Render bytes as lowercase hexadecimal text, two digits per byte.
pub fn hex_string(bytes: &[u8]) -> (r: String)
    ensures
        r@ == hex_of(bytes@, bytes@.len() as int),
{
    let mut chars: Vec<char> = Vec::new();
    let mut i: usize = 0;
    while i < bytes.len()
        invariant
            i <= bytes@.len(),
            chars@ == hex_of(bytes@, i as int),
        decreases bytes@.len() - i,
    {
        let b = bytes[i];
        chars.push(hex_digit_char(b / 16));
        chars.push(hex_digit_char(b % 16));
        proof {
            assert(chars@ =~= hex_of(bytes@, i + 1));
        }
        i = i + 1;
    }
    string_from_chars(chars)
}

} // verus!

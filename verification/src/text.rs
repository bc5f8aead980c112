//! Verified text building: decimal and hex rendering and JSON string escaping.

use vstd::prelude::*;

verus! {

/// The decimal digit character for a value below ten.
pub open spec fn spec_digit(d: int) -> char {
    if d == 0 { '0' }
    else if d == 1 { '1' }
    else if d == 2 { '2' }
    else if d == 3 { '3' }
    else if d == 4 { '4' }
    else if d == 5 { '5' }
    else if d == 6 { '6' }
    else if d == 7 { '7' }
    else if d == 8 { '8' }
    else { '9' }
}

/// The lowercase hexadecimal digit character for a value below sixteen.
pub open spec fn spec_hex_digit(d: int) -> char {
    if d < 10 { spec_digit(d) }
    else if d == 10 { 'a' }
    else if d == 11 { 'b' }
    else if d == 12 { 'c' }
    else if d == 13 { 'd' }
    else if d == 14 { 'e' }
    else { 'f' }
}

/// The decimal rendering of a natural number, without padding.
pub open spec fn spec_dec(n: nat) -> Seq<char>
    decreases n,
{
    if n < 10 {
        seq![spec_digit(n as int)]
    } else {
        spec_dec(n / 10) + seq![spec_digit((n % 10) as int)]
    }
}

/// A run of zero characters.
pub open spec fn spec_zeros(k: nat) -> Seq<char>
    decreases k,
{
    if k == 0 {
        Seq::<char>::empty()
    } else {
        seq!['0'] + spec_zeros((k - 1) as nat)
    }
}

/// The decimal rendering of a natural number, left-padded with zeros
/// to at least `w` characters.
pub open spec fn spec_dec_pad(n: nat, w: nat) -> Seq<char> {
    if spec_dec(n).len() >= w {
        spec_dec(n)
    } else {
        spec_zeros((w - spec_dec(n).len()) as nat) + spec_dec(n)
    }
}

/// The decimal digit character for `d`, which must be below ten.
pub fn digit_char(d: u8) -> (c: char)
    requires
        d < 10,
    ensures
        c == spec_digit(d as int),
{
    match d {
        0 => '0',
        1 => '1',
        2 => '2',
        3 => '3',
        4 => '4',
        5 => '5',
        6 => '6',
        7 => '7',
        8 => '8',
        _ => '9',
    }
}

/// The lowercase hexadecimal digit character for `d`, which must be below sixteen.
pub fn hex_digit_char(d: u8) -> (c: char)
    requires
        d < 16,
    ensures
        c == spec_hex_digit(d as int),
{
    match d {
        10 => 'a',
        11 => 'b',
        12 => 'c',
        13 => 'd',
        14 => 'e',
        15 => 'f',
        _ => digit_char(d),
    }
}

/// Relies on `String::push`: appends the given character to the end of the string.
#[verifier::external_body]
pub fn push_char(s: &mut String, c: char)
    ensures
        final(s)@ == old(s)@.push(c),
{
    s.push(c);
}

/// Appends the unpadded decimal rendering of `n`.
pub fn push_dec_u64(s: &mut String, n: u64)
    ensures
        final(s)@ == old(s)@ + spec_dec(n as nat),
    decreases n,
{
    if n >= 10 {
        push_dec_u64(s, n / 10);
        push_char(s, digit_char((n % 10) as u8));
        assert(s@ =~= old(s)@ + spec_dec(n as nat));
    } else {
        push_char(s, digit_char(n as u8));
        assert(s@ =~= old(s)@ + spec_dec(n as nat));
    }
}

/// Appends the decimal rendering of `n`, zero-padded to two characters.
pub fn push_pad2(s: &mut String, n: u8)
    requires
        n < 100,
    ensures
        final(s)@ == old(s)@ + spec_dec_pad(n as nat, 2),
{
    proof {
        lemma_dec_len10(n as nat);
        reveal_with_fuel(spec_zeros, 3);
    }
    if n < 10 {
        push_char(s, '0');
    }
    push_dec_u64(s, n as u64);
    assert(s@ =~= old(s)@ + spec_dec_pad(n as nat, 2));
}

/// How many digits the decimal rendering has, decade by decade, far
/// enough to cover every `u32`.
pub proof fn lemma_dec_len10(n: nat)
    ensures
        n < 10 ==> spec_dec(n).len() == 1,
        10 <= n < 100 ==> spec_dec(n).len() == 2,
        100 <= n < 1000 ==> spec_dec(n).len() == 3,
        1000 <= n < 10000 ==> spec_dec(n).len() == 4,
        10000 <= n < 100000 ==> spec_dec(n).len() == 5,
        100000 <= n < 1000000 ==> spec_dec(n).len() == 6,
        1000000 <= n < 10000000 ==> spec_dec(n).len() == 7,
        10000000 <= n < 100000000 ==> spec_dec(n).len() == 8,
        100000000 <= n < 1000000000 ==> spec_dec(n).len() == 9,
        1000000000 <= n < 10000000000 ==> spec_dec(n).len() == 10,
    decreases n,
{
    if n >= 10 {
        lemma_dec_len10(n / 10);
    }
}

/// The shape of a run of zeros: `k` characters, all zero.
pub proof fn lemma_zeros(k: nat)
    ensures
        spec_zeros(k).len() == k,
        forall|i: int| 0 <= i < k ==> spec_zeros(k)[i] == '0',
    decreases k,
{
    if k > 0 {
        lemma_zeros((k - 1) as nat);
    }
}

/// The number of characters in the decimal rendering of `n`.
fn dec_len_u32(n: u32) -> (r: usize)
    ensures
        r == spec_dec(n as nat).len(),
{
    proof {
        lemma_dec_len10(n as nat);
    }
    if n < 10 { 1 }
    else if n < 100 { 2 }
    else if n < 1000 { 3 }
    else if n < 10000 { 4 }
    else if n < 100000 { 5 }
    else if n < 1000000 { 6 }
    else if n < 10000000 { 7 }
    else if n < 100000000 { 8 }
    else if n < 1000000000 { 9 }
    else { 10 }
}

/// Appends `k` zero characters.
fn push_zeros(s: &mut String, k: usize)
    ensures
        final(s)@ == old(s)@ + spec_zeros(k as nat),
{
    let mut j: usize = 0;
    while j < k
        invariant
            j <= k,
            s@ == old(s)@ + spec_zeros(j as nat),
        decreases k - j,
    {
        push_char(s, '0');
        proof {
            lemma_zeros(j as nat);
            lemma_zeros((j + 1) as nat);
            assert(s@ =~= old(s)@ + spec_zeros((j + 1) as nat));
        }
        j = j + 1;
    }
}

/// Appends the decimal rendering of `n`, zero-padded to at least `w`
/// characters.
pub fn push_dec_pad_u32(s: &mut String, n: u32, w: usize)
    ensures
        final(s)@ == old(s)@ + spec_dec_pad(n as nat, w as nat),
{
    let l = dec_len_u32(n);
    if l < w {
        push_zeros(s, w - l);
    }
    push_dec_u64(s, n as u64);
    assert(s@ =~= old(s)@ + spec_dec_pad(n as nat, w as nat));
}

/// The lowercase hex rendering of a byte sequence, two digits per byte.
pub open spec fn spec_hex(bytes: Seq<u8>) -> Seq<char>
    decreases bytes.len(),
{
    if bytes.len() == 0 {
        Seq::<char>::empty()
    } else {
        spec_hex(bytes.drop_last()) + seq![
            spec_hex_digit(bytes.last() as int / 16),
            spec_hex_digit(bytes.last() as int % 16),
        ]
    }
}

/// Appends the lowercase hex rendering of `bytes`, two digits per byte.
pub fn push_hex(s: &mut String, bytes: &Vec<u8>)
    ensures
        final(s)@ == old(s)@ + spec_hex(bytes@),
{
    let mut i: usize = 0;
    while i < bytes.len()
        invariant
            i <= bytes@.len(),
            s@ == old(s)@ + spec_hex(bytes@.take(i as int)),
        decreases bytes@.len() - i,
    {
        let b = bytes[i];
        push_char(s, hex_digit_char(b / 16));
        push_char(s, hex_digit_char(b % 16));
        proof {
            assert(bytes@.take(i + 1).drop_last() =~= bytes@.take(i as int));
            assert(bytes@.take(i + 1).last() == b);
            assert(s@ =~= old(s)@ + spec_hex(bytes@.take(i + 1)));
        }
        i = i + 1;
    }
    proof {
        assert(bytes@.take(bytes@.len() as int) =~= bytes@);
    }
}

/// How a single character is written inside a JSON string: a quote or a
/// backslash gets a backslash escape, the named control characters get
/// their short escapes, any other control character gets a `\u00` escape,
/// and everything else stands for itself.
pub open spec fn spec_json_escape_char(c: char) -> Seq<char> {
    if c == '"' {
        seq!['\\', '"']
    } else if c == '\\' {
        seq!['\\', '\\']
    } else if c == '\u{8}' {
        seq!['\\', 'b']
    } else if c == '\u{9}' {
        seq!['\\', 't']
    } else if c == '\u{a}' {
        seq!['\\', 'n']
    } else if c == '\u{c}' {
        seq!['\\', 'f']
    } else if c == '\u{d}' {
        seq!['\\', 'r']
    } else if (c as u32) < 0x20 {
        seq!['\\', 'u', '0', '0',
            spec_hex_digit((c as u32) as int / 16),
            spec_hex_digit((c as u32) as int % 16)]
    } else {
        seq![c]
    }
}

/// The body of a JSON string holding the characters of `s`.
pub open spec fn spec_json_escape(s: Seq<char>) -> Seq<char>
    decreases s.len(),
{
    if s.len() == 0 {
        Seq::<char>::empty()
    } else {
        spec_json_escape(s.drop_last()) + spec_json_escape_char(s.last())
    }
}

/// Appends one character in its JSON string form.
fn push_json_escaped_char(s: &mut String, c: char)
    ensures
        final(s)@ == old(s)@ + spec_json_escape_char(c),
{
    if c == '"' {
        push_char(s, '\\');
        push_char(s, '"');
    } else if c == '\\' {
        push_char(s, '\\');
        push_char(s, '\\');
    } else if c == '\u{8}' {
        push_char(s, '\\');
        push_char(s, 'b');
    } else if c == '\u{9}' {
        push_char(s, '\\');
        push_char(s, 't');
    } else if c == '\u{a}' {
        push_char(s, '\\');
        push_char(s, 'n');
    } else if c == '\u{c}' {
        push_char(s, '\\');
        push_char(s, 'f');
    } else if c == '\u{d}' {
        push_char(s, '\\');
        push_char(s, 'r');
    } else if (c as u32) < 0x20 {
        push_char(s, '\\');
        push_char(s, 'u');
        push_char(s, '0');
        push_char(s, '0');
        push_char(s, hex_digit_char((c as u32 / 16) as u8));
        push_char(s, hex_digit_char((c as u32 % 16) as u8));
    } else {
        push_char(s, c);
    }
    assert(s@ =~= old(s)@ + spec_json_escape_char(c));
}

/// Appends the characters of `t` in their JSON string form.
pub fn push_json_escaped(s: &mut String, t: &str)
    ensures
        final(s)@ == old(s)@ + spec_json_escape(t@),
{
    let len = t.unicode_len();
    let mut i: usize = 0;
    while i < len
        invariant
            i <= len,
            len == t@.len(),
            s@ == old(s)@ + spec_json_escape(t@.take(i as int)),
        decreases len - i,
    {
        let c = t.get_char(i);
        push_json_escaped_char(s, c);
        proof {
            assert(t@.take(i + 1).drop_last() =~= t@.take(i as int));
            assert(t@.take(i + 1).last() == c);
            assert(s@ =~= old(s)@ + spec_json_escape(t@.take(i + 1)));
        }
        i = i + 1;
    }
    proof {
        assert(t@.take(t@.len() as int) =~= t@);
    }
}

} // verus!

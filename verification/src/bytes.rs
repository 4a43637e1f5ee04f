//! Comparing and converting byte strings.

use vstd::prelude::*;
use vstd::utf8::{decode_utf8, encode_utf8, valid_utf8};

verus! {

/// Compares two byte strings.
pub fn bytes_eq(a: &[u8], b: &[u8]) -> (r: bool)
    ensures
        r == (a@ == b@),
{
    if a.len() != b.len() {
        return false;
    }
    let mut i: usize = 0;
    while i < a.len()
        invariant
            i <= a@.len(),
            a@.len() == b@.len(),
            forall|j: int| 0 <= j < i ==> a@[j] == b@[j],
        decreases a@.len() - i,
    {
        if a[i] != b[i] {
            return false;
        }
        i += 1;
    }
    assert(a@ =~= b@);
    true
}

/// Compares two strings.
pub fn str_eq(a: &str, b: &str) -> (r: bool)
    ensures
        r == (a@ == b@),
{
    let r = bytes_eq(a.as_bytes(), b.as_bytes());
    proof {
        lemma_encode_injective(a@, b@);
    }
    r
}

/// Strings with the same encoding are the same.
proof fn lemma_encode_injective(a: Seq<char>, b: Seq<char>)
    ensures
        encode_utf8(a) == encode_utf8(b) <==> a == b,
{
    vstd::utf8::encode_utf8_decode_utf8(a);
    vstd::utf8::encode_utf8_decode_utf8(b);
}

/// `core::str::from_utf8`: succeeds exactly on valid UTF-8, and yields the string that the
/// bytes encode.
#[verifier::external_body]
pub(crate) fn from_utf8(bytes: &[u8]) -> (r: Option<&str>)
    ensures
        r is Some <==> valid_utf8(bytes@),
        r is Some ==> r->0@ == decode_utf8(bytes@),
{
    core::str::from_utf8(bytes).ok()
}

/// The bytes of a 32-bit word, the least significant one first.
pub open spec fn le_bytes(word: u32) -> Seq<u8> {
    seq![
        (word % 0x100) as u8,
        (word / 0x100 % 0x100) as u8,
        (word / 0x1_0000 % 0x100) as u8,
        (word / 0x100_0000) as u8,
    ]
}

/// The bytes of a 32-bit word, the least significant one first.
pub fn to_le_bytes(word: u32) -> (r: [u8; 4])
    ensures
        r@ == le_bytes(word),
{
    let r = [
        (word % 0x100) as u8,
        (word / 0x100 % 0x100) as u8,
        (word / 0x1_0000 % 0x100) as u8,
        (word / 0x100_0000) as u8,
    ];
    assert(r@ =~= le_bytes(word));
    r
}

/// The number that the bytes stand for, the most significant one first.
pub open spec fn be_value(bytes: Seq<u8>) -> nat
    decreases bytes.len(),
{
    if bytes.len() == 0 {
        0
    } else {
        be_value(bytes.drop_last()) * 256 + bytes.last() as nat
    }
}

/// How many numbers a number of bytes can stand for.
pub open spec fn pow256(n: nat) -> nat
    decreases n,
{
    if n == 0 {
        1
    } else {
        256 * pow256((n - 1) as nat)
    }
}

pub(crate) proof fn lemma_be_value_bound(bytes: Seq<u8>)
    ensures
        be_value(bytes) < pow256(bytes.len()),
    decreases bytes.len(),
{
    if bytes.len() > 0 {
        lemma_be_value_bound(bytes.drop_last());
    }
}

proof fn lemma_pow256_mono(i: nat, j: nat)
    requires
        i <= j,
    ensures
        pow256(i) <= pow256(j),
    decreases j - i,
{
    if i < j {
        lemma_pow256_mono(i, (j - 1) as nat);
    }
}

/// Byte strings of the same length that stand for the same number are the same.
pub proof fn law_be_value_is_injective(a: Seq<u8>, b: Seq<u8>)
    requires
        a.len() == b.len(),
    ensures
        be_value(a) == be_value(b) <==> a == b,
    decreases a.len(),
{
    if a.len() > 0 {
        law_be_value_is_injective(a.drop_last(), b.drop_last());
        if be_value(a) == be_value(b) {
            assert(a.last() == b.last());
            assert(a.drop_last() == b.drop_last());
            assert(a =~= a.drop_last().push(a.last()));
            assert(b =~= b.drop_last().push(b.last()));
        }
    } else {
        assert(a =~= b);
    }
}

/// The number that eight bytes stand for, the most significant one first.
pub fn u64_from_be_bytes(bytes: &[u8; 8]) -> (r: u64)
    ensures
        r == be_value(bytes@),
{
    let mut value: u64 = 0;
    let mut i: usize = 0;
    while i < 8
        invariant
            i <= 8,
            bytes@.len() == 8,
            value == be_value(bytes@.take(i as int)),
        decreases 8 - i,
    {
        proof {
            let longer = bytes@.take(i + 1);
            assert(longer.drop_last() =~= bytes@.take(i as int));
            lemma_be_value_bound(longer);
            lemma_pow256_mono((i + 1) as nat, 8);
            reveal_with_fuel(pow256, 9);
        }
        value = value * 256 + bytes[i] as u64;
        i += 1;
    }
    assert(bytes@.take(8) =~= bytes@);
    value
}

/// The eight bytes that stand for a number, the most significant one first.
pub fn u64_to_be_bytes(value: u64) -> (r: [u8; 8])
    ensures
        be_value(r@) == value,
{
    let mut bytes: [u8; 8] = [0u8, 0, 0, 0, 0, 0, 0, 0];
    let mut rest: u64 = value;
    let mut i: usize = 8;
    proof {
        reveal_with_fuel(pow256, 9);
        assert(bytes@.skip(8) =~= seq![]);
        assert(rest * pow256(0) == rest) by (nonlinear_arith)
            requires
                pow256(0) == 1,
        ;
    }
    while i > 0
        invariant
            i <= 8,
            bytes@.len() == 8,
            rest < pow256(i as nat),
            value == rest * pow256((8 - i) as nat) + be_value(bytes@.skip(i as int)),
        decreases i,
    {
        let ghost before = bytes@.skip(i as int);
        let ghost old_rest = rest;
        i -= 1;
        bytes[i] = (rest % 256) as u8;
        rest = rest / 256;
        proof {
            let after = bytes@.skip(i as int);
            assert(after =~= seq![(old_rest % 256) as u8] + before);
            lemma_be_value_cons((old_rest % 256) as u8, before);
            let p = pow256((7 - i) as nat);
            assert(pow256((8 - i) as nat) == 256 * p);
            assert(old_rest * p == rest * (256 * p) + (old_rest % 256) * p) by (nonlinear_arith)
                requires
                    old_rest == rest * 256 + old_rest % 256,
            ;
        }
    }
    assert(bytes@.skip(0) =~= bytes@);
    assert(rest * pow256(8) == 0) by (nonlinear_arith)
        requires
            rest == 0,
    ;
    bytes
}

proof fn lemma_be_value_cons(first: u8, rest: Seq<u8>)
    ensures
        be_value(seq![first] + rest) == first * pow256(rest.len()) + be_value(rest),
    decreases rest.len(),
{
    let all = seq![first] + rest;
    if rest.len() == 0 {
        assert(all.drop_last() =~= seq![]);
        assert(all.last() == first);
        assert(be_value(all) == be_value(seq![]) * 256 + first);
        assert(first * pow256(0) == first) by (nonlinear_arith)
            requires
                pow256(0) == 1,
        ;
    } else {
        lemma_be_value_cons(first, rest.drop_last());
        assert(all.drop_last() =~= seq![first] + rest.drop_last());
        let p = pow256((rest.len() - 1) as nat);
        assert(all.last() == rest.last());
        assert(be_value(all) == be_value(all.drop_last()) * 256 + rest.last());
        assert((first * p) * 256 == first * (256 * p)) by (nonlinear_arith);
    }
}

/// The hexadecimal digits, letters in upper case.
pub open spec fn upper_digits() -> Seq<char> {
    seq!['0', '1', '2', '3', '4', '5', '6', '7', '8', '9', 'A', 'B', 'C', 'D', 'E', 'F']
}

/// A hexadecimal digit, letters in upper case.
pub fn upper_digit(value: u8) -> (r: char)
    requires
        value < 16,
    ensures
        r == upper_digits()[value as int],
{
    match value {
        0 => '0',
        1 => '1',
        2 => '2',
        3 => '3',
        4 => '4',
        5 => '5',
        6 => '6',
        7 => '7',
        8 => '8',
        9 => '9',
        10 => 'A',
        11 => 'B',
        12 => 'C',
        13 => 'D',
        14 => 'E',
        _ => 'F',
    }
}

/// Two digits for each byte, the more significant one first.
pub open spec fn upper_hex(bytes: Seq<u8>) -> Seq<char> {
    Seq::new(
        2 * bytes.len(),
        |i: int|
            upper_digits()[if i % 2 == 0 {
                bytes[i / 2] as int / 16
            } else {
                bytes[i / 2] as int % 16
            }],
    )
}

/// The hexadecimal digits, letters in lower case.
pub open spec fn lower_digits() -> Seq<char> {
    seq!['0', '1', '2', '3', '4', '5', '6', '7', '8', '9', 'a', 'b', 'c', 'd', 'e', 'f']
}

/// A hexadecimal digit, letters in lower case.
pub fn lower_digit(value: u16) -> (r: char)
    requires
        value < 16,
    ensures
        r == lower_digits()[value as int],
{
    match value {
        0 => '0',
        1 => '1',
        2 => '2',
        3 => '3',
        4 => '4',
        5 => '5',
        6 => '6',
        7 => '7',
        8 => '8',
        9 => '9',
        10 => 'a',
        11 => 'b',
        12 => 'c',
        13 => 'd',
        14 => 'e',
        _ => 'f',
    }
}

/// The bytes of a word add up to it, the least significant one first.
pub proof fn law_le_bytes_add_up(word: u32)
    ensures
        le_bytes(word).len() == 4,
        word == le_bytes(word)[0] + 0x100 * le_bytes(word)[1] + 0x1_0000 * le_bytes(word)[2] + 0x100_0000 * le_bytes(
            word,
        )[3],
{
}

/// Eight bytes stand for the number that they add up to, the most significant one first.
pub proof fn law_be_value_adds_up(bytes: Seq<u8>)
    requires
        bytes.len() == 8,
    ensures
        be_value(bytes) == 0x100_0000_0000_0000 * bytes[0] + 0x1_0000_0000_0000 * bytes[1] + 0x100_0000_0000 * bytes[2]
            + 0x1_0000_0000 * bytes[3] + 0x100_0000 * bytes[4] + 0x1_0000 * bytes[5] + 0x100 * bytes[6] + bytes[7],
{
    reveal_with_fuel(be_value, 9);
}

/// The digits stand for their values in the usual order: the figures first, then the letters.
pub proof fn law_digits_are_hexadecimal(value: int)
    requires
        0 <= value < 16,
    ensures
        upper_digits()[value] as int == (if value < 10 {
            '0' as int + value
        } else {
            'A' as int + value - 10
        }),
        lower_digits()[value] as int == (if value < 10 {
            '0' as int + value
        } else {
            'a' as int + value - 10
        }),
{
}

/// The value of a hexadecimal digit, if it is one.
pub open spec fn digit_value(digit: char) -> Option<int> {
    if '0' <= digit <= '9' {
        Some(digit as int - '0' as int)
    } else if 'A' <= digit <= 'F' {
        Some(digit as int - 'A' as int + 10)
    } else if 'a' <= digit <= 'f' {
        Some(digit as int - 'a' as int + 10)
    } else {
        None
    }
}

/// Each digit has the value that it stands for, and is of its own kind of letters.
pub proof fn law_digits_have_their_values(value: int)
    requires
        0 <= value < 16,
    ensures
        digit_value(upper_digits()[value]) == Some(value) && upper_digits()[value] < 'a',
        digit_value(lower_digits()[value]) == Some(value) && !('A' <= lower_digits()[value] <= 'F'),
{
    law_digits_are_hexadecimal(value);
}

/// The two digits of each byte, read as a number, give the byte back, and none of them is a small
/// letter.
pub proof fn law_upper_hex_gives_the_bytes_back(bytes: Seq<u8>, i: int)
    requires
        0 <= i < bytes.len(),
    ensures
        upper_hex(bytes).len() == 2 * bytes.len(),
        ({
            let (high, low) = (upper_hex(bytes)[2 * i], upper_hex(bytes)[2 * i + 1]);
            &&& digit_value(high) is Some && digit_value(low) is Some
            &&& bytes[i] == 16 * digit_value(high)->0 + digit_value(low)->0
            &&& high < 'a' && low < 'a'
        }),
{
    let byte = bytes[i] as int;
    law_digits_have_their_values(byte / 16);
    law_digits_have_their_values(byte % 16);
    assert((2 * i) / 2 == i && (2 * i + 1) / 2 == i);
    assert(upper_hex(bytes)[2 * i] == upper_digits()[byte / 16]);
    assert(upper_hex(bytes)[2 * i + 1] == upper_digits()[byte % 16]);
}

} // verus!

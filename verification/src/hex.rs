//! Hexadecimal texts: transaction ids in display order and account ids.

use crate::text::{from_chars, to_chars};
use vstd::prelude::*;
use vstd::string::*;

verus! {

// ----- digits -----

/// The lower-case hexadecimal digit of a number below sixteen.
pub open spec fn hex_digit(n: int) -> char {
    if n < 10 {
        (('0' as u32) + n) as char
    } else {
        (('a' as u32) + n - 10) as char
    }
}

/// The number that a hexadecimal digit stands for, in either case.
pub open spec fn hex_value(c: char) -> Option<u8> {
    if '0' <= c <= '9' {
        Some((c as u32 - '0' as u32) as u8)
    } else if 'a' <= c <= 'f' {
        Some((c as u32 - 'a' as u32 + 10) as u8)
    } else if 'A' <= c <= 'F' {
        Some((c as u32 - 'A' as u32 + 10) as u8)
    } else {
        None
    }
}

/// A digit stands for the number it was made of.
pub proof fn hex_digit_is_read_back(n: int)
    requires
        0 <= n < 16,
    ensures
        hex_value(hex_digit(n)) == Some(n as u8),
        hex_digit(n) != '-',
        hex_digit(n) != '+',
{
}

fn digit_of(n: u8) -> (c: char)
    requires
        n < 16,
    ensures
        c == hex_digit(n as int),
{
    if n < 10 {
        (48u8 + n) as char
    } else {
        (87u8 + n) as char
    }
}

fn value_of(c: char) -> (n: Option<u8>)
    ensures
        n == hex_value(c),
        n matches Some(v) ==> v < 16,
{
    if '0' <= c && c <= '9' {
        Some((c as u32 - 48) as u8)
    } else if 'a' <= c && c <= 'f' {
        Some((c as u32 - 87) as u8)
    } else if 'A' <= c && c <= 'F' {
        Some((c as u32 - 55) as u8)
    } else {
        None
    }
}

/// The hexadecimal text of some bytes: two digits for each, the high one first.
pub open spec fn hex_of(bytes: Seq<u8>) -> Seq<char> {
    Seq::new(
        2 * bytes.len(),
        |i: int|
            if i % 2 == 0 {
                hex_digit(bytes[i / 2] as int / 16)
            } else {
                hex_digit(bytes[i / 2] as int % 16)
            },
    )
}

// ----- transaction ids -----

/// The display form of a transaction id: its bytes in reverse order, in hexadecimal.
pub open spec fn display_of(txid: Seq<u8>) -> Seq<char> {
    hex_of(txid.reverse())
}

/// The byte that two characters stand for: two digits, or a plus sign and a digit.
pub open spec fn pair_value(high: char, low: char) -> Option<u8> {
    if high == '+' {
        hex_value(low)
    } else {
        match (hex_value(high), hex_value(low)) {
            (Some(h), Some(l)) => Some((16 * h + l) as u8),
            _ => None,
        }
    }
}

/// The byte at a place of a hexadecimal text.
pub open spec fn byte_at(hex: Seq<char>, i: int) -> Option<u8> {
    pair_value(hex[2 * i], hex[2 * i + 1])
}

/// The transaction id that a display-order text stands for.
pub open spec fn txid_of_display(hex: Seq<char>) -> Option<Seq<u8>> {
    if hex.len() == 64 && forall|i: int| 0 <= i < 32 ==> #[trigger] byte_at(hex, i) is Some {
        Some(Seq::new(32, |i: int| byte_at(hex, 31 - i)->Some_0))
    } else {
        None
    }
}

/// The bytes of an optional transaction id.
pub open spec fn optional_txid(t: Option<[u8; 32]>) -> Option<Seq<u8>> {
    match t {
        Some(bytes) => Some(bytes@),
        None => None,
    }
}

fn pair(high: char, low: char) -> (b: Option<u8>)
    ensures
        b == pair_value(high, low),
{
    if high == '+' {
        return value_of(low);
    }
    match (value_of(high), value_of(low)) {
        (Some(h), Some(l)) => Some(16 * h + l),
        _ => None,
    }
}

/// Parse a display-order (big-endian) txid hex string back into its internal (little-endian) bytes.
pub fn txid_from_display_hex(hex: &str) -> (txid: Option<[u8; 32]>)
    ensures
        optional_txid(txid) == txid_of_display(hex@),
{
    let chars: Vec<char> = to_chars(hex);
    if chars.len() != 64 {
        return None;
    }
    let mut bytes: [u8; 32] = [0u8; 32];
    for i in 0..32usize
        invariant
            chars@ == hex@,
            chars@.len() == 64,
            forall|k: int| 0 <= k < i ==> (#[trigger] byte_at(hex@, k)) is Some,
            forall|k: int| 31 - i < k < 32 ==> byte_at(hex@, 31 - k) == Some(#[trigger] bytes@[k]),
    {
        match pair(chars[2 * i], chars[2 * i + 1]) {
            Some(b) => {
                assert(byte_at(hex@, i as int) == Some(b));
                bytes[31 - i] = b;
            },
            None => {
                assert(byte_at(hex@, i as int) is None);
                return None;
            },
        }
    }
    assert(bytes@ =~= txid_of_display(hex@)->Some_0);
    Some(bytes)
}

/// The display form of a transaction id.
pub fn txid_display(txid: &[u8; 32]) -> (s: String)
    ensures
        s@ == display_of(txid@),
{
    let mut chars: Vec<char> = Vec::new();
    for i in 0..32usize
        invariant
            chars@.len() == 2 * i,
            forall|k: int| 0 <= k < 2 * i ==> chars@[k] == #[trigger] display_of(txid@)[k],
    {
        let b: u8 = txid[31 - i];
        assert(txid@.reverse()[i as int] == b);
        chars.push(digit_of(b / 16));
        chars.push(digit_of(b % 16));
    }
    assert(chars@ =~= display_of(txid@));
    from_chars(chars.as_slice())
}

/// A transaction id is read back from its display form.
pub proof fn txid_round_trips(txid: Seq<u8>)
    requires
        txid.len() == 32,
    ensures
        txid_of_display(display_of(txid)) == Some(txid),
{
    let hex = display_of(txid);
    assert forall|i: int| 0 <= i < 32 implies #[trigger] byte_at(hex, i) == Some(txid[31 - i]) by {
        let b = txid[31 - i] as int;
        assert(txid.reverse()[i] == b);
        assert(hex[2 * i] == hex_digit(b / 16));
        assert(hex[2 * i + 1] == hex_digit(b % 16));
        hex_digit_is_read_back(b / 16);
        hex_digit_is_read_back(b % 16);
    }
    assert(txid_of_display(hex)->Some_0 =~= txid);
}

// ----- account and run ids -----

/// The hyphenated text of a universally unique identifier.
pub open spec fn hyphenated(bytes: Seq<u8>) -> Seq<char> {
    hex_of(bytes.subrange(0, 4)) + seq!['-'] + hex_of(bytes.subrange(4, 6)) + seq!['-'] + hex_of(
        bytes.subrange(6, 8),
    ) + seq!['-'] + hex_of(bytes.subrange(8, 10)) + seq!['-'] + hex_of(bytes.subrange(10, 16))
}

/// The text of a random (version four) identifier: its version and variant bits are fixed.
pub open spec fn is_random_id(text: Seq<char>) -> bool {
    exists|bytes: Seq<u8>|
        bytes.len() == 16 && text == #[trigger] hyphenated(bytes) && bytes[6] / 16 == 4 && bytes[8]
            / 64 == 2
}

/// `uuid::Uuid::from_bytes` and the identifier's `Display`: the hyphenated lower-case text of the
/// sixteen bytes.
#[verifier::external_body]
pub(crate) fn uuid_text(bytes: [u8; 16]) -> (s: String)
    ensures
        s@ == hyphenated(bytes@),
{
    uuid::Uuid::from_bytes(bytes).to_string()
}

/// `uuid::Uuid::new_v4` and the identifier's `Display`: the hyphenated lower-case text of sixteen
/// random bytes in which the version is four and the variant the usual one.
#[verifier::external_body]
pub(crate) fn random_uuid_text() -> (s: String)
    ensures
        is_random_id(s@),
{
    uuid::Uuid::new_v4().to_string()
}

/// The text of an account id.
pub fn account_text(account: [u8; 16]) -> (s: String)
    ensures
        s@ == hyphenated(account@),
{
    uuid_text(account)
}

/// A fresh id for a run.
pub fn new_run_id() -> (s: String)
    ensures
        is_random_id(s@),
{
    random_uuid_text()
}

proof fn hex_is_injective(a: Seq<u8>, b: Seq<u8>)
    requires
        a.len() == b.len(),
        hex_of(a) == hex_of(b),
    ensures
        a == b,
{
    assert forall|i: int| 0 <= i < a.len() implies a[i] == b[i] by {
        assert(hex_of(a)[2 * i] == hex_digit(a[i] as int / 16));
        assert(hex_of(a)[2 * i + 1] == hex_digit(a[i] as int % 16));
        assert(hex_of(b)[2 * i] == hex_digit(b[i] as int / 16));
        assert(hex_of(b)[2 * i + 1] == hex_digit(b[i] as int % 16));
        hex_digit_is_read_back(a[i] as int / 16);
        hex_digit_is_read_back(b[i] as int / 16);
        hex_digit_is_read_back(a[i] as int % 16);
        hex_digit_is_read_back(b[i] as int % 16);
    }
    assert(a =~= b);
}

/// Two accounts have the same text only if they are the same account.
pub proof fn account_texts_are_distinct(a: Seq<u8>, b: Seq<u8>)
    requires
        a.len() == 16,
        b.len() == 16,
        hyphenated(a) == hyphenated(b),
    ensures
        a == b,
{
    let s = hyphenated(a);
    let t = hyphenated(b);
    assert(s.subrange(0, 8) =~= hex_of(a.subrange(0, 4)));
    assert(t.subrange(0, 8) =~= hex_of(b.subrange(0, 4)));
    assert(s.subrange(9, 13) =~= hex_of(a.subrange(4, 6)));
    assert(t.subrange(9, 13) =~= hex_of(b.subrange(4, 6)));
    assert(s.subrange(14, 18) =~= hex_of(a.subrange(6, 8)));
    assert(t.subrange(14, 18) =~= hex_of(b.subrange(6, 8)));
    assert(s.subrange(19, 23) =~= hex_of(a.subrange(8, 10)));
    assert(t.subrange(19, 23) =~= hex_of(b.subrange(8, 10)));
    assert(s.subrange(24, 36) =~= hex_of(a.subrange(10, 16)));
    assert(t.subrange(24, 36) =~= hex_of(b.subrange(10, 16)));
    hex_is_injective(a.subrange(0, 4), b.subrange(0, 4));
    hex_is_injective(a.subrange(4, 6), b.subrange(4, 6));
    hex_is_injective(a.subrange(6, 8), b.subrange(6, 8));
    hex_is_injective(a.subrange(8, 10), b.subrange(8, 10));
    hex_is_injective(a.subrange(10, 16), b.subrange(10, 16));
    assert forall|i: int| 0 <= i < 16 implies a[i] == b[i] by {
        if i < 4 {
            assert(a.subrange(0, 4)[i] == b.subrange(0, 4)[i]);
        } else if i < 6 {
            assert(a.subrange(4, 6)[i - 4] == b.subrange(4, 6)[i - 4]);
        } else if i < 8 {
            assert(a.subrange(6, 8)[i - 6] == b.subrange(6, 8)[i - 6]);
        } else if i < 10 {
            assert(a.subrange(8, 10)[i - 8] == b.subrange(8, 10)[i - 8]);
        } else {
            assert(a.subrange(10, 16)[i - 10] == b.subrange(10, 16)[i - 10]);
        }
    }
    assert(a =~= b);
}

} // verus!

//! What holds of the texts that the engine writes and reads, said of their characters.

use crate::attention::{attention_of, expired_message, invalid_note_message};
use crate::hex::{
    byte_at, display_of, hex_digit, hex_of, hyphenated, is_random_id, txid_of_display,
};
use crate::json::{comma_separated, json_array, values_or_none};
use crate::text::{
    contains_text, decimal, decimal_int, decimal_is_digits, differs_first_at, first_occurrence,
    first_occurs_at, is_blank, lower, occurs_at, second_piece, starts_with, text_before, trimmed,
    without_leading_blanks, without_trailing_blanks,
};
use crate::types::AttentionView;
use vstd::prelude::*;

verus! {

// ----- decimal -----

/// The number that some decimal digits stand for.
pub open spec fn decimal_value(digits: Seq<char>) -> int {
    digits.fold_left(0int, |value: int, c: char| 10 * value + (c as int - '0' as int))
}

/// The decimal rendering of a number consists of digits that stand for it, without a leading zero.
pub proof fn decimal_stands_for_its_number(n: nat)
    ensures
        decimal_value(decimal(n)) == n,
        decimal(n).len() > 0,
        forall|i: int| 0 <= i < decimal(n).len() ==> '0' <= #[trigger] decimal(n)[i] <= '9',
        n > 0 ==> decimal(n)[0] != '0',
        n == 0 ==> decimal(n) == seq!['0'],
    decreases n,
{
    decimal_is_digits(n);
    let f = |value: int, c: char| 10 * value + (c as int - '0' as int);
    if n >= 10 {
        decimal_stands_for_its_number(n / 10);
        assert(decimal(n).drop_last() =~= decimal(n / 10));
        assert(decimal(n)[0] == decimal(n / 10)[0]);
        assert(decimal(n).fold_left(0int, f) == f(decimal(n / 10).fold_left(0int, f), decimal(n).last()));
    } else {
        assert(decimal(n).drop_last() =~= Seq::<char>::empty());
        assert(decimal(n).drop_last().fold_left(0int, f) == 0);
        assert(decimal(n).fold_left(0int, f) == f(0, decimal(n).last()));
    }
}

/// A negative number is written as a minus sign and its absolute value.
pub proof fn negative_numbers_have_a_minus_sign(n: int)
    ensures
        n >= 0 ==> decimal_int(n) == decimal(n as nat),
        n < 0 ==> decimal_int(n)[0] == '-' && decimal_int(n).skip(1) == decimal((-n) as nat),
{
    if n < 0 {
        assert(decimal_int(n).skip(1) =~= decimal((-n) as nat));
    }
}

// ----- case -----

/// Making a text small changes its ASCII capitals alone, each into the small letter 32 places on.
pub proof fn lower_case_changes_capitals_alone(s: Seq<char>, i: int)
    requires
        0 <= i < s.len(),
    ensures
        lower(s).len() == s.len(),
        'A' <= s[i] <= 'Z' ==> lower(s)[i] as int == s[i] as int + 32,
        !('A' <= s[i] <= 'Z') ==> lower(s)[i] == s[i],
{
}

/// Making a text small again changes nothing.
pub proof fn lower_case_is_kept(s: Seq<char>)
    ensures
        lower(lower(s)) == lower(s),
{
    assert(lower(lower(s)) =~= lower(s));
}

// ----- search -----

/// From a place on, the characters of a text are those of another.
pub open spec fn reads_on_as(s: Seq<char>, part: Seq<char>, i: int) -> bool {
    0 <= i <= s.len() - part.len() && forall|k: int|
        0 <= k < part.len() ==> s[i + k] == #[trigger] part[k]
}

/// A text holds another exactly where, from some place on, its characters are those of the other.
pub proof fn texts_are_found_by_their_characters(s: Seq<char>, part: Seq<char>)
    ensures
        contains_text(s, part) <==> exists|i: int| reads_on_as(s, part, i),
        forall|i: int| #[trigger] occurs_at(s, part, i) <==> reads_on_as(s, part, i),
{
    assert forall|i: int| #[trigger] occurs_at(s, part, i) <==> reads_on_as(s, part, i) by {
        if occurs_at(s, part, i) {
            assert forall|k: int| 0 <= k < part.len() implies s[i + k] == #[trigger] part[k] by {
                assert(s.subrange(i, i + part.len())[k] == part[k]);
            }
        }
        if reads_on_as(s, part, i) {
            assert(s.subrange(i, i + part.len()) =~= part);
        }
    }
    if exists|i: int| reads_on_as(s, part, i) {
        let i = choose|i: int| reads_on_as(s, part, i);
        assert(occurs_at(s, part, i));
    }
}

/// A text begins with another exactly where its first characters are those of the other.
pub proof fn prefixes_are_found_by_their_characters(s: Seq<char>, prefix: Seq<char>)
    ensures
        starts_with(s, prefix) <==> prefix.len() <= s.len() && forall|k: int|
            0 <= k < prefix.len() ==> s[k] == #[trigger] prefix[k],
{
    if starts_with(s, prefix) {
        assert forall|k: int| 0 <= k < prefix.len() implies s[k] == #[trigger] prefix[k] by {
            assert(s.take(prefix.len() as int)[k] == prefix[k]);
        }
    }
    if prefix.len() <= s.len() && forall|k: int|
        0 <= k < prefix.len() ==> s[k] == #[trigger] prefix[k] {
        assert(s.take(prefix.len() as int) =~= prefix);
    }
}

/// The piece behind the first separator ends before the next one, or with the text; it holds no
/// separator, and no separator begins before the first one.
pub proof fn second_piece_stands_between_separators(s: Seq<char>, separator: Seq<char>)
    requires
        separator.len() > 0,
    ensures
        !contains_text(s, separator) ==> second_piece(s, separator).len() == 0,
        contains_text(s, separator) ==> exists|i: int|
            #![trigger occurs_at(s, separator, i)]
            occurs_at(s, separator, i) && (forall|j: int|
                0 <= j < i ==> !occurs_at(s, separator, j)) && {
                let rest = s.skip(i + separator.len());
                let piece = second_piece(s, separator);
                &&& piece.len() <= rest.len()
                &&& rest.take(piece.len() as int) == piece
                &&& piece.len() < rest.len() ==> occurs_at(rest, separator, piece.len() as int)
                &&& forall|j: int| 0 <= j < piece.len() ==> !occurs_at(rest, separator, j)
            },
{
    if contains_text(s, separator) {
        first_place_is_found(s, separator);
        let i = first_occurrence(s, separator)->Some_0;
        let rest = s.skip(i + separator.len());
        let piece = second_piece(s, separator);
        assert(occurs_at(s, separator, i));
        if contains_text(rest, separator) {
            first_place_is_found(rest, separator);
        } else {
            assert(rest.take(rest.len() as int) =~= rest);
            assert forall|j: int| 0 <= j < piece.len() implies !occurs_at(rest, separator, j) by {
                assert(!contains_text(rest, separator));
            }
        }
    }
}

proof fn first_place_is_found(s: Seq<char>, part: Seq<char>)
    requires
        contains_text(s, part),
    ensures
        first_occurrence(s, part) matches Some(i) && first_occurs_at(s, part, i),
{
    let i = choose|i: int| occurs_at(s, part, i);
    let k = first_place_up_to(s, part, i);
    assert(first_occurs_at(s, part, k));
}

proof fn first_place_up_to(s: Seq<char>, part: Seq<char>, i: int) -> (k: int)
    requires
        occurs_at(s, part, i),
    ensures
        first_occurs_at(s, part, k),
    decreases i,
{
    if exists|j: int| 0 <= j < i && occurs_at(s, part, j) {
        let j = choose|j: int| 0 <= j < i && occurs_at(s, part, j);
        first_place_up_to(s, part, j)
    } else {
        i
    }
}

// ----- blanks -----

/// All characters of a text are blanks.
pub open spec fn is_all_blank(s: Seq<char>) -> bool {
    forall|i: int| 0 <= i < s.len() ==> is_blank(#[trigger] s[i])
}

/// A trimmed text is the text without the blanks around it: what is taken away is blank, and what is
/// left neither starts nor ends with a blank.
pub proof fn trimming_takes_the_blanks_around(s: Seq<char>)
    ensures
        exists|a: Seq<char>, b: Seq<char>|
            #![trigger a + trimmed(s) + b]
            s == a + trimmed(s) + b && is_all_blank(a) && is_all_blank(b),
        trimmed(s).len() > 0 ==> !is_blank(trimmed(s)[0]) && !is_blank(trimmed(s).last()),
{
    let a = leading_blanks(s);
    let rest = without_leading_blanks(s);
    let b = trailing_blanks(rest);
    assert(s =~= a + trimmed(s) + b);
}

proof fn leading_blanks(s: Seq<char>) -> (a: Seq<char>)
    ensures
        s == a + without_leading_blanks(s),
        is_all_blank(a),
        without_leading_blanks(s).len() > 0 ==> !is_blank(without_leading_blanks(s)[0]),
    decreases s.len(),
{
    if s.len() > 0 && is_blank(s[0]) {
        let a = leading_blanks(s.drop_first());
        let all = seq![s[0]] + a;
        assert forall|i: int| 0 <= i < all.len() implies is_blank(#[trigger] all[i]) by {
            if i > 0 {
                assert(all[i] == a[i - 1]);
            }
        }
        assert(s =~= seq![s[0]] + s.drop_first());
        assert(all + without_leading_blanks(s) =~= seq![s[0]] + (a + without_leading_blanks(s)));
        all
    } else {
        assert(s =~= Seq::<char>::empty() + s);
        Seq::empty()
    }
}

proof fn trailing_blanks(s: Seq<char>) -> (b: Seq<char>)
    ensures
        s == without_trailing_blanks(s) + b,
        is_all_blank(b),
        without_trailing_blanks(s).len() > 0 ==> !is_blank(without_trailing_blanks(s).last())
            && without_trailing_blanks(s)[0] == s[0],
    decreases s.len(),
{
    if s.len() > 0 && is_blank(s.last()) {
        let b = trailing_blanks(s.drop_last());
        let all = b.push(s.last());
        assert forall|i: int| 0 <= i < all.len() implies is_blank(#[trigger] all[i]) by {
            if i < b.len() {
                assert(all[i] == b[i]);
            }
        }
        assert(s =~= s.drop_last().push(s.last()));
        assert(without_trailing_blanks(s) + all =~= (without_trailing_blanks(s) + b).push(s.last()));
        all
    } else {
        assert(s =~= s + Seq::<char>::empty());
        Seq::empty()
    }
}

// ----- order -----

/// Behind a common beginning the smaller character comes first, whatever follows, and a text comes
/// before every longer one that it begins.
pub proof fn order_goes_by_the_first_difference(
    common: Seq<char>,
    x: char,
    y: char,
    a: Seq<char>,
    b: Seq<char>,
)
    ensures
        x < y ==> text_before(common + seq![x] + a, common + seq![y] + b),
        x > y ==> !text_before(common + seq![x] + a, common + seq![y] + b),
        text_before(common, common + seq![y] + b),
        !text_before(common + seq![y] + b, common),
{
    let s = common + seq![x] + a;
    let t = common + seq![y] + b;
    let n = common.len() as int;
    assert(forall|i: int| 0 <= i < n ==> s[i] == common[i] && t[i] == common[i]);
    assert(s[n] == x && t[n] == y);
    assert(differs_first_at(common, t, n));
    if x < y {
        assert(differs_first_at(s, t, n));
    }
    if x > y {
        assert forall|k: int| !differs_first_at(s, t, k) by {
            if differs_first_at(s, t, k) {
                if k < n {
                    assert(s[k] == t[k]);
                } else if k > n {
                    assert(s[n] == t[n]);
                }
            }
        }
    }
    assert forall|k: int| !differs_first_at(t, common, k) by {
        if differs_first_at(t, common, k) {
            assert(t[k] == common[k]);
        }
    }
}

// ----- hexadecimal -----

/// The number that a hexadecimal digit stands for.
pub open spec fn nibble(c: char) -> int {
    if '0' <= c <= '9' {
        c as int - '0' as int
    } else if 'a' <= c <= 'f' {
        c as int - 'a' as int + 10
    } else if 'A' <= c <= 'F' {
        c as int - 'A' as int + 10
    } else {
        -1
    }
}

/// A lower-case hexadecimal digit.
pub open spec fn is_small_digit(c: char) -> bool {
    '0' <= c <= '9' || 'a' <= c <= 'f'
}

/// The display form of a transaction id has two lower-case digits for each byte, the high one first,
/// and the last byte first.
pub proof fn display_shows_the_bytes_backwards(txid: Seq<u8>, i: int)
    requires
        0 <= i < txid.len(),
    ensures
        ({
            let s = display_of(txid);
            let at = 2 * (txid.len() - 1 - i);
            &&& s.len() == 2 * txid.len()
            &&& is_small_digit(s[at])
            &&& is_small_digit(s[at + 1])
            &&& txid[i] == 16 * nibble(s[at]) + nibble(s[at + 1])
        }),
{
    let k = txid.len() - 1 - i;
    assert(txid.reverse()[k] == txid[i]);
    assert(display_of(txid)[2 * k] == hex_digit(txid[i] as int / 16));
    assert(display_of(txid)[2 * k + 1] == hex_digit(txid[i] as int % 16));
}

/// A text is read as a transaction id only where it has 64 characters, and each pair of them, from the
/// last one back, is two hexadecimal digits, in either case, that stand for the byte, or a plus sign
/// and one such digit.
pub proof fn read_id_has_the_bytes_of_its_text(hex: Seq<char>, i: int)
    requires
        0 <= i < 32,
    ensures
        txid_of_display(hex) is Some <==> hex.len() == 64 && forall|k: int|
            0 <= k < 32 ==> nibble(#[trigger] hex[2 * k + 1]) >= 0 && (nibble(hex[2 * k]) >= 0
                || hex[2 * k] == '+'),
        txid_of_display(hex) matches Some(txid) ==> {
            let high = hex[2 * (31 - i)];
            let low = hex[2 * (31 - i) + 1];
            &&& txid.len() == 32
            &&& high == '+' ==> txid[i] == nibble(low)
            &&& high != '+' ==> txid[i] == 16 * nibble(high) + nibble(low)
        },
{
    assert forall|k: int| #![trigger byte_at(hex, k)] (byte_at(hex, k) is Some) == (nibble(
        hex[2 * k + 1],
    ) >= 0 && (nibble(hex[2 * k]) >= 0 || hex[2 * k] == '+')) by {}
    if hex.len() == 64 && forall|k: int|
        0 <= k < 32 ==> nibble(#[trigger] hex[2 * k + 1]) >= 0 && (nibble(hex[2 * k]) >= 0
            || hex[2 * k] == '+') {
        assert forall|k: int| 0 <= k < 32 implies #[trigger] byte_at(hex, k) is Some by {
            assert(nibble(hex[2 * k + 1]) >= 0);
        }
    }
    if let Some(txid) = txid_of_display(hex) {
        assert forall|k: int| 0 <= k < 32 implies nibble(#[trigger] hex[2 * k + 1]) >= 0 && (nibble(
            hex[2 * k],
        ) >= 0 || hex[2 * k] == '+') by {
            assert(byte_at(hex, k) is Some);
        }
        assert(byte_at(hex, 31 - i) is Some);
        assert(txid[i] == byte_at(hex, 31 - i)->Some_0);
    }
}

/// Where the digits of a byte stand in the text of an identifier, with its four hyphens.
pub open spec fn digit_place(i: int) -> int {
    if i < 4 {
        2 * i
    } else if i < 6 {
        2 * i + 1
    } else if i < 8 {
        2 * i + 2
    } else if i < 10 {
        2 * i + 3
    } else {
        2 * i + 4
    }
}

/// The text of an identifier has 36 characters: hyphens behind the first 8, 4, 4 and 4 digits, and for
/// each of the sixteen bytes, in order, its two lower-case digits.
pub proof fn identifier_shows_its_bytes(bytes: Seq<u8>, i: int)
    requires
        bytes.len() == 16,
        0 <= i < 16,
    ensures
        ({
            let s = hyphenated(bytes);
            let at = digit_place(i);
            &&& s.len() == 36
            &&& s[8] == '-' && s[13] == '-' && s[18] == '-' && s[23] == '-'
            &&& is_small_digit(s[at])
            &&& is_small_digit(s[at + 1])
            &&& bytes[i] == 16 * nibble(s[at]) + nibble(s[at + 1])
        }),
{
    let s = hyphenated(bytes);
    assert(s[digit_place(i)] == hex_digit(bytes[i] as int / 16) && s[digit_place(i) + 1]
        == hex_digit(bytes[i] as int % 16)) by {
        let (from, to) = if i < 4 {
            (0int, 4int)
        } else if i < 6 {
            (4int, 6int)
        } else if i < 8 {
            (6int, 8int)
        } else if i < 10 {
            (8int, 10int)
        } else {
            (10int, 16int)
        };
        let part = bytes.subrange(from, to);
        assert(part[i - from] == bytes[i]);
        assert(hex_of(part)[2 * (i - from)] == hex_digit(bytes[i] as int / 16));
        assert(hex_of(part)[2 * (i - from) + 1] == hex_digit(bytes[i] as int % 16));
    }
}

/// A run id is the text of sixteen bytes in which the version digit is four and the variant digit one
/// of 8, 9, a and b.
pub proof fn run_ids_are_of_version_four(text: Seq<char>)
    requires
        is_random_id(text),
    ensures
        text.len() == 36,
        text[14] == '4',
        text[19] == '8' || text[19] == '9' || text[19] == 'a' || text[19] == 'b',
{
    let bytes = choose|bytes: Seq<u8>|
        bytes.len() == 16 && text == #[trigger] hyphenated(bytes) && bytes[6] / 16 == 4 && bytes[8]
            / 64 == 2;
    identifier_shows_its_bytes(bytes, 6);
    identifier_shows_its_bytes(bytes, 8);
}

// ----- JSON -----

/// The JSON of no values is a pair of brackets; that of one is its decimal between them; one more value
/// stands behind a comma before the closing bracket.
pub proof fn json_lists_the_decimals(values: Seq<u64>, v: u64)
    ensures
        json_array(Seq::<u64>::empty()) == seq!['[', ']'],
        json_array(seq![v]) == seq!['['] + decimal(v as nat) + seq![']'],
        values.len() > 0 ==> json_array(values.push(v)) == json_array(values).drop_last() + seq![',']
            + decimal(v as nat) + seq![']'],
{
    assert(json_array(Seq::<u64>::empty()) =~= seq!['[', ']']);
    if values.len() > 0 {
        assert(values.push(v).drop_last() =~= values);
        assert(json_array(values).drop_last() =~= seq!['['] + comma_separated(values));
        assert(json_array(values.push(v)) =~= json_array(values).drop_last() + seq![','] + decimal(
            v as nat,
        ) + seq![']']);
    }
}

/// Values that were read are kept; where none could be read there are none.
pub proof fn read_values_are_kept(values: Seq<u64>)
    ensures
        values_or_none(Some(values)) == values,
        values_or_none(None).len() == 0,
{
}

// ----- failure messages -----

/// A failure message speaks of an invalid note exactly where it holds those words, in whatever case;
/// the transfer is then what stands behind the word for one, without the blanks around it. Every other
/// message is an expiry.
pub proof fn messages_are_told_apart(message: Seq<char>)
    ensures
        attention_of(message) is InvalidTransfer <==> contains_text(
            lower(message),
            "invalid note"@,
        ),
        attention_of(message) is InvalidTransfer || attention_of(message) is TransferExpired,
        attention_of(message) matches AttentionView::InvalidTransfer { transfer_id } ==> transfer_id
            == trimmed(second_piece(message, "transfer "@)),
{
}

/// The messages that are stored name the transfer they are about.
pub proof fn messages_name_their_transfer(transfer_id: Seq<char>)
    ensures
        invalid_note_message(transfer_id) == "invalid note for transfer "@ + transfer_id,
        expired_message(transfer_id) == "transfer "@ + transfer_id + " expired"@,
{
}

} // verus!

//! Text: the decimal and hexadecimal renderings, the searches and the order that the engine's
//! rows, messages and identifiers are made of. A text is the sequence of its characters.

use vstd::prelude::*;
use vstd::string::*;

verus! {

// ----- characters in and out of strings -----

/// `String::push` of the standard library: the character is put behind what the string holds.
pub assume_specification[ String::push ](s: &mut String, c: char)
    ensures
        final(s)@ == old(s)@.push(c),
;

/// The characters of a text, one by one.
pub fn to_chars(s: &str) -> (chars: Vec<char>)
    ensures
        chars@ == s@,
{
    let mut chars: Vec<char> = Vec::new();
    for c in it: s.chars()
        invariant
            chars@ == it.seq().take(it.index() as int),
            it.seq() == s@,
    {
        chars.push(c);
    }
    chars
}

/// Whether two texts hold the same characters.
pub fn same_text(a: &str, b: &str) -> (same: bool)
    ensures
        same == (a@ == b@),
{
    let left: Vec<char> = to_chars(a);
    let right: Vec<char> = to_chars(b);
    if left.len() != right.len() {
        return false;
    }
    for i in 0..left.len()
        invariant
            left@ == a@,
            right@ == b@,
            left@.len() == right@.len(),
            forall|k: int| 0 <= k < i ==> left@[k] == right@[k],
    {
        if left[i] != right[i] {
            return false;
        }
    }
    assert(left@ =~= right@);
    true
}

/// The text made of the given characters.
pub fn from_chars(chars: &[char]) -> (s: String)
    ensures
        s@ == chars@,
{
    let mut s = String::new();
    let mut i: usize = 0;
    while i < chars.len()
        invariant
            i <= chars@.len(),
            s@ == chars@.take(i as int),
        decreases chars@.len() - i,
    {
        s.push(chars[i]);
        i = i + 1;
        assert(chars@.take(i as int) == chars@.take(i - 1).push(chars@[i - 1]));
    }
    assert(chars@.take(chars@.len() as int) == chars@);
    s
}

/// Two texts joined.
pub fn join(a: &str, b: &str) -> (s: String)
    ensures
        s@ == a@ + b@,
{
    let mut s = a.to_owned();
    s.append(b);
    s
}

// ----- decimal -----

/// The character of a decimal digit.
pub open spec fn digit(d: nat) -> char
    recommends
        d < 10,
{
    (('0' as u32) + d) as char
}

/// The decimal rendering of a natural number, without leading zeros.
pub open spec fn decimal(n: nat) -> Seq<char>
    decreases n,
{
    if n < 10 {
        seq![digit(n)]
    } else {
        decimal(n / 10).push(digit(n % 10))
    }
}

/// The decimal rendering of an integer, with a minus sign where it is negative.
pub open spec fn decimal_int(n: int) -> Seq<char> {
    if n < 0 {
        seq!['-'] + decimal((-n) as nat)
    } else {
        decimal(n as nat)
    }
}

fn digit_char(d: u128) -> (c: char)
    requires
        d < 10,
    ensures
        c == digit(d as nat),
{
    (48u8 + d as u8) as char
}

/// A number in decimal.
pub fn decimal_text(n: u128) -> (s: String)
    ensures
        s@ == decimal(n as nat),
    decreases n,
{
    if n < 10 {
        let mut s = String::new();
        s.push(digit_char(n));
        assert(s@ == decimal(n as nat));
        s
    } else {
        let mut s = decimal_text(n / 10);
        s.push(digit_char(n % 10));
        s
    }
}

/// A signed number in decimal.
pub fn decimal_int_text(n: i128) -> (s: String)
    requires
        n > i128::MIN,
    ensures
        s@ == decimal_int(n as int),
{
    if n < 0 {
        let digits = decimal_text((-n) as u128);
        let s = join("-", digits.as_str());
        proof {
            reveal_strlit("-");
            assert("-"@ =~= seq!['-']);
        }
        s
    } else {
        decimal_text(n as u128)
    }
}

/// A decimal rendering is never empty and holds nothing but digits.
pub proof fn decimal_is_digits(n: nat)
    ensures
        decimal(n).len() > 0,
        forall|i: int| 0 <= i < decimal(n).len() ==> '0' <= #[trigger] decimal(n)[i] <= '9',
    decreases n,
{
    if n >= 10 {
        decimal_is_digits(n / 10);
    }
}

/// Different numbers have different decimal renderings.
pub proof fn decimal_is_injective(a: nat, b: nat)
    requires
        decimal(a) == decimal(b),
    ensures
        a == b,
    decreases a,
{
    decimal_is_digits(a / 10);
    decimal_is_digits(b / 10);
    assert(decimal(a).last() == digit(a % 10));
    assert(decimal(b).last() == digit(b % 10));
    assert(a % 10 == b % 10);
    if a >= 10 && b >= 10 {
        assert(decimal(a).drop_last() == decimal(a / 10));
        assert(decimal(b).drop_last() == decimal(b / 10));
        decimal_is_injective(a / 10, b / 10);
    } else if a < 10 && b >= 10 {
        assert(decimal(b).len() >= 2);
    } else if a >= 10 && b < 10 {
        assert(decimal(a).len() >= 2);
    }
}

// ----- case -----

/// An ASCII capital becomes its small letter; every other character stays.
pub open spec fn lower_char(c: char) -> char {
    if 'A' <= c <= 'Z' {
        ((c as u32) + 32) as char
    } else {
        c
    }
}

/// A text with its ASCII capitals made small.
pub open spec fn lower(s: Seq<char>) -> Seq<char> {
    Seq::new(s.len(), |i: int| lower_char(s[i]))
}

fn to_lower_char(c: char) -> (l: char)
    ensures
        l == lower_char(c),
{
    if 'A' <= c && c <= 'Z' {
        (c as u8 + 32u8) as char
    } else {
        c
    }
}

/// The text with its ASCII capitals made small.
pub fn ascii_lower(s: &str) -> (l: String)
    ensures
        l@ == lower(s@),
{
    let chars = to_chars(s);
    let mut l = String::new();
    let mut i: usize = 0;
    while i < chars.len()
        invariant
            i <= chars@.len(),
            chars@ == s@,
            l@ == lower(s@).take(i as int),
        decreases chars@.len() - i,
    {
        l.push(to_lower_char(chars[i]));
        i = i + 1;
        assert(lower(s@).take(i as int) == lower(s@).take(i - 1).push(lower(s@)[i - 1]));
    }
    assert(lower(s@).take(lower(s@).len() as int) == lower(s@));
    l
}

// ----- search -----

/// `part` stands in `s` at position `i`.
pub open spec fn occurs_at(s: Seq<char>, part: Seq<char>, i: int) -> bool {
    &&& 0 <= i
    &&& i + part.len() <= s.len()
    &&& s.subrange(i, i + part.len()) == part
}

/// `part` stands somewhere in `s`.
pub open spec fn contains_text(s: Seq<char>, part: Seq<char>) -> bool {
    exists|i: int| occurs_at(s, part, i)
}

/// `part` stands in `s` at position `i` and nowhere before it.
pub open spec fn first_occurs_at(s: Seq<char>, part: Seq<char>, i: int) -> bool {
    &&& occurs_at(s, part, i)
    &&& forall|j: int| 0 <= j < i ==> !occurs_at(s, part, j)
}

/// The first position at which `part` stands in `s`, if any.
pub open spec fn first_occurrence(s: Seq<char>, part: Seq<char>) -> Option<int> {
    if contains_text(s, part) {
        Some(choose|i: int| first_occurs_at(s, part, i))
    } else {
        None
    }
}

/// A position that is first is the first position.
pub proof fn first_occurrence_is(s: Seq<char>, part: Seq<char>, i: int)
    requires
        first_occurs_at(s, part, i),
    ensures
        first_occurrence(s, part) == Some(i),
{
    let k = choose|k: int| first_occurs_at(s, part, k);
    assert(first_occurs_at(s, part, k));
    if k < i {
        assert(!occurs_at(s, part, k));
    }
    if i < k {
        assert(!occurs_at(s, part, i));
    }
}

fn stands_at(s: &[char], part: &[char], at: usize) -> (found: bool)
    ensures
        found == occurs_at(s@, part@, at as int),
{
    let total: usize = s.len();
    if at > total || part.len() > total - at {
        return false;
    }
    let mut k: usize = 0;
    while k < part.len()
        invariant
            k <= part@.len(),
            at + part@.len() <= s@.len() == total,
            forall|j: int| 0 <= j < k ==> s@[at + j] == #[trigger] part@[j],
        decreases part@.len() - k,
    {
        if s[at + k] != part[k] {
            assert(s@.subrange(at as int, at + part@.len())[k as int] != part@[k as int]);
            return false;
        }
        k = k + 1;
    }
    assert(s@.subrange(at as int, at + part@.len()) =~= part@);
    true
}

/// Where `part` stands in `s` for the first time.
pub fn find(s: &[char], part: &[char]) -> (at: Option<usize>)
    ensures
        match at {
            Some(i) => first_occurs_at(s@, part@, i as int) && first_occurrence(s@, part@) == Some(i as int),
            None => !contains_text(s@, part@) && first_occurrence(s@, part@) is None,
        },
{
    let mut i: usize = 0;
    while i < s.len()
        invariant
            i <= s@.len(),
            forall|j: int| 0 <= j < i ==> !occurs_at(s@, part@, j),
        decreases s@.len() - i,
    {
        if stands_at(s, part, i) {
            proof {
                first_occurrence_is(s@, part@, i as int);
            }
            return Some(i);
        }
        i = i + 1;
    }
    if stands_at(s, part, i) {
        proof {
            first_occurrence_is(s@, part@, i as int);
        }
        return Some(i);
    }
    None
}

/// The piece of `s` between the first `separator` and the one that follows it, or the end of `s`;
/// empty where `separator` does not occur.
pub open spec fn second_piece(s: Seq<char>, separator: Seq<char>) -> Seq<char> {
    match first_occurrence(s, separator) {
        Some(i) => {
            let rest = s.skip(i + separator.len());
            match first_occurrence(rest, separator) {
                Some(j) => rest.take(j),
                None => rest,
            }
        },
        None => Seq::empty(),
    }
}

/// The piece of a text behind its first separator, up to the next one.
pub fn piece_after(s: &[char], separator: &[char]) -> (piece: Vec<char>)
    ensures
        piece@ == second_piece(s@, separator@),
{
    let total: usize = s.len();
    match find(s, separator) {
        Some(i) => {
            assert(i + separator@.len() <= total);
            let rest = tail(s, i + separator.len());
            match find(rest.as_slice(), separator) {
                Some(j) => head(rest.as_slice(), j),
                None => rest,
            }
        },
        None => Vec::new(),
    }
}

/// The first `n` characters.
fn head(s: &[char], n: usize) -> (h: Vec<char>)
    requires
        n <= s@.len(),
    ensures
        h@ == s@.take(n as int),
{
    let mut h: Vec<char> = Vec::new();
    let mut i: usize = 0;
    while i < n
        invariant
            i <= n <= s@.len(),
            h@ == s@.take(i as int),
        decreases n - i,
    {
        h.push(s[i]);
        i = i + 1;
        assert(s@.take(i as int) == s@.take(i - 1).push(s@[i - 1]));
    }
    h
}

/// All but the first `n` characters.
fn tail(s: &[char], n: usize) -> (t: Vec<char>)
    requires
        n <= s@.len(),
    ensures
        t@ == s@.skip(n as int),
{
    let mut t: Vec<char> = Vec::new();
    let mut i: usize = n;
    while i < s.len()
        invariant
            n <= i <= s@.len(),
            t@ == s@.subrange(n as int, i as int),
        decreases s@.len() - i,
    {
        t.push(s[i]);
        i = i + 1;
        assert(s@.subrange(n as int, i as int) == s@.subrange(n as int, i - 1).push(s@[i - 1]));
    }
    assert(s@.subrange(n as int, s@.len() as int) == s@.skip(n as int));
    t
}

/// `s` begins with `prefix`.
pub open spec fn starts_with(s: Seq<char>, prefix: Seq<char>) -> bool {
    prefix.len() <= s.len() && s.take(prefix.len() as int) == prefix
}

/// What follows `prefix` in `s`, where `s` begins with it.
pub fn strip_prefix(s: &str, prefix: &str) -> (rest: Option<String>)
    ensures
        match rest {
            Some(r) => starts_with(s@, prefix@) && r@ == s@.skip(prefix@.len() as int),
            None => !starts_with(s@, prefix@),
        },
{
    let chars = to_chars(s);
    let wanted = to_chars(prefix);
    if stands_at(chars.as_slice(), wanted.as_slice(), 0) {
        assert(s@.subrange(0, prefix@.len() as int) == s@.take(prefix@.len() as int));
        let rest = tail(chars.as_slice(), wanted.len());
        Some(from_chars(rest.as_slice()))
    } else {
        proof {
            if starts_with(s@, prefix@) {
                assert(s@.subrange(0, prefix@.len() as int) == s@.take(prefix@.len() as int));
            }
        }
        None
    }
}

// ----- blanks -----

/// The characters with Unicode's White_Space property.
pub open spec fn is_blank(c: char) -> bool {
    let u = c as u32;
    ||| 0x9 <= u <= 0xd
    ||| u == 0x20
    ||| u == 0x85
    ||| u == 0xa0
    ||| u == 0x1680
    ||| 0x2000 <= u <= 0x200a
    ||| u == 0x2028
    ||| u == 0x2029
    ||| u == 0x202f
    ||| u == 0x205f
    ||| u == 0x3000
}

/// Whether a character counts as a blank.
pub fn blank(c: char) -> (b: bool)
    ensures
        b == is_blank(c),
{
    let u: u32 = c as u32;
    (0x9 <= u && u <= 0xd) || u == 0x20 || u == 0x85 || u == 0xa0 || u == 0x1680 || (0x2000 <= u && u
        <= 0x200a) || u == 0x2028 || u == 0x2029 || u == 0x202f || u == 0x205f || u == 0x3000
}

/// A text without the blanks at its start.
pub open spec fn without_leading_blanks(s: Seq<char>) -> Seq<char>
    decreases s.len(),
{
    if s.len() > 0 && is_blank(s[0]) {
        without_leading_blanks(s.drop_first())
    } else {
        s
    }
}

/// A text without the blanks at its end.
pub open spec fn without_trailing_blanks(s: Seq<char>) -> Seq<char>
    decreases s.len(),
{
    if s.len() > 0 && is_blank(s.last()) {
        without_trailing_blanks(s.drop_last())
    } else {
        s
    }
}

/// A text without the blanks around it.
pub open spec fn trimmed(s: Seq<char>) -> Seq<char> {
    without_trailing_blanks(without_leading_blanks(s))
}

/// The text without the blanks around it.
pub fn trim(s: &[char]) -> (t: Vec<char>)
    ensures
        t@ == trimmed(s@),
{
    let mut start: usize = 0;
    assert(s@.skip(0) == s@);
    while start < s.len() && blank(s[start])
        invariant
            start <= s@.len(),
            without_leading_blanks(s@.skip(start as int)) == without_leading_blanks(s@),
        decreases s@.len() - start,
    {
        assert(s@.skip(start as int).drop_first() == s@.skip(start + 1));
        start = start + 1;
    }
    let mut t = tail(s, start);
    assert(t@ == without_leading_blanks(s@));
    while t.len() > 0 && blank(t[t.len() - 1])
        invariant
            without_trailing_blanks(t@) == trimmed(s@),
        decreases t@.len(),
    {
        let ghost before = t@;
        let _ = t.pop();
        assert(t@ == before.drop_last());
    }
    t
}

/// A text that neither starts nor ends with a blank is its own trimmed form.
pub proof fn trimmed_is_same(s: Seq<char>)
    requires
        s.len() > 0 ==> !is_blank(s[0]) && !is_blank(s.last()),
    ensures
        trimmed(s) == s,
{
}

// ----- order -----

/// `a` comes before `b`: at the first place where they differ `a` has the smaller character, or
/// `a` ends there.
pub open spec fn text_before(a: Seq<char>, b: Seq<char>) -> bool {
    exists|k: int| differs_first_at(a, b, k)
}

/// The two texts agree on the first `k` characters, and there `a` ends or has the smaller one.
pub open spec fn differs_first_at(a: Seq<char>, b: Seq<char>, k: int) -> bool {
    &&& 0 <= k <= a.len()
    &&& k < b.len()
    &&& forall|i: int| 0 <= i < k ==> a[i] == b[i]
    &&& (k == a.len() || a[k] < b[k])
}

/// Whether `a` comes before `b`.
pub fn comes_before(a: &str, b: &str) -> (before: bool)
    ensures
        before == text_before(a@, b@),
{
    let left = to_chars(a);
    let right = to_chars(b);
    let mut k: usize = 0;
    while k < left.len() && k < right.len() && left[k] == right[k]
        invariant
            k <= left@.len(),
            k <= right@.len(),
            left@ == a@,
            right@ == b@,
            forall|i: int| 0 <= i < k ==> a@[i] == b@[i],
        decreases left@.len() - k,
    {
        k = k + 1;
    }
    if k == right.len() {
        assert forall|j: int| !differs_first_at(a@, b@, j) by {
            if differs_first_at(a@, b@, j) {
                assert(a@[j] == b@[j]);
            }
        }
        false
    } else if k == left.len() {
        assert(differs_first_at(a@, b@, k as int));
        true
    } else {
        let before = left[k] < right[k];
        proof {
            if before {
                assert(differs_first_at(a@, b@, k as int));
            } else {
                assert forall|j: int| !differs_first_at(a@, b@, j) by {
                    if differs_first_at(a@, b@, j) {
                        if j < k {
                            assert(a@[j] == b@[j]);
                        } else if j > k {
                            assert(a@[k as int] == b@[k as int]);
                        }
                    }
                }
            }
        }
        before
    }
}

/// No text comes before itself, and of two different texts exactly one comes first.
pub proof fn text_order_is_total(a: Seq<char>, b: Seq<char>)
    ensures
        !text_before(a, a),
        a != b ==> (text_before(a, b) != text_before(b, a)),
{
    assert forall|j: int| !differs_first_at(a, a, j) by {}
    if a != b {
        let n = if a.len() < b.len() { a.len() as int } else { b.len() as int };
        if forall|i: int| 0 <= i < n ==> a[i] == b[i] {
            if a.len() == b.len() {
                assert(a =~= b);
            } else if a.len() < b.len() {
                assert(differs_first_at(a, b, n));
            } else {
                assert(differs_first_at(b, a, n));
            }
        } else {
            let d = first_difference(a, b, 0);
            if a[d] < b[d] {
                assert(differs_first_at(a, b, d));
            } else {
                assert(differs_first_at(b, a, d));
            }
        }
        assert forall|j: int, k: int| !(differs_first_at(a, b, j) && differs_first_at(b, a, k)) by {
            if differs_first_at(a, b, j) && differs_first_at(b, a, k) {
                if j < k {
                    assert(a[j] == b[j]);
                } else if k < j {
                    assert(a[k] == b[k]);
                }
            }
        }
    }
}

/// The order of texts is transitive.
pub proof fn text_order_is_transitive(a: Seq<char>, b: Seq<char>, c: Seq<char>)
    requires
        text_before(a, b),
        text_before(b, c),
    ensures
        text_before(a, c),
{
    let j = choose|j: int| differs_first_at(a, b, j);
    let k = choose|k: int| differs_first_at(b, c, k);
    let m = if j < k {
        j
    } else {
        k
    };
    assert forall|i: int| 0 <= i < m implies a[i] == c[i] by {
        assert(a[i] == b[i] && b[i] == c[i]);
    }
    if j < k {
        assert(b[j] == c[j]);
    } else if k < j {
        assert(a[k] == b[k]);
    }
    assert(differs_first_at(a, c, m));
}

/// The first place at or behind `from` at which two texts differ.
proof fn first_difference(a: Seq<char>, b: Seq<char>, from: int) -> (d: int)
    requires
        0 <= from,
        forall|i: int| 0 <= i < from ==> a[i] == b[i],
        exists|i: int| 0 <= i < a.len() && i < b.len() && a[i] != b[i],
    ensures
        from <= d < a.len(),
        d < b.len(),
        a[d] != b[d],
        forall|i: int| 0 <= i < d ==> a[i] == b[i],
    decreases a.len() - from,
{
    let w = choose|i: int| 0 <= i < a.len() && i < b.len() && a[i] != b[i];
    if a[from] != b[from] && from < a.len() && from < b.len() {
        from
    } else {
        assert(w >= from);
        first_difference(a, b, from + 1)
    }
}

} // verus!

//! Text helpers: decimal renderings of integers, the unsigned integer
//! grammar that `str::parse` accepts, comparison and splitting of strings.

use vstd::prelude::*;

verus! {

/// The ASCII digit for `d < 10`.
pub open spec fn digit_char(d: int) -> char {
    if d == 0 { '0' }
    else if d == 1 { '1' }
    else if d == 2 { '2' }
    else if d == 3 { '3' }
    else if d == 4 { '4' }
    else if d == 5 { '5' }
    else if d == 6 { '6' }
    else if d == 7 { '7' }
    else if d == 8 { '8' }
    else { '9' }
}

pub open spec fn is_digit(c: char) -> bool {
    '0' <= c && c <= '9'
}

/// The value of an ASCII digit.
pub open spec fn digit_value(c: char) -> int {
    (c as int) - ('0' as int)
}

/// The decimal rendering of `n`, without leading zeros ("0" for zero).
pub open spec fn nat_text(n: nat) -> Seq<char>
    decreases n,
{
    if n < 10 {
        seq![digit_char(n as int)]
    } else {
        nat_text(n / 10).push(digit_char((n % 10) as int))
    }
}

/// The decimal rendering of `i`, with a leading `-` when negative.
pub open spec fn int_text(i: int) -> Seq<char> {
    if i < 0 {
        seq!['-'] + nat_text((-i) as nat)
    } else {
        nat_text(i as nat)
    }
}

/// The number a nonempty run of digits denotes.
pub open spec fn digits_value(s: Seq<char>) -> int
    decreases s.len(),
{
    if s.len() == 0 {
        0
    } else {
        digits_value(s.drop_last()) * 10 + digit_value(s.last())
    }
}

pub open spec fn all_digits(s: Seq<char>) -> bool {
    forall|i: int| 0 <= i < s.len() ==> is_digit(#[trigger] s[i])
}

/// What `u32::from_str` accepts: an optional `+`, then one or more ASCII
/// digits, denoting a number that fits in 32 bits.
pub open spec fn parse_u32_spec(s: Seq<char>) -> Option<u32> {
    let body = if s.len() > 0 && s[0] == '+' { s.skip(1) } else { s };
    if body.len() > 0 && all_digits(body) && digits_value(body) <= u32::MAX {
        Some(digits_value(body) as u32)
    } else {
        None
    }
}

/// Appends `c` (`String::push`).
#[verifier::external_body]
fn push_char(s: &mut String, c: char)
    ensures
        final(s)@ == old(s)@.push(c),
{
    s.push(c);
}

fn digit_to_char(d: u128) -> (c: char)
    requires
        d < 10,
    ensures
        c == digit_char(d as int),
{
    if d == 0 { '0' }
    else if d == 1 { '1' }
    else if d == 2 { '2' }
    else if d == 3 { '3' }
    else if d == 4 { '4' }
    else if d == 5 { '5' }
    else if d == 6 { '6' }
    else if d == 7 { '7' }
    else if d == 8 { '8' }
    else { '9' }
}

/// Appends the decimal rendering of `n`.
pub fn push_u128_text(s: &mut String, n: u128)
    ensures
        final(s)@ == old(s)@ + nat_text(n as nat),
    decreases n,
{
    if n < 10 {
        push_char(s, digit_to_char(n));
    } else {
        push_u128_text(s, n / 10);
        push_char(s, digit_to_char(n % 10));
    }
}

/// The decimal rendering of `n` (`u64::to_string`).
pub fn u64_text(n: u64) -> (t: String)
    ensures
        t@ == nat_text(n as nat),
{
    let mut t = String::new();
    push_u128_text(&mut t, n as u128);
    assert(t@ =~= nat_text(n as nat));
    t
}

/// The decimal rendering of `i` (`i128::to_string`).
pub fn i128_text(i: i128) -> (t: String)
    ensures
        t@ == int_text(i as int),
{
    let mut t = String::new();
    if i < 0 {
        push_char(&mut t, '-');
        let magnitude: u128 = if i == i128::MIN {
            170141183460469231731687303715884105728u128
        } else {
            (-i) as u128
        };
        push_u128_text(&mut t, magnitude);
    } else {
        push_u128_text(&mut t, i as u128);
    }
    assert(t@ =~= int_text(i as int));
    t
}

/// Whether two strings hold the same characters.
pub fn str_eq(a: &str, b: &str) -> (r: bool)
    ensures
        r == (a@ == b@),
{
    let n = a.unicode_len();
    if n != b.unicode_len() {
        return false;
    }
    let mut i: usize = 0;
    while i < n
        invariant
            n == a@.len(),
            n == b@.len(),
            i <= n,
            forall|j: int| 0 <= j < i ==> a@[j] == b@[j],
        decreases n - i,
    {
        if a.get_char(i) != b.get_char(i) {
            return false;
        }
        i = i + 1;
    }
    assert(a@ =~= b@);
    true
}

/// Whether `c` occurs in `s`.
pub open spec fn has_char(s: Seq<char>, c: char) -> bool {
    exists|i: int| 0 <= i < s.len() && s[i] == c
}

/// The position of the first `c` in `s`.
pub fn find_char(s: &str, c: char) -> (r: Option<usize>)
    ensures
        r is None <==> !has_char(s@, c),
        r matches Some(i) ==> i < s@.len() && s@[i as int] == c && !has_char(s@.take(i as int), c),
{
    let n = s.unicode_len();
    let mut i: usize = 0;
    while i < n
        invariant
            n == s@.len(),
            i <= n,
            !has_char(s@.take(i as int), c),
        decreases n - i,
    {
        if s.get_char(i) == c {
            return Some(i);
        }
        proof {
            assert forall|j: int| 0 <= j < i + 1 implies #[trigger] s@.take(i + 1)[j] != c by {
                if j < i {
                    assert(s@.take(i + 1)[j] == s@.take(i as int)[j]);
                }
            }
        }
        i = i + 1;
    }
    assert(s@.take(n as int) =~= s@);
    None
}

/// The position of the first `c` in `s` (meaningful when `c` occurs).
pub open spec fn first_position(s: Seq<char>, c: char) -> int {
    choose|i: int| #![trigger s.take(i)] 0 <= i < s.len() && s[i] == c && !has_char(s.take(i), c)
}

/// When `c` occurs in `s`, `first_position` is its first position.
pub proof fn lemma_first_position(s: Seq<char>, c: char)
    requires
        has_char(s, c),
    ensures
        ({
            let i = first_position(s, c);
            0 <= i < s.len() && s[i] == c && !has_char(s.take(i), c)
        }),
    decreases s.len(),
{
    let t = s.drop_last();
    if has_char(t, c) {
        lemma_first_position(t, c);
        let i = first_position(t, c);
        assert(s.take(i) =~= t.take(i));
        assert(s[i] == t[i]);
    } else {
        let i = s.len() - 1;
        assert(s.take(i) =~= t);
        if s[i] != c {
            let j = choose|j: int| 0 <= j < s.len() && s[j] == c;
            assert(t[j] == c);
        }
    }
}

/// The text before and after the first `c` in `s` (what `s.splitn(2, c)`
/// yields when it yields two parts), or `None` when `c` does not occur.
pub open spec fn split_once_spec(s: Seq<char>, c: char) -> Option<(Seq<char>, Seq<char>)> {
    if has_char(s, c) {
        let i = first_position(s, c);
        Some((s.take(i), s.skip(i + 1)))
    } else {
        None
    }
}

/// The position of the first `c` is unique.
pub proof fn lemma_first_position_unique(s: Seq<char>, c: char, i: int, j: int)
    requires
        0 <= i < s.len() && s[i] == c && !has_char(s.take(i), c),
        0 <= j < s.len() && s[j] == c && !has_char(s.take(j), c),
    ensures
        i == j,
{
    if i < j {
        assert(s.take(j)[i] == c);
    } else if j < i {
        assert(s.take(i)[j] == c);
    }
}

/// The split happens at the first position of `c`.
pub proof fn lemma_split_once_at(s: Seq<char>, c: char, i: int)
    requires
        0 <= i < s.len(),
        s[i] == c,
        !has_char(s.take(i), c),
    ensures
        split_once_spec(s, c) == Some((s.take(i), s.skip(i + 1))),
{
    assert(has_char(s, c));
    assert(exists|j: int| #![trigger s.take(j)] 0 <= j < s.len() && s[j] == c && !has_char(s.take(j), c));
    let j = first_position(s, c);
    lemma_first_position_unique(s, c, i, j);
}

/// The two parts of a split, joined by `c`, give back the text.
pub proof fn lemma_split_once_joins(s: Seq<char>, c: char)
    requires
        split_once_spec(s, c) is Some,
    ensures
        s == split_once_spec(s, c)->Some_0.0 + seq![c] + split_once_spec(s, c)->Some_0.1,
{
    lemma_first_position(s, c);
    let i = first_position(s, c);
    assert(s =~= s.take(i) + seq![c] + s.skip(i + 1));
}

/// Splits `s` at its first `c`.
pub fn split_once(s: &str, c: char) -> (r: Option<(String, String)>)
    ensures
        match r {
            Some((a, b)) => split_once_spec(s@, c) == Some((a@, b@)),
            None => split_once_spec(s@, c) is None,
        },
{
    match find_char(s, c) {
        Some(i) => {
            let n = s.unicode_len();
            let a = String::from_str(s.substring_char(0, i));
            let b = String::from_str(s.substring_char(i + 1, n));
            proof {
                lemma_split_once_at(s@, c, i as int);
                assert(a@ =~= s@.take(i as int));
                assert(b@ =~= s@.skip(i + 1));
            }
            Some((a, b))
        },
        None => None,
    }
}

/// What `i64::from_str` accepts: an optional `+` or `-`, then one or more
/// ASCII digits, denoting a number that fits in 64 bits with its sign.
pub open spec fn parse_i64_spec(s: Seq<char>) -> Option<i64> {
    let negative = s.len() > 0 && s[0] == '-';
    let body = if s.len() > 0 && (s[0] == '+' || s[0] == '-') { s.skip(1) } else { s };
    if body.len() > 0 && all_digits(body) {
        if negative && digits_value(body) <= 0x8000_0000_0000_0000 {
            Some((-digits_value(body)) as i64)
        } else if !negative && digits_value(body) <= i64::MAX {
            Some(digits_value(body) as i64)
        } else {
            None
        }
    } else {
        None
    }
}

/// The value of the digits of `s` from position `start` on, when there is
/// at least one, all are digits and the value is at most `limit`.
fn parse_digits_from(s: &str, start: usize, limit: u128) -> (r: Option<u128>)
    requires
        start <= s@.len(),
        limit <= u64::MAX,
    ensures
        r is Some <==> ({
            let body = s@.skip(start as int);
            body.len() > 0 && all_digits(body) && digits_value(body) <= limit
        }),
        r matches Some(v) ==> v == digits_value(s@.skip(start as int)),
{
    let n = s.unicode_len();
    let ghost body = s@.skip(start as int);
    if start == n {
        return None;
    }
    let mut value: u128 = 0;
    let mut i: usize = start;
    while i < n
        invariant
            n == s@.len(),
            start <= i <= n,
            body == s@.skip(start as int),
            limit <= u64::MAX,
            all_digits(body.take(i - start)),
            value == digits_value(body.take(i - start)),
            value <= limit,
        decreases n - i,
    {
        let c = s.get_char(i);
        if !('0' <= c && c <= '9') {
            proof {
                assert(body[i - start] == c);
                assert(!is_digit(body[i - start]));
                assert(!all_digits(body));
            }
            return None;
        }
        let d = (c as u128) - ('0' as u128);
        let next = value * 10 + d;
        proof {
            let t = body.take(i + 1 - start);
            assert(t.drop_last() =~= body.take(i - start));
            assert(t.last() == c);
            assert(digits_value(t) == value * 10 + d);
            assert forall|j: int| 0 <= j < t.len() implies is_digit(#[trigger] t[j]) by {
                if j < t.len() - 1 {
                    assert(t[j] == body.take(i - start)[j]);
                }
            }
        }
        if next > limit {
            proof {
                if all_digits(body) {
                    lemma_digits_value_grows(body, (i + 1 - start) as int);
                }
            }
            return None;
        }
        value = next;
        i = i + 1;
    }
    assert(body.take(n - start) =~= body);
    Some(value)
}

/// Parses a signed 64-bit integer the way `i64::from_str` does.
pub fn parse_i64(s: &str) -> (r: Option<i64>)
    ensures
        r == parse_i64_spec(s@),
{
    let n = s.unicode_len();
    let negative = n > 0 && s.get_char(0) == '-';
    let start: usize = if n > 0 && (s.get_char(0) == '+' || s.get_char(0) == '-') { 1 } else { 0 };
    let limit: u128 = if negative { 0x8000_0000_0000_0000 } else { 0x7fff_ffff_ffff_ffff };
    let ghost body = if s@.len() > 0 && (s@[0] == '+' || s@[0] == '-') { s@.skip(1) } else { s@ };
    assert(body =~= s@.skip(start as int));
    match parse_digits_from(s, start, limit) {
        None => None,
        Some(v) => {
            assert(v <= limit);
            if negative {
                if v == 0x8000_0000_0000_0000 {
                    Some(i64::MIN)
                } else {
                    Some(-(v as i64))
                }
            } else {
                Some(v as i64)
            }
        },
    }
}

/// Parses an unsigned 32-bit integer the way `u32::from_str` does.
pub fn parse_u32(s: &str) -> (r: Option<u32>)
    ensures
        r == parse_u32_spec(s@),
{
    let n = s.unicode_len();
    let start: usize = if n > 0 && s.get_char(0) == '+' { 1 } else { 0 };
    let ghost body = if s@.len() > 0 && s@[0] == '+' { s@.skip(1) } else { s@ };
    assert(body =~= s@.skip(start as int));
    if start == n {
        return None;
    }
    let mut value: u64 = 0;
    let mut i: usize = start;
    while i < n
        invariant
            n == s@.len(),
            start <= i <= n,
            body == s@.skip(start as int),
            body == (if s@.len() > 0 && s@[0] == '+' { s@.skip(1) } else { s@ }),
            all_digits(body.take(i - start)),
            value == digits_value(body.take(i - start)),
            value <= u32::MAX,
        decreases n - i,
    {
        let c = s.get_char(i);
        if !('0' <= c && c <= '9') {
            proof {
                assert(body[i - start] == c);
                assert(!is_digit(body[i - start]));
                assert(!all_digits(body));
                assert(parse_u32_spec(s@) is None);
            }
            return None;
        }
        let d = (c as u64) - ('0' as u64);
        let next = value * 10 + d;
        proof {
            let t = body.take(i + 1 - start);
            assert(t.drop_last() =~= body.take(i - start));
            assert(t.last() == c);
            assert(digits_value(t) == value * 10 + d);
            assert forall|j: int| 0 <= j < t.len() implies is_digit(#[trigger] t[j]) by {
                if j < t.len() - 1 {
                    assert(t[j] == body.take(i - start)[j]);
                }
            }
        }
        if next > 4294967295u64 {
            proof {
                if all_digits(body) {
                    lemma_digits_value_grows(body, (i + 1 - start) as int);
                }
            }
            return None;
        }
        value = next;
        i = i + 1;
    }
    assert(body.take(n - start) =~= body);
    Some(value as u32)
}

/// Extending a run of digits never lowers its value.
proof fn lemma_digits_value_grows(s: Seq<char>, k: int)
    requires
        0 <= k <= s.len(),
        all_digits(s),
    ensures
        digits_value(s) >= digits_value(s.take(k)),
    decreases s.len() - k,
{
    if k < s.len() {
        lemma_digits_value_grows(s, k + 1);
        let t = s.take(k + 1);
        assert(t.drop_last() =~= s.take(k));
        lemma_digits_value_nonneg(s.take(k));
        assert(is_digit(s[k]));
    } else {
        assert(s.take(k) =~= s);
    }
}

proof fn lemma_digits_value_nonneg(s: Seq<char>)
    requires
        all_digits(s),
    ensures
        digits_value(s) >= 0,
    decreases s.len(),
{
    if s.len() > 0 {
        assert(all_digits(s.drop_last())) by {
            assert forall|i: int| 0 <= i < s.drop_last().len() implies is_digit(#[trigger] s.drop_last()[i]) by {
                assert(s.drop_last()[i] == s[i]);
            }
        }
        lemma_digits_value_nonneg(s.drop_last());
        assert(is_digit(s.last()));
    }
}

/// The rendering of a number consists of digits and denotes that number.
pub proof fn lemma_nat_text_value(n: nat)
    ensures
        nat_text(n).len() > 0,
        all_digits(nat_text(n)),
        digits_value(nat_text(n)) == n,
        nat_text(n)[0] != '+',
    decreases n,
{
    if n < 10 {
        assert(digits_value(nat_text(n).drop_last()) == 0) by {
            assert(nat_text(n).drop_last() =~= Seq::<char>::empty());
        }
    } else {
        lemma_nat_text_value(n / 10);
        let t = nat_text(n);
        assert(t.drop_last() =~= nat_text(n / 10));
        assert forall|i: int| 0 <= i < t.len() implies is_digit(#[trigger] t[i]) by {
            if i < t.len() - 1 {
                assert(t[i] == nat_text(n / 10)[i]);
            }
        }
        assert(t[0] == nat_text(n / 10)[0]);
    }
}

/// Reading back the rendering of a 32-bit number gives the number.
pub proof fn lemma_parse_u32_of_text(n: u32)
    ensures
        parse_u32_spec(nat_text(n as nat)) == Some(n),
{
    lemma_nat_text_value(n as nat);
}


/// Lexicographic order of character sequences: `-1`, `0` or `1` as `a` comes
/// before, equals or comes after `b`.
pub open spec fn text_order(a: Seq<char>, b: Seq<char>) -> i8
    decreases a.len(),
{
    if a.len() == 0 {
        if b.len() == 0 { 0i8 } else { -1i8 }
    } else if b.len() == 0 {
        1i8
    } else if a[0] < b[0] {
        -1i8
    } else if a[0] > b[0] {
        1i8
    } else {
        text_order(a.skip(1), b.skip(1))
    }
}

proof fn lemma_text_order_step(a: Seq<char>, b: Seq<char>, i: int)
    requires
        0 <= i < a.len(),
        i < b.len(),
        a[i] == b[i],
    ensures
        text_order(a.skip(i), b.skip(i)) == text_order(a.skip(i + 1), b.skip(i + 1)),
{
    assert(a.skip(i).skip(1) =~= a.skip(i + 1));
    assert(b.skip(i).skip(1) =~= b.skip(i + 1));
}

/// Compares two strings in lexicographic order of their characters, which
/// is the order `Ord for String` gives (UTF-8 preserves the order of code
/// points).
pub fn compare_text(a: &str, b: &str) -> (r: i8)
    ensures
        r == text_order(a@, b@),
{
    let n = a.unicode_len();
    let m = b.unicode_len();
    let mut i: usize = 0;
    assert(a@.skip(0) =~= a@);
    assert(b@.skip(0) =~= b@);
    while i < n && i < m
        invariant
            n == a@.len(),
            m == b@.len(),
            i <= n,
            i <= m,
            text_order(a@, b@) == text_order(a@.skip(i as int), b@.skip(i as int)),
        decreases n - i,
    {
        let x = a.get_char(i);
        let y = b.get_char(i);
        if x < y {
            return -1;
        } else if x > y {
            return 1;
        }
        proof {
            lemma_text_order_step(a@, b@, i as int);
        }
        i = i + 1;
    }
    if i == n && i == m {
        0
    } else if i == n {
        -1
    } else {
        1
    }
}

/// `true` or `false`, as `Display for bool` writes them.
pub open spec fn bool_text(b: bool) -> Seq<char> {
    if b { "true"@ } else { "false"@ }
}

pub fn bool_str(b: bool) -> (s: &'static str)
    ensures
        s@ == bool_text(b),
{
    if b { "true" } else { "false" }
}

} // verus!

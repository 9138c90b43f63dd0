//! Text helpers shared by the whole crate: conversions between strings and
//! character vectors, searching, and decimal numbers.

use vstd::prelude::*;

verus! {

/// The values of a sequence of strings.
pub open spec fn strings_view(items: Seq<String>) -> Seq<Seq<char>> {
    items.map_values(|item: String| item@)
}

/// The value of an optional string.
pub open spec fn optional_view(text: Option<&str>) -> Option<Seq<char>> {
    match text {
        Some(s) => Some(s@),
        None => None,
    }
}

/// Appends one character to a string.
///
/// Wraps `String::push`: afterwards the string holds its former characters
/// followed by `c`.
#[verifier::external_body]
pub(crate) fn push_char(s: &mut String, c: char)
    ensures
        final(s)@ == old(s)@.push(c),
{
    s.push(c)
}

/// The characters of `s`, in order.
pub fn to_chars(s: &str) -> (chars: Vec<char>)
    ensures
        chars@ == s@,
{
    let mut chars: Vec<char> = Vec::new();
    for c in it: s.chars()
        invariant
            it.seq() == s@,
            chars@ == it.seq().take(it.index() as int),
    {
        chars.push(c);
        proof {
            assert(it.seq().take(it.index() + 1) =~= it.seq().take(it.index() as int).push(c));
        }
    }
    proof {
        assert(s@.take(s@.len() as int) =~= s@);
    }
    chars
}

/// The string made of `chars`, in order.
pub fn from_chars(chars: &Vec<char>) -> (s: String)
    ensures
        s@ == chars@,
{
    let mut s = String::new();
    let mut i: usize = 0;
    while i < chars.len()
        invariant
            i <= chars.len(),
            s@ == chars@.take(i as int),
        decreases chars.len() - i,
    {
        push_char(&mut s, chars[i]);
        proof {
            assert(chars@.take(i + 1) =~= chars@.take(i as int).push(chars@[i as int]));
        }
        i += 1;
    }
    proof {
        assert(chars@.take(chars@.len() as int) =~= chars@);
    }
    s
}

/// `a` followed by `b`.
pub fn concat(a: &str, b: &str) -> (s: String)
    ensures
        s@ == a@ + b@,
{
    let mut s = String::from_str(a);
    s.append(b);
    s
}

/// Whether two strings hold the same characters.
pub fn same_text(a: &str, b: &str) -> (same: bool)
    ensures
        same == (a@ == b@),
{
    let x = String::from_str(a);
    let y = String::from_str(b);
    x == y
}

/// Whether `c` is one of the ten decimal digits.
pub open spec fn is_digit(c: char) -> bool {
    '0' <= c <= '9'
}

/// The number that the digit `c` stands for.
pub open spec fn digit_value(c: char) -> nat {
    (c as u32 - '0' as u32) as nat
}

/// The digit that stands for `d`, a number below ten.
pub open spec fn digit_char(d: nat) -> char {
    if d == 0 {
        '0'
    } else if d == 1 {
        '1'
    } else if d == 2 {
        '2'
    } else if d == 3 {
        '3'
    } else if d == 4 {
        '4'
    } else if d == 5 {
        '5'
    } else if d == 6 {
        '6'
    } else if d == 7 {
        '7'
    } else if d == 8 {
        '8'
    } else {
        '9'
    }
}

/// Whether `s` holds decimal digits only.
pub open spec fn all_digits(s: Seq<char>) -> bool {
    forall|i: int| 0 <= i < s.len() ==> is_digit(#[trigger] s[i])
}

/// The number that the digits `s` write in base ten.
pub open spec fn digits_value(s: Seq<char>) -> nat
    decreases s.len(),
{
    if s.len() == 0 {
        0
    } else {
        digits_value(s.drop_last()) * 10 + digit_value(s.last())
    }
}

/// The number that `s` writes: one or more decimal digits, with or without
/// a `+` before them. Anything else writes no number.
pub open spec fn unsigned_value(s: Seq<char>) -> Option<nat> {
    let digits = if s.len() > 0 && s[0] == '+' {
        s.drop_first()
    } else {
        s
    };
    if digits.len() > 0 && all_digits(digits) {
        Some(digits_value(digits))
    } else {
        None
    }
}

/// The number that `s` writes, where it is at most `max`.
pub open spec fn bounded_value(s: Seq<char>, max: nat) -> Option<nat> {
    match unsigned_value(s) {
        Some(value) => if value <= max {
            Some(value)
        } else {
            None
        },
        None => None,
    }
}

/// `n` written in base ten, without leading zeros.
pub open spec fn decimal(n: nat) -> Seq<char>
    decreases n,
{
    if n < 10 {
        seq![digit_char(n)]
    } else {
        decimal(n / 10).push(digit_char(n % 10))
    }
}

/// More digits never write a smaller number.
pub proof fn lemma_digits_value_grows(s: Seq<char>, k: int)
    requires
        0 <= k <= s.len(),
    ensures
        digits_value(s.take(k)) <= digits_value(s),
    decreases s.len() - k,
{
    if k == s.len() {
        assert(s.take(k) =~= s);
    } else {
        lemma_digits_value_grows(s, k + 1);
        assert(s.take(k + 1).drop_last() =~= s.take(k));
    }
}

/// A number in base ten is made of digits and writes itself.
pub proof fn lemma_decimal_round_trip(n: nat)
    ensures
        decimal(n).len() > 0,
        all_digits(decimal(n)),
        decimal(n)[0] != '+',
        digits_value(decimal(n)) == n,
        unsigned_value(decimal(n)) == Some(n),
    decreases n,
{
    if n < 10 {
        let s = decimal(n);
        assert(s.drop_last() =~= Seq::<char>::empty());
        assert(digits_value(s.drop_last()) == 0);
    } else {
        lemma_decimal_round_trip(n / 10);
        let s = decimal(n);
        assert(s.drop_last() =~= decimal(n / 10));
        assert(s[0] == decimal(n / 10)[0]);
    }
}

/// Reads the number that `s` writes, where it is at most `max`.
pub fn parse_unsigned(s: &str, max: u64) -> (parsed: Option<u64>)
    ensures
        match parsed {
            Some(value) => bounded_value(s@, max as nat) == Some(value as nat),
            None => bounded_value(s@, max as nat) is None,
        },
{
    let chars = to_chars(s);
    let start: usize = if chars.len() > 0 && chars[0] == '+' {
        1
    } else {
        0
    };
    if chars.len() == start {
        return None;
    }
    let ghost digits = if s@.len() > 0 && s@[0] == '+' {
        s@.drop_first()
    } else {
        s@
    };
    proof {
        assert(digits =~= chars@.subrange(start as int, chars@.len() as int));
    }
    let mut value: u64 = 0;
    let mut i: usize = start;
    while i < chars.len()
        invariant
            start <= i <= chars.len(),
            chars@ == s@,
            digits == chars@.subrange(start as int, chars@.len() as int),
            unsigned_value(s@) == if digits.len() > 0 && all_digits(digits) {
                Some(digits_value(digits))
            } else {
                None
            },
            all_digits(digits.take(i - start)),
            value == digits_value(digits.take(i - start)),
            value <= max,
        decreases chars.len() - i,
    {
        let c = chars[i];
        let ghost upto = digits.take(i - start + 1);
        proof {
            assert(upto.drop_last() =~= digits.take(i - start));
            assert(upto.last() == c);
        }
        if c < '0' || c > '9' {
            proof {
                assert(!is_digit(digits[i - start]));
            }
            return None;
        }
        let d: u64 = (c as u32 - '0' as u32) as u64;
        if d > max || value > (max - d) / 10 {
            proof {
                assert(value * 10 + d > max);
                assert forall|k: int| 0 <= k < upto.len() implies is_digit(#[trigger] upto[k]) by {
                    if k < upto.len() - 1 {
                        assert(upto[k] == digits.take(i - start)[k]);
                    }
                }
                if all_digits(digits) {
                    lemma_digits_value_grows(digits, i - start + 1);
                }
            }
            return None;
        }
        value = value * 10 + d;
        proof {
            assert forall|k: int| 0 <= k < upto.len() implies is_digit(#[trigger] upto[k]) by {
                if k < upto.len() - 1 {
                    assert(upto[k] == digits.take(i - start)[k]);
                }
            }
        }
        i += 1;
    }
    proof {
        assert(digits.take(i - start) =~= digits);
    }
    Some(value)
}

/// Writes `n` in base ten.
pub fn to_decimal(n: u64) -> (s: String)
    ensures
        s@ == decimal(n as nat),
{
    let mut reversed: Vec<char> = Vec::new();
    let mut rest: u64 = n;
    while rest >= 10
        invariant
            decimal(n as nat) == decimal(rest as nat) + reversed@.reverse(),
        decreases rest,
    {
        let d: u64 = rest % 10;
        let c = digit_of(d);
        proof {
            let before = reversed@;
            assert(decimal(rest as nat) == decimal((rest / 10) as nat).push(c));
            assert(before.push(c).reverse() =~= seq![c] + before.reverse());
            assert(decimal((rest / 10) as nat).push(c) + before.reverse() =~= decimal(
                (rest / 10) as nat,
            ) + (seq![c] + before.reverse()));
        }
        reversed.push(c);
        rest = rest / 10;
    }
    let mut s = String::new();
    push_char(&mut s, digit_of(rest));
    let mut i: usize = reversed.len();
    while i > 0
        invariant
            i <= reversed.len(),
            decimal(n as nat) == decimal(rest as nat) + reversed@.reverse(),
            rest < 10,
            s@ == decimal(rest as nat) + reversed@.reverse().take(reversed@.len() - i),
        decreases i,
    {
        i -= 1;
        push_char(&mut s, reversed[i]);
        proof {
            let r = reversed@.reverse();
            let k = reversed@.len() - i - 1;
            assert(r[k] == reversed@[i as int]);
            assert(r.take(k + 1) =~= r.take(k).push(r[k]));
            assert((decimal(rest as nat) + r.take(k)).push(r[k]) =~= decimal(rest as nat) + r.take(
                k + 1,
            ));
        }
    }
    proof {
        let r = reversed@.reverse();
        assert(r.take(reversed@.len() as int) =~= r);
    }
    s
}

/// The digit that stands for `d`.
fn digit_of(d: u64) -> (c: char)
    requires
        d < 10,
    ensures
        c == digit_char(d as nat),
{
    if d == 0 {
        '0'
    } else if d == 1 {
        '1'
    } else if d == 2 {
        '2'
    } else if d == 3 {
        '3'
    } else if d == 4 {
        '4'
    } else if d == 5 {
        '5'
    } else if d == 6 {
        '6'
    } else if d == 7 {
        '7'
    } else if d == 8 {
        '8'
    } else {
        '9'
    }
}

/// The place of the last `c` in `s`, or -1 where `s` holds none.
pub open spec fn last_position(s: Seq<char>, c: char) -> int
    decreases s.len(),
{
    if s.len() == 0 {
        -1
    } else if s.last() == c {
        s.len() - 1
    } else {
        last_position(s.drop_last(), c)
    }
}

/// What follows the last `c` in `s`: all of `s` where it holds no `c`.
pub open spec fn after_last(s: Seq<char>, c: char) -> Seq<char> {
    s.subrange(last_position(s, c) + 1, s.len() as int)
}

/// The last `c` in `s` stands at `last_position`, and none stands behind it.
pub proof fn lemma_last_position(s: Seq<char>, c: char)
    ensures
        -1 <= last_position(s, c) < s.len(),
        last_position(s, c) >= 0 ==> s[last_position(s, c)] == c,
        forall|i: int| last_position(s, c) < i < s.len() ==> s[i] != c,
    decreases s.len(),
{
    if s.len() > 0 && s.last() != c {
        let front = s.drop_last();
        lemma_last_position(front, c);
        assert forall|i: int| last_position(s, c) < i < s.len() implies s[i] != c by {
            if i < front.len() {
                assert(s[i] == front[i]);
            }
        }
    }
}

/// What follows the last `c` in `chars`.
pub fn tail_after_last(chars: &Vec<char>, c: char) -> (tail: Vec<char>)
    ensures
        tail@ == after_last(chars@, c),
{
    let mut start: usize = chars.len();
    proof {
        lemma_last_position(chars@, c);
    }
    while start > 0 && chars[start - 1] != c
        invariant
            start <= chars.len(),
            last_position(chars@, c) < start,
            forall|i: int| start <= i < chars.len() ==> chars@[i] != c,
        decreases start,
    {
        start -= 1;
    }
    proof {
        if start > 0 {
            if last_position(chars@, c) < start - 1 {
                assert(chars@[start - 1] == c);
            }
        }
    }
    slice_of(chars, start, chars.len())
}

/// The characters of `chars` from `from` up to `to`.
pub fn slice_of(chars: &Vec<char>, from: usize, to: usize) -> (part: Vec<char>)
    requires
        from <= to <= chars.len(),
    ensures
        part@ == chars@.subrange(from as int, to as int),
{
    let mut part: Vec<char> = Vec::new();
    let mut i: usize = from;
    while i < to
        invariant
            from <= i <= to,
            part@ == chars@.subrange(from as int, i as int),
        decreases to - i,
    {
        part.push(chars[i]);
        proof {
            assert(chars@.subrange(from as int, i + 1) =~= chars@.subrange(
                from as int,
                i as int,
            ).push(chars@[i as int]));
        }
        i += 1;
    }
    part
}

/// Whether `pattern` stands in `s` at `at`.
pub open spec fn occurs_at(s: Seq<char>, pattern: Seq<char>, at: int) -> bool {
    0 <= at && at + pattern.len() <= s.len() && s.subrange(at, at + pattern.len()) == pattern
}

/// Whether `s` begins with `pattern`.
pub open spec fn begins_with(s: Seq<char>, pattern: Seq<char>) -> bool {
    occurs_at(s, pattern, 0)
}

/// Whether `pattern` stands somewhere in `s`.
pub open spec fn holds(s: Seq<char>, pattern: Seq<char>) -> bool {
    exists|at: int| occurs_at(s, pattern, at)
}

/// The first place at or after `from` where `pattern` stands in `s`, if
/// there is one.
pub open spec fn first_occurrence(s: Seq<char>, pattern: Seq<char>, from: int) -> Option<int>
    decreases s.len() + 1 - from,
{
    if from < 0 || from + pattern.len() > s.len() {
        None
    } else if occurs_at(s, pattern, from) {
        Some(from)
    } else {
        first_occurrence(s, pattern, from + 1)
    }
}

/// `first_occurrence` is a place where the pattern stands, and the first
/// such place from `from` on.
pub proof fn lemma_first_occurrence(s: Seq<char>, pattern: Seq<char>, from: int)
    requires
        0 <= from,
    ensures
        match first_occurrence(s, pattern, from) {
            Some(at) => from <= at && occurs_at(s, pattern, at) && forall|k: int|
                from <= k < at ==> !occurs_at(s, pattern, k),
            None => forall|k: int| from <= k ==> !occurs_at(s, pattern, k),
        },
    decreases s.len() + 1 - from,
{
    if from + pattern.len() <= s.len() && !occurs_at(s, pattern, from) {
        lemma_first_occurrence(s, pattern, from + 1);
    }
}

/// Tells whether `pattern` stands in `chars` at `at`.
pub fn matches_at(chars: &Vec<char>, pattern: &Vec<char>, at: usize) -> (ok: bool)
    ensures
        ok == occurs_at(chars@, pattern@, at as int),
{
    if pattern.len() > chars.len() || at > chars.len() - pattern.len() {
        return false;
    }
    let mut i: usize = 0;
    while i < pattern.len()
        invariant
            i <= pattern.len(),
            at + pattern.len() <= chars.len(),
            forall|k: int| 0 <= k < i ==> chars@[at + k] == pattern@[k],
        decreases pattern.len() - i,
    {
        if chars[at + i] != pattern[i] {
            proof {
                let part = chars@.subrange(at as int, at + pattern.len());
                assert(part[i as int] != pattern@[i as int]);
            }
            return false;
        }
        i += 1;
    }
    proof {
        assert(chars@.subrange(at as int, at + pattern.len()) =~= pattern@);
    }
    true
}

/// The first place at or after `from` where `pattern` stands in `chars`.
pub fn find_from(chars: &Vec<char>, pattern: &Vec<char>, from: usize) -> (found: Option<usize>)
    ensures
        match found {
            Some(at) => first_occurrence(chars@, pattern@, from as int) == Some(at as int),
            None => first_occurrence(chars@, pattern@, from as int) is None,
        },
{
    let mut at: usize = from;
    loop
        invariant
            from <= at,
            first_occurrence(chars@, pattern@, from as int) == first_occurrence(
                chars@,
                pattern@,
                at as int,
            ),
        decreases chars.len() + 1 - at,
    {
        if at > chars.len() || pattern.len() > chars.len() - at {
            return None;
        }
        if matches_at(chars, pattern, at) {
            return Some(at);
        }
        proof {
            if at == chars.len() {
                assert(chars@.subrange(at as int, at + pattern@.len()) =~= pattern@);
            }
        }
        at += 1;
    }
}

/// Tells whether `pattern` stands somewhere in `text`.
pub fn contains_text(text: &str, pattern: &str) -> (found: bool)
    ensures
        found == holds(text@, pattern@),
{
    let chars = to_chars(text);
    let wanted = to_chars(pattern);
    proof {
        lemma_first_occurrence(chars@, wanted@, 0);
    }
    match find_from(&chars, &wanted, 0) {
        Some(_) => true,
        None => false,
    }
}

/// Tells whether `chars` begins with `pattern`.
pub fn starts_with(chars: &Vec<char>, pattern: &Vec<char>) -> (ok: bool)
    ensures
        ok == begins_with(chars@, pattern@),
{
    matches_at(chars, pattern, 0)
}

} // verus!

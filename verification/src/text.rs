//! Text as sequences of characters: comparing, searching, lower case, and
//! whole numbers in decimal.

use vstd::prelude::*;

verus! {

/// The characters of `s`.
pub fn chars_of(s: &str) -> (chars: Vec<char>)
    ensures
        chars@ == s@,
{
    broadcast use vstd::string::group_string_axioms;

    let mut chars: Vec<char> = Vec::new();
    for c in it: s.chars()
        invariant
            it.seq() == s@,
            chars@ == it.seq().take(it.index() as int),
    {
        proof {
            it.seq().lemma_take_succ_push(it.index() as int);
        }
        chars.push(c);
    }
    proof {
        s@.lemma_take_len();
    }
    chars
}

/// Whether `a` and `b` hold the same characters.
pub fn same_text(a: &str, b: &str) -> (same: bool)
    ensures
        same == (a@ == b@),
{
    let left = chars_of(a);
    let right = chars_of(b);
    if left.len() != right.len() {
        return false;
    }
    let mut i: usize = 0;
    while i < left.len()
        invariant
            i <= left.len(),
            left.len() == right.len(),
            left@ == a@,
            right@ == b@,
            forall|j: int| 0 <= j < i ==> left@[j] == right@[j],
        decreases left.len() - i,
    {
        if left[i] != right[i] {
            return false;
        }
        i += 1;
    }
    assert(left@ =~= right@);
    true
}

/// The lower-case form of a text, as Unicode gives it for the text as a
/// whole: a character may become two, and what a character becomes may
/// depend on where in a word it stands.
pub uninterp spec fn lowercase(s: Seq<char>) -> Seq<char>;

/// The lower-case form of `s`, by `str::to_lowercase`. The result is a
/// function of the characters of `s` alone; it is named, not spelled out.
#[verifier::external_body]
pub(crate) fn to_lowercase(s: &str) -> (lowered: String)
    ensures
        lowered@ == lowercase(s@),
{
    s.to_lowercase()
}

/// Whether `needle` occurs in `hay` at offset `at`.
pub open spec fn occurs_at(needle: Seq<char>, hay: Seq<char>, at: int) -> bool {
    0 <= at && at + needle.len() <= hay.len() && hay.subrange(at, at + needle.len()) == needle
}

/// Whether `needle` occurs somewhere in `hay`. The empty text occurs in
/// every text.
pub open spec fn is_infix(needle: Seq<char>, hay: Seq<char>) -> bool {
    exists|at: int| occurs_at(needle, hay, at)
}

/// Whether `needle` occurs in `hay`.
pub fn contains_text(hay: &str, needle: &str) -> (found: bool)
    ensures
        found == is_infix(needle@, hay@),
{
    let h = chars_of(hay);
    let n = chars_of(needle);
    if n.len() > h.len() {
        assert forall|at: int| !occurs_at(needle@, hay@, at) by {}
        return false;
    }
    let last = h.len() - n.len();
    let mut at: usize = 0;
    while at <= last
        invariant
            at <= last + 1,
            last == h.len() - n.len(),
            n.len() <= h.len(),
            h@ == hay@,
            n@ == needle@,
            forall|k: int| 0 <= k < at ==> !occurs_at(needle@, hay@, k),
        decreases last + 1 - at,
    {
        let mut j: usize = 0;
        while j < n.len() && h[at + j] == n[j]
            invariant
                j <= n.len(),
                at <= last,
                last == h.len() - n.len(),
                n.len() <= h.len(),
                h@ == hay@,
                n@ == needle@,
                forall|k: int| 0 <= k < j ==> h@[at + k] == n@[k],
            decreases n.len() - j,
        {
            j += 1;
        }
        if j == n.len() {
            assert(hay@.subrange(at as int, at + needle@.len()) =~= needle@);
            assert(occurs_at(needle@, hay@, at as int));
            return true;
        }
        assert(!occurs_at(needle@, hay@, at as int)) by {
            if occurs_at(needle@, hay@, at as int) {
                assert(hay@.subrange(at as int, at + needle@.len())[j as int] == needle@[j as int]);
            }
        }
        at += 1;
    }
    assert forall|k: int| !occurs_at(needle@, hay@, k) by {}
    false
}

/// `s` without the occurrences of `pattern`, found from left to right, none
/// overlapping another. Nothing is taken out where `pattern` is empty.
pub open spec fn without_all(s: Seq<char>, pattern: Seq<char>) -> Seq<char>
    decreases s.len(),
{
    if pattern.len() == 0 || s.len() < pattern.len() {
        s
    } else if s.take(pattern.len() as int) == pattern {
        without_all(s.skip(pattern.len() as int), pattern)
    } else {
        seq![s[0]] + without_all(s.skip(1), pattern)
    }
}

/// `text` without the occurrences of `pattern`.
pub fn remove_all(text: &str, pattern: &str) -> (rest: String)
    ensures
        rest@ == without_all(text@, pattern@),
{
    let t = chars_of(text);
    let p = chars_of(pattern);
    if p.len() == 0 || t.len() < p.len() {
        return String::from_str(text);
    }
    let last = t.len() - p.len();
    let mut rest = String::new();
    let mut start: usize = 0;
    let mut i: usize = 0;
    proof {
        assert(text@.subrange(0, 0) =~= Seq::<char>::empty());
        assert(text@.skip(0) =~= text@);
        assert(Seq::<char>::empty() + Seq::<char>::empty() + text@ =~= text@);
    }
    while i <= last
        invariant
            start <= i <= t.len(),
            0 < p.len() <= t.len(),
            last == t.len() - p.len(),
            t@ == text@,
            p@ == pattern@,
            rest@ + text@.subrange(start as int, i as int) + without_all(
                text@.skip(i as int),
                pattern@,
            ) == without_all(text@, pattern@),
        decreases t.len() - i,
    {
        let ghost tail = text@.skip(i as int);
        let mut j: usize = 0;
        while j < p.len() && t[i + j] == p[j]
            invariant
                j <= p.len(),
                i <= last,
                last == t.len() - p.len(),
                0 < p.len() <= t.len(),
                t@ == text@,
                p@ == pattern@,
                forall|k: int| 0 <= k < j ==> t@[i + k] == p@[k],
            decreases p.len() - j,
        {
            j += 1;
        }
        if j == p.len() {
            proof {
                assert(tail.take(pattern@.len() as int) =~= pattern@);
                assert(tail.skip(pattern@.len() as int) =~= text@.skip(i + p.len()));
                assert(text@.subrange(i + p.len(), i + p.len()) =~= Seq::<char>::empty());
                assert(rest@ + text@.subrange(start as int, i as int) + Seq::<char>::empty()
                    =~= rest@ + text@.subrange(start as int, i as int));
            }
            rest.append(text.substring_char(start, i));
            i += p.len();
            start = i;
        } else {
            proof {
                assert(tail.take(pattern@.len() as int) != pattern@) by {
                    if tail.take(pattern@.len() as int) == pattern@ {
                        assert(tail.take(pattern@.len() as int)[j as int] == pattern@[j as int]);
                    }
                }
                assert(tail.skip(1) =~= text@.skip(i + 1));
                assert(text@.subrange(start as int, i + 1) =~= text@.subrange(
                    start as int,
                    i as int,
                ) + seq![tail[0]]);
                assert(rest@ + text@.subrange(start as int, i as int) + (seq![tail[0]]
                    + without_all(tail.skip(1), pattern@)) =~= rest@ + (text@.subrange(
                    start as int,
                    i as int,
                ) + seq![tail[0]]) + without_all(tail.skip(1), pattern@));
            }
            i += 1;
        }
    }
    proof {
        assert(text@.subrange(start as int, i as int) + text@.skip(i as int) =~= text@.skip(
            start as int,
        ));
        assert(text@.skip(start as int) =~= text@.subrange(start as int, t.len() as int));
        assert(rest@ + text@.subrange(start as int, i as int) + text@.skip(i as int) =~= rest@
            + text@.skip(start as int));
    }
    rest.append(text.substring_char(start, t.len()));
    rest
}

/// Whether `c` is one of the ten decimal digits.
pub open spec fn is_digit(c: char) -> bool {
    '0' <= c <= '9'
}

/// The number that the digit `c` stands for.
pub open spec fn digit_value(c: char) -> nat {
    (c as u32 - '0' as u32) as nat
}

/// Whether `s` is made of decimal digits only.
pub open spec fn all_digits(s: Seq<char>) -> bool {
    forall|i: int| 0 <= i < s.len() ==> is_digit(#[trigger] s[i])
}

/// The number that the digits `s` spell in decimal.
pub open spec fn digits_value(s: Seq<char>) -> nat
    decreases s.len(),
{
    if s.len() == 0 {
        0
    } else {
        digits_value(s.drop_last()) * 10 + digit_value(s.last())
    }
}

/// The digit that stands for `d`, a number under ten.
pub open spec fn digit_char(d: nat) -> char {
    if d == 0 {
        '0'
    } else if d == 1 {
        '1'
    } else if d == 2 {
        '2'
    } else if d == 3 {
        '3'
    } else if d == 4 {
        '4'
    } else if d == 5 {
        '5'
    } else if d == 6 {
        '6'
    } else if d == 7 {
        '7'
    } else if d == 8 {
        '8'
    } else {
        '9'
    }
}

/// `n` in decimal, without leading zeros.
pub open spec fn decimal(n: nat) -> Seq<char>
    decreases n,
{
    if n < 10 {
        seq![digit_char(n)]
    } else {
        decimal(n / 10).push(digit_char(n % 10))
    }
}

/// The digit that stands for `d`, as a text of one character.
fn digit_text(d: u64) -> (text: &'static str)
    requires
        d < 10,
    ensures
        text@ == seq![digit_char(d as nat)],
{
    proof {
        reveal_strlit("0");
        reveal_strlit("1");
        reveal_strlit("2");
        reveal_strlit("3");
        reveal_strlit("4");
        reveal_strlit("5");
        reveal_strlit("6");
        reveal_strlit("7");
        reveal_strlit("8");
        reveal_strlit("9");
    }
    let text = if d == 0 {
        "0"
    } else if d == 1 {
        "1"
    } else if d == 2 {
        "2"
    } else if d == 3 {
        "3"
    } else if d == 4 {
        "4"
    } else if d == 5 {
        "5"
    } else if d == 6 {
        "6"
    } else if d == 7 {
        "7"
    } else if d == 8 {
        "8"
    } else {
        "9"
    };
    assert(text@ =~= seq![digit_char(d as nat)]);
    text
}

/// `n` in decimal.
pub fn decimal_string(n: u64) -> (text: String)
    ensures
        text@ == decimal(n as nat),
{
    // The digits, the last one first.
    let mut digits: Vec<u64> = Vec::new();
    let mut rest: u64 = n;
    while rest >= 10
        invariant
            forall|k: int| 0 <= k < digits@.len() ==> digits@[k] < 10,
            decimal(n as nat) == decimal(rest as nat) + Seq::new(
                digits@.len(),
                |k: int| digit_char(digits@[digits@.len() - 1 - k] as nat),
            ),
        decreases rest,
    {
        let ghost before = digits@;
        digits.push(rest % 10);
        proof {
            let old_tail = Seq::new(
                before.len(),
                |k: int| digit_char(before[before.len() - 1 - k] as nat),
            );
            let new_tail = Seq::new(
                digits@.len(),
                |k: int| digit_char(digits@[digits@.len() - 1 - k] as nat),
            );
            assert(new_tail =~= seq![digit_char((rest % 10) as nat)] + old_tail);
            assert(decimal((rest / 10) as nat).push(digit_char((rest % 10) as nat)) + old_tail
                =~= decimal((rest / 10) as nat) + new_tail);
        }
        rest = rest / 10;
    }
    let mut text = String::from_str(digit_text(rest));
    let ghost tail = Seq::new(
        digits@.len(),
        |k: int| digit_char(digits@[digits@.len() - 1 - k] as nat),
    );
    let mut i: usize = digits.len();
    proof {
        assert(tail.take(0) =~= Seq::<char>::empty());
        assert(decimal(rest as nat) + Seq::<char>::empty() =~= decimal(rest as nat));
    }
    while i > 0
        invariant
            i <= digits.len(),
            forall|k: int| 0 <= k < digits@.len() ==> digits@[k] < 10,
            tail == Seq::new(
                digits@.len(),
                |k: int| digit_char(digits@[digits@.len() - 1 - k] as nat),
            ),
            text@ == decimal(rest as nat) + tail.take(digits@.len() - i),
        decreases i,
    {
        i -= 1;
        proof {
            let done = digits@.len() - 1 - i;
            assert(tail.take(done + 1) =~= tail.take(done) + seq![digit_char(digits@[i as int] as nat)]);
            assert(decimal(rest as nat) + (tail.take(done) + seq![
                digit_char(digits@[i as int] as nat),
            ]) =~= decimal(rest as nat) + tail.take(done) + seq![
                digit_char(digits@[i as int] as nat),
            ]);
        }
        text.append(digit_text(digits[i]));
    }
    proof {
        assert(tail.take(digits@.len() as int) =~= tail);
    }
    text
}

/// `s` without the plus sign that may stand in front of a number.
pub open spec fn without_plus(s: Seq<char>) -> Seq<char> {
    if s.len() > 0 && s[0] == '+' {
        s.skip(1)
    } else {
        s
    }
}

/// The whole number up to `max` that `s` spells: an optional plus sign and
/// then one decimal digit or more, nothing before, between or after. `None`
/// where `s` is not of that form or spells a greater number.
pub open spec fn parse_unsigned(s: Seq<char>, max: nat) -> Option<nat> {
    let digits = without_plus(s);
    if digits.len() > 0 && all_digits(digits) && digits_value(digits) <= max {
        Some(digits_value(digits))
    } else {
        None
    }
}

/// A longer spelling does not spell a smaller number.
pub proof fn lemma_digits_value_grows(s: Seq<char>, n: int)
    requires
        0 <= n <= s.len(),
    ensures
        digits_value(s.take(n)) <= digits_value(s),
    decreases s.len() - n,
{
    if n == s.len() {
        assert(s.take(n) =~= s);
    } else {
        lemma_digits_value_grows(s, n + 1);
        assert(s.take(n + 1).drop_last() =~= s.take(n));
    }
}

/// Reads `s` as a whole number in decimal, as `parse_unsigned` says, where
/// the number fits 64 bits.
pub fn parse_u64(s: &str) -> (parsed: Option<u64>)
    ensures
        parsed is Some <==> parse_unsigned(s@, u64::MAX as nat) is Some,
        parsed is Some ==> parsed->Some_0 as nat == parse_unsigned(s@, u64::MAX as nat)->Some_0,
{
    let chars = chars_of(s);
    let start: usize = if chars.len() > 0 && chars[0] == '+' {
        1
    } else {
        0
    };
    let ghost digits = without_plus(s@);
    assert(digits =~= chars@.skip(start as int));
    if start >= chars.len() {
        return None;
    }
    let mut value: u64 = 0;
    let mut i: usize = start;
    proof {
        assert(digits.take(0) =~= Seq::<char>::empty());
    }
    while i < chars.len()
        invariant
            start <= i <= chars.len(),
            start < chars.len(),
            digits == without_plus(s@),
            digits == chars@.skip(start as int),
            all_digits(digits.take(i - start)),
            value as nat == digits_value(digits.take(i - start)),
        decreases chars.len() - i,
    {
        let c = chars[i];
        let ghost seen = digits.take(i - start);
        let ghost next = digits.take(i - start + 1);
        proof {
            assert(next.drop_last() =~= seen);
            assert(next.last() == c);
            assert(digits[i - start] == c);
        }
        if c < '0' || c > '9' {
            assert(!all_digits(digits));
            return None;
        }
        let d: u64 = (c as u32 - '0' as u32) as u64;
        proof {
            lemma_digits_value_grows(digits, i - start + 1);
            assert(digits_value(next) == value * 10 + d);
            assert forall|j: int| 0 <= j < next.len() implies is_digit(#[trigger] next[j]) by {
                if j < seen.len() {
                    assert(next[j] == seen[j]);
                }
            }
        }
        // A number that has outgrown 64 bits stays too great, whatever follows.
        match value.checked_mul(10) {
            None => {
                return None;
            },
            Some(tens) => match tens.checked_add(d) {
                None => {
                    return None;
                },
                Some(sum) => {
                    value = sum;
                },
            },
        }
        i += 1;
    }
    proof {
        assert(digits.take(chars.len() - start) =~= digits);
    }
    Some(value)
}

/// Reads `s` as a whole number in decimal, as `parse_unsigned` says, where
/// the number fits 16 bits.
pub fn parse_u16(s: &str) -> (parsed: Option<u16>)
    ensures
        parsed is Some <==> parse_unsigned(s@, u16::MAX as nat) is Some,
        parsed is Some ==> parsed->Some_0 as nat == parse_unsigned(s@, u16::MAX as nat)->Some_0,
{
    match parse_u64(s) {
        Some(value) => if value <= 65535 {
            Some(value as u16)
        } else {
            None
        },
        None => {
            proof {
                // What does not fit 64 bits does not fit 16 bits.
                assert(parse_unsigned(s@, u64::MAX as nat) is None);
            }
            None
        },
    }
}

} // verus!

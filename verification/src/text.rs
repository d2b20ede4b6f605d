//! Characters and words: the whitespace class, trimming, splitting a line into
//! its words, and reading decimal numbers. Everything here is stated over
//! `Seq<char>`, the view of a string.

use vstd::prelude::*;
use vstd::string::StrSliceExecFns;

verus! {

/// The characters with the Unicode property `White_Space`.
pub open spec fn is_whitespace(c: char) -> bool {
    let code = c as u32;
    ||| 0x09 <= code <= 0x0D
    ||| code == 0x20
    ||| code == 0x85
    ||| code == 0xA0
    ||| code == 0x1680
    ||| 0x2000 <= code <= 0x200A
    ||| code == 0x2028
    ||| code == 0x2029
    ||| code == 0x202F
    ||| code == 0x205F
    ||| code == 0x3000
}

/// Whether every character of `s` is whitespace.
pub open spec fn is_blank(s: Seq<char>) -> bool {
    forall|i: int| 0 <= i < s.len() ==> is_whitespace(#[trigger] s[i])
}

/// `s` without its leading and trailing whitespace.
pub open spec fn trimmed(s: Seq<char>) -> Seq<char>
    decreases s.len(),
{
    if s.len() == 0 {
        s
    } else if is_whitespace(s.first()) {
        trimmed(s.drop_first())
    } else if is_whitespace(s.last()) {
        trimmed(s.drop_last())
    } else {
        s
    }
}

/// The length of the longest prefix of `s` that holds no whitespace.
pub open spec fn word_len(s: Seq<char>) -> nat
    decreases s.len(),
{
    if s.len() > 0 && !is_whitespace(s.first()) {
        1 + word_len(s.drop_first())
    } else {
        0
    }
}

/// The words of `s`: its maximal runs of characters that are not whitespace,
/// from left to right.
pub open spec fn words(s: Seq<char>) -> Seq<Seq<char>>
    decreases s.len(),
    via words_decreases
{
    if s.len() == 0 {
        Seq::empty()
    } else if is_whitespace(s.first()) {
        words(s.drop_first())
    } else {
        seq![s.take(word_len(s) as int)] + words(s.skip(word_len(s) as int))
    }
}

/// A word is no longer than the sequence it starts.
pub proof fn word_len_bound(s: Seq<char>)
    ensures
        word_len(s) <= s.len(),
    decreases s.len(),
{
    if s.len() > 0 && !is_whitespace(s.first()) {
        word_len_bound(s.drop_first());
    }
}

#[via_fn]
proof fn words_decreases(s: Seq<char>) {
    if s.len() > 0 && !is_whitespace(s.first()) {
        word_len_bound(s);
        assert(word_len(s) >= 1);
    }
}

/// A text that may be missing, over sequences of characters.
pub open spec fn text_view(text: Option<String>) -> Option<Seq<char>> {
    match text {
        Some(text) => Some(text@),
        None => None,
    }
}

/// Whether `c` is one of the ten ASCII digits.
pub open spec fn is_digit(c: char) -> bool {
    '0' <= c <= '9'
}

/// Whether `s` holds ASCII digits only.
pub open spec fn all_digits(s: Seq<char>) -> bool {
    forall|i: int| 0 <= i < s.len() ==> is_digit(#[trigger] s[i])
}

/// The number that the digits of `s` write in base ten.
pub open spec fn decimal_value(s: Seq<char>) -> nat
    decreases s.len(),
{
    if s.len() == 0 {
        0
    } else {
        (10 * decimal_value(s.drop_last()) + (s.last() as u32 - '0' as u32)) as nat
    }
}

/// `s` without one leading `+`, where it has one.
pub open spec fn without_plus(s: Seq<char>) -> Seq<char> {
    if s.len() > 0 && s.first() == '+' {
        s.drop_first()
    } else {
        s
    }
}

/// The value of `s` read as an unsigned 32-bit number: an optional `+`, then
/// one digit or more, nothing else; `None` where `s` is not of that form or
/// the number does not fit.
pub open spec fn unsigned_number(s: Seq<char>) -> Option<u32> {
    let digits = without_plus(s);
    if digits.len() > 0 && all_digits(digits) && decimal_value(digits) <= u32::MAX {
        Some(decimal_value(digits) as u32)
    } else {
        None
    }
}

/// The value of `s` read as a signed 32-bit number: an optional `+` or `-`,
/// then one digit or more, nothing else; `None` where `s` is not of that form
/// or the number does not fit.
pub open spec fn signed_number(s: Seq<char>) -> Option<i32> {
    if s.len() > 0 && s.first() == '-' {
        let digits = s.drop_first();
        if digits.len() > 0 && all_digits(digits) && decimal_value(digits) <= 0x8000_0000 {
            Some((-(decimal_value(digits) as int)) as i32)
        } else {
            None
        }
    } else {
        let digits = without_plus(s);
        if digits.len() > 0 && all_digits(digits) && decimal_value(digits) <= i32::MAX {
            Some(decimal_value(digits) as i32)
        } else {
            None
        }
    }
}

/// Decides whether `c` is whitespace.
pub fn whitespace(c: char) -> (white: bool)
    ensures
        white == is_whitespace(c),
{
    let code: u32 = c as u32;
    (0x09 <= code && code <= 0x0D) || code == 0x20 || code == 0x85 || code == 0xA0 || code
        == 0x1680 || (0x2000 <= code && code <= 0x200A) || code == 0x2028 || code == 0x2029 || code
        == 0x202F || code == 0x205F || code == 0x3000
}

/// The characters of `text`, in order.
pub fn chars_of(text: &str) -> (chars: Vec<char>)
    ensures
        chars@ == text@,
{
    let mut chars: Vec<char> = Vec::new();
    for c in it: text.chars()
        invariant
            chars@ == it.seq().take(it.index() as int),
            it.seq() == text@,
    {
        chars.push(c);
    }
    chars
}

/// Whether two strings hold the same characters.
pub fn same_text(left: &str, right: &str) -> (same: bool)
    ensures
        same == (left@ == right@),
{
    let a = chars_of(left);
    let b = chars_of(right);
    if a.len() != b.len() {
        return false;
    }
    let mut i: usize = 0;
    while i < a.len()
        invariant
            i <= a.len(),
            a.len() == b.len(),
            a@ == left@,
            b@ == right@,
            forall|k: int| 0 <= k < i ==> a@[k] == b@[k],
        decreases a.len() - i,
    {
        if a[i] != b[i] {
            assert(left@[i as int] != right@[i as int]);
            return false;
        }
        i += 1;
    }
    assert(a@ =~= b@);
    true
}

/// Whitespace in front of position `from` and from position `to` on does not
/// show in the trimmed form, where the part between is tight or empty.
pub proof fn trimmed_is_core(s: Seq<char>, from: int, to: int)
    requires
        0 <= from <= to <= s.len(),
        is_blank(s.take(from)),
        is_blank(s.skip(to)),
        from < to ==> !is_whitespace(s[from]) && !is_whitespace(s[to - 1]),
    ensures
        trimmed(s) == s.subrange(from, to),
    decreases s.len(),
{
    if s.len() == 0 {
        assert(s.subrange(from, to) =~= s);
    } else if from > 0 {
        assert(s.take(from)[0] == s[0]);
        let rest = s.drop_first();
        assert(rest.take(from - 1) =~= s.take(from).drop_first());
        assert(rest.skip(to - 1) =~= s.skip(to));
        trimmed_is_core(rest, from - 1, to - 1);
        assert(rest.subrange(from - 1, to - 1) =~= s.subrange(from, to));
    } else if to < s.len() {
        assert(s.skip(to)[s.len() - 1 - to] == s.last());
        if from == to {
            // to == 0: the whole of `s` is whitespace
            assert(s.skip(0) =~= s);
            assert(is_whitespace(s.first()));
            let rest = s.drop_first();
            assert(rest.skip(0) =~= s.skip(0).drop_first());
            assert(rest.take(0) =~= s.take(0));
            trimmed_is_core(rest, 0, 0);
            assert(rest.subrange(0, 0) =~= s.subrange(0, 0));
        } else {
            let rest = s.drop_last();
            assert(rest.take(from) =~= s.take(from));
            assert(rest.skip(to) =~= s.skip(to).drop_last());
            trimmed_is_core(rest, from, to);
            assert(rest.subrange(from, to) =~= s.subrange(from, to));
        }
    } else {
        assert(s.subrange(from, to) =~= s);
    }
}

/// `text` without its leading and trailing whitespace.
pub fn trim(text: &str) -> (core: String)
    ensures
        core@ == trimmed(text@),
{
    let chars = chars_of(text);
    let mut from: usize = 0;
    while from < chars.len() && whitespace(chars[from])
        invariant
            from <= chars.len(),
            forall|k: int| 0 <= k < from ==> is_whitespace(#[trigger] chars@[k]),
        decreases chars.len() - from,
    {
        from += 1;
    }
    let mut to: usize = chars.len();
    while to > from && whitespace(chars[to - 1])
        invariant
            from <= to <= chars.len(),
            forall|k: int| to <= k < chars.len() ==> is_whitespace(#[trigger] chars@[k]),
        decreases to - from,
    {
        to -= 1;
    }
    proof {
        assert(is_blank(chars@.take(from as int)));
        assert(is_blank(chars@.skip(to as int)));
        trimmed_is_core(chars@, from as int, to as int);
    }
    text.substring_char(from, to).to_owned()
}

/// Where position `at` of `s` holds no whitespace, the word that starts there
/// is one longer than the word that starts behind it.
proof fn word_len_step(s: Seq<char>, at: int)
    requires
        0 <= at < s.len(),
        !is_whitespace(s[at]),
    ensures
        word_len(s.skip(at)) == 1 + word_len(s.skip(at + 1)),
{
    assert(s.skip(at).drop_first() =~= s.skip(at + 1));
}

/// The words of `text`, from left to right.
pub fn split_words(text: &str) -> (list: Vec<String>)
    ensures
        list.deep_view() == words(text@),
{
    let chars = chars_of(text);
    let ghost s = text@;
    let mut list: Vec<String> = Vec::new();
    let mut at: usize = 0;
    assert(s.skip(0) =~= s);
    assert(list.deep_view() + words(s) =~= words(s));
    while at < chars.len()
        invariant
            at <= chars.len(),
            chars@ == s,
            s == text@,
            words(s) == list.deep_view() + words(s.skip(at as int)),
        decreases chars.len() - at,
    {
        let ghost rest = s.skip(at as int);
        if whitespace(chars[at]) {
            assert(rest.drop_first() =~= s.skip(at + 1));
            at += 1;
        } else {
            let mut end: usize = at + 1;
            proof {
                word_len_step(s, at as int);
            }
            while end < chars.len() && !whitespace(chars[end])
                invariant
                    at < end <= chars.len(),
                    chars@ == s,
                    word_len(s.skip(at as int)) == (end - at) + word_len(s.skip(end as int)),
                decreases chars.len() - end,
            {
                proof {
                    word_len_step(s, end as int);
                }
                end += 1;
            }
            assert(word_len(rest) == end - at);
            assert(rest.take((end - at) as int) =~= s.subrange(at as int, end as int));
            assert(rest.skip((end - at) as int) =~= s.skip(end as int));
            let word = text.substring_char(at, end).to_owned();
            let ghost before = list.deep_view();
            list.push(word);
            assert(list.deep_view() =~= before.push(word@));
            assert(before + (seq![word@] + words(s.skip(end as int))) =~= before.push(word@)
                + words(s.skip(end as int)));
            at = end;
        }
    }
    assert(list.deep_view() + words(s.skip(s.len() as int)) =~= list.deep_view());
    list
}

/// In a sequence of digits, the number that a prefix writes is not above the
/// number that the whole writes.
pub proof fn decimal_value_grows(s: Seq<char>, n: int)
    requires
        0 <= n <= s.len(),
        all_digits(s),
    ensures
        decimal_value(s.take(n)) <= decimal_value(s),
    decreases s.len() - n,
{
    if n == s.len() {
        assert(s.take(n) =~= s);
    } else {
        decimal_value_grows(s, n + 1);
        assert(s.take(n + 1).drop_last() =~= s.take(n));
        assert(is_digit(s[n]));
    }
}

/// Reads the digits of `chars` from position `from` on as a number that is at
/// most `limit`.
fn read_digits(chars: &Vec<char>, from: usize, limit: u64) -> (value: Option<u64>)
    requires
        from <= chars.len(),
        limit <= 0x1_0000_0000,
    ensures
        value == if from < chars.len() && all_digits(chars@.skip(from as int)) && decimal_value(
            chars@.skip(from as int),
        ) <= limit {
            Some(decimal_value(chars@.skip(from as int)) as u64)
        } else {
            None
        },
{
    if from >= chars.len() {
        return None;
    }
    let ghost digits = chars@.skip(from as int);
    let mut value: u64 = 0;
    let mut at: usize = from;
    while at < chars.len()
        invariant
            from <= at <= chars.len(),
            digits == chars@.skip(from as int),
            all_digits(digits.take(at - from)),
            value == decimal_value(digits.take(at - from)),
            value <= limit <= 0x1_0000_0000,
        decreases chars.len() - at,
    {
        let c = chars[at];
        assert(digits[at - from] == c);
        if !('0' <= c && c <= '9') {
            return None;
        }
        let digit: u64 = (c as u32 - '0' as u32) as u64;
        let next: u64 = value * 10 + digit;
        proof {
            assert(digits.take(at - from + 1).drop_last() =~= digits.take(at - from));
            assert(all_digits(digits.take(at - from + 1))) by {
                assert forall|k: int| 0 <= k < at - from + 1 implies is_digit(
                    #[trigger] digits.take(at - from + 1)[k],
                ) by {
                    if k < at - from {
                        assert(digits.take(at - from)[k] == digits[k]);
                    }
                }
            }
            assert(next == decimal_value(digits.take(at - from + 1)));
        }
        if next > limit {
            proof {
                if all_digits(digits) {
                    decimal_value_grows(digits, at - from + 1);
                }
            }
            return None;
        }
        value = next;
        at += 1;
    }
    assert(digits.take(at - from) =~= digits);
    Some(value)
}

/// Reads `token` as an unsigned 32-bit number in base ten.
pub fn parse_unsigned(token: &str) -> (number: Option<u32>)
    ensures
        number == unsigned_number(token@),
{
    let chars = chars_of(token);
    let from: usize = if chars.len() > 0 && chars[0] == '+' {
        1
    } else {
        0
    };
    assert(chars@.skip(from as int) =~= without_plus(token@));
    match read_digits(&chars, from, 0xFFFF_FFFF) {
        Some(value) => Some(value as u32),
        None => None,
    }
}

/// Reads `token` as a signed 32-bit number in base ten.
pub fn parse_signed(token: &str) -> (number: Option<i32>)
    ensures
        number == signed_number(token@),
{
    let chars = chars_of(token);
    if chars.len() > 0 && chars[0] == '-' {
        assert(chars@.skip(1) =~= token@.drop_first());
        match read_digits(&chars, 1, 0x8000_0000) {
            Some(value) => Some((-(value as i64)) as i32),
            None => None,
        }
    } else {
        let from: usize = if chars.len() > 0 && chars[0] == '+' {
            1
        } else {
            0
        };
        assert(chars@.skip(from as int) =~= without_plus(token@));
        match read_digits(&chars, from, 0x7FFF_FFFF) {
            Some(value) => Some(value as i32),
            None => None,
        }
    }
}

} // verus!

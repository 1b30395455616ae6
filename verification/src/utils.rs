//! Text helpers shared by the whole simulation: case folding, decimal
//! rendering, joining of listings and the random pick among candidate replies.

use rand::seq::SliceRandom;
use vstd::prelude::*;

verus! {

/// The Unicode lower-case form of a text, as `str::to_lowercase` computes it.
pub uninterp spec fn lowercase(s: Seq<char>) -> Seq<char>;

/// Calls `str::to_lowercase`. The result is only named: it is the lower-case
/// form of the argument, a function of the characters alone.
#[verifier::external_body]
pub(crate) fn to_lowercase(s: &str) -> (folded: String)
    ensures
        folded@ == lowercase(s@),
{
    s.to_lowercase()
}

/// Whether a character is white space, as `char::is_whitespace` tells it.
pub uninterp spec fn white_space(c: char) -> bool;

/// Calls `char::is_whitespace`. The result is only named: whether a
/// character has the Unicode property of white space is a matter of the
/// character alone.
#[verifier::external_body]
pub(crate) fn is_whitespace(c: char) -> (yes: bool)
    ensures
        yes == white_space(c),
{
    c.is_whitespace()
}

/// Calls `rand::seq::SliceRandom::choose` on the candidates with the
/// thread-local generator of `rand::thread_rng`, which the system seeds on
/// first use. The contract says what holds of every pick: nothing is picked
/// from an empty list, and what is picked is one of the candidates.
#[verifier::external_body]
pub(crate) fn pick_one(candidates: &Vec<String>) -> (picked: Option<&String>)
    ensures
        picked is Some <==> candidates@.len() > 0,
        picked matches Some(p) ==> candidates@.contains(*p),
{
    candidates.choose(&mut rand::thread_rng())
}

/// What a random pick turns into: the picked text, or the fallback where
/// there was nothing to pick from.
pub fn picked_or(picked: Option<&String>, fallback: &str) -> (text: String)
    ensures
        text@ == (match picked {
            Some(p) => p@,
            None => fallback@,
        }),
{
    match picked {
        Some(p) => p.clone(),
        None => fallback.to_owned(),
    }
}

/// Whether the text is one of the candidates.
pub open spec fn one_of(candidates: Seq<Seq<char>>, text: Seq<char>) -> bool {
    exists|i: int| 0 <= i < candidates.len() && text == #[trigger] candidates[i]
}

/// One of the candidate texts, picked at random; the fallback if there is none.
pub fn any_of(candidates: &Vec<String>, fallback: &str) -> (text: String)
    ensures
        candidates@.len() == 0 ==> text@ == fallback@,
        candidates@.len() > 0 ==> one_of(texts(candidates@), text@),
{
    let picked = pick_one(candidates);
    proof {
        if let Some(p) = picked {
            let i = choose|i: int| 0 <= i < candidates@.len() && candidates@[i] == *p;
            assert(texts(candidates@)[i] == p@);
        }
    }
    picked_or(picked, fallback)
}

/// Whether two texts hold the same characters.
pub fn str_equal(a: &str, b: &str) -> (same: bool)
    ensures
        same == (a@ == b@),
{
    let left = a.to_owned();
    let right = b.to_owned();
    left == right
}

/// The characters of a text, one element each.
pub fn chars_of(s: &str) -> (chars: Vec<char>)
    ensures
        chars@ == s@,
{
    let n = s.unicode_len();
    let mut chars: Vec<char> = Vec::new();
    let mut i: usize = 0;
    while i < n
        invariant
            n == s@.len(),
            i <= n,
            chars@ == s@.subrange(0, i as int),
        decreases n - i,
    {
        chars.push(s.get_char(i));
        i += 1;
        assert(chars@ =~= s@.subrange(0, i as int));
    }
    assert(s@.subrange(0, n as int) =~= s@);
    chars
}

/// Whether `s` begins with `prefix`.
pub open spec fn has_prefix(s: Seq<char>, prefix: Seq<char>) -> bool {
    prefix.len() <= s.len() && s.subrange(0, prefix.len() as int) == prefix
}

/// Tests whether the characters begin with the given prefix.
pub fn starts_with(chars: &Vec<char>, prefix: &str) -> (yes: bool)
    ensures
        yes == has_prefix(chars@, prefix@),
{
    let n = prefix.unicode_len();
    if n > chars.len() {
        return false;
    }
    let mut i: usize = 0;
    while i < n
        invariant
            n == prefix@.len(),
            n <= chars@.len(),
            i <= n,
            chars@.subrange(0, i as int) == prefix@.subrange(0, i as int),
        decreases n - i,
    {
        if chars[i] != prefix.get_char(i) {
            assert(chars@.subrange(0, n as int)[i as int] != prefix@[i as int]);
            return false;
        }
        i += 1;
        assert(chars@.subrange(0, i as int) =~= prefix@.subrange(0, i as int)) by {
            assert(chars@.subrange(0, i as int) =~= chars@.subrange(0, i - 1).push(
                chars@[i - 1],
            ));
            assert(prefix@.subrange(0, i as int) =~= prefix@.subrange(0, i - 1).push(
                prefix@[i - 1],
            ));
        }
    }
    assert(prefix@.subrange(0, n as int) =~= prefix@);
    true
}

/// The character that writes one decimal digit.
pub open spec fn digit_char(d: int) -> char {
    if d == 0 {
        '0'
    } else if d == 1 {
        '1'
    } else if d == 2 {
        '2'
    } else if d == 3 {
        '3'
    } else if d == 4 {
        '4'
    } else if d == 5 {
        '5'
    } else if d == 6 {
        '6'
    } else if d == 7 {
        '7'
    } else if d == 8 {
        '8'
    } else {
        '9'
    }
}

/// The decimal digits of a natural number, most significant first, without
/// leading zeros.
pub open spec fn decimal_digits(n: nat) -> Seq<char>
    decreases n,
{
    if n < 10 {
        seq![digit_char(n as int)]
    } else {
        decimal_digits(n / 10).push(digit_char((n % 10) as int))
    }
}

/// The decimal form of an integer, with a minus sign where it is negative.
pub open spec fn decimal(n: int) -> Seq<char> {
    if n < 0 {
        seq!['-'] + decimal_digits((-n) as nat)
    } else {
        decimal_digits(n as nat)
    }
}

fn digit_text(d: u32) -> (text: &'static str)
    requires
        d < 10,
    ensures
        text@ == seq![digit_char(d as int)],
{
    proof {
        reveal_strlit("0");
        reveal_strlit("1");
        reveal_strlit("2");
        reveal_strlit("3");
        reveal_strlit("4");
        reveal_strlit("5");
        reveal_strlit("6");
        reveal_strlit("7");
        reveal_strlit("8");
        reveal_strlit("9");
    }
    let text = if d == 0 {
        "0"
    } else if d == 1 {
        "1"
    } else if d == 2 {
        "2"
    } else if d == 3 {
        "3"
    } else if d == 4 {
        "4"
    } else if d == 5 {
        "5"
    } else if d == 6 {
        "6"
    } else if d == 7 {
        "7"
    } else if d == 8 {
        "8"
    } else {
        "9"
    };
    assert(text@ =~= seq![digit_char(d as int)]);
    text
}

fn render_natural(n: u32) -> (text: String)
    ensures
        text@ == decimal_digits(n as nat),
    decreases n,
{
    if n < 10 {
        digit_text(n).to_owned()
    } else {
        let mut text = render_natural(n / 10);
        text.append(digit_text(n % 10));
        assert(text@ =~= decimal_digits(n as nat));
        text
    }
}

/// Writes an integer in decimal.
pub fn render_decimal(n: i32) -> (text: String)
    ensures
        text@ == decimal(n as int),
{
    if n < 0 {
        let magnitude: u32 = if n == i32::MIN {
            2147483648u32
        } else {
            (-n) as u32
        };
        proof {
            reveal_strlit("-");
        }
        let mut text = "-".to_owned();
        let digits = render_natural(magnitude);
        text.append(digits.as_str());
        assert(text@ =~= decimal(n as int));
        text
    } else {
        render_natural(n as u32)
    }
}

/// The parts written one after another, with the separator between
/// neighbours.
pub open spec fn joined(parts: Seq<Seq<char>>, separator: Seq<char>) -> Seq<char>
    decreases parts.len(),
{
    if parts.len() == 0 {
        Seq::empty()
    } else if parts.len() == 1 {
        parts[0]
    } else {
        joined(parts.drop_last(), separator) + separator + parts.last()
    }
}

/// The views of a list of texts.
pub open spec fn texts(parts: Seq<String>) -> Seq<Seq<char>> {
    parts.map_values(|p: String| p@)
}

/// Joins the parts with the separator between neighbours.
pub fn join(parts: &Vec<String>, separator: &str) -> (text: String)
    ensures
        text@ == joined(texts(parts@), separator@),
{
    let mut text = String::new();
    let mut i: usize = 0;
    while i < parts.len()
        invariant
            i <= parts.len(),
            text@ == joined(texts(parts@).subrange(0, i as int), separator@),
        decreases parts.len() - i,
    {
        if i > 0 {
            text.append(separator);
        }
        text.append(parts[i].as_str());
        proof {
            let before = texts(parts@).subrange(0, i as int);
            let after = texts(parts@).subrange(0, i + 1);
            assert(after.drop_last() =~= before);
            assert(after.last() == parts@[i as int]@);
            assert(text@ =~= joined(after, separator@));
        }
        i += 1;
    }
    assert(texts(parts@).subrange(0, parts.len() as int) =~= texts(parts@));
    text
}

/// The index of the first occurrence of `x` in `s`, looking from `start` on.
pub open spec fn first_at<T>(s: Seq<T>, x: T, start: int) -> Option<int>
    decreases s.len() - start,
{
    if start < 0 || start >= s.len() {
        None
    } else if s[start] == x {
        Some(start)
    } else {
        first_at(s, x, start + 1)
    }
}

/// The sequence without any occurrence of `x`, the rest in order.
pub open spec fn without<T>(s: Seq<T>, x: T) -> Seq<T>
    decreases s.len(),
{
    if s.len() == 0 {
        s
    } else if s.last() == x {
        without(s.drop_last(), x)
    } else {
        without(s.drop_last(), x).push(s.last())
    }
}

/// How many times `x` occurs in `s`.
pub open spec fn occurrences<T>(s: Seq<T>, x: T) -> nat
    decreases s.len(),
{
    if s.len() == 0 {
        0
    } else if s.last() == x {
        occurrences(s.drop_last(), x) + 1
    } else {
        occurrences(s.drop_last(), x)
    }
}

/// What `first_at` finds is an occurrence, and the first one from `start` on.
pub proof fn lemma_first_at<T>(s: Seq<T>, x: T, start: int)
    requires
        0 <= start,
    ensures
        first_at(s, x, start) matches Some(i) ==> start <= i < s.len() && s[i] == x && forall|j: int|
            start <= j < i ==> s[j] != x,
        first_at(s, x, start) is None ==> forall|j: int| start <= j < s.len() ==> s[j] != x,
    decreases s.len() - start,
{
    if start < s.len() && s[start] != x {
        lemma_first_at(s, x, start + 1);
    }
}

/// `x` is found from the start on exactly if it occurs at all.
pub proof fn lemma_first_at_contains<T>(s: Seq<T>, x: T)
    ensures
        first_at(s, x, 0) is Some <==> s.contains(x),
{
    lemma_first_at(s, x, 0);
    if s.contains(x) {
        let i = choose|i: int| 0 <= i < s.len() && s[i] == x;
        assert(s[i] == x);
    }
}

/// Counting after one more element was pushed.
pub proof fn lemma_occurrences_push<T>(s: Seq<T>, y: T, x: T)
    ensures
        occurrences(s.push(y), x) == occurrences(s, x) + if y == x {
            1nat
        } else {
            0nat
        },
{
    assert(s.push(y).drop_last() =~= s);
}

/// An element that does not occur is counted zero times, and the other way
/// round.
pub proof fn lemma_occurrences_zero<T>(s: Seq<T>, x: T)
    ensures
        occurrences(s, x) == 0 <==> !s.contains(x),
    decreases s.len(),
{
    if s.len() > 0 {
        lemma_occurrences_zero(s.drop_last(), x);
        if s.contains(x) {
            let i = choose|i: int| 0 <= i < s.len() && s[i] == x;
            if i < s.len() - 1 {
                assert(s.drop_last()[i] == x);
            }
        }
        if s.drop_last().contains(x) {
            let i = choose|i: int| 0 <= i < s.drop_last().len() && s.drop_last()[i] == x;
            assert(s[i] == x);
        }
        if s.last() == x {
            assert(s[s.len() - 1] == x);
        }
    }
}

/// Counting after the element at one index was taken out.
pub proof fn lemma_occurrences_remove<T>(s: Seq<T>, i: int, x: T)
    requires
        0 <= i < s.len(),
    ensures
        occurrences(s.remove(i), x) + (if s[i] == x {
            1nat
        } else {
            0nat
        }) == occurrences(s, x),
    decreases s.len(),
{
    if i == s.len() - 1 {
        assert(s.remove(i) =~= s.drop_last());
    } else {
        lemma_occurrences_remove(s.drop_last(), i, x);
        assert(s.remove(i).drop_last() =~= s.drop_last().remove(i));
        assert(s.remove(i).last() == s.last());
    }
}

/// Counting after every occurrence of one element was taken out.
pub proof fn lemma_occurrences_without<T>(s: Seq<T>, gone: T, x: T)
    ensures
        occurrences(without(s, gone), x) == if x == gone {
            0nat
        } else {
            occurrences(s, x)
        },
    decreases s.len(),
{
    if s.len() > 0 {
        lemma_occurrences_without(s.drop_last(), gone, x);
        if s.last() != gone {
            lemma_occurrences_push(without(s.drop_last(), gone), s.last(), x);
        }
    }
}

/// Whether a character is one of the ten decimal digits.
pub open spec fn is_digit(c: char) -> bool {
    '0' <= c <= '9'
}

/// The number that a decimal digit stands for.
pub open spec fn digit_value(c: char) -> int {
    c as int - '0' as int
}

/// Whether every character is a decimal digit.
pub open spec fn all_digits(s: Seq<char>) -> bool {
    forall|i: int| 0 <= i < s.len() ==> is_digit(#[trigger] s[i])
}

/// The number that a run of decimal digits writes, most significant first.
pub open spec fn digits_value(s: Seq<char>) -> nat
    decreases s.len(),
{
    if s.len() == 0 {
        0
    } else {
        (digits_value(s.drop_last()) * 10 + digit_value(s.last())) as nat
    }
}

/// The integer that a text writes in decimal, if it writes one within
/// `min..=max`: an optional sign (`+`, or `-` where `signed`), then one or
/// more digits and nothing else.
pub open spec fn parse_integer(s: Seq<char>, signed: bool, min: int, max: int) -> Option<int> {
    let negative = signed && s.len() > 0 && s[0] == '-';
    let body = if s.len() > 0 && (s[0] == '+' || negative) {
        s.skip(1)
    } else {
        s
    };
    let value = if negative {
        -(digits_value(body) as int)
    } else {
        digits_value(body) as int
    };
    if body.len() == 0 || !all_digits(body) || value < min || value > max {
        None
    } else {
        Some(value)
    }
}

/// Reads the integer that the characters from `start` on write in decimal.
pub(crate) fn parse_decimal(chars: &Vec<char>, start: usize, signed: bool, min: i32, max: i32) -> (parsed:
    Option<i32>)
    requires
        start <= chars.len(),
        -100000 <= min <= max <= 100000,
    ensures
        parse_integer(chars@.skip(start as int), signed, min as int, max as int) == (match parsed {
            Some(v) => Some(v as int),
            None => None,
        }),
{
    let ghost s = chars@.skip(start as int);
    let n = chars.len();
    let mut negative = false;
    let mut first = start;
    if start < n {
        if chars[start] == '+' {
            first = start + 1;
        } else if signed && chars[start] == '-' {
            negative = true;
            first = start + 1;
        }
    }
    let ghost body = chars@.skip(first as int);
    let ghost expected = parse_integer(s, signed, min as int, max as int);
    assert(body =~= if s.len() > 0 && (s[0] == '+' || negative) {
        s.skip(1)
    } else {
        s
    });
    assert(negative == (signed && s.len() > 0 && s[0] == '-'));
    if first == n {
        return None;
    }
    let mut value: u32 = 0;
    let mut too_large = false;
    let mut i: usize = first;
    while i < n
        invariant
            first <= i <= n,
            n == chars@.len(),
            body == chars@.skip(first as int),
            expected == parse_integer(chars@.skip(start as int), signed, min as int, max as int),
            !all_digits(body) ==> expected is None,
            all_digits(body.subrange(0, i - first)),
            !too_large ==> value == digits_value(body.subrange(0, i - first)) && value <= 100000,
            too_large ==> digits_value(body.subrange(0, i - first)) > 100000,
        decreases n - i,
    {
        let c = chars[i];
        assert(body[i - first] == c);
        if !(c >= '0' && c <= '9') {
            assert(!is_digit(body[i - first]));
            return None;
        }
        proof {
            let before = body.subrange(0, i - first);
            let after = body.subrange(0, i + 1 - first);
            assert(after.drop_last() =~= before);
            assert(after.last() == c);
            assert forall|k: int| 0 <= k < after.len() implies is_digit(#[trigger] after[k]) by {
                if k < before.len() {
                    assert(is_digit(before[k]));
                }
            }
        }
        if !too_large {
            value = value * 10 + (c as u32 - 48);
            if value > 100000 {
                too_large = true;
            }
        }
        i += 1;
    }
    assert(body.subrange(0, n - first) =~= body);
    if too_large {
        return None;
    }
    let signed_value: i32 = if negative {
        -(value as i32)
    } else {
        value as i32
    };
    if signed_value < min || signed_value > max {
        None
    } else {
        Some(signed_value)
    }
}

/// A text without the white space at its two ends.
pub open spec fn trimmed(s: Seq<char>) -> Seq<char>
    decreases s.len(),
{
    if s.len() > 0 && white_space(s[0]) {
        trimmed(s.skip(1))
    } else if s.len() > 0 && white_space(s.last()) {
        trimmed(s.drop_last())
    } else {
        s
    }
}

/// How many characters stand before the first white space of a text.
pub open spec fn run_length(s: Seq<char>) -> nat
    decreases s.len(),
{
    if s.len() == 0 || white_space(s[0]) {
        0
    } else {
        1 + run_length(s.skip(1))
    }
}

/// The words of a text: its maximal runs of characters that are not white
/// space, in order.
pub open spec fn words(s: Seq<char>) -> Seq<Seq<char>>
    decreases s.len(),
{
    if s.len() == 0 {
        Seq::empty()
    } else if white_space(s[0]) {
        words(s.skip(1))
    } else {
        proof {
            lemma_run_length(s);
        }
        seq![s.take(run_length(s) as int)] + words(s.skip(run_length(s) as int))
    }
}

/// A run is no longer than its text.
pub proof fn lemma_run_length(s: Seq<char>)
    ensures
        run_length(s) <= s.len(),
        s.len() > 0 && !white_space(s[0]) ==> run_length(s) >= 1,
    decreases s.len(),
{
    if s.len() > 0 && !white_space(s[0]) {
        lemma_run_length(s.skip(1));
    }
}

/// The text without the white space at its two ends.
pub fn trim(s: &str) -> (inner: &str)
    ensures
        inner@ == trimmed(s@),
{
    let chars = chars_of(s);
    let n = chars.len();
    let mut from: usize = 0;
    assert(s@.subrange(0, n as int) =~= s@);
    while from < n && is_whitespace(chars[from])
        invariant
            from <= n,
            n == s@.len(),
            chars@ == s@,
            trimmed(s@) == trimmed(s@.subrange(from as int, n as int)),
        decreases n - from,
    {
        assert(s@.subrange(from as int, n as int).skip(1) =~= s@.subrange(from + 1, n as int));
        from += 1;
    }
    let mut to: usize = n;
    while to > from && is_whitespace(chars[to - 1])
        invariant
            from <= to <= n,
            n == s@.len(),
            chars@ == s@,
            from < n ==> !white_space(s@[from as int]),
            trimmed(s@) == trimmed(s@.subrange(from as int, to as int)),
        decreases to,
    {
        assert(s@.subrange(from as int, to as int).drop_last() =~= s@.subrange(
            from as int,
            to - 1,
        ));
        to -= 1;
    }
    s.substring_char(from, to)
}

/// The words of a text: its maximal runs of characters that are not white
/// space, in order.
pub fn split_whitespace(s: &str) -> (parts: Vec<String>)
    ensures
        texts(parts@) == words(s@),
{
    let chars = chars_of(s);
    let n = chars.len();
    let mut parts: Vec<String> = Vec::new();
    let mut i: usize = 0;
    assert(s@.skip(0) =~= s@);
    assert(texts(parts@) + words(s@) =~= words(s@));
    while i < n
        invariant
            i <= n,
            n == s@.len(),
            chars@ == s@,
            words(s@) == texts(parts@) + words(s@.skip(i as int)),
        decreases n - i,
    {
        let ghost rest = s@.skip(i as int);
        if is_whitespace(chars[i]) {
            assert(rest.skip(1) =~= s@.skip(i + 1));
            i += 1;
        } else {
            let mut j: usize = i;
            while j < n && !is_whitespace(chars[j])
                invariant
                    i <= j <= n,
                    n == s@.len(),
                    chars@ == s@,
                    run_length(s@.skip(i as int)) == (j - i) + run_length(s@.skip(j as int)),
                decreases n - j,
            {
                assert(s@.skip(j as int).skip(1) =~= s@.skip(j + 1));
                j += 1;
            }
            assert(run_length(rest) == j - i);
            let word = s.substring_char(i, j).to_owned();
            assert(word@ =~= rest.take(run_length(rest) as int));
            assert(rest.skip(run_length(rest) as int) =~= s@.skip(j as int));
            let ghost before = parts@;
            parts.push(word);
            assert(texts(parts@) =~= texts(before) + seq![word@]);
            assert(texts(parts@) + words(s@.skip(j as int)) =~= texts(before) + words(rest));
            i = j;
        }
    }
    assert(words(s@.skip(n as int)) =~= Seq::<Seq<char>>::empty());
    assert(texts(parts@) + words(s@.skip(n as int)) =~= texts(parts@));
    parts
}

} // verus!

//! Taking texts apart: splitting, lines, words, replacing, reading numbers.
use vstd::prelude::*;
use vstd::string::*;

use crate::text;
use crate::text::{chars_of, same, stands_at, white};

verus! {

broadcast use crate::text::views_push;

// ---------------------------------------------------------------------------
// Splitting
// ---------------------------------------------------------------------------

/// The parts of a text between the separators `sep`: always one more than
/// there are separators.
pub open spec fn split(s: Seq<char>, sep: char) -> Seq<Seq<char>>
    decreases s.len(),
{
    if s.len() == 0 {
        seq![Seq::<char>::empty()]
    } else {
        let before = split(s.drop_last(), sep);
        if s.last() == sep {
            before.push(Seq::<char>::empty())
        } else {
            before.drop_last().push(before.last().push(s.last()))
        }
    }
}

/// Splits a text at each separator.
pub fn split_at_each(s: &str, sep: char) -> (r: Vec<String>)
    ensures
        text::views(r@) == split(s@, sep),
        r@.len() > 0,
{
    let chars = chars_of(s);
    let mut parts: Vec<String> = Vec::new();
    let mut part: String = String::new();
    let mut i: usize = 0;
    assert(text::views(parts@).push(part@) =~= split(s@.take(0), sep));
    while i < chars.len()
        invariant
            i <= chars.len(),
            chars@ == s@,
            text::views(parts@).push(part@) == split(s@.take(i as int), sep),
        decreases chars.len() - i,
    {
        let c = chars[i];
        let ghost before = split(s@.take(i as int), sep);
        assert(s@.take(i + 1).drop_last() =~= s@.take(i as int));
        assert(before.drop_last() =~= text::views(parts@));
        if c == sep {
            parts.push(part);
            assert(text::views(parts@) =~= before);
            part = String::new();
        } else {
            part.push(c);
        }
        i = i + 1;
    }
    assert(s@.take(i as int) =~= s@);
    let ghost done = text::views(parts@).push(part@);
    parts.push(part);
    assert(text::views(parts@) =~= done);
    parts
}

/// The text before and after the first `sep`.
pub open spec fn split_first(s: Seq<char>, sep: char) -> Option<(Seq<char>, Seq<char>)>
    decreases s.len(),
{
    if s.len() == 0 {
        None
    } else if s[0] == sep {
        Some((Seq::empty(), s.drop_first()))
    } else {
        match split_first(s.drop_first(), sep) {
            Some((a, b)) => Some((seq![s[0]] + a, b)),
            None => None,
        }
    }
}

proof fn lemma_split_first_at(s: Seq<char>, sep: char, i: int)
    requires
        0 <= i < s.len(),
        s[i] == sep,
        forall|k: int| 0 <= k < i ==> s[k] != sep,
    ensures
        split_first(s, sep) == Some((s.take(i), s.skip(i + 1))),
    decreases i,
{
    if i > 0 {
        lemma_split_first_at(s.drop_first(), sep, i - 1);
        assert(s.take(i) =~= seq![s[0]] + s.drop_first().take(i - 1));
        assert(s.skip(i + 1) =~= s.drop_first().skip(i));
    } else {
        assert(s.take(0) =~= Seq::<char>::empty());
        assert(s.skip(1) =~= s.drop_first());
    }
}

proof fn lemma_split_first_none(s: Seq<char>, sep: char)
    requires
        forall|k: int| 0 <= k < s.len() ==> s[k] != sep,
    ensures
        split_first(s, sep) is None,
    decreases s.len(),
{
    if s.len() > 0 {
        lemma_split_first_none(s.drop_first(), sep);
    }
}

/// A text is what stands before its first separator, the separator, and the rest.
pub proof fn law_split_first_rejoins(s: Seq<char>, sep: char)
    ensures
        split_first(s, sep) matches Some((a, b)) ==> s == a + seq![sep] + b && !a.contains(sep),
    decreases s.len(),
{
    if s.len() > 0 {
        if s[0] == sep {
            assert(s =~= Seq::<char>::empty() + seq![sep] + s.drop_first());
        } else {
            law_split_first_rejoins(s.drop_first(), sep);
            match split_first(s.drop_first(), sep) {
                Some((a, b)) => {
                    let whole = seq![s[0]] + a;
                    assert(s =~= seq![s[0]] + s.drop_first());
                    assert(s =~= whole + seq![sep] + b);
                    assert forall|i: int| 0 <= i < whole.len() implies whole[i] != sep by {
                        if i > 0 {
                            assert(a.contains(a[i - 1]));
                        }
                    }
                },
                None => {},
            }
        }
    }
}

/// A pair of borrowed texts, in characters.
pub open spec fn opt_pair(o: Option<(&str, &str)>) -> Option<(Seq<char>, Seq<char>)> {
    match o {
        Some((a, b)) => Some((a@, b@)),
        None => None,
    }
}

/// Splits a text at the first separator.
pub fn split_once(s: &str, sep: char) -> (r: Option<(&str, &str)>)
    ensures
        opt_pair(r) == split_first(s@, sep),
{
    let chars = chars_of(s);
    let mut i: usize = 0;
    while i < chars.len()
        invariant
            i <= chars.len(),
            chars@ == s@,
            forall|k: int| 0 <= k < i ==> s@[k] != sep,
        decreases chars.len() - i,
    {
        if chars[i] == sep {
            let a = s.substring_char(0, i);
            let b = s.substring_char(i + 1, chars.len());
            proof {
                lemma_split_first_at(s@, sep, i as int);
                assert(a@ =~= s@.take(i as int));
                assert(b@ =~= s@.skip(i + 1));
            }
            return Some((a, b));
        }
        i = i + 1;
    }
    proof {
        lemma_split_first_none(s@, sep);
    }
    None
}

// ---------------------------------------------------------------------------
// Lines
// ---------------------------------------------------------------------------

/// A text without one trailing carriage return.
pub open spec fn without_return(s: Seq<char>) -> Seq<char> {
    if s.len() > 0 && s.last() == '\r' {
        s.drop_last()
    } else {
        s
    }
}

/// Each text of a list without one trailing carriage return.
pub open spec fn chopped(parts: Seq<Seq<char>>) -> Seq<Seq<char>> {
    Seq::new(parts.len(), |i: int| without_return(parts[i]))
}

/// The lines of a text: the parts that a line feed (with a carriage return
/// before it, or without) ends, and what follows the last line feed unless that
/// is empty.
pub open spec fn lines(s: Seq<char>) -> Seq<Seq<char>> {
    let parts = split(s, '\n');
    let ended = chopped(parts.drop_last());
    if parts.last().len() == 0 {
        ended
    } else {
        ended.push(parts.last())
    }
}

fn chop_return(s: &str) -> (r: String)
    ensures
        r@ == without_return(s@),
{
    let n = s.unicode_len();
    if n > 0 && s.get_char(n - 1) == '\r' {
        let part = s.substring_char(0, n - 1);
        assert(part@ =~= s@.drop_last());
        part.to_owned()
    } else {
        s.to_owned()
    }
}

/// The lines of a text.
pub fn lines_of(s: &str) -> (r: Vec<String>)
    ensures
        text::views(r@) == lines(s@),
{
    let parts = split_at_each(s, '\n');
    let n = parts.len();
    let mut out: Vec<String> = Vec::new();
    let ghost all = split(s@, '\n');
    let ghost ended = chopped(all.drop_last());
    let mut i: usize = 0;
    assert(text::views(out@) =~= ended.take(0));
    while i < n - 1
        invariant
            0 < n == parts.len(),
            i <= n - 1,
            text::views(parts@) == all,
            ended == chopped(all.drop_last()),
            text::views(out@) == ended.take(i as int),
        decreases n - i,
    {
        let line = chop_return(parts[i].as_str());
        assert(text::views(parts@)[i as int] == all[i as int]);
        out.push(line);
        assert(text::views(out@) =~= ended.take(i + 1));
        i = i + 1;
    }
    assert(text::views(out@) =~= ended);
    assert(text::views(parts@)[n - 1] == all.last());
    if !parts[n - 1].as_str().is_empty() {
        out.push(parts[n - 1].clone());
        assert(text::views(out@) =~= ended.push(all.last()));
    }
    out
}

// ---------------------------------------------------------------------------
// Words
// ---------------------------------------------------------------------------

/// The words of a text and the unfinished word at its end.
pub open spec fn words_and_rest(s: Seq<char>) -> (Seq<Seq<char>>, Seq<char>)
    decreases s.len(),
{
    if s.len() == 0 {
        (Seq::empty(), Seq::empty())
    } else {
        let (words, rest) = words_and_rest(s.drop_last());
        if !text::is_white(s.last()) {
            (words, rest.push(s.last()))
        } else if rest.len() == 0 {
            (words, rest)
        } else {
            (words.push(rest), Seq::empty())
        }
    }
}

/// The longest runs of characters that are not blank, in order.
pub open spec fn words(s: Seq<char>) -> Seq<Seq<char>> {
    let (words, rest) = words_and_rest(s);
    if rest.len() == 0 {
        words
    } else {
        words.push(rest)
    }
}

/// The words of a text.
pub fn words_of(s: &str) -> (r: Vec<String>)
    ensures
        text::views(r@) == words(s@),
{
    let chars = chars_of(s);
    let mut out: Vec<String> = Vec::new();
    let mut word: String = String::new();
    let mut i: usize = 0;
    assert(text::views(out@) =~= Seq::<Seq<char>>::empty());
    while i < chars.len()
        invariant
            i <= chars.len(),
            chars@ == s@,
            words_and_rest(s@.take(i as int)) == (text::views(out@), word@),
        decreases chars.len() - i,
    {
        let c = chars[i];
        assert(s@.take(i + 1).drop_last() =~= s@.take(i as int));
        if !white(c) {
            word.push(c);
        } else if !word.as_str().is_empty() {
            let ghost before = text::views(out@);
            let ghost last = word@;
            out.push(word);
            assert(text::views(out@) =~= before.push(last));
            word = String::new();
        }
        i = i + 1;
    }
    assert(s@.take(i as int) =~= s@);
    if !word.as_str().is_empty() {
        let ghost before = text::views(out@);
        let ghost last = word@;
        out.push(word);
        assert(text::views(out@) =~= before.push(last));
    }
    out
}

// ---------------------------------------------------------------------------
// Replacing and case
// ---------------------------------------------------------------------------

/// A text in which each occurrence of `from`, leftmost first and without
/// overlap, gives way to `to`.
pub open spec fn replaced(s: Seq<char>, from: Seq<char>, to: Seq<char>) -> Seq<char>
    decreases s.len(),
{
    if from.len() == 0 || s.len() < from.len() {
        s
    } else if text::begins_with(s, from) {
        to + replaced(s.skip(from.len() as int), from, to)
    } else {
        seq![s[0]] + replaced(s.skip(1), from, to)
    }
}

/// Replaces each occurrence of a text that is not empty.
pub fn replace(s: &str, from: &str, to: &str) -> (r: String)
    requires
        from@.len() > 0,
    ensures
        r@ == replaced(s@, from@, to@),
{
    let a = chars_of(s);
    let b = chars_of(from);
    let mut out: String = String::new();
    let mut i: usize = 0;
    assert(out@ + replaced(s@.skip(0), from@, to@) =~= replaced(s@, from@, to@)) by {
        assert(s@.skip(0) =~= s@);
    }
    while i < a.len() && b.len() <= a.len() - i
        invariant
            i <= a.len(),
            a@ == s@,
            b@ == from@,
            from@.len() > 0,
            out@ + replaced(s@.skip(i as int), from@, to@) == replaced(s@, from@, to@),
        decreases a.len() - i,
    {
        let ghost rest = s@.skip(i as int);
        let ghost before = out@;
        if matches_at(&a, &b, i) {
            out.append(to);
            proof {
                assert(rest.skip(from@.len() as int) =~= s@.skip(i + from@.len()));
                assert(out@ + replaced(s@.skip(i + from@.len()), from@, to@) =~= before + replaced(
                    rest,
                    from@,
                    to@,
                ));
            }
            i = i + b.len();
        } else {
            out.push(a[i]);
            proof {
                assert(rest.skip(1) =~= s@.skip(i + 1));
                assert(out@ + replaced(s@.skip(i + 1), from@, to@) =~= before + replaced(
                    rest,
                    from@,
                    to@,
                ));
            }
            i = i + 1;
        }
    }
    let tail = s.substring_char(i, a.len());
    assert(tail@ =~= s@.skip(i as int));
    out.append(tail);
    out
}

fn matches_at(s: &[char], part: &[char], at: usize) -> (r: bool)
    requires
        at <= s@.len(),
    ensures
        r == text::begins_with(s@.skip(at as int), part@),
{
    let r = stands_at(s, part, at);
    proof {
        let rest = s@.skip(at as int);
        if at + part@.len() <= s@.len() {
            assert(rest.subrange(0, part@.len() as int) =~= s@.subrange(
                at as int,
                at + part@.len(),
            ));
        }
    }
    r
}

/// An ASCII letter in lower case; any other character as it is.
pub open spec fn lower_char(c: char) -> char {
    if 'A' <= c <= 'Z' {
        ((c as u32 + 32) as u32) as char
    } else {
        c
    }
}

/// A text with its ASCII letters in lower case.
pub open spec fn lowered(s: Seq<char>) -> Seq<char> {
    s.map_values(|c: char| lower_char(c))
}

/// Turns the ASCII letters of a text into lower case.
pub fn lower(s: &str) -> (r: String)
    ensures
        r@ == lowered(s@),
{
    let chars = chars_of(s);
    let mut out: String = String::new();
    let mut i: usize = 0;
    assert(out@ =~= lowered(s@).take(0));
    while i < chars.len()
        invariant
            i <= chars.len(),
            chars@ == s@,
            out@ == lowered(s@).take(i as int),
        decreases chars.len() - i,
    {
        let c = chars[i];
        let d = if 'A' <= c && c <= 'Z' {
            (c as u8 + 32) as char
        } else {
            c
        };
        out.push(d);
        assert(out@ =~= lowered(s@).take(i + 1));
        i = i + 1;
    }
    assert(lowered(s@).take(i as int) =~= lowered(s@));
    out
}

/// Tells whether two texts are equal but for the case of ASCII letters.
pub fn same_ignoring_case(a: &str, b: &str) -> (r: bool)
    ensures
        r == (lowered(a@) == lowered(b@)),
{
    same(lower(a).as_str(), lower(b).as_str())
}

// ---------------------------------------------------------------------------
// Order and numbers
// ---------------------------------------------------------------------------

/// `a` comes before `b` in the order of their code points.
pub open spec fn comes_before(a: Seq<char>, b: Seq<char>) -> bool
    decreases a.len(),
{
    if b.len() == 0 {
        false
    } else if a.len() == 0 {
        true
    } else if a[0] == b[0] {
        comes_before(a.drop_first(), b.drop_first())
    } else {
        a[0] < b[0]
    }
}

/// Tells whether a text comes before another in the order of code points.
pub fn before(a: &str, b: &str) -> (r: bool)
    ensures
        r == comes_before(a@, b@),
{
    let x = chars_of(a);
    let y = chars_of(b);
    let mut i: usize = 0;
    assert(a@.skip(0) =~= a@);
    assert(b@.skip(0) =~= b@);
    while i < x.len() && i < y.len() && x[i] == y[i]
        invariant
            i <= x.len(),
            i <= y.len(),
            x@ == a@,
            y@ == b@,
            comes_before(a@, b@) == comes_before(a@.skip(i as int), b@.skip(i as int)),
        decreases x.len() - i,
    {
        assert(a@.skip(i as int).drop_first() =~= a@.skip(i + 1));
        assert(b@.skip(i as int).drop_first() =~= b@.skip(i + 1));
        i = i + 1;
    }
    if i >= y.len() {
        false
    } else if i >= x.len() {
        true
    } else {
        x[i] < y[i]
    }
}

/// The order of code points is irreflexive.
pub proof fn lemma_order_irreflexive(a: Seq<char>)
    ensures
        !comes_before(a, a),
    decreases a.len(),
{
    if a.len() > 0 {
        lemma_order_irreflexive(a.drop_first());
    }
}

/// The order of code points is transitive.
pub proof fn lemma_order_transitive(a: Seq<char>, b: Seq<char>, c: Seq<char>)
    requires
        comes_before(a, b),
        comes_before(b, c),
    ensures
        comes_before(a, c),
    decreases a.len(),
{
    if a.len() > 0 && b.len() > 0 && c.len() > 0 && a[0] == b[0] && b[0] == c[0] {
        lemma_order_transitive(a.drop_first(), b.drop_first(), c.drop_first());
    }
}

/// Of two different texts one comes before the other.
pub proof fn lemma_order_total(a: Seq<char>, b: Seq<char>)
    ensures
        a == b || comes_before(a, b) || comes_before(b, a),
    decreases a.len(),
{
    if a.len() > 0 && b.len() > 0 && a[0] == b[0] {
        lemma_order_total(a.drop_first(), b.drop_first());
        if a.drop_first() == b.drop_first() {
            assert(a =~= seq![a[0]] + a.drop_first());
            assert(b =~= seq![b[0]] + b.drop_first());
        }
    } else if a.len() == 0 && b.len() == 0 {
        assert(a =~= b);
    }
}

/// A decimal digit.
pub open spec fn is_digit(c: char) -> bool {
    '0' <= c <= '9'
}

/// The number that a sequence of decimal digits stands for.
pub open spec fn digits_value(s: Seq<char>) -> nat
    decreases s.len(),
{
    if s.len() == 0 {
        0
    } else {
        digits_value(s.drop_last()) * 10 + (s.last() as u32 - '0' as u32) as nat
    }
}

/// The number that a text stands for: decimal digits, at least one, with an
/// optional plus sign before them, and a value of `max` at most.
pub open spec fn number_in(s: Seq<char>, max: nat) -> Option<nat> {
    digits_in(
        if s.len() > 0 && s[0] == '+' {
            s.skip(1)
        } else {
            s
        },
        max,
    )
}

/// The number that decimal digits, at least one, stand for, if it is `max` at
/// most.
pub open spec fn digits_in(digits: Seq<char>, max: nat) -> Option<nat> {
    if digits.len() == 0 || !(forall|i: int| 0 <= i < digits.len() ==> is_digit(#[trigger] digits[i]))
        || digits_value(digits) > max {
        None
    } else {
        Some(digits_value(digits))
    }
}

proof fn lemma_digits_value_grows(s: Seq<char>, n: int)
    requires
        0 <= n <= s.len(),
        forall|i: int| 0 <= i < s.len() ==> is_digit(#[trigger] s[i]),
    ensures
        digits_value(s.take(n)) <= digits_value(s),
    decreases s.len() - n,
{
    if n < s.len() {
        lemma_digits_value_grows(s, n + 1);
        assert(s.take(n + 1).drop_last() =~= s.take(n));
    } else {
        assert(s.take(n) =~= s);
    }
}

/// Reads a number of 255 at most.
pub fn parse_u8(s: &str) -> (r: Option<u8>)
    ensures
        match r {
            Some(n) => number_in(s@, 255) == Some(n as nat),
            None => number_in(s@, 255) is None,
        },
{
    let chars = chars_of(s);
    let start: usize = if chars.len() > 0 && chars[0] == '+' {
        1
    } else {
        0
    };
    let ghost digits = s@.skip(start as int);
    assert(s@.skip(0) =~= s@);
    if start >= chars.len() {
        return None;
    }
    let mut i: usize = start;
    let mut value: u32 = 0;
    while i < chars.len()
        invariant
            start <= i <= chars.len(),
            chars@ == s@,
            digits == s@.skip(start as int),
            number_in(s@, 255) == digits_in(digits, 255),
            forall|k: int| 0 <= k < i - start ==> is_digit(#[trigger] digits[k]),
            value == digits_value(digits.take(i - start)),
            value <= 255,
        decreases chars.len() - i,
    {
        let c = chars[i];
        assert(digits[i - start] == c);
        if !('0' <= c && c <= '9') {
            assert(!is_digit(digits[i - start]));
            return None;
        }
        assert(digits.take(i - start + 1).drop_last() =~= digits.take(i - start));
        value = value * 10 + (c as u32 - '0' as u32);
        if value > 255 {
            proof {
                if forall|k: int| 0 <= k < digits.len() ==> is_digit(#[trigger] digits[k]) {
                    lemma_digits_value_grows(digits, i - start + 1);
                }
            }
            return None;
        }
        i = i + 1;
    }
    assert(digits.take(i - start) =~= digits);
    Some(value as u8)
}

/// Reads a number of 64 bits.
pub fn parse_u64(s: &str) -> (r: Option<u64>)
    ensures
        match r {
            Some(n) => number_in(s@, u64::MAX as nat) == Some(n as nat),
            None => number_in(s@, u64::MAX as nat) is None,
        },
{
    let chars = chars_of(s);
    let start: usize = if chars.len() > 0 && chars[0] == '+' {
        1
    } else {
        0
    };
    let ghost digits = s@.skip(start as int);
    let ghost max = u64::MAX as nat;
    assert(s@.skip(0) =~= s@);
    if start >= chars.len() {
        return None;
    }
    let mut i: usize = start;
    let mut value: u128 = 0;
    while i < chars.len()
        invariant
            start <= i <= chars.len(),
            chars@ == s@,
            max == u64::MAX as nat,
            digits == s@.skip(start as int),
            number_in(s@, max) == digits_in(digits, max),
            forall|k: int| 0 <= k < i - start ==> is_digit(#[trigger] digits[k]),
            value == digits_value(digits.take(i - start)),
            value <= max,
        decreases chars.len() - i,
    {
        let c = chars[i];
        assert(digits[i - start] == c);
        if !('0' <= c && c <= '9') {
            assert(!is_digit(digits[i - start]));
            return None;
        }
        assert(digits.take(i - start + 1).drop_last() =~= digits.take(i - start));
        value = value * 10 + (c as u32 - '0' as u32) as u128;
        if value > u64::MAX as u128 {
            proof {
                if forall|k: int| 0 <= k < digits.len() ==> is_digit(#[trigger] digits[k]) {
                    lemma_digits_value_grows(digits, i - start + 1);
                }
            }
            return None;
        }
        i = i + 1;
    }
    assert(digits.take(i - start) =~= digits);
    Some(value as u64)
}

// ---------------------------------------------------------------------------
// Finding
// ---------------------------------------------------------------------------

/// What follows the first occurrence of a part, from a position on.
pub open spec fn after_first(s: Seq<char>, part: Seq<char>, i: int) -> Option<Seq<char>>
    decreases s.len() - i + 1,
{
    if i > s.len() {
        None
    } else if text::occurs_at(s, part, i) {
        Some(s.skip(i + part.len()))
    } else {
        after_first(s, part, i + 1)
    }
}

/// What follows the first occurrence of a part.
pub fn after_part<'a>(s: &'a str, part: &str) -> (r: Option<&'a str>)
    ensures
        text::opt_str(r) == after_first(s@, part@, 0),
{
    let a = chars_of(s);
    let b = chars_of(part);
    let mut i: usize = 0;
    let mut past = false;
    while !past
        invariant
            a@ == s@,
            b@ == part@,
            i <= a.len(),
            !past ==> after_first(s@, part@, 0) == after_first(s@, part@, i as int),
            past ==> after_first(s@, part@, 0) is None,
        decreases (if past { 0int } else { a.len() - i + 1 }),
    {
        if stands_at(&a, &b, i) {
            let r = s.substring_char(i + b.len(), a.len());
            assert(r@ =~= s@.skip(i + part@.len()));
            return Some(r);
        }
        if i == a.len() {
            assert(after_first(s@, part@, i + 1) is None);
            past = true;
        } else {
            i = i + 1;
        }
    }
    None
}

/// What stands before the first occurrence of a character.
pub open spec fn until(s: Seq<char>, c: char) -> Seq<char> {
    match split_first(s, c) {
        Some((head, _)) => head,
        None => s,
    }
}

/// What stands before the first occurrence of a character.
pub fn until_char(s: &str, c: char) -> (r: &str)
    ensures
        r@ == until(s@, c),
{
    match split_once(s, c) {
        Some((head, _)) => head,
        None => s,
    }
}

} // verus!

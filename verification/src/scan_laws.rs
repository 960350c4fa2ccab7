//! What taking a text apart and changing it come to.
use vstd::prelude::*;
use vstd::string::*;

use crate::compose;
use crate::cron_laws;
use crate::paths;
use crate::scan;
use crate::text;

verus! {

/// A text of blank characters only, character by character.
pub open spec fn all_white(s: Seq<char>) -> bool {
    forall|i: int| 0 <= i < s.len() ==> text::is_white(#[trigger] s[i])
}

/// Spaces, tabulators and the ends of lines are blank; no other printable ASCII character is.
pub proof fn law_blank_characters(c: char)
    ensures
        text::is_white(' '),
        text::is_white('\t'),
        text::is_white('\n'),
        text::is_white('\r'),
        0x21 <= c as u32 <= 0x7e ==> !text::is_white(c),
{
}

/// Trimming leaves what stands between the blank characters at both ends.
pub proof fn law_trimming_leaves_the_middle(before: Seq<char>, core: Seq<char>, after: Seq<char>)
    requires
        all_white(before),
        all_white(after),
        core.len() > 0 ==> !text::is_white(core[0]) && !text::is_white(core.last()),
    ensures
        text::trimmed(before + core + after) == core,
{
    lemma_trim_left(before, core + after);
    assert(before + (core + after) =~= before + core + after);
    if core.len() > 0 {
        assert((core + after)[0] == core[0]);
        lemma_trim_right(core, after);
    } else {
        assert(core + after =~= after);
        lemma_trim_left(after, Seq::empty());
        assert(after + Seq::<char>::empty() =~= after);
        assert(core =~= Seq::empty());
    }
}

proof fn lemma_trim_left(before: Seq<char>, rest: Seq<char>)
    requires
        all_white(before),
    ensures
        text::trim_left(before + rest) == text::trim_left(rest),
    decreases before.len(),
{
    if before.len() == 0 {
        assert(before + rest =~= rest);
    } else {
        assert((before + rest)[0] == before[0]);
        assert((before + rest).drop_first() =~= before.drop_first() + rest);
        lemma_trim_left(before.drop_first(), rest);
    }
}

proof fn lemma_trim_right(front: Seq<char>, after: Seq<char>)
    requires
        all_white(after),
        front.len() > 0,
        !text::is_white(front.last()),
    ensures
        text::trim_right(front + after) == front,
    decreases after.len(),
{
    if after.len() == 0 {
        assert(front + after =~= front);
    } else {
        assert((front + after).last() == after.last());
        assert((front + after).drop_last() =~= front + after.drop_last());
        lemma_trim_right(front, after.drop_last());
    }
}

/// A text without the separator is a single part.
pub proof fn law_text_without_separator_is_one_part(s: Seq<char>, sep: char)
    requires
        !s.contains(sep),
    ensures
        scan::split(s, sep) == seq![s],
    decreases s.len(),
{
    if s.len() > 0 {
        assert(s[s.len() - 1] != sep);
        lemma_contains_front(s, sep);
        law_text_without_separator_is_one_part(s.drop_last(), sep);
        assert(s.drop_last().push(s.last()) =~= s);
        assert(scan::split(s, sep) =~= seq![s]);
    } else {
        assert(s =~= Seq::empty());
    }
}

proof fn lemma_contains_front(s: Seq<char>, c: char)
    requires
        !s.contains(c),
        s.len() > 0,
    ensures
        !s.drop_last().contains(c),
        !s.drop_first().contains(c),
{
    if s.drop_last().contains(c) {
        let i = choose|i: int| 0 <= i < s.drop_last().len() && s.drop_last()[i] == c;
        assert(s[i] == c);
    }
    if s.drop_first().contains(c) {
        let i = choose|i: int| 0 <= i < s.drop_first().len() && s.drop_first()[i] == c;
        assert(s[i + 1] == c);
    }
}

/// The parts of two texts with a separator between them are those of the one and then those
/// of the other.
pub proof fn law_separator_parts(a: Seq<char>, sep: char, b: Seq<char>)
    ensures
        scan::split(a + seq![sep] + b, sep) == scan::split(a, sep) + scan::split(b, sep),
        scan::split(b, sep).len() > 0,
    decreases b.len(),
{
    let s = a + seq![sep] + b;
    if b.len() == 0 {
        assert(s.drop_last() =~= a);
        assert(s.last() == sep);
        assert(scan::split(s, sep) =~= scan::split(a, sep) + scan::split(b, sep));
    } else {
        let front = b.drop_last();
        law_separator_parts(a, sep, front);
        assert(s.drop_last() =~= a + seq![sep] + front);
        assert(s.last() == b.last());
        assert(scan::split(s, sep) =~= scan::split(a, sep) + scan::split(b, sep));
    }
}

/// What stands before the first separator and what stands behind it.
pub proof fn law_first_separator_parts(a: Seq<char>, sep: char, b: Seq<char>)
    requires
        !a.contains(sep),
    ensures
        scan::split_first(a + seq![sep] + b, sep) == Some((a, b)),
        scan::split_first(a, sep) is None,
        scan::until(a + seq![sep] + b, sep) == a,
        scan::until(a, sep) == a,
    decreases a.len(),
{
    let s = a + seq![sep] + b;
    if a.len() == 0 {
        assert(s.drop_first() =~= b);
        assert(a =~= Seq::empty());
    } else {
        lemma_contains_front(a, sep);
        assert(a[0] != sep);
        assert(s.drop_first() =~= a.drop_first() + seq![sep] + b);
        law_first_separator_parts(a.drop_first(), sep, b);
        assert(seq![a[0]] + a.drop_first() =~= a);
    }
}

/// The first line of a text is what stands before the first line feed, without a carriage
/// return at its end, and the other lines are those of the rest.
pub proof fn law_first_line(line: Seq<char>, rest: Seq<char>)
    requires
        !line.contains('\n'),
    ensures
        scan::lines(line + seq!['\n'] + rest) == seq![
            if line.len() > 0 && line.last() == '\r' {
                line.drop_last()
            } else {
                line
            },
        ] + scan::lines(rest),
{
    law_separator_parts(line, '\n', rest);
    law_text_without_separator_is_one_part(line, '\n');
    let parts = scan::split(line + seq!['\n'] + rest, '\n');
    let others = scan::split(rest, '\n');
    assert(parts == seq![line] + others);
    assert(parts.drop_last() =~= seq![line] + others.drop_last());
    assert(parts.last() == others.last());
    assert(scan::chopped(parts.drop_last()) =~= seq![scan::without_return(line)] + scan::chopped(
        others.drop_last(),
    ));
    assert(scan::lines(line + seq!['\n'] + rest) =~= seq![scan::without_return(line)]
        + scan::lines(rest));
}

/// A text without a line feed is a line of its own unless it is empty.
pub proof fn law_last_line(line: Seq<char>)
    requires
        !line.contains('\n'),
    ensures
        line.len() > 0 ==> scan::lines(line) == seq![line],
        line.len() == 0 ==> scan::lines(line).len() == 0,
{
    law_text_without_separator_is_one_part(line, '\n');
    assert(scan::split(line, '\n') == seq![line]);
    assert(scan::lines(line) =~= if line.len() > 0 {
        seq![line]
    } else {
        Seq::empty()
    });
}

/// A text without blank characters is a word of its own unless it is empty.
pub proof fn law_single_word(s: Seq<char>)
    requires
        forall|i: int| 0 <= i < s.len() ==> !text::is_white(#[trigger] s[i]),
    ensures
        s.len() > 0 ==> scan::words(s) == seq![s],
        s.len() == 0 ==> scan::words(s).len() == 0,
{
    lemma_unfinished_word(s);
    assert(Seq::<Seq<char>>::empty().push(s) =~= seq![s]);
}

proof fn lemma_unfinished_word(s: Seq<char>)
    requires
        forall|i: int| 0 <= i < s.len() ==> !text::is_white(#[trigger] s[i]),
    ensures
        scan::words_and_rest(s) == (Seq::<Seq<char>>::empty(), s),
    decreases s.len(),
{
    if s.len() > 0 {
        lemma_unfinished_word(s.drop_last());
        assert(!text::is_white(s[s.len() - 1]));
        assert(s.drop_last().push(s.last()) =~= s);
    } else {
        assert(s =~= Seq::empty());
    }
}

/// The words of two texts with a blank character between them are those of the one and then
/// those of the other.
pub proof fn law_blank_parts_words(a: Seq<char>, c: char, b: Seq<char>)
    requires
        text::is_white(c),
    ensures
        scan::words(a + seq![c] + b) == scan::words(a) + scan::words(b),
{
    lemma_words_go_on(a, c, b);
    assert(scan::words(a + seq![c] + b) =~= scan::words(a) + scan::words(b));
}

proof fn lemma_words_go_on(a: Seq<char>, c: char, b: Seq<char>)
    requires
        text::is_white(c),
    ensures
        scan::words_and_rest(a + seq![c] + b) == (
            scan::words(a) + scan::words_and_rest(b).0,
            scan::words_and_rest(b).1,
        ),
    decreases b.len(),
{
    let s = a + seq![c] + b;
    if b.len() == 0 {
        assert(s.drop_last() =~= a);
        assert(scan::words_and_rest(s).0 =~= scan::words(a) + scan::words_and_rest(b).0);
        assert(scan::words_and_rest(s).1 =~= scan::words_and_rest(b).1);
    } else {
        lemma_words_go_on(a, c, b.drop_last());
        assert(s.drop_last() =~= a + seq![c] + b.drop_last());
        assert(s.last() == b.last());
        assert(scan::words_and_rest(s).0 =~= scan::words(a) + scan::words_and_rest(b).0);
    }
}

/// A text in which nothing is to be replaced stays as it is.
pub proof fn law_nothing_to_replace(s: Seq<char>, from: Seq<char>, to: Seq<char>)
    requires
        !text::occurs_in(s, from),
    ensures
        scan::replaced(s, from, to) == s,
    decreases s.len(),
{
    if from.len() > 0 && s.len() >= from.len() {
        assert(!text::occurs_at(s, from, 0));
        let rest = s.skip(1);
        assert forall|i: int| !text::occurs_at(rest, from, i) by {
            if text::occurs_at(rest, from, i) {
                assert(rest.subrange(i, i + from.len()) =~= s.subrange(i + 1, i + 1 + from.len()));
                assert(text::occurs_at(s, from, i + 1));
            }
        }
        law_nothing_to_replace(rest, from, to);
        assert(seq![s[0]] + rest =~= s);
    }
}

/// The first occurrence gives way, and then it goes on behind it.
pub proof fn law_first_occurrence_is_replaced(
    before: Seq<char>,
    from: Seq<char>,
    after: Seq<char>,
    to: Seq<char>,
)
    requires
        from.len() > 0,
        forall|i: int|
            0 <= i < before.len() ==> !#[trigger] text::occurs_at(before + from + after, from, i),
    ensures
        scan::replaced(before + from + after, from, to) == before + to + scan::replaced(
            after,
            from,
            to,
        ),
    decreases before.len(),
{
    let s = before + from + after;
    if before.len() == 0 {
        assert(s.subrange(0, from.len() as int) =~= from);
        assert(text::occurs_at(s, from, 0));
        assert(s.skip(from.len() as int) =~= after);
        assert(before + to + scan::replaced(after, from, to) =~= to + scan::replaced(
            after,
            from,
            to,
        ));
    } else {
        assert(!text::occurs_at(s, from, 0));
        let rest = before.skip(1);
        assert(s.skip(1) =~= rest + from + after);
        assert forall|i: int| 0 <= i < rest.len() implies !#[trigger] text::occurs_at(
            rest + from + after,
            from,
            i,
        ) by {
            if text::occurs_at(rest + from + after, from, i) {
                assert((rest + from + after).subrange(i, i + from.len()) =~= s.subrange(
                    i + 1,
                    i + 1 + from.len(),
                ));
                assert(text::occurs_at(s, from, i + 1));
            }
        }
        law_first_occurrence_is_replaced(rest, from, after, to);
        assert(seq![s[0]] + (rest + to + scan::replaced(after, from, to)) =~= before + to
            + scan::replaced(after, from, to));
    }
}

/// What follows the first occurrence of a part.
pub proof fn law_after_first_occurrence(before: Seq<char>, part: Seq<char>, after: Seq<char>)
    requires
        forall|i: int|
            0 <= i < before.len() ==> !#[trigger] text::occurs_at(before + part + after, part, i),
    ensures
        scan::after_first(before + part + after, part, 0) == Some(after),
{
    lemma_after_first(before, part, after, 0);
}

proof fn lemma_after_first(before: Seq<char>, part: Seq<char>, after: Seq<char>, i: int)
    requires
        0 <= i <= before.len(),
        forall|i: int|
            0 <= i < before.len() ==> !#[trigger] text::occurs_at(before + part + after, part, i),
    ensures
        scan::after_first(before + part + after, part, i) == Some(after),
    decreases before.len() - i,
{
    let s = before + part + after;
    if i == before.len() {
        assert(s.subrange(i, i + part.len()) =~= part);
        assert(text::occurs_at(s, part, i));
        assert(s.skip(i + part.len()) =~= after);
    } else {
        assert(!text::occurs_at(s, part, i));
        lemma_after_first(before, part, after, i + 1);
    }
}

/// Nothing follows a part that does not occur.
pub proof fn law_nothing_follows(s: Seq<char>, part: Seq<char>, i: int)
    requires
        0 <= i,
        !text::occurs_in(s, part),
    ensures
        scan::after_first(s, part, i) is None,
    decreases s.len() - i + 1,
{
    if i <= s.len() {
        assert(!text::occurs_at(s, part, i));
        law_nothing_follows(s, part, i + 1);
    }
}

/// In lower case a capital letter of ASCII gives way to the letter that comes 32 places later,
/// and every other character stays.
pub proof fn law_lower_case(s: Seq<char>, i: int)
    requires
        0 <= i < s.len(),
    ensures
        scan::lowered(s).len() == s.len(),
        0x41 <= s[i] as u32 <= 0x5a ==> scan::lowered(s)[i] as u32 == s[i] as u32 + 32,
        !(0x41 <= s[i] as u32 <= 0x5a) ==> scan::lowered(s)[i] == s[i],
{
}

/// A text begins with another where something can be written behind that to give it, and
/// ends with one where something can be written before it.
pub proof fn law_ends_of_a_text(s: Seq<char>, part: Seq<char>, rest: Seq<char>)
    ensures
        s == part + rest ==> text::begins_with(s, part) && text::after_prefix(s, part) == Some(
            rest,
        ),
        s == rest + part ==> text::finishes_with(s, part),
        text::begins_with(s, part) ==> s == part + s.skip(part.len() as int),
        !text::begins_with(s, part) ==> text::after_prefix(s, part) is None,
        text::finishes_with(s, part) ==> s == s.take(s.len() - part.len()) + part,
{
    if s == part + rest {
        assert(s.subrange(0, part.len() as int) =~= part);
        assert(s.skip(part.len() as int) =~= rest);
    }
    if s == rest + part {
        assert(s.subrange(s.len() - part.len(), s.len() as int) =~= part);
    }
    if text::begins_with(s, part) {
        assert(s =~= s.subrange(0, part.len() as int) + s.skip(part.len() as int));
    }
    if text::finishes_with(s, part) {
        assert(s =~= s.take(s.len() - part.len()) + s.subrange(
            s.len() - part.len(),
            s.len() as int,
        ));
    }
}

/// The first characters of a text are as many as are asked for, where there are so many.
pub proof fn law_first_characters(s: Seq<char>, n: nat)
    ensures
        n <= s.len() ==> text::first_chars(s, n as int) == s.take(n as int),
        s.len() <= n ==> text::first_chars(s, n as int) == s,
{
    assert(s.take(s.len() as int) =~= s);
}

/// A name of a file: one part of a path that leads somewhere.
pub open spec fn is_name(name: Seq<char>) -> bool {
    name.len() > 0 && !name.contains('/') && name != "."@ && name != ".."@
}

/// A path leads to the name behind its last slash, and to the same with a slash behind it.
pub proof fn law_path_leads_to_its_name(dir: Seq<char>, name: Seq<char>)
    requires
        is_name(name),
    ensures
        paths::file_name(name) == Some(name),
        paths::file_name(dir + "/"@ + name) == Some(name),
        paths::file_name(dir + "/"@ + name + "/"@) == Some(name),
{
    reveal_strlit("/");
    assert("/"@ =~= seq!['/']);
    law_text_without_separator_is_one_part(name, '/');
    law_separator_parts(dir, '/', name);
    let parts = scan::split(dir + seq!['/'] + name, '/');
    assert(parts.last() == name);
    law_separator_parts(dir + seq!['/'] + name, '/', Seq::empty());
    assert(dir + seq!['/'] + name + seq!['/'] + Seq::<char>::empty() =~= dir + seq!['/'] + name
        + seq!['/']);
    law_text_without_separator_is_one_part(Seq::empty(), '/');
    let more = scan::split(dir + seq!['/'] + name + seq!['/'], '/');
    assert(more.last().len() == 0);
    assert(more.drop_last() =~= parts);
}

/// A name below a directory stands behind it with one slash between them.
pub proof fn law_name_below_a_directory(dir: Seq<char>, name: Seq<char>)
    requires
        is_name(name),
    ensures
        dir.len() > 0 && dir.last() != '/' ==> paths::below(dir, name) == dir + "/"@ + name,
        dir.len() > 0 && dir.last() == '/' ==> paths::below(dir, name) == dir + name,
        dir.len() == 0 ==> paths::below(dir, name) == name,
{
    reveal_strlit("/");
    if text::begins_with(name, "/"@) {
        assert(name.subrange(0, 1)[0] == '/');
        assert(name[0] == '/');
    }
    if dir.len() > 0 {
        let at = dir.len() - 1;
        assert(dir.subrange(at, at + 1) =~= seq![dir.last()]);
        assert("/"@ =~= seq!['/']);
        if dir.last() != '/' && text::finishes_with(dir, "/"@) {
            assert(seq![dir.last()][0] == seq!['/'][0]);
        }
    } else {
        assert(dir + name =~= name);
    }
}

/// The parts of a text with the separator between them give the text again.
pub proof fn law_parts_rejoin(s: Seq<char>, sep: char)
    ensures
        scan::split(s, sep).len() > 0,
        compose::joined(scan::split(s, sep), seq![sep]) == s,
    decreases s.len(),
{
    reveal_with_fuel(compose::joined, 2);
    let between = seq![sep];
    if s.len() == 0 {
        assert(compose::joined(scan::split(s, sep), between) =~= s);
    } else {
        let front = s.drop_last();
        law_parts_rejoin(front, sep);
        let before = scan::split(front, sep);
        let parts = scan::split(s, sep);
        assert(s =~= front.push(s.last()));
        if s.last() == sep {
            assert(parts.drop_last() =~= before);
            assert(compose::joined(parts, between) =~= s);
        } else {
            assert(parts.drop_last() =~= before.drop_last());
            assert(compose::joined(parts, between) =~= s);
        }
    }
}

/// The directory of a path is what stands before the slash of its name.
pub proof fn law_directory_of_a_path(
    dir: Seq<char>,
    name: Seq<char>,
    above: Seq<char>,
    last: Seq<char>,
)
    requires
        is_name(name),
        is_name(last),
        dir == last || dir == above + "/"@ + last,
    ensures
        paths::parent(dir + "/"@ + name) == Some(dir),
        paths::parent("/"@ + name) == Some("/"@),
        paths::parent(name) == Some(""@),
{
    reveal_strlit("/");
    reveal_strlit("");
    reveal_with_fuel(paths::last_counting, 3);
    assert("/"@ =~= seq!['/']);
    assert(""@ =~= Seq::<char>::empty());
    law_text_without_separator_is_one_part(name, '/');
    law_text_without_separator_is_one_part(last, '/');
    law_text_without_separator_is_one_part(Seq::empty(), '/');
    law_separator_parts(above, '/', last);
    law_separator_parts(dir, '/', name);
    law_separator_parts(Seq::empty(), '/', name);
    law_parts_rejoin(dir, '/');
    let ups = scan::split(dir, '/');
    let parts = scan::split(dir + "/"@ + name, '/');
    assert(parts == ups + seq![name]);
    assert(ups.last() == last);
    let k = parts.len() - 1;
    assert(parts[k] == name);
    assert(paths::counts(parts, k));
    assert(parts[k - 1] == last);
    assert(paths::counts(parts, k - 1));
    assert(parts.take(k) =~= ups);
    assert(Seq::<char>::empty() + seq!['/'] + name =~= "/"@ + name);
    let root = scan::split("/"@ + name, '/');
    assert(root == seq![Seq::<char>::empty()] + seq![name]);
    assert(root[0].len() == 0 && root[1] == name);
    assert(paths::counts(root, 1));
    assert(!paths::counts(root, 0));
    let own = scan::split(name, '/');
    assert(own[0] == name);
    assert(paths::counts(own, 0));
}

/// The decimal notation of a number is read as that number, with a plus sign before it or
/// without, where it is not too large.
pub proof fn law_number_of_a_text(n: nat, max: nat)
    ensures
        n <= max ==> scan::number_in(compose::decimal(n), max) == Some(n),
        n <= max ==> scan::number_in(seq!['+'] + compose::decimal(n), max) == Some(n),
        n > max ==> scan::number_in(compose::decimal(n), max) is None,
{
    cron_laws::law_decimal_is_read_back(n);
    let s = compose::decimal(n);
    assert(scan::is_digit(s[0]));
    assert((seq!['+'] + s).skip(1) =~= s);
}

/// A text that is empty, or that holds anything but digits behind its sign, is no number.
pub proof fn law_no_number(s: Seq<char>, max: nat, i: int)
    ensures
        s.len() == 0 ==> scan::number_in(s, max) is None,
        1 <= i < s.len() && !scan::is_digit(s[i]) ==> scan::number_in(s, max) is None,
        s.len() > 0 && s[0] != '+' && !scan::is_digit(s[0]) ==> scan::number_in(s, max) is None,
{
    if 1 <= i < s.len() && !scan::is_digit(s[i]) {
        assert(s.skip(1)[i - 1] == s[i]);
    }
}

/// A part occurs in a text exactly where the text is something, the part, and something else.
pub proof fn law_part_of_a_text(s: Seq<char>, before: Seq<char>, part: Seq<char>, after: Seq<char>)
    ensures
        s == before + part + after ==> text::occurs_in(s, part),
        text::occurs_in(s, part) ==> exists|i: int|
            0 <= i <= s.len() && s == #[trigger] s.take(i) + part + s.skip(i + part.len()),
{
    if s == before + part + after {
        let i = before.len() as int;
        assert(s.subrange(i, i + part.len()) =~= part);
        assert(text::occurs_at(s, part, i));
    }
    if text::occurs_in(s, part) {
        let i = choose|i: int| #[trigger] text::occurs_at(s, part, i);
        assert(s =~= s.take(i) + s.subrange(i, i + part.len()) + s.skip(i + part.len()));
    }
}

/// The decimal notation of a number below ten is its digit, and that of any other has the digit
/// of its ones behind the notation of its tens.
pub proof fn law_decimal_notation(tens: nat, ones: nat)
    requires
        ones < 10,
    ensures
        compose::decimal(ones) == seq![((48 + ones) as u8) as char],
        tens > 0 ==> compose::decimal(10 * tens + ones) == compose::decimal(tens).push(
            ((48 + ones) as u8) as char,
        ),
{
    if tens > 0 {
        assert((10 * tens + ones) / 10 == tens);
        assert((10 * tens + ones) % 10 == ones);
    }
}

/// Of two texts the one comes first that has the smaller character at the first place where
/// they differ; a text comes before those that go on behind it.
pub proof fn law_order_of_texts(front: Seq<char>, a: Seq<char>, b: Seq<char>)
    ensures
        a.len() > 0 && b.len() > 0 && a[0] != b[0] ==> scan::comes_before(front + a, front + b) == (
        a[0] < b[0]),
        b.len() > 0 ==> scan::comes_before(front, front + b),
        !scan::comes_before(front + b, front),
    decreases front.len(),
{
    if front.len() == 0 {
        assert(front + a =~= a);
        assert(front + b =~= b);
        assert(front =~= Seq::empty());
    } else {
        let rest = front.drop_first();
        law_order_of_texts(rest, a, b);
        assert((front + a).drop_first() =~= rest + a);
        assert((front + b).drop_first() =~= rest + b);
    }
}

/// Texts are joined with the separator between two of them and nowhere else.
pub proof fn law_joined_texts(parts: Seq<Seq<char>>, part: Seq<char>, sep: Seq<char>)
    ensures
        compose::joined(Seq::empty(), sep).len() == 0,
        compose::joined(seq![part], sep) == part,
        parts.len() > 0 ==> compose::joined(parts.push(part), sep) == compose::joined(parts, sep)
            + sep + part,
{
    assert(parts.push(part).drop_last() =~= parts);
}

} // verus!

//! Patterns in which a star stands for any characters.
use vstd::prelude::*;

use crate::text::chars_of;

verus! {

/// A value fits a pattern: a star stands for any characters, none among them,
/// and every other character for itself.
pub open spec fn fits(pattern: Seq<char>, value: Seq<char>) -> bool
    decreases pattern.len(), value.len(),
{
    if pattern.len() == 0 {
        value.len() == 0
    } else if pattern[0] == '*' {
        fits(pattern.skip(1), value) || (value.len() > 0 && fits(pattern, value.skip(1)))
    } else {
        value.len() > 0 && pattern[0] == value[0] && fits(pattern.skip(1), value.skip(1))
    }
}

/// Which ends of a value fit the end of a pattern: `row` tells it of the ends
/// that are not empty, by where they begin, and `end` of the empty one.
struct Row {
    row: Vec<bool>,
    end: bool,
}

impl Row {
    /// The end of the pattern begins at `i`, and the ends of the value that begin
    /// in `from..to` are meant.
    spec fn tells(&self, pattern: Seq<char>, value: Seq<char>, i: int, from: int, to: int) -> bool {
        &&& self.row@.len() == value.len()
        &&& forall|j: int|
            from <= j < to ==> #[trigger] self.row@[j] == fits(pattern.skip(i), value.skip(j))
    }
}

proof fn lemma_step(pattern: Seq<char>, value: Seq<char>, i: int, j: int)
    requires
        0 <= i < pattern.len(),
        0 <= j <= value.len(),
    ensures
        fits(pattern.skip(i), value.skip(j)) == (if pattern[i] == '*' {
            fits(pattern.skip(i + 1), value.skip(j)) || (j < value.len() && fits(
                pattern.skip(i),
                value.skip(j + 1),
            ))
        } else {
            j < value.len() && pattern[i] == value[j] && fits(
                pattern.skip(i + 1),
                value.skip(j + 1),
            )
        }),
{
    let p = pattern.skip(i);
    let v = value.skip(j);
    assert(p.skip(1) =~= pattern.skip(i + 1));
    assert(p[0] == pattern[i]);
    if j < value.len() {
        assert(v.skip(1) =~= value.skip(j + 1));
        assert(v[0] == value[j]);
    }
}

impl Row {
    fn step_star(&mut self, pattern: &Vec<char>, value: &Vec<char>, i: usize)
        requires
            i < pattern@.len(),
            pattern@[i as int] == '*',
            old(self).tells(pattern@, value@, i + 1, 0, value@.len() as int),
            old(self).end == fits(pattern@.skip(i + 1), value@.skip(value@.len() as int)),
        ensures
            final(self).tells(pattern@, value@, i as int, 0, value@.len() as int),
            final(self).end == fits(pattern@.skip(i as int), value@.skip(value@.len() as int)),
    {
        let n = value.len();
        proof {
            lemma_step(pattern@, value@, i as int, n as int);
        }
        let mut j: usize = n;
        while j > 0
            invariant
                j <= n == value@.len(),
                i < pattern@.len(),
                pattern@[i as int] == '*',
                self.end == fits(pattern@.skip(i as int), value@.skip(n as int)),
                self.tells(pattern@, value@, i + 1, 0, j as int),
                self.tells(pattern@, value@, i as int, j as int, n as int),
            decreases j,
        {
            let at = j - 1;
            proof {
                lemma_step(pattern@, value@, i as int, at as int);
            }
            let next = if j < n {
                self.row[j]
            } else {
                self.end
            };
            let here = self.row[at] || next;
            self.row[at] = here;
            j = at;
        }
    }

    fn step_char(&mut self, pattern: &Vec<char>, value: &Vec<char>, i: usize)
        requires
            i < pattern@.len(),
            pattern@[i as int] != '*',
            old(self).tells(pattern@, value@, i + 1, 0, value@.len() as int),
            old(self).end == fits(pattern@.skip(i + 1), value@.skip(value@.len() as int)),
        ensures
            final(self).tells(pattern@, value@, i as int, 0, value@.len() as int),
            final(self).end == fits(pattern@.skip(i as int), value@.skip(value@.len() as int)),
    {
        let n = value.len();
        let mut j: usize = 0;
        while j < n
            invariant
                j <= n == value@.len(),
                i < pattern@.len(),
                pattern@[i as int] != '*',
                self.end == fits(pattern@.skip(i + 1), value@.skip(n as int)),
                self.tells(pattern@, value@, i as int, 0, j as int),
                self.tells(pattern@, value@, i + 1, j as int, n as int),
            decreases n - j,
        {
            proof {
                lemma_step(pattern@, value@, i as int, j as int);
            }
            let next = if j + 1 < n {
                self.row[j + 1]
            } else {
                self.end
            };
            let here = pattern[i] == value[j] && next;
            self.row[j] = here;
            j = j + 1;
        }
        proof {
            lemma_step(pattern@, value@, i as int, n as int);
        }
        self.end = false;
    }
}

/// Tells whether a value fits a pattern.
pub fn glob_match(pattern: &str, value: &str) -> (r: bool)
    ensures
        r == fits(pattern@, value@),
{
    let p = chars_of(pattern);
    let v = chars_of(value);
    let n = v.len();
    let mut table = Row { row: Vec::new(), end: true };
    let mut k: usize = 0;
    while k < n
        invariant
            k <= n,
            table.row@.len() == k,
            table.end,
            forall|j: int| 0 <= j < k ==> !#[trigger] table.row@[j],
        decreases n - k,
    {
        table.row.push(false);
        k = k + 1;
    }
    let mut i: usize = p.len();
    while i > 0
        invariant
            i <= p.len(),
            p@ == pattern@,
            v@ == value@,
            table.tells(p@, v@, i as int, 0, v@.len() as int),
            table.end == fits(p@.skip(i as int), v@.skip(v@.len() as int)),
        decreases i,
    {
        i = i - 1;
        if p[i] == '*' {
            table.step_star(&p, &v, i);
        } else {
            table.step_char(&p, &v, i);
        }
    }
    assert(p@.skip(0) =~= pattern@);
    assert(v@.skip(0) =~= value@);
    if n == 0 {
        table.end
    } else {
        table.row[0]
    }
}

/// A pattern without a star fits itself only.
pub proof fn law_plain_pattern_fits_itself(pattern: Seq<char>, value: Seq<char>)
    requires
        !pattern.contains('*'),
    ensures
        fits(pattern, value) == (pattern == value),
    decreases pattern.len(),
{
    if pattern.len() > 0 {
        assert(pattern[0] != '*');
        if value.len() > 0 {
            let p = pattern.skip(1);
            assert forall|i: int| 0 <= i < p.len() implies p[i] != '*' by {
                assert(p[i] == pattern[i + 1]);
            }
            law_plain_pattern_fits_itself(p, value.skip(1));
            assert(pattern =~= seq![pattern[0]] + p);
            assert(value =~= seq![value[0]] + value.skip(1));
        }
    } else if value.len() == 0 {
        assert(pattern =~= value);
    }
}

/// A star alone fits everything.
pub proof fn law_star_fits_everything(value: Seq<char>)
    ensures
        fits(seq!['*'], value),
    decreases value.len(),
{
    let star = seq!['*'];
    assert(star.skip(1) =~= Seq::<char>::empty());
    if value.len() > 0 {
        law_star_fits_everything(value.skip(1));
    } else {
        assert(fits(Seq::<char>::empty(), value));
    }
}

/// A pattern that ends with its only star fits what begins with the rest.
pub proof fn law_prefix_pattern(prefix: Seq<char>, value: Seq<char>)
    requires
        !prefix.contains('*'),
    ensures
        fits(prefix.push('*'), value) == (prefix.len() <= value.len() && value.take(
            prefix.len() as int,
        ) == prefix),
    decreases prefix.len(),
{
    let pattern = prefix.push('*');
    if prefix.len() == 0 {
        assert(pattern =~= seq!['*']);
        law_star_fits_everything(value);
        assert(value.take(0) =~= prefix);
    } else {
        assert(pattern[0] == prefix[0]);
        assert(prefix[0] != '*');
        assert(pattern.skip(1) =~= prefix.skip(1).push('*'));
        if value.len() > 0 {
            let p = prefix.skip(1);
            assert forall|i: int| 0 <= i < p.len() implies p[i] != '*' by {
                assert(p[i] == prefix[i + 1]);
            }
            law_prefix_pattern(p, value.skip(1));
            assert(prefix =~= seq![prefix[0]] + p);
            if prefix.len() <= value.len() {
                assert(value.take(prefix.len() as int) =~= seq![value[0]] + value.skip(1).take(
                    p.len() as int,
                ));
                assert(value.take(prefix.len() as int).skip(1) =~= value.skip(1).take(
                    p.len() as int,
                ));
            }
        }
    }
}

} // verus!

//! What is written for the lines of one source, as a function of the
//! options and the lines alone.
//!
//! A line is its text without the newline that ends it, and a blank line is
//! a line of length zero. Squeezing decides which lines are kept; numbering
//! decides how each kept line is written.

use crate::config::ConfigView;
use crate::numbering::numbered;
use vstd::prelude::*;

verus! {

/// Line `i` is an empty line that directly follows another empty line.
pub open spec fn repeats_blank(lines: Seq<Seq<char>>, i: int) -> bool {
    &&& 0 < i < lines.len()
    &&& lines[i].len() == 0
    &&& lines[i - 1].len() == 0
}

/// `lines` without the empty lines that directly follow an empty line.
pub open spec fn squeezed(lines: Seq<Seq<char>>) -> Seq<Seq<char>>
    decreases lines.len(),
{
    if lines.len() == 0 {
        lines
    } else if repeats_blank(lines, lines.len() - 1) {
        squeezed(lines.drop_last())
    } else {
        squeezed(lines.drop_last()).push(lines.last())
    }
}

/// How many of the first `i` lines squeezing keeps: the place of line `i`
/// among the kept lines, if it is kept itself.
pub open spec fn kept_before(lines: Seq<Seq<char>>, i: int) -> nat
    decreases i,
{
    if i <= 0 {
        0
    } else if repeats_blank(lines, i - 1) {
        kept_before(lines, i - 1)
    } else {
        kept_before(lines, i - 1) + 1
    }
}

/// How many of `lines` are not empty.
pub open spec fn nonblank_count(lines: Seq<Seq<char>>) -> nat
    decreases lines.len(),
{
    if lines.len() == 0 {
        0
    } else if lines.last().len() == 0 {
        nonblank_count(lines.drop_last())
    } else {
        nonblank_count(lines.drop_last()) + 1
    }
}

/// The lines of a source that are written at all, in order.
pub open spec fn kept(config: ConfigView, lines: Seq<Seq<char>>) -> Seq<Seq<char>> {
    if config.squeeze_blank_lines {
        squeezed(lines)
    } else {
        lines
    }
}

/// Whether `line` is written with a number in front of it. Numbering every
/// line comes first where both ways of numbering are set.
pub open spec fn shows_number(config: ConfigView, line: Seq<char>) -> bool {
    config.number_lines || (config.number_nonblank_lines && line.len() > 0)
}

/// The number of line `i` of the kept lines `lines`: its place, counted
/// from one, among all of them or among those that are not empty.
pub open spec fn line_number(config: ConfigView, lines: Seq<Seq<char>>, i: int) -> nat {
    if config.number_lines {
        (i + 1) as nat
    } else {
        nonblank_count(lines.take(i + 1))
    }
}

/// How line `i` of the kept lines `lines` is written.
pub open spec fn written(config: ConfigView, lines: Seq<Seq<char>>, i: int) -> Seq<char> {
    if shows_number(config, lines[i]) {
        numbered(line_number(config, lines, i), lines[i])
    } else {
        lines[i]
    }
}

/// Everything that is written for a source that holds `lines`.
pub open spec fn emitted(config: ConfigView, lines: Seq<Seq<char>>) -> Seq<Seq<char>> {
    let shown = kept(config, lines);
    Seq::new(shown.len(), |i: int| written(config, shown, i))
}

/// No two lines in a row are both empty.
pub open spec fn no_blank_pair(lines: Seq<Seq<char>>) -> bool {
    forall|j: int, k: int|
        0 <= j && k == j + 1 && k < lines.len() ==> !((#[trigger] lines[j]).len() == 0
            && (#[trigger] lines[k]).len() == 0)
}

/// Whether a line is kept depends on it and on the line before it, so its
/// place among the kept lines is the same in every longer source.
pub proof fn lemma_kept_before_prefix(lines: Seq<Seq<char>>, n: int, i: int)
    requires
        0 <= i <= n <= lines.len(),
    ensures
        kept_before(lines.take(n), i) == kept_before(lines, i),
    decreases i,
{
    if i > 0 {
        lemma_kept_before_prefix(lines, n, i - 1);
    }
}

/// Squeezing keeps as many lines as are not an empty line directly after an
/// empty line, and each of these at its place among them.
pub proof fn lemma_squeezed_places(lines: Seq<Seq<char>>)
    ensures
        squeezed(lines).len() == kept_before(lines, lines.len() as int),
        squeezed(lines).len() <= lines.len(),
        forall|i: int|
            #![trigger kept_before(lines, i)]
            0 <= i < lines.len() && !repeats_blank(lines, i) ==> {
                &&& kept_before(lines, i) < squeezed(lines).len()
                &&& squeezed(lines)[kept_before(lines, i) as int] == lines[i]
            },
    decreases lines.len(),
{
    if lines.len() > 0 {
        let before = lines.drop_last();
        let last = lines.len() - 1;
        lemma_squeezed_places(before);
        lemma_kept_before_prefix(lines, last, last);
        assert forall|i: int|
            #![trigger kept_before(lines, i)]
            0 <= i < lines.len() && !repeats_blank(lines, i) implies {
            &&& kept_before(lines, i) < squeezed(lines).len()
            &&& squeezed(lines)[kept_before(lines, i) as int] == lines[i]
        } by {
            if i < last {
                lemma_kept_before_prefix(lines, last, i);
            }
        }
    }
}

/// Where there is a line at all, squeezing keeps one, and the last kept
/// line is empty exactly where the last line is.
pub proof fn lemma_squeezed_last(lines: Seq<Seq<char>>)
    requires
        lines.len() > 0,
    ensures
        squeezed(lines).len() > 0,
        (squeezed(lines).last().len() == 0) == (lines.last().len() == 0),
    decreases lines.len(),
{
    if lines.len() > 1 {
        lemma_squeezed_last(lines.drop_last());
    }
}

/// Squeezing leaves no two lines in a row that are both empty.
pub proof fn lemma_squeezed_no_blank_pair(lines: Seq<Seq<char>>)
    ensures
        no_blank_pair(squeezed(lines)),
    decreases lines.len(),
{
    if lines.len() > 0 {
        let before = lines.drop_last();
        lemma_squeezed_no_blank_pair(before);
        if before.len() > 0 {
            lemma_squeezed_last(before);
        }
    }
}

} // verus!

//! What holds of every run, whatever the sources give.

use crate::config::ConfigView;
use crate::lines::{
    emitted, kept, kept_before, lemma_squeezed_no_blank_pair, lemma_squeezed_places, no_blank_pair,
    nonblank_count, repeats_blank, written,
};
use crate::numbering::numbered;
use crate::outcome::{
    all_emitted, all_lines, all_reports, no_read_fails, reached, run_outcome, OutcomeView,
};
use crate::source::ReadingView;
use crate::transformer::{fresh, next_state, EventView, TransformerView};
use vstd::prelude::*;

verus! {

/// With no option set, the lines of a source are written as they are.
pub proof fn law_plain_lines_unchanged(config: ConfigView, lines: Seq<Seq<char>>)
    requires
        !config.number_lines,
        !config.number_nonblank_lines,
        !config.squeeze_blank_lines,
    ensures
        emitted(config, lines) == lines,
{
}

/// A run gets to at least one source where there is one, never to more
/// than there are, and to all of them exactly where no reading fails. It
/// ends in an error exactly where a reading fails: that reading is the
/// first that fails and the last that the run gets to, and the error holds
/// its reason.
pub proof fn law_run_end(config: ConfigView, readings: Seq<ReadingView>)
    ensures
        reached(readings) <= readings.len(),
        readings.len() > 0 ==> reached(readings) > 0,
        forall|k: int| 0 <= k < reached(readings) - 1 ==> !(#[trigger] readings[k]).read_fails(),
        no_read_fails(readings) <==> run_outcome(config, readings).result is Ok,
        no_read_fails(readings) ==> reached(readings) == readings.len(),
        run_outcome(config, readings).result matches Err(error) ==> readings[reached(readings)
            - 1] matches ReadingView::Opened { failure: Some(reason), .. } && error.reason
            == reason,
    decreases readings.len(),
{
    if readings.len() > 0 {
        let before = readings.drop_last();
        law_run_end(config, before);
        assert forall|k: int| 0 <= k < reached(readings) - 1 implies !(#[trigger] readings[k]).read_fails() by {
            assert(!before[k].read_fails());
        }
    }
}

/// A run writes, for each source that it gets to and in the order of the
/// sources, what is written for that source taken by itself: the numbers
/// start again with each source, and what one source gives is never mixed
/// with what another gives.
pub proof fn law_sources_apart(config: ConfigView, readings: Seq<ReadingView>)
    ensures
        run_outcome(config, readings).output == all_emitted(
            config,
            readings.take(reached(readings) as int),
        ),
    decreases readings.len(),
{
    if readings.len() > 0 {
        let before = readings.drop_last();
        law_sources_apart(config, before);
        law_run_end(config, before);
        if no_read_fails(before) {
            assert(readings.take(reached(readings) as int) =~= readings);
            assert(before.take(reached(before) as int) =~= before);
        } else {
            assert(readings.take(reached(readings) as int) =~= before.take(reached(before) as int));
        }
    } else {
    }
}

/// A run reports each source that it gets to and that could not be opened,
/// by its name and in the order of the sources, and reports nothing else.
pub proof fn law_unopened_sources_reported(config: ConfigView, readings: Seq<ReadingView>)
    ensures
        run_outcome(config, readings).diagnostics == all_reports(
            config.files,
            readings.take(reached(readings) as int),
        ),
    decreases readings.len(),
{
    if readings.len() > 0 {
        let before = readings.drop_last();
        law_unopened_sources_reported(config, before);
        law_run_end(config, before);
        if no_read_fails(before) {
            assert(readings.take(reached(readings) as int) =~= readings);
            assert(before.take(reached(before) as int) =~= before);
        } else {
            assert(readings.take(reached(readings) as int) =~= before.take(reached(before) as int));
        }
    } else {
    }
}

/// With no option set, what is written for sources taken by themselves is
/// their lines.
pub proof fn lemma_plain_all_emitted(config: ConfigView, readings: Seq<ReadingView>)
    requires
        !config.number_lines,
        !config.number_nonblank_lines,
        !config.squeeze_blank_lines,
    ensures
        all_emitted(config, readings) == all_lines(readings),
    decreases readings.len(),
{
    if readings.len() > 0 {
        lemma_plain_all_emitted(config, readings.drop_last());
        law_plain_lines_unchanged(config, readings.last().lines());
    }
}

/// With no option set, a run writes the lines of the sources that it gets
/// to, unchanged and in the order of the sources; where no reading fails,
/// these are the lines of all sources that could be opened.
pub proof fn law_plain_run_copies(config: ConfigView, readings: Seq<ReadingView>)
    requires
        !config.number_lines,
        !config.number_nonblank_lines,
        !config.squeeze_blank_lines,
    ensures
        run_outcome(config, readings).output == all_lines(readings.take(reached(readings) as int)),
        no_read_fails(readings) ==> run_outcome(config, readings).output == all_lines(readings),
{
    law_sources_apart(config, readings);
    law_run_end(config, readings);
    lemma_plain_all_emitted(config, readings.take(reached(readings) as int));
    if no_read_fails(readings) {
        assert(readings.take(reached(readings) as int) =~= readings);
    }
}

/// Where every line is numbered, each line that is kept is written with its
/// place among the kept lines, counted from one, whether it is empty or
/// not.
pub proof fn law_every_line_numbered(config: ConfigView, lines: Seq<Seq<char>>)
    requires
        config.number_lines,
    ensures
        emitted(config, lines).len() == kept(config, lines).len(),
        forall|j: int|
            0 <= j < kept(config, lines).len() ==> #[trigger] emitted(config, lines)[j] == numbered(
                (j + 1) as nat,
                kept(config, lines)[j],
            ),
{
}

/// Where the non-blank lines are numbered, an empty line is written as an
/// empty line, and a line that is not empty is written with its place among
/// the non-empty kept lines, counted from one: the numbers go up by one
/// from one non-empty line to the next, and empty lines do not count.
pub proof fn law_nonblank_lines_numbered(config: ConfigView, lines: Seq<Seq<char>>)
    requires
        config.wf(),
        config.number_nonblank_lines,
    ensures
        emitted(config, lines).len() == kept(config, lines).len(),
        forall|j: int|
            0 <= j < kept(config, lines).len() && kept(config, lines)[j].len() == 0
                ==> #[trigger] emitted(config, lines)[j] == Seq::<char>::empty(),
        forall|j: int|
            0 <= j < kept(config, lines).len() && kept(config, lines)[j].len() > 0
                ==> #[trigger] emitted(config, lines)[j] == numbered(
                nonblank_count(kept(config, lines).take(j)) + 1,
                kept(config, lines)[j],
            ),
        nonblank_count(kept(config, lines).take(0)) == 0,
        forall|j: int|
            0 <= j < kept(config, lines).len() ==> nonblank_count(kept(config, lines).take(j + 1))
                == nonblank_count(kept(config, lines).take(j)) + if (#[trigger] kept(
                config,
                lines,
            )[j]).len() > 0 {
                1nat
            } else {
                0nat
            },
{
    let shown = kept(config, lines);
    assert forall|j: int| 0 <= j < shown.len() implies nonblank_count(shown.take(j + 1))
        == nonblank_count(shown.take(j)) + if (#[trigger] shown[j]).len() > 0 {
        1nat
    } else {
        0nat
    } by {
        assert(shown.take(j + 1).drop_last() =~= shown.take(j));
    }
}

/// Where blank lines are squeezed, no two lines written in a row are both
/// empty, and every line that is not an empty line directly after an empty
/// line is written, at its place among such lines; nothing else is written.
pub proof fn law_blank_runs_squeezed(config: ConfigView, lines: Seq<Seq<char>>)
    requires
        config.squeeze_blank_lines,
    ensures
        no_blank_pair(emitted(config, lines)),
        emitted(config, lines).len() == kept_before(lines, lines.len() as int),
        forall|i: int|
            #![trigger kept_before(lines, i)]
            0 <= i < lines.len() && !repeats_blank(lines, i) ==> {
                let place = kept_before(lines, i) as int;
                &&& place < emitted(config, lines).len()
                &&& kept(config, lines)[place] == lines[i]
                &&& emitted(config, lines)[place] == written(config, kept(config, lines), place)
            },
{
    lemma_squeezed_places(lines);
    lemma_squeezed_no_blank_pair(lines);
}

/// Opening a source puts a transformer into the state of a new one,
/// whatever it has seen before: nothing is carried from one source to the
/// next.
pub proof fn law_opening_starts_afresh(config: ConfigView, state: TransformerView)
    ensures
        next_state(config, state, EventView::Opened) == fresh(),
{
}

/// Two runs over the same sources with the same configuration end in the
/// same outcome: what a run does depends on nothing else.
pub proof fn law_runs_agree(
    config: ConfigView,
    readings: Seq<ReadingView>,
    first: OutcomeView,
    second: OutcomeView,
)
    requires
        first == run_outcome(config, readings),
        second == run_outcome(config, readings),
    ensures
        first == second,
{
}

} // verus!

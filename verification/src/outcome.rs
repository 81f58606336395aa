//! A whole run: every source of the configuration in turn, with what is
//! written, what is reported, and how the run ends.

use crate::config::{Config, ConfigView};
use crate::lines::emitted;
use crate::source::{open_failure_text, ReadError, ReadErrorView, Reading, ReadingView, SourceError};
use crate::transformer::{feed_lines, Event, Transformer};
use vstd::prelude::*;

verus! {

/// What a run has done.
#[derive(Debug, PartialEq, Eq)]
pub struct Outcome {
    /// The lines written to the standard output, in order.
    pub output: Vec<String>,
    /// The lines written to the error stream, in order: one for each source
    /// that could not be opened.
    pub diagnostics: Vec<String>,
    /// `Ok` where the run came to its end, else the read error that
    /// stopped it.
    pub result: Result<(), ReadError>,
}

/// An `Outcome` as plain values.
pub struct OutcomeView {
    pub output: Seq<Seq<char>>,
    pub diagnostics: Seq<Seq<char>>,
    pub result: Result<(), ReadErrorView>,
}

impl View for Outcome {
    type V = OutcomeView;

    open spec fn view(&self) -> OutcomeView {
        OutcomeView {
            output: self.output.deep_view(),
            diagnostics: self.diagnostics.deep_view(),
            result: match self.result {
                Ok(_) => Ok(()),
                Err(error) => Err(error@),
            },
        }
    }
}

/// The outcome of a run once the source `name`, which gave `reading`, has
/// been dealt with after the outcome `before`. A source that could not be
/// opened adds a report; an opened one adds what is written for its lines,
/// and ends the run in an error where its reading failed.
pub open spec fn after_source(
    config: ConfigView,
    before: OutcomeView,
    name: Seq<char>,
    reading: ReadingView,
) -> OutcomeView {
    match reading {
        ReadingView::Unopened { reason } => OutcomeView {
            diagnostics: before.diagnostics.push(open_failure_text(name, reason)),
            ..before
        },
        ReadingView::Opened { lines, failure } => OutcomeView {
            output: before.output + emitted(config, lines),
            result: match failure {
                Some(reason) => Err(ReadErrorView { reason }),
                None => Ok(()),
            },
            ..before
        },
    }
}

/// The outcome of a run in which the sources of `config` gave `readings`,
/// the first source the first reading. A run that a read error has stopped
/// does nothing more.
pub open spec fn run_outcome(config: ConfigView, readings: Seq<ReadingView>) -> OutcomeView
    decreases readings.len(),
{
    if readings.len() == 0 {
        OutcomeView { output: Seq::empty(), diagnostics: Seq::empty(), result: Ok(()) }
    } else {
        let before = run_outcome(config, readings.drop_last());
        if before.result is Err {
            before
        } else {
            after_source(config, before, config.files[readings.len() - 1], readings.last())
        }
    }
}

/// None of `readings` failed while it was read.
pub open spec fn no_read_fails(readings: Seq<ReadingView>) -> bool {
    forall|k: int| 0 <= k < readings.len() ==> !(#[trigger] readings[k]).read_fails()
}

/// How many of the sources a run gets to: all of them, or those up to and
/// with the first whose reading failed.
pub open spec fn reached(readings: Seq<ReadingView>) -> nat
    decreases readings.len(),
{
    if readings.len() == 0 {
        0
    } else if no_read_fails(readings.drop_last()) {
        readings.len()
    } else {
        reached(readings.drop_last())
    }
}

/// The lines that `readings` gave, source after source.
pub open spec fn all_lines(readings: Seq<ReadingView>) -> Seq<Seq<char>>
    decreases readings.len(),
{
    if readings.len() == 0 {
        Seq::empty()
    } else {
        all_lines(readings.drop_last()) + readings.last().lines()
    }
}

/// What is written for each of `readings` taken by itself, source after
/// source.
pub open spec fn all_emitted(config: ConfigView, readings: Seq<ReadingView>) -> Seq<Seq<char>>
    decreases readings.len(),
{
    if readings.len() == 0 {
        Seq::empty()
    } else {
        all_emitted(config, readings.drop_last()) + emitted(config, readings.last().lines())
    }
}

/// The reports on those of `readings` that could not be opened, source
/// after source, where `files` names the sources.
pub open spec fn all_reports(files: Seq<Seq<char>>, readings: Seq<ReadingView>) -> Seq<Seq<char>>
    decreases readings.len(),
{
    if readings.len() == 0 {
        Seq::empty()
    } else {
        match readings.last() {
            ReadingView::Unopened { reason } => all_reports(files, readings.drop_last()).push(
                open_failure_text(files[readings.len() - 1], reason),
            ),
            ReadingView::Opened { .. } => all_reports(files, readings.drop_last()),
        }
    }
}

/// Once a run has stopped after `k` sources, the sources after them change
/// nothing.
pub proof fn lemma_stopped_run(config: ConfigView, readings: Seq<ReadingView>, k: int)
    requires
        0 <= k <= readings.len(),
        run_outcome(config, readings.take(k)).result is Err,
    ensures
        run_outcome(config, readings) == run_outcome(config, readings.take(k)),
    decreases readings.len(),
{
    if k == readings.len() {
        assert(readings.take(k) =~= readings);
    } else {
        assert(readings.drop_last().take(k) =~= readings.take(k));
        lemma_stopped_run(config, readings.drop_last(), k);
    }
}

/// Runs over the sources of `config`, where opening and reading them has
/// given `readings`, one for each source and in the same order. Every
/// source starts with a fresh line counter. A source that could not be
/// opened is reported and the run goes on; a reading that failed ends the
/// run after the lines that were read.
pub fn run(config: &Config, readings: &Vec<Reading>) -> (outcome: Outcome)
    requires
        readings.len() == config@.files.len(),
    ensures
        outcome@ == run_outcome(config@, readings.deep_view()),
{
    let files = config.files();
    let ghost all = readings.deep_view();
    let mut transformer = Transformer::new();
    let mut output: Vec<String> = Vec::new();
    let mut diagnostics: Vec<String> = Vec::new();
    let mut k: usize = 0;
    assert(diagnostics.deep_view() =~= Seq::empty());
    while k < readings.len()
        invariant
            k <= readings.len(),
            readings.len() == files.len(),
            files.deep_view() == config@.files,
            all == readings.deep_view(),
            run_outcome(config@, all.take(k as int)) == (OutcomeView {
                output: output.deep_view(),
                diagnostics: diagnostics.deep_view(),
                result: Ok(()),
            }),
        decreases readings.len() - k,
    {
        let ghost before = run_outcome(config@, all.take(k as int));
        proof {
            assert(all.take(k + 1).drop_last() =~= all.take(k as int));
        }
        match &readings[k] {
            Reading::Unopened { reason } => {
                let failed = Event::OpenFailed { name: files[k].as_str(), reason: reason.as_str() };
                match transformer.step(config, failed) {
                    Err(SourceError::Recoverable(error)) => {
                        let text = error.message();
                        diagnostics.push(text);
                        assert(diagnostics.deep_view() =~= before.diagnostics.push(text@));
                    },
                    _ => {},
                }
            },
            Reading::Opened { lines, failure } => {
                match transformer.step(config, Event::Opened) {
                    _ => {},
                }
                feed_lines(&mut transformer, config, lines, &mut output);
                match failure {
                    Some(reason) => {
                        match transformer.step(config, Event::ReadFailed { reason: reason.as_str() }) {
                            Err(SourceError::Fatal(error)) => {
                                proof {
                                    lemma_stopped_run(config@, all, k + 1);
                                }
                                return Outcome { output, diagnostics, result: Err(error) };
                            },
                            _ => {},
                        }
                    },
                    None => {},
                }
            },
        }
        k += 1;
    }
    assert(all.take(k as int) =~= all);
    Outcome { output, diagnostics, result: Ok(()) }
}

} // verus!

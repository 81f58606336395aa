//! The line transformer as a machine: it is told what happened to a source
//! (it was opened, it gave a line, it failed) and answers what to write.
//! The caller does the reading and the writing.

use crate::config::{Config, ConfigView};
use crate::lines::{emitted, kept, nonblank_count, shows_number, written};
use crate::numbering::{numbered, numbered_line};
use crate::source::{OpenError, OpenErrorView, ReadError, ReadErrorView, SourceError, SourceErrorView};
use vstd::prelude::*;

verus! {

/// What happened to a source.
#[derive(Debug, Clone, Copy)]
pub enum Event<'a> {
    /// A source was opened. Its lines follow.
    Opened,
    /// The open source gave its next line, here without the newline that
    /// ends it.
    Line(&'a str),
    /// The source `name` could not be opened.
    OpenFailed { name: &'a str, reason: &'a str },
    /// The open source could not be read further.
    ReadFailed { reason: &'a str },
}

/// An `Event` as plain values.
pub enum EventView {
    Opened,
    Line(Seq<char>),
    OpenFailed { name: Seq<char>, reason: Seq<char> },
    ReadFailed { reason: Seq<char> },
}

impl<'a> View for Event<'a> {
    type V = EventView;

    open spec fn view(&self) -> EventView {
        match self {
            Event::Opened => EventView::Opened,
            Event::Line(line) => EventView::Line(line@),
            Event::OpenFailed { name, reason } => EventView::OpenFailed {
                name: name@,
                reason: reason@,
            },
            Event::ReadFailed { reason } => EventView::ReadFailed { reason: reason@ },
        }
    }
}

/// The state of a transformer as plain values.
pub struct TransformerView {
    /// The number given last in the open source; zero before the first.
    pub line_count: nat,
    /// Squeezing is on and the line before this one was empty.
    pub blank_run: bool,
}

/// What a transformer answers to an event: a line to write or nothing, or
/// the error that the event amounts to.
pub type Answer = Result<Option<String>, SourceError>;

/// An `Answer` as plain values.
pub type AnswerView = Result<Option<Seq<char>>, SourceErrorView>;

/// The state at the start of a source.
pub open spec fn fresh() -> TransformerView {
    TransformerView { line_count: 0, blank_run: false }
}

/// In `state`, `line` is left out: squeezing is on, the line is empty and so
/// was the line before it.
pub open spec fn skips(config: ConfigView, state: TransformerView, line: Seq<char>) -> bool {
    config.squeeze_blank_lines && line.len() == 0 && state.blank_run
}

/// The state after `line` in `state`.
pub open spec fn after_line(
    config: ConfigView,
    state: TransformerView,
    line: Seq<char>,
) -> TransformerView {
    if skips(config, state, line) {
        state
    } else {
        TransformerView {
            line_count: if shows_number(config, line) {
                state.line_count + 1
            } else {
                state.line_count
            },
            blank_run: if config.squeeze_blank_lines {
                line.len() == 0
            } else {
                state.blank_run
            },
        }
    }
}

/// What is written for `line` in `state`, if anything.
pub open spec fn line_output(
    config: ConfigView,
    state: TransformerView,
    line: Seq<char>,
) -> Option<Seq<char>> {
    if skips(config, state, line) {
        None
    } else if shows_number(config, line) {
        Some(numbered(state.line_count + 1, line))
    } else {
        Some(line)
    }
}

/// The state after `event` in `state`. A new source starts afresh; a
/// failure changes nothing.
pub open spec fn next_state(
    config: ConfigView,
    state: TransformerView,
    event: EventView,
) -> TransformerView {
    match event {
        EventView::Opened => fresh(),
        EventView::Line(line) => after_line(config, state, line),
        EventView::OpenFailed { .. } => state,
        EventView::ReadFailed { .. } => state,
    }
}

/// The answer to `event` in `state`. A source that cannot be opened is a
/// recoverable error, a source that cannot be read further a fatal one.
pub open spec fn answer(config: ConfigView, state: TransformerView, event: EventView) -> AnswerView {
    match event {
        EventView::Opened => Ok(None),
        EventView::Line(line) => Ok(line_output(config, state, line)),
        EventView::OpenFailed { name, reason } => Err(
            SourceErrorView::Recoverable(OpenErrorView { name, reason }),
        ),
        EventView::ReadFailed { reason } => Err(SourceErrorView::Fatal(ReadErrorView { reason })),
    }
}

/// An answer as plain values.
pub open spec fn answer_view(answer: Answer) -> AnswerView {
    match answer {
        Ok(Some(text)) => Ok(Some(text@)),
        Ok(None) => Ok(None),
        Err(error) => Err(error@),
    }
}

/// The state after all of `lines`, from the start of a source.
pub open spec fn state_after(config: ConfigView, lines: Seq<Seq<char>>) -> TransformerView
    decreases lines.len(),
{
    if lines.len() == 0 {
        fresh()
    } else {
        after_line(config, state_after(config, lines.drop_last()), lines.last())
    }
}

/// How many numbers have been given once the kept lines `shown` are written.
pub open spec fn numbers_given(config: ConfigView, shown: Seq<Seq<char>>) -> nat {
    if config.number_lines {
        shown.len()
    } else if config.number_nonblank_lines {
        nonblank_count(shown)
    } else {
        0
    }
}

/// The state after `lines` holds the number given last and whether the last
/// line was empty.
pub proof fn lemma_state_after(config: ConfigView, lines: Seq<Seq<char>>)
    ensures
        state_after(config, lines).blank_run == (config.squeeze_blank_lines && lines.len() > 0
            && lines.last().len() == 0),
        state_after(config, lines).line_count == numbers_given(config, kept(config, lines)),
    decreases lines.len(),
{
    if lines.len() > 0 {
        let before = lines.drop_last();
        let line = lines.last();
        lemma_state_after(config, before);
        let shown = kept(config, before);
        if !skips(config, state_after(config, before), line) {
            assert(shown.push(line).drop_last() =~= shown);
        }
    }
}

/// One more line at the end of a source adds what the transformer answers
/// to it after the lines before, and changes nothing of what was written.
pub proof fn lemma_emitted_push(config: ConfigView, lines: Seq<Seq<char>>, line: Seq<char>)
    ensures
        emitted(config, lines.push(line)) == match line_output(
            config,
            state_after(config, lines),
            line,
        ) {
            Some(text) => emitted(config, lines).push(text),
            None => emitted(config, lines),
        },
        state_after(config, lines.push(line)) == after_line(
            config,
            state_after(config, lines),
            line,
        ),
{
    let all = lines.push(line);
    let state = state_after(config, lines);
    assert(all.drop_last() =~= lines);
    lemma_state_after(config, lines);
    let shown = kept(config, lines);
    if !skips(config, state, line) {
        let longer = shown.push(line);
        assert forall|i: int| 0 <= i < shown.len() implies #[trigger] written(config, longer, i)
            == written(config, shown, i) by {
            assert(longer.take(i + 1) =~= shown.take(i + 1));
        }
        assert(longer.take(shown.len() as int + 1) =~= longer);
        assert(longer.drop_last() =~= shown);
    }
}

/// The line transformer: the line counter and the blank-run flag of the
/// source that is open.
#[derive(Debug)]
pub struct Transformer {
    line_count: u64,
    blank_run: bool,
}

impl View for Transformer {
    type V = TransformerView;

    closed spec fn view(&self) -> TransformerView {
        TransformerView { line_count: self.line_count as nat, blank_run: self.blank_run }
    }
}

impl Transformer {
    /// A transformer at the start of a source.
    pub fn new() -> (transformer: Transformer)
        ensures
            transformer@ == fresh(),
    {
        Transformer { line_count: 0, blank_run: false }
    }

    /// The number given last in the open source; zero before the first.
    pub fn line_count(&self) -> (count: u64)
        ensures
            count == self@.line_count,
    {
        self.line_count
    }

    /// Whether squeezing is on and the line before this one was empty.
    pub fn blank_run(&self) -> (flag: bool)
        ensures
            flag == self@.blank_run,
    {
        self.blank_run
    }

    /// Takes note of `event` and answers what to do about it: `Ok` with a
    /// line to write or with nothing, or the error that the event amounts
    /// to. The line counter has to have room for one more line.
    pub fn step(&mut self, config: &Config, event: Event<'_>) -> (result: Answer)
        requires
            event is Line ==> old(self)@.line_count < u64::MAX,
        ensures
            final(self)@ == next_state(config@, old(self)@, event@),
            answer_view(result) == answer(config@, old(self)@, event@),
    {
        match event {
            Event::Opened => {
                self.line_count = 0;
                self.blank_run = false;
                Ok(None)
            },
            Event::OpenFailed { name, reason } => Err(
                SourceError::Recoverable(
                    OpenError { name: name.to_owned(), reason: reason.to_owned() },
                ),
            ),
            Event::ReadFailed { reason } => Err(
                SourceError::Fatal(ReadError { reason: reason.to_owned() }),
            ),
            Event::Line(line) => {
                let blank = line.is_empty();
                if config.squeeze_blank_lines() {
                    if blank && self.blank_run {
                        return Ok(None);
                    }
                    self.blank_run = blank;
                }
                if config.number_lines() || (config.number_nonblank_lines() && !blank) {
                    self.line_count = self.line_count + 1;
                    Ok(Some(numbered_line(self.line_count, line)))
                } else {
                    Ok(Some(line.to_owned()))
                }
            },
        }
    }
}

/// Feeds `lines` to a transformer at the start of a source and adds what it
/// answers to `output`.
pub(crate) fn feed_lines(
    transformer: &mut Transformer,
    config: &Config,
    lines: &Vec<String>,
    output: &mut Vec<String>,
)
    requires
        old(transformer)@ == fresh(),
    ensures
        final(transformer)@ == state_after(config@, lines.deep_view()),
        final(output).deep_view() == old(output).deep_view() + emitted(config@, lines.deep_view()),
{
    let ghost all = lines.deep_view();
    let ghost start = output.deep_view();
    let mut i: usize = 0;
    while i < lines.len()
        invariant
            i <= lines.len(),
            all == lines.deep_view(),
            transformer@ == state_after(config@, all.take(i as int)),
            transformer@.line_count <= i,
            output.deep_view() == start + emitted(config@, all.take(i as int)),
        decreases lines.len() - i,
    {
        let ghost before = all.take(i as int);
        let ghost shown = output.deep_view();
        proof {
            lemma_emitted_push(config@, before, all[i as int]);
            assert(all.take(i + 1) =~= before.push(all[i as int]));
        }
        match transformer.step(config, Event::Line(lines[i].as_str())) {
            Ok(Some(text)) => {
                output.push(text);
                assert(shown.push(text@) =~= start + emitted(config@, before).push(text@));
            },
            _ => {},
        }
        i += 1;
    }
    assert(all.take(lines.len() as int) =~= all);
}

/// What is written for a source that holds `lines`: the lines that are kept,
/// each with its number where it gets one.
pub fn process_lines(config: &Config, lines: &Vec<String>) -> (output: Vec<String>)
    ensures
        output.deep_view() == emitted(config@, lines.deep_view()),
{
    let mut transformer = Transformer::new();
    let mut output: Vec<String> = Vec::new();
    feed_lines(&mut transformer, config, lines, &mut output);
    output
}

} // verus!

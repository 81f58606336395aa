//! Sources: how a name is read, what can go wrong with one, and what
//! opening and reading one has given.

use vstd::prelude::*;

verus! {

/// Where the lines of a source come from.
#[derive(Debug, Clone, Copy, PartialEq, Eq)]
pub enum SourceKind {
    /// The standard input of the process.
    StandardInput,
    /// The file at the path that the name gives.
    File,
}

/// The name `-` stands for the standard input.
pub open spec fn names_standard_input(name: Seq<char>) -> bool {
    name == seq!['-']
}

/// Tells from its name where a source is read from.
pub fn source_kind(name: &str) -> (kind: SourceKind)
    ensures
        kind == if names_standard_input(name@) {
            SourceKind::StandardInput
        } else {
            SourceKind::File
        },
{
    if name.unicode_len() == 1 && name.get_char(0) == '-' {
        assert(name@ =~= seq!['-']);
        SourceKind::StandardInput
    } else {
        SourceKind::File
    }
}

/// The line that reports a source that could not be opened.
pub open spec fn open_failure_text(name: Seq<char>, reason: Seq<char>) -> Seq<char> {
    "Failed to open "@ + name + ": "@ + reason
}

/// A source could not be opened. The run reports it and goes on with the
/// next source.
#[derive(Debug, PartialEq, Eq)]
pub struct OpenError {
    /// The name of the source.
    pub name: String,
    /// Why it could not be opened.
    pub reason: String,
}

/// An `OpenError` as plain values.
pub struct OpenErrorView {
    pub name: Seq<char>,
    pub reason: Seq<char>,
}

impl View for OpenError {
    type V = OpenErrorView;

    open spec fn view(&self) -> OpenErrorView {
        OpenErrorView { name: self.name@, reason: self.reason@ }
    }
}

impl OpenError {
    /// The line that reports this failure.
    pub fn message(&self) -> (text: String)
        ensures
            text@ == open_failure_text(self@.name, self@.reason),
    {
        let mut text = "Failed to open ".to_owned();
        text.append(self.name.as_str());
        text.append(": ");
        text.append(self.reason.as_str());
        text
    }
}

/// A source could not be read to its end. The run stops.
#[derive(Debug, PartialEq, Eq)]
pub struct ReadError {
    /// Why the reading failed.
    pub reason: String,
}

/// A `ReadError` as plain values.
pub struct ReadErrorView {
    pub reason: Seq<char>,
}

impl View for ReadError {
    type V = ReadErrorView;

    open spec fn view(&self) -> ReadErrorView {
        ReadErrorView { reason: self.reason@ }
    }
}

/// What can go wrong with a source, by what it means for the run.
#[derive(Debug, PartialEq, Eq)]
pub enum SourceError {
    /// The run goes on with the next source.
    Recoverable(OpenError),
    /// The run ends here.
    Fatal(ReadError),
}

/// A `SourceError` as plain values.
pub enum SourceErrorView {
    Recoverable(OpenErrorView),
    Fatal(ReadErrorView),
}

impl View for SourceError {
    type V = SourceErrorView;

    open spec fn view(&self) -> SourceErrorView {
        match self {
            SourceError::Recoverable(error) => SourceErrorView::Recoverable(error@),
            SourceError::Fatal(error) => SourceErrorView::Fatal(error@),
        }
    }
}

/// What opening and reading one source has given.
#[derive(Debug, PartialEq, Eq)]
pub enum Reading {
    /// The source could not be opened.
    Unopened {
        /// Why it could not be opened.
        reason: String,
    },
    /// The source was opened.
    Opened {
        /// The lines that were read, in order, each without the newline
        /// that ends it.
        lines: Vec<String>,
        /// Why the read after the last of `lines` failed, if it did; a
        /// source that was read to its end has none.
        failure: Option<String>,
    },
}

/// A `Reading` as plain values.
pub enum ReadingView {
    Unopened { reason: Seq<char> },
    Opened { lines: Seq<Seq<char>>, failure: Option<Seq<char>> },
}

impl ReadingView {
    /// The lines that the source gave: none where it could not be opened.
    pub open spec fn lines(self) -> Seq<Seq<char>> {
        match self {
            ReadingView::Unopened { .. } => Seq::empty(),
            ReadingView::Opened { lines, .. } => lines,
        }
    }

    /// Reading the source failed before its end.
    pub open spec fn read_fails(self) -> bool {
        self matches ReadingView::Opened { failure: Some(_), .. }
    }
}

impl View for Reading {
    type V = ReadingView;

    open spec fn view(&self) -> ReadingView {
        match self {
            Reading::Unopened { reason } => ReadingView::Unopened { reason: reason@ },
            Reading::Opened { lines, failure } => ReadingView::Opened {
                lines: lines.deep_view(),
                failure: failure.deep_view(),
            },
        }
    }
}

impl DeepView for Reading {
    type V = ReadingView;

    open spec fn deep_view(&self) -> ReadingView {
        self@
    }
}

} // verus!

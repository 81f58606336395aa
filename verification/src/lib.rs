//! Line processing for a `cat`-like tool: numbering lines, numbering only
//! non-blank lines and squeezing runs of blank lines, with the rules that
//! decide how a run over several sources goes on after a failure.
//!
//! The library reads nothing and writes nothing. A caller either hands the
//! [`Transformer`] one event after the other and does what it answers, or
//! hands [`run`] what opening and reading the sources has given.

pub mod config;
pub mod laws;
pub mod lines;
pub mod numbering;
pub mod outcome;
pub mod source;
pub mod transformer;

pub use config::{ArgumentError, Config, ConfigView};
pub use numbering::{decimal_string, numbered_line, NUMBER_WIDTH};
pub use outcome::{run, Outcome, OutcomeView};
pub use source::{source_kind, OpenError, ReadError, Reading, ReadingView, SourceError, SourceKind};
pub use transformer::{process_lines, Answer, Event, Transformer, TransformerView};

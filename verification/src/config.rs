//! The configuration of one run: the sources to read, in order, and the
//! three display options.

use vstd::prelude::*;

verus! {

/// Why a configuration is refused.
#[derive(Debug, Clone, Copy, PartialEq, Eq)]
pub enum ArgumentError {
    /// Numbering every line and numbering only the non-blank lines were both
    /// asked for.
    ConflictingNumbering,
}

impl ArgumentError {
    /// The sentence that tells a user what is wrong.
    pub fn message(&self) -> (text: String)
        ensures
            text@ == "the argument '--number' cannot be used with '--number-nonblank'"@,
    {
        "the argument '--number' cannot be used with '--number-nonblank'".to_owned()
    }
}

/// A configuration as plain values.
pub struct ConfigView {
    /// The names of the sources, in the order in which they are read; `-`
    /// names the standard input.
    pub files: Seq<Seq<char>>,
    /// Number every line that is written.
    pub number_lines: bool,
    /// Number the lines that are not empty.
    pub number_nonblank_lines: bool,
    /// Write one empty line for a run of empty lines.
    pub squeeze_blank_lines: bool,
}

impl ConfigView {
    /// The two ways of numbering exclude each other.
    pub open spec fn wf(self) -> bool {
        !(self.number_lines && self.number_nonblank_lines)
    }
}

/// The configuration of one run. It is made once and never changed.
#[derive(Debug)]
pub struct Config {
    files: Vec<String>,
    number_lines: bool,
    number_nonblank_lines: bool,
    squeeze_blank_lines: bool,
}

impl View for Config {
    type V = ConfigView;

    closed spec fn view(&self) -> ConfigView {
        ConfigView {
            files: self.files.deep_view(),
            number_lines: self.number_lines,
            number_nonblank_lines: self.number_nonblank_lines,
            squeeze_blank_lines: self.squeeze_blank_lines,
        }
    }
}

impl Config {
    #[verifier::type_invariant]
    spec fn numbering_is_exclusive(self) -> bool {
        !(self.number_lines && self.number_nonblank_lines)
    }

    /// Makes a configuration from resolved arguments. It is refused exactly
    /// when both ways of numbering are asked for.
    pub fn new(
        files: Vec<String>,
        number_lines: bool,
        number_nonblank_lines: bool,
        squeeze_blank_lines: bool,
    ) -> (result: Result<Config, ArgumentError>)
        ensures
            result is Err <==> number_lines && number_nonblank_lines,
            result matches Ok(config) ==> config@ == (ConfigView {
                files: files.deep_view(),
                number_lines,
                number_nonblank_lines,
                squeeze_blank_lines,
            }) && config@.wf(),
            result matches Err(error) ==> error == ArgumentError::ConflictingNumbering,
    {
        if number_lines && number_nonblank_lines {
            Err(ArgumentError::ConflictingNumbering)
        } else {
            Ok(Config { files, number_lines, number_nonblank_lines, squeeze_blank_lines })
        }
    }

    /// The names of the sources, in the order in which they are read.
    pub fn files(&self) -> (files: &Vec<String>)
        ensures
            files.deep_view() == self@.files,
    {
        &self.files
    }

    /// Whether every line that is written gets a number.
    pub fn number_lines(&self) -> (flag: bool)
        ensures
            flag == self@.number_lines,
            self@.wf(),
    {
        proof {
            use_type_invariant(self);
        }
        self.number_lines
    }

    /// Whether the lines that are not empty get a number.
    pub fn number_nonblank_lines(&self) -> (flag: bool)
        ensures
            flag == self@.number_nonblank_lines,
            self@.wf(),
    {
        proof {
            use_type_invariant(self);
        }
        self.number_nonblank_lines
    }

    /// Whether a run of empty lines is written as one empty line.
    pub fn squeeze_blank_lines(&self) -> (flag: bool)
        ensures
            flag == self@.squeeze_blank_lines,
    {
        self.squeeze_blank_lines
    }
}

} // verus!

//! The closed error taxonomy of the pipeline.
//!
//! Every failure a run can end in is one of these variants; each carries
//! enough context to render one human-readable diagnostic line, and every
//! variant has exactly one rendering rule.

use vstd::prelude::*;

use crate::numbers::decimal_of;
use crate::numbers::format_u64;

verus! {

/// The line that made a transform fail: its 1-indexed position in the
/// file and its text.
#[derive(Debug, PartialEq, Eq)]
pub struct ParseFailure {
    pub line_number: u64,
    pub content: String,
}

/// Everything that can go wrong in one pipeline run. Exactly one variant
/// describes each failure.
#[derive(Debug, PartialEq, Eq)]
pub enum PipelineError {
    /// The positional argument was absent.
    ArgumentMissing,
    /// The file could not be opened; carries the rendered system cause.
    FileOpenFailed(String),
    /// A line could not be produced (bad bytes or an interrupted read);
    /// carries the rendered system cause.
    LineReadFailed(String),
    /// A line did not pass the transform; carries that line.
    ParseFailed(ParseFailure),
}

/// The mathematical shape of a `PipelineError`.
pub enum ErrorView {
    ArgumentMissing,
    FileOpenFailed(Seq<char>),
    LineReadFailed(Seq<char>),
    ParseFailed(u64, Seq<char>),
}

impl View for ParseFailure {
    type V = (u64, Seq<char>);

    open spec fn view(&self) -> (u64, Seq<char>) {
        (self.line_number, self.content@)
    }
}

impl View for PipelineError {
    type V = ErrorView;

    open spec fn view(&self) -> ErrorView {
        match self {
            PipelineError::ArgumentMissing => ErrorView::ArgumentMissing,
            PipelineError::FileOpenFailed(c) => ErrorView::FileOpenFailed(c@),
            PipelineError::LineReadFailed(c) => ErrorView::LineReadFailed(c@),
            PipelineError::ParseFailed(p) => ErrorView::ParseFailed(p.line_number, p.content@),
        }
    }
}

/// The one diagnostic line each error variant renders to.
pub open spec fn message_spec(e: ErrorView) -> Seq<char> {
    match e {
        ErrorView::ArgumentMissing => "Expected filename"@,
        ErrorView::FileOpenFailed(c) => "Could not open file: "@ + c,
        ErrorView::LineReadFailed(c) => "Error reading file: "@ + c,
        ErrorView::ParseFailed(k, content) => "Error parsing file: line "@ + decimal_of(k as nat)
            + ": "@ + content,
    }
}

impl PipelineError {
    /// Renders the error as its diagnostic line. Total and exhaustive:
    /// every variant has exactly one message.
    pub fn message(&self) -> (r: String)
        ensures
            r@ == message_spec(self@),
    {
        match self {
            PipelineError::ArgumentMissing => String::from_str("Expected filename"),
            PipelineError::FileOpenFailed(c) => {
                let r = String::from_str("Could not open file: ").concat(c.as_str());
                r
            },
            PipelineError::LineReadFailed(c) => {
                let r = String::from_str("Error reading file: ").concat(c.as_str());
                r
            },
            PipelineError::ParseFailed(p) => {
                let mut r = String::from_str("Error parsing file: line ");
                let number = format_u64(p.line_number);
                r.append(number.as_str());
                r.append(": ");
                r.append(p.content.as_str());
                proof {
                    assert(r@ =~= message_spec(self@));
                }
                r
            },
        }
    }
}

} // verus!

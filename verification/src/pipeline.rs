//! The aggregating line-processing pipeline.
//!
//! A run takes what the file system handed back — an open failure, or the
//! decoded lines together with how their production ended — applies the
//! configured transform to every line in file order, and either collects
//! all values or stops at the first failure. No partial result is ever
//! surfaced: the first failing step classifies the whole run.

use vstd::prelude::*;

use crate::errors::ErrorView;
use crate::errors::ParseFailure;
use crate::errors::PipelineError;
use crate::numbers::u64_value;
use crate::numbers::valid_u64;
use crate::numbers::parse_u64;
use crate::text::trim_spec;
use crate::text::trimmed;

verus! {

/// The per-line transform a run is configured with. `Identity` passes
/// each line through as text; `ParseUnsigned` trims the line and reads
/// it as an unsigned 64-bit decimal integer.
#[derive(Debug, Clone, Copy, PartialEq, Eq)]
pub enum Transform {
    Identity,
    ParseUnsigned,
}

/// A value the pipeline produces for one line.
#[derive(Debug, PartialEq, Eq)]
pub enum Value {
    Text(String),
    Number(u64),
}

/// The mathematical shape of a `Value`.
pub enum ValueView {
    Text(Seq<char>),
    Number(u64),
}

impl View for Value {
    type V = ValueView;

    open spec fn view(&self) -> ValueView {
        match self {
            Value::Text(s) => ValueView::Text(s@),
            Value::Number(n) => ValueView::Number(*n),
        }
    }
}

/// How the production of lines ended: the end of the file, or a read
/// failure (undecodable bytes or an interrupted read) with its rendered
/// cause. Lines produced before a failure precede it.
#[derive(Debug, PartialEq, Eq)]
pub enum Terminal {
    End,
    ReadFailed(String),
}

/// The mathematical shape of a `Terminal`.
pub enum TerminalView {
    End,
    ReadFailed(Seq<char>),
}

impl View for Terminal {
    type V = TerminalView;

    open spec fn view(&self) -> TerminalView {
        match self {
            Terminal::End => TerminalView::End,
            Terminal::ReadFailed(c) => TerminalView::ReadFailed(c@),
        }
    }
}

/// Everything a line source produced, in order: the decoded lines, each
/// with its trailing line terminator already stripped, and the terminal
/// outcome that ended production.
#[derive(Debug, PartialEq, Eq)]
pub struct LineEvents {
    pub lines: Vec<String>,
    pub terminal: Terminal,
}

/// The mathematical shape of `LineEvents`.
pub struct LineEventsView {
    pub lines: Seq<Seq<char>>,
    pub terminal: TerminalView,
}

/// The views of a sequence of lines.
pub open spec fn lines_view(lines: Seq<String>) -> Seq<Seq<char>> {
    lines.map(|i: int, s: String| s@)
}

/// The views of a sequence of values.
pub open spec fn values_view(vals: Seq<Value>) -> Seq<ValueView> {
    vals.map(|i: int, v: Value| v@)
}

impl View for LineEvents {
    type V = LineEventsView;

    open spec fn view(&self) -> LineEventsView {
        LineEventsView { lines: lines_view(self.lines@), terminal: self.terminal@ }
    }
}

/// What opening the source path yielded: the open failure with its
/// rendered cause, or the produced line events.
#[derive(Debug, PartialEq, Eq)]
pub enum OpenOutcome {
    Failed(String),
    Opened(LineEvents),
}

/// The mathematical shape of an `OpenOutcome`.
pub enum OpenOutcomeView {
    Failed(Seq<char>),
    Opened(LineEventsView),
}

impl View for OpenOutcome {
    type V = OpenOutcomeView;

    open spec fn view(&self) -> OpenOutcomeView {
        match self {
            OpenOutcome::Failed(c) => OpenOutcomeView::Failed(c@),
            OpenOutcome::Opened(ev) => OpenOutcomeView::Opened(ev@),
        }
    }
}

/// What a transform yields on a line: the value, or nothing when the
/// line does not pass.
pub open spec fn transform_spec(t: Transform, line: Seq<char>) -> Option<ValueView> {
    match t {
        Transform::Identity => Some(ValueView::Text(line)),
        Transform::ParseUnsigned => if valid_u64(trim_spec(line)) {
            Some(ValueView::Number(u64_value(trim_spec(line)) as u64))
        } else {
            None
        },
    }
}

/// The mathematical shape of a run's result.
pub open spec fn result_view(r: Result<Vec<Value>, PipelineError>) -> Result<
    Seq<ValueView>,
    ErrorView,
> {
    match r {
        Ok(vals) => Ok(values_view(vals@)),
        Err(e) => Err(e@),
    }
}

/// What a run over produced lines must return. Exactly one result
/// satisfies this for each input:
/// - all lines pass the transform and production ended normally: the
///   values of all lines, in file order;
/// - some line fails the transform: `ParseFailed` naming the first such
///   line by 1-indexed position and content;
/// - all lines pass but production ended in a read failure: that
///   failure's cause.
pub open spec fn lines_post(
    lines: Seq<Seq<char>>,
    terminal: TerminalView,
    t: Transform,
    res: Result<Seq<ValueView>, ErrorView>,
) -> bool {
    match res {
        Ok(vals) => {
            &&& terminal is End
            &&& vals.len() == lines.len()
            &&& forall|i: int|
                0 <= i < lines.len() ==> transform_spec(t, lines[i]) == Some(#[trigger] vals[i])
        },
        Err(e) => match e {
            ErrorView::ParseFailed(k, content) => {
                &&& 1 <= k <= lines.len()
                &&& transform_spec(t, lines[k - 1]) is None
                &&& forall|j: int|
                    0 <= j < k - 1 ==> (#[trigger] transform_spec(t, lines[j])) is Some
                &&& content == lines[k - 1]
            },
            ErrorView::LineReadFailed(c) => {
                &&& terminal == TerminalView::ReadFailed(c)
                &&& forall|j: int|
                    0 <= j < lines.len() ==> (#[trigger] transform_spec(t, lines[j])) is Some
            },
            _ => false,
        },
    }
}

/// What a whole run must return: an open failure propagates as
/// `FileOpenFailed` and nothing is produced; otherwise the produced
/// lines decide the result as `lines_post` says.
pub open spec fn run_post(
    input: OpenOutcomeView,
    t: Transform,
    res: Result<Seq<ValueView>, ErrorView>,
) -> bool {
    match input {
        OpenOutcomeView::Failed(cause) => res == Err::<Seq<ValueView>, ErrorView>(
            ErrorView::FileOpenFailed(cause),
        ),
        OpenOutcomeView::Opened(ev) => lines_post(ev.lines, ev.terminal, t, res),
    }
}

/// Applies the transform to one line. On success the line's value; on
/// failure `ParseFailed` carrying the line's 1-indexed position and its
/// text, the transform's native failure wrapped into the taxonomy.
pub fn apply_transform(t: Transform, line: String, line_number: u64) -> (r: Result<
    Value,
    PipelineError,
>)
    ensures
        transform_spec(t, line@) matches Some(v) ==> (r matches Ok(val) && val@ == v),
        transform_spec(t, line@) is None ==> (r matches Err(e) && e@ == ErrorView::ParseFailed(
            line_number,
            line@,
        )),
{
    match t {
        Transform::Identity => Ok(Value::Text(line)),
        Transform::ParseUnsigned => {
            let cleaned = trimmed(line.as_str());
            match parse_u64(cleaned.as_str()) {
                Some(n) => Ok(Value::Number(n)),
                None => Err(PipelineError::ParseFailed(ParseFailure { line_number, content: line })),
            }
        },
    }
}

/// Aggregates the produced lines: transforms every line in file order,
/// stopping at the first failure. `lines_post` pins the result exactly.
pub fn run_lines(ev: LineEvents, t: Transform) -> (r: Result<Vec<Value>, PipelineError>)
    ensures
        lines_post(ev@.lines, ev@.terminal, t, result_view(r)),
{
    let ghost lines: Seq<Seq<char>> = ev@.lines;
    let mut vals: Vec<Value> = Vec::new();
    let mut i: usize = 0;
    while i < ev.lines.len()
        invariant
            lines == ev@.lines,
            lines.len() == ev.lines@.len(),
            0 <= i <= lines.len(),
            vals@.len() == i,
            forall|j: int|
                0 <= j < i ==> #[trigger] transform_spec(t, lines[j]) == Some(values_view(vals@)[j]),
        decreases ev.lines@.len() - i,
    {
        let line = ev.lines[i].clone();
        proof {
            assert(lines[i as int] == ev.lines@[i as int]@);
            assert(line@ == lines[i as int]);
        }
        let number = (i as u64) + 1;
        match apply_transform(t, line, number) {
            Ok(v) => {
                vals.push(v);
                proof {
                    assert(values_view(vals@)[i as int] == vals@[i as int]@);
                }
            },
            Err(e) => {
                proof {
                    assert(transform_spec(t, lines[i as int]) is None);
                }
                return Err(e);
            },
        }
        i = i + 1;
    }
    match ev.terminal {
        Terminal::End => Ok(vals),
        Terminal::ReadFailed(cause) => Err(PipelineError::LineReadFailed(cause)),
    }
}

/// Runs the whole pipeline: propagates an open failure as
/// `FileOpenFailed`, otherwise aggregates the produced lines.
/// `run_post` pins the result exactly.
pub fn run(input: OpenOutcome, t: Transform) -> (r: Result<Vec<Value>, PipelineError>)
    ensures
        run_post(input@, t, result_view(r)),
{
    match input {
        OpenOutcome::Failed(cause) => Err(PipelineError::FileOpenFailed(cause)),
        OpenOutcome::Opened(ev) => run_lines(ev, t),
    }
}

} // verus!

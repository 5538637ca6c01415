//! Laws of the pipeline, proved from the contracts alone.
//!
//! Each proof function quantifies over any result that satisfies the
//! pipeline's postcondition, so together they show that the contract of
//! `run` pins the behaviour the library promises.

use vstd::prelude::*;

use crate::errors::ErrorView;
use crate::lines::decode_post;
use crate::lines::split_lines_spec;
use crate::lines::utf8_decode;
use crate::pipeline::LineEventsView;
use crate::pipeline::OpenOutcomeView;
use crate::pipeline::TerminalView;
use crate::pipeline::Transform;
use crate::pipeline::ValueView;
use crate::pipeline::lines_post;
use crate::pipeline::run_post;
use crate::pipeline::transform_spec;

verus! {

/// Without a transform, a run over lines whose production ended normally
/// returns exactly those lines, as text, in their original order.
pub proof fn lemma_identity_returns_all_lines(
    lines: Seq<Seq<char>>,
    res: Result<Seq<ValueView>, ErrorView>,
)
    requires
        lines_post(lines, TerminalView::End, Transform::Identity, res),
    ensures
        res matches Ok(vals) && vals.len() == lines.len() && (forall|i: int|
            0 <= i < lines.len() ==> vals[i] == ValueView::Text(lines[i])),
{
    match res {
        Ok(vals) => {
            assert(forall|i: int|
                0 <= i < lines.len() ==> #[trigger] vals[i] == ValueView::Text(lines[i]));
        },
        Err(e) => {
            match e {
                ErrorView::ParseFailed(k, content) => {
                    assert(transform_spec(Transform::Identity, lines[k - 1]) is Some);
                },
                _ => {},
            }
        },
    }
}

/// A well-formed file — one whose every byte line decodes — run without
/// a transform yields one value per line of the file, each the decoded
/// line itself, in file order.
pub proof fn lemma_well_formed_file_returns_all_lines(
    content: Seq<u8>,
    ev: LineEventsView,
    res: Result<Seq<ValueView>, ErrorView>,
)
    requires
        decode_post(content, ev),
        ev.terminal is End,
        lines_post(ev.lines, ev.terminal, Transform::Identity, res),
    ensures
        res matches Ok(vals) && vals.len() == split_lines_spec(content).len() && (forall|i: int|
            0 <= i < vals.len() ==> utf8_decode(split_lines_spec(content)[i]) == Some(
                vals[i]->Text_0,
            ) && vals[i] is Text),
{
    lemma_identity_returns_all_lines(ev.lines, res);
}

/// When line `k` (1-indexed) is the first line the transform rejects,
/// the run fails with `ParseFailed` naming exactly line `k` and its
/// content, whatever came after it.
pub proof fn lemma_first_failure_is_reported(
    lines: Seq<Seq<char>>,
    terminal: TerminalView,
    t: Transform,
    k: int,
    res: Result<Seq<ValueView>, ErrorView>,
)
    requires
        lines_post(lines, terminal, t, res),
        0 <= k < lines.len(),
        transform_spec(t, lines[k]) is None,
        forall|j: int| 0 <= j < k ==> (#[trigger] transform_spec(t, lines[j])) is Some,
    ensures
        res == Err::<Seq<ValueView>, ErrorView>(
            ErrorView::ParseFailed((k + 1) as u64, lines[k]),
        ),
{
    match res {
        Ok(vals) => {
            assert(transform_spec(t, lines[k]) == Some(vals[k]));
        },
        Err(e) => {
            match e {
                ErrorView::ParseFailed(r, content) => {
                    if r - 1 < k {
                        assert(transform_spec(t, lines[r - 1]) is Some);
                    }
                    if r - 1 > k {
                        assert(transform_spec(t, lines[k]) is Some);
                    }
                    assert(r == k + 1);
                },
                ErrorView::LineReadFailed(c) => {
                    assert(transform_spec(t, lines[k]) is Some);
                },
                _ => {},
            }
        },
    }
}

/// A run whose source could not be opened fails with `FileOpenFailed`
/// carrying the cause, and yields no values at all.
pub proof fn lemma_open_failure_yields_no_values(
    cause: Seq<char>,
    t: Transform,
    res: Result<Seq<ValueView>, ErrorView>,
)
    requires
        run_post(OpenOutcomeView::Failed(cause), t, res),
    ensures
        res == Err::<Seq<ValueView>, ErrorView>(ErrorView::FileOpenFailed(cause)),
{
}

/// Two runs over the same input and transform return the same result:
/// the pipeline's postcondition admits exactly one outcome.
pub proof fn lemma_run_deterministic(
    input: OpenOutcomeView,
    t: Transform,
    r1: Result<Seq<ValueView>, ErrorView>,
    r2: Result<Seq<ValueView>, ErrorView>,
)
    requires
        run_post(input, t, r1),
        run_post(input, t, r2),
    ensures
        r1 == r2,
{
    match input {
        OpenOutcomeView::Failed(cause) => {},
        OpenOutcomeView::Opened(ev) => {
            lemma_lines_post_unique(ev.lines, ev.terminal, t, r1, r2);
        },
    }
}

/// Producing lines from fixed file content admits exactly one outcome:
/// a file that does not change between two runs hands both the same
/// lines and the same terminal.
pub proof fn lemma_decode_deterministic(content: Seq<u8>, ev1: LineEventsView, ev2: LineEventsView)
    requires
        decode_post(content, ev1),
        decode_post(content, ev2),
    ensures
        ev1.lines == ev2.lines,
        ev1.terminal == ev2.terminal,
{
    let chunks = split_lines_spec(content);
    match (ev1.terminal, ev2.terminal) {
        (TerminalView::End, TerminalView::End) => {
            assert(forall|i: int|
                0 <= i < chunks.len() ==> #[trigger] ev1.lines[i] == ev2.lines[i]) by {
                assert(forall|i: int|
                    0 <= i < chunks.len() ==> utf8_decode(chunks[i]) == Some(
                        #[trigger] ev1.lines[i],
                    ) && utf8_decode(chunks[i]) == Some(#[trigger] ev2.lines[i]));
            }
            assert(ev1.lines =~= ev2.lines);
        },
        (TerminalView::End, TerminalView::ReadFailed(c2)) => {
            let k = ev2.lines.len() as int;
            assert(utf8_decode(chunks[k]) == Some(ev1.lines[k]));
        },
        (TerminalView::ReadFailed(c1), TerminalView::End) => {
            let k = ev1.lines.len() as int;
            assert(utf8_decode(chunks[k]) == Some(ev2.lines[k]));
        },
        (TerminalView::ReadFailed(c1), TerminalView::ReadFailed(c2)) => {
            let k1 = ev1.lines.len() as int;
            let k2 = ev2.lines.len() as int;
            if k1 < k2 {
                assert(utf8_decode(chunks[k1]) == Some(ev2.lines[k1]));
            }
            if k2 < k1 {
                assert(utf8_decode(chunks[k2]) == Some(ev1.lines[k2]));
            }
            assert(forall|i: int|
                0 <= i < k1 ==> #[trigger] ev1.lines[i] == ev2.lines[i]) by {
                assert(forall|i: int|
                    0 <= i < k1 ==> utf8_decode(chunks[i]) == Some(#[trigger] ev1.lines[i])
                        && utf8_decode(chunks[i]) == Some(#[trigger] ev2.lines[i]));
            }
            assert(ev1.lines =~= ev2.lines);
        },
    }
}

/// Two runs over the unchanged bytes of a file return the same result,
/// whatever the transform.
pub proof fn lemma_file_run_deterministic(
    content: Seq<u8>,
    ev1: LineEventsView,
    ev2: LineEventsView,
    t: Transform,
    r1: Result<Seq<ValueView>, ErrorView>,
    r2: Result<Seq<ValueView>, ErrorView>,
)
    requires
        decode_post(content, ev1),
        decode_post(content, ev2),
        lines_post(ev1.lines, ev1.terminal, t, r1),
        lines_post(ev2.lines, ev2.terminal, t, r2),
    ensures
        r1 == r2,
{
    lemma_decode_deterministic(content, ev1, ev2);
    lemma_lines_post_unique(ev1.lines, ev1.terminal, t, r1, r2);
}

/// The post-relation over produced lines admits exactly one result.
proof fn lemma_lines_post_unique(
    lines: Seq<Seq<char>>,
    terminal: TerminalView,
    t: Transform,
    r1: Result<Seq<ValueView>, ErrorView>,
    r2: Result<Seq<ValueView>, ErrorView>,
)
    requires
        lines_post(lines, terminal, t, r1),
        lines_post(lines, terminal, t, r2),
    ensures
        r1 == r2,
{
    match (r1, r2) {
        (Ok(v1), Ok(v2)) => {
            assert(forall|i: int|
                0 <= i < lines.len() ==> #[trigger] v1[i] == v2[i]) by {
                assert(forall|i: int|
                    0 <= i < lines.len() ==> transform_spec(t, lines[i]) == Some(
                        #[trigger] v1[i],
                    ) && transform_spec(t, lines[i]) == Some(#[trigger] v2[i]));
            }
            assert(v1 =~= v2);
        },
        (Ok(v1), Err(e2)) => {
            match e2 {
                ErrorView::ParseFailed(k, content) => {
                    assert(transform_spec(t, lines[k - 1]) == Some(v1[k - 1]));
                },
                _ => {},
            }
        },
        (Err(e1), Ok(v2)) => {
            match e1 {
                ErrorView::ParseFailed(k, content) => {
                    assert(transform_spec(t, lines[k - 1]) == Some(v2[k - 1]));
                },
                _ => {},
            }
        },
        (Err(e1), Err(e2)) => {
            lemma_err_unique(lines, terminal, t, e1, e2);
        },
    }
}

/// The post-relation admits at most one failure.
proof fn lemma_err_unique(
    lines: Seq<Seq<char>>,
    terminal: TerminalView,
    t: Transform,
    e1: ErrorView,
    e2: ErrorView,
)
    requires
        lines_post(lines, terminal, t, Err(e1)),
        lines_post(lines, terminal, t, Err(e2)),
    ensures
        e1 == e2,
{
    match (e1, e2) {
        (ErrorView::ParseFailed(k1, c1), ErrorView::ParseFailed(k2, c2)) => {
            if k1 < k2 {
                assert(transform_spec(t, lines[k1 - 1]) is Some);
            }
            if k2 < k1 {
                assert(transform_spec(t, lines[k2 - 1]) is Some);
            }
        },
        (ErrorView::ParseFailed(k1, c1), ErrorView::LineReadFailed(c2)) => {
            assert(transform_spec(t, lines[k1 - 1]) is Some);
        },
        (ErrorView::LineReadFailed(c1), ErrorView::ParseFailed(k2, c2)) => {
            assert(transform_spec(t, lines[k2 - 1]) is Some);
        },
        (ErrorView::LineReadFailed(c1), ErrorView::LineReadFailed(c2)) => {},
        _ => {},
    }
}

} // verus!

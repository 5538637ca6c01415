use linepipe::errors::PipelineError;
use linepipe::pipeline::run;
use linepipe::pipeline::run_lines;
use linepipe::pipeline::LineEvents;
use linepipe::pipeline::OpenOutcome;
use linepipe::pipeline::Terminal;
use linepipe::pipeline::Transform;
use linepipe::pipeline::Value;

fn events(lines: &[&str], terminal: Terminal) -> LineEvents {
    LineEvents { lines: lines.iter().map(|s| s.to_string()).collect(), terminal }
}

fn opened(lines: &[&str]) -> OpenOutcome {
    OpenOutcome::Opened(events(lines, Terminal::End))
}

#[test]
fn numeric_run_stops_at_first_bad_line() {
    let r = run(opened(&["3", "4", "x", "5"]), Transform::ParseUnsigned);
    match r {
        Err(PipelineError::ParseFailed(p)) => {
            assert_eq!(p.line_number, 3);
            assert_eq!(p.content, "x");
        },
        other => panic!("expected a parse failure, got {:?}", other),
    }
}

#[test]
fn numeric_run_collects_all_values_in_order() {
    let r = run(opened(&["3", "4", "5"]), Transform::ParseUnsigned);
    assert_eq!(r, Ok(vec![Value::Number(3), Value::Number(4), Value::Number(5)]));
}

#[test]
fn identity_run_returns_lines_unchanged() {
    let r = run(opened(&["alpha", "", "  beta "]), Transform::Identity);
    assert_eq!(
        r,
        Ok(vec![
            Value::Text("alpha".to_string()),
            Value::Text("".to_string()),
            Value::Text("  beta ".to_string()),
        ])
    );
}

#[test]
fn numeric_run_trims_each_line() {
    let r = run(opened(&[" 7\t", "\u{3000}8"]), Transform::ParseUnsigned);
    assert_eq!(r, Ok(vec![Value::Number(7), Value::Number(8)]));
}

#[test]
fn open_failure_propagates_and_yields_no_values() {
    let r = run(OpenOutcome::Failed("No such file".to_string()), Transform::ParseUnsigned);
    assert_eq!(r, Err(PipelineError::FileOpenFailed("No such file".to_string())));
}

#[test]
fn read_failure_propagates_after_good_lines() {
    let ev = events(&["1", "2"], Terminal::ReadFailed("stream did not contain valid UTF-8".to_string()));
    let r = run_lines(ev, Transform::ParseUnsigned);
    assert_eq!(
        r,
        Err(PipelineError::LineReadFailed("stream did not contain valid UTF-8".to_string()))
    );
}

#[test]
fn transform_failure_precedes_read_failure() {
    let ev = events(&["x"], Terminal::ReadFailed("interrupted".to_string()));
    let r = run_lines(ev, Transform::ParseUnsigned);
    match r {
        Err(PipelineError::ParseFailed(p)) => {
            assert_eq!(p.line_number, 1);
            assert_eq!(p.content, "x");
        },
        other => panic!("expected a parse failure, got {:?}", other),
    }
}

#[test]
fn empty_file_yields_empty_sequence() {
    let r = run(opened(&[]), Transform::ParseUnsigned);
    assert_eq!(r, Ok(vec![]));
}

#[test]
fn repeated_runs_agree() {
    let first = run(opened(&["3", "4", "x", "5"]), Transform::ParseUnsigned);
    let second = run(opened(&["3", "4", "x", "5"]), Transform::ParseUnsigned);
    assert_eq!(first, second);
    let first = run(opened(&["3", "4", "5"]), Transform::Identity);
    let second = run(opened(&["3", "4", "5"]), Transform::Identity);
    assert_eq!(first, second);
}

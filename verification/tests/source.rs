use std::io::BufRead;

use linepipe::errors::PipelineError;
use linepipe::lines::line_events_from_bytes;
use linepipe::lines::split_lines;
use linepipe::pipeline::run;
use linepipe::pipeline::OpenOutcome;
use linepipe::pipeline::Terminal;
use linepipe::pipeline::Transform;
use linepipe::pipeline::Value;

fn chunks(content: &[u8]) -> Vec<Vec<u8>> {
    split_lines(&content.to_vec())
}

#[test]
fn splitting_separates_on_newlines() {
    assert_eq!(chunks(b"3\n4\n5"), vec![b"3".to_vec(), b"4".to_vec(), b"5".to_vec()]);
}

#[test]
fn splitting_drops_the_trailing_newline() {
    assert_eq!(chunks(b"a\nb\n"), vec![b"a".to_vec(), b"b".to_vec()]);
}

#[test]
fn splitting_edge_shapes() {
    assert_eq!(chunks(b""), Vec::<Vec<u8>>::new());
    assert_eq!(chunks(b"\n"), vec![b"".to_vec()]);
    assert_eq!(chunks(b"\r\n"), vec![b"".to_vec()]);
    assert_eq!(chunks(b"a\r\nb"), vec![b"a".to_vec(), b"b".to_vec()]);
    // A carriage return is part of the line unless a newline follows it.
    assert_eq!(chunks(b"a\r"), vec![b"a\r".to_vec()]);
    assert_eq!(chunks(b"a\rb\n"), vec![b"a\rb".to_vec()]);
}

#[test]
fn splitting_matches_buffered_lines() {
    for content in [
        b"3\n4\n5".as_slice(),
        b"a\nb\n",
        b"",
        b"\n",
        b"\r\n",
        b"a\r\nb",
        b"a\r",
        b"mid\n\nend",
    ] {
        let expected: Vec<Vec<u8>> =
            content.lines().map(|l| l.unwrap().into_bytes()).collect();
        assert_eq!(chunks(content), expected, "on {:?}", content);
    }
}

#[test]
fn decoding_yields_lines_and_end() {
    let ev = line_events_from_bytes(&b"3\n4".to_vec());
    assert_eq!(ev.lines, vec!["3".to_string(), "4".to_string()]);
    assert_eq!(ev.terminal, Terminal::End);
}

#[test]
fn decoding_really_decodes_multibyte_text() {
    let ev = line_events_from_bytes(&vec![0xC3, 0xA9]);
    assert_eq!(ev.lines, vec!["\u{00E9}".to_string()]);
    assert_eq!(ev.terminal, Terminal::End);
}

#[test]
fn undecodable_bytes_end_production_as_a_read_failure() {
    let ev = line_events_from_bytes(&b"ok\n\xFF\nafter".to_vec());
    assert_eq!(ev.lines, vec!["ok".to_string()]);
    assert_eq!(
        ev.terminal,
        Terminal::ReadFailed("stream did not contain valid UTF-8".to_string())
    );
}

#[test]
fn bytes_to_values_end_to_end() {
    let good = run(
        OpenOutcome::Opened(line_events_from_bytes(&b"3\n4\n5".to_vec())),
        Transform::ParseUnsigned,
    );
    assert_eq!(good, Ok(vec![Value::Number(3), Value::Number(4), Value::Number(5)]));

    let bad = run(
        OpenOutcome::Opened(line_events_from_bytes(&b"3\n4\nx\n5".to_vec())),
        Transform::ParseUnsigned,
    );
    match bad {
        Err(PipelineError::ParseFailed(p)) => {
            assert_eq!(p.line_number, 3);
            assert_eq!(p.content, "x");
        }
        other => panic!("expected a parse failure, got {:?}", other),
    }
}

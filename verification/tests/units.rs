use linepipe::args::resolve_argument;
use linepipe::errors::ParseFailure;
use linepipe::errors::PipelineError;
use linepipe::numbers::format_u64;
use linepipe::numbers::parse_u64;
use linepipe::pipeline::apply_transform;
use linepipe::pipeline::Transform;
use linepipe::pipeline::Value;
use linepipe::text::trimmed;

#[test]
fn missing_argument_is_classified() {
    assert_eq!(resolve_argument(&vec![]), Err(PipelineError::ArgumentMissing));
    assert_eq!(resolve_argument(&vec!["prog".to_string()]), Err(PipelineError::ArgumentMissing));
}

#[test]
fn first_positional_argument_is_taken() {
    let args = vec!["prog".to_string(), "data.txt".to_string(), "extra".to_string()];
    assert_eq!(resolve_argument(&args), Ok("data.txt".to_string()));
}

#[test]
fn parse_accepts_plain_decimals() {
    assert_eq!(parse_u64("0"), Some(0));
    assert_eq!(parse_u64("42"), Some(42));
    assert_eq!(parse_u64("007"), Some(7));
    assert_eq!(parse_u64("+7"), Some(7));
    assert_eq!(parse_u64("18446744073709551615"), Some(u64::MAX));
}

#[test]
fn parse_rejects_what_std_rejects() {
    for s in ["", "+", "-3", "x", "3a", "4 2", "\u{00BD}", "18446744073709551616", "++1", " 1"] {
        assert_eq!(parse_u64(s), None, "on {:?}", s);
        assert_eq!(s.parse::<u64>().ok(), None, "std on {:?}", s);
    }
}

#[test]
fn parse_matches_std() {
    for s in ["0", "42", "007", "+7", "18446744073709551615", "9", "10"] {
        assert_eq!(parse_u64(s), s.parse::<u64>().ok(), "on {:?}", s);
    }
}

#[test]
fn trim_strips_both_ends_only() {
    assert_eq!(trimmed("  3\t"), "3");
    assert_eq!(trimmed(""), "");
    assert_eq!(trimmed(" \u{00A0}\u{2028} "), "");
    assert_eq!(trimmed("a b"), "a b");
    assert_eq!(trimmed("\u{3000}x\u{3000}"), "x");
    assert_eq!(trimmed("inner  kept "), "inner  kept");
}

#[test]
fn trim_matches_std() {
    for s in ["  3\t", "", "   ", "a b", "\u{3000}x\u{3000}", "\r\nnum\r\n"] {
        assert_eq!(trimmed(s), s.trim(), "on {:?}", s);
    }
}

#[test]
fn formatting_writes_decimals() {
    assert_eq!(format_u64(0), "0");
    assert_eq!(format_u64(7), "7");
    assert_eq!(format_u64(10), "10");
    assert_eq!(format_u64(12345), "12345");
    assert_eq!(format_u64(u64::MAX), "18446744073709551615");
}

#[test]
fn formatted_decimals_parse_back() {
    for n in [0, 1, 9, 10, 99, 100, 4096, u64::MAX] {
        assert_eq!(parse_u64(&format_u64(n)), Some(n));
    }
}

#[test]
fn every_error_variant_renders_distinctly() {
    assert_eq!(PipelineError::ArgumentMissing.message(), "Expected filename");
    assert_eq!(
        PipelineError::FileOpenFailed("denied".to_string()).message(),
        "Could not open file: denied"
    );
    assert_eq!(
        PipelineError::LineReadFailed("bad bytes".to_string()).message(),
        "Error reading file: bad bytes"
    );
    assert_eq!(
        PipelineError::ParseFailed(ParseFailure { line_number: 3, content: "x".to_string() })
            .message(),
        "Error parsing file: line 3: x"
    );
}

#[test]
fn identity_transform_passes_text_through() {
    let r = apply_transform(Transform::Identity, "  raw ".to_string(), 1);
    assert_eq!(r, Ok(Value::Text("  raw ".to_string())));
}

#[test]
fn numeric_transform_trims_then_parses() {
    let r = apply_transform(Transform::ParseUnsigned, " 5 ".to_string(), 4);
    assert_eq!(r, Ok(Value::Number(5)));
    let r = apply_transform(Transform::ParseUnsigned, " five ".to_string(), 4);
    assert_eq!(
        r,
        Err(PipelineError::ParseFailed(ParseFailure {
            line_number: 4,
            content: " five ".to_string(),
        }))
    );
}

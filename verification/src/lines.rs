//! The file-backed line source, modelled on bytes.
//!
//! A text file is newline-delimited: each `0x0A` ends a line, a `0x0D`
//! directly before it belongs to the terminator, and a last line may end
//! at the end of the file instead. Splitting is verified here; decoding
//! a line's bytes to text relies on `String::from_utf8`. The first line
//! that does not decode ends production with a read failure, and nothing
//! after it is produced — the same terminal outcome a buffered reader
//! yields on undecodable bytes.

use vstd::prelude::*;

use crate::pipeline::LineEvents;
use crate::pipeline::LineEventsView;
use crate::pipeline::Terminal;
use crate::pipeline::TerminalView;
use crate::pipeline::lines_view;

verus! {

/// A line terminator's optional `0x0D`, stripped when the line was ended
/// by a `0x0A`.
pub open spec fn strip_cr(l: Seq<u8>) -> Seq<u8> {
    if l.len() > 0 && l.last() == 13 {
        l.drop_last()
    } else {
        l
    }
}

/// The lines of `rest`, scanned byte by byte with `cur` the part of the
/// current line already seen: each `0x0A` ends a line, and a nonempty
/// remainder forms a last line that keeps its bytes as they stand.
pub open spec fn scan_lines(cur: Seq<u8>, rest: Seq<u8>) -> Seq<Seq<u8>>
    decreases rest.len(),
{
    if rest.len() == 0 {
        if cur.len() == 0 {
            Seq::empty()
        } else {
            seq![cur]
        }
    } else if rest[0] == 10 {
        seq![strip_cr(cur)] + scan_lines(Seq::empty(), rest.drop_first())
    } else {
        scan_lines(cur.push(rest[0]), rest.drop_first())
    }
}

/// The byte lines of a whole file, as a buffered reader would produce
/// them: terminators stripped, no empty line after a final `0x0A`.
pub open spec fn split_lines_spec(content: Seq<u8>) -> Seq<Seq<u8>> {
    scan_lines(Seq::empty(), content)
}

/// The views of a sequence of byte lines.
pub open spec fn byte_lines_view(lines: Seq<Vec<u8>>) -> Seq<Seq<u8>> {
    lines.map(|i: int, l: Vec<u8>| l@)
}

/// Splits file content into its lines, stripping each line's terminator.
pub fn split_lines(content: &Vec<u8>) -> (r: Vec<Vec<u8>>)
    ensures
        byte_lines_view(r@) == split_lines_spec(content@),
{
    let mut out: Vec<Vec<u8>> = Vec::new();
    let mut cur: Vec<u8> = Vec::new();
    let mut j: usize = 0;
    proof {
        assert(content@.skip(0) =~= content@);
        assert(byte_lines_view(out@) + scan_lines(cur@, content@) =~= scan_lines(
            Seq::empty(),
            content@,
        ));
    }
    while j < content.len()
        invariant
            0 <= j <= content@.len(),
            split_lines_spec(content@) == byte_lines_view(out@) + scan_lines(
                cur@,
                content@.skip(j as int),
            ),
        decreases content@.len() - j,
    {
        let ghost rest = content@.skip(j as int);
        let ghost out0 = out@;
        let ghost cur0 = cur@;
        proof {
            assert(rest[0] == content@[j as int]);
            assert(rest.drop_first() =~= content@.skip(j + 1));
        }
        let b = content[j];
        if b == 10 {
            let mut line = cur;
            cur = Vec::new();
            if line.len() > 0 && line[line.len() - 1] == 13 {
                line.pop();
            }
            proof {
                assert(line@ == strip_cr(cur0));
            }
            out.push(line);
            proof {
                assert(byte_lines_view(out@) =~= byte_lines_view(out0) + seq![strip_cr(cur0)]);
                assert(byte_lines_view(out@) + scan_lines(cur@, content@.skip(j + 1))
                    =~= byte_lines_view(out0) + scan_lines(cur0, rest));
            }
        } else {
            cur.push(b);
            proof {
                assert(scan_lines(cur0, rest) == scan_lines(cur@, content@.skip(j + 1)));
            }
        }
        j = j + 1;
    }
    proof {
        assert(content@.skip(content@.len() as int) =~= Seq::<u8>::empty());
    }
    let ghost out0 = out@;
    let ghost cur0 = cur@;
    if cur.len() > 0 {
        out.push(cur);
        proof {
            assert(scan_lines(cur0, Seq::empty()) =~= seq![cur0]);
            assert(byte_lines_view(out@) =~= byte_lines_view(out0) + seq![cur0]);
        }
    } else {
        proof {
            assert(scan_lines(cur0, Seq::empty()) =~= Seq::<Seq<u8>>::empty());
            assert(byte_lines_view(out@) =~= byte_lines_view(out0) + scan_lines(
                cur0,
                Seq::empty(),
            ));
        }
    }
    out
}

/// What `String::from_utf8` yields on a byte sequence: the decoded text
/// where the bytes are valid UTF-8, nothing where they are not.
pub uninterp spec fn utf8_decode(bytes: Seq<u8>) -> Option<Seq<char>>;

/// Relies on `String::from_utf8`: it succeeds exactly on the byte
/// sequences that are valid UTF-8, and what it decodes is a function of
/// the bytes alone.
#[verifier::external_body]
fn decode_line(bytes: &Vec<u8>) -> (r: Option<String>)
    ensures
        r is Some <==> utf8_decode(bytes@) is Some,
        r matches Some(s) ==> utf8_decode(bytes@) == Some(s@),
{
    String::from_utf8(bytes.clone()).ok()
}

/// The rendered cause a read failure on undecodable bytes carries, the
/// diagnostic a buffered reader gives them.
pub open spec fn bad_bytes_cause() -> Seq<char> {
    "stream did not contain valid UTF-8"@
}

/// What producing lines from file content must yield: the content's
/// byte lines decoded in order — all of them, ended normally; or those
/// before the first undecodable one, ended by a read failure.
pub open spec fn decode_post(content: Seq<u8>, ev: LineEventsView) -> bool {
    let chunks = split_lines_spec(content);
    match ev.terminal {
        TerminalView::End => {
            &&& ev.lines.len() == chunks.len()
            &&& forall|i: int|
                0 <= i < chunks.len() ==> utf8_decode(chunks[i]) == Some(#[trigger] ev.lines[i])
        },
        TerminalView::ReadFailed(c) => {
            &&& ev.lines.len() < chunks.len()
            &&& utf8_decode(chunks[ev.lines.len() as int]) is None
            &&& forall|i: int|
                0 <= i < ev.lines.len() ==> utf8_decode(chunks[i]) == Some(
                    #[trigger] ev.lines[i],
                )
            &&& c == bad_bytes_cause()
        },
    }
}

/// Produces the line events of file content: its decoded lines in file
/// order, ended by the end of the content or by the first line whose
/// bytes do not decode. `decode_post` pins the result exactly.
pub fn line_events_from_bytes(content: &Vec<u8>) -> (r: LineEvents)
    ensures
        decode_post(content@, r@),
{
    let chunks = split_lines(content);
    let ghost cs = byte_lines_view(chunks@);
    let mut lines: Vec<String> = Vec::new();
    let mut i: usize = 0;
    while i < chunks.len()
        invariant
            cs == split_lines_spec(content@),
            cs == byte_lines_view(chunks@),
            cs.len() == chunks@.len(),
            0 <= i <= chunks@.len(),
            lines@.len() == i,
            forall|k: int|
                0 <= k < i ==> utf8_decode(cs[k]) == Some(#[trigger] lines_view(lines@)[k]),
        decreases chunks@.len() - i,
    {
        proof {
            assert(cs[i as int] == chunks@[i as int]@);
        }
        match decode_line(&chunks[i]) {
            Some(s) => {
                let ghost lines0 = lines@;
                lines.push(s);
                proof {
                    assert(lines_view(lines@)[i as int] == lines@[i as int]@);
                    assert(forall|k: int|
                        0 <= k < i ==> #[trigger] lines_view(lines@)[k] == lines_view(lines0)[k]);
                }
            },
            None => {
                return LineEvents {
                    lines,
                    terminal: Terminal::ReadFailed(
                        String::from_str("stream did not contain valid UTF-8"),
                    ),
                };
            },
        }
        i = i + 1;
    }
    LineEvents { lines, terminal: Terminal::End }
}

} // verus!

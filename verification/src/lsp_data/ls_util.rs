//! Conversions between the protocol's positions, which count in 64 bits, and
//! spans, which count in 32.

use vstd::prelude::*;
use vstd::std_specs::iter::IteratorSpec;
use crate::lsp_data::{
    file_path_of, parse_file_path, url_scheme, Location, Position, Range, UrlFileParseError,
};
use crate::span;

verus! {

/// The span position of a protocol position: line and character, each cut
/// to its low 32 bits.
pub open spec fn position_as_span(p: Position) -> span::Position {
    span::Position { row: span::Row(p.line as u32), col: span::Column(p.character as u32) }
}

/// The span range between the span positions of the two ends.
pub open spec fn range_as_span(r: Range) -> span::Range {
    span::Range {
        row_start: span::Row(r.start.line as u32),
        row_end: span::Row(r.end.line as u32),
        col_start: span::Column(r.start.character as u32),
        col_end: span::Column(r.end.character as u32),
    }
}

pub fn range_to_span(r: Range) -> (res: span::Range)
    ensures
        res == range_as_span(r),
{
    span::Range::from_positions(position_to_span(r.start), position_to_span(r.end))
}

pub fn position_to_span(p: Position) -> (res: span::Position)
    ensures
        res == position_as_span(p),
{
    span::Position::new(
        span::Row(#[verifier::truncate] (p.line as u32)),
        span::Column(#[verifier::truncate] (p.character as u32)),
    )
}

pub fn location_to_span(l: Location) -> (res: Result<span::Span, UrlFileParseError>)
    ensures
        res == match file_path_of(l.uri) {
            Ok(file) => Ok::<_, UrlFileParseError>(
                (span::Span { file, range: range_as_span(l.range) }),
            ),
            Err(e) => Err(e),
        },
{
    match parse_file_path(&l.uri) {
        Ok(path) => Ok(span::Span::from_range(range_to_span(l.range), path)),
        Err(e) => Err(e),
    }
}

/// The protocol's range between the protocol's positions of the two ends.
pub open spec fn range_of_span(r: span::Range) -> Range {
    Range { start: position_of_span(r.start()), end: position_of_span(r.end()) }
}

#[verifier::when_used_as_spec(range_of_span)]
pub fn span_to_range(r: span::Range) -> (res: Range)
    ensures
        res == range_of_span(r),
{
    Range { start: span_to_position(r.exec_start()), end: span_to_position(r.exec_end()) }
}

pub open spec fn position_of_span(p: span::Position) -> Position {
    Position { line: p.row.0 as u64, character: p.col.0 as u64 }
}

#[verifier::when_used_as_spec(position_of_span)]
pub fn span_to_position(p: span::Position) -> (res: Position)
    ensures
        res == position_of_span(p),
{
    Position { line: p.row.0 as u64, character: p.col.0 as u64 }
}

/// The `file` URI that names the file at a path by the rules of the
/// platform, or `None` where the path has none: it is not absolute.
pub uninterp spec fn file_path_url(path: std::path::PathBuf) -> Option<url::Url>;

/// Calls `Url::from_file_path`, which reads the path and nothing else. A
/// URI that it gives is one of the scheme `file`.
#[verifier::external_body]
fn url_from_file_path(path: &std::path::PathBuf) -> (res: Result<url::Url, ()>)
    ensures
        match res {
            Ok(uri) => file_path_url(*path) == Some(uri) && url_scheme(uri) == "file"@,
            Err(_) => file_path_url(*path) is None,
        },
{
    url::Url::from_file_path(path)
}

/// The location of `range` in the file at `path`, where the path has a URI.
pub open spec fn location_in(path: std::path::PathBuf, range: Range) -> Option<Location> {
    match file_path_url(path) {
        Some(uri) => Some(Location { uri, range }),
        None => None,
    }
}

/// The location of a span, where its file has a URI: a `file` URI and the
/// range of the span. A path that is not absolute has no URI.
pub fn span_to_location(span: &span::Span) -> (res: Option<Location>)
    ensures
        res == location_in(span.file, span_to_range(span.range)),
        res is Some ==> url_scheme(res->0.uri) == "file"@,
{
    location_of(url_from_file_path(&span.file), span_to_range(span.range))
}

/// The location of a position in a file, where the file has a URI: a `file`
/// URI and the empty range at the position.
pub fn span_location_to_location(l: &span::Location) -> (res: Option<Location>)
    ensures
        res == location_in(
            l.file,
            (Range { start: span_to_position(l.position), end: span_to_position(l.position) }),
        ),
        res is Some ==> url_scheme(res->0.uri) == "file"@,
{
    location_of(
        url_from_file_path(&l.file),
        span_to_range(span::Range::from_positions(l.position, l.position)),
    )
}

/// What becomes of the platform's answer for the path of a file: the
/// location of `range` in the document that the URI names, and none where
/// the path has no URI.
pub fn location_of(uri: Result<url::Url, ()>, range: Range) -> (res: Option<Location>)
    ensures
        res == match uri {
            Ok(uri) => Some((Location { uri, range })),
            Err(_) => None,
        },
{
    match uri {
        Ok(uri) => Some(Location { uri, range }),
        Err(_) => None,
    }
}

/// How many line feeds a text holds.
pub open spec fn line_feeds(text: Seq<char>) -> nat
    decreases text.len(),
{
    if text.len() == 0 {
        0
    } else if text.last() == '\n' {
        line_feeds(text.drop_last()) + 1
    } else {
        line_feeds(text.drop_last())
    }
}

/// How many characters follow the last line feed of a text.
pub open spec fn last_line_length(text: Seq<char>) -> nat
    decreases text.len(),
{
    if text.len() == 0 || text.last() == '\n' {
        0
    } else {
        last_line_length(text.drop_last()) + 1
    }
}

proof fn lemma_counts_within_length(text: Seq<char>)
    ensures
        line_feeds(text) <= text.len(),
        last_line_length(text) <= text.len(),
    decreases text.len(),
{
    if text.len() > 0 {
        lemma_counts_within_length(text.drop_last());
    }
}

/// The range that spans the whole of `content`, the text of a file: from
/// the first position to the end of the last line, which is the line after
/// the last line feed.
pub fn range_from_vfs_file(content: &str) -> (range: Range)
    requires
        content@.len() <= u64::MAX,
    ensures
        range.start == (Position { line: 0, character: 0 }),
        range.end.line == line_feeds(content@),
        range.end.character == last_line_length(content@),
{
    broadcast use vstd::string::group_string_axioms;

    let mut line_count: u64 = 0;
    let mut col: u64 = 0;
    let mut chars = content.chars();
    let ghost mut seen: int = 0;
    loop
        invariant_except_break
            chars.remaining() == content@.skip(seen),
        invariant
            content@.len() <= u64::MAX,
            0 <= seen <= content@.len(),
            line_count == line_feeds(content@.take(seen)),
            col == last_line_length(content@.take(seen)),
        ensures
            seen == content@.len(),
        decreases content@.len() - seen,
    {
        match chars.next() {
            None => {
                break ;
            },
            Some(c) => {
                proof {
                    assert(c == content@[seen]);
                    assert(content@.take(seen + 1).drop_last() =~= content@.take(seen));
                    assert(content@.take(seen + 1).last() == c);
                    lemma_counts_within_length(content@.take(seen + 1));
                    seen = seen + 1;
                }
                if c == '\n' {
                    line_count = line_count + 1;
                    col = 0;
                } else {
                    col = col + 1;
                }
            },
        }
    }
    proof {
        assert(content@.take(seen) =~= content@);
    }
    Range { start: Position::new(0, 0), end: Position::new(line_count, col) }
}

} // verus!

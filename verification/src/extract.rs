//! Extraction of instants from raw log lines.
//!
//! Each raw line is expected to begin with a fixed-width RFC3339 timestamp
//! (`YYYY-MM-DDTHH:MM:SS+HH:MM`, 25 characters); the rest of the line is
//! payload and is ignored. A line that is too short, or whose prefix does not
//! parse, is a parse error, and extraction stops at the first such line.

use vstd::prelude::*;
use vstd::string::StrSliceExecFns;

verus! {

/// Width, in characters, of the timestamp prefix of a raw log line.
pub const TIMESTAMP_WIDTH: usize = 25;

/// The instant that an RFC3339 timestamp string denotes, as whole seconds
/// since the Unix epoch, or `None` where the string is not a well-formed
/// RFC3339 date-time. The denotation depends on the characters alone.
pub uninterp spec fn rfc3339_instant(s: Seq<char>) -> Option<i64>;

/// Relies on chrono's `DateTime::parse_from_rfc3339` and
/// `DateTime::timestamp`: whether a string parses as an RFC3339 date-time,
/// and the epoch second it names, are functions of its characters alone.
#[verifier::external_body]
fn parse_rfc3339(s: &str) -> (r: Option<i64>)
    ensures
        r == rfc3339_instant(s@),
{
    match chrono::DateTime::parse_from_rfc3339(s) {
        Ok(dt) => Some(dt.timestamp()),
        Err(_) => None,
    }
}

/// Why a raw log line was rejected.
#[derive(Clone, Copy, Debug, PartialEq, Eq, Structural)]
pub enum ParseErrorKind {
    /// The line holds fewer than `TIMESTAMP_WIDTH` characters.
    TooShort,
    /// The prefix is not a well-formed RFC3339 timestamp.
    BadTimestamp,
}

/// A rejected raw log line: which line failed and why.
#[derive(Clone, Copy, Debug, PartialEq, Eq, Structural)]
pub struct ParseError {
    /// Index of the offending line in the input, counted from zero.
    pub line_index: usize,
    /// Why that line was rejected.
    pub kind: ParseErrorKind,
}

/// What extracting one raw line yields: the instant its prefix denotes, or
/// the reason it is rejected.
pub open spec fn spec_parse_line(line: Seq<char>) -> Result<i64, ParseErrorKind> {
    if line.len() < TIMESTAMP_WIDTH {
        Err(ParseErrorKind::TooShort)
    } else {
        match rfc3339_instant(line.subrange(0, TIMESTAMP_WIDTH as int)) {
            Some(t) => Ok(t),
            None => Err(ParseErrorKind::BadTimestamp),
        }
    }
}

/// Extracts the instant from one raw log line: the first `TIMESTAMP_WIDTH`
/// characters are read as an RFC3339 timestamp and converted to epoch
/// seconds; sub-second precision and the UTC offset are consumed by parsing
/// but not kept.
pub fn parse_line(line: &str) -> (r: Result<i64, ParseErrorKind>)
    ensures
        r == spec_parse_line(line@),
{
    let len = line.unicode_len();
    if len < TIMESTAMP_WIDTH {
        Err(ParseErrorKind::TooShort)
    } else {
        let prefix = line.substring_char(0, TIMESTAMP_WIDTH);
        match parse_rfc3339(prefix) {
            Some(t) => Ok(t),
            None => Err(ParseErrorKind::BadTimestamp),
        }
    }
}

/// Extracts one instant per raw log line, in input order. Succeeds if and
/// only if every line parses; otherwise reports the first offending line and
/// why it was rejected (fail-fast: no instant is produced past that line).
pub fn extract_instants(lines: &Vec<String>) -> (r: Result<Vec<i64>, ParseError>)
    ensures
        r is Ok <==> (forall|i: int|
            0 <= i < lines@.len() ==> #[trigger] spec_parse_line(lines@[i]@) is Ok),
        r matches Ok(instants) ==> {
            &&& instants@.len() == lines@.len()
            &&& forall|i: int|
                0 <= i < lines@.len() ==> #[trigger] spec_parse_line(lines@[i]@) == Ok::<
                    i64,
                    ParseErrorKind,
                >(instants@[i])
        },
        r matches Err(e) ==> {
            &&& e.line_index < lines@.len()
            &&& spec_parse_line(lines@[e.line_index as int]@) == Err::<i64, ParseErrorKind>(e.kind)
            &&& forall|i: int|
                0 <= i < e.line_index ==> #[trigger] spec_parse_line(lines@[i]@) is Ok
        },
{
    let mut instants: Vec<i64> = Vec::new();
    let n = lines.len();
    let mut i: usize = 0;
    while i < n
        invariant
            n == lines@.len(),
            i <= n,
            instants@.len() == i,
            forall|j: int|
                0 <= j < i ==> #[trigger] spec_parse_line(lines@[j]@) == Ok::<
                    i64,
                    ParseErrorKind,
                >(instants@[j]),
        decreases n - i,
    {
        match parse_line(lines[i].as_str()) {
            Ok(t) => instants.push(t),
            Err(kind) => {
                return Err(ParseError { line_index: i, kind });
            },
        }
        i = i + 1;
    }
    Ok(instants)
}

} // verus!

//! Rendering of instants back into display lines.
//!
//! Each instant (whole seconds since the Unix epoch) is rendered as a naive
//! date-time string — `YYYY-MM-DD HH:MM:SS`, no offset, no sub-second part —
//! one line per instant, in the order of the sequence.

use vstd::prelude::*;

verus! {

/// The naive (offset-free) `YYYY-MM-DD HH:MM:SS` rendering of an instant, or
/// `None` where the instant lies outside the representable date range. The
/// rendering depends on the instant alone.
pub uninterp spec fn naive_display(t: i64) -> Option<Seq<char>>;

/// Relies on chrono's `DateTime::from_timestamp` (documented to return `None`
/// exactly on an out-of-range number of seconds), `DateTime::naive_utc`, and
/// the `Display` impl of `NaiveDateTime` (documented as
/// `%Y-%m-%d %H:%M:%S%.f`, with the fractional part empty here since the
/// nanosecond component is zero): the rendering is a function of the instant
/// alone.
#[verifier::external_body]
fn display_instant(t: i64) -> (r: Option<String>)
    ensures
        r is Some <==> naive_display(t) is Some,
        r matches Some(s) ==> naive_display(t) == Some(s@),
{
    match chrono::DateTime::<chrono::Utc>::from_timestamp(t, 0) {
        Some(dt) => Some(format!("{}", dt.naive_utc())),
        None => None,
    }
}

/// An instant that cannot be rendered: which position failed and what the
/// instant was.
#[derive(Clone, Copy, Debug, PartialEq, Eq, Structural)]
pub struct RenderError {
    /// Index of the offending instant in the sequence, counted from zero.
    pub index: usize,
    /// The instant that lies outside the representable date range.
    pub instant: i64,
}

/// Renders one display line per instant, in sequence order. Succeeds if and
/// only if every instant is representable; otherwise reports the first
/// offending position (fail-fast: no line is produced past that position).
pub fn render_lines(instants: &Vec<i64>) -> (r: Result<Vec<String>, RenderError>)
    ensures
        r is Ok <==> (forall|i: int|
            0 <= i < instants@.len() ==> #[trigger] naive_display(instants@[i]) is Some),
        r matches Ok(lines) ==> {
            &&& lines@.len() == instants@.len()
            &&& forall|i: int|
                0 <= i < instants@.len() ==> #[trigger] naive_display(instants@[i]) == Some(
                    lines@[i]@,
                )
        },
        r matches Err(e) ==> {
            &&& e.index < instants@.len()
            &&& e.instant == instants@[e.index as int]
            &&& naive_display(e.instant) is None
            &&& forall|i: int|
                0 <= i < e.index ==> #[trigger] naive_display(instants@[i]) is Some
        },
{
    let mut lines: Vec<String> = Vec::new();
    let n = instants.len();
    let mut i: usize = 0;
    while i < n
        invariant
            n == instants@.len(),
            i <= n,
            lines@.len() == i,
            forall|j: int|
                0 <= j < i ==> #[trigger] naive_display(instants@[j]) == Some(lines@[j]@),
        decreases n - i,
    {
        let t = instants[i];
        match display_instant(t) {
            Some(s) => lines.push(s),
            None => {
                return Err(RenderError { index: i, instant: t });
            },
        }
        i = i + 1;
    }
    Ok(lines)
}

} // verus!

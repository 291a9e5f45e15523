//! The end-to-end transform: raw log lines in, sorted display lines out.
//!
//! Extraction, sorting, and rendering are wired together here. The pipeline
//! is fail-fast: the first unparseable line, or the first unrepresentable
//! instant, aborts the whole transform with an error naming the failure
//! point.

use crate::emit::{naive_display, render_lines, RenderError};
use crate::extract::{extract_instants, spec_parse_line, ParseError, ParseErrorKind};
use crate::sort::{insertion_sort, lemma_sorted_version_ensures, sorted, sorted_version};
use vstd::prelude::*;

verus! {

/// Every raw line parses.
pub open spec fn all_lines_parse(lines: Seq<String>) -> bool {
    forall|i: int| 0 <= i < lines.len() ==> #[trigger] spec_parse_line(lines[i]@) is Ok
}

/// The instants the raw lines denote, in input order. Meaningful where every
/// line parses.
pub open spec fn extracted_instants(lines: Seq<String>) -> Seq<i64> {
    Seq::new(lines.len(), |i: int| spec_parse_line(lines[i]@).unwrap())
}

/// Why the pipeline failed.
#[derive(Clone, Copy, Debug, PartialEq, Eq, Structural)]
pub enum PipelineError {
    /// A raw line was rejected; extraction stopped there.
    Parse(ParseError),
    /// A sorted instant could not be rendered; emission stopped there.
    Render(RenderError),
}

/// Runs the whole transform on in-memory lines: extracts one instant per raw
/// line, orders the instants ascending, and renders one naive date-time
/// string per instant in that order. Succeeds if and only if every line
/// parses and every instant is representable; the output then holds exactly
/// the renderings of the sorted instants, and as many lines as came in.
pub fn run_pipeline(lines: &Vec<String>) -> (r: Result<Vec<String>, PipelineError>)
    ensures
        match r {
            Ok(out) => {
                &&& all_lines_parse(lines@)
                &&& out@.len() == lines@.len()
                &&& forall|i: int|
                    0 <= i < out@.len() ==> naive_display(
                        #[trigger] sorted_version(extracted_instants(lines@))[i],
                    ) == Some(out@[i]@)
            },
            Err(PipelineError::Parse(e)) => {
                &&& e.line_index < lines@.len()
                &&& spec_parse_line(lines@[e.line_index as int]@) == Err::<i64, ParseErrorKind>(
                    e.kind,
                )
                &&& forall|i: int|
                    0 <= i < e.line_index ==> #[trigger] spec_parse_line(lines@[i]@) is Ok
            },
            Err(PipelineError::Render(e)) => {
                &&& all_lines_parse(lines@)
                &&& e.index < lines@.len()
                &&& e.instant == sorted_version(extracted_instants(lines@))[e.index as int]
                &&& naive_display(e.instant) is None
                &&& forall|i: int|
                    0 <= i < e.index ==> naive_display(
                        #[trigger] sorted_version(extracted_instants(lines@))[i],
                    ) is Some
            },
        },
        lines@.len() == 0 ==> (r matches Ok(out) && out@.len() == 0),
{
    let mut instants = match extract_instants(lines) {
        Ok(v) => v,
        Err(e) => {
            return Err(PipelineError::Parse(e));
        },
    };
    proof {
        assert(instants@ =~= extracted_instants(lines@));
    }
    insertion_sort(&mut instants);
    proof {
        lemma_sorted_version_ensures(extracted_instants(lines@));
    }
    match render_lines(&instants) {
        Ok(out) => Ok(out),
        Err(e) => Err(PipelineError::Render(e)),
    }
}

/// The instants underlying any successful pipeline output are in
/// non-decreasing order: the output renders `sorted_version` of the
/// extracted instants, and that sequence is sorted.
pub proof fn lemma_output_instants_sorted(lines: Seq<String>)
    ensures
        sorted(sorted_version(extracted_instants(lines))),
        sorted_version(extracted_instants(lines)).to_multiset() == extracted_instants(
            lines,
        ).to_multiset(),
        sorted_version(extracted_instants(lines)).len() == lines.len(),
{
    lemma_sorted_version_ensures(extracted_instants(lines));
}

} // verus!

use logsort::extract::{parse_line, ParseErrorKind};
use logsort::pipeline::{run_pipeline, PipelineError};

fn strings(lines: &[&str]) -> Vec<String> {
    lines.iter().map(|l| l.to_string()).collect()
}

#[test]
fn three_records() {
    let input = strings(&[
        "2021-03-01T10:00:00+00:00 A",
        "2021-01-01T00:00:00+00:00 B",
        "2021-02-15T05:30:00+00:00 C",
    ]);
    let output = run_pipeline(&input).unwrap();
    assert_eq!(
        output,
        strings(&[
            "2021-01-01 00:00:00",
            "2021-02-15 05:30:00",
            "2021-03-01 10:00:00",
        ])
    );
}

#[test]
fn empty_input() {
    let input: Vec<String> = Vec::new();
    let output = run_pipeline(&input).unwrap();
    assert_eq!(output.len(), 0);
}

#[test]
fn output_length_matches_input_length() {
    let input = strings(&[
        "1999-12-31T23:59:59+00:00 y2k minus one",
        "2000-01-01T00:00:00+00:00 y2k",
        "1970-01-01T00:00:00+00:00 epoch",
        "2000-01-01T00:00:00+00:00 y2k again",
    ]);
    let output = run_pipeline(&input).unwrap();
    assert_eq!(output.len(), input.len());
}

#[test]
fn output_reparses_nondecreasing() {
    let input = strings(&[
        "2021-03-01T10:00:00+00:00 A",
        "1970-01-01T00:00:00+00:00 B",
        "2021-03-01T10:00:00+05:00 C",
        "1969-07-20T20:17:00+00:00 D",
        "2021-03-01T10:00:00-03:30 E",
    ]);
    let output = run_pipeline(&input).unwrap();
    let reparsed: Vec<i64> = output
        .iter()
        .map(|l| {
            chrono::NaiveDateTime::parse_from_str(l, "%Y-%m-%d %H:%M:%S")
                .unwrap()
                .and_utc()
                .timestamp()
        })
        .collect();
    for w in reparsed.windows(2) {
        assert!(w[0] <= w[1]);
    }
}

#[test]
fn output_is_permutation_of_input() {
    let input = strings(&[
        "2021-03-01T10:00:00+00:00 A",
        "1970-01-01T00:00:00+00:00 B",
        "2021-03-01T10:00:00+00:00 duplicate of A",
        "1969-07-20T20:17:00+00:00 before the epoch",
    ]);
    let mut input_instants: Vec<i64> = input
        .iter()
        .map(|l| parse_line(l).unwrap())
        .collect();
    let output = run_pipeline(&input).unwrap();
    let mut output_instants: Vec<i64> = output
        .iter()
        .map(|l| {
            chrono::NaiveDateTime::parse_from_str(l, "%Y-%m-%d %H:%M:%S")
                .unwrap()
                .and_utc()
                .timestamp()
        })
        .collect();
    input_instants.sort();
    output_instants.sort();
    assert_eq!(input_instants, output_instants);
}

#[test]
fn short_line_aborts() {
    let input = strings(&["2021-03-01T10:00:00+00:00 ok", "2021-01-01", "also bad"]);
    match run_pipeline(&input) {
        Err(PipelineError::Parse(e)) => {
            assert_eq!(e.line_index, 1);
            assert_eq!(e.kind, ParseErrorKind::TooShort);
        }
        other => panic!("expected a parse error, got {:?}", other),
    }
}

#[test]
fn bad_prefix_aborts() {
    let input = strings(&["XXXX-03-01T10:00:00+00:00 not a year"]);
    match run_pipeline(&input) {
        Err(PipelineError::Parse(e)) => {
            assert_eq!(e.line_index, 0);
            assert_eq!(e.kind, ParseErrorKind::BadTimestamp);
        }
        other => panic!("expected a parse error, got {:?}", other),
    }
}

#[test]
fn invalid_calendar_date_aborts() {
    let input = strings(&["2021-02-30T10:00:00+00:00 no such day"]);
    match run_pipeline(&input) {
        Err(PipelineError::Parse(e)) => {
            assert_eq!(e.line_index, 0);
            assert_eq!(e.kind, ParseErrorKind::BadTimestamp);
        }
        other => panic!("expected a parse error, got {:?}", other),
    }
}

#[test]
fn payload_after_prefix_is_ignored(){
    let input = strings(&["2021-01-01T00:00:00+00:00 !! arbitrary trailing junk 123"]);
    let output = run_pipeline(&input).unwrap();
    assert_eq!(output, strings(&["2021-01-01 00:00:00"]));
}

#[test]
fn offset_is_applied_then_stripped() {
    // 10:00:00 at +05:00 is 05:00:00 UTC.
    let input = strings(&["2021-03-01T10:00:00+05:00 A"]);
    let output = run_pipeline(&input).unwrap();
    assert_eq!(output, strings(&["2021-03-01 05:00:00"]));
}

use catr::{Config, Event, OpenError, ReadError, SourceError, Transformer};

fn options(number_lines: bool, number_nonblank_lines: bool, squeeze_blank_lines: bool) -> Config {
    Config::new(Vec::new(), number_lines, number_nonblank_lines, squeeze_blank_lines).unwrap()
}

#[test]
fn new_transformer_is_at_the_start() {
    let transformer = Transformer::new();
    assert_eq!(transformer.line_count(), 0);
    assert!(!transformer.blank_run());
}

#[test]
fn plain_line_is_answered_unchanged() {
    let config = options(false, false, false);
    let mut transformer = Transformer::new();
    assert_eq!(transformer.step(&config, Event::Line("Hello")), Ok(Some("Hello".to_string())));
    assert_eq!(transformer.step(&config, Event::Line("")), Ok(Some(String::new())));
    assert_eq!(transformer.line_count(), 0);
    assert!(!transformer.blank_run());
}

#[test]
fn every_line_gets_the_next_number() {
    let config = options(true, false, false);
    let mut transformer = Transformer::new();
    assert_eq!(transformer.step(&config, Event::Line("a")), Ok(Some("     1\ta".to_string())));
    assert_eq!(transformer.step(&config, Event::Line("")), Ok(Some("     2\t".to_string())));
    assert_eq!(transformer.step(&config, Event::Line("b")), Ok(Some("     3\tb".to_string())));
    assert_eq!(transformer.line_count(), 3);
}

#[test]
fn empty_lines_get_no_number_when_only_nonblank_are_numbered() {
    let config = options(false, true, false);
    let mut transformer = Transformer::new();
    assert_eq!(transformer.step(&config, Event::Line("")), Ok(Some(String::new())));
    assert_eq!(transformer.line_count(), 0);
    assert_eq!(transformer.step(&config, Event::Line("a")), Ok(Some("     1\ta".to_string())));
    assert_eq!(transformer.step(&config, Event::Line("")), Ok(Some(String::new())));
    assert_eq!(transformer.step(&config, Event::Line("b")), Ok(Some("     2\tb".to_string())));
    assert_eq!(transformer.line_count(), 2);
}

#[test]
fn a_line_of_spaces_is_not_blank() {
    let config = options(false, true, true);
    let mut transformer = Transformer::new();
    assert_eq!(transformer.step(&config, Event::Line(" ")), Ok(Some("     1\t ".to_string())));
    assert_eq!(transformer.step(&config, Event::Line(" ")), Ok(Some("     2\t ".to_string())));
    assert!(!transformer.blank_run());
}

#[test]
fn second_empty_line_is_skipped_when_squeezing() {
    let config = options(false, false, true);
    let mut transformer = Transformer::new();
    assert_eq!(transformer.step(&config, Event::Line("")), Ok(Some(String::new())));
    assert!(transformer.blank_run());
    assert_eq!(transformer.step(&config, Event::Line("")), Ok(None));
    assert_eq!(transformer.step(&config, Event::Line("")), Ok(None));
    assert!(transformer.blank_run());
    assert_eq!(transformer.step(&config, Event::Line("a")), Ok(Some("a".to_string())));
    assert!(!transformer.blank_run());
    assert_eq!(transformer.step(&config, Event::Line("")), Ok(Some(String::new())));
}

#[test]
fn skipped_line_does_not_count() {
    let config = options(true, false, true);
    let mut transformer = Transformer::new();
    assert_eq!(transformer.step(&config, Event::Line("")), Ok(Some("     1\t".to_string())));
    assert_eq!(transformer.step(&config, Event::Line("")), Ok(None));
    assert_eq!(transformer.line_count(), 1);
    assert_eq!(transformer.step(&config, Event::Line("a")), Ok(Some("     2\ta".to_string())));
}

#[test]
fn blank_run_is_not_tracked_without_squeezing() {
    let config = options(true, false, false);
    let mut transformer = Transformer::new();
    assert_eq!(transformer.step(&config, Event::Line("")), Ok(Some("     1\t".to_string())));
    assert!(!transformer.blank_run());
}

#[test]
fn opening_a_source_starts_afresh() {
    let config = options(true, false, true);
    let mut transformer = Transformer::new();
    assert_eq!(transformer.step(&config, Event::Line("a")), Ok(Some("     1\ta".to_string())));
    assert_eq!(transformer.step(&config, Event::Line("")), Ok(Some("     2\t".to_string())));
    assert_eq!(transformer.step(&config, Event::Opened), Ok(None));
    assert_eq!(transformer.line_count(), 0);
    assert!(!transformer.blank_run());
    assert_eq!(transformer.step(&config, Event::Line("")), Ok(Some("     1\t".to_string())));
}

#[test]
fn failed_open_is_recoverable() {
    let config = options(false, false, false);
    let mut transformer = Transformer::new();
    let answer = transformer.step(
        &config,
        Event::OpenFailed { name: "missing.txt", reason: "No such file or directory" },
    );
    assert_eq!(
        answer,
        Err(SourceError::Recoverable(OpenError {
            name: "missing.txt".to_string(),
            reason: "No such file or directory".to_string(),
        }))
    );
}

#[test]
fn failed_open_leaves_the_state_alone() {
    let config = options(true, false, true);
    let mut transformer = Transformer::new();
    assert_eq!(transformer.step(&config, Event::Line("")), Ok(Some("     1\t".to_string())));
    let answer = transformer.step(&config, Event::OpenFailed { name: "x", reason: "y" });
    assert!(answer.is_err());
    assert_eq!(transformer.line_count(), 1);
    assert!(transformer.blank_run());
}

#[test]
fn failed_read_is_fatal() {
    let config = options(true, false, false);
    let mut transformer = Transformer::new();
    assert_eq!(transformer.step(&config, Event::Line("a")), Ok(Some("     1\ta".to_string())));
    let answer = transformer.step(
        &config,
        Event::ReadFailed { reason: "stream did not contain valid UTF-8" },
    );
    assert_eq!(
        answer,
        Err(SourceError::Fatal(ReadError {
            reason: "stream did not contain valid UTF-8".to_string(),
        }))
    );
    assert_eq!(transformer.line_count(), 1);
}

#[test]
fn counter_goes_up_to_the_largest_number() {
    let config = options(true, false, false);
    let mut transformer = Transformer::new();
    for expected in 1..=1000u64 {
        let answer = transformer.step(&config, Event::Line("x"));
        assert_eq!(answer, Ok(Some(format!("{:>6}\tx", expected))));
    }
    assert_eq!(transformer.line_count(), 1000);
}

#[test]
fn same_events_give_same_answers() {
    let config = options(true, false, false);
    let lines = ["Hello", "", "there", ""];
    let mut first = Transformer::new();
    let mut second = Transformer::new();
    for line in lines {
        let one = first.step(&config, Event::Line(line));
        let other = second.step(&config, Event::Line(line));
        assert_eq!(one, other);
    }
    assert_eq!(first.line_count(), second.line_count());
}

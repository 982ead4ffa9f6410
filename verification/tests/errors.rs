use linc::errors::{log_error_chain, ContextualError};

fn lines(text: &str) -> Vec<String> {
    log_error_chain(text.to_string())
}

fn expected(text: &str) -> Vec<String> {
    text.lines().map(|line| line.to_string()).collect()
}

#[test]
fn each_failure_has_its_wording() {
    assert_eq!(ContextualError::PortAllocationError.describe(), "no free ports available");
    assert_eq!(
        ContextualError::PathResolutionError("No such file or directory (os error 2)".to_string())
            .describe(),
        "Failed to resolve path to be served\ncaused by: No such file or directory (os error 2)"
    );
    assert_eq!(
        ContextualError::ParseError(
            "0.0.0.0:8136".to_string(),
            "invalid socket address syntax".to_string()
        )
        .describe(),
        "Failed to parse 0.0.0.0:8136\ncaused by: invalid socket address syntax"
    );
    assert_eq!(
        ContextualError::BindError("Address already in use (os error 98)".to_string()).describe(),
        "Failed to bind server\ncaused by: Address already in use (os error 98)"
    );
    assert_eq!(
        ContextualError::ConfigFileError.describe(),
        "Failed to read the configuration file"
    );
}

#[test]
fn a_copy_of_a_failure_is_the_same_failure() {
    let all = vec![
        ContextualError::PortAllocationError,
        ContextualError::PathResolutionError("a".to_string()),
        ContextualError::ParseError("b".to_string(), "c".to_string()),
        ContextualError::BindError("d".to_string()),
        ContextualError::ConfigFileError,
    ];
    for error in &all {
        assert_eq!(&error.clone(), error);
    }
    assert_ne!(all[1], all[3]);
}

#[test]
fn the_chain_of_a_failure_is_the_attempt_and_its_cause() {
    let error = ContextualError::BindError("Address already in use (os error 98)".to_string());
    assert_eq!(
        log_error_chain(error.describe()),
        vec!["Failed to bind server", "caused by: Address already in use (os error 98)"]
    );
    assert_eq!(
        log_error_chain(ContextualError::PortAllocationError.describe()),
        vec!["no free ports available"]
    );
}

#[test]
fn the_chain_of_a_parse_failure_names_the_text() {
    let error = ContextualError::ParseError(
        "[::1]:8136".to_string(),
        "invalid socket address syntax".to_string(),
    );
    assert_eq!(
        log_error_chain(error.describe()),
        vec!["Failed to parse [::1]:8136", "caused by: invalid socket address syntax"]
    );
}

#[test]
fn an_empty_text_has_no_line() {
    assert_eq!(lines(""), Vec::<String>::new());
}

#[test]
fn a_text_without_line_feed_is_one_line() {
    assert_eq!(lines("a"), vec!["a"]);
    assert_eq!(lines("one line"), vec!["one line"]);
}

#[test]
fn a_line_feed_at_the_end_opens_no_line() {
    assert_eq!(lines("a\n"), vec!["a"]);
    assert_eq!(lines("a\nb\n"), vec!["a", "b"]);
    assert_eq!(lines("\n"), vec![""]);
    assert_eq!(lines("\n\n"), vec!["", ""]);
}

#[test]
fn a_carriage_return_before_a_line_feed_belongs_to_the_line_ending() {
    assert_eq!(lines("a\r\nb"), vec!["a", "b"]);
    assert_eq!(lines("a\r\n"), vec!["a"]);
    assert_eq!(lines("\r\n"), vec![""]);
    assert_eq!(lines("a\r\r\nb"), vec!["a\r", "b"]);
}

#[test]
fn a_carriage_return_elsewhere_stays() {
    assert_eq!(lines("a\rb"), vec!["a\rb"]);
    assert_eq!(lines("a\r"), vec!["a\r"]);
    assert_eq!(lines("\r"), vec!["\r"]);
    assert_eq!(lines("foo\nbar\n\r\nbaz\r"), vec!["foo", "bar", "", "baz\r"]);
}

#[test]
fn characters_of_more_than_one_byte_are_kept_whole() {
    assert_eq!(lines("d\u{e9}j\u{e0}\n\u{1F980}\r\nvu"), vec!["d\u{e9}j\u{e0}", "\u{1F980}", "vu"]);
}

#[test]
fn the_lines_are_those_of_the_standard_library() {
    let samples = [
        "",
        "\n",
        "\r",
        "\r\n",
        "\n\r",
        "a",
        "a\n",
        "a\r",
        "a\r\n",
        "\na",
        "\ra",
        "\r\na",
        "a\nb",
        "a\n\nb",
        "a\r\n\r\nb",
        "a\r\r\nb\r",
        "a\n\rb\n\r",
        "Failed to parse x\ncaused by: y",
        "\n\n\n",
        "\r\r\r",
        "x\r\ny\nz\r",
    ];
    for sample in samples {
        assert_eq!(lines(sample), expected(sample), "for {:?}", sample);
    }
}

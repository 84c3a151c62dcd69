use kubespark::error::ClientError;
use kubespark::logs::{complete_logs, log_lines, split_lines};

fn std_lines(text: &str) -> Vec<String> {
    text.lines().map(|line| line.to_string()).collect()
}

#[test]
fn lines_are_split_at_line_feeds() {
    assert_eq!(split_lines("one\ntwo\nthree"), vec!["one", "two", "three"]);
    assert_eq!(split_lines("one\ntwo\n"), vec!["one", "two"]);
    assert_eq!(split_lines("one"), vec!["one"]);
    assert!(split_lines("").is_empty());
    assert_eq!(split_lines("\n"), vec![""]);
    assert_eq!(split_lines("\n\n"), vec!["", ""]);
    assert_eq!(split_lines("a\n\nb"), vec!["a", "", "b"]);
}

#[test]
fn a_carriage_return_before_a_line_feed_ends_the_line_too() {
    assert_eq!(split_lines("one\r\ntwo\r\n"), vec!["one", "two"]);
    assert_eq!(split_lines("one\r\r\ntwo"), vec!["one\r", "two"]);
    assert_eq!(split_lines("a\rb\nc"), vec!["a\rb", "c"]);
    assert_eq!(split_lines("last\r"), vec!["last\r"]);
    assert_eq!(split_lines("\r"), vec!["\r"]);
    assert_eq!(split_lines("\r\n"), vec![""]);
}

#[test]
fn splitting_agrees_with_the_standard_library() {
    let samples = [
        "", "a", "\n", "\r", "\r\n", "a\n", "a\r\n", "a\r", "\na", "\r\na", "a\n\r", "a\r\r\n",
        "\n\n\n", "\r\r", "x\ny\r\nz\r", "héllo\nwörld\r\n✓", "tab\there\n", "  \n  \n",
    ];
    for sample in samples.iter() {
        assert_eq!(split_lines(sample), std_lines(sample), "for {:?}", sample);
    }
}

#[test]
fn a_log_reply_is_handed_on_or_reported() {
    assert_eq!(complete_logs(Ok("line\n".to_string())).unwrap(), "line\n");
    match complete_logs(Err("pod not found".to_string())) {
        Err(ClientError::RemoteCallFailed(reason)) => assert_eq!(reason, "pod not found"),
        other => panic!("unexpected: {:?}", other),
    }
}

#[test]
fn a_failed_log_is_one_placeholder_line() {
    let failed = Err(ClientError::RemoteCallFailed("pod not found".to_string()));
    assert_eq!(log_lines(&failed), vec!["Error: Remote call failed: pod not found"]);
    let offline = Err(ClientError::NotConnected);
    assert_eq!(log_lines(&offline), vec!["Error: Not connected to Kubernetes cluster"]);
    assert_eq!(log_lines(&Ok("a\nb\n".to_string())), vec!["a", "b"]);
    assert!(log_lines(&Ok(String::new())).is_empty());
}

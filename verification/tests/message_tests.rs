use discord_notifier::message::{build, format_message};

#[test]
fn build_plain_timestamp_only() {
    assert_eq!(build("X", false, None, None), "completed at X");
}

#[test]
fn build_with_stdin_and_header() {
    assert_eq!(
        build("X", true, Some("hi"), Some("info")),
        "> info\n```\ncompleted at X\n\nhi\n```"
    );
}

#[test]
fn build_with_stdin_no_header() {
    assert_eq!(build("X", true, Some("hi"), None), "completed at X\n\nhi");
}

#[test]
fn build_stdin_requested_but_empty() {
    assert_eq!(build("X", true, None, None), "completed at X\n\n");
    assert_eq!(build("X", true, Some(""), None), "completed at X\n\n");
}

#[test]
fn build_header_without_stdin() {
    assert_eq!(
        build("Mon, 01 Jan 2024 00:00:00 +0000", false, None, Some("nightly")),
        "> nightly\n```\ncompleted at Mon, 01 Jan 2024 00:00:00 +0000\n```"
    );
}

#[test]
fn format_message_frames_input() {
    assert_eq!(format_message("info", "body text"), "> info\n```\nbody text\n```");
}

#[test]
fn format_message_empty_parts() {
    assert_eq!(format_message("", ""), "> \n```\n\n```");
}

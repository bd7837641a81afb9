use command_run::{Command, LogTo};

#[test]
fn test_add_arg_variations() {
    let mut cmd = Command::new("a");
    cmd.add_arg("b");
    cmd.add_arg_pair("c", "d");
    cmd.add_args(&["e", "f", "g"]);
    assert_eq!(cmd.command_line_lossy(), "a b c d e f g");
}

#[test]
fn test_command_line() {
    assert_eq!(Command::new("test").command_line_lossy(), "test");
    assert_eq!(
        Command::with_args("test", &["hello", "world"]).command_line_lossy(),
        "test hello world"
    );

    assert_eq!(
        Command::with_args("a b", &["c d", "e"]).command_line_lossy(),
        "'a b' 'c d' e"
    );

    // Check that some special characters do not cause quoting
    assert_eq!(
        Command::with_args("a", &["-_/,:.="]).command_line_lossy(),
        "a -_/,:.="
    );
}

#[test]
fn test_minimal_allowed_punctuation() {
    // Only allow-listed punctuation, no spaces: stays unquoted.
    assert_eq!(
        Command::with_args("a", &["-/,:."]).command_line_lossy(),
        "a -/,:."
    );
}

#[test]
fn test_quoting_forced() {
    // A space, a quote, and a non-ASCII character each force quoting.
    assert_eq!(Command::new("a b").command_line_lossy(), "'a b'");
    assert_eq!(Command::new("it's").command_line_lossy(), "'it's'");
    assert_eq!(Command::new("naïve").command_line_lossy(), "'naïve'");
}

#[test]
fn test_defaults() {
    let cmd = Command::new("prog");
    assert_eq!(cmd.program, "prog");
    assert!(cmd.args.is_empty());
    assert!(cmd.dir.is_none());
    assert_eq!(cmd.log_to, LogTo::Stdout);
    assert!(cmd.log_command);
    assert!(!cmd.log_output_on_error);
    assert!(cmd.check);
    assert!(!cmd.capture);
    assert!(!cmd.combine_output);
    assert!(!cmd.clear_env);
    assert!(cmd.env.is_empty());
}

#[test]
fn test_builder_flags() {
    let mut cmd = Command::new("prog");
    cmd.enable_capture();
    assert!(cmd.capture);
    cmd.combine_output();
    assert!(cmd.combine_output);
    cmd.disable_check();
    assert!(!cmd.check);
    cmd.set_dir("/tmp");
    assert_eq!(cmd.dir.as_deref(), Some("/tmp"));
    // The other fields are untouched.
    assert_eq!(cmd.program, "prog");
    assert!(cmd.log_command);
}

#[test]
fn test_with_args_matches_added_args() {
    let built = Command::with_args("echo", &["hello", "world"]);
    let mut grown = Command::new("echo");
    grown.add_args(&["hello", "world"]);
    assert_eq!(built, grown);
}

#[test]
fn test_announcement() {
    let mut cmd = Command::with_args("echo", &["hello", "world"]);
    assert_eq!(cmd.announcement().as_deref(), Some("echo hello world"));
    cmd.log_command = false;
    assert_eq!(cmd.announcement(), None);
}

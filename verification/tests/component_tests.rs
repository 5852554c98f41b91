use backend::command::exec_output;
use backend::command::ExecOutcome;
use backend::paths::has_prefix;
use backend::paths::is_absolute_path;
use backend::paths::join_path;
use backend::paths::path_within_root;
use backend::sanitize::clean_output;
use backend::session::encode_response;
use backend::text::ascii_lowercase;
use backend::text::join_words;
use backend::text::str_eq;
use backend::text::trim_line;

#[test]
fn sanitiser_strips_control_bytes_but_keeps_ansi_colour() {
    let dirty = "a\u{7}b\u{0}c\u{7f}d\u{1b}[32mgreen\u{1b}[0m\r\nplain\ttab".to_string();
    // BEL, NUL and DEL go; ESC, CR, LF and printable ASCII stay; TAB (0x09) goes.
    assert_eq!(
        clean_output(dirty),
        "abcd\u{1b}[32mgreen\u{1b}[0m\r\nplaintab"
    );
}

#[test]
fn sanitiser_keeps_text_beyond_ascii() {
    assert_eq!(clean_output("caf\u{e9} \u{1f389}".to_string()), "caf\u{e9} \u{1f389}");
}

#[test]
fn sanitising_twice_changes_nothing_more() {
    let once = clean_output("x\u{1}y\u{2}z\u{7f}".to_string());
    assert_eq!(clean_output(once.clone()), once);
    assert_eq!(once, "xyz");
}

#[test]
fn exec_outcomes_map_to_distinct_messages() {
    let ok = ExecOutcome::Completed {
        success: true,
        stdout: "out\n".to_string(),
        stderr: "ignored".to_string(),
    };
    assert_eq!(exec_output("ls", &ok), "out\n");

    let failed = ExecOutcome::Completed {
        success: false,
        stdout: String::new(),
        stderr: "ls: cannot access 'x'\n".to_string(),
    };
    assert_eq!(
        exec_output("ls", &failed),
        "Error executing ls: ls: cannot access 'x'\n\r\n"
    );

    assert_eq!(
        exec_output("ls", &ExecOutcome::NotFound),
        "ls: command not found\r\n"
    );

    assert_eq!(
        exec_output("whoami", &ExecOutcome::Failed("permission denied".to_string())),
        "Failed to execute whoami command: permission denied\r\n"
    );
}

#[test]
fn responses_with_nothing_to_say_are_suppressed() {
    assert!(encode_response(String::new(), None).is_none());
    // Output of control bytes alone sanitises to nothing and is suppressed too.
    assert!(encode_response("\u{1}\u{2}".to_string(), None).is_none());

    let r = encode_response("hi".to_string(), None).expect("output is sent");
    assert_eq!(r.output, Some("hi".to_string()));
    assert!(r.cwd_update.is_none());

    let r = encode_response(String::new(), Some("/box/d".to_string())).expect("a move is sent");
    assert!(r.output.is_none());
    assert_eq!(r.cwd_update, Some("/box/d".to_string()));

    let r = encode_response("moved\u{1}".to_string(), Some("/box".to_string()))
        .expect("both are sent");
    assert_eq!(r.output, Some("moved".to_string()));
    assert_eq!(r.cwd_update, Some("/box".to_string()));
}

#[test]
fn path_checks_respect_component_boundaries() {
    assert!(is_absolute_path("/box"));
    assert!(!is_absolute_path("box"));
    assert!(!is_absolute_path(""));

    assert!(path_within_root("/box", "/box"));
    assert!(path_within_root("/box/d/e", "/box"));
    assert!(!path_within_root("/boxer", "/box"));
    assert!(!path_within_root("/etc", "/box"));
    assert!(!path_within_root("/", "/box"));

    assert!(has_prefix("/box/d", "/box/"));
    assert!(!has_prefix("/bo", "/box/"));
}

#[test]
fn joining_inserts_exactly_one_slash() {
    assert_eq!(join_path("/box", "d"), "/box/d");
    assert_eq!(join_path("/", "d"), "/d");
    assert_eq!(join_path("/box", "../x"), "/box/../x");
}

#[test]
fn trimming_and_lowercasing_behave() {
    assert_eq!(trim_line("  pwd \r\n"), "pwd");
    assert_eq!(trim_line("\t\r\n "), "");
    assert_eq!(trim_line(""), "");
    assert_eq!(trim_line("a b"), "a b");

    assert_eq!(ascii_lowercase("SuDo"), "sudo");
    assert_eq!(ascii_lowercase("LS"), "ls");
    assert_eq!(ascii_lowercase("caf\u{c9}"), "caf\u{c9}");

    assert!(str_eq("abc", "abc"));
    assert!(!str_eq("abc", "abd"));
    assert!(!str_eq("abc", "ab"));
}

#[test]
fn joined_words_uses_single_spaces() {
    let words = vec!["a".to_string(), "b  c".to_string(), "".to_string()];
    assert_eq!(join_words(&words), "a b  c ");
    let none: Vec<String> = Vec::new();
    assert_eq!(join_words(&none), "");
}

#[test]
fn birthday_message_matches_the_date_exactly() {
    assert_eq!(
        backend::command::birthday_message("08-06"),
        "Happy Birthday, heyeuuu! \u{1f389}\u{1f382}\r\n"
    );
    assert_eq!(
        backend::command::birthday_message("08-07"),
        "It's not my birthday yet. Is it yours?\r\n"
    );
}

#[test]
fn echo_and_pwd_handlers_format_exactly() {
    let args = vec!["a".to_string(), "b".to_string()];
    assert_eq!(backend::command::handle_echo_command(&args), "a b\r\n");
    assert_eq!(backend::command::handle_pwd_command("/box/d"), "/box/d\r\n");
    let empty: Vec<String> = Vec::new();
    assert_eq!(backend::command::handle_heyeuuu_command(&empty), "Suki~~~Bless for heyeuuu~~~\r\n");
    assert_eq!(
        backend::command::handle_creeper_command(),
        "Sss... Boom! (just kidding, I'm friendly) \r\n"
    );
}

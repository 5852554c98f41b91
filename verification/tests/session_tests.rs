use backend::command::CommandResult;
use backend::command::DirProbe;
use backend::dispatch::Turn;
use backend::session::EventAction;
use backend::session::Session;
use backend::session::SessionEvent;

fn fresh_session() -> Session {
    Session::new("peer".to_string(), "/box".to_string())
}

fn done(t: Turn) -> CommandResult {
    match t {
        Turn::Done(r) => r,
        _ => panic!("expected a finished turn"),
    }
}

fn cd_probe(t: Turn) -> (String, String) {
    match t {
        Turn::CdProbe { arg, path } => (arg, path),
        _ => panic!("expected a cd probe"),
    }
}

#[test]
fn welcome_populates_both_fields() {
    let s = fresh_session();
    let w = s.welcome();
    assert_eq!(
        w.output,
        Some(
            "Welcome to the Rust Web Terminal Backend!\r\nCurrent directory: /box\r\nType \"help\" (or any command) and press Enter.\r\n"
                .to_string()
        )
    );
    assert_eq!(w.cwd_update, Some("/box".to_string()));
}

#[test]
fn empty_line_yields_no_output_and_no_update() {
    let mut s = fresh_session();
    let r = done(s.begin_turn("   \t  "));
    assert_eq!(r.output, "");
    assert!(r.new_cwd.is_none());
    let resp = s.apply(r);
    assert!(resp.is_none());
    assert_eq!(s.current_dir, "/box");
}

#[test]
fn unterminated_quote_is_a_parse_error() {
    let mut s = fresh_session();
    let r = done(s.begin_turn("echo \"abc"));
    assert_eq!(
        r.output,
        "Error: Invalid command format (unclosed quotes or invalid escapes).\r\n"
    );
    assert!(r.new_cwd.is_none());
    let resp = s.apply(r).expect("an error is reported");
    assert!(resp.cwd_update.is_none());
    assert_eq!(s.current_dir, "/box");
}

#[test]
fn pwd_twice_is_idempotent_and_side_effect_free() {
    let s = fresh_session();
    let first = done(s.begin_turn("pwd"));
    let second = done(s.begin_turn("pwd"));
    assert_eq!(first.output, "/box\r\n");
    assert_eq!(second.output, first.output);
    assert!(first.new_cwd.is_none());
    assert!(second.new_cwd.is_none());
}

#[test]
fn pwd_is_case_insensitive() {
    let s = fresh_session();
    let r = done(s.begin_turn("PWD"));
    assert_eq!(r.output, "/box\r\n");
}

#[test]
fn blocked_verbs_always_denied() {
    let s = fresh_session();
    for line in ["sudo anything", "su", "passwd alice secret", "SUDO ls", "Su -"] {
        let r = done(s.begin_turn(line));
        assert_eq!(r.output, "Error: Permission denied. This command is not allowed.\r\n");
        assert!(r.new_cwd.is_none());
    }
}

#[test]
fn cd_absolute_outside_refused_without_any_probe() {
    let s = fresh_session();
    // The turn must finish at once: no probe of the filesystem is requested.
    let r = done(s.begin_turn("cd /etc"));
    assert_eq!(r.output, "Error: Cannot access '/etc' outside the sandbox.\r\n");
    assert!(r.new_cwd.is_none());
}

#[test]
fn cd_dotdot_escape_is_refused() {
    let mut s = fresh_session();
    let (arg, path) = cd_probe(s.begin_turn("cd ../../../etc"));
    assert_eq!(arg, "../../../etc");
    assert_eq!(path, "/box/../../../etc");
    // The filesystem resolves the candidate to a directory outside the root.
    let probe = DirProbe { canonical: "/etc".to_string(), is_dir: true };
    let r = s.finish_cd(&arg, Some(&probe));
    assert_eq!(r.output, "Error: Cannot access path outside the sandbox.\r\n");
    assert!(r.new_cwd.is_none());
    let resp = s.apply(r).expect("the error is reported");
    assert!(resp.cwd_update.is_none());
    assert_eq!(s.current_dir, "/box");
}

#[test]
fn cd_round_trip_through_a_subdirectory() {
    let mut s = fresh_session();
    // cd d: the fresh subdirectory canonicalises to itself.
    let (arg, path) = cd_probe(s.begin_turn("cd d"));
    assert_eq!(path, "/box/d");
    let probe = DirProbe { canonical: "/box/d".to_string(), is_dir: true };
    let r = s.finish_cd(&arg, Some(&probe));
    assert_eq!(r.output, "");
    assert_eq!(r.new_cwd, Some("/box/d".to_string()));
    let resp = s.apply(r).expect("the move is reported");
    assert!(resp.output.is_none());
    assert_eq!(resp.cwd_update, Some("/box/d".to_string()));
    let pwd = done(s.begin_turn("pwd"));
    assert!(pwd.output.ends_with("/d\r\n"));
    assert_eq!(pwd.output, "/box/d\r\n");

    // cd ..: the parent is the root, still inside the sandbox.
    let (arg, path) = cd_probe(s.begin_turn("cd .."));
    assert_eq!(path, "/box/d/..");
    let probe = DirProbe { canonical: "/box".to_string(), is_dir: true };
    let r = s.finish_cd(&arg, Some(&probe));
    assert_eq!(r.new_cwd, Some("/box".to_string()));
    s.apply(r);
    let pwd = done(s.begin_turn("pwd"));
    assert_eq!(pwd.output, "/box\r\n");

    // cd .. at the root: the parent would be outside, so it is refused.
    let (arg, _path) = cd_probe(s.begin_turn("cd .."));
    let probe = DirProbe { canonical: "/".to_string(), is_dir: true };
    let r = s.finish_cd(&arg, Some(&probe));
    assert_eq!(r.output, "Error: Cannot access path outside the sandbox.\r\n");
    assert!(r.new_cwd.is_none());
    s.apply(r);
    assert_eq!(s.current_dir, "/box");
}

#[test]
fn cd_without_argument_returns_to_the_root() {
    let mut s = fresh_session();
    let (arg, _) = cd_probe(s.begin_turn("cd d"));
    let probe = DirProbe { canonical: "/box/d".to_string(), is_dir: true };
    let r = s.finish_cd(&arg, Some(&probe));
    s.apply(r);
    assert_eq!(s.current_dir, "/box/d");
    let r = done(s.begin_turn("cd"));
    assert_eq!(r.output, "");
    assert_eq!(r.new_cwd, Some("/box".to_string()));
    s.apply(r);
    assert_eq!(s.current_dir, "/box");
}

#[test]
fn cd_to_a_missing_path_is_invalid() {
    let mut s = fresh_session();
    let (arg, path) = cd_probe(s.begin_turn("cd nope"));
    assert_eq!(path, "/box/nope");
    let r = s.finish_cd(&arg, None);
    assert_eq!(r.output, "Error: Path 'nope' is invalid or does not exist.\r\n");
    assert!(r.new_cwd.is_none());
    s.apply(r);
    assert_eq!(s.current_dir, "/box");
}

#[test]
fn cd_to_a_file_is_not_a_directory() {
    let mut s = fresh_session();
    let (arg, _) = cd_probe(s.begin_turn("cd notes.txt"));
    let probe = DirProbe { canonical: "/box/notes.txt".to_string(), is_dir: false };
    let r = s.finish_cd(&arg, Some(&probe));
    assert_eq!(r.output, "Error: 'notes.txt' is not a directory or does not exist.\r\n");
    assert!(r.new_cwd.is_none());
    s.apply(r);
    assert_eq!(s.current_dir, "/box");
}

#[test]
fn any_cd_sequence_stays_inside_the_sandbox() {
    let mut s = fresh_session();
    let turns: Vec<(&str, Option<DirProbe>)> = vec![
        ("cd a", Some(DirProbe { canonical: "/box/a".to_string(), is_dir: true })),
        ("cd ../..", Some(DirProbe { canonical: "/".to_string(), is_dir: true })),
        ("cd b/c", Some(DirProbe { canonical: "/box/b/c".to_string(), is_dir: true })),
        ("cd missing", None),
        ("cd f", Some(DirProbe { canonical: "/box/f".to_string(), is_dir: false })),
        ("cd /etc", None),
    ];
    for (line, probe) in turns {
        match s.begin_turn(line) {
            Turn::Done(r) => {
                s.apply(r);
            }
            Turn::CdProbe { arg, path: _ } => {
                let r = s.finish_cd(&arg, probe.as_ref());
                s.apply(r);
            }
            _ => panic!("a cd turn asks for nothing else"),
        }
        assert!(
            s.current_dir == "/box" || s.current_dir.starts_with("/box/"),
            "escaped to {}",
            s.current_dir
        );
    }
}

#[test]
fn ls_at_the_root_lists_the_directory() {
    let mut s = fresh_session();
    let plan = match s.begin_turn("ls") {
        Turn::Ls(p) => p,
        _ => panic!("ls waits for the lister"),
    };
    assert!(plan.flags.is_empty());
    assert!(plan.arg_names.is_empty());
    assert!(plan.resolved.is_empty());
    let safe = s
        .finish_ls_paths(&plan.arg_names, &[])
        .expect("no path arguments, nothing to refuse");
    assert!(safe.is_empty());
    // The lister succeeds: its standard output is the response, unchanged.
    let outcome = backend::command::ExecOutcome::Completed {
        success: true,
        stdout: "a.txt\nb.txt\n".to_string(),
        stderr: String::new(),
    };
    let output = backend::command::exec_output("ls", &outcome);
    assert_eq!(output, "a.txt\nb.txt\n");
    let resp = s
        .apply(CommandResult { output, new_cwd: None })
        .expect("the listing is sent");
    assert_eq!(resp.output, Some("a.txt\nb.txt\n".to_string()));
    assert!(resp.cwd_update.is_none());
}

#[test]
fn ls_flags_pass_and_paths_are_checked() {
    let s = fresh_session();
    let plan = match s.begin_turn("ls -la d") {
        Turn::Ls(p) => p,
        _ => panic!("ls waits for the lister"),
    };
    assert_eq!(plan.flags, vec!["-la".to_string()]);
    assert_eq!(plan.arg_names, vec!["d".to_string()]);
    assert_eq!(plan.resolved, vec!["/box/d".to_string()]);

    let safe = s
        .finish_ls_paths(&plan.arg_names, &[Some("/box/d".to_string())])
        .expect("a path inside the sandbox passes");
    assert_eq!(safe, vec!["/box/d".to_string()]);

    let err = s
        .finish_ls_paths(&plan.arg_names, &[Some("/etc".to_string())])
        .expect_err("a symlink escape is refused");
    assert_eq!(err, "Error: Cannot access path 'd' outside the sandbox.\r\n");

    let err = s
        .finish_ls_paths(&plan.arg_names, &[None])
        .expect_err("a missing path is invalid");
    assert_eq!(err, "Error: Path 'd' is invalid or does not exist.\r\n");
}

#[test]
fn whoami_waits_for_the_identity_program() {
    let s = fresh_session();
    match s.begin_turn("whoami") {
        Turn::Whoami => {}
        _ => panic!("whoami waits for the identity program"),
    }
    let ran = backend::command::ExecOutcome::Completed {
        success: true,
        stdout: "heyeuuu\n".to_string(),
        stderr: String::new(),
    };
    assert_eq!(backend::command::exec_output("whoami", &ran), "heyeuuu\n");
}

#[test]
fn unknown_command_repeats_the_line() {
    let s = fresh_session();
    let r = done(s.begin_turn("  frobnicate now  "));
    assert_eq!(r.output, "Unknown command: frobnicate now\r\n");
    assert!(r.new_cwd.is_none());
}

#[test]
fn echo_honours_quoting() {
    let s = fresh_session();
    let r = done(s.begin_turn("echo \"a  b\" c"));
    assert_eq!(r.output, "a  b c\r\n");
    let r = done(s.begin_turn("echo 'x y'\tz"));
    assert_eq!(r.output, "x y z\r\n");
    let r = done(s.begin_turn("echo"));
    assert_eq!(r.output, "\r\n");
}

#[test]
fn a_lone_pair_of_quotes_is_a_no_op() {
    let s = fresh_session();
    let r = done(s.begin_turn("\"\""));
    assert_eq!(r.output, "");
    assert!(r.new_cwd.is_none());
}

#[test]
fn help_prints_the_fixed_table() {
    let s = fresh_session();
    let r = done(s.begin_turn("help"));
    assert_eq!(r.output, backend::command::handle_help_command());
    assert!(r.output.starts_with("\r\nAvailable Safe Commands:\r\n\x1b[32m  help\x1b[0m"));
    assert!(r.output.ends_with("\x1b[32m  creeper\x1b[0m     - A friendly sound.\r\n"));
    assert!(r.new_cwd.is_none());
}

#[test]
fn about_birthday_heyeuuu_and_creeper_reply() {
    let s = fresh_session();
    let r = done(s.begin_turn("about"));
    assert_eq!(
        r.output,
        "This is a safe, sandboxed Rust Axum web terminal.\r\nIt only supports a limited set of commands to ensure safety.\r\n"
    );
    match s.begin_turn("birthday") {
        Turn::Birthday => {}
        _ => panic!("birthday waits for the clock"),
    }
    let greeting = backend::command::handle_birthday_command();
    assert!(
        greeting == "Happy Birthday, heyeuuu! \u{1f389}\u{1f382}\r\n"
            || greeting == "It's not my birthday yet. Is it yours?\r\n"
    );
    let r = done(s.begin_turn("heyeuuu"));
    assert_eq!(r.output, "Suki~~~Bless for heyeuuu~~~\r\n");
    let r = done(s.begin_turn("heyeuuu bob alice"));
    assert_eq!(r.output, "Suki~~~Bless for bob~~~\r\n");
    let r = done(s.begin_turn("creeper"));
    assert_eq!(r.output, "Sss... Boom! (just kidding, I'm friendly) \r\n");
}

#[test]
fn events_drive_the_session_loop() {
    let s = fresh_session();
    match s.on_event(&SessionEvent::Line("pwd".to_string())) {
        EventAction::Process(t) => assert_eq!(done(t).output, "/box\r\n"),
        _ => panic!("a line is processed"),
    }
    assert!(matches!(s.on_event(&SessionEvent::Control), EventAction::Ignore));
    assert!(matches!(s.on_event(&SessionEvent::Closed), EventAction::Stop));
    assert!(matches!(s.on_event(&SessionEvent::TransportError), EventAction::Stop));
}

#[test]
fn the_default_root_is_the_fixed_sandbox() {
    let s = Session::new(
        "peer".to_string(),
        backend::session::SANDBOX_ROOT.to_string(),
    );
    assert_eq!(s.current_dir, "/home/heyeuuu/Workspace/secretes/happy_birthday");
    let r = done(s.begin_turn("cd /home/heyeuuu"));
    assert_eq!(
        r.output,
        "Error: Cannot access '/home/heyeuuu' outside the sandbox.\r\n"
    );
}

//! The builtin commands. Each handler is a pure mapping from its arguments
//! and the session's current directory to the text it prints; `cd` and `ls`
//! are split around the filesystem work (canonicalisation, running the
//! lister), which the caller performs between the two verified phases.

use vstd::prelude::*;
use vstd::string::StrSliceExecFns;
use vstd::string::StringExecFns;

use crate::messages::cd_not_dir_message;
use crate::messages::cd_not_dir_text;
use crate::messages::cd_outside_message;
use crate::messages::cd_outside_text;
use crate::messages::creeper_text;
use crate::messages::echo_text;
use crate::messages::exec_fail_message;
use crate::messages::exec_fail_text;
use crate::messages::happy_birthday_text;
use crate::messages::help_text;
use crate::messages::heyeuuu_message;
use crate::messages::heyeuuu_text;
use crate::messages::ls_outside_message;
use crate::messages::ls_outside_text;
use crate::messages::not_birthday_text;
use crate::messages::not_found_message;
use crate::messages::not_found_text;
use crate::messages::path_invalid_message;
use crate::messages::path_invalid_text;
use crate::messages::pwd_text;
use crate::messages::spawn_fail_message;
use crate::messages::spawn_fail_text;
use crate::paths::is_abs;
use crate::paths::is_absolute_path;
use crate::paths::join_path;
use crate::paths::joined;
use crate::paths::path_within_root;
use crate::paths::within_root;
use crate::text::join_words;
use crate::text::str_eq;

verus! {

/// What one command turn produced: the text to show (possibly empty) and the
/// new current directory when the turn changed it.
pub struct CommandResult {
    pub output: String,
    pub new_cwd: Option<String>,
}

/// The mathematical value of a [`CommandResult`].
pub struct ResultModel {
    pub output: Seq<char>,
    pub new_cwd: Option<Seq<char>>,
}

impl View for CommandResult {
    type V = ResultModel;

    open spec fn view(&self) -> ResultModel {
        ResultModel {
            output: self.output@,
            new_cwd: match self.new_cwd {
                Some(p) => Some(p@),
                None => None,
            },
        }
    }
}

/// The result of a turn that prints nothing and changes nothing.
pub open spec fn empty_result() -> ResultModel {
    ResultModel { output: Seq::empty(), new_cwd: None }
}

/// What the caller learned about one candidate path from the filesystem: its
/// canonical form (symlinks and dot segments resolved) and whether it is a
/// directory.
pub struct DirProbe {
    pub canonical: String,
    pub is_dir: bool,
}

/// The mathematical value of a [`DirProbe`].
pub struct ProbeModel {
    pub canonical: Seq<char>,
    pub is_dir: bool,
}

impl View for DirProbe {
    type V = ProbeModel;

    open spec fn view(&self) -> ProbeModel {
        ProbeModel { canonical: self.canonical@, is_dir: self.is_dir }
    }
}

/// The first phase of a `cd`: go straight to the root, refuse without any
/// filesystem work, or ask the caller to canonicalise a candidate path.
pub enum CdPlan {
    Root,
    Reject(String),
    Probe(String),
}

/// The mathematical value of a [`CdPlan`].
pub enum CdPlanModel {
    Root,
    Reject(Seq<char>),
    Probe(Seq<char>),
}

impl View for CdPlan {
    type V = CdPlanModel;

    open spec fn view(&self) -> CdPlanModel {
        match self {
            CdPlan::Root => CdPlanModel::Root,
            CdPlan::Reject(m) => CdPlanModel::Reject(m@),
            CdPlan::Probe(p) => CdPlanModel::Probe(p@),
        }
    }
}

/// The plan for a `cd`: no argument goes to the root; an absolute argument
/// outside the sandbox is refused before the filesystem is touched; anything
/// else is resolved against the current directory and handed over for
/// canonicalisation.
pub open spec fn cd_plan(args: Seq<Seq<char>>, cur: Seq<char>, root: Seq<char>) -> CdPlanModel {
    if args.len() == 0 {
        CdPlanModel::Root
    } else {
        let a = args[0];
        if is_abs(a) {
            if within_root(a, root) {
                CdPlanModel::Probe(a)
            } else {
                CdPlanModel::Reject(crate::messages::cd_outside_arg_text(a))
            }
        } else {
            CdPlanModel::Probe(joined(cur, a))
        }
    }
}

/// Decides the first phase of a `cd`.
pub fn cd_request(args: &[String], current_dir: &str, root: &str) -> (plan: CdPlan)
    ensures
        plan@ == cd_plan(args.deep_view(), current_dir@, root@),
{
    if args.len() == 0 {
        return CdPlan::Root;
    }
    let a = &args[0];
    if is_absolute_path(a.as_str()) {
        if path_within_root(a.as_str(), root) {
            CdPlan::Probe(a.clone())
        } else {
            CdPlan::Reject(crate::messages::cd_outside_arg_message(a.as_str()))
        }
    } else {
        CdPlan::Probe(join_path(current_dir, a.as_str()))
    }
}

/// The second phase of a `cd`, given what the filesystem said of the
/// candidate: no canonical form means the path is invalid; a canonical form
/// that escapes the sandbox is refused; one that is not a directory is
/// refused; otherwise the directory changes and nothing is printed.
pub open spec fn cd_outcome(arg: Seq<char>, probe: Option<ProbeModel>, root: Seq<char>) -> ResultModel {
    match probe {
        None => ResultModel { output: path_invalid_text(arg), new_cwd: None },
        Some(p) => {
            if p.is_dir && within_root(p.canonical, root) {
                ResultModel { output: Seq::empty(), new_cwd: Some(p.canonical) }
            } else if !within_root(p.canonical, root) {
                ResultModel { output: cd_outside_text(), new_cwd: None }
            } else {
                ResultModel { output: cd_not_dir_text(arg), new_cwd: None }
            }
        },
    }
}

/// Concludes a `cd` from the caller's probe of the candidate path. Whatever
/// the probe says, a directory change only ever lands inside the sandbox.
pub fn cd_conclude(arg: &str, probe: Option<&DirProbe>, root: &str) -> (r: CommandResult)
    ensures
        r@ == cd_outcome(
            arg@,
            match probe {
                Some(p) => Some(p@),
                None => None,
            },
            root@,
        ),
        r@.new_cwd matches Some(p) ==> within_root(p, root@),
{
    match probe {
        None => CommandResult { output: path_invalid_message(arg), new_cwd: None },
        Some(p) => {
            let inside = path_within_root(p.canonical.as_str(), root);
            if p.is_dir && inside {
                CommandResult { output: String::new(), new_cwd: Some(p.canonical.clone()) }
            } else if !inside {
                CommandResult { output: cd_outside_message(), new_cwd: None }
            } else {
                CommandResult { output: cd_not_dir_message(arg), new_cwd: None }
            }
        },
    }
}

/// Whether an `ls` argument is a flag: it starts with a dash and is passed
/// through unvalidated.
pub open spec fn is_flag(w: Seq<char>) -> bool {
    w.len() > 0 && w.first() == '-'
}

/// The flags among the arguments, in order.
pub open spec fn ls_flags(args: Seq<Seq<char>>) -> Seq<Seq<char>>
    decreases args.len(),
{
    if args.len() == 0 {
        Seq::empty()
    } else {
        ls_flags(args.drop_last()) + if is_flag(args.last()) {
            seq![args.last()]
        } else {
            Seq::empty()
        }
    }
}

/// The path arguments (everything that is not a flag), in order.
pub open spec fn ls_names(args: Seq<Seq<char>>) -> Seq<Seq<char>>
    decreases args.len(),
{
    if args.len() == 0 {
        Seq::empty()
    } else {
        ls_names(args.drop_last()) + if is_flag(args.last()) {
            Seq::empty()
        } else {
            seq![args.last()]
        }
    }
}

/// Each path argument resolved against the current directory: taken as given
/// when absolute, joined below the directory otherwise.
pub open spec fn ls_resolved(args: Seq<Seq<char>>, cur: Seq<char>) -> Seq<Seq<char>>
    decreases args.len(),
{
    if args.len() == 0 {
        Seq::empty()
    } else {
        ls_resolved(args.drop_last(), cur) + if is_flag(args.last()) {
            Seq::empty()
        } else {
            seq![
                if is_abs(args.last()) {
                    args.last()
                } else {
                    joined(cur, args.last())
                },
            ]
        }
    }
}

/// The first phase of an `ls`: the flags to pass through, the path arguments
/// as written, and where each of them resolves, ready for the caller to
/// canonicalise.
pub struct LsPlan {
    pub flags: Vec<String>,
    pub arg_names: Vec<String>,
    pub resolved: Vec<String>,
}

/// Splits the `ls` arguments into flags and resolved path candidates.
pub fn ls_plan(args: &[String], current_dir: &str) -> (p: LsPlan)
    ensures
        p.flags.deep_view() == ls_flags(args.deep_view()),
        p.arg_names.deep_view() == ls_names(args.deep_view()),
        p.resolved.deep_view() == ls_resolved(args.deep_view(), current_dir@),
        p.arg_names@.len() == p.resolved@.len(),
{
    let n = args.len();
    let mut flags: Vec<String> = Vec::new();
    let mut arg_names: Vec<String> = Vec::new();
    let mut resolved: Vec<String> = Vec::new();
    let mut i: usize = 0;
    while i < n
        invariant
            n == args@.len(),
            i <= n,
            flags.deep_view() == ls_flags(args.deep_view().subrange(0, i as int)),
            arg_names.deep_view() == ls_names(args.deep_view().subrange(0, i as int)),
            resolved.deep_view() == ls_resolved(args.deep_view().subrange(0, i as int), current_dir@),
            arg_names@.len() == resolved@.len(),
        decreases n - i,
    {
        let a = &args[i];
        let an = a.as_str().unicode_len();
        let flaggy = an > 0 && a.as_str().get_char(0) == '-';
        if flaggy {
            flags.push(a.clone());
        } else {
            arg_names.push(a.clone());
            if is_absolute_path(a.as_str()) {
                resolved.push(a.clone());
            } else {
                resolved.push(join_path(current_dir, a.as_str()));
            }
        }
        proof {
            let all = args.deep_view();
            let pre = all.subrange(0, i as int + 1);
            assert(pre.drop_last() =~= all.subrange(0, i as int));
            assert(pre.last() == all[i as int]);
            assert(flags.deep_view() =~= ls_flags(pre));
            assert(arg_names.deep_view() =~= ls_names(pre));
            assert(resolved.deep_view() =~= ls_resolved(pre, current_dir@));
        }
        i = i + 1;
    }
    proof {
        assert(args.deep_view().subrange(0, n as int) =~= args.deep_view());
    }
    LsPlan { flags, arg_names, resolved }
}

/// The check of the `ls` path arguments against the sandbox, given the
/// caller's canonicalisation of each (in the order of [`LsPlan::resolved`];
/// `None` where canonicalisation failed). The first failure wins: a path with
/// no canonical form is invalid, one whose canonical form escapes the sandbox
/// is refused; otherwise all the canonical paths are safe to hand to the
/// lister.
pub open spec fn ls_check(
    names: Seq<Seq<char>>,
    probes: Seq<Option<Seq<char>>>,
    root: Seq<char>,
) -> Result<Seq<Seq<char>>, Seq<char>>
    decreases names.len(),
{
    if names.len() == 0 {
        Ok(Seq::empty())
    } else {
        match probes[0] {
            None => Err(path_invalid_text(names[0])),
            Some(c) => if !within_root(c, root) {
                Err(ls_outside_text(names[0]))
            } else {
                match ls_check(names.drop_first(), probes.drop_first(), root) {
                    Ok(t) => Ok(seq![c] + t),
                    Err(e) => Err(e),
                }
            },
        }
    }
}

fn ls_check_from(
    names: &[String],
    probes: &[Option<String>],
    root: &str,
    i: usize,
) -> (r: Result<Vec<String>, String>)
    requires
        names@.len() == probes@.len(),
        i <= names@.len(),
    ensures
        match r {
            Ok(v) => ls_check(
                names.deep_view().skip(i as int),
                probes.deep_view().skip(i as int),
                root@,
            ) == Ok::<_, Seq<char>>(v.deep_view()),
            Err(e) => ls_check(
                names.deep_view().skip(i as int),
                probes.deep_view().skip(i as int),
                root@,
            ) == Err::<Seq<Seq<char>>, _>(e@),
        },
    decreases names@.len() - i,
{
    let ghost tail_names = names.deep_view().skip(i as int);
    let ghost tail_probes = probes.deep_view().skip(i as int);
    if i == names.len() {
        let empty: Vec<String> = Vec::new();
        proof {
            assert(tail_names =~= Seq::<Seq<char>>::empty());
            assert(empty.deep_view() =~= Seq::<Seq<char>>::empty());
        }
        return Ok(empty);
    }
    proof {
        assert(tail_names[0] == names.deep_view()[i as int]);
        assert(tail_probes[0] == probes.deep_view()[i as int]);
        assert(tail_names.drop_first() =~= names.deep_view().skip(i as int + 1));
        assert(tail_probes.drop_first() =~= probes.deep_view().skip(i as int + 1));
    }
    match &probes[i] {
        None => {
            proof {
                assert(probes.deep_view()[i as int] == Option::<Seq<char>>::None);
            }
            Err(path_invalid_message(names[i].as_str()))
        },
        Some(c) => {
            proof {
                assert(probes.deep_view()[i as int] == Some(c@));
            }
            if !path_within_root(c.as_str(), root) {
                Err(ls_outside_message(names[i].as_str()))
            } else {
                match ls_check_from(names, probes, root, i + 1) {
                    Ok(t) => {
                        let mut v: Vec<String> = Vec::new();
                        v.push(c.clone());
                        let mut rest = t;
                        let ghost rest_view = rest.deep_view();
                        v.append(&mut rest);
                        proof {
                            assert(v.deep_view() =~= seq![c@] + rest_view);
                        }
                        Ok(v)
                    },
                    Err(e) => Err(e),
                }
            }
        },
    }
}

/// Checks the `ls` path arguments against the sandbox (see [`ls_check`]).
pub fn ls_check_paths(
    names: &[String],
    probes: &[Option<String>],
    root: &str,
) -> (r: Result<Vec<String>, String>)
    requires
        names@.len() == probes@.len(),
    ensures
        match r {
            Ok(v) => ls_check(names.deep_view(), probes.deep_view(), root@) == Ok::<
                _,
                Seq<char>,
            >(v.deep_view()),
            Err(e) => ls_check(names.deep_view(), probes.deep_view(), root@) == Err::<
                Seq<Seq<char>>,
                _,
            >(e@),
        },
{
    let r = ls_check_from(names, probes, root, 0);
    proof {
        assert(names.deep_view().skip(0) =~= names.deep_view());
        assert(probes.deep_view().skip(0) =~= probes.deep_view());
    }
    r
}

/// How a run of an allow-listed program ended: it completed with an exit
/// status and captured streams, its binary was missing, or spawning it failed
/// for another reason.
pub enum ExecOutcome {
    Completed { success: bool, stdout: String, stderr: String },
    NotFound,
    Failed(String),
}

/// The mathematical value of an [`ExecOutcome`].
pub enum OutcomeModel {
    Completed { success: bool, stdout: Seq<char>, stderr: Seq<char> },
    NotFound,
    Failed(Seq<char>),
}

impl View for ExecOutcome {
    type V = OutcomeModel;

    open spec fn view(&self) -> OutcomeModel {
        match self {
            ExecOutcome::Completed { success, stdout, stderr } => OutcomeModel::Completed {
                success: *success,
                stdout: stdout@,
                stderr: stderr@,
            },
            ExecOutcome::NotFound => OutcomeModel::NotFound,
            ExecOutcome::Failed(cause) => OutcomeModel::Failed(cause@),
        }
    }
}

/// The text a subprocess outcome turns into: the decoded standard output on
/// success; the decoded standard error framed as an execution error on a
/// non-zero exit; a distinct message for a missing binary; and a generic
/// failure message, with the cause, for any other spawn error.
pub open spec fn exec_outcome_text(program: Seq<char>, o: OutcomeModel) -> Seq<char> {
    match o {
        OutcomeModel::Completed { success, stdout, stderr } => if success {
            stdout
        } else {
            exec_fail_text(program, stderr)
        },
        OutcomeModel::NotFound => not_found_text(program),
        OutcomeModel::Failed(cause) => spawn_fail_text(program, cause),
    }
}

/// Maps a subprocess outcome to the text shown to the client.
pub fn exec_output(program: &str, outcome: &ExecOutcome) -> (r: String)
    ensures
        r@ == exec_outcome_text(program@, outcome@),
{
    match outcome {
        ExecOutcome::Completed { success, stdout, stderr } => {
            if *success {
                stdout.clone()
            } else {
                exec_fail_message(program, stderr.as_str())
            }
        },
        ExecOutcome::NotFound => not_found_message(program),
        ExecOutcome::Failed(cause) => spawn_fail_message(program, cause.as_str()),
    }
}

/// Relies on chrono's `Local::now` and its strftime formatting: the local
/// date rendered as zero-padded "%m-%d", always two digits, a dash and two
/// digits.
#[verifier::external_body]
fn local_month_day() -> (r: String)
    ensures
        r@.len() == 5,
{
    chrono::Local::now().format("%m-%d").to_string()
}

/// The birthday reply for a given month and day, rendered as "%m-%d".
pub fn birthday_message(month_day: &str) -> (r: String)
    ensures
        r@ == if month_day@ == "08-06"@ {
            happy_birthday_text()
        } else {
            not_birthday_text()
        },
{
    if str_eq(month_day, "08-06") {
        String::from_str("Happy Birthday, heyeuuu! \u{1f389}\u{1f382}\r\n")
    } else {
        String::from_str("It's not my birthday yet. Is it yours?\r\n")
    }
}

/// Checks the local date and greets accordingly; the date comes from the
/// machine's clock, so only the two possible replies are promised.
pub fn handle_birthday_command() -> (r: String)
    ensures
        r@ == happy_birthday_text() || r@ == not_birthday_text(),
{
    let today = local_month_day();
    birthday_message(today.as_str())
}

/// The fixed help text.
pub fn handle_help_command() -> (r: String)
    ensures
        r@ == help_text(),
{
    String::from_str(
        "\r\nAvailable Safe Commands:\r\n\x1b[32m  help\x1b[0m        - Show this help message.\r\n\x1b[32m  echo <text>\x1b[0m - Echoes the text you provide.\r\n\x1b[32m  pwd\x1b[0m         - Prints working directory.\r\n\x1b[32m  cd <path>\x1b[0m   - Change current directory.\r\n\x1b[32m  ls\x1b[0m          - List directory contents.\r\n\x1b[32m  whoami\x1b[0m      - Print the user name.\r\n\x1b[32m  about\x1b[0m       - About this terminal.\r\n\r\nCustom Commands:\r\n\x1b[32m  birthday\x1b[0m    - Check if it's your birthday.\r\n\x1b[32m  heyeuuu\x1b[0m     - A special greeting.\r\n\x1b[32m  creeper\x1b[0m     - A friendly sound.\r\n",
    )
}

/// Echoes the arguments, joined by single spaces and newline-terminated.
pub fn handle_echo_command(args: &[String]) -> (r: String)
    ensures
        r@ == echo_text(args.deep_view()),
{
    let mut out = join_words(args);
    out.append("\r\n");
    out
}

/// Prints the current directory, newline-terminated.
pub fn handle_pwd_command(current_dir: &str) -> (r: String)
    ensures
        r@ == pwd_text(current_dir@),
{
    let mut out = String::from_str(current_dir);
    out.append("\r\n");
    out
}

/// The name the special greeting blesses: the first argument, or the default.
pub open spec fn heyeuuu_name(args: Seq<Seq<char>>) -> Seq<char> {
    if args.len() == 0 {
        "heyeuuu"@
    } else {
        args[0]
    }
}

/// The special greeting.
pub fn handle_heyeuuu_command(args: &[String]) -> (r: String)
    ensures
        r@ == heyeuuu_text(heyeuuu_name(args.deep_view())),
{
    if args.len() == 0 {
        heyeuuu_message("heyeuuu")
    } else {
        heyeuuu_message(args[0].as_str())
    }
}

/// The friendly creeper sound.
pub fn handle_creeper_command() -> (r: String)
    ensures
        r@ == creeper_text(),
{
    String::from_str("Sss... Boom! (just kidding, I'm friendly) \r\n")
}

/// A `cd` whose probe reports a directory inside the sandbox lands exactly
/// there, prints nothing, and a following `pwd` reports that canonical path:
/// the round trip through a fresh subdirectory names the subdirectory.
pub proof fn lemma_cd_round_trip(arg: Seq<char>, probe: ProbeModel, root: Seq<char>)
    requires
        probe.is_dir,
        within_root(probe.canonical, root),
    ensures
        cd_outcome(arg, Some(probe), root) == (ResultModel {
            output: Seq::<char>::empty(),
            new_cwd: Some(probe.canonical),
        }),
        pwd_text(probe.canonical).subrange(0, probe.canonical.len() as int) == probe.canonical,
{
    assert(pwd_text(probe.canonical).subrange(0, probe.canonical.len() as int)
        =~= probe.canonical);
}

/// A `cd` whose probe's canonical form escapes the sandbox is refused and
/// leaves the directory unchanged, whatever the argument was.
pub proof fn lemma_cd_escape_refused(arg: Seq<char>, probe: ProbeModel, root: Seq<char>)
    requires
        !within_root(probe.canonical, root),
    ensures
        cd_outcome(arg, Some(probe), root) == (ResultModel {
            output: cd_outside_text(),
            new_cwd: None,
        }),
{
}

} // verus!

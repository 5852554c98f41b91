//! The command dispatcher: a pure mapping from the parsed words and the
//! session's current directory to what the turn does — a finished result, or
//! a request for the filesystem or subprocess work only the caller can do.

use vstd::prelude::*;
use vstd::string::StringExecFns;

use crate::command::cd_plan;
use crate::command::cd_request;
use crate::command::empty_result;
use crate::command::handle_creeper_command;
use crate::command::handle_echo_command;
use crate::command::handle_help_command;
use crate::command::handle_heyeuuu_command;
use crate::command::handle_pwd_command;
use crate::command::ls_flags;
use crate::command::ls_names;
use crate::command::ls_plan;
use crate::command::ls_resolved;
use crate::command::CdPlan;
use crate::command::CdPlanModel;
use crate::command::CommandResult;
use crate::command::LsPlan;
use crate::command::ResultModel;
use crate::messages::about_message;
use crate::messages::about_text;
use crate::messages::cd_outside_arg_text;
use crate::messages::creeper_text;
use crate::messages::denied_message;
use crate::messages::denied_text;
use crate::messages::echo_text;
use crate::messages::help_text;
use crate::messages::heyeuuu_text;
use crate::messages::pwd_text;
use crate::messages::unknown_message;
use crate::messages::unknown_text;
use crate::paths::is_abs;
use crate::paths::within_root;
use crate::text::ascii_lowercase;
use crate::text::lower_text;
use crate::text::str_eq;

verus! {

/// What one dispatched turn asks for: a finished result; a `cd` waiting for
/// the filesystem's view of a candidate path; an `ls` waiting for its path
/// arguments to be canonicalised and the lister run; the identity program; or
/// the birthday check.
pub enum Turn {
    Done(CommandResult),
    CdProbe { arg: String, path: String },
    Ls(LsPlan),
    Whoami,
    Birthday,
}

/// The mathematical value of a [`Turn`].
pub enum TurnModel {
    Done(ResultModel),
    CdProbe { arg: Seq<char>, path: Seq<char> },
    Ls { flags: Seq<Seq<char>>, arg_names: Seq<Seq<char>>, resolved: Seq<Seq<char>> },
    Whoami,
    Birthday,
}

impl View for Turn {
    type V = TurnModel;

    open spec fn view(&self) -> TurnModel {
        match self {
            Turn::Done(r) => TurnModel::Done(r@),
            Turn::CdProbe { arg, path } => TurnModel::CdProbe { arg: arg@, path: path@ },
            Turn::Ls(p) => TurnModel::Ls {
                flags: p.flags.deep_view(),
                arg_names: p.arg_names.deep_view(),
                resolved: p.resolved.deep_view(),
            },
            Turn::Whoami => TurnModel::Whoami,
            Turn::Birthday => TurnModel::Birthday,
        }
    }
}

/// A finished turn that prints `output` and changes no directory.
pub open spec fn done_text(output: Seq<char>) -> TurnModel {
    TurnModel::Done(ResultModel { output: output, new_cwd: None })
}

/// The verb table. The verb is the first word, lower-cased; the blocked verbs
/// are denied before anything else; `cd` follows its plan; `ls`, `whoami` and
/// `birthday` wait for outside work; everything else finishes at once, an
/// unrecognised verb repeating the whole line.
pub open spec fn dispatch_model(
    line: Seq<char>,
    words: Seq<Seq<char>>,
    cur: Seq<char>,
    root: Seq<char>,
) -> TurnModel {
    if words.len() == 0 {
        TurnModel::Done(empty_result())
    } else {
        let verb = lower_text(words[0]);
        let args = words.drop_first();
        if verb.len() == 0 {
            TurnModel::Done(empty_result())
        } else if verb == "sudo"@ || verb == "su"@ || verb == "passwd"@ {
            done_text(denied_text())
        } else if verb == "help"@ {
            done_text(help_text())
        } else if verb == "echo"@ {
            done_text(echo_text(args))
        } else if verb == "cd"@ {
            match cd_plan(args, cur, root) {
                CdPlanModel::Root => TurnModel::Done(
                    ResultModel { output: Seq::empty(), new_cwd: Some(root) },
                ),
                CdPlanModel::Reject(m) => done_text(m),
                CdPlanModel::Probe(p) => TurnModel::CdProbe { arg: args[0], path: p },
            }
        } else if verb == "pwd"@ {
            done_text(pwd_text(cur))
        } else if verb == "ls"@ {
            TurnModel::Ls {
                flags: ls_flags(args),
                arg_names: ls_names(args),
                resolved: ls_resolved(args, cur),
            }
        } else if verb == "whoami"@ {
            TurnModel::Whoami
        } else if verb == "about"@ {
            done_text(about_text())
        } else if verb == "birthday"@ {
            TurnModel::Birthday
        } else if verb == "heyeuuu"@ {
            done_text(heyeuuu_text(crate::command::heyeuuu_name(args)))
        } else if verb == "creeper"@ {
            done_text(creeper_text())
        } else {
            done_text(unknown_text(line))
        }
    }
}

fn tail_words(words: &Vec<String>) -> (r: Vec<String>)
    requires
        words@.len() > 0,
    ensures
        r.deep_view() == words.deep_view().drop_first(),
{
    let mut r: Vec<String> = Vec::new();
    let mut i: usize = 1;
    while i < words.len()
        invariant
            1 <= i <= words@.len(),
            r.deep_view() == words.deep_view().subrange(1, i as int),
        decreases words@.len() - i,
    {
        let ghost prev = r.deep_view();
        r.push(words[i].clone());
        proof {
            assert(r@.last() == words@[i as int]);
            assert(r.deep_view() =~= prev.push(words.deep_view()[i as int]));
            assert(prev.push(words.deep_view()[i as int]) =~= words.deep_view().subrange(
                1,
                i as int + 1,
            ));
        }
        i = i + 1;
    }
    proof {
        assert(words.deep_view().subrange(1, words.deep_view().len() as int)
            =~= words.deep_view().drop_first());
    }
    r
}

/// Dispatches one parsed command line against the verb table.
pub fn dispatch(line: &str, words: &Vec<String>, current_dir: &str, root: &str) -> (t: Turn)
    ensures
        t@ == dispatch_model(line@, words.deep_view(), current_dir@, root@),
{
    if words.len() == 0 {
        return Turn::Done(CommandResult { output: String::new(), new_cwd: None });
    }
    proof {
        assert(words.deep_view()[0] == words@[0]@);
    }
    let verb = ascii_lowercase(words[0].as_str());
    let v = verb.as_str();
    let args_vec = tail_words(words);
    let args = args_vec.as_slice();
    if v.is_empty() {
        Turn::Done(CommandResult { output: String::new(), new_cwd: None })
    } else if str_eq(v, "sudo") || str_eq(v, "su") || str_eq(v, "passwd") {
        Turn::Done(CommandResult { output: denied_message(), new_cwd: None })
    } else if str_eq(v, "help") {
        Turn::Done(CommandResult { output: handle_help_command(), new_cwd: None })
    } else if str_eq(v, "echo") {
        Turn::Done(CommandResult { output: handle_echo_command(args), new_cwd: None })
    } else if str_eq(v, "cd") {
        match cd_request(args, current_dir, root) {
            CdPlan::Root => Turn::Done(
                CommandResult { output: String::new(), new_cwd: Some(String::from_str(root)) },
            ),
            CdPlan::Reject(m) => Turn::Done(CommandResult { output: m, new_cwd: None }),
            CdPlan::Probe(p) => {
                proof {
                    assert(args.deep_view()[0] == args@[0]@);
                }
                Turn::CdProbe { arg: args[0].clone(), path: p }
            },
        }
    } else if str_eq(v, "pwd") {
        Turn::Done(CommandResult { output: handle_pwd_command(current_dir), new_cwd: None })
    } else if str_eq(v, "ls") {
        Turn::Ls(ls_plan(args, current_dir))
    } else if str_eq(v, "whoami") {
        Turn::Whoami
    } else if str_eq(v, "about") {
        Turn::Done(CommandResult { output: about_message(), new_cwd: None })
    } else if str_eq(v, "birthday") {
        Turn::Birthday
    } else if str_eq(v, "heyeuuu") {
        Turn::Done(CommandResult { output: handle_heyeuuu_command(args), new_cwd: None })
    } else if str_eq(v, "creeper") {
        Turn::Done(CommandResult { output: handle_creeper_command(), new_cwd: None })
    } else {
        Turn::Done(CommandResult { output: unknown_message(line), new_cwd: None })
    }
}

/// The blocked verbs `sudo`, `su` and `passwd` always answer with the fixed
/// permission-denied text and never change the directory, whatever their
/// arguments and wherever the session stands.
pub proof fn lemma_blocked_verbs_denied(
    line: Seq<char>,
    words: Seq<Seq<char>>,
    cur: Seq<char>,
    root: Seq<char>,
)
    requires
        words.len() > 0,
        lower_text(words[0]) == "sudo"@ || lower_text(words[0]) == "su"@ || lower_text(words[0])
            == "passwd"@,
    ensures
        dispatch_model(line, words, cur, root) == done_text(denied_text()),
{
    reveal_strlit("sudo");
    reveal_strlit("su");
    reveal_strlit("passwd");
}

/// `pwd` is idempotent and side-effect-free: it reports the current directory
/// newline-terminated, never changes it, and two `pwd` turns with no
/// directory change between them print the same text.
pub proof fn lemma_pwd_idempotent(
    line1: Seq<char>,
    words1: Seq<Seq<char>>,
    line2: Seq<char>,
    words2: Seq<Seq<char>>,
    cur: Seq<char>,
    root: Seq<char>,
)
    requires
        words1.len() > 0,
        words2.len() > 0,
        lower_text(words1[0]) == "pwd"@,
        lower_text(words2[0]) == "pwd"@,
    ensures
        dispatch_model(line1, words1, cur, root) == done_text(pwd_text(cur)),
        dispatch_model(line2, words2, cur, root) == dispatch_model(line1, words1, cur, root),
{
    reveal_strlit("pwd");
    reveal_strlit("sudo");
    reveal_strlit("su");
    reveal_strlit("passwd");
    reveal_strlit("help");
    reveal_strlit("echo");
    reveal_strlit("cd");
}

/// A `cd` to an absolute path outside the sandbox is refused at once — the
/// turn finishes without asking for any filesystem work — and the directory
/// is unchanged.
pub proof fn lemma_cd_absolute_outside_refused(
    line: Seq<char>,
    words: Seq<Seq<char>>,
    cur: Seq<char>,
    root: Seq<char>,
)
    requires
        words.len() >= 2,
        lower_text(words[0]) == "cd"@,
        is_abs(words[1]),
        !within_root(words[1], root),
    ensures
        dispatch_model(line, words, cur, root) == done_text(cd_outside_arg_text(words[1])),
{
    reveal_strlit("cd");
    reveal_strlit("sudo");
    reveal_strlit("su");
    reveal_strlit("passwd");
    reveal_strlit("help");
    reveal_strlit("echo");
    let verb = lower_text(words[0]);
    let args = words.drop_first();
    assert(args[0] == words[1]);
    assert(verb != "su"@) by {
        assert("cd"@[0] == 'c');
        assert("su"@[0] == 's');
    }
    assert(cd_plan(args, cur, root) == CdPlanModel::Reject(cd_outside_arg_text(args[0])));
}

} // verus!

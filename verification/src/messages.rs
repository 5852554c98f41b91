//! Every text the terminal can send, fixed or built around an argument, with
//! a spec function giving the exact character sequence of each.

use vstd::prelude::*;
use vstd::string::StringExecFns;

use crate::text::joined_words;

verus! {

/// The parse-error line for malformed quoting or escaping.
pub open spec fn parse_error_text() -> Seq<char> {
    "Error: Invalid command format (unclosed quotes or invalid escapes).\r\n"@
}

pub fn parse_error_message() -> (r: String)
    ensures
        r@ == parse_error_text(),
{
    String::from_str("Error: Invalid command format (unclosed quotes or invalid escapes).\r\n")
}

/// The fixed denial for the blocked verbs.
pub open spec fn denied_text() -> Seq<char> {
    "Error: Permission denied. This command is not allowed.\r\n"@
}

pub fn denied_message() -> (r: String)
    ensures
        r@ == denied_text(),
{
    String::from_str("Error: Permission denied. This command is not allowed.\r\n")
}

/// The fixed help text, coloured with ANSI escape sequences.
pub open spec fn help_text() -> Seq<char> {
    "\r\nAvailable Safe Commands:\r\n\x1b[32m  help\x1b[0m        - Show this help message.\r\n\x1b[32m  echo <text>\x1b[0m - Echoes the text you provide.\r\n\x1b[32m  pwd\x1b[0m         - Prints working directory.\r\n\x1b[32m  cd <path>\x1b[0m   - Change current directory.\r\n\x1b[32m  ls\x1b[0m          - List directory contents.\r\n\x1b[32m  whoami\x1b[0m      - Print the user name.\r\n\x1b[32m  about\x1b[0m       - About this terminal.\r\n\r\nCustom Commands:\r\n\x1b[32m  birthday\x1b[0m    - Check if it's your birthday.\r\n\x1b[32m  heyeuuu\x1b[0m     - A special greeting.\r\n\x1b[32m  creeper\x1b[0m     - A friendly sound.\r\n"@
}

/// The fixed description of the terminal.
pub open spec fn about_text() -> Seq<char> {
    "This is a safe, sandboxed Rust Axum web terminal.\r\nIt only supports a limited set of commands to ensure safety.\r\n"@
}

pub fn about_message() -> (r: String)
    ensures
        r@ == about_text(),
{
    String::from_str(
        "This is a safe, sandboxed Rust Axum web terminal.\r\nIt only supports a limited set of commands to ensure safety.\r\n",
    )
}

/// The friendly creeper sound.
pub open spec fn creeper_text() -> Seq<char> {
    "Sss... Boom! (just kidding, I'm friendly) \r\n"@
}

/// The birthday greeting.
pub open spec fn happy_birthday_text() -> Seq<char> {
    "Happy Birthday, heyeuuu! \u{1f389}\u{1f382}\r\n"@
}

/// The reply on every other day.
pub open spec fn not_birthday_text() -> Seq<char> {
    "It's not my birthday yet. Is it yours?\r\n"@
}

/// The greeting around a name.
pub open spec fn heyeuuu_text(name: Seq<char>) -> Seq<char> {
    "Suki~~~Bless for "@ + name + "~~~\r\n"@
}

pub fn heyeuuu_message(name: &str) -> (r: String)
    ensures
        r@ == heyeuuu_text(name@),
{
    let mut out = String::from_str("Suki~~~Bless for ");
    out.append(name);
    out.append("~~~\r\n");
    proof {
        assert(out@ =~= heyeuuu_text(name@));
    }
    out
}

/// The reply to an unrecognised verb, repeating the whole line.
pub open spec fn unknown_text(line: Seq<char>) -> Seq<char> {
    "Unknown command: "@ + line + "\r\n"@
}

pub fn unknown_message(line: &str) -> (r: String)
    ensures
        r@ == unknown_text(line@),
{
    let mut out = String::from_str("Unknown command: ");
    out.append(line);
    out.append("\r\n");
    proof {
        assert(out@ =~= unknown_text(line@));
    }
    out
}

/// What `pwd` prints: the current directory, newline-terminated.
pub open spec fn pwd_text(cur: Seq<char>) -> Seq<char> {
    cur + "\r\n"@
}

/// What `echo` prints: the arguments joined by single spaces, newline-terminated.
pub open spec fn echo_text(args: Seq<Seq<char>>) -> Seq<char> {
    joined_words(args) + "\r\n"@
}

/// The rejection of a `cd` to an absolute path outside the sandbox, refused
/// before any filesystem work.
pub open spec fn cd_outside_arg_text(arg: Seq<char>) -> Seq<char> {
    "Error: Cannot access '"@ + arg + "' outside the sandbox.\r\n"@
}

pub fn cd_outside_arg_message(arg: &str) -> (r: String)
    ensures
        r@ == cd_outside_arg_text(arg@),
{
    let mut out = String::from_str("Error: Cannot access '");
    out.append(arg);
    out.append("' outside the sandbox.\r\n");
    proof {
        assert(out@ =~= cd_outside_arg_text(arg@));
    }
    out
}

/// The rejection of a path that could not be canonicalised.
pub open spec fn path_invalid_text(arg: Seq<char>) -> Seq<char> {
    "Error: Path '"@ + arg + "' is invalid or does not exist.\r\n"@
}

pub fn path_invalid_message(arg: &str) -> (r: String)
    ensures
        r@ == path_invalid_text(arg@),
{
    let mut out = String::from_str("Error: Path '");
    out.append(arg);
    out.append("' is invalid or does not exist.\r\n");
    proof {
        assert(out@ =~= path_invalid_text(arg@));
    }
    out
}

/// The rejection of a `cd` whose canonical form escapes the sandbox.
pub open spec fn cd_outside_text() -> Seq<char> {
    "Error: Cannot access path outside the sandbox.\r\n"@
}

pub fn cd_outside_message() -> (r: String)
    ensures
        r@ == cd_outside_text(),
{
    String::from_str("Error: Cannot access path outside the sandbox.\r\n")
}

/// The rejection of a `cd` to something that is not a directory.
pub open spec fn cd_not_dir_text(arg: Seq<char>) -> Seq<char> {
    "Error: '"@ + arg + "' is not a directory or does not exist.\r\n"@
}

pub fn cd_not_dir_message(arg: &str) -> (r: String)
    ensures
        r@ == cd_not_dir_text(arg@),
{
    let mut out = String::from_str("Error: '");
    out.append(arg);
    out.append("' is not a directory or does not exist.\r\n");
    proof {
        assert(out@ =~= cd_not_dir_text(arg@));
    }
    out
}

/// The rejection of an `ls` argument whose canonical form escapes the sandbox.
pub open spec fn ls_outside_text(arg: Seq<char>) -> Seq<char> {
    "Error: Cannot access path '"@ + arg + "' outside the sandbox.\r\n"@
}

pub fn ls_outside_message(arg: &str) -> (r: String)
    ensures
        r@ == ls_outside_text(arg@),
{
    let mut out = String::from_str("Error: Cannot access path '");
    out.append(arg);
    out.append("' outside the sandbox.\r\n");
    proof {
        assert(out@ =~= ls_outside_text(arg@));
    }
    out
}

/// A program that ran and failed: its decoded standard error, framed as an
/// execution error.
pub open spec fn exec_fail_text(program: Seq<char>, stderr: Seq<char>) -> Seq<char> {
    "Error executing "@ + program + ": "@ + stderr + "\r\n"@
}

pub fn exec_fail_message(program: &str, stderr: &str) -> (r: String)
    ensures
        r@ == exec_fail_text(program@, stderr@),
{
    let mut out = String::from_str("Error executing ");
    out.append(program);
    out.append(": ");
    out.append(stderr);
    out.append("\r\n");
    proof {
        assert(out@ =~= exec_fail_text(program@, stderr@));
    }
    out
}

/// A program whose binary is missing from the execution environment.
pub open spec fn not_found_text(program: Seq<char>) -> Seq<char> {
    program + ": command not found\r\n"@
}

pub fn not_found_message(program: &str) -> (r: String)
    ensures
        r@ == not_found_text(program@),
{
    let mut out = String::from_str(program);
    out.append(": command not found\r\n");
    proof {
        assert(out@ =~= not_found_text(program@));
    }
    out
}

/// Any other spawn or I/O failure, with its underlying cause.
pub open spec fn spawn_fail_text(program: Seq<char>, cause: Seq<char>) -> Seq<char> {
    "Failed to execute "@ + program + " command: "@ + cause + "\r\n"@
}

pub fn spawn_fail_message(program: &str, cause: &str) -> (r: String)
    ensures
        r@ == spawn_fail_text(program@, cause@),
{
    let mut out = String::from_str("Failed to execute ");
    out.append(program);
    out.append(" command: ");
    out.append(cause);
    out.append("\r\n");
    proof {
        assert(out@ =~= spawn_fail_text(program@, cause@));
    }
    out
}

/// The welcome sent once on connect, around the initial directory.
pub open spec fn welcome_text(cur: Seq<char>) -> Seq<char> {
    "Welcome to the Rust Web Terminal Backend!\r\nCurrent directory: "@ + cur
        + "\r\nType \"help\" (or any command) and press Enter.\r\n"@
}

pub fn welcome_message(cur: &str) -> (r: String)
    ensures
        r@ == welcome_text(cur@),
{
    let mut out = String::from_str("Welcome to the Rust Web Terminal Backend!\r\nCurrent directory: ");
    out.append(cur);
    out.append("\r\nType \"help\" (or any command) and press Enter.\r\n");
    proof {
        assert(out@ =~= welcome_text(cur@));
    }
    out
}

} // verus!

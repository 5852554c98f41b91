//! The per-connection session: the sandboxed current directory, the turn
//! machinery around it, and the framing of each reply. The caller owns the
//! transport; it hands every received line to [`Session::begin_turn`], does
//! whatever filesystem or subprocess work the returned [`Turn`] asks for,
//! concludes the command, and applies the result, which updates the
//! directory and frames the response to send — `None` when a turn has
//! nothing to say.

use vstd::prelude::*;

use crate::command::cd_conclude;
use crate::command::cd_outcome;
use crate::command::empty_result;
use crate::command::ls_check;
use crate::command::ls_check_paths;
use crate::command::CommandResult;
use crate::command::DirProbe;
use crate::command::ResultModel;
use crate::dispatch::dispatch;
use crate::dispatch::dispatch_model;
use crate::dispatch::Turn;
use crate::dispatch::TurnModel;
use crate::lex::lex_line;
use crate::lex::lex_words;
use crate::messages::parse_error_message;
use crate::messages::parse_error_text;
use crate::messages::welcome_message;
use crate::messages::welcome_text;
use crate::paths::within_root;
use crate::sanitize::clean_output;
use crate::sanitize::sanitize_text;
use crate::text::trim_line;
use crate::text::trim_text;

verus! {

/// The fixed directory outside of which no session-visible path may resolve.
pub const SANDBOX_ROOT: &'static str = "/home/heyeuuu/Workspace/secretes/happy_birthday";

/// One structured reply to the client: the sanitised output when there is
/// any, and the new current directory when the turn changed it.
pub struct WebSocketResponse {
    pub output: Option<String>,
    pub cwd_update: Option<String>,
}

/// The mathematical value of a [`WebSocketResponse`].
pub struct ResponseModel {
    pub output: Option<Seq<char>>,
    pub cwd_update: Option<Seq<char>>,
}

impl View for WebSocketResponse {
    type V = ResponseModel;

    open spec fn view(&self) -> ResponseModel {
        ResponseModel {
            output: match self.output {
                Some(o) => Some(o@),
                None => None,
            },
            cwd_update: match self.cwd_update {
                Some(c) => Some(c@),
                None => None,
            },
        }
    }
}

/// The framing of one turn's outcome: the output is sanitised and present
/// only when non-empty, the directory update present only when the turn
/// changed the directory; a turn with neither sends nothing at all.
pub open spec fn encoded(output: Seq<char>, upd: Option<Seq<char>>) -> Option<ResponseModel> {
    let clean = sanitize_text(output);
    if clean.len() == 0 && upd is None {
        None
    } else {
        Some(
            ResponseModel {
                output: if clean.len() > 0 {
                    Some(clean)
                } else {
                    None
                },
                cwd_update: upd,
            },
        )
    }
}

/// The view of a response that may be suppressed.
pub open spec fn response_view(r: Option<WebSocketResponse>) -> Option<ResponseModel> {
    match r {
        Some(resp) => Some(resp@),
        None => None,
    }
}

/// Frames one turn's outcome for the transport (see [`encoded`]).
pub fn encode_response(output: String, cwd_update: Option<String>) -> (r: Option<
    WebSocketResponse,
>)
    ensures
        response_view(r) == encoded(
            output@,
            match cwd_update {
                Some(c) => Some(c@),
                None => None,
            },
        ),
{
    let clean = clean_output(output);
    let no_output = clean.as_str().is_empty();
    match cwd_update {
        Some(c) => Some(
            WebSocketResponse {
                output: if no_output {
                    None
                } else {
                    Some(clean)
                },
                cwd_update: Some(c),
            },
        ),
        None => {
            if no_output {
                None
            } else {
                Some(WebSocketResponse { output: Some(clean), cwd_update: None })
            }
        },
    }
}

/// What one received line asks the session to do, before any outside work:
/// nothing for a blank line, a parse error for bad quoting, and the verb
/// table for everything else.
pub open spec fn turn_model(line: Seq<char>, cur: Seq<char>, root: Seq<char>) -> TurnModel {
    let t = trim_text(line);
    if t.len() == 0 {
        TurnModel::Done(empty_result())
    } else {
        match lex_words(t) {
            None => TurnModel::Done(ResultModel { output: parse_error_text(), new_cwd: None }),
            Some(words) => dispatch_model(t, words, cur, root),
        }
    }
}

/// A transport event as the session sees it: a received text line, a control
/// or keepalive message, the peer's close, or a transport failure.
pub enum SessionEvent {
    Line(String),
    Control,
    Closed,
    TransportError,
}

/// What the session does with an event: work the turn off and reply, stay
/// silent and keep listening, or end.
pub enum EventAction {
    Process(Turn),
    Ignore,
    Stop,
}

/// One connection's session: its peer's identifier and its current directory,
/// always the sandbox root or a descendant of it.
pub struct Session {
    pub peer: String,
    pub current_dir: String,
    pub sandbox_root: String,
}

impl Session {
    /// The session invariant: the current directory never leaves the sandbox.
    pub open spec fn wf(&self) -> bool {
        within_root(self.current_dir@, self.sandbox_root@)
    }

    /// A fresh session for a connection, standing at the sandbox root.
    pub fn new(peer: String, sandbox_root: String) -> (s: Session)
        ensures
            s.peer == peer,
            s.sandbox_root == sandbox_root,
            s.current_dir@ == sandbox_root@,
            s.wf(),
    {
        let current_dir = sandbox_root.clone();
        Session { peer, current_dir, sandbox_root }
    }

    /// The welcome sent once on connect, before any client input: the
    /// greeting and the initial directory, both fields populated.
    pub fn welcome(&self) -> (r: WebSocketResponse)
        ensures
            r@.output == Some(sanitize_text(welcome_text(self.current_dir@))),
            r@.cwd_update == Some(self.current_dir@),
    {
        WebSocketResponse {
            output: Some(clean_output(welcome_message(self.current_dir.as_str()))),
            cwd_update: Some(self.current_dir.clone()),
        }
    }

    /// Begins one turn on a received line: trims it, parses it, and
    /// dispatches the words.
    pub fn begin_turn(&self, line: &str) -> (t: Turn)
        ensures
            t@ == turn_model(line@, self.current_dir@, self.sandbox_root@),
    {
        let trimmed = trim_line(line);
        if trimmed.as_str().is_empty() {
            return Turn::Done(CommandResult { output: String::new(), new_cwd: None });
        }
        match lex_line(trimmed.as_str()) {
            None => Turn::Done(CommandResult { output: parse_error_message(), new_cwd: None }),
            Some(words) => dispatch(
                trimmed.as_str(),
                &words,
                self.current_dir.as_str(),
                self.sandbox_root.as_str(),
            ),
        }
    }

    /// The session's loop, one event at a time: a text line is processed into
    /// a turn, a control message gets no reply, and the peer's close or a
    /// transport failure ends the session. Command failures never end it.
    pub fn on_event(&self, event: &SessionEvent) -> (a: EventAction)
        ensures
            match event {
                SessionEvent::Line(l) => a matches EventAction::Process(t) && t@ == turn_model(
                    l@,
                    self.current_dir@,
                    self.sandbox_root@,
                ),
                SessionEvent::Control => a is Ignore,
                SessionEvent::Closed => a is Stop,
                SessionEvent::TransportError => a is Stop,
            },
    {
        match event {
            SessionEvent::Line(l) => EventAction::Process(self.begin_turn(l.as_str())),
            SessionEvent::Control => EventAction::Ignore,
            SessionEvent::Closed => EventAction::Stop,
            SessionEvent::TransportError => EventAction::Stop,
        }
    }

    /// Concludes a `cd` turn from the caller's probe of the candidate path.
    pub fn finish_cd(&self, arg: &str, probe: Option<&DirProbe>) -> (r: CommandResult)
        ensures
            r@ == cd_outcome(
                arg@,
                match probe {
                    Some(p) => Some(p@),
                    None => None,
                },
                self.sandbox_root@,
            ),
            r@.new_cwd matches Some(p) ==> within_root(p, self.sandbox_root@),
    {
        cd_conclude(arg, probe, self.sandbox_root.as_str())
    }

    /// Checks the `ls` path arguments against the sandbox, given the caller's
    /// canonicalisation of each (see [`ls_check`]).
    pub fn finish_ls_paths(&self, names: &[String], probes: &[Option<String>]) -> (r: Result<
        Vec<String>,
        String,
    >)
        requires
            names@.len() == probes@.len(),
        ensures
            match r {
                Ok(v) => ls_check(names.deep_view(), probes.deep_view(), self.sandbox_root@)
                    == Ok::<_, Seq<char>>(v.deep_view()),
                Err(e) => ls_check(names.deep_view(), probes.deep_view(), self.sandbox_root@)
                    == Err::<Seq<Seq<char>>, _>(e@),
            },
    {
        ls_check_paths(names, probes, self.sandbox_root.as_str())
    }

    /// Applies one turn's result: moves the directory when the result carries
    /// one — it then still lies inside the sandbox — and frames the reply.
    pub fn apply(&mut self, result: CommandResult) -> (r: Option<WebSocketResponse>)
        requires
            old(self).wf(),
            result@.new_cwd matches Some(p) ==> within_root(p, old(self).sandbox_root@),
        ensures
            final(self).wf(),
            final(self).peer == old(self).peer,
            final(self).sandbox_root == old(self).sandbox_root,
            final(self).current_dir@ == match result@.new_cwd {
                Some(p) => p,
                None => old(self).current_dir@,
            },
            response_view(r) == encoded(result@.output, result@.new_cwd),
    {
        let CommandResult { output, new_cwd } = result;
        if let Some(p) = &new_cwd {
            self.current_dir = p.clone();
        }
        encode_response(output, new_cwd)
    }
}

/// The current directory never leaves the sandbox: it starts at the root, and
/// a turn either keeps it or moves it to a checked descendant, so any
/// sequence of turns leaves it at the root or below it.
pub proof fn lemma_dir_stays_in_sandbox(cur: Seq<char>, root: Seq<char>, r: ResultModel)
    requires
        within_root(cur, root),
        r.new_cwd matches Some(p) ==> within_root(p, root),
    ensures
        within_root(
            match r.new_cwd {
                Some(p) => p,
                None => cur,
            },
            root,
        ),
{
}

/// The directory a session stands in after a sequence of applied command
/// results.
pub open spec fn dir_after(start: Seq<char>, results: Seq<ResultModel>) -> Seq<char>
    decreases results.len(),
{
    if results.len() == 0 {
        start
    } else {
        let prev = dir_after(start, results.drop_last());
        match results.last().new_cwd {
            Some(p) => p,
            None => prev,
        }
    }
}

/// Over any sequence of command results whose directory updates were checked
/// against the sandbox — as every `cd` conclusion's is — the session's
/// directory stays at the root or below it.
pub proof fn lemma_sequence_stays_in_sandbox(
    start: Seq<char>,
    root: Seq<char>,
    results: Seq<ResultModel>,
)
    requires
        within_root(start, root),
        forall|i: int|
            0 <= i < results.len() ==> ((#[trigger] results[i]).new_cwd matches Some(p)
                ==> within_root(p, root)),
    ensures
        within_root(dir_after(start, results), root),
    decreases results.len(),
{
    if results.len() > 0 {
        let front = results.drop_last();
        assert forall|i: int| 0 <= i < front.len() implies ((#[trigger] front[i]).new_cwd
            matches Some(p) ==> within_root(p, root)) by {
            assert(front[i] == results[i]);
        }
        lemma_sequence_stays_in_sandbox(start, root, front);
    }
}

/// A line that is blank after trimming does nothing: no output, no directory
/// update.
pub proof fn lemma_blank_line_is_noop(line: Seq<char>, cur: Seq<char>, root: Seq<char>)
    ensures
        trim_text(line).len() == 0 ==> turn_model(line, cur, root) == TurnModel::Done(
            empty_result(),
        ),
{
}

/// A line the lexer refuses — an unterminated quote or a dangling escape —
/// yields exactly the parse-error output and no directory update.
pub proof fn lemma_bad_quoting_is_parse_error(line: Seq<char>, cur: Seq<char>, root: Seq<char>)
    ensures
        trim_text(line).len() > 0 && lex_words(trim_text(line)) is None ==> turn_model(
            line,
            cur,
            root,
        ) == TurnModel::Done(ResultModel { output: parse_error_text(), new_cwd: None }),
{
}

} // verus!

//! The control server: how the daemon takes its endpoint, reads a request,
//! and leads the supervisor through what was asked.

use crate::config::Action;
use crate::process::{
    Event, EventView, Outcome, OutcomeView, Process, ProcessError, State, Step, StepView,
};
use crate::probe::ProcessStatus;
use crate::fields::{field_start_in, lemma_field_start_unique, rest_from_field, starts_field};
use crate::text::{occurs, stands_at, to_chars, utf8_text};
use vstd::prelude::*;
use vstd::string::*;

verus! {

/// `s[a..b]` is a line of `s`: it starts at the start of the text or after a
/// line feed, within the text, and ends before the next line feed or at the
/// end of the text.
pub open spec fn is_line(s: Seq<char>, a: int, b: int) -> bool {
    &&& 0 <= a <= b <= s.len()
    &&& a < s.len()
    &&& (a == 0 || s[a - 1] == '\n')
    &&& (b == s.len() || s[b] == '\n')
    &&& forall|j: int| a <= j < b ==> #[trigger] s[j] != '\n'
}

/// Where the text of the line `s[a..b]` ends: a carriage return right before
/// the line feed belongs to the line ending.
pub open spec fn line_end(s: Seq<char>, a: int, b: int) -> int {
    if a < b < s.len() && s[b - 1] == '\r' {
        b - 1
    } else {
        b
    }
}

/// The position of the path among the fields of a line of the registry of
/// sockets: behind the number, the reference count, the protocol, the flags,
/// the type, the state and the inode.
pub const PATH_FIELD: usize = 7;

/// The path that a line of the registry names: all of the line from its
/// eighth field. A path may hold white space; nothing follows it. A line
/// with fewer fields is of a socket that is bound to no path.
pub open spec fn entry_path(line: Seq<char>) -> Option<Seq<char>> {
    rest_from_field(line, PATH_FIELD as nat)
}

/// Some line of `registry` names exactly `path`.
pub open spec fn mentions(registry: Seq<char>, path: Seq<char>) -> bool {
    exists|a: int, b: int|
        #![trigger is_line(registry, a, b)]
        is_line(registry, a, b) && entry_path(registry.subrange(a, line_end(registry, a, b)))
            == Some(path)
}

/// Whether a live socket is bound to `path`, given the text of the operating
/// system's registry of sockets: whether one of its lines names exactly
/// `path`. A socket at another path, though `path` be part of it, is none.
pub fn is_socket_being_used(registry: &str, path: &str) -> (used: bool)
    ensures
        used == mentions(registry@, path@),
{
    let text = to_chars(registry);
    let needle = to_chars(path);
    let n = text.len();
    let m = needle.len();
    let mut a: usize = 0;
    while a < n
        invariant
            n == text.len(),
            m == needle.len(),
            text@ == registry@,
            needle@ == path@,
            a <= n,
            a == 0 || a == n || text@[a - 1] == '\n',
            forall|x: int, y: int|
                #![trigger is_line(text@, x, y)]
                is_line(text@, x, y) && x < a ==> entry_path(
                    text@.subrange(x, line_end(text@, x, y)),
                ) != Some(needle@),
        decreases n - a,
    {
        let mut b: usize = a;
        while b < n && text[b] != '\n'
            invariant
                n == text.len(),
                a <= b <= n,
                forall|j: int| a <= j < b ==> #[trigger] text@[j] != '\n',
            decreases n - b,
        {
            b += 1;
        }
        assert(is_line(text@, a as int, b as int));
        let end = if a < b && b < n && text[b - 1] == '\r' {
            b - 1
        } else {
            b
        };
        assert(end == line_end(text@, a as int, b as int));
        let ghost line = text@.subrange(a as int, end as int);
        let named = match field_start_in(&text, a, end, PATH_FIELD) {
            Some(p) => {
                let same = end - p == m && stands_at(&text, p, &needle);
                proof {
                    let at = choose|at: int| starts_field(line, PATH_FIELD as nat, at);
                    lemma_field_start_unique(line, PATH_FIELD as nat, p - a, at);
                    assert(line.subrange(p - a, line.len() as int) =~= text@.subrange(
                        p as int,
                        end as int,
                    ));
                    assert(entry_path(line) == Some(text@.subrange(p as int, end as int)));
                }
                same
            },
            None => false,
        };
        assert(named == (entry_path(line) == Some(needle@)));
        if named {
            return true;
        }
        proof {
            assert forall|x: int, y: int|
                #![trigger is_line(text@, x, y)]
                is_line(text@, x, y) && x <= b implies entry_path(
                text@.subrange(x, line_end(text@, x, y)),
            ) != Some(needle@) by {
                if x >= a {
                    if x > a {
                        assert(text@[x - 1] != '\n');
                    }
                    if y < b {
                        assert(text@[y] != '\n');
                    }
                    if y > b {
                        assert(text@[b as int] != '\n');
                    }
                }
            }
        }
        if b == n {
            a = n;
        } else {
            a = b + 1;
        }
    }
    false
}

/// Why the daemon does not serve.
#[derive(Clone, Copy, Debug, PartialEq, Eq, Structural)]
pub enum ServerError {
    /// A live socket is bound to the endpoint: another daemon serves there.
    InUse,
}

impl ServerError {
    /// The error in words.
    pub open spec fn text(self) -> Seq<char> {
        "sup socket is being used by another process"@
    }

    /// The error in words.
    pub fn message(&self) -> (text: String)
        ensures
            text@ == self.text(),
    {
        String::from_str("sup socket is being used by another process")
    }
}

/// What stands at the path of the control endpoint when the daemon starts.
#[derive(Clone, Debug, PartialEq, Eq)]
pub enum Endpoint {
    /// Nothing.
    Vacant,
    /// Something, and this is the text of the registry of sockets.
    Present(String),
}

/// How the daemon takes its endpoint.
#[derive(Clone, Copy, Debug, PartialEq, Eq, Structural)]
pub enum Claim {
    /// Bind the endpoint.
    Bind,
    /// Remove what a daemon that is gone left at the path, then bind.
    ReplaceStale,
}

/// How the daemon takes the endpoint at `socket`, given what `found` there:
/// nothing is bound at once, a leftover is replaced, and an endpoint that a
/// live socket is bound to is left alone.
pub open spec fn claim_of(socket: Seq<char>, found: Endpoint) -> Result<Claim, ServerError> {
    match found {
        Endpoint::Vacant => Ok(Claim::Bind),
        Endpoint::Present(registry) => if mentions(registry@, socket) {
            Err(ServerError::InUse)
        } else {
            Ok(Claim::ReplaceStale)
        },
    }
}

/// The most bytes that a request may have.
pub const MAX_REQUEST: usize = 64;

/// Why a request was refused.
#[derive(Clone, Debug, PartialEq, Eq)]
pub enum ProtocolError {
    /// The request is longer than [`MAX_REQUEST`] bytes.
    TooLong,
    /// The request is no text.
    NotText,
    /// The request is the word of an action that no client may ask for.
    Unsupported(Action),
    /// The request is no action word; it is this.
    UnknownAction(String),
}

/// A [`ProtocolError`] with its text as plain text.
pub enum ProtocolErrorView {
    TooLong,
    NotText,
    Unsupported(Action),
    UnknownAction(Seq<char>),
}

impl View for ProtocolError {
    type V = ProtocolErrorView;

    open spec fn view(&self) -> ProtocolErrorView {
        match self {
            ProtocolError::TooLong => ProtocolErrorView::TooLong,
            ProtocolError::NotText => ProtocolErrorView::NotText,
            ProtocolError::Unsupported(action) => ProtocolErrorView::Unsupported(*action),
            ProtocolError::UnknownAction(word) => ProtocolErrorView::UnknownAction(word@),
        }
    }
}

impl ProtocolError {
    /// The error in words, as the client is answered.
    pub open spec fn text(v: ProtocolErrorView) -> Seq<char> {
        match v {
            ProtocolErrorView::TooLong => "request is too long"@,
            ProtocolErrorView::NotText => "request is not valid UTF-8"@,
            ProtocolErrorView::Unsupported(action) => "do not support action "@ + action.word(),
            ProtocolErrorView::UnknownAction(word) => "unknown action '"@ + word + "'"@,
        }
    }

    /// The error in words.
    pub fn message(&self) -> (text: String)
        ensures
            text@ == ProtocolError::text(self@),
    {
        match self {
            ProtocolError::TooLong => String::from_str("request is too long"),
            ProtocolError::NotText => String::from_str("request is not valid UTF-8"),
            ProtocolError::Unsupported(action) => {
                let mut text = String::from_str("do not support action ");
                text.append(action.as_str());
                text
            },
            ProtocolError::UnknownAction(word) => {
                let mut text = String::from_str("unknown action '");
                text.append(word.as_str());
                text.append("'");
                text
            },
        }
    }
}

/// What a request asks for: the action whose word its bytes spell, which may
/// be any but `serve`.
pub open spec fn request_of(bytes: Seq<u8>) -> Result<Action, ProtocolErrorView> {
    if bytes.len() > MAX_REQUEST {
        Err(ProtocolErrorView::TooLong)
    } else if !vstd::utf8::valid_utf8(bytes) {
        Err(ProtocolErrorView::NotText)
    } else {
        match Action::from_word(vstd::utf8::decode_utf8(bytes)) {
            Some(Action::Serve) => Err(ProtocolErrorView::Unsupported(Action::Serve)),
            Some(action) => Ok(action),
            None => Err(ProtocolErrorView::UnknownAction(vstd::utf8::decode_utf8(bytes))),
        }
    }
}

/// Reads the request of a client: one action word and nothing else.
pub fn decode_request(bytes: &[u8]) -> (request: Result<Action, ProtocolError>)
    ensures
        match request {
            Ok(action) => request_of(bytes@) == Ok::<Action, ProtocolErrorView>(action),
            Err(e) => request_of(bytes@) == Err::<Action, ProtocolErrorView>(e@),
        },
        request != Ok::<Action, ProtocolError>(Action::Serve),
{
    if bytes.len() > MAX_REQUEST {
        return Err(ProtocolError::TooLong);
    }
    match utf8_text(bytes) {
        None => Err(ProtocolError::NotText),
        Some(word) => {
            proof {
                vstd::utf8::encode_utf8_decode_utf8(word@);
            }
            match Action::parse(word) {
                Some(Action::Serve) => Err(ProtocolError::Unsupported(Action::Serve)),
                Some(action) => Ok(action),
                None => Err(ProtocolError::UnknownAction(String::from_str(word))),
            }
        },
    }
}

/// The word that answers a request that was carried out.
pub open spec fn ok_text() -> Seq<char> {
    "OK"@
}

/// What the client is answered when the operation it asked for has ended:
/// `OK`, or the status that was asked for, or the error, in words.
pub open spec fn reply_text(outcome: OutcomeView) -> Seq<char> {
    match outcome {
        OutcomeView::Done => ok_text(),
        OutcomeView::Report(status) => ProcessStatus::label_text(status),
        OutcomeView::Failed(e) => ProcessError::text(e),
    }
}

/// The answer to a client whose operation ended with `outcome`.
pub fn reply(outcome: &Outcome) -> (text: String)
    ensures
        text@ == reply_text(outcome@),
{
    match outcome {
        Outcome::Done => String::from_str("OK"),
        Outcome::Report(status) => status.to_string(),
        Outcome::Failed(e) => e.message(),
    }
}

/// On whose behalf the server leads the supervisor.
#[derive(Clone, Copy, Debug, PartialEq, Eq, Structural)]
pub enum Session {
    /// Nobody's: the server is at rest.
    Idle,
    /// A client's, who asked for this action.
    Request(Action),
    /// A client's, who asked for a restart; the child has been stopped.
    Starting,
    /// A signal's that told the daemon to end.
    Interrupt,
    /// The watch's that saw the child exit.
    Reap,
    /// The daemon's own, which starts the child as it starts itself.
    Boot,
}

/// What the driver of the server does next.
#[derive(Clone, Debug, PartialEq, Eq)]
pub enum Turn {
    /// Carry out the step and report what came of it to [`Server::resume`].
    Perform(Step),
    /// Answer the client with `text`, all of it and nothing else; with
    /// `exit`, end the daemon with code 0 once the answer is written.
    Respond { text: String, exit: bool },
    /// End the daemon with `code`.
    Exit { code: i32 },
    /// Give up: the child could not be started, for the reason in `text`.
    Abort { text: String },
    /// Nothing.
    Rest,
}

/// A [`Turn`] with its text as plain text.
pub enum TurnView {
    Perform(StepView),
    Respond { text: Seq<char>, exit: bool },
    Exit { code: i32 },
    Abort { text: Seq<char> },
    Rest,
}

impl View for Turn {
    type V = TurnView;

    open spec fn view(&self) -> TurnView {
        match self {
            Turn::Perform(step) => TurnView::Perform(step@),
            Turn::Respond { text, exit } => TurnView::Respond { text: text@, exit: *exit },
            Turn::Exit { code } => TurnView::Exit { code: *code },
            Turn::Abort { text } => TurnView::Abort { text: text@ },
            Turn::Rest => TurnView::Rest,
        }
    }
}

/// The server as contracts see it: the state of its supervisor, and on whose
/// behalf it leads the supervisor.
pub struct ServerView {
    pub process: State,
    pub session: Session,
}

impl ServerView {
    /// How a session ends with `outcome`: a client is answered, and the
    /// daemon ends after the answer where the client asked for that; a signal
    /// ends the daemon, with code 0 where the child was stopped; the watch
    /// rests, or gives up where the child could not be started again, and so
    /// does the daemon where the child could not be started with it.
    pub open spec fn close(session: Session, outcome: OutcomeView) -> TurnView {
        match session {
            Session::Request(action) => TurnView::Respond {
                text: reply_text(outcome),
                exit: action == Action::Exit,
            },
            Session::Starting => TurnView::Respond { text: reply_text(outcome), exit: false },
            Session::Interrupt => TurnView::Exit {
                code: if outcome == OutcomeView::Done {
                    0i32
                } else {
                    1i32
                },
            },
            Session::Reap => match outcome {
                OutcomeView::Failed(e) => TurnView::Abort { text: ProcessError::text(e) },
                _ => TurnView::Rest,
            },
            Session::Boot => match outcome {
                OutcomeView::Failed(e) => TurnView::Abort { text: ProcessError::text(e) },
                _ => TurnView::Rest,
            },
            Session::Idle => TurnView::Rest,
        }
    }

    /// What follows a step of the supervisor in `session`: the step itself,
    /// until the operation ends; then the start that a restart still owes,
    /// or the end of the session.
    pub open spec fn follow(session: Session, process: State, step: StepView) -> (
        ServerView,
        TurnView,
    ) {
        match step {
            StepView::Finished(outcome) => if session == Session::Request(Action::Restart)
                && outcome == OutcomeView::Done {
                let (started, first) = process.start();
                match first {
                    StepView::Finished(ended) => (
                        ServerView { process: started, session: Session::Idle },
                        ServerView::close(Session::Starting, ended),
                    ),
                    _ => (
                        ServerView { process: started, session: Session::Starting },
                        TurnView::Perform(first),
                    ),
                }
            } else {
                (
                    ServerView { process, session: Session::Idle },
                    ServerView::close(session, outcome),
                )
            },
            _ => (ServerView { process, session }, TurnView::Perform(step)),
        }
    }

    /// The first step of the supervisor for `action`: `exit` and `restart`
    /// begin as `stop` does.
    pub open spec fn begin(process: State, action: Action) -> (State, StepView) {
        match action {
            Action::Start => process.start(),
            Action::Stop => process.halt(crate::process::Signal::Terminate),
            Action::Restart => process.halt(crate::process::Signal::Terminate),
            Action::Exit => process.halt(crate::process::Signal::Terminate),
            Action::Kill => process.halt(crate::process::Signal::Kill),
            Action::Reload => process.reload(),
            Action::Status => process.status(),
            Action::Serve => process.fail(crate::process::ErrorView::OutOfTurn),
        }
    }

    /// A request arrives: one that cannot be read is answered with the error
    /// and changes nothing; any other begins its operation.
    pub open spec fn handle(self, request: Seq<u8>) -> (ServerView, TurnView) {
        match request_of(request) {
            Ok(action) => {
                let (process, step) = ServerView::begin(self.process, action);
                ServerView::follow(Session::Request(action), process, step)
            },
            Err(e) => (self, TurnView::Respond { text: ProtocolError::text(e), exit: false }),
        }
    }

    /// The daemon starts: the launch that a supervisor with automatic start
    /// is waiting for is carried out.
    pub open spec fn boot(self) -> (ServerView, TurnView) {
        if self.process.pending == crate::process::Pending::Launching {
            ServerView::follow(Session::Boot, self.process, StepView::Launch)
        } else {
            (self, TurnView::Rest)
        }
    }

    /// A signal tells the daemon to end: the child is stopped first.
    pub open spec fn interrupt(self) -> (ServerView, TurnView) {
        let (process, step) = self.process.halt(crate::process::Signal::Terminate);
        ServerView::follow(Session::Interrupt, process, step)
    }

    /// The watch saw child `pid` exit.
    pub open spec fn child_exited(
        self,
        strategy: crate::config::RestartStrategy,
        pid: u32,
        success: bool,
    ) -> (ServerView, TurnView) {
        let (process, step) = self.process.child_exited(strategy, pid, success);
        ServerView::follow(Session::Reap, process, step)
    }

    /// What came of the last step is reported. At rest the report is
    /// dropped.
    pub open spec fn resume(self, grace: u64, event: EventView) -> (ServerView, TurnView) {
        if self.session == Session::Idle {
            (self, TurnView::Rest)
        } else {
            let (process, step) = self.process.resume(grace, event);
            ServerView::follow(self.session, process, step)
        }
    }
}

/// The control server of one supervisor.
pub struct Server {
    process: Process,
    session: Session,
    claim: Claim,
}

impl View for Server {
    type V = ServerView;

    closed spec fn view(&self) -> ServerView {
        ServerView { process: self.process@, session: self.session }
    }
}

impl Server {
    /// The supervisor that the server leads.
    pub closed spec fn spec_process(&self) -> Process {
        self.process
    }

    /// How the server takes its endpoint.
    pub closed spec fn spec_claim(&self) -> Claim {
        self.claim
    }

    /// The supervisor that the server leads.
    pub fn process(&self) -> (process: &Process)
        ensures
            *process == self.spec_process(),
            process@ == self@.process,
    {
        &self.process
    }

    /// How the server takes its endpoint.
    pub fn claim(&self) -> (claim: Claim)
        ensures
            claim == self.spec_claim(),
    {
        self.claim
    }

    /// On whose behalf the server leads the supervisor.
    pub fn session(&self) -> (session: Session)
        ensures
            session == self@.session,
    {
        self.session
    }

    /// Ends a session with `outcome`.
    fn close(session: Session, outcome: &Outcome) -> (turn: Turn)
        ensures
            turn@ == ServerView::close(session, outcome@),
    {
        match session {
            Session::Request(action) => Turn::Respond {
                text: reply(outcome),
                exit: matches!(action, Action::Exit),
            },
            Session::Starting => Turn::Respond { text: reply(outcome), exit: false },
            Session::Interrupt => match outcome {
                Outcome::Done => Turn::Exit { code: 0 },
                _ => Turn::Exit { code: 1 },
            },
            Session::Reap => match outcome {
                Outcome::Failed(e) => Turn::Abort { text: e.message() },
                _ => Turn::Rest,
            },
            Session::Boot => match outcome {
                Outcome::Failed(e) => Turn::Abort { text: e.message() },
                _ => Turn::Rest,
            },
            Session::Idle => Turn::Rest,
        }
    }

    /// Decides what follows a step of the supervisor in `session`.
    fn follow(&mut self, session: Session, step: Step) -> (turn: Turn)
        ensures
            final(self).spec_process().spec_conf() == old(self).spec_process().spec_conf(),
            final(self).spec_claim() == old(self).spec_claim(),
            (final(self)@, turn@) == ServerView::follow(session, old(self)@.process, step@),
    {
        match step {
            Step::Finished(outcome) => {
                let restart = matches!(session, Session::Request(Action::Restart));
                let done = matches!(outcome, Outcome::Done);
                if restart && done {
                    let first = self.process.start();
                    match first {
                        Step::Finished(ended) => {
                            self.session = Session::Idle;
                            Server::close(Session::Starting, &ended)
                        },
                        _ => {
                            self.session = Session::Starting;
                            Turn::Perform(first)
                        },
                    }
                } else {
                    self.session = Session::Idle;
                    Server::close(session, &outcome)
                }
            },
            _ => {
                self.session = session;
                Turn::Perform(step)
            },
        }
    }

    /// Takes the request of a client and begins what it asks for.
    pub fn handle(&mut self, request: &[u8]) -> (turn: Turn)
        ensures
            final(self).spec_process().spec_conf() == old(self).spec_process().spec_conf(),
            final(self).spec_claim() == old(self).spec_claim(),
            (final(self)@, turn@) == old(self)@.handle(request@),
    {
        match decode_request(request) {
            Ok(action) => {
                let step = match action {
                    Action::Start => self.process.start(),
                    Action::Stop => self.process.stop(),
                    Action::Restart => self.process.stop(),
                    Action::Exit => self.process.stop(),
                    Action::Kill => self.process.kill(),
                    Action::Reload => self.process.reload(),
                    Action::Status => self.process.status(),
                    Action::Serve => {
                        return Turn::Respond {
                            text: ProtocolError::Unsupported(Action::Serve).message(),
                            exit: false,
                        };
                    },
                };
                self.follow(Session::Request(action), step)
            },
            Err(e) => Turn::Respond { text: e.message(), exit: false },
        }
    }

    /// Begins the automatic start of the child, where the supervisor was
    /// made with one. The daemon must not serve if that start fails.
    pub fn boot(&mut self) -> (turn: Turn)
        ensures
            final(self).spec_process().spec_conf() == old(self).spec_process().spec_conf(),
            final(self).spec_claim() == old(self).spec_claim(),
            (final(self)@, turn@) == old(self)@.boot(),
    {
        if matches!(self.process.state().pending, crate::process::Pending::Launching) {
            self.session = Session::Boot;
            Turn::Perform(Step::Launch)
        } else {
            Turn::Rest
        }
    }

    /// Takes note of the signal that tells the daemon to end: the child is
    /// stopped, and the daemon ends with code 0 if that went well, else 1.
    pub fn interrupt(&mut self) -> (turn: Turn)
        ensures
            final(self).spec_process().spec_conf() == old(self).spec_process().spec_conf(),
            final(self).spec_claim() == old(self).spec_claim(),
            (final(self)@, turn@) == old(self)@.interrupt(),
    {
        let step = self.process.stop();
        self.follow(Session::Interrupt, step)
    }

    /// Takes note that child `pid` has exited and starts it again where the
    /// supervisor's strategy asks for it.
    pub fn child_exited(&mut self, pid: u32, success: bool) -> (turn: Turn)
        ensures
            final(self).spec_process().spec_conf() == old(self).spec_process().spec_conf(),
            final(self).spec_claim() == old(self).spec_claim(),
            (final(self)@, turn@) == old(self)@.child_exited(
                old(self).spec_process().spec_conf().restart_strategy,
                pid,
                success,
            ),
    {
        let step = self.process.child_exited(pid, success);
        self.follow(Session::Reap, step)
    }

    /// Goes on with the session under way, given what came of its last step.
    pub fn resume(&mut self, event: Event) -> (turn: Turn)
        ensures
            final(self).spec_process().spec_conf() == old(self).spec_process().spec_conf(),
            final(self).spec_claim() == old(self).spec_claim(),
            (final(self)@, turn@) == old(self)@.resume(
                old(self).spec_process().spec_conf().start_seconds,
                event@,
            ),
    {
        if matches!(self.session, Session::Idle) {
            return Turn::Rest;
        }
        let step = self.process.resume(event);
        let session = self.session;
        self.follow(session, step)
    }
}

/// Makes the control server of `process` for the endpoint at `socket`, given
/// what `found` at that path. Where a live socket is bound to the path, the
/// daemon must not serve and the path stays as it is.
pub fn run(socket: &str, process: Process, found: &Endpoint) -> (made: Result<Server, ServerError>)
    ensures
        match made {
            Ok(server) => {
                &&& claim_of(socket@, *found) == Ok::<Claim, ServerError>(server.spec_claim())
                &&& server.spec_process() == process
                &&& server@ == (ServerView { process: process@, session: Session::Idle })
            },
            Err(e) => claim_of(socket@, *found) == Err::<Claim, ServerError>(e),
        },
{
    let claim = match found {
        Endpoint::Vacant => Claim::Bind,
        Endpoint::Present(registry) => {
            if is_socket_being_used(registry.as_str(), socket) {
                return Err(ServerError::InUse);
            }
            Claim::ReplaceStale
        },
    };
    Ok(Server { process, session: Session::Idle, claim })
}

/// The word of an action is short enough for a request, and it is ASCII.
pub proof fn lemma_words_fit(action: Action)
    ensures
        vstd::utf8::is_ascii_chars(action.word()),
        vstd::utf8::encode_utf8(action.word()).len() == action.word().len(),
        action.word().len() <= 7,
{
    reveal_strlit("serve");
    reveal_strlit("start");
    reveal_strlit("stop");
    reveal_strlit("restart");
    reveal_strlit("reload");
    reveal_strlit("kill");
    reveal_strlit("status");
    reveal_strlit("exit");
    vstd::utf8::is_ascii_chars_encode_utf8(action.word());
}

/// What a client sends for an action is read by the server as that action.
pub proof fn law_request_round_trip(action: Action)
    requires
        action != Action::Serve,
    ensures
        crate::client::request_bytes(action) matches Ok(bytes) && request_of(bytes) == Ok::<
            Action,
            ProtocolErrorView,
        >(action),
{
    let word = action.word();
    lemma_words_fit(action);
    vstd::utf8::encode_utf8_valid_utf8(word);
    vstd::utf8::encode_utf8_decode_utf8(word);
    crate::config::lemma_word_read_back(action);
}

/// A request that is text and no action word is answered with an error that
/// holds the word, and changes nothing: not what the supervisor tracks or
/// means, and not what the server is doing.
pub proof fn law_unknown_word_changes_nothing(server: ServerView, word: Seq<char>)
    requires
        vstd::utf8::encode_utf8(word).len() <= MAX_REQUEST,
        !Action::is_word(word),
    ensures
        ({
            let (after, turn) = server.handle(vstd::utf8::encode_utf8(word));
            &&& after == server
            &&& turn == TurnView::Respond { text: "unknown action '"@ + word + "'"@, exit: false }
            &&& occurs("unknown action '"@ + word + "'"@, word)
        }),
{
    vstd::utf8::encode_utf8_valid_utf8(word);
    vstd::utf8::encode_utf8_decode_utf8(word);
    let text = "unknown action '"@ + word + "'"@;
    let at = "unknown action '"@.len() as int;
    assert(text.subrange(at, at + word.len()) =~= word);
    assert(crate::text::occurs_at(text, at, word));
}

/// A request that cannot be read changes nothing, whatever it holds.
pub proof fn law_refused_request_changes_nothing(server: ServerView, request: Seq<u8>)
    requires
        request_of(request) is Err,
    ensures
        server.handle(request).0 == server,
        server.handle(request).1 == (TurnView::Respond {
            text: ProtocolError::text(request_of(request)->Err_0),
            exit: false,
        }),
{
}

/// The status of a supervisor that tracks no child is answered at once, in
/// exactly the word `NotStarted`; so it is for one that was made without
/// automatic start and never started.
pub proof fn law_status_without_child(server: ServerView)
    requires
        server.process.pid is None,
    ensures
        ({
            let request = vstd::utf8::encode_utf8(Action::Status.word());
            let (after, turn) = server.handle(request);
            &&& turn == TurnView::Respond { text: "NotStarted"@, exit: false }
            &&& after.process.pid is None
            &&& after.process.desired == server.process.desired
            &&& after.session == Session::Idle
        }),
        State::initial(false).0.pid is None,
{
    law_request_round_trip(Action::Status);
}

/// The server never asks its driver to carry out a step that is the end of
/// an operation: what it hands out to be performed can be performed.
pub proof fn law_performs_are_steps(session: Session, process: State, step: StepView)
    ensures
        ServerView::follow(session, process, step).1 matches TurnView::Perform(asked)
            ==> !(asked is Finished),
{
}

/// A restart is a stop and, once the child is gone, a start: when the stop
/// of a restart has ended well, the launch of the child is what comes next.
pub proof fn law_restart_starts_after_stop(process: State)
    requires
        process.pid is None,
    ensures
        ({
            let ended = StepView::Finished(OutcomeView::Done);
            let (after, turn) = ServerView::follow(
                Session::Request(Action::Restart),
                process,
                ended,
            );
            &&& turn == TurnView::Perform(StepView::Launch)
            &&& after.session == Session::Starting
            &&& after.process.desired == crate::process::Desired::Running
        }),
{
}

/// An endpoint that a live socket is bound to is never taken: the daemon
/// does not serve, and nothing tells it to remove the path.
pub proof fn law_endpoint_in_use(socket: Seq<char>, found: Endpoint)
    requires
        found matches Endpoint::Present(registry) && mentions(registry@, socket),
    ensures
        claim_of(socket, found) == Err::<Claim, ServerError>(ServerError::InUse),
{
}

} // verus!

//! Configuration of the supervisor and the actions it understands.

use crate::text::str_eq;
use std::collections::HashMap;
use vstd::prelude::*;
use vstd::string::*;

verus! {

/// When an exited child is started again.
#[derive(Clone, Copy, Debug, PartialEq, Eq, Structural)]
pub enum RestartStrategy {
    /// Never start it again.
    Never,
    /// Start it again after every exit.
    Always,
    /// Start it again only after an exit that was not a success.
    OnFailure,
}

impl RestartStrategy {
    /// The name of the strategy as configuration files spell it.
    pub open spec fn name(self) -> Seq<char> {
        match self {
            RestartStrategy::Never => "none"@,
            RestartStrategy::Always => "always"@,
            RestartStrategy::OnFailure => "on-failure"@,
        }
    }

    /// Whether a child that exited is started again, given how it exited.
    pub open spec fn restarts_after(self, success: bool) -> bool {
        match self {
            RestartStrategy::Never => false,
            RestartStrategy::Always => true,
            RestartStrategy::OnFailure => !success,
        }
    }

    /// The name of the strategy as configuration files spell it.
    pub fn as_str(&self) -> (name: &'static str)
        ensures
            name@ == self.name(),
    {
        match self {
            RestartStrategy::Never => "none",
            RestartStrategy::Always => "always",
            RestartStrategy::OnFailure => "on-failure",
        }
    }

    /// The name of the strategy as configuration files spell it.
    pub fn to_string(&self) -> (name: String)
        ensures
            name@ == self.name(),
    {
        String::from_str(self.as_str())
    }

    /// Whether a child that exited is started again, given how it exited.
    pub fn should_restart(&self, success: bool) -> (again: bool)
        ensures
            again == self.restarts_after(success),
    {
        match self {
            RestartStrategy::Never => false,
            RestartStrategy::Always => true,
            RestartStrategy::OnFailure => !success,
        }
    }
}

impl Default for RestartStrategy {
    fn default() -> (strategy: Self)
        ensures
            strategy == RestartStrategy::Always,
    {
        RestartStrategy::Always
    }
}

/// How the supervised program is launched and kept alive.
#[derive(Clone, Debug, PartialEq)]
pub struct Process {
    pub path: String,
    pub args: Vec<String>,
    pub work_dir: String,
    pub auto_start: bool,
    pub start_seconds: u64,
    pub restart_strategy: RestartStrategy,
    pub envs: HashMap<String, String>,
}

impl Default for Process {
    fn default() -> (conf: Self)
        ensures
            conf.path@.len() == 0,
            conf.args@.len() == 0,
            conf.work_dir@.len() == 0,
            !conf.auto_start,
            conf.start_seconds == 0,
            conf.restart_strategy == RestartStrategy::Always,
    {
        Process {
            path: String::new(),
            args: Vec::new(),
            work_dir: String::new(),
            auto_start: false,
            start_seconds: 0,
            restart_strategy: RestartStrategy::Always,
            envs: HashMap::new(),
        }
    }
}

/// Where the log of the supervised program goes and how it is rotated.
#[derive(Clone, Debug, PartialEq)]
pub struct Log {
    /// The path of the log file.
    pub path: String,
    /// Whether a rotated file is compressed.
    pub compress: bool,
    /// Whether compressed files are merged. Reserved.
    pub merge_compressed: bool,
    /// For how many days a rotated file is kept; zero sets no limit.
    pub max_days: u32,
    /// How many rotated files are kept; zero sets no limit.
    pub max_backups: u32,
    /// The bytes beyond which the log is rotated; zero means never.
    pub max_size: u64,
}

impl Default for Log {
    fn default() -> (conf: Self)
        ensures
            conf.path@.len() == 0,
            !conf.compress,
            !conf.merge_compressed,
            conf.max_days == 0,
            conf.max_backups == 0,
            conf.max_size == 0,
    {
        Log {
            path: String::new(),
            compress: false,
            merge_compressed: false,
            max_days: 0,
            max_backups: 0,
            max_size: 0,
        }
    }
}

/// The supervised program: its process and its log.
#[derive(Clone, Debug, PartialEq)]
pub struct Program {
    pub process: Process,
    pub log: Log,
}

impl Default for Program {
    fn default() -> (conf: Self)
        ensures
            !conf.process.auto_start,
            conf.process.restart_strategy == RestartStrategy::Always,
            conf.log.max_size == 0,
    {
        Program { process: Process::default(), log: Log::default() }
    }
}

/// The daemon itself.
#[derive(Clone, Debug, PartialEq)]
pub struct Sup {
    /// The path of the control endpoint.
    pub socket: String,
}

impl Default for Sup {
    fn default() -> (conf: Self)
        ensures
            conf.socket@.len() == 0,
    {
        Sup { socket: String::new() }
    }
}

/// All that is configured.
#[derive(Clone, Debug, PartialEq)]
pub struct Config {
    pub sup: Sup,
    pub program: Program,
}

impl Default for Config {
    fn default() -> (conf: Self)
        ensures
            conf.sup.socket@.len() == 0,
            !conf.program.process.auto_start,
            conf.program.process.restart_strategy == RestartStrategy::Always,
    {
        Config { sup: Sup::default(), program: Program::default() }
    }
}

/// What a client can ask of the daemon, and the daemon mode itself.
#[derive(Clone, Copy, Debug, PartialEq, Eq, Structural)]
pub enum Action {
    /// Run as the daemon; never sent over the control channel.
    Serve,
    Start,
    Stop,
    Restart,
    Reload,
    Kill,
    Status,
    Exit,
}

impl Action {
    /// The lowercase word that stands for the action on the wire and on the
    /// command line.
    pub open spec fn word(self) -> Seq<char> {
        match self {
            Action::Serve => "serve"@,
            Action::Start => "start"@,
            Action::Stop => "stop"@,
            Action::Restart => "restart"@,
            Action::Reload => "reload"@,
            Action::Kill => "kill"@,
            Action::Status => "status"@,
            Action::Exit => "exit"@,
        }
    }

    /// Whether some action is spelled `word`.
    pub open spec fn is_word(word: Seq<char>) -> bool {
        exists|a: Action| word == #[trigger] a.word()
    }

    /// The word of the action.
    pub fn as_str(&self) -> (word: &'static str)
        ensures
            word@ == self.word(),
    {
        match self {
            Action::Serve => "serve",
            Action::Start => "start",
            Action::Stop => "stop",
            Action::Restart => "restart",
            Action::Reload => "reload",
            Action::Kill => "kill",
            Action::Status => "status",
            Action::Exit => "exit",
        }
    }

    /// The word of the action.
    pub fn to_string(&self) -> (word: String)
        ensures
            word@ == self.word(),
    {
        String::from_str(self.as_str())
    }

    /// The action that `word` spells, if it spells one.
    pub open spec fn from_word(word: Seq<char>) -> Option<Action> {
        if Action::is_word(word) {
            Some(choose|a: Action| word == #[trigger] a.word())
        } else {
            None
        }
    }

    /// Reads an action word. Anything but one of the eight words is refused.
    pub fn parse(word: &str) -> (action: Option<Action>)
        ensures
            action == Action::from_word(word@),
    {
        let action = if str_eq(word, "serve") {
            Some(Action::Serve)
        } else if str_eq(word, "start") {
            Some(Action::Start)
        } else if str_eq(word, "stop") {
            Some(Action::Stop)
        } else if str_eq(word, "restart") {
            Some(Action::Restart)
        } else if str_eq(word, "reload") {
            Some(Action::Reload)
        } else if str_eq(word, "kill") {
            Some(Action::Kill)
        } else if str_eq(word, "status") {
            Some(Action::Status)
        } else if str_eq(word, "exit") {
            Some(Action::Exit)
        } else {
            None
        };
        proof {
            match action {
                Some(a) => {
                    lemma_word_read_back(a);
                },
                None => {
                    assert forall|a: Action| word@ != #[trigger] a.word() by {}
                },
            }
        }
        action
    }
}

/// No two actions share a word.
pub proof fn lemma_words_distinct(a: Action, b: Action)
    requires
        a.word() == b.word(),
    ensures
        a == b,
{
    reveal_strlit("serve");
    reveal_strlit("start");
    reveal_strlit("stop");
    reveal_strlit("restart");
    reveal_strlit("reload");
    reveal_strlit("kill");
    reveal_strlit("status");
    reveal_strlit("exit");
    if a != b {
        let x = a.word();
        let y = b.word();
        assert(x.len() != y.len() || x[0] != y[0] || x[2] != y[2]);
    }
}

/// The word of an action reads back as that action.
pub proof fn lemma_word_read_back(a: Action)
    ensures
        Action::from_word(a.word()) == Some(a),
{
    let w = a.word();
    assert(Action::is_word(w));
    let b = choose|b: Action| w == #[trigger] b.word();
    lemma_words_distinct(a, b);
}

/// A word that reads as an action is the word of that action.
pub proof fn law_read_word_is_word(word: Seq<char>, a: Action)
    requires
        Action::from_word(word) == Some(a),
    ensures
        word == a.word(),
{
}

/// What the command line asks for.
#[derive(Clone, Debug, PartialEq, Eq)]
pub enum Invocation {
    /// Show the usage and end with `code`.
    Help { code: i32 },
    /// The flag `-c` stands without a path behind it: say so and end with
    /// code 1.
    MissingPath,
    /// The word behind the path is no action; it is this.
    UnknownAction(String),
    /// Read the configuration at `path` and do `action`.
    Run { path: String, action: Action },
}

/// An [`Invocation`] with its text as plain text.
pub enum InvocationView {
    Help { code: i32 },
    MissingPath,
    UnknownAction(Seq<char>),
    Run { path: Seq<char>, action: Action },
}

impl View for Invocation {
    type V = InvocationView;

    open spec fn view(&self) -> InvocationView {
        match self {
            Invocation::Help { code } => InvocationView::Help { code: *code },
            Invocation::MissingPath => InvocationView::MissingPath,
            Invocation::UnknownAction(word) => InvocationView::UnknownAction(word@),
            Invocation::Run { path, action } => InvocationView::Run {
                path: path@,
                action: *action,
            },
        }
    }
}

/// The word of the action on a command line with a path: the one behind
/// the path, or `serve` where there is none.
pub open spec fn action_word(args: Seq<String>) -> Seq<char> {
    if args.len() == 4 {
        args[3]@
    } else {
        Action::Serve.word()
    }
}

/// What the command line `args` asks for, the name of the program
/// standing first: `-h` and `-v` show the usage; `-c` takes the path of the
/// configuration and, behind it, the word of an action; anything else is
/// answered with the usage, as a failure.
pub open spec fn invocation_of(args: Seq<String>) -> InvocationView {
    if args.len() < 2 || args.len() > 4 {
        InvocationView::Help { code: 1 }
    } else if args[1]@ == "-h"@ || args[1]@ == "-v"@ {
        InvocationView::Help { code: 0 }
    } else if args[1]@ != "-c"@ {
        InvocationView::Help { code: 1 }
    } else if args.len() == 2 {
        InvocationView::MissingPath
    } else {
        match Action::from_word(action_word(args)) {
            Some(action) => InvocationView::Run { path: args[2]@, action },
            None => InvocationView::UnknownAction(action_word(args)),
        }
    }
}

/// What is said where `-c` stands without a path.
pub open spec fn missing_path_text() -> Seq<char> {
    "expected config file path after flag '-c'"@
}

/// What is said where `-c` stands without a path.
pub fn missing_path_message() -> (text: String)
    ensures
        text@ == missing_path_text(),
{
    String::from_str("expected config file path after flag '-c'")
}

/// Reads the command line, the name of the program standing first.
pub fn new(args: &Vec<String>) -> (asked: Invocation)
    ensures
        asked@ == invocation_of(args@),
{
    if args.len() < 2 || args.len() > 4 {
        return Invocation::Help { code: 1 };
    }
    let flag = args[1].as_str();
    if str_eq(flag, "-h") || str_eq(flag, "-v") {
        return Invocation::Help { code: 0 };
    }
    if !str_eq(flag, "-c") {
        return Invocation::Help { code: 1 };
    }
    if args.len() == 2 {
        return Invocation::MissingPath;
    }
    let word = if args.len() == 4 {
        args[3].as_str()
    } else {
        Action::Serve.as_str()
    };
    match Action::parse(word) {
        Some(action) => Invocation::Run { path: args[2].clone(), action },
        None => Invocation::UnknownAction(String::from_str(word)),
    }
}

} // verus!

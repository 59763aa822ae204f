use sup::config::{
    missing_path_message, new, Action, Config, Invocation, Log, Process, RestartStrategy,
};

fn args(words: &[&str]) -> Vec<String> {
    words.iter().map(|w| w.to_string()).collect()
}

#[test]
fn action_words_read_back() {
    let all = [
        (Action::Serve, "serve"),
        (Action::Start, "start"),
        (Action::Stop, "stop"),
        (Action::Restart, "restart"),
        (Action::Reload, "reload"),
        (Action::Kill, "kill"),
        (Action::Status, "status"),
        (Action::Exit, "exit"),
    ];
    for (action, word) in all {
        assert_eq!(action.to_string(), word);
        assert_eq!(action.as_str(), word);
        assert_eq!(Action::parse(word), Some(action));
    }
}

#[test]
fn unknown_action_words_are_refused() {
    assert_eq!(Action::parse("frobnicate"), None);
    assert_eq!(Action::parse(""), None);
    assert_eq!(Action::parse("Start"), None);
    assert_eq!(Action::parse("start "), None);
    assert_eq!(Action::parse("start\n"), None);
    assert_eq!(Action::parse("start-wait"), None);
}

#[test]
fn restart_strategy_names() {
    assert_eq!(RestartStrategy::Never.to_string(), "none");
    assert_eq!(RestartStrategy::Always.to_string(), "always");
    assert_eq!(RestartStrategy::OnFailure.to_string(), "on-failure");
    assert_eq!(RestartStrategy::default(), RestartStrategy::Always);
}

#[test]
fn restart_strategy_decides_by_exit() {
    assert!(!RestartStrategy::Never.should_restart(true));
    assert!(!RestartStrategy::Never.should_restart(false));
    assert!(RestartStrategy::Always.should_restart(true));
    assert!(RestartStrategy::Always.should_restart(false));
    assert!(!RestartStrategy::OnFailure.should_restart(true));
    assert!(RestartStrategy::OnFailure.should_restart(false));
}

#[test]
fn defaults_are_empty() {
    let conf = Config::default();
    assert_eq!(conf.sup.socket, "");
    assert_eq!(conf.program.process, Process::default());
    assert_eq!(conf.program.log, Log::default());
    assert!(!conf.program.process.auto_start);
    assert_eq!(conf.program.process.start_seconds, 0);
    assert_eq!(conf.program.process.restart_strategy, RestartStrategy::Always);
    assert!(conf.program.process.envs.is_empty());
    assert_eq!(conf.program.log.max_size, 0);
    assert_eq!(conf.program.log.max_backups, 0);
    assert_eq!(conf.program.log.max_days, 0);
}

#[test]
fn command_line_without_flag_shows_usage_as_failure() {
    assert_eq!(new(&args(&["sup"])), Invocation::Help { code: 1 });
    assert_eq!(new(&args(&[])), Invocation::Help { code: 1 });
    assert_eq!(new(&args(&["sup", "start"])), Invocation::Help { code: 1 });
    assert_eq!(
        new(&args(&["sup", "-c", "sup.toml", "start", "more"])),
        Invocation::Help { code: 1 }
    );
}

#[test]
fn command_line_help_flags_succeed() {
    assert_eq!(new(&args(&["sup", "-h"])), Invocation::Help { code: 0 });
    assert_eq!(new(&args(&["sup", "-v"])), Invocation::Help { code: 0 });
    assert_eq!(new(&args(&["sup", "-h", "x", "y"])), Invocation::Help { code: 0 });
}

#[test]
fn command_line_needs_a_path() {
    assert_eq!(new(&args(&["sup", "-c"])), Invocation::MissingPath);
    assert_eq!(
        missing_path_message(),
        "expected config file path after flag '-c'"
    );
}

#[test]
fn command_line_serves_by_default() {
    assert_eq!(
        new(&args(&["sup", "-c", "sup.toml"])),
        Invocation::Run { path: "sup.toml".to_string(), action: Action::Serve }
    );
}

#[test]
fn command_line_takes_an_action() {
    assert_eq!(
        new(&args(&["sup", "-c", "/etc/sup.toml", "status"])),
        Invocation::Run { path: "/etc/sup.toml".to_string(), action: Action::Status }
    );
    assert_eq!(
        new(&args(&["sup", "-c", "/etc/sup.toml", "frobnicate"])),
        Invocation::UnknownAction("frobnicate".to_string())
    );
}

use peeksy::cli::Commands;
use peeksy::config::{Config, ConfigError};
use peeksy::launchd::LaunchD;
use peeksy::location::{choose_screenshot_dir, clean_path_from, get_clean_path, LocationError};
use peeksy::runner::{react, Polled, Reaction};
use peeksy::supervisor::Operation;

#[test]
fn config_new_and_settings() {
    let c = Config::new("key".to_string(), "/p/prompt.txt".to_string());
    assert_eq!(c.get_openai_prompt_file_path(), Some("/p/prompt.txt".to_string()));
    assert_eq!(
        c.daemon_settings(),
        Ok(("key".to_string(), "/p/prompt.txt".to_string()))
    );
}

#[test]
fn config_missing_values_refused() {
    let none = Config { openai_api_key: None, openai_prompt_file_path: None };
    assert_eq!(none.daemon_settings(), Err(ConfigError::MissingApiKey));
    let empty_key = Config::new(String::new(), "/p".to_string());
    assert_eq!(empty_key.daemon_settings(), Err(ConfigError::MissingApiKey));
    let empty_prompt = Config::new("key".to_string(), String::new());
    assert_eq!(empty_prompt.daemon_settings(), Err(ConfigError::MissingPromptFile));
    let no_prompt = Config { openai_api_key: Some("k".to_string()), openai_prompt_file_path: None };
    assert_eq!(no_prompt.daemon_settings(), Err(ConfigError::MissingPromptFile));
}

#[test]
fn clean_path_cases() {
    assert_eq!(get_clean_path("~/Pictures/Shots", "/Users/me"), Ok("/Users/me/Pictures/Shots".to_string()));
    assert_eq!(get_clean_path("/Users/me/Shots", "/Users/me"), Ok("/Users/me/Shots".to_string()));
    assert_eq!(get_clean_path("/Users/meg/Shots", "/Users/me"), Err(LocationError::NotUnderHome));
    assert_eq!(get_clean_path("/Volumes/x", "/Users/me"), Err(LocationError::NotUnderHome));
    assert_eq!(clean_path_from("/x", "/Users/me", true), Ok("/x".to_string()));
    assert_eq!(clean_path_from("/x", "/Users/me", false), Err(LocationError::NotUnderHome));
}

#[test]
fn screenshot_dir_choice() {
    let desktop = "/Users/me/Desktop".to_string();
    assert_eq!(choose_screenshot_dir(Some("  ~/Shots\n"), "/Users/me", desktop.clone()), "/Users/me/Shots");
    assert_eq!(choose_screenshot_dir(Some("/Users/me/Pics\n"), "/Users/me", desktop.clone()), "/Users/me/Pics");
    assert_eq!(choose_screenshot_dir(Some("/tmp/x"), "/Users/me", desktop.clone()), desktop);
    assert_eq!(choose_screenshot_dir(None, "/Users/me", desktop.clone()), desktop);
}

#[test]
fn launchd_paths_and_args() {
    let l = LaunchD::new("/Users/me");
    assert_eq!(l.plist_path, "/Users/me/Library/LaunchAgents/com.anubhavitis.peeksy.plist");
    assert_eq!(l.plist_dir(), "/Users/me/Library/LaunchAgents/");
    assert_eq!(l.load_args(), vec!["load".to_string(), l.plist_path.clone()]);
    assert_eq!(l.unload_args(), vec!["unload".to_string(), l.plist_path.clone()]);
}

#[test]
fn commands_to_operations() {
    assert_eq!(Commands::Start.operations(), vec![Operation::Start]);
    assert_eq!(Commands::Restart.operations(), vec![Operation::Stop, Operation::Start]);
    assert_eq!(Commands::Status.operations(), vec![Operation::Status]);
    assert_eq!(Commands::Stop.operations(), vec![Operation::Stop]);
    assert!(Commands::Daemon.operations().is_empty());
}

#[test]
fn runner_reactions() {
    let paths = vec!["/d/_a.png".to_string(), "/d/_b.png".to_string()];
    assert_eq!(
        react(Polled::Event { created: true, paths: paths.clone() }),
        Reaction::Process(paths.clone())
    );
    assert_eq!(react(Polled::Event { created: false, paths }), Reaction::Idle);
    assert_eq!(react(Polled::Timeout), Reaction::Idle);
    assert_eq!(react(Polled::WatchFailed("boom".to_string())), Reaction::Report("boom".to_string()));
    assert!(matches!(react(Polled::Disconnected), Reaction::Report(_)));
}

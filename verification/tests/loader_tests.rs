use tetris_keys::config::{Config, DEFAULT_CONFIG};
use tetris_keys::keys::KeyCodeDef;
use tetris_keys::loader::{LoadAction, LoadEvent, LoadIssue, LoadState};

const USER: &str = "{\"left\":{\"key\":\"Left\"},\"right\":{\"key\":\"Right\"},\"rotate\":{\"key\":\"Up\"},\"soft_drop\":{\"key\":\"Down\"},\"hard_drop\":{\"key\":\"Enter\"},\"pause\":\"Esc\"}";

fn located() -> (LoadState, LoadAction) {
    LoadState::new().advance(LoadEvent::Located(Some("/cfg/tetris".to_string())))
}

fn finished(config: Config, issue: Option<LoadIssue>) -> (LoadState, LoadAction) {
    (LoadState::Ready(config), LoadAction::Finish { config, issue })
}

#[test]
fn loading_starts_by_locating() {
    assert_eq!(LoadState::new(), LoadState::Locating);
}

#[test]
fn existing_file_is_read_and_used() {
    let (state, action) = located();
    assert_eq!(action, LoadAction::ReadFile("/cfg/tetris/tetris.json".to_string()));
    assert_eq!(
        state,
        LoadState::Reading {
            dir: "/cfg/tetris".to_string(),
            path: "/cfg/tetris/tetris.json".to_string()
        }
    );
    let step = state.advance(LoadEvent::ReadOk(USER.to_string()));
    let config = Config::parse(USER).unwrap();
    assert_eq!(config.pause, KeyCodeDef::Esc);
    assert_eq!(step, finished(config, None));
}

#[test]
fn no_directory_gives_the_default() {
    let step = LoadState::new().advance(LoadEvent::Located(None));
    assert_eq!(step, finished(Config::builtin(), Some(LoadIssue::LocationUnresolvable)));
}

#[test]
fn missing_file_is_created_from_the_default() {
    let (state, _) = located();
    let (state, action) = state.advance(LoadEvent::ReadNotFound);
    assert_eq!(action, LoadAction::CreateDirs("/cfg/tetris".to_string()));
    let (state, action) = state.advance(LoadEvent::Done);
    assert_eq!(
        action,
        LoadAction::WriteFile {
            path: "/cfg/tetris/tetris.json".to_string(),
            content: DEFAULT_CONFIG.to_string()
        }
    );
    let (state, action) = state.advance(LoadEvent::Done);
    assert_eq!(action, LoadAction::ReadFile("/cfg/tetris/tetris.json".to_string()));
    assert_eq!(state, LoadState::Rereading);
    let step = state.advance(LoadEvent::ReadOk(DEFAULT_CONFIG.to_string()));
    assert_eq!(step, finished(Config::builtin(), None));
}

#[test]
fn unreadable_file_gives_the_default() {
    let (state, _) = located();
    let step = state.advance(LoadEvent::ReadFailed);
    assert_eq!(step, finished(Config::builtin(), Some(LoadIssue::FileUnreadable)));
}

#[test]
fn failed_directory_creation_gives_the_default() {
    let (state, _) = located();
    let (state, _) = state.advance(LoadEvent::ReadNotFound);
    let step = state.advance(LoadEvent::Failed);
    assert_eq!(step, finished(Config::builtin(), Some(LoadIssue::BootstrapWriteFailed)));
}

#[test]
fn failed_write_gives_the_default() {
    let (state, _) = located();
    let (state, _) = state.advance(LoadEvent::ReadNotFound);
    let (state, _) = state.advance(LoadEvent::Done);
    let step = state.advance(LoadEvent::Failed);
    assert_eq!(step, finished(Config::builtin(), Some(LoadIssue::BootstrapWriteFailed)));
}

#[test]
fn failed_second_read_gives_the_default() {
    let (state, _) = located();
    let (state, _) = state.advance(LoadEvent::ReadNotFound);
    let (state, _) = state.advance(LoadEvent::Done);
    let (state, _) = state.advance(LoadEvent::Done);
    let step = state.advance(LoadEvent::ReadNotFound);
    assert_eq!(step, finished(Config::builtin(), Some(LoadIssue::FileUnreadable)));
}

#[test]
fn malformed_file_gives_the_default() {
    let (state, _) = located();
    let step = state.advance(LoadEvent::ReadOk("{\"left\": 3}".to_string()));
    assert_eq!(step, finished(Config::builtin(), Some(LoadIssue::ParseFailed)));
    let (state, _) = located();
    let step = state.advance(LoadEvent::ReadOk(String::new()));
    assert_eq!(step, finished(Config::builtin(), Some(LoadIssue::ParseFailed)));
}

#[test]
fn unexpected_event_gives_the_default() {
    let step = LoadState::new().advance(LoadEvent::Done);
    assert_eq!(step, finished(Config::builtin(), Some(LoadIssue::LocationUnresolvable)));
    let (state, _) = located();
    let step = state.advance(LoadEvent::Done);
    assert_eq!(step, finished(Config::builtin(), Some(LoadIssue::FileUnreadable)));
}

#[test]
fn ready_stays_ready() {
    let config = Config::parse(USER).unwrap();
    let step = LoadState::Ready(config).advance(LoadEvent::ReadFailed);
    assert_eq!(step, finished(config, None));
    let step = LoadState::Ready(config).advance(LoadEvent::ReadOk(DEFAULT_CONFIG.to_string()));
    assert_eq!(step, finished(config, None));
}

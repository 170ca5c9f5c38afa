//! The start-up protocol that ends with a configuration, whatever happens
//! on disk. The caller does the outside work (finding the directory, reading
//! and writing the file) and reports each outcome as an event; `advance`
//! decides what is done next. Every failure ends with the default
//! configuration and names its cause, none is handed on as an error.

use crate::config::{config_of_text, default_config, Config, DEFAULT_CONFIG};
use crate::location::{config_file_in, config_location};
use vstd::prelude::*;
use vstd::string::*;

verus! {

/// Why the default configuration took the place of the user's.
#[derive(Clone, Copy, Debug, PartialEq, Eq, Structural)]
pub enum LoadIssue {
    /// The platform gave no configuration directory.
    LocationUnresolvable,
    /// The file could not be read.
    FileUnreadable,
    /// The file was missing and could not be created.
    BootstrapWriteFailed,
    /// The file's text denotes no configuration.
    ParseFailed,
}

/// Where the protocol stands.
#[derive(Debug, PartialEq, Eq)]
pub enum LoadState {
    /// Waiting for the configuration directory.
    Locating,
    /// Waiting for the content of the file.
    Reading { dir: String, path: String },
    /// The file was missing; waiting for its directory to be created.
    CreatingDirs { dir: String, path: String },
    /// Waiting for the built-in text to be written to the file.
    Writing { path: String },
    /// Waiting for the content of the file that was just written.
    Rereading,
    /// Done: the configuration to run with.
    Ready(Config),
}

/// What the caller reports.
#[derive(Debug, PartialEq, Eq)]
pub enum LoadEvent {
    /// The configuration directory, or that there is none.
    Located(Option<String>),
    /// The file was read; its content.
    ReadOk(String),
    /// There is no file at the path.
    ReadNotFound,
    /// The file could not be read for another reason.
    ReadFailed,
    /// The directory was created, or the file written.
    Done,
    /// The directory could not be created, or the file not written.
    Failed,
}

/// What the caller is to do next.
#[derive(Debug, PartialEq, Eq)]
pub enum LoadAction {
    /// Read the file at this path and report `ReadOk`, `ReadNotFound` or
    /// `ReadFailed`.
    ReadFile(String),
    /// Create this directory and those above it, and report `Done` or
    /// `Failed`.
    CreateDirs(String),
    /// Write the content to the file and report `Done` or `Failed`.
    WriteFile { path: String, content: String },
    /// Run with this configuration; `issue` is worth a warning.
    Finish { config: Config, issue: Option<LoadIssue> },
}

/// The protocol ends in `next` and `action` with this configuration and
/// issue.
pub open spec fn finishes(
    config: Config,
    issue: Option<LoadIssue>,
    next: LoadState,
    action: LoadAction,
) -> bool {
    next == LoadState::Ready(config) && action == (LoadAction::Finish { config, issue })
}

/// The protocol ends with the default configuration, for the given reason.
pub open spec fn falls_back(issue: LoadIssue, next: LoadState, action: LoadAction) -> bool {
    finishes(default_config(), Some(issue), next, action)
}

/// The protocol ends with what the text that was read denotes, or with the
/// default where it denotes nothing.
pub open spec fn finishes_with_text(text: Seq<char>, next: LoadState, action: LoadAction) -> bool {
    match config_of_text(text) {
        Some(config) => finishes(config, None, next, action),
        None => falls_back(LoadIssue::ParseFailed, next, action),
    }
}

/// The step that `advance` takes from `state` on `event`.
pub open spec fn transition(
    state: LoadState,
    event: LoadEvent,
    next: LoadState,
    action: LoadAction,
) -> bool {
    match state {
        LoadState::Locating => match event {
            LoadEvent::Located(Some(found)) => {
                &&& next matches LoadState::Reading { dir, path }
                &&& dir@ == found@
                &&& path@ == config_location(found@)
                &&& action matches LoadAction::ReadFile(target)
                &&& target@ == config_location(found@)
            },
            _ => falls_back(LoadIssue::LocationUnresolvable, next, action),
        },
        LoadState::Reading { dir, path } => match event {
            LoadEvent::ReadOk(text) => finishes_with_text(text@, next, action),
            LoadEvent::ReadNotFound => {
                &&& next matches LoadState::CreatingDirs { dir: kept_dir, path: kept_path }
                &&& kept_dir@ == dir@
                &&& kept_path@ == path@
                &&& action matches LoadAction::CreateDirs(target)
                &&& target@ == dir@
            },
            _ => falls_back(LoadIssue::FileUnreadable, next, action),
        },
        LoadState::CreatingDirs { dir, path } => match event {
            LoadEvent::Done => {
                &&& next matches LoadState::Writing { path: kept_path }
                &&& kept_path@ == path@
                &&& action matches LoadAction::WriteFile { path: target, content }
                &&& target@ == path@
                &&& content@ == DEFAULT_CONFIG@
            },
            _ => falls_back(LoadIssue::BootstrapWriteFailed, next, action),
        },
        LoadState::Writing { path } => match event {
            LoadEvent::Done => {
                &&& next is Rereading
                &&& action matches LoadAction::ReadFile(target)
                &&& target@ == path@
            },
            _ => falls_back(LoadIssue::BootstrapWriteFailed, next, action),
        },
        LoadState::Rereading => match event {
            LoadEvent::ReadOk(text) => finishes_with_text(text@, next, action),
            _ => falls_back(LoadIssue::FileUnreadable, next, action),
        },
        LoadState::Ready(config) => finishes(config, None, next, action),
    }
}

/// How many more events the protocol can take before it is done.
pub open spec fn steps_left(state: LoadState) -> nat {
    match state {
        LoadState::Locating => 5,
        LoadState::Reading { .. } => 4,
        LoadState::CreatingDirs { .. } => 3,
        LoadState::Writing { .. } => 2,
        LoadState::Rereading => 1,
        LoadState::Ready(_) => 0,
    }
}

/// The end of the protocol with the default configuration.
fn fall_back(issue: LoadIssue) -> (r: (LoadState, LoadAction))
    ensures
        falls_back(issue, r.0, r.1),
{
    let config = Config::default_value();
    (LoadState::Ready(config), LoadAction::Finish { config, issue: Some(issue) })
}

/// The end of the protocol with the text that was read.
fn finish_with_text(text: &str) -> (r: (LoadState, LoadAction))
    ensures
        finishes_with_text(text@, r.0, r.1),
{
    match Config::parse(text) {
        Some(config) => (LoadState::Ready(config), LoadAction::Finish { config, issue: None }),
        None => fall_back(LoadIssue::ParseFailed),
    }
}

impl LoadState {
    /// The state that loading starts in: the caller looks for the
    /// configuration directory and reports `Located`.
    pub fn new() -> (r: LoadState)
        ensures
            r is Locating,
    {
        LoadState::Locating
    }

    /// Takes one event and says what to do next. The protocol never fails:
    /// an event that reports a failure, or one that the state does not wait
    /// for, ends it with the default configuration.
    pub fn advance(self, event: LoadEvent) -> (r: (LoadState, LoadAction))
        ensures
            transition(self, event, r.0, r.1),
            self is Ready || steps_left(r.0) < steps_left(self),
            r.0 is Ready <==> r.1 is Finish,
    {
        match self {
            LoadState::Locating => match event {
                LoadEvent::Located(Some(found)) => {
                    let path = config_file_in(found.as_str());
                    let target = path.clone();
                    (LoadState::Reading { dir: found, path }, LoadAction::ReadFile(target))
                },
                _ => fall_back(LoadIssue::LocationUnresolvable),
            },
            LoadState::Reading { dir, path } => match event {
                LoadEvent::ReadOk(text) => finish_with_text(text.as_str()),
                LoadEvent::ReadNotFound => {
                    let target = dir.clone();
                    (LoadState::CreatingDirs { dir, path }, LoadAction::CreateDirs(target))
                },
                _ => fall_back(LoadIssue::FileUnreadable),
            },
            LoadState::CreatingDirs { dir, path } => match event {
                LoadEvent::Done => {
                    let target = path.clone();
                    let content = String::from_str(DEFAULT_CONFIG);
                    (LoadState::Writing { path }, LoadAction::WriteFile { path: target, content })
                },
                _ => fall_back(LoadIssue::BootstrapWriteFailed),
            },
            LoadState::Writing { path } => match event {
                LoadEvent::Done => (LoadState::Rereading, LoadAction::ReadFile(path)),
                _ => fall_back(LoadIssue::BootstrapWriteFailed),
            },
            LoadState::Rereading => match event {
                LoadEvent::ReadOk(text) => finish_with_text(text.as_str()),
                _ => fall_back(LoadIssue::FileUnreadable),
            },
            LoadState::Ready(config) => (
                LoadState::Ready(config),
                LoadAction::Finish { config, issue: None },
            ),
        }
    }
}

/// Every step but one from `Ready` brings the protocol nearer to its end,
/// and it hands out a configuration exactly when it has reached `Ready`:
/// after five events at most it is done.
pub proof fn lemma_progress(
    state: LoadState,
    event: LoadEvent,
    next: LoadState,
    action: LoadAction,
)
    requires
        transition(state, event, next, action),
    ensures
        state is Ready || steps_left(next) < steps_left(state),
        next is Ready <==> action is Finish,
        steps_left(next) == 0 <==> next is Ready,
{
}

/// Once ready, the protocol stays ready with the same configuration.
pub proof fn lemma_ready_is_final(
    config: Config,
    event: LoadEvent,
    next: LoadState,
    action: LoadAction,
)
    requires
        transition(LoadState::Ready(config), event, next, action),
    ensures
        next == LoadState::Ready(config),
        action == (LoadAction::Finish { config, issue: None }),
{
}

/// Whatever is reported, a step that ends the protocol without an issue
/// hands out what the file's text denotes, and a step that ends it with an
/// issue hands out the default configuration.
pub proof fn lemma_outcome(state: LoadState, event: LoadEvent, next: LoadState, action: LoadAction)
    requires
        !(state is Ready),
        transition(state, event, next, action),
    ensures
        action matches LoadAction::Finish { config, issue: Some(_) } ==> config
            == default_config(),
        action matches LoadAction::Finish { config, issue: None } ==> (event matches LoadEvent::ReadOk(
            text,
        ) && config_of_text(text@) == Some(config)),
{
}

/// A file that is missing is created with the built-in text, letter for
/// letter, at the path that was read.
pub proof fn lemma_bootstrap_writes_default(
    dir: String,
    path: String,
    after_read: LoadState,
    first: LoadAction,
    after_dirs: LoadState,
    second: LoadAction,
)
    requires
        transition(LoadState::Reading { dir, path }, LoadEvent::ReadNotFound, after_read, first),
        transition(after_read, LoadEvent::Done, after_dirs, second),
    ensures
        first matches LoadAction::CreateDirs(target) && target@ == dir@,
        second matches LoadAction::WriteFile { path: target, content } && target@ == path@
            && content@ == DEFAULT_CONFIG@,
{
}

} // verus!

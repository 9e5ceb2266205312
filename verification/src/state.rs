//! The manager's state as plain mathematics, and every change it can undergo.
//!
//! `ThetaApp` holds this state in executable form; each of its methods is
//! stated as one of the functions below.

use crate::detect::config_path_in;
use crate::model::{Settings, Tab};
use crate::protocol::{
    ChildHandle, FailureView, LaunchCommandView, OrderView, Pending, ReportView, StepView,
};
use vstd::prelude::*;

verus! {

/// Milliseconds between the end of the old child and the start of the new
/// one in a restart, so that the old one's port and lock are free again.
pub const RESTART_DELAY_MILLIS: u64 = 250;

/// The serial after `serial`; after the largest comes 0.
pub open spec fn next_serial(serial: u64) -> u64 {
    if serial == u64::MAX {
        0
    } else {
        (serial + 1) as u64
    }
}

/// Where a configuration text that the host has read is to go.
#[derive(Clone, Copy, Debug, PartialEq, Eq, Structural)]
pub enum ConfigSource {
    /// The file named in the settings, read when the session begins.
    Startup,
    /// A file that the user picked.
    Browse,
    /// The file that the worker announced.
    Terminal,
    /// The file already chosen, read again.
    Refresh,
}

/// A text to be written to a file.
pub struct ConfigWriteView {
    pub path: Seq<char>,
    pub contents: Seq<char>,
}

/// The state of the manager.
pub struct AppState {
    pub username_input: Seq<char>,
    pub password_input: Seq<char>,
    pub credentials_saved: bool,
    pub jar_path: Seq<char>,
    pub auto_start: bool,
    /// The child that runs, if one does.
    pub process: Option<ChildHandle>,
    /// What the host still owes the supervisor.
    pub pending: Pending,
    /// The serial of the child started last; 0 before the first.
    pub spawned: u64,
    /// Everything logged so far.
    pub log_text: Seq<char>,
    pub selected_tab: Tab,
    pub default_tab: Tab,
    pub thetadata_config_path: Seq<char>,
    pub thetadata_config_text: Seq<char>,
    pub last_detected_config_path: Option<Seq<char>>,
}

impl AppState {
    /// While a report is outstanding no child is held, and a child that is
    /// held is the one started last.
    pub open spec fn wf(self) -> bool {
        &&& self.pending != Pending::Ready ==> self.process is None
        &&& self.process matches Some(child) ==> child.serial == self.spawned
    }

    /// The state with `text` added to the log.
    pub open spec fn logged(self, text: Seq<char>) -> AppState {
        AppState { log_text: self.log_text + text, ..self }
    }

    /// The state waiting for `pending`.
    pub open spec fn awaiting(self, pending: Pending) -> AppState {
        AppState { pending, ..self }
    }

    /// A start makes sense: no child runs and a worker archive is named.
    pub open spec fn can_start(self) -> bool {
        self.process is None && self.jar_path.len() > 0
    }

    /// The first step of a start: ask for the secrets, or do nothing where
    /// a start makes no sense.
    pub open spec fn begin_start(self) -> (AppState, StepView) {
        if self.can_start() {
            (self.awaiting(Pending::Credentials), StepView::Perform(OrderView::FetchCredentials))
        } else {
            (self.awaiting(Pending::Ready), StepView::Finished)
        }
    }

    /// The command to start the worker. It is ignored while a report is
    /// outstanding.
    pub open spec fn start_terminal(self) -> (AppState, StepView) {
        if self.pending == Pending::Ready {
            self.begin_start()
        } else {
            (self, StepView::Finished)
        }
    }

    /// The command to end the worker: the child is let go of at once and
    /// the host is told to end it.
    pub open spec fn force_quit_process(self) -> (AppState, StepView) {
        match self.process {
            Some(child) => (
                AppState { process: None, pending: Pending::Quit, ..self },
                StepView::Perform(OrderView::KillAndWait(child)),
            ),
            None => (self, StepView::Finished),
        }
    }

    /// The command to restart the worker: end the child if there is one,
    /// pause, start. It is ignored while a report is outstanding.
    pub open spec fn reset_terminal(self) -> (AppState, StepView) {
        if self.pending != Pending::Ready {
            (self, StepView::Finished)
        } else {
            match self.process {
                Some(child) => (
                    AppState { process: None, pending: Pending::RestartQuit, ..self },
                    StepView::Perform(OrderView::KillAndWait(child)),
                ),
                None => (
                    self.awaiting(Pending::RestartDelay),
                    StepView::Perform(OrderView::Sleep { millis: RESTART_DELAY_MILLIS }),
                ),
            }
        }
    }

    /// The secrets have been looked up for a start.
    pub open spec fn credentials_arrived(
        self,
        username: Option<Seq<char>>,
        password: Option<Seq<char>>,
    ) -> (AppState, StepView) {
        if !self.can_start() {
            (self.awaiting(Pending::Ready), StepView::Finished)
        } else {
            match (username, password) {
                (Some(username), Some(password)) => (
                    self.awaiting(Pending::Spawn),
                    StepView::Perform(
                        OrderView::Spawn(
                            LaunchCommandView { jar_path: self.jar_path, username, password },
                        ),
                    ),
                ),
                _ => (
                    self.logged("No valid credentials found. Cannot start.\n"@).awaiting(
                        Pending::Ready,
                    ),
                    StepView::Failed(FailureView::CredentialsUnavailable),
                ),
            }
        }
    }

    /// The worker runs: it gets the next serial and is held from now on.
    pub open spec fn child_started(self) -> (AppState, StepView) {
        let serial = next_serial(self.spawned);
        (
            AppState {
                process: Some(ChildHandle { serial }),
                spawned: serial,
                pending: Pending::Ready,
                ..self.logged("Terminal started.\n"@)
            },
            StepView::Finished,
        )
    }

    /// The worker could not be started.
    pub open spec fn spawn_failed(self, reason: Seq<char>) -> (AppState, StepView) {
        (
            self.logged("Failed to start terminal: "@ + reason + "\n"@).awaiting(Pending::Ready),
            StepView::Failed(FailureView::SpawnFailed(reason)),
        )
    }

    /// A report from the host. One that was not asked for changes nothing.
    pub open spec fn resume(self, report: ReportView) -> (AppState, StepView) {
        match (self.pending, report) {
            (
                Pending::Credentials,
                ReportView::Credentials { username, password },
            ) => self.credentials_arrived(username, password),
            (Pending::Spawn, ReportView::Spawned) => self.child_started(),
            (Pending::Spawn, ReportView::SpawnFailed { reason }) => self.spawn_failed(reason),
            (Pending::Quit, ReportView::Completed) => (
                self.logged("Terminal forcibly quit.\n"@).awaiting(Pending::Ready),
                StepView::Finished,
            ),
            (Pending::RestartQuit, ReportView::Completed) => (
                self.logged("Terminal forcibly quit.\n"@).awaiting(Pending::RestartDelay),
                StepView::Perform(OrderView::Sleep { millis: RESTART_DELAY_MILLIS }),
            ),
            (Pending::RestartDelay, ReportView::Completed) => self.begin_start(),
            _ => (self, StepView::Finished),
        }
    }

    /// The state once `line` has been searched for an announced
    /// configuration path: the last path found is kept, and logged.
    pub open spec fn detected_in(self, line: Seq<char>) -> AppState {
        match config_path_in(line) {
            Some(path) => AppState { last_detected_config_path: Some(path), ..self }.logged(
                "Detected config file path from terminal: "@ + path + "\n"@,
            ),
            None => self,
        }
    }

    /// The state once one line of the worker's output has come in.
    pub open spec fn received(self, line: Seq<char>) -> AppState {
        self.logged(line).logged("\n"@).detected_in(line)
    }

    /// The state once `lines` have come in, in this order.
    pub open spec fn drained(self, lines: Seq<Seq<char>>) -> AppState
        decreases lines.len(),
    {
        if lines.len() == 0 {
            self
        } else {
            self.drained(lines.drop_last()).received(lines.last())
        }
    }

    /// One tick of the host: `lines` is the worker's output since the last
    /// tick, `exited` says whether the host found the child gone.
    pub open spec fn poll(self, lines: Seq<Seq<char>>, exited: bool) -> AppState {
        let fed = self.drained(lines);
        if exited && fed.process is Some {
            AppState { process: None, ..fed.logged("Terminal process exited.\n"@) }
        } else {
            fed
        }
    }

    /// The state once the secret store was asked to keep the credentials
    /// typed in, and did (`stored`) or did not.
    pub open spec fn credentials_kept(self, stored: bool) -> AppState {
        if stored {
            AppState { credentials_saved: true, ..self }.logged("Credentials saved.\n"@)
        } else {
            self.logged("Failed to save credentials.\n"@)
        }
    }

    /// The state once the stored credentials were given up.
    pub open spec fn credentials_removed(self) -> AppState {
        AppState {
            username_input: Seq::empty(),
            password_input: Seq::empty(),
            credentials_saved: false,
            ..self
        }.logged("Credentials removed.\n"@)
    }

    /// A text, or nothing where it is empty.
    pub open spec fn unless_empty(text: Seq<char>) -> Option<Seq<char>> {
        if text.len() == 0 {
            None
        } else {
            Some(text)
        }
    }

    /// A text, or the empty text where there is none.
    pub open spec fn or_empty(text: Option<Seq<char>>) -> Seq<char> {
        match text {
            Some(text) => text,
            None => Seq::empty(),
        }
    }

    /// The settings to keep for the next session.
    pub open spec fn settings(self) -> Settings {
        Settings {
            jar_path: Self::unless_empty(self.jar_path),
            auto_start: self.auto_start,
            default_tab: self.selected_tab,
            thetadata_config_path: Self::unless_empty(self.thetadata_config_path),
        }
    }

    /// The state in which a session begins, given the settings kept and
    /// what the secret store holds. The first tab shown is always `Setup`.
    pub open spec fn initial(
        settings: Settings,
        username: Option<Seq<char>>,
        password: Option<Seq<char>>,
    ) -> AppState {
        let stored = username is Some && password is Some;
        AppState {
            username_input: if stored {
                Self::or_empty(username)
            } else {
                Seq::empty()
            },
            password_input: Seq::empty(),
            credentials_saved: stored,
            jar_path: Self::or_empty(settings.jar_path),
            auto_start: settings.auto_start,
            process: None,
            pending: Pending::Ready,
            spawned: 0,
            log_text: Seq::empty(),
            selected_tab: Tab::Setup,
            default_tab: Tab::Setup,
            thetadata_config_path: Self::or_empty(settings.thetadata_config_path),
            thetadata_config_text: Seq::empty(),
            last_detected_config_path: None,
        }
    }

    /// The state once the settings could not be written.
    pub open spec fn settings_not_kept(self, reason: Seq<char>) -> AppState {
        self.logged("Failed saving app config: "@ + reason + "\n"@)
    }

    /// The request to save the configuration text: where a file is chosen,
    /// what is to be written to it; where none is, a line in the log.
    pub open spec fn save_current_config_file(self) -> (AppState, Option<ConfigWriteView>) {
        if self.thetadata_config_path.len() == 0 {
            (self.logged("No config file path set.\n"@), None)
        } else {
            (
                self,
                Some(
                    ConfigWriteView {
                        path: self.thetadata_config_path,
                        contents: self.thetadata_config_text,
                    },
                ),
            )
        }
    }

    /// The state once the configuration text was written, or could not be
    /// for `failure`.
    pub open spec fn config_file_written(self, failure: Option<Seq<char>>) -> AppState {
        match failure {
            None => self.logged("Config file saved.\n"@),
            Some(reason) => self.logged("Failed to write config file: "@ + reason + "\n"@),
        }
    }

    /// The configuration file to read when the session begins, if one is
    /// chosen.
    pub open spec fn config_file_at_startup(self) -> Option<Seq<char>> {
        Self::unless_empty(self.thetadata_config_path)
    }

    /// The state once the user has picked `path` as the configuration file.
    pub open spec fn config_file_picked(self, path: Seq<char>) -> AppState {
        AppState { thetadata_config_path: path, ..self }
    }

    /// The request to take over the configuration file that the worker
    /// announced: it becomes the file chosen and is to be read; where none
    /// was announced, a line in the log.
    pub open spec fn config_file_from_terminal(self) -> (AppState, Option<Seq<char>>) {
        match self.last_detected_config_path {
            Some(path) => (AppState { thetadata_config_path: path, ..self }, Some(path)),
            None => (
                self.logged("No config path detected yet. Launch the terminal first.\n"@),
                None,
            ),
        }
    }

    /// The request to read the chosen configuration file again; where none
    /// is chosen, a line in the log.
    pub open spec fn config_file_to_refresh(self) -> (AppState, Option<Seq<char>>) {
        if self.thetadata_config_path.len() == 0 {
            (self.logged("No config path set to refresh.\n"@), None)
        } else {
            (self, Some(self.thetadata_config_path))
        }
    }

    /// The state once the configuration file was read for `source`, or
    /// could not be: the text is taken over and the outcome logged. At
    /// startup nothing is logged, and a file that cannot be read counts as
    /// empty.
    pub open spec fn config_file_loaded(
        self,
        source: ConfigSource,
        outcome: Result<Seq<char>, Seq<char>>,
    ) -> AppState {
        match outcome {
            Ok(text) => {
                let loaded = AppState { thetadata_config_text: text, ..self };
                match source {
                    ConfigSource::Startup => loaded,
                    ConfigSource::Browse => loaded.logged("Config file loaded from browse.\n"@),
                    ConfigSource::Terminal => loaded.logged(
                        "Config file loaded from terminal detection.\n"@,
                    ),
                    ConfigSource::Refresh => loaded.logged("Config file refreshed from disk.\n"@),
                }
            },
            Err(reason) => match source {
                ConfigSource::Startup => AppState { thetadata_config_text: Seq::empty(), ..self },
                ConfigSource::Browse => self.logged("Failed to load config from browse.\n"@),
                ConfigSource::Terminal => self.logged(
                    "Failed to load config file: "@ + reason + "\n"@,
                ),
                ConfigSource::Refresh => self.logged(
                    "Failed to refresh config: "@ + reason + "\n"@,
                ),
            },
        }
    }

}

} // verus!

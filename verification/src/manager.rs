//! The manager itself: the state of one session and the commands on it.

use crate::detect::detect_config_path;
use crate::model::{text_of, texts_of, AppConfig, Tab};
use crate::protocol::{
    ChildHandle, Failure, FailureView, LaunchCommand, Order, Pending, Report, Step,
};
use crate::state::{AppState, RESTART_DELAY_MILLIS};
use crate::text::line_of;
use vstd::prelude::*;
use vstd::string::*;

verus! {

/// The state of one session: what the user has typed and chosen, the log,
/// and the supervisor's hold on the worker process.
///
/// The window edits what the user types and chooses in place. `process`,
/// `pending` and `spawned` are the supervisor's own, and `log_text` is only
/// ever added to: a host reads them and leaves them as they are.
pub struct ThetaApp {
    pub username_input: String,
    pub password_input: String,
    pub credentials_saved: bool,
    pub jar_path: String,
    pub auto_start: bool,
    /// The child that runs, if one does.
    pub process: Option<ChildHandle>,
    /// What the host still owes the supervisor.
    pub pending: Pending,
    /// The serial of the child started last; 0 before the first.
    pub spawned: u64,
    /// Everything logged so far. It only grows: nothing is ever dropped
    /// from it, however long the session lasts.
    pub log_text: String,
    pub selected_tab: Tab,
    pub default_tab: Tab,
    pub thetadata_config_path: String,
    pub thetadata_config_text: String,
    pub last_detected_config_path: Option<String>,
}

impl View for ThetaApp {
    type V = AppState;

    open spec fn view(&self) -> AppState {
        AppState {
            username_input: self.username_input@,
            password_input: self.password_input@,
            credentials_saved: self.credentials_saved,
            jar_path: self.jar_path@,
            auto_start: self.auto_start,
            process: self.process,
            pending: self.pending,
            spawned: self.spawned,
            log_text: self.log_text@,
            selected_tab: self.selected_tab,
            default_tab: self.default_tab,
            thetadata_config_path: self.thetadata_config_path@,
            thetadata_config_text: self.thetadata_config_text@,
            last_detected_config_path: text_of(self.last_detected_config_path),
        }
    }
}

/// The text, or nothing where it is empty.
fn unless_empty(text: &String) -> (out: Option<String>)
    ensures
        text_of(out) == AppState::unless_empty(text@),
{
    if text.as_str().is_empty() {
        None
    } else {
        Some(text.clone())
    }
}

/// The text, or the empty text where there is none.
fn or_empty(text: Option<String>) -> (out: String)
    ensures
        out@ == AppState::or_empty(text_of(text)),
{
    match text {
        Some(text) => text,
        None => String::new(),
    }
}

impl ThetaApp {
    /// The session's first state, from the settings kept and from what the
    /// secret store holds under the user's name and password.
    pub fn new(
        cfg: AppConfig,
        stored_username: Option<String>,
        stored_password: Option<String>,
    ) -> (app: Self)
        ensures
            app@ == AppState::initial(cfg@, text_of(stored_username), text_of(stored_password)),
            app@.wf(),
    {
        let (username_input, credentials_saved) = match (stored_username, stored_password) {
            (Some(username), Some(_)) => (username, true),
            _ => (String::new(), false),
        };
        ThetaApp {
            username_input,
            password_input: String::new(),
            credentials_saved,
            jar_path: or_empty(cfg.jar_path),
            auto_start: cfg.auto_start,
            process: None,
            pending: Pending::Ready,
            spawned: 0,
            log_text: String::new(),
            selected_tab: Tab::Setup,
            default_tab: Tab::Setup,
            thetadata_config_path: or_empty(cfg.thetadata_config_path),
            thetadata_config_text: String::new(),
            last_detected_config_path: None,
        }
    }

    /// Adds `text` to the log.
    pub fn append_log(&mut self, text: &str)
        ensures
            final(self)@ == old(self)@.logged(text@),
    {
        self.log_text.append(text);
    }

    /// Whether a child is held.
    pub fn is_running(&self) -> (running: bool)
        ensures
            running == (self@.process is Some),
    {
        self.process.is_some()
    }

    fn begin_start(&mut self) -> (step: Step)
        ensures
            final(self)@ == old(self)@.begin_start().0,
            step@ == old(self)@.begin_start().1,
    {
        if self.process.is_none() && !self.jar_path.as_str().is_empty() {
            self.pending = Pending::Credentials;
            Step::Perform(Order::FetchCredentials)
        } else {
            self.pending = Pending::Ready;
            Step::Finished
        }
    }

    /// Starts the worker unless one runs already or no archive is named.
    /// Where it goes ahead, the host is asked for the stored credentials;
    /// `resume` takes it from there.
    pub fn start_terminal(&mut self) -> (step: Step)
        ensures
            final(self)@ == old(self)@.start_terminal().0,
            step@ == old(self)@.start_terminal().1,
            old(self)@.wf() ==> final(self)@.wf(),
    {
        if self.pending == Pending::Ready {
            self.begin_start()
        } else {
            Step::Finished
        }
    }

    /// Ends the worker for good: the child is let go of and the host is told
    /// to end it and to wait for its end. Without a child nothing happens.
    pub fn force_quit_process(&mut self) -> (step: Step)
        ensures
            final(self)@ == old(self)@.force_quit_process().0,
            step@ == old(self)@.force_quit_process().1,
            old(self)@.wf() ==> final(self)@.wf(),
    {
        match self.process {
            Some(child) => {
                self.process = None;
                self.pending = Pending::Quit;
                Step::Perform(Order::KillAndWait(child))
            },
            None => Step::Finished,
        }
    }

    /// Stops the worker; the same as `force_quit_process`.
    pub fn stop_terminal(&mut self) -> (step: Step)
        ensures
            final(self)@ == old(self)@.force_quit_process().0,
            step@ == old(self)@.force_quit_process().1,
            old(self)@.wf() ==> final(self)@.wf(),
    {
        self.force_quit_process()
    }

    /// The session ends: no child may outlive it, so this is
    /// `force_quit_process` once more.
    pub fn on_exit(&mut self) -> (step: Step)
        ensures
            final(self)@ == old(self)@.force_quit_process().0,
            step@ == old(self)@.force_quit_process().1,
            old(self)@.wf() ==> final(self)@.wf(),
    {
        self.force_quit_process()
    }

    /// Restarts the worker: the child, if there is one, is ended, then the
    /// host pauses, then a start is made as by `start_terminal`.
    pub fn reset_terminal(&mut self) -> (step: Step)
        ensures
            final(self)@ == old(self)@.reset_terminal().0,
            step@ == old(self)@.reset_terminal().1,
            old(self)@.wf() ==> final(self)@.wf(),
    {
        if self.pending != Pending::Ready {
            Step::Finished
        } else {
            match self.process {
                Some(child) => {
                    self.process = None;
                    self.pending = Pending::RestartQuit;
                    Step::Perform(Order::KillAndWait(child))
                },
                None => {
                    self.pending = Pending::RestartDelay;
                    Step::Perform(Order::Sleep { millis: RESTART_DELAY_MILLIS })
                },
            }
        }
    }

    fn credentials_arrived(&mut self, username: Option<String>, password: Option<String>) -> (step:
        Step)
        ensures
            final(self)@ == old(self)@.credentials_arrived(text_of(username), text_of(password)).0,
            step@ == old(self)@.credentials_arrived(text_of(username), text_of(password)).1,
    {
        if !(self.process.is_none() && !self.jar_path.as_str().is_empty()) {
            self.pending = Pending::Ready;
            Step::Finished
        } else {
            match (username, password) {
                (Some(username), Some(password)) => {
                    self.pending = Pending::Spawn;
                    Step::Perform(
                        Order::Spawn(
                            LaunchCommand { jar_path: self.jar_path.clone(), username, password },
                        ),
                    )
                },
                _ => {
                    self.log_text.append("No valid credentials found. Cannot start.\n");
                    self.pending = Pending::Ready;
                    Step::Failed(Failure::CredentialsUnavailable)
                },
            }
        }
    }

    fn child_started(&mut self) -> (step: Step)
        ensures
            final(self)@ == old(self)@.child_started().0,
            step@ == old(self)@.child_started().1,
    {
        let serial: u64 = if self.spawned == u64::MAX {
            0
        } else {
            self.spawned + 1
        };
        self.log_text.append("Terminal started.\n");
        self.process = Some(ChildHandle { serial });
        self.spawned = serial;
        self.pending = Pending::Ready;
        Step::Finished
    }

    fn spawn_failed(&mut self, reason: String) -> (step: Step)
        ensures
            final(self)@ == old(self)@.spawn_failed(reason@).0,
            step@ == old(self)@.spawn_failed(reason@).1,
    {
        let line = line_of("Failed to start terminal: ", reason.as_str());
        self.log_text.append(line.as_str());
        self.pending = Pending::Ready;
        Step::Failed(Failure::SpawnFailed(reason))
    }

    /// Takes the host's report on the order it was given last and says what
    /// comes next. A report that was not asked for changes nothing.
    pub fn resume(&mut self, report: Report) -> (step: Step)
        ensures
            final(self)@ == old(self)@.resume(report@).0,
            step@ == old(self)@.resume(report@).1,
            old(self)@.wf() ==> final(self)@.wf(),
    {
        match (self.pending, report) {
            (Pending::Credentials, Report::Credentials { username, password }) => {
                self.credentials_arrived(username, password)
            },
            (Pending::Spawn, Report::Spawned) => self.child_started(),
            (Pending::Spawn, Report::SpawnFailed { reason }) => self.spawn_failed(reason),
            (Pending::Quit, Report::Completed) => {
                self.log_text.append("Terminal forcibly quit.\n");
                self.pending = Pending::Ready;
                Step::Finished
            },
            (Pending::RestartQuit, Report::Completed) => {
                self.log_text.append("Terminal forcibly quit.\n");
                self.pending = Pending::RestartDelay;
                Step::Perform(Order::Sleep { millis: RESTART_DELAY_MILLIS })
            },
            (Pending::RestartDelay, Report::Completed) => self.begin_start(),
            _ => Step::Finished,
        }
    }

    /// Looks in one line of the worker's output for the configuration file
    /// that the worker says it uses; a path found replaces the one found
    /// before and is logged.
    pub fn detect_config_file_path_in_line(&mut self, line: &str)
        ensures
            final(self)@ == old(self)@.detected_in(line@),
    {
        match detect_config_path(line) {
            Some(path) => {
                let note = line_of("Detected config file path from terminal: ", path.as_str());
                self.last_detected_config_path = Some(path);
                self.log_text.append(note.as_str());
            },
            None => {},
        }
    }

    /// One tick of the host. `lines` is what the worker has put out since
    /// the last tick, in the order in which it was taken from the channel;
    /// each line is logged and searched. `exited` says whether the host
    /// found the child gone: then the child is let go of and its end logged.
    pub fn poll(&mut self, lines: &Vec<String>, exited: bool)
        ensures
            final(self)@ == old(self)@.poll(texts_of(lines@), exited),
            old(self)@.wf() ==> final(self)@.wf(),
    {
        let ghost texts = texts_of(lines@);
        let mut i: usize = 0;
        while i < lines.len()
            invariant
                i <= lines.len(),
                texts == texts_of(lines@),
                self@ == old(self)@.drained(texts.take(i as int)),
                old(self)@.wf() ==> self@.wf(),
            decreases lines.len() - i,
        {
            let line = lines[i].as_str();
            proof {
                assert(texts.take(i + 1).drop_last() =~= texts.take(i as int));
            }
            self.log_text.append(line);
            self.log_text.append("\n");
            self.detect_config_file_path_in_line(line);
            i += 1;
        }
        proof {
            assert(texts.take(i as int) =~= texts);
        }
        if exited && self.process.is_some() {
            self.log_text.append("Terminal process exited.\n");
            self.process = None;
        }
    }

    /// Takes note of how the secret store answered when it was asked to
    /// keep the user name and the password typed in: `stored` says that it
    /// took both. Only then do the credentials count as saved.
    pub fn save_credentials(&mut self, stored: bool) -> (outcome: Result<(), Failure>)
        ensures
            final(self)@ == old(self)@.credentials_kept(stored),
            outcome is Ok <==> stored,
            outcome matches Err(failure) ==> failure@ == FailureView::SecretStoreWriteError,
    {
        if stored {
            self.credentials_saved = true;
            self.log_text.append("Credentials saved.\n");
            Ok(())
        } else {
            self.log_text.append("Failed to save credentials.\n");
            Err(Failure::SecretStoreWriteError)
        }
    }

    /// Forgets the credentials, whether or not the secret store could
    /// delete its entries.
    pub fn remove_credentials(&mut self)
        ensures
            final(self)@ == old(self)@.credentials_removed(),
    {
        self.username_input = String::new();
        self.password_input = String::new();
        self.credentials_saved = false;
        self.log_text.append("Credentials removed.\n");
    }

    /// The settings to keep for the next session.
    pub fn settings(&self) -> (cfg: AppConfig)
        ensures
            cfg@ == self@.settings(),
    {
        AppConfig {
            jar_path: unless_empty(&self.jar_path),
            auto_start: self.auto_start,
            default_tab: self.selected_tab,
            thetadata_config_path: unless_empty(&self.thetadata_config_path),
        }
    }

    /// Takes note that the settings could not be written, for `reason`. The
    /// session goes on.
    pub fn settings_not_kept(&mut self, reason: String) -> (failure: Failure)
        ensures
            final(self)@ == old(self)@.settings_not_kept(reason@),
            failure@ == FailureView::SettingsPersistError(reason@),
    {
        let line = line_of("Failed saving app config: ", reason.as_str());
        self.log_text.append(line.as_str());
        Failure::SettingsPersistError(reason)
    }
}

} // verus!

//! What the supervisor and its host say to each other.
//!
//! The supervisor never touches a process, a secret store or a clock. It
//! answers each command with a `Step`: either the command has run its course,
//! or the host is to carry out an `Order` and hand back a `Report`.

use crate::model::{text_of, texts_of};
use vstd::prelude::*;
use vstd::string::*;

verus! {

/// The name under which the secret store keeps the worker's credentials.
pub const SECRET_SERVICE: &'static str = "ThetaDataTerminal";

/// The secret store's entry for the user name.
pub const USERNAME_ACCOUNT: &'static str = "username";

/// The secret store's entry for the password.
pub const PASSWORD_ACCOUNT: &'static str = "password";

/// Stands for one worker process that the host has started.
#[derive(Clone, Copy, Debug, PartialEq, Eq, Structural)]
pub struct ChildHandle {
    /// Which start this child came from: consecutive children differ in it.
    pub serial: u64,
}

/// The report that the supervisor waits for.
#[derive(Clone, Copy, Debug, PartialEq, Eq, Structural)]
pub enum Pending {
    /// Nothing is outstanding.
    Ready,
    /// The secrets, for a start.
    Credentials,
    /// The outcome of a launch.
    Spawn,
    /// The end of the child, for a stop.
    Quit,
    /// The end of the child, for a restart.
    RestartQuit,
    /// The end of the pause between stop and start of a restart.
    RestartDelay,
}

/// How the worker is to be launched: the program from `program`, with the
/// arguments from `arguments`. The credentials are in it only to be handed
/// to the worker; the manager keeps no copy.
#[derive(Clone, Debug, PartialEq, Eq)]
pub struct LaunchCommand {
    pub jar_path: String,
    pub username: String,
    pub password: String,
}

/// `LaunchCommand` with its texts as sequences of characters.
pub struct LaunchCommandView {
    pub jar_path: Seq<char>,
    pub username: Seq<char>,
    pub password: Seq<char>,
}

impl View for LaunchCommand {
    type V = LaunchCommandView;

    open spec fn view(&self) -> LaunchCommandView {
        LaunchCommandView {
            jar_path: self.jar_path@,
            username: self.username@,
            password: self.password@,
        }
    }
}

impl LaunchCommandView {
    /// The arguments after the program's name: the archive to run, then the
    /// credentials.
    pub open spec fn arguments(self) -> Seq<Seq<char>> {
        seq!["-jar"@, self.jar_path, self.username, self.password]
    }
}

/// The program that runs the worker: on a host with a windowing subsystem
/// of its own the variant that opens no console.
pub open spec fn launcher(windowless: bool) -> Seq<char> {
    if windowless {
        "javaw"@
    } else {
        "java"@
    }
}

impl LaunchCommand {
    /// The program to start.
    pub fn program(&self, windowless: bool) -> (name: String)
        ensures
            name@ == launcher(windowless),
    {
        if windowless {
            String::from_str("javaw")
        } else {
            String::from_str("java")
        }
    }

    /// The arguments to hand to the program.
    pub fn arguments(&self) -> (args: Vec<String>)
        ensures
            texts_of(args@) == self@.arguments(),
    {
        let mut args: Vec<String> = Vec::new();
        args.push(String::from_str("-jar"));
        args.push(self.jar_path.clone());
        args.push(self.username.clone());
        args.push(self.password.clone());
        args
    }
}

/// What the host is asked to do.
#[derive(Clone, Debug, PartialEq, Eq)]
pub enum Order {
    /// Read the user name and the password from the secret store, afresh.
    /// The answer is `Report::Credentials`.
    FetchCredentials,
    /// Start the worker with both of its output streams captured, and set
    /// a new log channel up with one reader for each stream. The answer is
    /// `Report::Spawned` or `Report::SpawnFailed`.
    Spawn(LaunchCommand),
    /// End this child by force and wait until it is gone. The answer is
    /// `Report::Completed`, whether or not the child could be ended.
    KillAndWait(ChildHandle),
    /// Let this many milliseconds pass. The answer is `Report::Completed`.
    Sleep { millis: u64 },
}

/// `Order` with its texts as sequences of characters.
pub enum OrderView {
    FetchCredentials,
    Spawn(LaunchCommandView),
    KillAndWait(ChildHandle),
    Sleep { millis: u64 },
}

impl View for Order {
    type V = OrderView;

    open spec fn view(&self) -> OrderView {
        match self {
            Order::FetchCredentials => OrderView::FetchCredentials,
            Order::Spawn(command) => OrderView::Spawn(command@),
            Order::KillAndWait(child) => OrderView::KillAndWait(*child),
            Order::Sleep { millis } => OrderView::Sleep { millis: *millis },
        }
    }
}

/// What the host reports once an order is carried out.
#[derive(Clone, Debug, PartialEq, Eq)]
pub enum Report {
    /// What the secret store holds; a missing or unreadable entry is `None`.
    Credentials { username: Option<String>, password: Option<String> },
    /// The worker runs.
    Spawned,
    /// The worker could not be started.
    SpawnFailed { reason: String },
    /// The child is gone, or the pause is over.
    Completed,
}

/// `Report` with its texts as sequences of characters.
pub enum ReportView {
    Credentials { username: Option<Seq<char>>, password: Option<Seq<char>> },
    Spawned,
    SpawnFailed { reason: Seq<char> },
    Completed,
}

impl View for Report {
    type V = ReportView;

    open spec fn view(&self) -> ReportView {
        match self {
            Report::Credentials { username, password } => ReportView::Credentials {
                username: text_of(*username),
                password: text_of(*password),
            },
            Report::Spawned => ReportView::Spawned,
            Report::SpawnFailed { reason } => ReportView::SpawnFailed { reason: reason@ },
            Report::Completed => ReportView::Completed,
        }
    }
}

/// Why a command did not do what it was asked for.
#[derive(Clone, Debug, PartialEq, Eq)]
pub enum Failure {
    /// The secret store holds no complete pair of user name and password.
    CredentialsUnavailable,
    /// The operating system refused to start the worker.
    SpawnFailed(String),
    /// The secret store did not take the credentials.
    SecretStoreWriteError,
    /// The settings could not be written.
    SettingsPersistError(String),
}

/// `Failure` with its texts as sequences of characters.
pub enum FailureView {
    CredentialsUnavailable,
    SpawnFailed(Seq<char>),
    SecretStoreWriteError,
    SettingsPersistError(Seq<char>),
}

impl View for Failure {
    type V = FailureView;

    open spec fn view(&self) -> FailureView {
        match self {
            Failure::CredentialsUnavailable => FailureView::CredentialsUnavailable,
            Failure::SpawnFailed(reason) => FailureView::SpawnFailed(reason@),
            Failure::SecretStoreWriteError => FailureView::SecretStoreWriteError,
            Failure::SettingsPersistError(reason) => FailureView::SettingsPersistError(reason@),
        }
    }
}

/// The supervisor's answer to a command or a report.
#[derive(Clone, Debug, PartialEq, Eq)]
pub enum Step {
    /// Nothing is left to do.
    Finished,
    /// Nothing is left to do; what was asked for did not happen.
    Failed(Failure),
    /// The host carries out the order and reports back.
    Perform(Order),
}

/// `Step` with its texts as sequences of characters.
pub enum StepView {
    Finished,
    Failed(FailureView),
    Perform(OrderView),
}

impl View for Step {
    type V = StepView;

    open spec fn view(&self) -> StepView {
        match self {
            Step::Finished => StepView::Finished,
            Step::Failed(failure) => StepView::Failed(failure@),
            Step::Perform(order) => StepView::Perform(order@),
        }
    }
}

} // verus!

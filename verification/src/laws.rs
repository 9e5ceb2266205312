//! What holds of the manager whatever the user and the worker do.

use crate::detect::config_path_in;
use crate::model::{Settings, Tab};
use crate::protocol::{
    ChildHandle, FailureView, LaunchCommandView, OrderView, Pending, ReportView, StepView,
};
use crate::state::{next_serial, AppState, ConfigSource, RESTART_DELAY_MILLIS};
use vstd::prelude::*;

verus! {

/// One thing that happens to the manager.
pub enum Input {
    /// The command to start the worker.
    Start,
    /// The command to stop it.
    Stop,
    /// The command to restart it.
    Reset,
    /// A report from the host.
    Report(ReportView),
    /// A tick of the host.
    Poll { lines: Seq<Seq<char>>, exited: bool },
    /// A text for the log.
    Log(Seq<char>),
    /// A line to search for a configuration path.
    Line(Seq<char>),
    /// The secret store's answer to the credentials typed in.
    CredentialsKept(bool),
    /// The credentials are given up.
    CredentialsRemoved,
    /// The settings could not be written.
    SettingsNotKept(Seq<char>),
    /// The request to save the configuration text.
    ConfigSave,
    /// The outcome of writing it.
    ConfigWritten(Option<Seq<char>>),
    /// A configuration file picked by the user.
    ConfigPicked(Seq<char>),
    /// The request to take over the announced configuration file.
    ConfigFromTerminal,
    /// The request to read the configuration file again.
    ConfigRefresh,
    /// The outcome of reading it.
    ConfigLoaded(ConfigSource, Result<Seq<char>, Seq<char>>),
    /// The user has typed and chosen: what is open to the user is now as in
    /// the state given.
    Edited(AppState),
}

/// `s` with everything that is open to the user taken from `to`. The log,
/// the path found last and the supervisor's hold on the child are not.
pub open spec fn edited(s: AppState, to: AppState) -> AppState {
    AppState {
        process: s.process,
        pending: s.pending,
        spawned: s.spawned,
        log_text: s.log_text,
        last_detected_config_path: s.last_detected_config_path,
        ..to
    }
}

/// The state after `input`, and the supervisor's answer to it.
pub open spec fn after(s: AppState, input: Input) -> (AppState, StepView) {
    match input {
        Input::Start => s.start_terminal(),
        Input::Stop => s.force_quit_process(),
        Input::Reset => s.reset_terminal(),
        Input::Report(report) => s.resume(report),
        Input::Poll { lines, exited } => (s.poll(lines, exited), StepView::Finished),
        Input::Log(text) => (s.logged(text), StepView::Finished),
        Input::Line(line) => (s.detected_in(line), StepView::Finished),
        Input::CredentialsKept(stored) => (s.credentials_kept(stored), StepView::Finished),
        Input::CredentialsRemoved => (s.credentials_removed(), StepView::Finished),
        Input::SettingsNotKept(reason) => (s.settings_not_kept(reason), StepView::Finished),
        Input::ConfigSave => (s.save_current_config_file().0, StepView::Finished),
        Input::ConfigWritten(failure) => (s.config_file_written(failure), StepView::Finished),
        Input::ConfigPicked(path) => (s.config_file_picked(path), StepView::Finished),
        Input::ConfigFromTerminal => (s.config_file_from_terminal().0, StepView::Finished),
        Input::ConfigRefresh => (s.config_file_to_refresh().0, StepView::Finished),
        Input::ConfigLoaded(source, outcome) => (
            s.config_file_loaded(source, outcome),
            StepView::Finished,
        ),
        Input::Edited(to) => (edited(s, to), StepView::Finished),
    }
}

/// The state after all of `inputs`, in their order.
pub open spec fn run(s: AppState, inputs: Seq<Input>) -> AppState
    decreases inputs.len(),
{
    if inputs.len() == 0 {
        s
    } else {
        after(run(s, inputs.drop_last()), inputs.last()).0
    }
}

/// The children that the supervisor holds: one or none.
pub open spec fn held(s: AppState) -> Set<ChildHandle> {
    match s.process {
        Some(child) => set![child],
        None => set![],
    }
}

/// The children alive after `input`, given those alive before it. A child
/// comes to life when the host reports the launch it was asked for as
/// done; it is gone when the host is told to end it, and when a tick finds
/// it gone.
pub open spec fn alive_after(alive: Set<ChildHandle>, s: AppState, input: Input) -> Set<
    ChildHandle,
> {
    let (next, step) = after(s, input);
    let born = if s.pending == Pending::Spawn && input == Input::Report(ReportView::Spawned)
        && next.process is Some {
        alive.insert(next.process->0)
    } else {
        alive
    };
    let ended = match step {
        StepView::Perform(OrderView::KillAndWait(child)) => born.remove(child),
        _ => born,
    };
    match (input, s.process) {
        (Input::Poll { lines, exited }, Some(child)) => if exited {
            ended.remove(child)
        } else {
            ended
        },
        _ => ended,
    }
}

/// The children alive after all of `inputs`, given those alive before.
pub open spec fn alive_along(alive: Set<ChildHandle>, s: AppState, inputs: Seq<Input>) -> Set<
    ChildHandle,
>
    decreases inputs.len(),
{
    if inputs.len() == 0 {
        alive
    } else {
        alive_after(
            alive_along(alive, s, inputs.drop_last()),
            run(s, inputs.drop_last()),
            inputs.last(),
        )
    }
}

/// A text is the beginning of itself with more behind it.
proof fn lemma_begins(text: Seq<char>, more: Seq<char>)
    ensures
        text.is_prefix_of(text + more),
        text.is_prefix_of(text),
{
}

/// The beginning of a beginning is a beginning.
proof fn lemma_begins_chain(a: Seq<char>, b: Seq<char>, c: Seq<char>)
    requires
        a.is_prefix_of(b),
        b.is_prefix_of(c),
    ensures
        a.is_prefix_of(c),
{
}

/// A line searched leaves what was logged in place.
proof fn lemma_detected_grows_log(s: AppState, line: Seq<char>)
    ensures
        s.log_text.is_prefix_of(s.detected_in(line).log_text),
{
}

/// The lines leave the supervisor's hold on the child as it was, and what
/// was logged in place.
pub proof fn lemma_drained_keeps_hold(s: AppState, lines: Seq<Seq<char>>)
    ensures
        s.drained(lines).process == s.process,
        s.drained(lines).pending == s.pending,
        s.drained(lines).spawned == s.spawned,
        s.drained(lines).jar_path == s.jar_path,
        s.log_text.is_prefix_of(s.drained(lines).log_text),
    decreases lines.len(),
{
    if lines.len() > 0 {
        lemma_drained_keeps_hold(s, lines.drop_last());
        let before = s.drained(lines.drop_last());
        let line = lines.last();
        let noted = before.logged(line).logged("\n"@);
        lemma_begins(before.log_text, line);
        lemma_begins(before.log_text + line, "\n"@);
        lemma_begins_chain(before.log_text, before.log_text + line, noted.log_text);
        lemma_detected_grows_log(noted, line);
        lemma_begins_chain(before.log_text, noted.log_text, s.drained(lines).log_text);
        lemma_begins_chain(s.log_text, before.log_text, s.drained(lines).log_text);
    }
}

/// One input keeps a well-formed state well-formed, and the children alive
/// remain those that the supervisor holds.
pub proof fn lemma_step_keeps_single_child(s: AppState, input: Input)
    requires
        s.wf(),
    ensures
        after(s, input).0.wf(),
        alive_after(held(s), s, input) == held(after(s, input).0),
        after(s, input).1 is Perform && after(s, input).1->Perform_0 is Spawn ==> held(s).is_empty()
            && held(after(s, input).0).is_empty(),
{
    match input {
        Input::Poll { lines, exited } => {
            lemma_drained_keeps_hold(s, lines);
        },
        _ => {},
    }
}

/// At most one child is alive at any time, whatever commands, reports,
/// ticks and edits come in and in whatever order: the children alive are
/// those that the supervisor holds, a launch is only asked for while none
/// is alive, and none comes to life until that launch is reported done.
pub proof fn law_single_child(s: AppState, inputs: Seq<Input>)
    requires
        s.wf(),
    ensures
        run(s, inputs).wf(),
        alive_along(held(s), s, inputs) == held(run(s, inputs)),
        alive_along(held(s), s, inputs).finite(),
        alive_along(held(s), s, inputs).len() <= 1,
        forall|input: Input|
            (#[trigger] after(run(s, inputs), input)).1 is Perform && after(
                run(s, inputs),
                input,
            ).1->Perform_0 is Spawn ==> alive_along(held(s), s, inputs).is_empty(),
    decreases inputs.len(),
{
    if inputs.len() > 0 {
        law_single_child(s, inputs.drop_last());
        lemma_step_keeps_single_child(run(s, inputs.drop_last()), inputs.last());
    }
    let now = run(s, inputs);
    assert forall|input: Input|
        (#[trigger] after(now, input)).1 is Perform && after(now, input).1->Perform_0 is Spawn
        implies held(now).is_empty() by {
        lemma_step_keeps_single_child(now, input);
    }
}

/// A start while a child runs changes nothing and asks for nothing: no
/// second launch, no second line in the log.
pub proof fn law_start_while_running(s: AppState)
    requires
        s.process is Some,
    ensures
        s.start_terminal() == (s, StepView::Finished),
{
}

/// A stop without a child changes nothing and asks for nothing; nothing is
/// logged.
pub proof fn law_stop_while_idle(s: AppState)
    requires
        s.process is None,
    ensures
        s.force_quit_process() == (s, StepView::Finished),
{
}

/// How the world outside answers: what the secret store holds, and how a
/// launch ends (`Spawned`, or `SpawnFailed` with its reason).
pub struct World {
    pub username: Option<Seq<char>>,
    pub password: Option<Seq<char>>,
    pub launch: ReportView,
}

impl World {
    /// A launch either succeeds or fails.
    pub open spec fn wf(self) -> bool {
        self.launch is Spawned || self.launch is SpawnFailed
    }

    /// What the host reports once it has carried out `order`.
    pub open spec fn answer(self, order: OrderView) -> ReportView {
        match order {
            OrderView::FetchCredentials => ReportView::Credentials {
                username: self.username,
                password: self.password,
            },
            OrderView::Spawn(_) => self.launch,
            OrderView::KillAndWait(_) => ReportView::Completed,
            OrderView::Sleep { .. } => ReportView::Completed,
        }
    }
}

/// The state and the supervisor's last answer once the host has carried out
/// `step` and what followed from it, `limit` orders at most.
pub open spec fn carried_out(s: AppState, step: StepView, world: World, limit: nat) -> (
    AppState,
    StepView,
)
    decreases limit,
{
    match step {
        StepView::Perform(order) => if limit == 0 {
            (s, step)
        } else {
            let (next, answer) = s.resume(world.answer(order));
            carried_out(next, answer, world, (limit - 1) as nat)
        },
        _ => (s, step),
    }
}

/// A restart, carried out, ends in one of two ways. Either a new child
/// runs, which is not the old one, and "Terminal started." is the last
/// line logged. Or no child runs: the launch failed and the reason is the
/// last line logged, or the credentials were missing, or no archive is
/// named. The old child is let go of before anything else is asked of the
/// host, which is first told to end it; it is never held again.
pub proof fn law_reset_replaces_child(s: AppState, world: World)
    requires
        s.wf(),
        s.pending == Pending::Ready,
        world.wf(),
    ensures
        ({
            let (begun, first) = s.reset_terminal();
            let (end, last) = carried_out(begun, first, world, 5);
            &&& begun.process is None
            &&& s.process matches Some(old) ==> first == StepView::Perform(
                OrderView::KillAndWait(old),
            )
            &&& s.process is None ==> first == StepView::Perform(
                OrderView::Sleep { millis: RESTART_DELAY_MILLIS },
            )
            &&& !(last is Perform)
            &&& end.wf()
            &&& end.pending == Pending::Ready
            &&& end.process matches Some(child) ==> {
                &&& s.process != Some(child)
                &&& child.serial == next_serial(s.spawned)
                &&& world.launch is Spawned
                &&& last == StepView::Finished
                &&& end.log_text == quit_logged(s).log_text + "Terminal started.\n"@
            }
            &&& end.process is None ==> {
                ||| s.jar_path.len() == 0 && last == StepView::Finished && end.log_text
                    == quit_logged(s).log_text
                ||| (world.username is None || world.password is None) && last
                    == StepView::Failed(FailureView::CredentialsUnavailable) && end.log_text
                    == quit_logged(s).log_text + "No valid credentials found. Cannot start.\n"@
                ||| world.launch matches ReportView::SpawnFailed { reason } && last
                    == StepView::Failed(FailureView::SpawnFailed(reason)) && end.log_text
                    == quit_logged(s).log_text + ("Failed to start terminal: "@ + reason + "\n"@)
            }
        }),
{
    reveal_with_fuel(carried_out, 6);
}

/// The state with the end of the child logged, if there was a child.
pub open spec fn quit_logged(s: AppState) -> AppState {
    if s.process is Some {
        s.logged("Terminal forcibly quit.\n"@)
    } else {
        s
    }
}

/// A start, carried out, from a state without a child and with an archive
/// named, ends in one of three ways. With both secrets stored and a launch
/// that succeeds the worker runs, launched with exactly that archive and
/// those secrets, and "Terminal started." is logged. With a secret missing
/// nothing is launched and nothing changes but the log, which says so. With
/// a launch that fails nothing changes but the log, which gives the reason.
pub proof fn law_start_outcomes(s: AppState, world: World)
    requires
        s.wf(),
        s.pending == Pending::Ready,
        s.process is None,
        s.jar_path.len() > 0,
        world.wf(),
    ensures
        ({
            let (begun, first) = s.start_terminal();
            let (asked, second) = begun.resume(world.answer(OrderView::FetchCredentials));
            let (end, last) = carried_out(begun, first, world, 2);
            &&& first == StepView::Perform(OrderView::FetchCredentials)
            &&& begun.log_text == s.log_text
            &&& match (world.username, world.password, world.launch) {
                (Some(username), Some(password), ReportView::SpawnFailed { reason }) => {
                    &&& second == StepView::Perform(
                        OrderView::Spawn(
                            LaunchCommandView { jar_path: s.jar_path, username, password },
                        ),
                    )
                    &&& asked.log_text == s.log_text
                    &&& last == StepView::Failed(FailureView::SpawnFailed(reason))
                    &&& end == s.logged("Failed to start terminal: "@ + reason + "\n"@)
                },
                (Some(username), Some(password), _) => {
                    &&& second == StepView::Perform(
                        OrderView::Spawn(
                            LaunchCommandView { jar_path: s.jar_path, username, password },
                        ),
                    )
                    &&& asked.log_text == s.log_text
                    &&& last == StepView::Finished
                    &&& end == AppState {
                        process: Some(ChildHandle { serial: next_serial(s.spawned) }),
                        spawned: next_serial(s.spawned),
                        ..s.logged("Terminal started.\n"@)
                    }
                },
                _ => {
                    &&& second == StepView::Failed(FailureView::CredentialsUnavailable)
                    &&& last == second
                    &&& end == s.logged("No valid credentials found. Cannot start.\n"@)
                },
            }
        }),
{
    reveal_with_fuel(carried_out, 3);
}

/// A stop, carried out, always succeeds: the host is told to end the child
/// that ran, and once it has, no child is held and the end is logged.
pub proof fn law_stop_ends_child(s: AppState, world: World)
    requires
        s.wf(),
        s.process is Some,
    ensures
        ({
            let (begun, first) = s.force_quit_process();
            let (end, last) = carried_out(begun, first, world, 1);
            &&& first == StepView::Perform(OrderView::KillAndWait(s.process->0))
            &&& begun.process is None
            &&& last == StepView::Finished
            &&& end == AppState { process: None, ..s.logged("Terminal forcibly quit.\n"@) }
        }),
{
    reveal_with_fuel(carried_out, 2);
}

/// The secrets pass through and leave no trace: what the supervisor's state
/// is after the credentials have arrived depends on whether both are there,
/// and on nothing else about them. Neither the log nor any other part of
/// the state holds them.
pub proof fn law_credentials_leave_no_trace(
    s: AppState,
    username: Option<Seq<char>>,
    password: Option<Seq<char>>,
    other_username: Option<Seq<char>>,
    other_password: Option<Seq<char>>,
)
    requires
        (username is Some && password is Some) == (other_username is Some && other_password
            is Some),
    ensures
        s.resume(ReportView::Credentials { username, password }).0 == s.resume(
            ReportView::Credentials { username: other_username, password: other_password },
        ).0,
{
}

/// When the host finds the child gone, the tick lets go of it and logs its
/// end once, after the lines that came with the tick. Later ticks log
/// nothing but the lines they bring.
pub proof fn law_exit_noticed_once(
    s: AppState,
    lines: Seq<Seq<char>>,
    later_lines: Seq<Seq<char>>,
    later_exited: bool,
)
    requires
        s.process is Some,
    ensures
        ({
            let noticed = s.poll(lines, true);
            &&& noticed.process is None
            &&& noticed.log_text == s.drained(lines).log_text + "Terminal process exited.\n"@
            &&& noticed.poll(later_lines, later_exited) == noticed.drained(later_lines)
            &&& noticed.poll(later_lines, later_exited).process is None
        }),
{
    lemma_drained_keeps_hold(s, lines);
    lemma_drained_keeps_hold(s.poll(lines, true), later_lines);
}

/// The settings written at the end of one session and read at the start of
/// the next bring back the worker archive, the auto-start flag and the
/// configuration file. The tab that was selected is written too, but a
/// session always opens on `Setup`, on purpose.
pub proof fn law_settings_round_trip(
    s: AppState,
    username: Option<Seq<char>>,
    password: Option<Seq<char>>,
)
    ensures
        ({
            let kept = s.settings();
            let next = AppState::initial(kept, username, password);
            &&& kept.default_tab == s.selected_tab
            &&& next.jar_path == s.jar_path
            &&& next.auto_start == s.auto_start
            &&& next.thetadata_config_path == s.thetadata_config_path
            &&& next.selected_tab == Tab::Setup
            &&& next.default_tab == Tab::Setup
            &&& next.settings() == Settings { default_tab: Tab::Setup, ..kept }
        }),
{
}

/// The answer to a report leaves what was logged in place.
proof fn lemma_resume_grows_log(s: AppState, report: ReportView)
    ensures
        s.log_text.is_prefix_of(s.resume(report).0.log_text),
{
    lemma_begins(s.log_text, Seq::empty());
    lemma_begins(s.log_text, "No valid credentials found. Cannot start.\n"@);
    lemma_begins(s.log_text, "Terminal started.\n"@);
    lemma_begins(s.log_text, "Terminal forcibly quit.\n"@);
    match report {
        ReportView::SpawnFailed { reason } => {
            lemma_begins(s.log_text, "Failed to start terminal: "@ + reason + "\n"@);
        },
        _ => {},
    }
}

/// One input leaves what was logged in place.
proof fn lemma_step_grows_log(s: AppState, input: Input)
    ensures
        s.log_text.is_prefix_of(after(s, input).0.log_text),
{
    lemma_begins(s.log_text, Seq::empty());
    match input {
        Input::Report(report) => {
            lemma_resume_grows_log(s, report);
        },
        Input::Poll { lines, exited } => {
            lemma_drained_keeps_hold(s, lines);
            let fed = s.drained(lines);
            lemma_begins(fed.log_text, "Terminal process exited.\n"@);
            lemma_begins_chain(s.log_text, fed.log_text, s.poll(lines, exited).log_text);
        },
        Input::Log(text) => {
            lemma_begins(s.log_text, text);
        },
        Input::Line(line) => {
            lemma_detected_grows_log(s, line);
        },
        Input::CredentialsKept(stored) => {
            lemma_begins(s.log_text, "Credentials saved.\n"@);
            lemma_begins(s.log_text, "Failed to save credentials.\n"@);
        },
        Input::CredentialsRemoved => {
            lemma_begins(s.log_text, "Credentials removed.\n"@);
        },
        Input::SettingsNotKept(reason) => {
            lemma_begins(s.log_text, "Failed saving app config: "@ + reason + "\n"@);
        },
        Input::ConfigSave => {
            lemma_begins(s.log_text, "No config file path set.\n"@);
        },
        Input::ConfigWritten(failure) => {
            lemma_begins(s.log_text, "Config file saved.\n"@);
            if let Some(reason) = failure {
                lemma_begins(s.log_text, "Failed to write config file: "@ + reason + "\n"@);
            }
        },
        Input::ConfigFromTerminal => {
            lemma_begins(
                s.log_text,
                "No config path detected yet. Launch the terminal first.\n"@,
            );
        },
        Input::ConfigRefresh => {
            lemma_begins(s.log_text, "No config path set to refresh.\n"@);
        },
        Input::ConfigLoaded(source, outcome) => {
            lemma_begins(s.log_text, "Config file loaded from browse.\n"@);
            lemma_begins(s.log_text, "Config file loaded from terminal detection.\n"@);
            lemma_begins(s.log_text, "Config file refreshed from disk.\n"@);
            lemma_begins(s.log_text, "Failed to load config from browse.\n"@);
            if let Err(reason) = outcome {
                lemma_begins(s.log_text, "Failed to load config file: "@ + reason + "\n"@);
                lemma_begins(s.log_text, "Failed to refresh config: "@ + reason + "\n"@);
            }
        },
        _ => {},
    }
}

/// The log only grows: whatever happens, what was logged stays, in place.
pub proof fn law_log_only_grows(s: AppState, inputs: Seq<Input>)
    ensures
        s.log_text.is_prefix_of(run(s, inputs).log_text),
    decreases inputs.len(),
{
    if inputs.len() > 0 {
        law_log_only_grows(s, inputs.drop_last());
        let before = run(s, inputs.drop_last());
        lemma_step_grows_log(before, inputs.last());
        lemma_begins_chain(s.log_text, before.log_text, run(s, inputs).log_text);
    } else {
        lemma_begins(s.log_text, Seq::empty());
    }
}

} // verus!

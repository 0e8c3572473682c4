//! One run of the tool, told as a conversation. The run asks for one thing
//! at a time (an [`Action`]) and decides from the answer (an [`Event`]) what
//! to ask next; whoever drives it does the asking. The run itself touches
//! nothing.

use crate::command::{
    mount, mount_command_of, unmount, unmount_command_of, Command, CommandView, MOUNT_PROGRAM,
    UNMOUNT_PROGRAM,
};
use crate::config::{
    document_strings, outcome_view, parse_config, remote_of, Config, ConfigError,
    ConfigErrorView, CONF_FILE_NAME,
};
use crate::message::{
    caused, caused_text, config_invalid, config_invalid_text, config_unreadable,
    config_unreadable_text, contains_text, lemma_caused_keeps_text,
    lemma_config_invalid_names_both, lemma_config_unreadable_names_both, not_found,
    not_found_text, probe_failed, probe_failed_text, reason, reason_text, INVALID_MOUNTPOINT,
    MOUNT_NOT_RUN, MTAB_MALFORMED, MTAB_NOT_OPENED, MTAB_NOT_READ, NO_EXIT_STATUS,
    UNMOUNT_NOT_RUN,
};
use crate::mtab::{detect_mode, verdict, MountState, MtabError, MTAB_PATH};
use crate::text::lines_of;
use vstd::prelude::*;

verus! {

/// The target directory of a run that names none.
pub const DEFAULT_TARGET: &'static str = ".";

/// The exit status of a run that lacks one of its two programs.
pub const MISSING_COMMAND_STATUS: i32 = 1;

/// The exit status of a process that ends by a panic.
pub const PANIC_STATUS: i32 = 101;

/// What the run does to the target: the opposite of how it found it.
#[derive(Clone, Copy, Debug, PartialEq, Eq, Structural)]
pub enum SwitchMode {
    Mount,
    Unmount,
}

/// What the run is waiting for.
#[derive(Clone, Copy, Debug, PartialEq, Eq, Structural)]
pub enum Phase {
    /// Whether the mount program can be started.
    ProbingMount,
    /// Whether the unmount program can be started.
    ProbingUnmount,
    /// The canonical path of the target, and the mount table.
    Detecting,
    /// The text of the target's configuration file.
    Configuring,
    /// The end of the mount command.
    Mounting,
    /// The end of the unmount command.
    Unmounting,
    /// Nothing: the run is over.
    Done,
}

/// A run: the target directory as it was given, and how far the run has come.
#[derive(Debug, PartialEq, Eq)]
pub struct Switch {
    pub target: String,
    pub phase: Phase,
}

/// A run as plain values.
pub struct SwitchView {
    pub target: Seq<char>,
    pub phase: Phase,
}

impl View for Switch {
    type V = SwitchView;

    open spec fn view(&self) -> SwitchView {
        SwitchView { target: self.target@, phase: self.phase }
    }
}

/// An answer to what the run asked for.
#[derive(Debug, PartialEq, Eq)]
pub enum Event {
    /// The probed program could be started.
    CommandFound,
    /// The probed program is not on the search path.
    CommandNotFound,
    /// Starting the probed program failed for another reason.
    CommandFailed { error: String },
    /// The target has no canonical path; `error` says why.
    TargetUnresolved { error: String },
    /// The mount table could not be opened; `error` says why.
    MountTableNotOpened { error: String },
    /// The canonical path of the target, and the lines of the mount table
    /// that could be read, each with its line feed. `failure` is the error
    /// that ended the reading before the end of the table, if one did.
    MountTable { canonical: String, table: String, failure: Option<String> },
    /// The text of the configuration file.
    ConfigText { text: String },
    /// The configuration file is absent or cannot be read; `error` says why.
    ConfigUnreadable { error: String },
    /// The command ended, with this exit status if it has one.
    Exited { code: Option<i32> },
    /// The command could not be started; `error` says why.
    NotStarted { error: String },
}

/// An event as plain values.
pub enum EventView {
    CommandFound,
    CommandNotFound,
    CommandFailed { error: Seq<char> },
    TargetUnresolved { error: Seq<char> },
    MountTableNotOpened { error: Seq<char> },
    MountTable { canonical: Seq<char>, table: Seq<char>, failure: Option<Seq<char>> },
    ConfigText { text: Seq<char> },
    ConfigUnreadable { error: Seq<char> },
    Exited { code: Option<i32> },
    NotStarted { error: Seq<char> },
}

impl View for Event {
    type V = EventView;

    open spec fn view(&self) -> EventView {
        match self {
            Event::CommandFound => EventView::CommandFound,
            Event::CommandNotFound => EventView::CommandNotFound,
            Event::CommandFailed { error } => EventView::CommandFailed { error: error@ },
            Event::TargetUnresolved { error } => EventView::TargetUnresolved { error: error@ },
            Event::MountTableNotOpened { error } => EventView::MountTableNotOpened {
                error: error@,
            },
            Event::MountTable { canonical, table, failure } => EventView::MountTable {
                canonical: canonical@,
                table: table@,
                failure: match failure {
                    Some(error) => Some(error@),
                    None => None,
                },
            },
            Event::ConfigText { text } => EventView::ConfigText { text: text@ },
            Event::ConfigUnreadable { error } => EventView::ConfigUnreadable { error: error@ },
            Event::Exited { code } => EventView::Exited { code: *code },
            Event::NotStarted { error } => EventView::NotStarted { error: error@ },
        }
    }
}

/// What the run asks its driver to do next.
#[derive(Debug, PartialEq, Eq)]
pub enum Action {
    /// Start `program` with its output discarded, to see whether it exists.
    Probe { program: String },
    /// Resolve `target` to its canonical path, open the mount table at
    /// `path`, and read its lines.
    ReadMountTable { path: String, target: String },
    /// Read the file `file_name` inside `directory`.
    ReadConfig { directory: String, file_name: String },
    /// Run `command` and wait for its end.
    Run { command: Command },
    /// End the process with `status`, after writing `error`, if there is
    /// one, to the error stream.
    Exit { status: i32, error: Option<String> },
    /// End the process by a panic with `message`.
    Panic { message: String },
}

/// An action as plain values.
pub enum ActionView {
    Probe { program: Seq<char> },
    ReadMountTable { path: Seq<char>, target: Seq<char> },
    ReadConfig { directory: Seq<char>, file_name: Seq<char> },
    Run { command: CommandView },
    Exit { status: i32, error: Option<Seq<char>> },
    Panic { message: Seq<char> },
}

impl View for Action {
    type V = ActionView;

    open spec fn view(&self) -> ActionView {
        match self {
            Action::Probe { program } => ActionView::Probe { program: program@ },
            Action::ReadMountTable { path, target } => ActionView::ReadMountTable {
                path: path@,
                target: target@,
            },
            Action::ReadConfig { directory, file_name } => ActionView::ReadConfig {
                directory: directory@,
                file_name: file_name@,
            },
            Action::Run { command } => ActionView::Run { command: command@ },
            Action::Exit { status, error } => ActionView::Exit {
                status: *status,
                error: match error {
                    Some(text) => Some(text@),
                    None => None,
                },
            },
            Action::Panic { message } => ActionView::Panic { message: message@ },
        }
    }
}

/// The mode that toggles `state`.
pub open spec fn mode_for(state: MountState) -> SwitchMode {
    match state {
        MountState::Mounted => SwitchMode::Unmount,
        MountState::NotMounted => SwitchMode::Mount,
    }
}

/// Chooses the mode that toggles `state`: unmount what is mounted, mount
/// what is not.
pub fn switch_mode(state: MountState) -> (r: SwitchMode)
    ensures
        r == mode_for(state),
{
    match state {
        MountState::Mounted => SwitchMode::Unmount,
        MountState::NotMounted => SwitchMode::Mount,
    }
}

/// How an answer to a probe of `program` ends the run, if it does: a
/// program that is missing, or that cannot be started, ends it with
/// [`MISSING_COMMAND_STATUS`] and a report that names the program.
pub open spec fn probe_failure_of(program: Seq<char>, event: EventView) -> Option<ActionView> {
    match event {
        EventView::CommandNotFound => Some(
            ActionView::Exit {
                status: MISSING_COMMAND_STATUS,
                error: Some(not_found_text(program)),
            },
        ),
        EventView::CommandFailed { error } => Some(
            ActionView::Exit {
                status: MISSING_COMMAND_STATUS,
                error: Some(probe_failed_text(program, error)),
            },
        ),
        _ => None,
    }
}

/// What follows the scan of the lines that were read, `found`, where
/// `failure` is the error that ended the reading early, if one did. A
/// malformed line ends the run and a mounted target is unmounted, whatever
/// came after the line that decided. Where no line decided, a failure to read
/// on ends the run, and a table read to its end has the target's
/// configuration read.
pub open spec fn detected_of(
    target: Seq<char>,
    found: Result<MountState, MtabError>,
    failure: Option<Seq<char>>,
) -> (Phase, ActionView) {
    match found {
        Err(_) => (Phase::Done, ActionView::Panic { message: MTAB_MALFORMED@ }),
        Ok(state) => match mode_for(state) {
            SwitchMode::Unmount => (
                Phase::Unmounting,
                ActionView::Run { command: unmount_command_of(target) },
            ),
            SwitchMode::Mount => match failure {
                Some(error) => (
                    Phase::Done,
                    ActionView::Panic { message: caused_text(MTAB_NOT_READ@, error) },
                ),
                None => (
                    Phase::Configuring,
                    ActionView::ReadConfig { directory: target, file_name: CONF_FILE_NAME@ },
                ),
            },
        },
    }
}

/// What follows the reading of the configuration: its remote is mounted on
/// the target, and a text that names no remote ends the run, with a message
/// that names the configuration file, the target directory and what is wrong.
pub open spec fn configured_of(target: Seq<char>, parsed: Result<Seq<char>, ConfigErrorView>) -> (
    Phase,
    ActionView,
) {
    match parsed {
        Ok(remote) => (
            Phase::Mounting,
            ActionView::Run { command: mount_command_of(remote, target) },
        ),
        Err(error) => (
            Phase::Done,
            ActionView::Panic {
                message: caused_text(config_invalid_text(target), reason_text(error)),
            },
        ),
    }
}

/// How the run ends once its command has: with the command's own exit
/// status, whatever it is.
pub open spec fn finished_of(code: Option<i32>) -> ActionView {
    match code {
        Some(status) => ActionView::Exit { status, error: None },
        None => ActionView::Panic { message: NO_EXIT_STATUS@ },
    }
}

/// The phase that `event` leads to from `phase`, and what the run asks for
/// then; `None` where `event` answers nothing that is asked in `phase`.
pub open spec fn decide(phase: Phase, target: Seq<char>, event: EventView) -> Option<
    (Phase, ActionView),
> {
    match phase {
        Phase::ProbingMount => match event {
            EventView::CommandFound => Some(
                (Phase::ProbingUnmount, ActionView::Probe { program: UNMOUNT_PROGRAM@ }),
            ),
            _ => match probe_failure_of(MOUNT_PROGRAM@, event) {
                Some(action) => Some((Phase::Done, action)),
                None => None,
            },
        },
        Phase::ProbingUnmount => match event {
            EventView::CommandFound => Some(
                (Phase::Detecting, ActionView::ReadMountTable { path: MTAB_PATH@, target }),
            ),
            _ => match probe_failure_of(UNMOUNT_PROGRAM@, event) {
                Some(action) => Some((Phase::Done, action)),
                None => None,
            },
        },
        Phase::Detecting => match event {
            EventView::TargetUnresolved { error } => Some(
                (
                    Phase::Done,
                    ActionView::Panic { message: caused_text(INVALID_MOUNTPOINT@, error) },
                ),
            ),
            EventView::MountTableNotOpened { error } => Some(
                (Phase::Done, ActionView::Panic { message: caused_text(MTAB_NOT_OPENED@, error) }),
            ),
            EventView::MountTable { canonical, table, failure } => Some(
                detected_of(target, verdict(lines_of(table), canonical), failure),
            ),
            _ => None,
        },
        Phase::Configuring => match event {
            EventView::ConfigText { text } => Some(
                configured_of(target, remote_of(document_strings(text))),
            ),
            EventView::ConfigUnreadable { error } => Some(
                (
                    Phase::Done,
                    ActionView::Panic {
                        message: caused_text(config_unreadable_text(target), error),
                    },
                ),
            ),
            _ => None,
        },
        Phase::Mounting => match event {
            EventView::Exited { code } => Some((Phase::Done, finished_of(code))),
            EventView::NotStarted { error } => Some(
                (Phase::Done, ActionView::Panic { message: caused_text(MOUNT_NOT_RUN@, error) }),
            ),
            _ => None,
        },
        Phase::Unmounting => match event {
            EventView::Exited { code } => Some((Phase::Done, finished_of(code))),
            EventView::NotStarted { error } => Some(
                (Phase::Done, ActionView::Panic { message: caused_text(UNMOUNT_NOT_RUN@, error) }),
            ),
            _ => None,
        },
        Phase::Done => None,
    }
}

/// One step of a run: the run after `event`, and what it asks for then.
pub open spec fn step_of(run: SwitchView, event: EventView) -> Option<(SwitchView, ActionView)> {
    match decide(run.phase, run.target, event) {
        Some((phase, action)) => Some((SwitchView { target: run.target, phase }, action)),
        None => None,
    }
}

/// How a run begins: with the target that `argument` names, or
/// [`DEFAULT_TARGET`], and a probe of the mount program.
pub open spec fn start_of(argument: Option<Seq<char>>) -> (SwitchView, ActionView) {
    (
        SwitchView {
            target: match argument {
                Some(target) => target,
                None => DEFAULT_TARGET@,
            },
            phase: Phase::ProbingMount,
        },
        ActionView::Probe { program: MOUNT_PROGRAM@ },
    )
}

/// An optional text as plain values.
pub open spec fn text_view(text: Option<String>) -> Option<Seq<char>> {
    match text {
        Some(text) => Some(text@),
        None => None,
    }
}

/// An optional action as plain values.
pub open spec fn action_view(action: Option<Action>) -> Option<ActionView> {
    match action {
        Some(action) => Some(action@),
        None => None,
    }
}

/// The outcome of a step as plain values.
pub open spec fn step_view(outcome: Option<(Switch, Action)>) -> Option<(SwitchView, ActionView)> {
    match outcome {
        Some((run, action)) => Some((run@, action@)),
        None => None,
    }
}

/// Judges the answer to a probe of `cmd_str`: the action that ends the run
/// if the program is missing or could not be started, and `None` for any
/// other answer.
pub fn assert_cmd_exists(cmd_str: &str, event: Event) -> (r: Option<Action>)
    ensures
        action_view(r) == probe_failure_of(cmd_str@, event@),
{
    match event {
        Event::CommandNotFound => Some(
            Action::Exit { status: MISSING_COMMAND_STATUS, error: Some(not_found(cmd_str)) },
        ),
        Event::CommandFailed { error } => Some(
            Action::Exit {
                status: MISSING_COMMAND_STATUS,
                error: Some(probe_failed(cmd_str, error.as_str())),
            },
        ),
        _ => None,
    }
}

/// Decides what follows the scan of the mount table for `target`: `found`
/// is what the scan of the lines that were read reports, and `failure` the
/// error that ended the reading early, if one did.
pub fn detected(target: &str, found: Result<MountState, MtabError>, failure: Option<String>) -> (r:
    (Phase, Action))
    ensures
        r.0 == detected_of(target@, found, text_view(failure)).0,
        r.1@ == detected_of(target@, found, text_view(failure)).1,
{
    match found {
        Err(_) => (Phase::Done, Action::Panic { message: MTAB_MALFORMED.to_owned() }),
        Ok(state) => match switch_mode(state) {
            SwitchMode::Unmount => (Phase::Unmounting, Action::Run { command: unmount(target) }),
            SwitchMode::Mount => match failure {
                Some(error) => (
                    Phase::Done,
                    Action::Panic { message: caused(MTAB_NOT_READ.to_owned(), error.as_str()) },
                ),
                None => (
                    Phase::Configuring,
                    Action::ReadConfig {
                        directory: target.to_owned(),
                        file_name: CONF_FILE_NAME.to_owned(),
                    },
                ),
            },
        },
    }
}

/// Decides what follows the reading of the configuration of `target`.
pub fn configured(target: &str, parsed: Result<Config, ConfigError>) -> (r: (Phase, Action))
    ensures
        r.0 == configured_of(target@, outcome_view(parsed)).0,
        r.1@ == configured_of(target@, outcome_view(parsed)).1,
{
    match parsed {
        Ok(config) => (
            Phase::Mounting,
            Action::Run { command: mount(config.remote.as_str(), target) },
        ),
        Err(error) => {
            let why = reason(error);
            (Phase::Done, Action::Panic { message: caused(config_invalid(target), why.as_str()) })
        },
    }
}

/// Decides how the run ends once its command has ended with `code`.
pub fn finished(code: Option<i32>) -> (r: Action)
    ensures
        r@ == finished_of(code),
{
    match code {
        Some(status) => Action::Exit { status, error: None },
        None => Action::Panic { message: NO_EXIT_STATUS.to_owned() },
    }
}

impl Switch {
    /// Begins a run on the directory that `argument` names, or on
    /// [`DEFAULT_TARGET`].
    pub fn start(argument: Option<String>) -> (r: (Switch, Action))
        ensures
            r.0@ == start_of(text_view(argument)).0,
            r.1@ == start_of(text_view(argument)).1,
    {
        let target = match argument {
            Some(target) => target,
            None => DEFAULT_TARGET.to_owned(),
        };
        (
            Switch { target, phase: Phase::ProbingMount },
            Action::Probe { program: MOUNT_PROGRAM.to_owned() },
        )
    }

    /// Takes the answer to what the run asked for last, and says what it
    /// asks for next; `None` if `event` is no answer to that.
    pub fn step(self, event: Event) -> (r: Option<(Switch, Action)>)
        ensures
            step_view(r) == step_of(self@, event@),
    {
        let Switch { target, phase } = self;
        let decided: Option<(Phase, Action)> = match phase {
            Phase::ProbingMount => match event {
                Event::CommandFound => Some(
                    (Phase::ProbingUnmount, Action::Probe { program: UNMOUNT_PROGRAM.to_owned() }),
                ),
                other => match assert_cmd_exists(MOUNT_PROGRAM, other) {
                    Some(action) => Some((Phase::Done, action)),
                    None => None,
                },
            },
            Phase::ProbingUnmount => match event {
                Event::CommandFound => Some(
                    (
                        Phase::Detecting,
                        Action::ReadMountTable {
                            path: MTAB_PATH.to_owned(),
                            target: target.clone(),
                        },
                    ),
                ),
                other => match assert_cmd_exists(UNMOUNT_PROGRAM, other) {
                    Some(action) => Some((Phase::Done, action)),
                    None => None,
                },
            },
            Phase::Detecting => match event {
                Event::TargetUnresolved { error } => Some(
                    (
                        Phase::Done,
                        Action::Panic {
                            message: caused(INVALID_MOUNTPOINT.to_owned(), error.as_str()),
                        },
                    ),
                ),
                Event::MountTableNotOpened { error } => Some(
                    (
                        Phase::Done,
                        Action::Panic {
                            message: caused(MTAB_NOT_OPENED.to_owned(), error.as_str()),
                        },
                    ),
                ),
                Event::MountTable { canonical, table, failure } => Some(
                    detected(
                        target.as_str(),
                        detect_mode(table.as_str(), canonical.as_str()),
                        failure,
                    ),
                ),
                _ => None,
            },
            Phase::Configuring => match event {
                Event::ConfigText { text } => Some(
                    configured(target.as_str(), parse_config(text.as_str())),
                ),
                Event::ConfigUnreadable { error } => Some(
                    (
                        Phase::Done,
                        Action::Panic {
                            message: caused(config_unreadable(target.as_str()), error.as_str()),
                        },
                    ),
                ),
                _ => None,
            },
            Phase::Mounting => match event {
                Event::Exited { code } => Some((Phase::Done, finished(code))),
                Event::NotStarted { error } => Some(
                    (
                        Phase::Done,
                        Action::Panic { message: caused(MOUNT_NOT_RUN.to_owned(), error.as_str()) },
                    ),
                ),
                _ => None,
            },
            Phase::Unmounting => match event {
                Event::Exited { code } => Some((Phase::Done, finished(code))),
                Event::NotStarted { error } => Some(
                    (
                        Phase::Done,
                        Action::Panic {
                            message: caused(UNMOUNT_NOT_RUN.to_owned(), error.as_str()),
                        },
                    ),
                ),
                _ => None,
            },
            Phase::Done => None,
        };
        match decided {
            Some((phase, action)) => Some((Switch { target, phase }, action)),
            None => None,
        }
    }
}

/// What a run in state `run` asks for as `events` come in, one action for
/// each event; it asks no more after an event that is no answer, or once it
/// is over.
pub open spec fn actions_of(run: SwitchView, events: Seq<EventView>) -> Seq<ActionView>
    decreases events.len(),
{
    if events.len() == 0 {
        Seq::<ActionView>::empty()
    } else {
        match step_of(run, events[0]) {
            None => Seq::<ActionView>::empty(),
            Some((next, action)) => seq![action] + actions_of(next, events.drop_first()),
        }
    }
}

/// All that a run on `argument` asks for, from its first probe on.
pub open spec fn run_of(argument: Option<Seq<char>>, events: Seq<EventView>) -> Seq<ActionView> {
    seq![start_of(argument).1] + actions_of(start_of(argument).0, events)
}

/// Whether `action` reads the mount table or the configuration, or runs a
/// command.
pub open spec fn touches_system(action: ActionView) -> bool {
    action is ReadMountTable || action is ReadConfig || action is Run
}

/// The exit status that `action` ends the process with, if it ends it.
pub open spec fn final_status(action: ActionView) -> Option<i32> {
    match action {
        ActionView::Exit { status, .. } => Some(status),
        ActionView::Panic { .. } => Some(PANIC_STATUS),
        _ => None,
    }
}

/// How many more actions a run in `phase` can ask for, at most.
pub open spec fn actions_left(phase: Phase) -> nat {
    match phase {
        Phase::ProbingMount => 5,
        Phase::ProbingUnmount => 4,
        Phase::Detecting => 3,
        Phase::Configuring => 2,
        Phase::Mounting => 1,
        Phase::Unmounting => 1,
        Phase::Done => 0,
    }
}

/// Every step brings a run nearer to its end, a command is run only on the
/// way into `Mounting` or `Unmounting`, and the step that ends the run is
/// the one whose action ends the process.
pub proof fn lemma_step_advances(run: SwitchView, event: EventView)
    requires
        step_of(run, event) is Some,
    ensures
        actions_left((step_of(run, event)->0).0.phase) < actions_left(run.phase),
        (step_of(run, event)->0).1 is Run <==> actions_left((step_of(run, event)->0).0.phase) == 1,
        final_status((step_of(run, event)->0).1) is Some <==> (step_of(run, event)->0).0.phase
            == Phase::Done,
{
}

/// A run asks for no more than [`actions_left`] says, and for at most one
/// command among that.
pub proof fn lemma_actions_are_bounded(run: SwitchView, events: Seq<EventView>)
    ensures
        actions_of(run, events).len() <= actions_left(run.phase),
        forall|i: int, j: int|
            0 <= i < j < actions_of(run, events).len() ==> !(actions_of(run, events)[i] is Run
                && actions_of(run, events)[j] is Run),
        actions_left(run.phase) <= 1 ==> forall|i: int|
            0 <= i < actions_of(run, events).len() ==> !(actions_of(run, events)[i] is Run),
    decreases events.len(),
{
    if events.len() > 0 && step_of(run, events[0]) is Some {
        let next = (step_of(run, events[0])->0).0;
        let later = actions_of(next, events.drop_first());
        lemma_step_advances(run, events[0]);
        lemma_actions_are_bounded(next, events.drop_first());
        assert forall|i: int, j: int| 0 <= i < j < actions_of(run, events).len() implies !(
            actions_of(run, events)[i] is Run && actions_of(run, events)[j] is Run) by {
            assert(actions_of(run, events)[j] == later[j - 1]);
        }
    }
}

/// A whole run asks for six actions at most, and runs at most one command.
pub proof fn lemma_one_command_per_run(argument: Option<Seq<char>>, events: Seq<EventView>)
    ensures
        run_of(argument, events).len() <= 6,
        forall|i: int, j: int|
            0 <= i < j < run_of(argument, events).len() ==> !(run_of(argument, events)[i] is Run
                && run_of(argument, events)[j] is Run),
{
    let later = actions_of(start_of(argument).0, events);
    lemma_actions_are_bounded(start_of(argument).0, events);
    assert forall|i: int, j: int| 0 <= i < j < run_of(argument, events).len() implies !(run_of(
        argument,
        events,
    )[i] is Run && run_of(argument, events)[j] is Run) by {
        assert(run_of(argument, events)[j] == later[j - 1]);
    }
}

/// The two probes come before anything else: a run that reads the mount
/// table or the configuration, or runs a command, has asked for both probes
/// first, in order, and both programs were found.
pub proof fn lemma_probes_come_first(argument: Option<Seq<char>>, events: Seq<EventView>, k: int)
    requires
        0 <= k < run_of(argument, events).len(),
        touches_system(run_of(argument, events)[k]),
    ensures
        k >= 2,
        events.len() >= 2,
        events[0] is CommandFound,
        events[1] is CommandFound,
        run_of(argument, events)[0] == (ActionView::Probe { program: MOUNT_PROGRAM@ }),
        run_of(argument, events)[1] == (ActionView::Probe { program: UNMOUNT_PROGRAM@ }),
{
    reveal_with_fuel(actions_of, 3);
}

/// A missing program ends the run at once: if the first probe, or the second
/// after a first that found its program, is answered with
/// `CommandNotFound`, the run has asked for nothing but probes, and ends with
/// [`MISSING_COMMAND_STATUS`] and the report that names the program.
pub proof fn lemma_missing_command_ends_run(
    argument: Option<Seq<char>>,
    events: Seq<EventView>,
    i: int,
)
    requires
        0 <= i < events.len(),
        i < 2,
        forall|j: int| 0 <= j < i ==> events[j] is CommandFound,
        events[i] is CommandNotFound,
    ensures
        run_of(argument, events).len() == i + 2,
        forall|k: int| 0 <= k <= i ==> run_of(argument, events)[k] is Probe,
        run_of(argument, events)[i + 1] == (ActionView::Exit {
            status: MISSING_COMMAND_STATUS,
            error: Some(
                not_found_text(
                    if i == 0 {
                        MOUNT_PROGRAM@
                    } else {
                        UNMOUNT_PROGRAM@
                    },
                ),
            ),
        }),
        final_status(run_of(argument, events)[i + 1]) == Some(1i32),
{
    reveal_with_fuel(actions_of, 3);
}

/// A configuration file that is absent when the target is not mounted ends
/// the run by a panic, so with a status that is not zero, and with a message
/// that names both the configuration file and the target directory.
pub proof fn lemma_absent_config_is_reported(target: Seq<char>, error: Seq<char>)
    ensures
        step_of(
            SwitchView { target, phase: Phase::Configuring },
            EventView::ConfigUnreadable { error },
        ) == Some(
            (
                SwitchView { target, phase: Phase::Done },
                ActionView::Panic { message: caused_text(config_unreadable_text(target), error) },
            ),
        ),
        contains_text(caused_text(config_unreadable_text(target), error), CONF_FILE_NAME@),
        contains_text(caused_text(config_unreadable_text(target), error), target),
        final_status(
            ActionView::Panic { message: caused_text(config_unreadable_text(target), error) },
        ) is Some,
        final_status(
            ActionView::Panic { message: caused_text(config_unreadable_text(target), error) },
        )->0 != 0,
{
    lemma_config_unreadable_names_both(target);
    lemma_caused_keeps_text(config_unreadable_text(target), error, CONF_FILE_NAME@);
    lemma_caused_keeps_text(config_unreadable_text(target), error, target);
}

/// A configuration text that is no TOML document, or that names no remote,
/// ends the run by a panic, so with a status that is not zero, and with a
/// message that names both the configuration file and the target directory.
pub proof fn lemma_invalid_config_is_reported(target: Seq<char>, text: Seq<char>)
    requires
        remote_of(document_strings(text)) is Err,
    ensures
        step_of(SwitchView { target, phase: Phase::Configuring }, EventView::ConfigText { text })
            matches Some((next, ActionView::Panic { message })) && next.phase == Phase::Done
            && contains_text(message, CONF_FILE_NAME@) && contains_text(message, target)
            && final_status(ActionView::Panic { message }) is Some && final_status(
            ActionView::Panic { message },
        )->0 != 0,
{
    let why = reason_text(remote_of(document_strings(text))->Err_0);
    lemma_config_invalid_names_both(target);
    lemma_caused_keeps_text(config_invalid_text(target), why, CONF_FILE_NAME@);
    lemma_caused_keeps_text(config_invalid_text(target), why, target);
}

/// The exit status of the command is the exit status of the run: whatever
/// status the mount or unmount command ends with, the run ends with the
/// same, and says nothing.
pub proof fn lemma_exit_status_passes_through(target: Seq<char>, phase: Phase, status: i32)
    requires
        phase == Phase::Mounting || phase == Phase::Unmounting,
    ensures
        step_of(SwitchView { target, phase }, EventView::Exited { code: Some(status) }) == Some(
            (
                SwitchView { target, phase: Phase::Done },
                ActionView::Exit { status, error: None },
            ),
        ),
        final_status(ActionView::Exit { status, error: None }) == Some(status),
{
}

} // verus!

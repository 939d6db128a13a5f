//! The course of a run, as a state machine.
//!
//! The machine decides; the caller acts. [`Monitor::launch`] reads the
//! command line and hands out the first actions. The caller performs them
//! in order and reports what came of the last one as an [`Event`];
//! [`Monitor::step`] answers with the next actions. After a successful
//! start the machine polls for ever: it asks for the count, logs what came
//! back, pauses, and asks again.

use vstd::prelude::*;
use vstd::string::*;
use crate::args::{parse_args, usage, usage_text, words, COMMAND_LINE_WORDS, USAGE_STATUS};
use crate::clock::{Moment, Timestamp};
use crate::logline::{file_name_text, log_file_name};
use crate::query::{
    count_of,
    count_query,
    count_query_text,
    keyspace_name,
    keyspace_text,
    row_count,
    QueryResult,
    Rows,
};
use crate::report::{
    connection_refused_text,
    failure_message,
    failure_text,
    fatal_message,
    fatal_text,
    keyspace_refused_text,
    log_file_notice,
    log_file_notice_text,
    log_refused_text,
    starting_message,
    starting_text,
    success_message,
    success_text,
};

verus! {

/// The seconds between two polls.
pub const PAUSE_SECONDS: u64 = 5;

/// Where a run stands.
#[derive(Clone, Copy, Debug, PartialEq, Eq, Structural)]
pub enum Phase {
    /// The log file is being opened.
    OpeningLog,
    /// The session is being made.
    Connecting,
    /// The keyspace is being selected.
    SelectingKeyspace,
    /// Polling: the query is under way.
    Querying,
    /// Polling: the pause between two queries is under way.
    Pausing,
    /// The start failed; the run is over.
    Failed,
}

impl Phase {
    /// Whether the run has reached its steady state.
    pub open spec fn polling(self) -> bool {
        self == Phase::Querying || self == Phase::Pausing
    }

    /// Whether the run has reached its steady state.
    pub fn is_polling(&self) -> (polling: bool)
        ensures
            polling == self.polling(),
    {
        match self {
            Phase::Querying => true,
            Phase::Pausing => true,
            _ => false,
        }
    }
}

/// What came of the action that the caller performed last. A refusal
/// carries the reason, as the caller would print it.
#[derive(Clone, Debug, PartialEq, Eq)]
pub enum Event {
    /// The log file is open.
    LogOpened,
    /// The log file could not be opened.
    LogRefused(String),
    /// The session is made.
    Connected,
    /// No session could be made.
    ConnectionRefused(String),
    /// The keyspace is selected.
    KeyspaceSelected,
    /// The keyspace could not be selected.
    KeyspaceRefused(String),
    /// The query was answered.
    QueryAnswered(QueryResult),
    /// The query failed; the text describes the error.
    QueryFailed(String),
    /// The pause is over.
    PauseOver,
}

/// An [`Event`] as a mathematical value.
pub enum EventView {
    LogOpened,
    LogRefused(Seq<char>),
    Connected,
    ConnectionRefused(Seq<char>),
    KeyspaceSelected,
    KeyspaceRefused(Seq<char>),
    QueryAnswered(Rows),
    QueryFailed(Seq<char>),
    PauseOver,
}

impl View for Event {
    type V = EventView;

    open spec fn view(&self) -> EventView {
        match *self {
            Event::LogOpened => EventView::LogOpened,
            Event::LogRefused(reason) => EventView::LogRefused(reason@),
            Event::Connected => EventView::Connected,
            Event::ConnectionRefused(reason) => EventView::ConnectionRefused(reason@),
            Event::KeyspaceSelected => EventView::KeyspaceSelected,
            Event::KeyspaceRefused(reason) => EventView::KeyspaceRefused(reason@),
            Event::QueryAnswered(result) => EventView::QueryAnswered(result@),
            Event::QueryFailed(description) => EventView::QueryFailed(description@),
            Event::PauseOver => EventView::PauseOver,
        }
    }
}

/// What the caller is to do next.
#[derive(Clone, Debug, PartialEq, Eq)]
pub enum Action {
    /// Open the file of this name for appending, creating it if need be.
    OpenLog(String),
    /// Stamp this message with the time and write the line to standard
    /// output and to the log file.
    Log(String),
    /// Make a session with the database.
    Connect { contact_point: String, username: String, password: String },
    /// Select this keyspace; `case_sensitive` says whether its name is to
    /// be taken letter for letter.
    UseKeyspace { name: String, case_sensitive: bool },
    /// Send this query, without values.
    Query(String),
    /// Wait this many seconds.
    Pause(u64),
    /// End the run at once with this diagnostic.
    Abort(String),
}

/// An [`Action`] as a mathematical value.
pub enum ActionView {
    OpenLog(Seq<char>),
    Log(Seq<char>),
    Connect { contact_point: Seq<char>, username: Seq<char>, password: Seq<char> },
    UseKeyspace { name: Seq<char>, case_sensitive: bool },
    Query(Seq<char>),
    Pause(u64),
    Abort(Seq<char>),
}

impl View for Action {
    type V = ActionView;

    open spec fn view(&self) -> ActionView {
        match *self {
            Action::OpenLog(name) => ActionView::OpenLog(name@),
            Action::Log(message) => ActionView::Log(message@),
            Action::Connect { contact_point, username, password } => ActionView::Connect {
                contact_point: contact_point@,
                username: username@,
                password: password@,
            },
            Action::UseKeyspace { name, case_sensitive } => ActionView::UseKeyspace {
                name: name@,
                case_sensitive,
            },
            Action::Query(query) => ActionView::Query(query@),
            Action::Pause(seconds) => ActionView::Pause(seconds),
            Action::Abort(diagnostic) => ActionView::Abort(diagnostic@),
        }
    }
}

/// A list of actions as mathematical values.
pub open spec fn action_views(actions: Seq<Action>) -> Seq<ActionView> {
    actions.map_values(|action: Action| action@)
}

/// A [`Monitor`] as a mathematical value.
pub struct MonitorView {
    pub phase: Phase,
    pub contact_point: Seq<char>,
    pub username: Seq<char>,
    pub password: Seq<char>,
    pub log_name: Seq<char>,
}

impl MonitorView {
    /// This state in another phase.
    pub open spec fn at(self, phase: Phase) -> MonitorView {
        MonitorView { phase, ..self }
    }
}

/// The state in which a run with this command line starts at `started_at`.
pub open spec fn started(args: Seq<Seq<char>>, started_at: Moment) -> MonitorView
    recommends
        args.len() == COMMAND_LINE_WORDS,
{
    MonitorView {
        phase: Phase::OpeningLog,
        contact_point: args[1],
        username: args[2],
        password: args[3],
        log_name: file_name_text(started_at),
    }
}

/// The actions with which a run starts: the log file is opened.
pub open spec fn first_actions(started_at: Moment) -> Seq<ActionView> {
    seq![ActionView::OpenLog(file_name_text(started_at))]
}

/// The state after `event`, and the actions that answer it.
///
/// An event that cannot come in the present phase changes nothing and is
/// answered by no action.
pub open spec fn next(m: MonitorView, event: EventView) -> (MonitorView, Seq<ActionView>) {
    match (m.phase, event) {
        (Phase::OpeningLog, EventView::LogOpened) => (
            m.at(Phase::Connecting),
            seq![
                ActionView::Log(starting_text()),
                ActionView::Log(log_file_notice_text(m.log_name)),
                ActionView::Connect {
                    contact_point: m.contact_point,
                    username: m.username,
                    password: m.password,
                },
            ],
        ),
        (Phase::OpeningLog, EventView::LogRefused(reason)) => (
            m.at(Phase::Failed),
            seq![ActionView::Abort(fatal_text(log_refused_text(), reason))],
        ),
        (Phase::Connecting, EventView::Connected) => (
            m.at(Phase::SelectingKeyspace),
            seq![ActionView::UseKeyspace { name: keyspace_text(), case_sensitive: false }],
        ),
        (Phase::Connecting, EventView::ConnectionRefused(reason)) => (
            m.at(Phase::Failed),
            seq![ActionView::Abort(fatal_text(connection_refused_text(), reason))],
        ),
        (Phase::SelectingKeyspace, EventView::KeyspaceSelected) => (
            m.at(Phase::Querying),
            seq![ActionView::Query(count_query_text())],
        ),
        (Phase::SelectingKeyspace, EventView::KeyspaceRefused(reason)) => (
            m.at(Phase::Failed),
            seq![ActionView::Abort(fatal_text(keyspace_refused_text(), reason))],
        ),
        (Phase::Querying, EventView::QueryAnswered(rows)) => (
            m.at(Phase::Pausing),
            seq![ActionView::Log(success_text(count_of(rows))), ActionView::Pause(PAUSE_SECONDS)],
        ),
        (Phase::Querying, EventView::QueryFailed(description)) => (
            m.at(Phase::Pausing),
            seq![ActionView::Log(failure_text(description)), ActionView::Pause(PAUSE_SECONDS)],
        ),
        (Phase::Pausing, EventView::PauseOver) => (
            m.at(Phase::Querying),
            seq![ActionView::Query(count_query_text())],
        ),
        _ => (m, Seq::empty()),
    }
}

/// Why a command line was turned down: what to write to the error stream,
/// and the status to leave with.
#[derive(Clone, Debug, PartialEq, Eq)]
pub struct Rejection {
    pub message: String,
    pub status: i32,
}

/// The state of a run.
#[derive(Clone, Debug, PartialEq, Eq)]
pub struct Monitor {
    phase: Phase,
    contact_point: String,
    username: String,
    password: String,
    log_name: String,
}

impl View for Monitor {
    type V = MonitorView;

    closed spec fn view(&self) -> MonitorView {
        MonitorView {
            phase: self.phase,
            contact_point: self.contact_point@,
            username: self.username@,
            password: self.password@,
            log_name: self.log_name@,
        }
    }
}

impl Monitor {
    /// Starts a run at the moment `started_at`, from the command line with
    /// the program's name first.
    ///
    /// With three arguments the run starts by opening the log file that is
    /// named after `started_at`. With any other number there is no run: the
    /// caller is to write the usage message to the error stream and leave
    /// with status 1.
    pub fn launch_at(args: &Vec<String>, started_at: &Timestamp) -> (launched: Result<
        (Monitor, Vec<Action>),
        Rejection,
    >)
        ensures
            launched is Ok <==> args@.len() == COMMAND_LINE_WORDS,
            launched matches Ok(run) ==> {
                &&& run.0@ == started(words(args@), started_at@)
                &&& action_views(run.1@) == first_actions(started_at@)
                &&& run.1@.len() == 1
                &&& run.1@[0]@ == first_actions(started_at@)[0]
            },
            launched matches Err(rejection) ==> {
                &&& rejection.message@ == usage_text()
                &&& rejection.status == USAGE_STATUS
            },
    {
        match parse_args(args) {
            Some(config) => {
                let log_name = log_file_name(started_at);
                let mut actions: Vec<Action> = Vec::new();
                actions.push(Action::OpenLog(log_name.clone()));
                let monitor = Monitor {
                    phase: Phase::OpeningLog,
                    contact_point: config.contact_point,
                    username: config.username,
                    password: config.password,
                    log_name,
                };
                assert(action_views(actions@) =~= first_actions(started_at@));
                Ok((monitor, actions))
            },
            None => Err(Rejection { message: usage(), status: USAGE_STATUS }),
        }
    }

    /// Starts a run now, from the command line with the program's name
    /// first. The clock is read only when the command line is accepted.
    ///
    /// Which moment the clock shows is not known in advance; the run is the
    /// one that [`Monitor::launch_at`] starts at that moment.
    pub fn launch(args: &Vec<String>) -> (launched: Result<(Monitor, Vec<Action>), Rejection>)
        ensures
            launched is Ok <==> args@.len() == COMMAND_LINE_WORDS,
            launched matches Ok(run) ==> exists|started_at: Moment|
                {
                    &&& started_at.valid()
                    &&& run.0@ == started(words(args@), started_at)
                    &&& action_views(run.1@) == first_actions(started_at)
                },
            launched matches Err(rejection) ==> {
                &&& rejection.message@ == usage_text()
                &&& rejection.status == USAGE_STATUS
            },
    {
        if args.len() != COMMAND_LINE_WORDS {
            return Err(Rejection { message: usage(), status: USAGE_STATUS });
        }
        let now = Timestamp::now();
        let launched = Monitor::launch_at(args, &now);
        assert(launched matches Ok(run) ==> now@.valid() && run.0@ == started(
            words(args@),
            now@,
        ) && action_views(run.1@) == first_actions(now@));
        launched
    }

    /// Where the run stands.
    pub fn phase(&self) -> (phase: Phase)
        ensures
            phase == self@.phase,
    {
        self.phase
    }

    /// The name of the run's log file.
    pub fn log_name(&self) -> (name: &str)
        ensures
            name@ == self@.log_name,
    {
        self.log_name.as_str()
    }

    /// Takes in what came of the last action and hands out the next ones.
    pub fn step(&mut self, event: Event) -> (actions: Vec<Action>)
        ensures
            final(self)@ == next(old(self)@, event@).0,
            action_views(actions@) == next(old(self)@, event@).1,
            actions@.len() == next(old(self)@, event@).1.len(),
            forall|i: int|
                0 <= i < actions@.len() ==> (#[trigger] actions@[i])@ == next(
                    old(self)@,
                    event@,
                ).1[i],
    {
        let mut actions: Vec<Action> = Vec::new();
        match self.phase {
            Phase::OpeningLog => match event {
                Event::LogOpened => {
                    actions.push(Action::Log(starting_message()));
                    actions.push(Action::Log(log_file_notice(self.log_name.as_str())));
                    actions.push(
                        Action::Connect {
                            contact_point: self.contact_point.clone(),
                            username: self.username.clone(),
                            password: self.password.clone(),
                        },
                    );
                    self.phase = Phase::Connecting;
                },
                Event::LogRefused(reason) => {
                    actions.push(
                        Action::Abort(fatal_message("Cannot open log file", reason.as_str())),
                    );
                    self.phase = Phase::Failed;
                },
                _ => {},
            },
            Phase::Connecting => match event {
                Event::Connected => {
                    actions.push(
                        Action::UseKeyspace {
                            name: String::from_str(keyspace_name()),
                            case_sensitive: false,
                        },
                    );
                    self.phase = Phase::SelectingKeyspace;
                },
                Event::ConnectionRefused(reason) => {
                    actions.push(
                        Action::Abort(
                            fatal_message("Failed to connect to ScyllaDB", reason.as_str()),
                        ),
                    );
                    self.phase = Phase::Failed;
                },
                _ => {},
            },
            Phase::SelectingKeyspace => match event {
                Event::KeyspaceSelected => {
                    actions.push(Action::Query(count_query()));
                    self.phase = Phase::Querying;
                },
                Event::KeyspaceRefused(reason) => {
                    actions.push(
                        Action::Abort(fatal_message("Failed to set keyspace", reason.as_str())),
                    );
                    self.phase = Phase::Failed;
                },
                _ => {},
            },
            Phase::Querying => match event {
                Event::QueryAnswered(result) => {
                    actions.push(Action::Log(success_message(row_count(&result))));
                    actions.push(Action::Pause(PAUSE_SECONDS));
                    self.phase = Phase::Pausing;
                },
                Event::QueryFailed(description) => {
                    actions.push(Action::Log(failure_message(description.as_str())));
                    actions.push(Action::Pause(PAUSE_SECONDS));
                    self.phase = Phase::Pausing;
                },
                _ => {},
            },
            Phase::Pausing => match event {
                Event::PauseOver => {
                    actions.push(Action::Query(count_query()));
                    self.phase = Phase::Querying;
                },
                _ => {},
            },
            Phase::Failed => {},
        }
        assert(action_views(actions@) =~= next(old(self)@, event@).1);
        actions
    }
}

} // verus!

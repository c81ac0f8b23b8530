use crate::error::{ControllerError, ControllerErrorView};
use vstd::prelude::*;

verus! {

/// What a caller can ask of the controller.
#[derive(Debug, PartialEq, Eq)]
pub enum Request {
    /// Open the session's connection to the system bus.
    Connect,
    /// Read the active state of a unit.
    ActiveState { unit: String },
    /// Read the units that a unit is part of.
    PartOf { unit: String },
    /// Start a unit through the service manager.
    Start { unit: String, mode: String },
    /// Stop a unit through the service manager.
    Stop { unit: String, mode: String },
    /// Restart a unit through the service manager.
    Restart { unit: String, mode: String },
    /// Start a service and watch its active state until a wait of
    /// `wait_secs` seconds passes without a change, or the changes end.
    StartAndWait { service: String, mode: String, wait_secs: u64 },
    /// Reboot the machine.
    Reboot { interactive: bool },
    /// Power the machine off.
    PowerOff { interactive: bool },
}

/// A `Request` as a mathematical value.
pub enum RequestView {
    Connect,
    ActiveState { unit: Seq<char> },
    PartOf { unit: Seq<char> },
    Start { unit: Seq<char>, mode: Seq<char> },
    Stop { unit: Seq<char>, mode: Seq<char> },
    Restart { unit: Seq<char>, mode: Seq<char> },
    StartAndWait { service: Seq<char>, mode: Seq<char>, wait_secs: u64 },
    Reboot { interactive: bool },
    PowerOff { interactive: bool },
}

impl View for Request {
    type V = RequestView;

    open spec fn view(&self) -> RequestView {
        match self {
            Request::Connect => RequestView::Connect,
            Request::ActiveState { unit } => RequestView::ActiveState { unit: unit@ },
            Request::PartOf { unit } => RequestView::PartOf { unit: unit@ },
            Request::Start { unit, mode } => RequestView::Start { unit: unit@, mode: mode@ },
            Request::Stop { unit, mode } => RequestView::Stop { unit: unit@, mode: mode@ },
            Request::Restart { unit, mode } => RequestView::Restart { unit: unit@, mode: mode@ },
            Request::StartAndWait { service, mode, wait_secs } => RequestView::StartAndWait {
                service: service@,
                mode: mode@,
                wait_secs: *wait_secs,
            },
            Request::Reboot { interactive } => RequestView::Reboot { interactive: *interactive },
            Request::PowerOff { interactive } => RequestView::PowerOff {
                interactive: *interactive,
            },
        }
    }
}

/// What a start-and-wait hands back: the last active state that was seen,
/// the status of the service's main process, and the unit's sub state.
#[derive(Debug, PartialEq, Eq)]
pub struct WaitOutcome {
    pub active_state: String,
    pub exec_main_status: i32,
    pub sub_state: String,
}

/// A `WaitOutcome` as a mathematical value.
pub struct WaitOutcomeView {
    pub active_state: Seq<char>,
    pub exec_main_status: i32,
    pub sub_state: Seq<char>,
}

impl View for WaitOutcome {
    type V = WaitOutcomeView;

    open spec fn view(&self) -> WaitOutcomeView {
        WaitOutcomeView {
            active_state: self.active_state@,
            exec_main_status: self.exec_main_status,
            sub_state: self.sub_state@,
        }
    }
}

/// The value with which an operation succeeds.
#[derive(Debug, PartialEq, Eq)]
pub enum Reply {
    /// The session is connected.
    Connected,
    /// The call returned; there is nothing to hand back.
    Done,
    /// A text, such as an active state.
    Text(String),
    /// A list of names, in the order in which the bus gave them.
    List(Vec<String>),
    /// The outcome of a start-and-wait.
    Outcome(WaitOutcome),
}

/// A `Reply` as a mathematical value.
pub enum ReplyView {
    Connected,
    Done,
    Text(Seq<char>),
    List(Seq<Seq<char>>),
    Outcome(WaitOutcomeView),
}

impl View for Reply {
    type V = ReplyView;

    open spec fn view(&self) -> ReplyView {
        match self {
            Reply::Connected => ReplyView::Connected,
            Reply::Done => ReplyView::Done,
            Reply::Text(text) => ReplyView::Text(text@),
            Reply::List(names) => ReplyView::List(names.deep_view()),
            Reply::Outcome(outcome) => ReplyView::Outcome(outcome@),
        }
    }
}

/// What the driver of an operation does next: one call on the bus, one
/// bounded wait, or the delivery of the result.
#[derive(Debug, PartialEq, Eq)]
pub enum Action {
    /// Connect to the system bus.
    Connect,
    /// Open the proxy of the service manager.
    OpenManager,
    /// Open the proxy of the login manager.
    OpenLoginManager,
    /// Open the unit proxy at the given object path.
    OpenUnit { path: String },
    /// Open the service proxy at the given object path.
    OpenService { path: String },
    /// Ask the service manager for a unit by name, and keep its proxy.
    GetUnit { name: String },
    /// Have the service manager start a unit.
    StartUnit { name: String, mode: String },
    /// Have the service manager stop a unit.
    StopUnit { name: String, mode: String },
    /// Have the service manager restart a unit.
    RestartUnit { name: String, mode: String },
    /// Read the unit's active state.
    ReadActiveState,
    /// Read the units that the unit is part of.
    ReadPartOf,
    /// Read the unit's sub state.
    ReadSubState,
    /// Read the status of the service's main process.
    ReadExecMainStatus,
    /// Subscribe to the changes of the unit's active state.
    Subscribe,
    /// Start the unit through its own proxy.
    StartSelf { mode: String },
    /// Wait for the next change of the active state, for at most
    /// `timeout_secs` seconds.
    AwaitChange { timeout_secs: u64 },
    /// Have the login manager reboot the machine.
    Reboot { interactive: bool },
    /// Have the login manager power the machine off.
    PowerOff { interactive: bool },
    /// Hand the result to the caller: the operation is over.
    Resolve(Result<Reply, ControllerError>),
}

/// An `Action` as a mathematical value.
pub enum ActionView {
    Connect,
    OpenManager,
    OpenLoginManager,
    OpenUnit { path: Seq<char> },
    OpenService { path: Seq<char> },
    GetUnit { name: Seq<char> },
    StartUnit { name: Seq<char>, mode: Seq<char> },
    StopUnit { name: Seq<char>, mode: Seq<char> },
    RestartUnit { name: Seq<char>, mode: Seq<char> },
    ReadActiveState,
    ReadPartOf,
    ReadSubState,
    ReadExecMainStatus,
    Subscribe,
    StartSelf { mode: Seq<char> },
    AwaitChange { timeout_secs: u64 },
    Reboot { interactive: bool },
    PowerOff { interactive: bool },
    Resolve(Result<ReplyView, ControllerErrorView>),
}

/// The result of an operation as a mathematical value.
pub open spec fn result_view(result: Result<Reply, ControllerError>) -> Result<
    ReplyView,
    ControllerErrorView,
> {
    match result {
        Ok(reply) => Ok(reply@),
        Err(error) => Err(error@),
    }
}

impl View for Action {
    type V = ActionView;

    open spec fn view(&self) -> ActionView {
        match self {
            Action::Connect => ActionView::Connect,
            Action::OpenManager => ActionView::OpenManager,
            Action::OpenLoginManager => ActionView::OpenLoginManager,
            Action::OpenUnit { path } => ActionView::OpenUnit { path: path@ },
            Action::OpenService { path } => ActionView::OpenService { path: path@ },
            Action::GetUnit { name } => ActionView::GetUnit { name: name@ },
            Action::StartUnit { name, mode } => ActionView::StartUnit { name: name@, mode: mode@ },
            Action::StopUnit { name, mode } => ActionView::StopUnit { name: name@, mode: mode@ },
            Action::RestartUnit { name, mode } => ActionView::RestartUnit {
                name: name@,
                mode: mode@,
            },
            Action::ReadActiveState => ActionView::ReadActiveState,
            Action::ReadPartOf => ActionView::ReadPartOf,
            Action::ReadSubState => ActionView::ReadSubState,
            Action::ReadExecMainStatus => ActionView::ReadExecMainStatus,
            Action::Subscribe => ActionView::Subscribe,
            Action::StartSelf { mode } => ActionView::StartSelf { mode: mode@ },
            Action::AwaitChange { timeout_secs } => ActionView::AwaitChange {
                timeout_secs: *timeout_secs,
            },
            Action::Reboot { interactive } => ActionView::Reboot { interactive: *interactive },
            Action::PowerOff { interactive } => ActionView::PowerOff { interactive: *interactive },
            Action::Resolve(result) => ActionView::Resolve(result_view(*result)),
        }
    }
}

/// What the driver reports back once it has done what an `Action` asked.
#[derive(Debug, PartialEq, Eq)]
pub enum Event {
    /// The call returned, with nothing to report.
    Done,
    /// The call returned a text; for a wait, the active state changed to it.
    Text(String),
    /// The call returned a list of names.
    List(Vec<String>),
    /// The call returned a number.
    Number(i32),
    /// The call failed; the text is what the bus or the transport said.
    Failed(String),
    /// The wait ran out before the active state changed.
    TimedOut,
    /// The stream of changes ended.
    StreamEnded,
}

/// An `Event` as a mathematical value.
pub enum EventView {
    Done,
    Text(Seq<char>),
    List(Seq<Seq<char>>),
    Number(i32),
    Failed(Seq<char>),
    TimedOut,
    StreamEnded,
}

impl View for Event {
    type V = EventView;

    open spec fn view(&self) -> EventView {
        match self {
            Event::Done => EventView::Done,
            Event::Text(text) => EventView::Text(text@),
            Event::List(names) => EventView::List(names.deep_view()),
            Event::Number(number) => EventView::Number(*number),
            Event::Failed(text) => EventView::Failed(text@),
            Event::TimedOut => EventView::TimedOut,
            Event::StreamEnded => EventView::StreamEnded,
        }
    }
}

} // verus!

use crate::error::{
    connection_error, path_encoding_error, remote_error, service_proxy_text, start_text,
    status_text, sub_state_text, ControllerErrorView, ErrorKind,
};
use crate::protocol::{ActionView, EventView, ReplyView, RequestView, WaitOutcomeView};
use crate::unit_path::{is_object_path, unit_path};
use vstd::prelude::*;

verus! {

/// How far an operation of one or two calls has come: which answer it is
/// waiting for.
#[derive(Clone, Copy, Debug, PartialEq, Eq, Structural)]
pub enum CallStage {
    /// The manager's proxy is being opened.
    Opening,
    /// The service manager is looking the unit up.
    GettingUnit,
    /// A property of the unit is being read.
    Reading,
    /// The call that does the work is under way.
    Commanding,
}

/// How far a start-and-wait has come: which answer it is waiting for.
#[derive(Clone, Copy, Debug, PartialEq, Eq, Structural)]
pub enum WaitStage {
    /// Starting: the unit's proxy is being opened.
    OpeningUnit,
    /// Starting: the active state is being read for the first time.
    ReadingInitialState,
    /// Starting: the subscription to the changes is being set up.
    Subscribing,
    /// Starting: the start call is under way.
    Starting,
    /// Watching: a bounded wait for the next change is under way.
    Watching,
    /// Finalizing: the service's proxy is being opened.
    OpeningService,
    /// Finalizing: the status of the main process is being read.
    ReadingStatus,
    /// Finalizing: the sub state is being read.
    ReadingSubState,
}

/// What a start-and-wait knows while it runs.
pub struct WaitView {
    /// The unit's object path.
    pub path: Seq<char>,
    /// The mode that the start call is given.
    pub mode: Seq<char>,
    /// The bound of each single wait, in seconds.
    pub wait_secs: u64,
    /// The active state that was seen last.
    pub observed: Seq<char>,
    /// The status of the main process, once it has been read.
    pub status: i32,
    pub stage: WaitStage,
}

/// An operation between the request and its result.
pub enum OperationView {
    /// The connection is being set up.
    Connecting,
    /// An operation of one or two calls through a manager is under way.
    Calling { request: RequestView, stage: CallStage },
    /// A start-and-wait is under way.
    Waiting(WaitView),
    /// The result has been handed out; nothing more will happen.
    Resolved,
}

/// The step that ends an operation with the given result.
pub open spec fn resolve(result: Result<ReplyView, ControllerErrorView>) -> Option<
    (OperationView, ActionView),
> {
    Some((OperationView::Resolved, ActionView::Resolve(result)))
}

/// The step that ends an operation with an error of the given kind and text.
pub open spec fn fail(kind: ErrorKind, message: Seq<char>) -> Option<(OperationView, ActionView)> {
    resolve(Err(ControllerErrorView { kind, message }))
}

/// The call that an operation makes once its manager's proxy is open, and
/// the stage that it is then in.
pub open spec fn first_call(request: RequestView) -> Option<(CallStage, ActionView)> {
    match request {
        RequestView::ActiveState { unit } => Some(
            (CallStage::GettingUnit, ActionView::GetUnit { name: unit }),
        ),
        RequestView::PartOf { unit } => Some(
            (CallStage::GettingUnit, ActionView::GetUnit { name: unit }),
        ),
        RequestView::Start { unit, mode } => Some(
            (CallStage::Commanding, ActionView::StartUnit { name: unit, mode }),
        ),
        RequestView::Stop { unit, mode } => Some(
            (CallStage::Commanding, ActionView::StopUnit { name: unit, mode }),
        ),
        RequestView::Restart { unit, mode } => Some(
            (CallStage::Commanding, ActionView::RestartUnit { name: unit, mode }),
        ),
        RequestView::Reboot { interactive } => Some(
            (CallStage::Commanding, ActionView::Reboot { interactive }),
        ),
        RequestView::PowerOff { interactive } => Some(
            (CallStage::Commanding, ActionView::PowerOff { interactive }),
        ),
        _ => None,
    }
}

/// The read that follows the lookup of a unit.
pub open spec fn read_of(request: RequestView) -> Option<ActionView> {
    match request {
        RequestView::ActiveState { .. } => Some(ActionView::ReadActiveState),
        RequestView::PartOf { .. } => Some(ActionView::ReadPartOf),
        _ => None,
    }
}

/// How an operation begins: the state it is in, and the first thing to do.
/// A start-and-wait whose service name gives no object path is over at
/// once, with the error that says so.
pub open spec fn begin(request: RequestView) -> (OperationView, ActionView) {
    match request {
        RequestView::Connect => (OperationView::Connecting, ActionView::Connect),
        RequestView::Reboot { .. } => (
            OperationView::Calling { request, stage: CallStage::Opening },
            ActionView::OpenLoginManager,
        ),
        RequestView::PowerOff { .. } => (
            OperationView::Calling { request, stage: CallStage::Opening },
            ActionView::OpenLoginManager,
        ),
        RequestView::StartAndWait { service, mode, wait_secs } => {
            if is_object_path(unit_path(service)) {
                (
                    OperationView::Waiting(
                        WaitView {
                            path: unit_path(service),
                            mode,
                            wait_secs,
                            observed: Seq::empty(),
                            status: 0,
                            stage: WaitStage::OpeningUnit,
                        },
                    ),
                    ActionView::OpenUnit { path: unit_path(service) },
                )
            } else {
                (
                    OperationView::Resolved,
                    ActionView::Resolve(Err(path_encoding_error(service))),
                )
            }
        },
        _ => (
            OperationView::Calling { request, stage: CallStage::Opening },
            ActionView::OpenManager,
        ),
    }
}

/// One step of a connection that is being set up.
pub open spec fn connect_step(event: EventView) -> Option<(OperationView, ActionView)> {
    match event {
        EventView::Done => resolve(Ok(ReplyView::Connected)),
        EventView::Failed(detail) => resolve(Err(connection_error(detail))),
        _ => None,
    }
}

/// One step of an operation of one or two calls. A failure ends it with
/// the bus's own text; a value ends it where it is the value that was read.
pub open spec fn call_step(request: RequestView, stage: CallStage, event: EventView) -> Option<
    (OperationView, ActionView),
> {
    match event {
        EventView::Failed(text) => resolve(Err(remote_error(text))),
        EventView::Done => match stage {
            CallStage::Opening => match first_call(request) {
                Some((next, action)) => Some((OperationView::Calling { request, stage: next }, action)),
                None => None,
            },
            CallStage::GettingUnit => match read_of(request) {
                Some(action) => Some(
                    (OperationView::Calling { request, stage: CallStage::Reading }, action),
                ),
                None => None,
            },
            CallStage::Commanding => resolve(Ok(ReplyView::Done)),
            CallStage::Reading => None,
        },
        EventView::Text(text) => if stage == CallStage::Reading && request is ActiveState {
            resolve(Ok(ReplyView::Text(text)))
        } else {
            None
        },
        EventView::List(names) => if stage == CallStage::Reading && request is PartOf {
            resolve(Ok(ReplyView::List(names)))
        } else {
            None
        },
        _ => None,
    }
}

/// The step that takes a start-and-wait to its next stage.
pub open spec fn advance(wait: WaitView, stage: WaitStage, action: ActionView) -> Option<
    (OperationView, ActionView),
> {
    Some((OperationView::Waiting(WaitView { stage, ..wait }), action))
}

/// One step of a start-and-wait. A call that fails before the start or
/// while the changes are watched ends it with the bus's own text; the
/// start call and the closing reads have errors of their own, which name
/// the unit.
pub open spec fn wait_step(wait: WaitView, event: EventView) -> Option<
    (OperationView, ActionView),
> {
    match wait.stage {
        WaitStage::OpeningUnit => match event {
            EventView::Done => advance(
                wait,
                WaitStage::ReadingInitialState,
                ActionView::ReadActiveState,
            ),
            EventView::Failed(text) => resolve(Err(remote_error(text))),
            _ => None,
        },
        WaitStage::ReadingInitialState => match event {
            EventView::Text(state) => advance(
                WaitView { observed: state, ..wait },
                WaitStage::Subscribing,
                ActionView::Subscribe,
            ),
            EventView::Failed(text) => resolve(Err(remote_error(text))),
            _ => None,
        },
        WaitStage::Subscribing => match event {
            EventView::Done => advance(
                wait,
                WaitStage::Starting,
                ActionView::StartSelf { mode: wait.mode },
            ),
            _ => None,
        },
        WaitStage::Starting => match event {
            EventView::Done => advance(
                wait,
                WaitStage::Watching,
                ActionView::AwaitChange { timeout_secs: wait.wait_secs },
            ),
            EventView::Failed(_) => fail(ErrorKind::StartFailed, start_text(wait.path)),
            _ => None,
        },
        WaitStage::Watching => match event {
            EventView::Text(state) => advance(
                WaitView { observed: state, ..wait },
                WaitStage::Watching,
                ActionView::AwaitChange { timeout_secs: wait.wait_secs },
            ),
            EventView::Failed(text) => resolve(Err(remote_error(text))),
            EventView::TimedOut => advance(
                wait,
                WaitStage::OpeningService,
                ActionView::OpenService { path: wait.path },
            ),
            EventView::StreamEnded => advance(
                wait,
                WaitStage::OpeningService,
                ActionView::OpenService { path: wait.path },
            ),
            _ => None,
        },
        WaitStage::OpeningService => match event {
            EventView::Done => advance(
                wait,
                WaitStage::ReadingStatus,
                ActionView::ReadExecMainStatus,
            ),
            EventView::Failed(_) => fail(ErrorKind::FinalizeFailed, service_proxy_text(wait.path)),
            _ => None,
        },
        WaitStage::ReadingStatus => match event {
            EventView::Number(status) => advance(
                WaitView { status, ..wait },
                WaitStage::ReadingSubState,
                ActionView::ReadSubState,
            ),
            EventView::Failed(_) => fail(ErrorKind::FinalizeFailed, status_text(wait.path)),
            _ => None,
        },
        WaitStage::ReadingSubState => match event {
            EventView::Text(sub_state) => resolve(
                Ok(
                    ReplyView::Outcome(
                        WaitOutcomeView {
                            active_state: wait.observed,
                            exec_main_status: wait.status,
                            sub_state,
                        },
                    ),
                ),
            ),
            EventView::Failed(_) => fail(ErrorKind::FinalizeFailed, sub_state_text(wait.path)),
            _ => None,
        },
    }
}

/// One step of an operation: the state that it is in after the event, and
/// what to do next. `None` where the event is no answer to what the
/// operation is waiting for; an operation that is over waits for nothing.
pub open spec fn step(op: OperationView, event: EventView) -> Option<(OperationView, ActionView)> {
    match op {
        OperationView::Connecting => connect_step(event),
        OperationView::Calling { request, stage } => call_step(request, stage, event),
        OperationView::Waiting(wait) => wait_step(wait, event),
        OperationView::Resolved => None,
    }
}

} // verus!

use crate::error::{ControllerError, ErrorKind};
use crate::model::{CallStage, OperationView, WaitStage, WaitView};
use crate::protocol::{Action, ActionView, Event, Reply, Request, WaitOutcome};
use crate::unit_path::UnitReference;
use vstd::prelude::*;

verus! {

/// What a start-and-wait knows while it runs.
#[derive(Debug)]
struct Wait {
    path: String,
    mode: String,
    wait_secs: u64,
    observed: String,
    status: i32,
    stage: WaitStage,
}

impl View for Wait {
    type V = WaitView;

    closed spec fn view(&self) -> WaitView {
        WaitView {
            path: self.path@,
            mode: self.mode@,
            wait_secs: self.wait_secs,
            observed: self.observed@,
            status: self.status,
            stage: self.stage,
        }
    }
}

/// Where an operation stands.
#[derive(Debug)]
enum Progress {
    Connecting,
    Calling { request: Request, stage: CallStage },
    Waiting(Wait),
    Resolved,
}

impl View for Progress {
    type V = OperationView;

    closed spec fn view(&self) -> OperationView {
        match self {
            Progress::Connecting => OperationView::Connecting,
            Progress::Calling { request, stage } => OperationView::Calling {
                request: request@,
                stage: *stage,
            },
            Progress::Waiting(wait) => OperationView::Waiting(wait@),
            Progress::Resolved => OperationView::Resolved,
        }
    }
}

/// What a step hands back: the next state and what to do, or the state
/// as it was where the event was no answer.
type Stepped = Result<(Progress, Action), Progress>;

/// Whether what a step handed back is what the model asks for.
spec fn agrees(
    stepped: Stepped,
    before: OperationView,
    expected: Option<(OperationView, ActionView)>,
) -> bool {
    match expected {
        Some((next, action)) => stepped matches Ok(pair) && pair.0@ == next && pair.1@ == action,
        None => stepped matches Err(same) && same@ == before,
    }
}

/// Ends the operation with an error.
fn failed(error: ControllerError) -> (stepped: Stepped)
    ensures
        agrees(stepped, OperationView::Resolved, crate::model::resolve(Err(error@))),
{
    Ok((Progress::Resolved, Action::Resolve(Err(error))))
}

/// Ends the operation with a reply.
fn replied(reply: Reply) -> (stepped: Stepped)
    ensures
        agrees(stepped, OperationView::Resolved, crate::model::resolve(Ok(reply@))),
{
    Ok((Progress::Resolved, Action::Resolve(Ok(reply))))
}

/// One step of a connection that is being set up.
fn connect_step(event: Event) -> (stepped: Stepped)
    ensures
        agrees(stepped, OperationView::Connecting, crate::model::connect_step(event@)),
{
    match event {
        Event::Done => replied(Reply::Connected),
        Event::Failed(detail) => failed(ControllerError::connection(detail.as_str())),
        _ => Err(Progress::Connecting),
    }
}

/// The call that an operation makes once its manager's proxy is open.
fn first_call(request: &Request) -> (call: Option<(CallStage, Action)>)
    ensures
        match crate::model::first_call(request@) {
            Some((stage, action)) => call matches Some(pair) && pair.0 == stage && pair.1@
                == action,
            None => call is None,
        },
{
    match request {
        Request::ActiveState { unit } => Some(
            (CallStage::GettingUnit, Action::GetUnit { name: unit.clone() }),
        ),
        Request::PartOf { unit } => Some(
            (CallStage::GettingUnit, Action::GetUnit { name: unit.clone() }),
        ),
        Request::Start { unit, mode } => Some(
            (CallStage::Commanding, Action::StartUnit { name: unit.clone(), mode: mode.clone() }),
        ),
        Request::Stop { unit, mode } => Some(
            (CallStage::Commanding, Action::StopUnit { name: unit.clone(), mode: mode.clone() }),
        ),
        Request::Restart { unit, mode } => Some(
            (
                CallStage::Commanding,
                Action::RestartUnit { name: unit.clone(), mode: mode.clone() },
            ),
        ),
        Request::Reboot { interactive } => Some(
            (CallStage::Commanding, Action::Reboot { interactive: *interactive }),
        ),
        Request::PowerOff { interactive } => Some(
            (CallStage::Commanding, Action::PowerOff { interactive: *interactive }),
        ),
        _ => None,
    }
}

/// The read that follows the lookup of a unit.
fn read_of(request: &Request) -> (read: Option<Action>)
    ensures
        match crate::model::read_of(request@) {
            Some(action) => read matches Some(made) && made@ == action,
            None => read is None,
        },
{
    match request {
        Request::ActiveState { .. } => Some(Action::ReadActiveState),
        Request::PartOf { .. } => Some(Action::ReadPartOf),
        _ => None,
    }
}

/// One step of an operation of one or two calls.
fn call_step(request: Request, stage: CallStage, event: Event) -> (stepped: Stepped)
    ensures
        agrees(
            stepped,
            OperationView::Calling { request: request@, stage },
            crate::model::call_step(request@, stage, event@),
        ),
{
    match event {
        Event::Failed(text) => failed(ControllerError::remote(text)),
        Event::Done => match stage {
            CallStage::Opening => match first_call(&request) {
                Some((next, action)) => Ok((Progress::Calling { request, stage: next }, action)),
                None => Err(Progress::Calling { request, stage }),
            },
            CallStage::GettingUnit => match read_of(&request) {
                Some(action) => Ok(
                    (Progress::Calling { request, stage: CallStage::Reading }, action),
                ),
                None => Err(Progress::Calling { request, stage }),
            },
            CallStage::Commanding => replied(Reply::Done),
            CallStage::Reading => Err(Progress::Calling { request, stage }),
        },
        Event::Text(text) => match (stage, &request) {
            (CallStage::Reading, Request::ActiveState { .. }) => replied(Reply::Text(text)),
            _ => Err(Progress::Calling { request, stage }),
        },
        Event::List(names) => match (stage, &request) {
            (CallStage::Reading, Request::PartOf { .. }) => replied(Reply::List(names)),
            _ => Err(Progress::Calling { request, stage }),
        },
        _ => Err(Progress::Calling { request, stage }),
    }
}

/// Takes a start-and-wait to its next stage.
fn advance(wait: Wait, stage: WaitStage, action: Action) -> (stepped: Stepped)
    ensures
        agrees(
            stepped,
            OperationView::Waiting(wait@),
            crate::model::advance(wait@, stage, action@),
        ),
{
    let Wait { path, mode, wait_secs, observed, status, stage: _ } = wait;
    Ok((Progress::Waiting(Wait { path, mode, wait_secs, observed, status, stage }), action))
}

/// One step of a start-and-wait.
fn wait_step(wait: Wait, event: Event) -> (stepped: Stepped)
    ensures
        agrees(stepped, OperationView::Waiting(wait@), crate::model::wait_step(wait@, event@)),
{
    let Wait { path, mode, wait_secs, observed, status, stage } = wait;
    match stage {
        WaitStage::OpeningUnit => match event {
            Event::Done => advance(
                Wait { path, mode, wait_secs, observed, status, stage },
                WaitStage::ReadingInitialState,
                Action::ReadActiveState,
            ),
            Event::Failed(text) => failed(ControllerError::remote(text)),
            _ => Err(Progress::Waiting(Wait { path, mode, wait_secs, observed, status, stage })),
        },
        WaitStage::ReadingInitialState => match event {
            Event::Text(state) => advance(
                Wait { path, mode, wait_secs, observed: state, status, stage },
                WaitStage::Subscribing,
                Action::Subscribe,
            ),
            Event::Failed(text) => failed(ControllerError::remote(text)),
            _ => Err(Progress::Waiting(Wait { path, mode, wait_secs, observed, status, stage })),
        },
        WaitStage::Subscribing => match event {
            Event::Done => {
                let action = Action::StartSelf { mode: mode.clone() };
                advance(
                    Wait { path, mode, wait_secs, observed, status, stage },
                    WaitStage::Starting,
                    action,
                )
            },
            _ => Err(Progress::Waiting(Wait { path, mode, wait_secs, observed, status, stage })),
        },
        WaitStage::Starting => match event {
            Event::Done => advance(
                Wait { path, mode, wait_secs, observed, status, stage },
                WaitStage::Watching,
                Action::AwaitChange { timeout_secs: wait_secs },
            ),
            Event::Failed(_) => failed(
                ControllerError::about(
                    ErrorKind::StartFailed,
                    "Failed to start unit ",
                    path.as_str(),
                ),
            ),
            _ => Err(Progress::Waiting(Wait { path, mode, wait_secs, observed, status, stage })),
        },
        WaitStage::Watching => match event {
            Event::Text(state) => advance(
                Wait { path, mode, wait_secs, observed: state, status, stage },
                WaitStage::Watching,
                Action::AwaitChange { timeout_secs: wait_secs },
            ),
            Event::Failed(text) => failed(ControllerError::remote(text)),
            Event::TimedOut => {
                let action = Action::OpenService { path: path.clone() };
                advance(
                    Wait { path, mode, wait_secs, observed, status, stage },
                    WaitStage::OpeningService,
                    action,
                )
            },
            Event::StreamEnded => {
                let action = Action::OpenService { path: path.clone() };
                advance(
                    Wait { path, mode, wait_secs, observed, status, stage },
                    WaitStage::OpeningService,
                    action,
                )
            },
            _ => Err(Progress::Waiting(Wait { path, mode, wait_secs, observed, status, stage })),
        },
        WaitStage::OpeningService => match event {
            Event::Done => advance(
                Wait { path, mode, wait_secs, observed, status, stage },
                WaitStage::ReadingStatus,
                Action::ReadExecMainStatus,
            ),
            Event::Failed(_) => failed(
                ControllerError::about(
                    ErrorKind::FinalizeFailed,
                    "Cannot build service proxy for ",
                    path.as_str(),
                ),
            ),
            _ => Err(Progress::Waiting(Wait { path, mode, wait_secs, observed, status, stage })),
        },
        WaitStage::ReadingStatus => match event {
            Event::Number(number) => advance(
                Wait { path, mode, wait_secs, observed, status: number, stage },
                WaitStage::ReadingSubState,
                Action::ReadSubState,
            ),
            Event::Failed(_) => failed(
                ControllerError::about(
                    ErrorKind::FinalizeFailed,
                    "Failed to get main process status for ",
                    path.as_str(),
                ),
            ),
            _ => Err(Progress::Waiting(Wait { path, mode, wait_secs, observed, status, stage })),
        },
        WaitStage::ReadingSubState => match event {
            Event::Text(sub_state) => replied(
                Reply::Outcome(
                    WaitOutcome { active_state: observed, exec_main_status: status, sub_state },
                ),
            ),
            Event::Failed(_) => failed(
                ControllerError::about(
                    ErrorKind::FinalizeFailed,
                    "Failed to get unit sub state for ",
                    path.as_str(),
                ),
            ),
            _ => Err(Progress::Waiting(Wait { path, mode, wait_secs, observed, status, stage })),
        },
    }
}

/// One operation of the controller, from the request to its result. It
/// decides what is done on the bus and in which order; its driver does
/// each thing and reports what came of it.
#[derive(Debug)]
pub struct Operation {
    progress: Progress,
}

impl View for Operation {
    type V = OperationView;

    closed spec fn view(&self) -> OperationView {
        self.progress@
    }
}

impl Operation {
    /// Takes up a request: the operation, and the first thing to do.
    pub fn begin(request: Request) -> (started: (Operation, Action))
        ensures
            (started.0@, started.1@) == crate::model::begin(request@),
    {
        match request {
            Request::Connect => (Operation { progress: Progress::Connecting }, Action::Connect),
            Request::Reboot { .. } => (
                Operation { progress: Progress::Calling { request, stage: CallStage::Opening } },
                Action::OpenLoginManager,
            ),
            Request::PowerOff { .. } => (
                Operation { progress: Progress::Calling { request, stage: CallStage::Opening } },
                Action::OpenLoginManager,
            ),
            Request::StartAndWait { service, mode, wait_secs } => {
                match UnitReference::for_service(service.as_str()) {
                    Ok(unit) => {
                        let path = unit.into_path();
                        let action = Action::OpenUnit { path: path.clone() };
                        let wait = Wait {
                            path,
                            mode,
                            wait_secs,
                            observed: String::new(),
                            status: 0,
                            stage: WaitStage::OpeningUnit,
                        };
                        (Operation { progress: Progress::Waiting(wait) }, action)
                    },
                    Err(error) => (
                        Operation { progress: Progress::Resolved },
                        Action::Resolve(Err(error)),
                    ),
                }
            },
            other => (
                Operation {
                    progress: Progress::Calling { request: other, stage: CallStage::Opening },
                },
                Action::OpenManager,
            ),
        }
    }

    /// Takes the answer to what was asked last: the operation after it, and
    /// the next thing to do. Where the event is no answer to what the
    /// operation is waiting for, the operation comes back as it was.
    pub fn step(self, event: Event) -> (stepped: Result<(Operation, Action), Operation>)
        ensures
            match crate::model::step(self@, event@) {
                Some((next, action)) => stepped matches Ok(pair) && pair.0@ == next && pair.1@
                    == action,
                None => stepped matches Err(same) && same@ == self@,
            },
    {
        let stepped = match self.progress {
            Progress::Connecting => connect_step(event),
            Progress::Calling { request, stage } => call_step(request, stage, event),
            Progress::Waiting(wait) => wait_step(wait, event),
            Progress::Resolved => Err(Progress::Resolved),
        };
        match stepped {
            Ok((progress, action)) => Ok((Operation { progress }, action)),
            Err(progress) => Err(Operation { progress }),
        }
    }

    /// Whether the result has been handed out.
    pub fn is_resolved(&self) -> (resolved: bool)
        ensures
            resolved == (self@ is Resolved),
    {
        match self.progress {
            Progress::Resolved => true,
            _ => false,
        }
    }
}

} // verus!

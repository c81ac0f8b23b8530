use crate::error::{remote_error, ErrorKind};
use crate::model::{begin, step, CallStage, OperationView, WaitStage, WaitView};
use crate::protocol::{ActionView, EventView, ReplyView, RequestView, WaitOutcomeView};
use crate::unit_path::{is_object_path, unit_path};
use vstd::prelude::*;

verus! {

/// An operation fed a sequence of events, one after the other: the state
/// that it ends in, and what it asked for after each event. `None` where
/// one of the events is no answer to what the operation was waiting for.
pub open spec fn run(op: OperationView, events: Seq<EventView>) -> Option<
    (OperationView, Seq<ActionView>),
>
    decreases events.len(),
{
    if events.len() == 0 {
        Some((op, Seq::empty()))
    } else {
        match run(op, events.drop_last()) {
            Some((reached, actions)) => match step(reached, events.last()) {
                Some((next, action)) => Some((next, actions.push(action))),
                None => None,
            },
            None => None,
        }
    }
}

/// The state in which a run ends.
pub open spec fn reached(op: OperationView, events: Seq<EventView>) -> OperationView {
    match run(op, events) {
        Some((end, _)) => end,
        None => op,
    }
}

/// What a run asks for, in order.
pub open spec fn asked(op: OperationView, events: Seq<EventView>) -> Seq<ActionView> {
    match run(op, events) {
        Some((_, actions)) => actions,
        None => Seq::empty(),
    }
}

/// Everything that a request asks of its driver while the events come in:
/// the first action, then one action for each event.
pub open spec fn history(request: RequestView, events: Seq<EventView>) -> Option<Seq<ActionView>> {
    match run(begin(request).0, events) {
        Some((_, actions)) => Some(seq![begin(request).1] + actions),
        None => None,
    }
}

/// A run asks for one thing after each event.
pub proof fn lemma_run_len(op: OperationView, events: Seq<EventView>)
    ensures
        asked(op, events).len() <= events.len(),
        run(op, events) is Some ==> asked(op, events).len() == events.len(),
    decreases events.len(),
{
    if events.len() > 0 {
        lemma_run_len(op, events.drop_last());
    }
}

/// The start of a run is a run: after the first `k` events the operation
/// has asked for the first `k` things, and the next event takes it one
/// step on.
pub proof fn lemma_run_prefix(op: OperationView, events: Seq<EventView>, k: int)
    requires
        run(op, events) is Some,
        0 <= k <= events.len(),
    ensures
        run(op, events.take(k)) is Some,
        asked(op, events.take(k)) == asked(op, events).take(k),
        k < events.len() ==> step(reached(op, events.take(k)), events[k]) == Some(
            (reached(op, events.take(k + 1)), asked(op, events)[k]),
        ),
    decreases events.len() - k,
{
    lemma_run_len(op, events);
    if k == events.len() {
        assert(events.take(k) == events);
        assert(asked(op, events).take(k) == asked(op, events));
    } else {
        lemma_run_prefix(op, events, k + 1);
        let longer = events.take(k + 1);
        assert(longer.drop_last() == events.take(k));
        assert(longer.last() == events[k]);
        let whole = asked(op, events);
        assert(whole.take(k + 1).drop_last() == whole.take(k));
        assert(whole.take(k + 1).last() == whole[k]);
        assert(run(op, longer.drop_last()) is Some);
        let part = run(op, events.take(k))->0;
        let stepped = step(part.0, events[k])->0;
        assert(run(op, longer) == Some((stepped.0, part.1.push(stepped.1))));
        assert(part.1.push(stepped.1).last() == stepped.1);
    }
}

/// A run over two sequences of events, one after the other, is the run
/// over the first followed by the run over the second.
pub proof fn lemma_run_concat(op: OperationView, first: Seq<EventView>, second: Seq<EventView>)
    ensures
        run(op, first + second) == match run(op, first) {
            Some((reached, actions)) => match run(reached, second) {
                Some((end, more)) => Some((end, actions + more)),
                None => None,
            },
            None => None,
        },
    decreases second.len(),
{
    if second.len() == 0 {
        assert(first + second == first);
        if let Some((reached, actions)) = run(op, first) {
            assert(actions + Seq::<ActionView>::empty() == actions);
        }
    } else {
        lemma_run_concat(op, first, second.drop_last());
        assert((first + second).drop_last() == first + second.drop_last());
        assert((first + second).last() == second.last());
        if let Some((reached, actions)) = run(op, first) {
            if let Some((mid, more)) = run(reached, second.drop_last()) {
                if let Some((next, action)) = step(mid, second.last()) {
                    assert((actions + more).push(action) == actions + more.push(action));
                }
            }
        }
    }
}

/// A failure is never answered with another attempt: whatever the
/// operation was waiting for, the report that it failed ends the operation
/// with an error. Where that error is one of a remote call, it holds the
/// text of the bus, unchanged.
pub proof fn lemma_failure_ends_operation(op: OperationView, text: Seq<char>)
    ensures
        step(op, EventView::Failed(text)) matches Some(stepped) ==> stepped.0 is Resolved,
        step(op, EventView::Failed(text)) matches Some(stepped) ==> (stepped.1 matches
            ActionView::Resolve(result) && result matches Err(error) && (error.kind
            == ErrorKind::RemoteCall ==> error.message == text)),
{
}

/// An operation hands out one result, and nothing after it: the step that
/// resolves is the step into the final state, and from there no event is
/// taken.
pub proof fn lemma_resolves_once(op: OperationView, event: EventView, later: EventView)
    ensures
        step(op, event) matches Some(stepped) ==> (stepped.1 is Resolve <==> stepped.0 is Resolved),
        step(op, event) matches Some(stepped) ==> (stepped.0 is Resolved ==> step(stepped.0, later)
            is None),
{
}

/// In the history of a request the result stands at the end, if it stands
/// anywhere.
pub proof fn lemma_result_comes_last(request: RequestView, events: Seq<EventView>, i: int)
    requires
        history(request, events) matches Some(actions) && 0 <= i < actions.len() && actions[i]
            is Resolve,
    ensures
        i == events.len(),
{
    let op = begin(request).0;
    lemma_run_len(op, events);
    if i < events.len() {
        lemma_run_prefix(op, events, i);
        let part = run(op, events.take(i))->0;
        if i == 0 {
            assert(events.take(0) == Seq::<EventView>::empty());
            assert(part.0 == op);
        } else {
            lemma_run_prefix(op, events, i - 1);
            assert(events.take(i).drop_last() == events.take(i - 1));
            assert(events.take(i).last() == events[i - 1]);
        }
        assert(part.0 is Resolved);
    }
}

/// A start-and-wait subscribes before it starts the unit: the start call
/// is asked for only as the answer to the report that the subscription
/// stands, so no change of the state after the start can be missed.
pub proof fn lemma_subscribed_before_start(request: RequestView, events: Seq<EventView>, i: int)
    requires
        history(request, events) matches Some(actions) && 0 <= i < actions.len() && actions[i]
            is StartSelf,
    ensures
        i >= 2,
        history(request, events)->0[i - 1] == ActionView::Subscribe,
        events[i - 1] == EventView::Done,
{
    let op = begin(request).0;
    lemma_run_len(op, events);
    assert(i >= 1);
    lemma_run_prefix(op, events, i - 1);
    let before = run(op, events.take(i - 1))->0;
    assert(before.0 matches OperationView::Waiting(wait) && wait.stage == WaitStage::Subscribing);
    if i - 1 == 0 {
        assert(events.take(0) == Seq::<EventView>::empty());
        assert(before.0 == op);
    } else {
        lemma_run_prefix(op, events, i - 2);
        assert(events.take(i - 1).drop_last() == events.take(i - 2));
        assert(events.take(i - 1).last() == events[i - 2]);
    }
}

/// The events of a watch in which the active state changes to each of the
/// given states in turn.
pub open spec fn changes_to(states: Seq<Seq<char>>) -> Seq<EventView> {
    Seq::new(states.len(), |i: int| EventView::Text(states[i]))
}

/// The active state that a watch has seen last: the last change, or the
/// state that was read at the start where nothing changed.
pub open spec fn last_seen(initial: Seq<char>, states: Seq<Seq<char>>) -> Seq<char> {
    if states.len() == 0 {
        initial
    } else {
        states.last()
    }
}

/// The waits that a watch asks for: one more for each change.
pub open spec fn waits(count: nat, timeout_secs: u64) -> Seq<ActionView> {
    Seq::new(count, |i: int| ActionView::AwaitChange { timeout_secs })
}

/// While it watches, a start-and-wait takes each change as the state seen
/// last and waits again, with the same bound, whatever the state is.
pub proof fn lemma_watch(wait: WaitView, states: Seq<Seq<char>>)
    requires
        wait.stage == WaitStage::Watching,
    ensures
        run(OperationView::Waiting(wait), changes_to(states)) == Some(
            (
                OperationView::Waiting(
                    WaitView { observed: last_seen(wait.observed, states), ..wait },
                ),
                waits(states.len(), wait.wait_secs),
            ),
        ),
    decreases states.len(),
{
    let op = OperationView::Waiting(wait);
    if states.len() == 0 {
        assert(waits(0, wait.wait_secs) == Seq::<ActionView>::empty());
    } else {
        lemma_watch(wait, states.drop_last());
        assert(changes_to(states).drop_last() == changes_to(states.drop_last()));
        assert(changes_to(states).last() == EventView::Text(states.last()));
        assert(waits((states.len() - 1) as nat, wait.wait_secs).push(
            ActionView::AwaitChange { timeout_secs: wait.wait_secs },
        ) == waits(states.len(), wait.wait_secs));
    }
}

/// The events of a start-and-wait in which every call succeeds: the unit's
/// proxy opens, the active state is read, the subscription stands, the
/// start call returns, the state changes some number of times, the watch
/// ends, and the two closing reads succeed.
pub open spec fn complete_events(
    initial: Seq<char>,
    states: Seq<Seq<char>>,
    ended: EventView,
    status: i32,
    sub_state: Seq<char>,
) -> Seq<EventView> {
    seq![EventView::Done, EventView::Text(initial), EventView::Done, EventView::Done] + changes_to(
        states,
    ) + seq![ended, EventView::Done, EventView::Number(status), EventView::Text(sub_state)]
}

/// What a start-and-wait asks for when every call succeeds.
pub open spec fn complete_history(
    path: Seq<char>,
    mode: Seq<char>,
    wait_secs: u64,
    initial: Seq<char>,
    states: Seq<Seq<char>>,
    status: i32,
    sub_state: Seq<char>,
) -> Seq<ActionView> {
    seq![
        ActionView::OpenUnit { path },
        ActionView::ReadActiveState,
        ActionView::Subscribe,
        ActionView::StartSelf { mode },
        ActionView::AwaitChange { timeout_secs: wait_secs },
    ] + waits(states.len(), wait_secs) + seq![
        ActionView::OpenService { path },
        ActionView::ReadExecMainStatus,
        ActionView::ReadSubState,
        ActionView::Resolve(
            Ok(
                ReplyView::Outcome(
                    WaitOutcomeView {
                        active_state: last_seen(initial, states),
                        exec_main_status: status,
                        sub_state,
                    },
                ),
            ),
        ),
    ]
}

/// The run of a start-and-wait in which every call succeeds. It waits once
/// after the start and once more after each change, and stops watching
/// only when a wait times out or the changes end; then it reads the status
/// and the sub state, and its outcome holds the active state that was seen
/// last.
pub proof fn lemma_complete_run(
    service: Seq<char>,
    mode: Seq<char>,
    wait_secs: u64,
    initial: Seq<char>,
    states: Seq<Seq<char>>,
    ended: EventView,
    status: i32,
    sub_state: Seq<char>,
)
    requires
        is_object_path(unit_path(service)),
        ended is TimedOut || ended is StreamEnded,
    ensures
        history(
            RequestView::StartAndWait { service, mode, wait_secs },
            complete_events(initial, states, ended, status, sub_state),
        ) == Some(
            complete_history(unit_path(service), mode, wait_secs, initial, states, status, sub_state),
        ),
{
    let request = RequestView::StartAndWait { service, mode, wait_secs };
    let path = unit_path(service);
    let op = begin(request).0;
    let opening = seq![
        EventView::Done,
        EventView::Text(initial),
        EventView::Done,
        EventView::Done,
    ];
    let closing = seq![
        ended,
        EventView::Done,
        EventView::Number(status),
        EventView::Text(sub_state),
    ];
    let watching = WaitView {
        path,
        mode,
        wait_secs,
        observed: initial,
        status: 0,
        stage: WaitStage::Watching,
    };
    let watched = WaitView { observed: last_seen(initial, states), ..watching };
    let opened = seq![
        ActionView::ReadActiveState,
        ActionView::Subscribe,
        ActionView::StartSelf { mode },
        ActionView::AwaitChange { timeout_secs: wait_secs },
    ];
    let closed = seq![
        ActionView::OpenService { path },
        ActionView::ReadExecMainStatus,
        ActionView::ReadSubState,
        ActionView::Resolve(
            Ok(
                ReplyView::Outcome(
                    WaitOutcomeView {
                        active_state: last_seen(initial, states),
                        exec_main_status: status,
                        sub_state,
                    },
                ),
            ),
        ),
    ];
    assert(run(op, opening) == Some((OperationView::Waiting(watching), opened))) by {
        lemma_run_four(op, opening);
    }
    lemma_watch(watching, states);
    assert(run(OperationView::Waiting(watched), closing) == Some((OperationView::Resolved, closed)))
        by {
        lemma_run_four(OperationView::Waiting(watched), closing);
    }
    lemma_run_concat(op, opening, changes_to(states));
    lemma_run_concat(op, opening + changes_to(states), closing);
    assert(seq![begin(request).1] + (opened + waits(states.len(), wait_secs) + closed)
        == complete_history(path, mode, wait_secs, initial, states, status, sub_state));
}

/// A bound of zero seconds does not do away with the wait: the
/// start-and-wait still waits once, with that bound, and when the wait
/// times out it goes on to its closing reads.
pub proof fn lemma_zero_timeout_waits_once(
    service: Seq<char>,
    mode: Seq<char>,
    initial: Seq<char>,
    status: i32,
    sub_state: Seq<char>,
)
    requires
        is_object_path(unit_path(service)),
    ensures
        history(
            RequestView::StartAndWait { service, mode, wait_secs: 0 },
            seq![
                EventView::Done,
                EventView::Text(initial),
                EventView::Done,
                EventView::Done,
                EventView::TimedOut,
                EventView::Done,
                EventView::Number(status),
                EventView::Text(sub_state),
            ],
        ) == Some(
            seq![
                ActionView::OpenUnit { path: unit_path(service) },
                ActionView::ReadActiveState,
                ActionView::Subscribe,
                ActionView::StartSelf { mode },
                ActionView::AwaitChange { timeout_secs: 0 },
                ActionView::OpenService { path: unit_path(service) },
                ActionView::ReadExecMainStatus,
                ActionView::ReadSubState,
                ActionView::Resolve(
                    Ok(
                        ReplyView::Outcome(
                            WaitOutcomeView {
                                active_state: initial,
                                exec_main_status: status,
                                sub_state,
                            },
                        ),
                    ),
                ),
            ],
        ),
{
    let none = Seq::<Seq<char>>::empty();
    lemma_complete_run(service, mode, 0, initial, none, EventView::TimedOut, status, sub_state);
    assert(complete_events(initial, none, EventView::TimedOut, status, sub_state) == seq![
        EventView::Done,
        EventView::Text(initial),
        EventView::Done,
        EventView::Done,
        EventView::TimedOut,
        EventView::Done,
        EventView::Number(status),
        EventView::Text(sub_state),
    ]);
    assert(complete_history(unit_path(service), mode, 0, initial, none, status, sub_state) == seq![
        ActionView::OpenUnit { path: unit_path(service) },
        ActionView::ReadActiveState,
        ActionView::Subscribe,
        ActionView::StartSelf { mode },
        ActionView::AwaitChange { timeout_secs: 0 },
        ActionView::OpenService { path: unit_path(service) },
        ActionView::ReadExecMainStatus,
        ActionView::ReadSubState,
        ActionView::Resolve(
            Ok(
                ReplyView::Outcome(
                    WaitOutcomeView { active_state: initial, exec_main_status: status, sub_state },
                ),
            ),
        ),
    ]);
}

/// Where the changes end before there was one, the outcome holds the
/// active state that was read before the unit was started.
pub proof fn lemma_stream_end_keeps_initial_state(
    service: Seq<char>,
    mode: Seq<char>,
    wait_secs: u64,
    initial: Seq<char>,
    status: i32,
    sub_state: Seq<char>,
)
    requires
        is_object_path(unit_path(service)),
    ensures
        history(
            RequestView::StartAndWait { service, mode, wait_secs },
            seq![
                EventView::Done,
                EventView::Text(initial),
                EventView::Done,
                EventView::Done,
                EventView::StreamEnded,
                EventView::Done,
                EventView::Number(status),
                EventView::Text(sub_state),
            ],
        ) matches Some(actions) && actions.last() == ActionView::Resolve(
            Ok(
                ReplyView::Outcome(
                    WaitOutcomeView { active_state: initial, exec_main_status: status, sub_state },
                ),
            ),
        ),
{
    let none = Seq::<Seq<char>>::empty();
    lemma_complete_run(
        service,
        mode,
        wait_secs,
        initial,
        none,
        EventView::StreamEnded,
        status,
        sub_state,
    );
    assert(complete_events(initial, none, EventView::StreamEnded, status, sub_state) == seq![
        EventView::Done,
        EventView::Text(initial),
        EventView::Done,
        EventView::Done,
        EventView::StreamEnded,
        EventView::Done,
        EventView::Number(status),
        EventView::Text(sub_state),
    ]);
}

/// An operation of one or two calls hands a failure on as it came: the
/// error holds the text of the bus, unchanged, and no further call is
/// made.
pub proof fn lemma_call_failure_is_handed_on(
    request: RequestView,
    stage: CallStage,
    text: Seq<char>,
)
    ensures
        step(OperationView::Calling { request, stage }, EventView::Failed(text)) == Some(
            (OperationView::Resolved, ActionView::Resolve(Err(remote_error(text)))),
        ),
{
}

/// The number of answers that an operation other than a start-and-wait
/// can still take.
pub open spec fn answers_left(op: OperationView) -> nat {
    match op {
        OperationView::Connecting => 1,
        OperationView::Calling { stage, .. } => match stage {
            CallStage::Opening => 3,
            CallStage::GettingUnit => 2,
            CallStage::Reading => 1,
            CallStage::Commanding => 1,
        },
        _ => 0,
    }
}

/// Every operation but the start-and-wait is over after a fixed number of
/// answers: one for the connection, at most three for the others, which
/// open a proxy and make one or two calls through it. No call is made
/// twice.
pub proof fn lemma_calls_are_bounded(op: OperationView, events: Seq<EventView>)
    requires
        !(op is Waiting),
        run(op, events) is Some,
    ensures
        !(reached(op, events) is Waiting),
        events.len() + answers_left(reached(op, events)) <= answers_left(op),
    decreases events.len(),
{
    if events.len() > 0 {
        lemma_calls_are_bounded(op, events.drop_last());
    }
}

/// An outcome is never handed out in part: the step that resolves with
/// one is the answer to the read of the sub state, the last of the closing
/// reads, and the outcome holds the active state seen last and the status
/// that was read before.
pub proof fn lemma_outcome_is_complete(
    op: OperationView,
    event: EventView,
    outcome: WaitOutcomeView,
)
    requires
        step(op, event) matches Some(stepped) && stepped.1 == ActionView::Resolve(
            Ok(ReplyView::Outcome(outcome)),
        ),
    ensures
        op matches OperationView::Waiting(wait) && wait.stage == WaitStage::ReadingSubState
            && outcome.active_state == wait.observed && outcome.exec_main_status == wait.status,
        event == EventView::Text(outcome.sub_state),
{
}

/// Whether an operation is a start-and-wait with the given settings, under
/// way or over.
pub open spec fn is_wait_with(
    op: OperationView,
    path: Seq<char>,
    mode: Seq<char>,
    wait_secs: u64,
) -> bool {
    match op {
        OperationView::Waiting(wait) => wait.path == path && wait.mode == mode && wait.wait_secs
            == wait_secs,
        OperationView::Resolved => true,
        _ => false,
    }
}

/// Whether an action is one that a start-and-wait with the given settings
/// asks for.
pub open spec fn is_asked_by_wait(
    action: ActionView,
    path: Seq<char>,
    mode: Seq<char>,
    wait_secs: u64,
) -> bool {
    match action {
        ActionView::OpenUnit { path: opened } => opened == path,
        ActionView::OpenService { path: opened } => opened == path,
        ActionView::StartSelf { mode: given } => given == mode,
        ActionView::AwaitChange { timeout_secs } => timeout_secs == wait_secs,
        ActionView::ReadActiveState => true,
        ActionView::ReadSubState => true,
        ActionView::ReadExecMainStatus => true,
        ActionView::Subscribe => true,
        ActionView::Resolve(_) => true,
        _ => false,
    }
}

/// A start-and-wait keeps its settings through every step.
proof fn lemma_wait_settings_stay(
    op: OperationView,
    events: Seq<EventView>,
    path: Seq<char>,
    mode: Seq<char>,
    wait_secs: u64,
)
    requires
        is_wait_with(op, path, mode, wait_secs),
        run(op, events) is Some,
    ensures
        is_wait_with(reached(op, events), path, mode, wait_secs),
        forall|i: int|
            0 <= i < asked(op, events).len() ==> is_asked_by_wait(
                #[trigger] asked(op, events)[i],
                path,
                mode,
                wait_secs,
            ),
    decreases events.len(),
{
    if events.len() > 0 {
        let before = events.drop_last();
        lemma_wait_settings_stay(op, before, path, mode, wait_secs);
        let earlier = asked(op, before);
        assert forall|i: int| 0 <= i < asked(op, events).len() implies is_asked_by_wait(
            #[trigger] asked(op, events)[i],
            path,
            mode,
            wait_secs,
        ) by {
            if i < earlier.len() {
                assert(asked(op, events)[i] == earlier[i]);
            }
        }
    }
}

/// A start-and-wait hands on what it was given, and nothing else: every
/// proxy that it opens is at the object path of the service's unit, the
/// start call gets the caller's mode as it came, and every wait has the
/// caller's bound. It works on the unit's own object and makes no call
/// through a manager.
pub proof fn lemma_wait_hands_on_its_settings(
    service: Seq<char>,
    mode: Seq<char>,
    wait_secs: u64,
    events: Seq<EventView>,
    i: int,
)
    requires
        history(RequestView::StartAndWait { service, mode, wait_secs }, events) matches Some(
            actions,
        ) && 0 <= i < actions.len(),
    ensures
        is_asked_by_wait(
            history(RequestView::StartAndWait { service, mode, wait_secs }, events)->0[i],
            unit_path(service),
            mode,
            wait_secs,
        ),
{
    let request = RequestView::StartAndWait { service, mode, wait_secs };
    lemma_wait_settings_stay(begin(request).0, events, unit_path(service), mode, wait_secs);
    if i > 0 {
        assert(history(request, events)->0[i] == asked(begin(request).0, events)[i - 1]);
    }
}

/// The events that a schedule holds for one of two operations, in order.
/// A schedule names, for each event, whether it is for the first.
pub open spec fn events_of(schedule: Seq<(bool, EventView)>, first: bool) -> Seq<EventView>
    decreases schedule.len(),
{
    if schedule.len() == 0 {
        Seq::empty()
    } else {
        let before = events_of(schedule.drop_last(), first);
        if schedule.last().0 == first {
            before.push(schedule.last().1)
        } else {
            before
        }
    }
}

/// Two operations that run side by side, fed their events in the order of
/// the schedule: where each ends, and what each has asked for.
pub open spec fn run_both(
    first: OperationView,
    second: OperationView,
    schedule: Seq<(bool, EventView)>,
) -> Option<((OperationView, Seq<ActionView>), (OperationView, Seq<ActionView>))>
    decreases schedule.len(),
{
    if schedule.len() == 0 {
        Some(((first, Seq::empty()), (second, Seq::empty())))
    } else {
        match run_both(first, second, schedule.drop_last()) {
            Some((left, right)) => if schedule.last().0 {
                match step(left.0, schedule.last().1) {
                    Some((next, action)) => Some(((next, left.1.push(action)), right)),
                    None => None,
                }
            } else {
                match step(right.0, schedule.last().1) {
                    Some((next, action)) => Some((left, (next, right.1.push(action)))),
                    None => None,
                }
            },
            None => None,
        }
    }
}

/// Operations do not touch each other. However the events of two
/// operations are interleaved, each operation asks for what it would ask
/// for alone and ends where it would end alone, also where both work on
/// the same unit.
pub proof fn lemma_side_by_side(
    first: OperationView,
    second: OperationView,
    schedule: Seq<(bool, EventView)>,
)
    ensures
        run_both(first, second, schedule) == match (
            run(first, events_of(schedule, true)),
            run(second, events_of(schedule, false)),
        ) {
            (Some(left), Some(right)) => Some((left, right)),
            _ => None,
        },
    decreases schedule.len(),
{
    if schedule.len() > 0 {
        lemma_side_by_side(first, second, schedule.drop_last());
        let before = schedule.drop_last();
        if schedule.last().0 {
            assert(events_of(schedule, true).drop_last() == events_of(before, true));
            assert(events_of(schedule, true).last() == schedule.last().1);
            assert(events_of(schedule, false) == events_of(before, false));
        } else {
            assert(events_of(schedule, false).drop_last() == events_of(before, false));
            assert(events_of(schedule, false).last() == schedule.last().1);
            assert(events_of(schedule, true) == events_of(before, true));
        }
    }
}

/// A run over four events, step by step.
proof fn lemma_run_four(op: OperationView, events: Seq<EventView>)
    requires
        events.len() == 4,
    ensures
        run(op, events) == match step(op, events[0]) {
            Some((first, a)) => match step(first, events[1]) {
                Some((second, b)) => match step(second, events[2]) {
                    Some((third, c)) => match step(third, events[3]) {
                        Some((fourth, d)) => Some((fourth, seq![a, b, c, d])),
                        None => None,
                    },
                    None => None,
                },
                None => None,
            },
            None => None,
        },
{
    let three = events.drop_last();
    let two = three.drop_last();
    let one = two.drop_last();
    assert(one.drop_last() == Seq::<EventView>::empty());
    assert(run(op, one.drop_last()) == Some((op, Seq::<ActionView>::empty())));
    assert(one.last() == events[0]);
    assert(two.last() == events[1]);
    assert(three.last() == events[2]);
    assert(events.last() == events[3]);
    if let Some((first, a)) = step(op, events[0]) {
        assert(run(op, one) == Some((first, Seq::<ActionView>::empty().push(a))));
        if let Some((second, b)) = step(first, events[1]) {
            assert(run(op, two) == Some((second, Seq::<ActionView>::empty().push(a).push(b))));
            if let Some((third, c)) = step(second, events[2]) {
                assert(run(op, three) == Some(
                    (third, Seq::<ActionView>::empty().push(a).push(b).push(c)),
                ));
                if let Some((fourth, d)) = step(third, events[3]) {
                    assert(Seq::<ActionView>::empty().push(a).push(b).push(c).push(d) == seq![
                        a,
                        b,
                        c,
                        d,
                    ]);
                }
            }
        }
    }
}

} // verus!

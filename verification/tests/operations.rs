use systemd_units::error::{ControllerError, ErrorKind};
use systemd_units::operation::Operation;
use systemd_units::protocol::{Action, Event, Reply, Request, WaitOutcome};

const UNIT_PATH: &str = "/org/freedesktop/systemd1/unit/myservice_2eservice";

fn text(value: &str) -> String {
    value.to_string()
}

/// Feeds the events to the operation of the request and hands back all
/// that it asked for, the first action included.
fn drive(request: Request, events: Vec<Event>) -> (Operation, Vec<Action>) {
    let (mut operation, first) = Operation::begin(request);
    let mut asked = vec![first];
    for event in events {
        match operation.step(event) {
            Ok((next, action)) => {
                operation = next;
                asked.push(action);
            }
            Err(same) => panic!("event refused in {:?}", same),
        }
    }
    (operation, asked)
}

fn failure(kind: ErrorKind, message: &str) -> Action {
    Action::Resolve(Err(ControllerError { kind, message: text(message) }))
}

fn start_and_wait(wait_secs: u64) -> Request {
    Request::StartAndWait { service: text("myservice.service"), mode: text("replace"), wait_secs }
}

#[test]
fn connect_resolves_once_connected() {
    let (operation, asked) = drive(Request::Connect, vec![Event::Done]);
    assert_eq!(asked, vec![Action::Connect, Action::Resolve(Ok(Reply::Connected))]);
    assert!(operation.is_resolved());
}

#[test]
fn connect_failure_carries_the_transport_text() {
    let (operation, asked) = drive(Request::Connect, vec![Event::Failed(text("no socket"))]);
    assert_eq!(
        asked,
        vec![
            Action::Connect,
            failure(ErrorKind::Connection, "Failed to connect to D-Bus system socket: no socket"),
        ]
    );
    assert!(operation.is_resolved());
}

#[test]
fn active_state_is_looked_up_and_read() {
    let (operation, asked) = drive(
        Request::ActiveState { unit: text("a.service") },
        vec![Event::Done, Event::Done, Event::Text(text("active"))],
    );
    assert_eq!(
        asked,
        vec![
            Action::OpenManager,
            Action::GetUnit { name: text("a.service") },
            Action::ReadActiveState,
            Action::Resolve(Ok(Reply::Text(text("active")))),
        ]
    );
    assert!(operation.is_resolved());
}

#[test]
fn part_of_keeps_the_order_of_the_names() {
    let names = vec![text("b.target"), text("a.target"), text("c.slice")];
    let (_, asked) = drive(
        Request::PartOf { unit: text("a.service") },
        vec![Event::Done, Event::Done, Event::List(names.clone())],
    );
    assert_eq!(
        asked,
        vec![
            Action::OpenManager,
            Action::GetUnit { name: text("a.service") },
            Action::ReadPartOf,
            Action::Resolve(Ok(Reply::List(names))),
        ]
    );
}

#[test]
fn part_of_may_be_empty() {
    let (_, asked) = drive(
        Request::PartOf { unit: text("a.service") },
        vec![Event::Done, Event::Done, Event::List(vec![])],
    );
    assert_eq!(asked.last(), Some(&Action::Resolve(Ok(Reply::List(vec![])))));
}

#[test]
fn start_hands_name_and_mode_to_the_manager() {
    let (_, asked) = drive(
        Request::Start { unit: text("a.service"), mode: text("fail") },
        vec![Event::Done, Event::Done],
    );
    assert_eq!(
        asked,
        vec![
            Action::OpenManager,
            Action::StartUnit { name: text("a.service"), mode: text("fail") },
            Action::Resolve(Ok(Reply::Done)),
        ]
    );
}

#[test]
fn stop_hands_name_and_mode_to_the_manager() {
    let (_, asked) = drive(
        Request::Stop { unit: text("a.service"), mode: text("replace") },
        vec![Event::Done, Event::Done],
    );
    assert_eq!(
        asked,
        vec![
            Action::OpenManager,
            Action::StopUnit { name: text("a.service"), mode: text("replace") },
            Action::Resolve(Ok(Reply::Done)),
        ]
    );
}

#[test]
fn restart_hands_name_and_mode_to_the_manager() {
    let (_, asked) = drive(
        Request::Restart { unit: text("a.service"), mode: text("isolate") },
        vec![Event::Done, Event::Done],
    );
    assert_eq!(
        asked,
        vec![
            Action::OpenManager,
            Action::RestartUnit { name: text("a.service"), mode: text("isolate") },
            Action::Resolve(Ok(Reply::Done)),
        ]
    );
}

#[test]
fn reboot_goes_through_the_login_manager() {
    let (_, asked) = drive(Request::Reboot { interactive: true }, vec![Event::Done, Event::Done]);
    assert_eq!(
        asked,
        vec![
            Action::OpenLoginManager,
            Action::Reboot { interactive: true },
            Action::Resolve(Ok(Reply::Done)),
        ]
    );
}

#[test]
fn power_off_goes_through_the_login_manager() {
    let (_, asked) =
        drive(Request::PowerOff { interactive: false }, vec![Event::Done, Event::Done]);
    assert_eq!(
        asked,
        vec![
            Action::OpenLoginManager,
            Action::PowerOff { interactive: false },
            Action::Resolve(Ok(Reply::Done)),
        ]
    );
}

#[test]
fn power_off_refused_by_the_login_manager() {
    let (_, asked) = drive(
        Request::PowerOff { interactive: false },
        vec![Event::Done, Event::Failed(text("org.freedesktop.DBus.Error.AccessDenied"))],
    );
    assert_eq!(
        asked.last(),
        Some(&failure(ErrorKind::RemoteCall, "org.freedesktop.DBus.Error.AccessDenied"))
    );
}

#[test]
fn unknown_unit_fails_with_the_text_of_the_bus() {
    let bus = "org.freedesktop.systemd1.NoSuchUnit: Unit nothing.service not loaded.";
    let (operation, asked) = drive(
        Request::ActiveState { unit: text("nothing.service") },
        vec![Event::Done, Event::Failed(text(bus))],
    );
    assert_eq!(
        asked,
        vec![
            Action::OpenManager,
            Action::GetUnit { name: text("nothing.service") },
            failure(ErrorKind::RemoteCall, bus),
        ]
    );
    assert!(operation.is_resolved());
    assert!(operation.step(Event::Done).is_err());
}

#[test]
fn unknown_unit_fails_part_of_too() {
    let (_, asked) = drive(
        Request::PartOf { unit: text("nothing.service") },
        vec![Event::Done, Event::Failed(text("not loaded"))],
    );
    assert_eq!(asked.last(), Some(&failure(ErrorKind::RemoteCall, "not loaded")));
    assert_eq!(asked.len(), 3);
}

#[test]
fn manager_that_does_not_open_ends_the_operation() {
    let (operation, asked) = drive(
        Request::Start { unit: text("a.service"), mode: text("replace") },
        vec![Event::Failed(text("bus gone"))],
    );
    assert_eq!(asked, vec![Action::OpenManager, failure(ErrorKind::RemoteCall, "bus gone")]);
    assert!(operation.is_resolved());
}

#[test]
fn read_that_fails_ends_the_operation() {
    let (_, asked) = drive(
        Request::ActiveState { unit: text("a.service") },
        vec![Event::Done, Event::Done, Event::Failed(text("timed out"))],
    );
    assert_eq!(asked.last(), Some(&failure(ErrorKind::RemoteCall, "timed out")));
}

#[test]
fn start_and_wait_sees_the_unit_become_active() {
    let (operation, asked) = drive(
        start_and_wait(5),
        vec![
            Event::Done,
            Event::Text(text("activating")),
            Event::Done,
            Event::Done,
            Event::Text(text("active")),
            Event::TimedOut,
            Event::Done,
            Event::Number(0),
            Event::Text(text("running")),
        ],
    );
    assert_eq!(
        asked,
        vec![
            Action::OpenUnit { path: text(UNIT_PATH) },
            Action::ReadActiveState,
            Action::Subscribe,
            Action::StartSelf { mode: text("replace") },
            Action::AwaitChange { timeout_secs: 5 },
            Action::AwaitChange { timeout_secs: 5 },
            Action::OpenService { path: text(UNIT_PATH) },
            Action::ReadExecMainStatus,
            Action::ReadSubState,
            Action::Resolve(Ok(Reply::Outcome(WaitOutcome {
                active_state: text("active"),
                exec_main_status: 0,
                sub_state: text("running"),
            }))),
        ]
    );
    assert!(operation.is_resolved());
}

#[test]
fn start_and_wait_subscribes_before_it_starts() {
    let (_, asked) =
        drive(start_and_wait(5), vec![Event::Done, Event::Text(text("inactive")), Event::Done]);
    assert_eq!(
        asked,
        vec![
            Action::OpenUnit { path: text(UNIT_PATH) },
            Action::ReadActiveState,
            Action::Subscribe,
            Action::StartSelf { mode: text("replace") },
        ]
    );
}

#[test]
fn change_right_after_the_start_is_seen() {
    let (_, asked) = drive(
        start_and_wait(5),
        vec![
            Event::Done,
            Event::Text(text("inactive")),
            Event::Done,
            Event::Done,
            Event::Text(text("failed")),
            Event::StreamEnded,
            Event::Done,
            Event::Number(26),
            Event::Text(text("failed")),
        ],
    );
    assert_eq!(
        asked.last(),
        Some(&Action::Resolve(Ok(Reply::Outcome(WaitOutcome {
            active_state: text("failed"),
            exec_main_status: 26,
            sub_state: text("failed"),
        }))))
    );
}

#[test]
fn zero_timeout_still_waits_once() {
    let (_, asked) = drive(
        start_and_wait(0),
        vec![
            Event::Done,
            Event::Text(text("activating")),
            Event::Done,
            Event::Done,
            Event::TimedOut,
            Event::Done,
            Event::Number(0),
            Event::Text(text("start")),
        ],
    );
    assert_eq!(
        asked,
        vec![
            Action::OpenUnit { path: text(UNIT_PATH) },
            Action::ReadActiveState,
            Action::Subscribe,
            Action::StartSelf { mode: text("replace") },
            Action::AwaitChange { timeout_secs: 0 },
            Action::OpenService { path: text(UNIT_PATH) },
            Action::ReadExecMainStatus,
            Action::ReadSubState,
            Action::Resolve(Ok(Reply::Outcome(WaitOutcome {
                active_state: text("activating"),
                exec_main_status: 0,
                sub_state: text("start"),
            }))),
        ]
    );
}

#[test]
fn stream_that_ends_at_once_keeps_the_initial_state() {
    let (_, asked) = drive(
        start_and_wait(30),
        vec![
            Event::Done,
            Event::Text(text("inactive")),
            Event::Done,
            Event::Done,
            Event::StreamEnded,
            Event::Done,
            Event::Number(-1),
            Event::Text(text("dead")),
        ],
    );
    assert_eq!(
        asked.last(),
        Some(&Action::Resolve(Ok(Reply::Outcome(WaitOutcome {
            active_state: text("inactive"),
            exec_main_status: -1,
            sub_state: text("dead"),
        }))))
    );
}

#[test]
fn watch_goes_on_after_a_final_looking_state() {
    let (operation, asked) = drive(
        start_and_wait(7),
        vec![
            Event::Done,
            Event::Text(text("inactive")),
            Event::Done,
            Event::Done,
            Event::Text(text("activating")),
            Event::Text(text("active")),
            Event::Text(text("failed")),
        ],
    );
    assert_eq!(asked.len(), 8);
    assert_eq!(asked[5], Action::AwaitChange { timeout_secs: 7 });
    assert_eq!(asked[6], Action::AwaitChange { timeout_secs: 7 });
    assert_eq!(asked[7], Action::AwaitChange { timeout_secs: 7 });
    assert!(!operation.is_resolved());
}

#[test]
fn largest_timeout_is_handed_on() {
    let (_, asked) = drive(
        start_and_wait(u64::MAX),
        vec![Event::Done, Event::Text(text("inactive")), Event::Done, Event::Done],
    );
    assert_eq!(asked.last(), Some(&Action::AwaitChange { timeout_secs: u64::MAX }));
}

#[test]
fn name_that_gives_no_path_ends_before_any_call() {
    let (operation, first) = Operation::begin(Request::StartAndWait {
        service: text("my service"),
        mode: text("replace"),
        wait_secs: 5,
    });
    assert_eq!(
        first,
        failure(
            ErrorKind::PathEncoding,
            "Cannot convert unit name `my service` to service path"
        )
    );
    assert!(operation.is_resolved());
    assert!(operation.step(Event::Done).is_err());
}

#[test]
fn unit_proxy_that_does_not_open_ends_the_wait() {
    let (_, asked) = drive(start_and_wait(5), vec![Event::Failed(text("no such object"))]);
    assert_eq!(asked.last(), Some(&failure(ErrorKind::RemoteCall, "no such object")));
    assert_eq!(asked.len(), 2);
}

#[test]
fn initial_state_that_cannot_be_read_ends_the_wait() {
    let (_, asked) =
        drive(start_and_wait(5), vec![Event::Done, Event::Failed(text("no such property"))]);
    assert_eq!(asked.last(), Some(&failure(ErrorKind::RemoteCall, "no such property")));
}

#[test]
fn start_that_fails_ends_before_any_wait() {
    let (operation, asked) = drive(
        start_and_wait(5),
        vec![
            Event::Done,
            Event::Text(text("inactive")),
            Event::Done,
            Event::Failed(text("unit is masked")),
        ],
    );
    assert_eq!(
        asked,
        vec![
            Action::OpenUnit { path: text(UNIT_PATH) },
            Action::ReadActiveState,
            Action::Subscribe,
            Action::StartSelf { mode: text("replace") },
            failure(
                ErrorKind::StartFailed,
                "Failed to start unit /org/freedesktop/systemd1/unit/myservice_2eservice"
            ),
        ]
    );
    assert!(operation.is_resolved());
}

#[test]
fn change_that_cannot_be_read_ends_the_wait() {
    let (_, asked) = drive(
        start_and_wait(5),
        vec![
            Event::Done,
            Event::Text(text("inactive")),
            Event::Done,
            Event::Done,
            Event::Text(text("activating")),
            Event::Failed(text("wrong type")),
        ],
    );
    assert_eq!(asked.last(), Some(&failure(ErrorKind::RemoteCall, "wrong type")));
}

fn finalize_failure(closing: Vec<Event>) -> Action {
    let mut events = vec![
        Event::Done,
        Event::Text(text("inactive")),
        Event::Done,
        Event::Done,
        Event::Text(text("active")),
        Event::TimedOut,
    ];
    events.extend(closing);
    let (operation, mut asked) = drive(start_and_wait(5), events);
    assert!(operation.is_resolved());
    match asked.pop() {
        Some(action) => action,
        None => panic!("nothing was asked for"),
    }
}

#[test]
fn service_proxy_that_does_not_open_fails_the_whole_wait() {
    assert_eq!(
        finalize_failure(vec![Event::Failed(text("gone"))]),
        failure(
            ErrorKind::FinalizeFailed,
            "Cannot build service proxy for /org/freedesktop/systemd1/unit/myservice_2eservice"
        )
    );
}

#[test]
fn status_that_cannot_be_read_fails_the_whole_wait() {
    assert_eq!(
        finalize_failure(vec![Event::Done, Event::Failed(text("gone"))]),
        failure(
            ErrorKind::FinalizeFailed,
            "Failed to get main process status for /org/freedesktop/systemd1/unit/myservice_2eservice"
        )
    );
}

#[test]
fn sub_state_that_cannot_be_read_fails_the_whole_wait() {
    assert_eq!(
        finalize_failure(vec![Event::Done, Event::Number(3), Event::Failed(text("gone"))]),
        failure(
            ErrorKind::FinalizeFailed,
            "Failed to get unit sub state for /org/freedesktop/systemd1/unit/myservice_2eservice"
        )
    );
}

#[test]
fn event_that_is_no_answer_changes_nothing() {
    let (operation, _) = Operation::begin(Request::ActiveState { unit: text("a.service") });
    let operation = match operation.step(Event::Number(7)) {
        Ok((_, action)) => panic!("answered with {:?}", action),
        Err(same) => same,
    };
    let operation = match operation.step(Event::TimedOut) {
        Ok((_, action)) => panic!("answered with {:?}", action),
        Err(same) => same,
    };
    match operation.step(Event::Done) {
        Ok((_, action)) => assert_eq!(action, Action::GetUnit { name: text("a.service") }),
        Err(same) => panic!("event refused in {:?}", same),
    }
}

#[test]
fn subscription_takes_no_failure() {
    let (operation, _) =
        drive(start_and_wait(5), vec![Event::Done, Event::Text(text("inactive"))]);
    let operation = match operation.step(Event::Failed(text("late"))) {
        Ok((_, action)) => panic!("answered with {:?}", action),
        Err(same) => same,
    };
    match operation.step(Event::Done) {
        Ok((_, action)) => assert_eq!(action, Action::StartSelf { mode: text("replace") }),
        Err(same) => panic!("event refused in {:?}", same),
    }
}

#[test]
fn timeout_is_no_answer_outside_the_watch() {
    let (operation, _) = drive(start_and_wait(5), vec![Event::Done]);
    assert!(operation.step(Event::TimedOut).is_err());
    let (operation, _) = drive(start_and_wait(5), vec![Event::Done]);
    assert!(operation.step(Event::StreamEnded).is_err());
}

#[test]
fn operations_on_one_unit_do_not_touch_each_other() {
    let alone = drive(
        Request::ActiveState { unit: text("a.service") },
        vec![Event::Done, Event::Done, Event::Text(text("active"))],
    )
    .1;
    let alone_failing = drive(
        Request::ActiveState { unit: text("a.service") },
        vec![Event::Done, Event::Failed(text("not loaded"))],
    )
    .1;

    let (first, first_action) = Operation::begin(Request::ActiveState { unit: text("a.service") });
    let (second, second_action) =
        Operation::begin(Request::ActiveState { unit: text("a.service") });
    let mut first_asked = vec![first_action];
    let mut second_asked = vec![second_action];
    let (first, action) = first.step(Event::Done).unwrap();
    first_asked.push(action);
    let (second, action) = second.step(Event::Done).unwrap();
    second_asked.push(action);
    let (second, action) = second.step(Event::Failed(text("not loaded"))).unwrap();
    second_asked.push(action);
    let (first, action) = first.step(Event::Done).unwrap();
    first_asked.push(action);
    let (first, action) = first.step(Event::Text(text("active"))).unwrap();
    first_asked.push(action);

    assert_eq!(first_asked, alone);
    assert_eq!(second_asked, alone_failing);
    assert!(first.is_resolved());
    assert!(second.is_resolved());
}

use fcopy::atoms::{AtomTable, WellKnown};
use fcopy::manager::{ClipboardManager, Diagnostic, LoopState, RunError};
use fcopy::protocol::{ConversionRequest, Event, PropertyValue, Request, SelectionNotify};
use fcopy::session::Session;

const WINDOW: u32 = 0x4e0_0001;
const REQUESTOR: u32 = 0x60_0002;
const CLIPBOARD: u32 = 401;
const PRIMARY: u32 = 1;
const UTF8: u32 = 403;
const TARGETS: u32 = 404;
const MULTIPLE: u32 = 405;
const TEXT_UTF8: u32 = 406;
const TEXT_GTK: u32 = 407;
const IMAGE_PNG: u32 = 512;
const ALL: [u32; 7] = [CLIPBOARD, PRIMARY, UTF8, TARGETS, MULTIPLE, TEXT_UTF8, TEXT_GTK];

fn session_with(atoms: [u32; 7]) -> Session {
    let mut table = AtomTable::new();
    for (i, atom) in atoms.iter().enumerate() {
        table.resolve(WellKnown::from_index(i).unwrap(), *atom);
    }
    Session::new(WINDOW, table).ok().unwrap()
}

fn manager(data: &str, test: bool) -> ClipboardManager {
    ClipboardManager::new(data.to_string(), test, session_with(ALL))
}

fn request(target: u32, property: u32) -> ConversionRequest {
    ConversionRequest { requestor: REQUESTOR, selection: CLIPBOARD, target, property }
}

fn asking(target: u32, property: u32) -> Event {
    Event::SelectionRequest(request(target, property))
}

fn notify(target: u32, property: u32) -> Request {
    Request::SendEvent {
        propagate: false,
        destination: REQUESTOR,
        event_mask: 1 << 22,
        event: SelectionNotify {
            time: 0,
            requestor: REQUESTOR,
            selection: CLIPBOARD,
            target,
            property,
        },
    }
}

fn write(target: u32, property: u32, value: PropertyValue) -> Request {
    Request::ChangeProperty { mode: 0, window: REQUESTOR, property, kind: target, value }
}

fn count_writes(requests: &[Request]) -> usize {
    requests.iter().filter(|r| matches!(r, Request::ChangeProperty { .. })).count()
}

fn count_notifications(requests: &[Request]) -> usize {
    requests.iter().filter(|r| matches!(r, Request::SendEvent { .. })).count()
}

#[test]
fn new_manager_runs() {
    let manager = manager("hello", false);
    assert_eq!(manager.state(), LoopState::Running);
    assert!(manager.is_running());
    assert_eq!(manager.result(), None);
    assert_eq!(manager.payload(), b"hello");
    assert!(!manager.is_tracing());
    assert_eq!(manager.session().window(), WINDOW);
    assert_eq!(manager.session().atom(WellKnown::Targets), TARGETS);
}

#[test]
fn payload_is_the_text_in_utf8() {
    let manager = manager("gr\u{fc}\u{df} \u{2764}", true);
    assert_eq!(manager.payload(), &[b'g', b'r', 0xc3, 0xbc, 0xc3, 0x9f, b' ', 0xe2, 0x9d, 0xa4]);
    assert!(manager.is_tracing());
}

#[test]
fn utf8_request_writes_hello() {
    let mut manager = manager("hello", false);
    let reaction = manager.handle_event(&asking(UTF8, 90));
    assert_eq!(
        reaction.requests,
        vec![
            write(UTF8, 90, PropertyValue::Bytes(vec![b'h', b'e', b'l', b'l', b'o'])),
            notify(UTF8, 90),
            Request::Flush,
        ]
    );
    match &reaction.requests[0] {
        Request::ChangeProperty { value, .. } => {
            assert_eq!(value.format(), 8);
            assert_eq!(value.len(), 5);
        }
        other => panic!("no write: {:?}", other),
    }
    assert!(reaction.trace.is_empty());
    assert!(manager.is_running());
}

#[test]
fn targets_request_writes_the_atom_table() {
    let mut manager = manager("hello", false);
    let reaction = manager.handle_event(&asking(TARGETS, 91));
    assert_eq!(
        reaction.requests,
        vec![
            write(TARGETS, 91, PropertyValue::Atoms(ALL.to_vec())),
            notify(TARGETS, 91),
            Request::Flush,
        ]
    );
    match &reaction.requests[0] {
        Request::ChangeProperty { value, .. } => assert_eq!(value.format(), 32),
        other => panic!("no write: {:?}", other),
    }
}

#[test]
fn targets_answer_does_not_depend_on_what_came_before() {
    let mut fresh = manager("hello", false);
    let first = fresh.handle_event(&asking(TARGETS, 91)).requests;
    let mut used = manager("hello", false);
    used.handle_event(&asking(UTF8, 90));
    used.handle_event(&Event::Other);
    used.handle_event(&asking(IMAGE_PNG, 92));
    used.handle_event(&asking(MULTIPLE, 93));
    let later = used.handle_event(&asking(TARGETS, 91)).requests;
    assert_eq!(first, later);
    let mut listed = match &later[0] {
        Request::ChangeProperty { value: PropertyValue::Atoms(atoms), .. } => atoms.clone(),
        other => panic!("no atom list: {:?}", other),
    };
    listed.sort();
    let mut expected = used.session().atoms().all();
    expected.sort();
    assert_eq!(listed, expected);
}

#[test]
fn multiple_request_reads_and_notifies() {
    let mut manager = manager("hello", false);
    let reaction = manager.handle_event(&asking(MULTIPLE, 93));
    assert_eq!(
        reaction.requests,
        vec![
            Request::GetProperty {
                delete: false,
                window: REQUESTOR,
                property: 93,
                kind: MULTIPLE,
                long_offset: 0,
                long_length: u32::MAX,
            },
            notify(MULTIPLE, 93),
            Request::Flush,
        ]
    );
    assert_eq!(count_writes(&reaction.requests), 0);
}

#[test]
fn unknown_target_is_declined_and_notified() {
    let mut manager = manager("hello", false);
    let reaction = manager.handle_event(&asking(IMAGE_PNG, 92));
    assert_eq!(reaction.requests, vec![notify(IMAGE_PNG, 92), Request::Flush]);
    assert_eq!(count_writes(&reaction.requests), 0);
    assert_eq!(count_notifications(&reaction.requests), 1);
    assert!(manager.is_running());
}

#[test]
fn request_without_destination_writes_nothing() {
    for target in [UTF8, TEXT_UTF8, TEXT_GTK, TARGETS, MULTIPLE, IMAGE_PNG] {
        let mut manager = manager("hello", true);
        let reaction = manager.handle_event(&asking(target, 0));
        assert_eq!(reaction.requests, vec![notify(target, 0), Request::Flush]);
        assert_eq!(count_writes(&reaction.requests), 0);
        assert_eq!(count_notifications(&reaction.requests), 1);
        assert!(reaction.trace.is_empty());
    }
}

#[test]
fn notification_follows_the_write() {
    let mut manager = manager("hello", false);
    for target in [UTF8, TEXT_UTF8, TEXT_GTK, TARGETS] {
        let requests = manager.handle_event(&asking(target, 90)).requests;
        assert_eq!(requests.len(), 3);
        assert!(matches!(requests[0], Request::ChangeProperty { .. }));
        assert_eq!(requests[1], notify(target, 90));
        assert_eq!(requests[2], Request::Flush);
    }
}

#[test]
fn other_events_are_ignored() {
    let mut manager = manager("hello", true);
    let reaction = manager.handle_event(&Event::Other);
    assert!(reaction.requests.is_empty());
    assert!(reaction.trace.is_empty());
    assert_eq!(manager.state(), LoopState::Running);
}

#[test]
fn selection_clear_terminates() {
    let mut manager = manager("hello", true);
    let reaction = manager.handle_event(&Event::SelectionClear);
    assert!(reaction.requests.is_empty());
    assert!(reaction.trace.is_empty());
    assert_eq!(manager.state(), LoopState::Terminated(Ok(())));
    assert!(!manager.is_running());
    assert_eq!(manager.result(), Some(Ok(())));
}

#[test]
fn terminated_manager_handles_nothing() {
    let mut manager = manager("hello", true);
    manager.handle_event(&Event::SelectionClear);
    for event in [asking(UTF8, 90), asking(TARGETS, 91), Event::Other, Event::SelectionClear] {
        let reaction = manager.handle_event(&event);
        assert!(reaction.requests.is_empty());
        assert!(reaction.trace.is_empty());
        assert_eq!(manager.state(), LoopState::Terminated(Ok(())));
    }
}

#[test]
fn read_failure_terminates_with_an_error() {
    let mut manager = manager("hello", false);
    manager.read_failed();
    assert_eq!(manager.state(), LoopState::Terminated(Err(RunError::ConnectionLost)));
    assert_eq!(manager.result(), Some(Err(RunError::ConnectionLost)));
    assert!(manager.handle_event(&asking(UTF8, 90)).requests.is_empty());
}

#[test]
fn read_failure_after_the_end_changes_nothing() {
    let mut manager = manager("hello", false);
    manager.handle_event(&Event::SelectionClear);
    manager.read_failed();
    assert_eq!(manager.result(), Some(Ok(())));
    let mut manager = self::manager("hello", false);
    manager.read_failed();
    manager.handle_event(&Event::SelectionClear);
    assert_eq!(manager.result(), Some(Err(RunError::ConnectionLost)));
}

#[test]
fn run_answers_each_request_in_order() {
    let mut manager = manager("hi", false);
    let events = vec![asking(UTF8, 90), Event::Other, asking(IMAGE_PNG, 92), asking(TARGETS, 91)];
    let reaction = manager.run(&events);
    assert_eq!(
        reaction.requests,
        vec![
            write(UTF8, 90, PropertyValue::Bytes(vec![b'h', b'i'])),
            notify(UTF8, 90),
            Request::Flush,
            notify(IMAGE_PNG, 92),
            Request::Flush,
            write(TARGETS, 91, PropertyValue::Atoms(ALL.to_vec())),
            notify(TARGETS, 91),
            Request::Flush,
        ]
    );
    assert!(manager.is_running());
}

#[test]
fn run_stops_at_selection_clear() {
    let mut manager = manager("hi", true);
    let events = vec![
        asking(UTF8, 90),
        Event::SelectionClear,
        asking(TARGETS, 91),
        asking(UTF8, 94),
        Event::SelectionClear,
    ];
    let reaction = manager.run(&events);
    assert_eq!(
        reaction.requests,
        vec![
            write(UTF8, 90, PropertyValue::Bytes(vec![b'h', b'i'])),
            notify(UTF8, 90),
            Request::Flush,
        ]
    );
    assert_eq!(
        reaction.trace,
        vec![Diagnostic::Requested { target: UTF8, name: Some(WellKnown::Utf8String) }]
    );
    assert_eq!(manager.result(), Some(Ok(())));
    let again = manager.run(&events);
    assert!(again.requests.is_empty());
    assert!(again.trace.is_empty());
}

#[test]
fn run_over_nothing_does_nothing() {
    let mut manager = manager("hi", true);
    let reaction = manager.run(&Vec::new());
    assert!(reaction.requests.is_empty());
    assert!(reaction.trace.is_empty());
    assert!(manager.is_running());
}

#[test]
fn run_is_handling_one_event_after_the_other() {
    let events = vec![
        asking(TARGETS, 91),
        asking(MULTIPLE, 93),
        Event::Other,
        asking(TEXT_GTK, 95),
        Event::SelectionClear,
        asking(UTF8, 90),
    ];
    let mut stepwise = manager("text", true);
    let mut requests = Vec::new();
    let mut trace = Vec::new();
    for event in events.iter() {
        let mut reaction = stepwise.handle_event(event);
        requests.append(&mut reaction.requests);
        trace.append(&mut reaction.trace);
    }
    let mut batch = manager("text", true);
    let reaction = batch.run(&events);
    assert_eq!(reaction.requests, requests);
    assert_eq!(reaction.trace, trace);
    assert_eq!(batch.state(), stepwise.state());
}

#[test]
fn every_text_target_of_the_list_gives_the_payload_back() {
    let mut manager = manager("round trip \u{2713}", false);
    let listed = match manager.handle_event(&asking(TARGETS, 91)).requests.remove(0) {
        Request::ChangeProperty { value: PropertyValue::Atoms(atoms), .. } => atoms,
        other => panic!("no atom list: {:?}", other),
    };
    let mut answered = 0;
    for target in listed {
        if target == MULTIPLE {
            continue;
        }
        let requests = manager.handle_event(&asking(target, 96)).requests;
        if target == UTF8 || target == TEXT_UTF8 || target == TEXT_GTK {
            assert_eq!(
                requests[0],
                write(target, 96, PropertyValue::Bytes("round trip \u{2713}".as_bytes().to_vec()))
            );
            answered += 1;
        }
    }
    assert_eq!(answered, 3);
}

#[test]
fn text_atom_that_is_also_targets_gives_the_list() {
    let session = session_with([CLIPBOARD, PRIMARY, 5, 5, MULTIPLE, TEXT_UTF8, TEXT_GTK]);
    let mut manager = ClipboardManager::new("hello".to_string(), false, session);
    let requests = manager.handle_event(&asking(5, 90)).requests;
    assert_eq!(
        requests[0],
        write(
            5,
            90,
            PropertyValue::Atoms(vec![CLIPBOARD, PRIMARY, 5, 5, MULTIPLE, TEXT_UTF8, TEXT_GTK])
        )
    );
}

#[test]
fn tracing_names_each_requested_target() {
    let mut manager = manager("hello", true);
    assert_eq!(
        manager.handle_event(&asking(TARGETS, 91)).trace,
        vec![Diagnostic::Requested { target: TARGETS, name: Some(WellKnown::Targets) }]
    );
    assert_eq!(
        manager.handle_event(&asking(TEXT_UTF8, 90)).trace,
        vec![Diagnostic::Requested { target: TEXT_UTF8, name: Some(WellKnown::TextPlainUtf8) }]
    );
    assert_eq!(
        manager.handle_event(&asking(MULTIPLE, 93)).trace,
        vec![Diagnostic::Requested { target: MULTIPLE, name: Some(WellKnown::Multiple) }]
    );
}

#[test]
fn tracing_marks_unknown_targets() {
    let mut manager = manager("hello", true);
    assert_eq!(
        manager.handle_event(&asking(IMAGE_PNG, 92)).trace,
        vec![
            Diagnostic::Requested { target: IMAGE_PNG, name: None },
            Diagnostic::Unknown { target: IMAGE_PNG, name: None },
        ]
    );
    assert_eq!(
        manager.handle_event(&asking(CLIPBOARD, 92)).trace,
        vec![
            Diagnostic::Requested { target: CLIPBOARD, name: Some(WellKnown::Clipboard) },
            Diagnostic::Unknown { target: CLIPBOARD, name: Some(WellKnown::Clipboard) },
        ]
    );
}

#[test]
fn tracing_changes_nothing_that_is_sent() {
    let events = vec![
        asking(TARGETS, 91),
        asking(IMAGE_PNG, 92),
        asking(UTF8, 0),
        asking(MULTIPLE, 93),
        asking(UTF8, 90),
        Event::SelectionClear,
    ];
    let mut quiet = manager("hello", false);
    let mut loud = manager("hello", true);
    let silent = quiet.run(&events);
    let traced = loud.run(&events);
    assert_eq!(silent.requests, traced.requests);
    assert!(silent.trace.is_empty());
    assert_eq!(traced.trace.len(), 5);
    assert_eq!(quiet.state(), loud.state());
}

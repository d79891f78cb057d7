use ble_toggle::dispatch::{handle_event, Event, Note, Reaction, Response};
use ble_toggle::StateCell;

fn write(cell: &mut StateCell, payload: &[u8]) -> Reaction {
    handle_event(
        cell,
        &Event::WriteRequested {
            offset: 0,
            payload: payload.to_vec(),
        },
    )
}

fn read(cell: &mut StateCell) -> Reaction {
    handle_event(cell, &Event::ReadRequested { offset: 0 })
}

#[test]
fn cell_starts_off() {
    let cell = StateCell::new();
    assert!(!cell.read());
    assert_eq!(cell.text(), "off");
}

#[test]
fn cell_write_then_read() {
    let mut cell = StateCell::new();
    cell.write(true);
    assert!(cell.read());
    assert_eq!(cell.text(), "on");
    cell.write(false);
    assert!(!cell.read());
}

#[test]
fn last_write_wins_over_a_sequence() {
    let mut cell = StateCell::new();
    for (payload, expected) in [("on", true), ("off", false), ("on", true), ("on", true)] {
        write(&mut cell, payload.as_bytes());
        assert_eq!(cell.read(), expected);
    }
    write(&mut cell, b"off");
    write(&mut cell, b"on");
    write(&mut cell, b"off");
    assert!(!cell.read());
}

#[test]
fn read_reports_current_state() {
    let mut cell = StateCell::new();
    let r = read(&mut cell);
    assert_eq!(r.response, Some(Response::Read { value: b"off".to_vec() }));
    assert_eq!(r.notify, None);
    assert_eq!(r.note, Note::ReadAnswered(false));
    write(&mut cell, b"on");
    let r = read(&mut cell);
    assert_eq!(r.response, Some(Response::Read { value: b"on".to_vec() }));
    assert_eq!(r.note, Note::ReadAnswered(true));
    assert!(cell.read());
}

#[test]
fn every_write_is_acknowledged() {
    let mut cell = StateCell::new();
    for payload in [&b"on"[..], b"off", b"", b"ON", b"garbage", &[0xFF, 0xFE], &[0xC0]] {
        let r = write(&mut cell, payload);
        assert_eq!(r.response, Some(Response::Write));
    }
}

#[test]
fn write_on_sets_state_and_notifies() {
    let mut cell = StateCell::new();
    let r = write(&mut cell, b"on");
    assert!(cell.read());
    assert_eq!(r.notify, Some(b"on".to_vec()));
    assert_eq!(r.note, Note::StateChanged(true));
}

#[test]
fn write_trims_whitespace() {
    let mut cell = StateCell::new();
    let r = write(&mut cell, b"  on\r\n");
    assert!(cell.read());
    assert_eq!(r.notify, Some(b"on".to_vec()));
    let r = write(&mut cell, b"\toff ");
    assert!(!cell.read());
    assert_eq!(r.notify, Some(b"off".to_vec()));
    assert_eq!(r.note, Note::StateChanged(false));
}

#[test]
fn write_is_case_sensitive() {
    let mut cell = StateCell::new();
    let r = write(&mut cell, b"ON");
    assert!(!cell.read());
    assert_eq!(r.note, Note::Unrecognized);
    assert_eq!(r.notify, Some(b"ON".to_vec()));
    assert_eq!(r.response, Some(Response::Write));
}

#[test]
fn write_maybe_changes_nothing() {
    let mut cell = StateCell::new();
    let r = write(&mut cell, b"maybe");
    assert!(!cell.read());
    assert_eq!(r.response, Some(Response::Write));
    assert_eq!(r.note, Note::Unrecognized);
    assert_eq!(r.notify, Some(b"maybe".to_vec()));
    cell.write(true);
    write(&mut cell, b"maybe");
    assert!(cell.read());
}

#[test]
fn write_non_text_changes_nothing() {
    let mut cell = StateCell::new();
    cell.write(true);
    let r = write(&mut cell, &[0xFF, 0xFE]);
    assert!(cell.read());
    assert_eq!(r.response, Some(Response::Write));
    assert_eq!(r.note, Note::NotText);
    assert_eq!(r.notify, None);
}

#[test]
fn empty_write_is_unrecognized() {
    let mut cell = StateCell::new();
    let r = write(&mut cell, b"");
    assert!(!cell.read());
    assert_eq!(r.note, Note::Unrecognized);
    assert_eq!(r.response, Some(Response::Write));
}

#[test]
fn non_request_events_get_no_response() {
    let mut cell = StateCell::new();
    let r = handle_event(&mut cell, &Event::PowerChanged { is_powered: true });
    assert_eq!(r.response, None);
    assert_eq!(r.note, Note::PowerChanged(true));
    let r = handle_event(&mut cell, &Event::SubscriptionChanged { subscribed: false });
    assert_eq!(r.response, None);
    assert_eq!(r.note, Note::SubscriptionChanged(false));
    let r = handle_event(&mut cell, &Event::Other);
    assert_eq!(r.response, None);
    assert_eq!(r.notify, None);
    assert_eq!(r.note, Note::Unhandled);
    assert!(!cell.read());
}

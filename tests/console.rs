use ble_toggle::console::handle_console_line;
use ble_toggle::StateCell;

#[test]
fn console_mixed_case_on() {
    let mut cell = StateCell::new();
    let r = handle_console_line(&mut cell, "ON");
    assert_eq!(r.set, Some(true));
    assert!(cell.read());
    assert_eq!(r.notify, b"ON".to_vec());
}

#[test]
fn console_off_with_whitespace_forwards_raw_line() {
    let mut cell = StateCell::new();
    cell.write(true);
    let r = handle_console_line(&mut cell, "  Off \t");
    assert_eq!(r.set, Some(false));
    assert!(!cell.read());
    assert_eq!(r.notify, b"  Off \t".to_vec());
}

#[test]
fn console_other_text_is_forwarded() {
    let mut cell = StateCell::new();
    let r = handle_console_line(&mut cell, "hello there");
    assert_eq!(r.set, None);
    assert!(!cell.read());
    assert_eq!(r.notify, b"hello there".to_vec());
}

#[test]
fn console_empty_line() {
    let mut cell = StateCell::new();
    cell.write(true);
    let r = handle_console_line(&mut cell, "");
    assert_eq!(r.set, None);
    assert!(cell.read());
    assert!(r.notify.is_empty());
}

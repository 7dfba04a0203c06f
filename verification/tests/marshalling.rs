use blinky::bounded::BoundedString;
use blinky::bounded::CAPACITY;
use blinky::sequencer::prepare_print;
use blinky::sequencer::Action;
use blinky::WrapperError;

#[test]
fn capacity_is_sixty_four() {
    assert_eq!(CAPACITY, 64);
}

#[test]
fn from_text_keeps_the_bytes() {
    let b = BoundedString::from_text(b"Hello from Rust!").unwrap();
    assert_eq!(b.as_bytes(), b"Hello from Rust!");
}

#[test]
fn from_text_accepts_empty_text() {
    let b = BoundedString::from_text(b"").unwrap();
    assert_eq!(b.as_bytes(), b"");
}

#[test]
fn from_text_accepts_sixty_three_bytes() {
    let text = [120u8; 63];
    let b = BoundedString::from_text(&text).unwrap();
    assert_eq!(b.as_bytes(), &text);
}

#[test]
fn from_text_rejects_sixty_four_bytes() {
    let text = [120u8; 64];
    match BoundedString::from_text(&text) {
        Err(e) => assert_eq!(e, WrapperError::Overflow),
        Ok(b) => panic!("expected an overflow failure, got {:?}", b),
    }
}

#[test]
fn append_terminator_adds_one_null() {
    let mut b = BoundedString::from_text(b"hi").unwrap();
    b.append_terminator().unwrap();
    assert_eq!(b.as_bytes(), b"hi\0");
}

#[test]
fn append_terminator_fails_when_full() {
    let text = [120u8; 63];
    let mut b = BoundedString::from_text(&text).unwrap();
    b.append_terminator().unwrap();
    assert_eq!(b.as_bytes().len(), 64);
    assert_eq!(b.append_terminator(), Err(WrapperError::Overflow));
    assert_eq!(b.as_bytes().len(), 64);
}

#[test]
fn prepare_print_terminates_the_message() {
    match prepare_print(b"Hello from Rust!") {
        Ok(Action::Print { msg }) => assert_eq!(msg.as_bytes(), b"Hello from Rust!\0"),
        other => panic!("expected a print request, got {:?}", other),
    }
}

#[test]
fn prepare_print_accepts_sixty_three_bytes() {
    let text = [121u8; 63];
    match prepare_print(&text) {
        Ok(Action::Print { msg }) => {
            assert_eq!(msg.as_bytes().len(), 64);
            assert_eq!(&msg.as_bytes()[..63], &text);
            assert_eq!(msg.as_bytes()[63], 0);
        },
        other => panic!("expected a print request, got {:?}", other),
    }
}

#[test]
fn prepare_print_rejects_sixty_four_bytes() {
    let text = [121u8; 64];
    match prepare_print(&text) {
        Err(WrapperError::Overflow) => {},
        other => panic!("expected an overflow failure, got {:?}", other),
    }
}

#[test]
fn banner_text_is_the_banner() {
    assert_eq!(blinky::sequencer::banner_text(), b"Hello from Rust!".to_vec());
}

#[test]
fn fallback_text_is_the_diagnostic() {
    assert_eq!(blinky::sequencer::fallback_text(), b"Fault: system halted".to_vec());
}

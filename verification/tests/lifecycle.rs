use midi_link::devices::Direction;
use midi_link::errors::{dispatch_outcome, MidiError};
use midi_link::slots::{ConnectionManager, ConnectionSlot};

#[test]
fn new_manager_has_no_connections() {
    let m: ConnectionManager<u8, u8> = ConnectionManager::new();
    assert!(!m.input_connected());
    assert!(!m.output_connected());
    assert_eq!(m.input_port(), None);
    assert_eq!(m.output_port(), None);
}

#[test]
fn send_before_any_open_fails_not_connected() {
    let mut m: ConnectionManager<u8, u8> = ConnectionManager::new();
    let e = m.active_output().err().expect("no output is open");
    assert_eq!(e, MidiError::NotConnected);
    assert_eq!(e.text(), "Output not connected".to_string());
}

#[test]
fn open_output_with_invalid_index_fails_and_leaves_slot_unchanged() {
    let mut m: ConnectionManager<u8, u8> = ConnectionManager::new();
    let e = m.prepare_open_output(3, 3).err().expect("index 3 is out of range");
    assert_eq!(e, MidiError::InvalidIndex(Direction::Output));
    assert_eq!(e.text(), "Invalid output index".to_string());
    assert!(!m.output_connected());

    // Once a connection is live, a failed open leaves it untouched.
    let p = m.prepare_open_output(3, 2).expect("index 2 is in range");
    m.finish_open_output(p, Ok(40u8)).expect("connect succeeded");
    let e = m.prepare_open_output(3, 7).err().expect("index 7 is out of range");
    assert_eq!(e, MidiError::InvalidIndex(Direction::Output));
    assert_eq!(m.output_port(), Some(2));
}

#[test]
fn open_input_with_invalid_index_fails_and_leaves_slot_unchanged() {
    let mut m: ConnectionManager<u8, u8> = ConnectionManager::new();
    let e = m.prepare_open_input(0, 0).err().expect("an empty list has no index");
    assert_eq!(e, MidiError::InvalidIndex(Direction::Input));
    assert_eq!(e.text(), "Invalid input index".to_string());
    assert!(!m.input_connected());
}

#[test]
fn open_output_with_valid_index_succeeds() {
    let mut m: ConnectionManager<u8, u8> = ConnectionManager::new();
    let p = m.prepare_open_output(3, 1).expect("index 1 is in range");
    assert_eq!(p.index(), 1);
    m.finish_open_output(p, Ok(10u8)).expect("connect succeeded");
    assert!(m.output_connected());
    assert_eq!(m.output_port(), Some(1));
    assert!(!m.input_connected());
}

#[test]
fn open_input_with_valid_index_succeeds() {
    let mut m: ConnectionManager<u8, u8> = ConnectionManager::new();
    let p = m.prepare_open_input(2, 0).expect("index 0 is in range");
    assert_eq!(p.index(), 0);
    m.finish_open_input(p, Ok(99u8)).expect("connect succeeded");
    assert!(m.input_connected());
    assert_eq!(m.input_port(), Some(0));
    assert!(!m.output_connected());
}

#[test]
fn reopen_output_releases_first_then_installs_second() {
    let mut m: ConnectionManager<u8, u8> = ConnectionManager::new();
    let p = m.prepare_open_output(3, 0).expect("index 0 is in range");
    m.finish_open_output(p, Ok(10u8)).expect("connect succeeded");
    assert_eq!(m.output_port(), Some(0));

    let p = m.prepare_open_output(3, 1).expect("index 1 is in range");
    // The first connection is fully released before the second connect.
    assert!(!m.output_connected());
    m.finish_open_output(p, Ok(20u8)).expect("connect succeeded");
    // Exactly the second connection is live.
    assert_eq!(m.output_port(), Some(1));
    let h = m.active_output().expect("the second connection is live");
    assert_eq!(*h, 20u8);
}

#[test]
fn reopen_input_releases_first_then_installs_second() {
    let mut m: ConnectionManager<u8, u8> = ConnectionManager::new();
    let p = m.prepare_open_input(2, 1).expect("index 1 is in range");
    m.finish_open_input(p, Ok(1u8)).expect("connect succeeded");
    let p = m.prepare_open_input(2, 0).expect("index 0 is in range");
    assert!(!m.input_connected());
    m.finish_open_input(p, Ok(2u8)).expect("connect succeeded");
    assert_eq!(m.input_port(), Some(0));
}

#[test]
fn failed_connect_surfaces_report_and_leaves_slot_empty() {
    let mut m: ConnectionManager<u8, u8> = ConnectionManager::new();
    let p = m.prepare_open_output(1, 0).expect("index 0 is in range");
    let e = m
        .finish_open_output(p, Err("port disappeared".to_string()))
        .err()
        .expect("connect failed");
    assert_eq!(e, MidiError::Enumeration("port disappeared".to_string()));
    assert!(!m.output_connected());

    let p = m.prepare_open_input(1, 0).expect("index 0 is in range");
    let e = m
        .finish_open_input(p, Err("busy".to_string()))
        .err()
        .expect("connect failed");
    assert_eq!(e, MidiError::Enumeration("busy".to_string()));
    assert!(!m.input_connected());
}

#[test]
fn active_output_hands_out_the_live_handle_exclusively() {
    let mut m: ConnectionManager<u8, u8> = ConnectionManager::new();
    let p = m.prepare_open_output(1, 0).expect("index 0 is in range");
    m.finish_open_output(p, Ok(5u8)).expect("connect succeeded");
    {
        let h = m.active_output().expect("a connection is live");
        assert_eq!(*h, 5u8);
        *h = 6u8;
    }
    let h = m.active_output().expect("still live on the same port");
    assert_eq!(*h, 6u8);
    assert_eq!(m.output_port(), Some(0));
}

#[test]
fn slot_install_after_clear_holds_exactly_the_new_connection() {
    let mut s: ConnectionSlot<u8> = ConnectionSlot::new();
    assert!(!s.is_connected());
    assert_eq!(s.port(), None);
    s.install(4, 11u8);
    assert!(s.is_connected());
    assert_eq!(s.port(), Some(4));
    s.clear();
    assert!(!s.is_connected());
    s.install(2, 12u8);
    assert_eq!(s.port(), Some(2));
}

#[test]
fn dispatch_outcome_passes_success_and_wraps_failure() {
    assert_eq!(dispatch_outcome(Ok(())), Ok(()));
    let e = dispatch_outcome(Err("device gone".to_string())).err().expect("transmit failed");
    assert_eq!(e, MidiError::Dispatch("device gone".to_string()));
    assert_eq!(e.text(), "device gone".to_string());
}

#[test]
fn error_text_of_each_kind() {
    assert_eq!(
        MidiError::Enumeration("driver unavailable".to_string()).text(),
        "driver unavailable".to_string()
    );
    assert_eq!(
        MidiError::InvalidIndex(Direction::Input).text(),
        "Invalid input index".to_string()
    );
    assert_eq!(
        MidiError::InvalidIndex(Direction::Output).text(),
        "Invalid output index".to_string()
    );
    assert_eq!(MidiError::LockUnavailable.text(), "Lock poisoned".to_string());
    assert_eq!(MidiError::NotConnected.text(), "Output not connected".to_string());
    assert_eq!(MidiError::Dispatch("send failed".to_string()).text(), "send failed".to_string());
}

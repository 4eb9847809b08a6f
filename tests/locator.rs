use alphadep::locator::{probe_command, probe_response_ok, wrapper_candidates, LocateAction, LocateEvent, LocateStage, Locator};

fn reply(text: &[u8]) -> Vec<u8> {
    let mut v = (text.len() as u32).to_be_bytes().to_vec();
    v.extend_from_slice(text);
    v
}

#[test]
fn candidates_without_hint() {
    assert_eq!(
        wrapper_candidates(None),
        vec!["~/.alphadep/runtime".to_string(), ".alphadep/runtime".to_string(), "/bin/alphadep-runtime".to_string()]
    );
}

#[test]
fn candidates_with_hint_first() {
    let c = wrapper_candidates(Some("/opt/w".to_string()));
    assert_eq!(c.len(), 4);
    assert_eq!(c[0], "/opt/w");
    assert_eq!(c[3], "/bin/alphadep-runtime");
}

#[test]
fn probe_command_appends_flag() {
    assert_eq!(probe_command(&"/bin/w".to_string()), "/bin/w --cli-api-compatibility");
}

#[test]
fn probe_responses() {
    assert!(probe_response_ok(&reply(b"1.0")));
    assert!(probe_response_ok(&reply(b"")));
    assert!(!probe_response_ok(&vec![0, 0, 0]));
    assert!(!probe_response_ok(&vec![0, 0, 0, 5, b'a']));
    assert!(!probe_response_ok(&reply(&[0xff, 0xfe])));
    assert!(!probe_response_ok(&b"1.0".to_vec()));
}

#[test]
fn locator_stops_at_first_compatible() {
    let (mut l, first) = Locator::new(None);
    assert!(matches!(first, LocateAction::Stat { ref path } if path == "~/.alphadep/runtime"));
    // first candidate is a directory
    let a = l.next(LocateEvent::Stat { is_dir: true });
    assert!(matches!(a, LocateAction::Stat { ref path } if path == ".alphadep/runtime"));
    let a = l.next(LocateEvent::Stat { is_dir: false });
    assert!(matches!(a, LocateAction::Probe { ref command } if command == ".alphadep/runtime --cli-api-compatibility"));
    let a = l.next(LocateEvent::Response { data: reply(b"v1") });
    assert!(matches!(a, LocateAction::Found { ref path } if path == ".alphadep/runtime"));
    assert_eq!(l.stage, LocateStage::Finished);
    assert_eq!(l.index, 1);
    // nothing after the accepted candidate is checked
    let a = l.next(LocateEvent::Stat { is_dir: false });
    assert!(matches!(a, LocateAction::Found { ref path } if path == ".alphadep/runtime"));
    assert_eq!(l.index, 1);
}

#[test]
fn locator_exhausts_candidates() {
    let (mut l, _) = Locator::new(Some("/x".to_string()));
    let a = l.next(LocateEvent::StatFailed);
    assert!(matches!(a, LocateAction::Stat { .. }));
    let a = l.next(LocateEvent::Stat { is_dir: false });
    assert!(matches!(a, LocateAction::Probe { .. }));
    let a = l.next(LocateEvent::Response { data: b"garbage".to_vec() });
    assert!(matches!(a, LocateAction::Stat { ref path } if path == ".alphadep/runtime"));
    let a = l.next(LocateEvent::Stat { is_dir: false });
    assert!(matches!(a, LocateAction::Probe { .. }));
    let a = l.next(LocateEvent::NoResponse);
    assert!(matches!(a, LocateAction::Stat { ref path } if path == "/bin/alphadep-runtime"));
    let a = l.next(LocateEvent::Stat { is_dir: true });
    assert!(matches!(a, LocateAction::Exhausted));
    assert!(matches!(l.next(LocateEvent::NoResponse), LocateAction::Exhausted));
}

#[test]
fn probe_reply_may_carry_trailing_bytes() {
    let mut data = reply(b"v1");
    data.extend_from_slice(&[0xff, 0x00]);
    assert!(probe_response_ok(&data));
}

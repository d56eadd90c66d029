use keyreplay::capture::{observe, Observed};
use keyreplay::keys::{KeyEvent, ServerEvent, KEY_PRESS_EVENT, KEY_RELEASE_EVENT, STOP_KEY};

fn press(detail: u8) -> ServerEvent {
    ServerEvent::KeyPress(KeyEvent { event_type: KEY_PRESS_EVENT, detail })
}

fn release(detail: u8) -> ServerEvent {
    ServerEvent::KeyRelease(KeyEvent { event_type: KEY_RELEASE_EVENT, detail })
}

#[test]
fn stop_key_is_key_code_36() {
    assert_eq!(STOP_KEY, 36);
}

#[test]
fn press_is_recorded() {
    let mut events: Vec<KeyEvent> = Vec::new();
    assert_eq!(observe(&mut events, press(38)), Observed::Recorded);
    assert_eq!(events, vec![KeyEvent { event_type: 2, detail: 38 }]);
}

#[test]
fn release_is_recorded() {
    let mut events: Vec<KeyEvent> = Vec::new();
    assert_eq!(observe(&mut events, release(38)), Observed::Recorded);
    assert_eq!(events, vec![KeyEvent { event_type: 3, detail: 38 }]);
}

#[test]
fn stop_press_ends_the_capture_unrecorded() {
    let mut events: Vec<KeyEvent> = vec![KeyEvent { event_type: 2, detail: 10 }];
    assert_eq!(observe(&mut events, press(36)), Observed::Stopped);
    assert_eq!(events, vec![KeyEvent { event_type: 2, detail: 10 }]);
}

#[test]
fn stop_press_is_never_recorded_however_often_it_comes() {
    let mut events: Vec<KeyEvent> = Vec::new();
    for _ in 0..5 {
        assert_eq!(observe(&mut events, press(STOP_KEY)), Observed::Stopped);
    }
    assert!(events.is_empty());
}

#[test]
fn stop_press_sent_by_another_client_ends_the_capture_too() {
    let mut events: Vec<KeyEvent> = Vec::new();
    let sent = ServerEvent::KeyPress(KeyEvent { event_type: 0x82, detail: 36 });
    assert_eq!(observe(&mut events, sent), Observed::Stopped);
    assert!(events.is_empty());
}

#[test]
fn release_of_the_stop_key_is_recorded() {
    let mut events: Vec<KeyEvent> = Vec::new();
    assert_eq!(observe(&mut events, release(36)), Observed::Recorded);
    assert_eq!(events, vec![KeyEvent { event_type: 3, detail: 36 }]);
}

#[test]
fn neighbours_of_the_stop_key_are_recorded() {
    let mut events: Vec<KeyEvent> = Vec::new();
    assert_eq!(observe(&mut events, press(35)), Observed::Recorded);
    assert_eq!(observe(&mut events, press(37)), Observed::Recorded);
    assert_eq!(observe(&mut events, press(0)), Observed::Recorded);
    assert_eq!(observe(&mut events, press(255)), Observed::Recorded);
    let details: Vec<u8> = events.iter().map(|event| event.detail).collect();
    assert_eq!(details, vec![35, 37, 0, 255]);
}

#[test]
fn raw_event_type_is_kept() {
    let mut events: Vec<KeyEvent> = Vec::new();
    let sent = ServerEvent::KeyRelease(KeyEvent { event_type: 0x83, detail: 38 });
    assert_eq!(observe(&mut events, sent), Observed::Recorded);
    assert_eq!(events, vec![KeyEvent { event_type: 0x83, detail: 38 }]);
}

#[test]
fn mapping_change_is_ignored() {
    let mut events: Vec<KeyEvent> = vec![KeyEvent { event_type: 2, detail: 10 }];
    assert_eq!(observe(&mut events, ServerEvent::MappingNotify), Observed::Ignored);
    assert_eq!(events, vec![KeyEvent { event_type: 2, detail: 10 }]);
}

#[test]
fn other_event_is_refused() {
    let mut events: Vec<KeyEvent> = vec![KeyEvent { event_type: 2, detail: 10 }];
    assert_eq!(observe(&mut events, ServerEvent::Other), Observed::Unexpected);
    assert_eq!(events, vec![KeyEvent { event_type: 2, detail: 10 }]);
}

#[test]
fn events_are_recorded_in_the_order_they_come() {
    let mut events: Vec<KeyEvent> = Vec::new();
    let stream: Vec<ServerEvent> = vec![
        press(50),
        press(38),
        ServerEvent::MappingNotify,
        release(38),
        release(50),
        press(38),
        release(38),
    ];
    for event in stream {
        observe(&mut events, event);
    }
    let expected: Vec<KeyEvent> = vec![
        KeyEvent { event_type: 2, detail: 50 },
        KeyEvent { event_type: 2, detail: 38 },
        KeyEvent { event_type: 3, detail: 38 },
        KeyEvent { event_type: 3, detail: 50 },
        KeyEvent { event_type: 2, detail: 38 },
        KeyEvent { event_type: 3, detail: 38 },
    ];
    assert_eq!(events, expected);
}

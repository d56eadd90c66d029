use keyreplay::keys::KeyEvent;
use keyreplay::replay::{injection, plan_replay, Injection, CURRENT_TIME, DEFAULT_DELAY};

#[test]
fn default_delay_is_two() {
    assert_eq!(DEFAULT_DELAY, 2);
}

#[test]
fn press_is_injected_at_once() {
    let request: Injection = injection(KeyEvent { event_type: 2, detail: 38 }, 2);
    let expected: Injection =
        Injection { event_type: 2, detail: 38, time: 0, root: 0, root_x: 0, root_y: 0, device: 0 };
    assert_eq!(request, expected);
    assert_eq!(request.time, CURRENT_TIME);
}

#[test]
fn release_is_injected_after_the_delay() {
    let request: Injection = injection(KeyEvent { event_type: 3, detail: 38 }, 2);
    let expected: Injection =
        Injection { event_type: 3, detail: 38, time: 2, root: 0, root_x: 0, root_y: 0, device: 0 };
    assert_eq!(request, expected);
}

#[test]
fn release_carries_whatever_delay_is_configured() {
    let delays: [u32; 5] = [0, 1, 2, 1000, u32::MAX];
    for delay in delays {
        assert_eq!(injection(KeyEvent { event_type: 3, detail: 9 }, delay).time, delay);
        assert_eq!(injection(KeyEvent { event_type: 2, detail: 9 }, delay).time, 0);
    }
}

#[test]
fn only_the_release_code_counts_as_a_release() {
    assert_eq!(injection(KeyEvent { event_type: 0x83, detail: 9 }, 5).time, 0);
    assert_eq!(injection(KeyEvent { event_type: 4, detail: 9 }, 5).time, 0);
    assert_eq!(injection(KeyEvent { event_type: 0, detail: 9 }, 5).time, 0);
    assert_eq!(injection(KeyEvent { event_type: 0x83, detail: 9 }, 5).event_type, 0x83);
}

#[test]
fn empty_recording_replays_nothing() {
    let events: Vec<KeyEvent> = Vec::new();
    assert!(plan_replay(&events, 2).is_empty());
}

#[test]
fn replay_keeps_the_order_of_the_recording() {
    let events: Vec<KeyEvent> = vec![
        KeyEvent { event_type: 2, detail: 50 },
        KeyEvent { event_type: 2, detail: 38 },
        KeyEvent { event_type: 3, detail: 38 },
        KeyEvent { event_type: 3, detail: 50 },
        KeyEvent { event_type: 2, detail: 38 },
    ];
    let plan: Vec<Injection> = plan_replay(&events, 7);
    let carried: Vec<(u8, u8)> =
        plan.iter().map(|request| (request.event_type, request.detail)).collect();
    assert_eq!(carried, vec![(2, 50), (2, 38), (3, 38), (3, 50), (2, 38)]);
    let times: Vec<u32> = plan.iter().map(|request| request.time).collect();
    assert_eq!(times, vec![0, 0, 7, 7, 0]);
}

#[test]
fn replay_is_one_injection_per_event() {
    let mut events: Vec<KeyEvent> = Vec::new();
    for detail in 0..=255u8 {
        events.push(KeyEvent { event_type: 2, detail });
        events.push(KeyEvent { event_type: 3, detail });
    }
    let plan: Vec<Injection> = plan_replay(&events, 3);
    assert_eq!(plan.len(), 512);
    for (position, request) in plan.iter().enumerate() {
        assert_eq!(*request, injection(events[position], 3));
        assert_eq!(request.time, if position % 2 == 1 { 3 } else { 0 });
    }
}

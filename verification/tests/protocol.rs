use keyreplay::keys::{KeyEvent, KEY_PRESS_EVENT, KEY_RELEASE_EVENT};
use keyreplay::replay::{injection, CURRENT_TIME};
use keyreplay::surface::{
    capture_surface, Surface, COPY_DEPTH_FROM_PARENT, COPY_VISUAL_FROM_PARENT, INPUT_OUTPUT,
    KEY_PRESS_MASK, KEY_RELEASE_MASK, SURFACE_SIZE,
};
use x11rb::protocol::xproto::{EventMask, WindowClass};

#[test]
fn event_codes_are_those_of_the_protocol() {
    assert_eq!(KEY_PRESS_EVENT, x11rb::protocol::xproto::KEY_PRESS_EVENT);
    assert_eq!(KEY_RELEASE_EVENT, x11rb::protocol::xproto::KEY_RELEASE_EVENT);
    assert_eq!(KEY_PRESS_EVENT, 2);
    assert_eq!(KEY_RELEASE_EVENT, 3);
}

#[test]
fn current_time_is_that_of_the_protocol() {
    assert_eq!(CURRENT_TIME, x11rb::CURRENT_TIME);
    assert_eq!(CURRENT_TIME, 0);
}

#[test]
fn injection_names_no_root_window() {
    assert_eq!(injection(KeyEvent { event_type: 2, detail: 38 }, 2).root, x11rb::NONE);
}

#[test]
fn event_masks_are_those_of_the_protocol() {
    assert_eq!(KEY_PRESS_MASK, u32::from(EventMask::KEY_PRESS));
    assert_eq!(KEY_RELEASE_MASK, u32::from(EventMask::KEY_RELEASE));
}

#[test]
fn capture_surface_asks_for_key_events_only() {
    let surface: Surface = capture_surface();
    assert_eq!(surface.event_mask, u32::from(EventMask::KEY_PRESS | EventMask::KEY_RELEASE));
    assert_eq!(surface.event_mask, 3);
}

#[test]
fn capture_surface_is_a_square_of_256() {
    let surface: Surface = capture_surface();
    let expected: Surface = Surface {
        depth: 0,
        x: 0,
        y: 0,
        width: 256,
        height: 256,
        border_width: 0,
        class: 1,
        visual: 0,
        event_mask: 3,
    };
    assert_eq!(surface, expected);
    assert_eq!(SURFACE_SIZE, 256);
}

#[test]
fn capture_surface_is_as_deep_as_its_parent() {
    assert_eq!(COPY_DEPTH_FROM_PARENT, x11rb::COPY_DEPTH_FROM_PARENT);
    assert_eq!(capture_surface().depth, x11rb::COPY_DEPTH_FROM_PARENT);
    assert_eq!(COPY_VISUAL_FROM_PARENT, x11rb::COPY_FROM_PARENT);
    assert_eq!(capture_surface().visual, x11rb::COPY_FROM_PARENT);
}

#[test]
fn capture_surface_can_be_seen() {
    assert_eq!(INPUT_OUTPUT, u16::from(WindowClass::INPUT_OUTPUT));
    assert_eq!(capture_surface().class, u16::from(WindowClass::INPUT_OUTPUT));
}

use rkvm_windows::event::{AbsAxis, AbsEvent, AbsInfo, Button, Event, Key, KeyEvent, Keyboard, RelAxis, RelEvent, SyncEvent};
use rkvm_windows::input::InputRecord;
use rkvm_windows::mapping::{map_button, map_key_to_scancode};
use rkvm_windows::writer::{Injection, RepeatCommand, WriterWindows, WriterWindowsBuilder};

fn info(min: i32, max: i32) -> AbsInfo {
    AbsInfo { min, max, fuzz: 0, flat: 0, resolution: 0 }
}

fn key_event(key: Keyboard, down: bool) -> Event {
    Event::Key(KeyEvent { key: Key::Key(key), down })
}

fn rel(axis: RelAxis, value: i32) -> Event {
    Event::Rel(RelEvent { axis, value })
}

#[test]
fn scancodes_of_letters_digits_and_extended_keys() {
    assert_eq!(map_key_to_scancode(&Keyboard::A), Some((0x1E, false)));
    assert_eq!(map_key_to_scancode(&Keyboard::N0), Some((0x0B, false)));
    assert_eq!(map_key_to_scancode(&Keyboard::F12), Some((0x58, false)));
    assert_eq!(map_key_to_scancode(&Keyboard::RightCtrl), Some((0x1D, true)));
    assert_eq!(map_key_to_scancode(&Keyboard::LeftCtrl), Some((0x1D, false)));
    assert_eq!(map_key_to_scancode(&Keyboard::KpEnter), Some((0x1C, true)));
    assert_eq!(map_key_to_scancode(&Keyboard::LeftMeta), Some((0x5B, true)));
}

#[test]
fn unmapped_keys_have_no_scancode() {
    assert_eq!(map_key_to_scancode(&Keyboard::F13), None);
    assert_eq!(map_key_to_scancode(&Keyboard::Mute), None);
    assert_eq!(map_key_to_scancode(&Keyboard::KpEqual), None);
}

#[test]
fn scancode_table_has_no_collisions() {
    let keys = [
        Keyboard::Esc, Keyboard::N1, Keyboard::N2, Keyboard::N3, Keyboard::N4, Keyboard::N5, Keyboard::N6, Keyboard::N7, Keyboard::N8, Keyboard::N9, Keyboard::N0, Keyboard::Minus, Keyboard::Equal, Keyboard::Backspace, Keyboard::Tab, Keyboard::Q, Keyboard::W, Keyboard::E, Keyboard::R, Keyboard::T, Keyboard::Y,
        Keyboard::U, Keyboard::I, Keyboard::O, Keyboard::P, Keyboard::LeftBrace, Keyboard::RightBrace, Keyboard::Enter, Keyboard::LeftCtrl, Keyboard::A, Keyboard::S, Keyboard::D, Keyboard::F, Keyboard::G, Keyboard::H, Keyboard::J, Keyboard::K, Keyboard::L, Keyboard::Semicolon,
        Keyboard::Apostrophe, Keyboard::Grave, Keyboard::LeftShift, Keyboard::Backslash, Keyboard::Z, Keyboard::X, Keyboard::C, Keyboard::V, Keyboard::B, Keyboard::N, Keyboard::M, Keyboard::Comma, Keyboard::Dot, Keyboard::Slash, Keyboard::RightShift,
        Keyboard::KpAsterisk, Keyboard::LeftAlt, Keyboard::Space, Keyboard::CapsLock, Keyboard::F1, Keyboard::F2, Keyboard::F3, Keyboard::F4, Keyboard::F5, Keyboard::F6, Keyboard::F7, Keyboard::F8, Keyboard::F9, Keyboard::F10, Keyboard::NumLock,
        Keyboard::ScrollLock, Keyboard::Kp7, Keyboard::Kp8, Keyboard::Kp9, Keyboard::KpMinus, Keyboard::Kp4, Keyboard::Kp5, Keyboard::Kp6, Keyboard::KpPlus, Keyboard::Kp1, Keyboard::Kp2, Keyboard::Kp3, Keyboard::Kp0, Keyboard::KpDot,
        Keyboard::N102nd, Keyboard::F11, Keyboard::F12, Keyboard::KpEnter, Keyboard::RightCtrl, Keyboard::KpSlash, Keyboard::SysRq, Keyboard::RightAlt, Keyboard::Home, Keyboard::Up, Keyboard::PageUp, Keyboard::Left,
        Keyboard::Right, Keyboard::End, Keyboard::Down, Keyboard::PageDown, Keyboard::Insert, Keyboard::Delete, Keyboard::Pause, Keyboard::LeftMeta, Keyboard::RightMeta, Keyboard::Compose,
    ];
    let codes: Vec<(u16, bool)> = keys.iter().map(|k| map_key_to_scancode(k).unwrap()).collect();
    for i in 0..codes.len() {
        assert!(codes[i].0 > 0 && codes[i].0 < 0x80);
        for j in 0..i {
            assert_ne!(codes[i], codes[j]);
        }
    }
    assert_eq!(codes.len(), 105);
}

#[test]
fn buttons_map_to_mouse_flags() {
    assert_eq!(map_button(&Button::Left, &true), Some((0x0002, 0)));
    assert_eq!(map_button(&Button::Left, &false), Some((0x0004, 0)));
    assert_eq!(map_button(&Button::Right, &true), Some((0x0008, 0)));
    assert_eq!(map_button(&Button::Middle, &false), Some((0x0040, 0)));
    assert_eq!(map_button(&Button::Side, &true), Some((0x0080, 1)));
    assert_eq!(map_button(&Button::Extra, &false), Some((0x0100, 2)));
    assert_eq!(map_button(&Button::Forward, &true), None);
    assert_eq!(map_button(&Button::Task, &false), None);
}

#[test]
fn key_press_starts_repeater_and_release_is_forwarded() {
    let mut w = WriterWindows::builder().delay(Some(250)).period(Some(33)).build();
    let down = w.key(&Keyboard::A, &true);
    assert_eq!(down.input, Some(InputRecord::Keyboard { scan: 0x1E, flags: 0x0008 }));
    assert_eq!(
        down.repeat,
        RepeatCommand::Start { key: Keyboard::A, scan: 0x1E, flags: 0x0008, delay_ms: 250, period_ms: 33 }
    );
    let up = w.key(&Keyboard::A, &false);
    assert_eq!(up.input, Some(InputRecord::Keyboard { scan: 0x1E, flags: 0x000A }));
    assert_eq!(up.repeat, RepeatCommand::Forward { key: Keyboard::A, flags: 0x000A, scan: 0x1E, down: false });
    let again = w.key(&Keyboard::B, &true);
    assert!(matches!(again.repeat, RepeatCommand::Forward { .. }));
    w.repeater_finished();
    let next = w.key(&Keyboard::B, &true);
    assert!(matches!(next.repeat, RepeatCommand::Start { key: Keyboard::B, .. }));
}

#[test]
fn release_without_repeater_is_idle() {
    let mut w = WriterWindows::builder().build();
    let up = w.key(&Keyboard::Up, &false);
    assert_eq!(up.input, Some(InputRecord::Keyboard { scan: 0x48, flags: 0x000B }));
    assert_eq!(up.repeat, RepeatCommand::Idle);
}

#[test]
fn unmapped_key_writes_nothing() {
    let mut w = WriterWindows::builder().build();
    assert_eq!(w.key(&Keyboard::F20, &true), Injection { input: None, repeat: RepeatCommand::Idle });
    // no repeater was started: a mapped press starts one
    assert!(matches!(w.key(&Keyboard::A, &true).repeat, RepeatCommand::Start { .. }));
}

#[test]
fn relative_motion_and_low_resolution_wheel() {
    let mut w = WriterWindows::builder().build();
    assert_eq!(
        w.write(&rel(RelAxis::X, -7)).input,
        Some(InputRecord::Mouse { dx: -7, dy: 0, mouse_data: 0, flags: 0x0001 })
    );
    assert_eq!(
        w.write(&rel(RelAxis::Y, 5)).input,
        Some(InputRecord::Mouse { dx: 0, dy: 5, mouse_data: 0, flags: 0x0001 })
    );
    assert_eq!(
        w.write(&rel(RelAxis::Wheel, -2)).input,
        Some(InputRecord::Mouse { dx: 0, dy: 0, mouse_data: (-240i32) as u32, flags: 0x0800 })
    );
    assert_eq!(
        w.write(&rel(RelAxis::HWheel, 1)).input,
        Some(InputRecord::Mouse { dx: 0, dy: 0, mouse_data: 120, flags: 0x1000 })
    );
    assert_eq!(w.write(&rel(RelAxis::WheelHiRes, 60)).input, None);
    assert_eq!(w.write(&rel(RelAxis::Dial, 1)).input, None);
}

#[test]
fn high_resolution_wheel_replaces_notches() {
    let mut w = WriterWindowsBuilder::new().rel(vec![RelAxis::X, RelAxis::WheelHiRes]).build();
    assert_eq!(w.write(&rel(RelAxis::Wheel, 1)).input, None);
    assert_eq!(
        w.write(&rel(RelAxis::WheelHiRes, 30)).input,
        Some(InputRecord::Mouse { dx: 0, dy: 0, mouse_data: 30, flags: 0x0800 })
    );
    // the horizontal wheel keeps its notches
    assert_eq!(
        w.write(&rel(RelAxis::HWheel, -1)).input,
        Some(InputRecord::Mouse { dx: 0, dy: 0, mouse_data: (-120i32) as u32, flags: 0x1000 })
    );
}

#[test]
fn absolute_axes_are_scaled_onto_the_desktop() {
    let mut w = WriterWindows::builder()
        .abs(vec![(AbsAxis::X, info(0, 1000)), (AbsAxis::Y, info(-100, 100)), (AbsAxis::Pressure, info(0, 255))])
        .build();
    let abs = |axis, value| Event::Abs(AbsEvent::Axis { axis, value });
    assert_eq!(
        w.write(&abs(AbsAxis::X, 500)).input,
        Some(InputRecord::Mouse { dx: 32767, dy: 0, mouse_data: 0, flags: 0xC001 })
    );
    assert_eq!(
        w.write(&abs(AbsAxis::Y, 100)).input,
        Some(InputRecord::Mouse { dx: 0, dy: 65535, mouse_data: 0, flags: 0xC001 })
    );
    assert_eq!(
        w.write(&abs(AbsAxis::Y, -500)).input,
        Some(InputRecord::Mouse { dx: 0, dy: 0, mouse_data: 0, flags: 0xC001 })
    );
    assert_eq!(w.write(&abs(AbsAxis::Pressure, 10)).input, None);
    assert_eq!(w.write(&abs(AbsAxis::Z, 10)).input, None);
    assert_eq!(w.write(&Event::Abs(AbsEvent::MtToolType { value: 1 })).input, None);
}

#[test]
fn buttons_and_sync_through_write() {
    let mut w = WriterWindows::builder().build();
    let r = w.write(&Event::Key(KeyEvent { key: Key::Button(Button::Right), down: true }));
    assert_eq!(r.input, Some(InputRecord::Mouse { dx: 0, dy: 0, mouse_data: 0, flags: 0x0008 }));
    assert_eq!(r.repeat, RepeatCommand::Idle);
    assert_eq!(w.write(&Event::Sync(SyncEvent::All)), Injection { input: None, repeat: RepeatCommand::Idle });
    let k = w.write(&key_event(Keyboard::Space, true));
    assert_eq!(k.input, Some(InputRecord::Keyboard { scan: 0x39, flags: 0x0008 }));
}

#[test]
fn builder_ignores_non_positive_repeat_times() {
    let mut w = WriterWindows::builder().delay(Some(300)).delay(Some(-5)).period(None).period(Some(0)).build();
    assert!(matches!(
        w.key(&Keyboard::Q, &true).repeat,
        RepeatCommand::Start { delay_ms: 300, period_ms: 0, .. }
    ));
}

#[test]
fn builder_identity_declarations() {
    let mut w = WriterWindows::builder()
        .name(b"keyboard")
        .vendor(1)
        .product(2)
        .version(3)
        .key(vec![Key::Key(Keyboard::A)])
        .build();
    assert_eq!(w.write(&rel(RelAxis::Wheel, 1)).input, Some(InputRecord::Mouse { dx: 0, dy: 0, mouse_data: 120, flags: 0x0800 }));
}

#[test]
fn single_mouse_records() {
    let w = WriterWindows::builder().build();
    assert_eq!(w.mouse_move(true, 1, 2), InputRecord::Mouse { dx: 1, dy: 2, mouse_data: 0, flags: 0xC001 });
    assert_eq!(w.mouse_wheel(-1), InputRecord::Mouse { dx: 0, dy: 0, mouse_data: u32::MAX, flags: 0x0800 });
    assert_eq!(w.mouse_hwheel(7), InputRecord::Mouse { dx: 0, dy: 0, mouse_data: 7, flags: 0x1000 });
    assert_eq!(w.button(&Button::Back, &true), None);
}

#[test]
fn wheel_notches_must_fit_in_wheel_units() {
    let low = WriterWindows::builder().build();
    assert!(low.can_write(&rel(RelAxis::Wheel, 17_895_697)));
    assert!(low.can_write(&rel(RelAxis::Wheel, -17_895_697)));
    assert!(!low.can_write(&rel(RelAxis::Wheel, 17_895_698)));
    assert!(!low.can_write(&rel(RelAxis::HWheel, i32::MIN)));
    assert!(low.can_write(&rel(RelAxis::X, i32::MAX)));
    let high = WriterWindows::builder().rel(vec![RelAxis::WheelHiRes]).build();
    assert!(high.can_write(&rel(RelAxis::Wheel, i32::MAX)));
    assert!(!high.can_write(&rel(RelAxis::HWheel, i32::MAX)));
}

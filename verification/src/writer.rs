//! The injector side: turning each forwarded event into the Windows input
//! record that reproduces it, and deciding when the key repeater starts.
use vstd::prelude::*;
use crate::event::{AbsAxis, AbsEvent, AbsInfo, Button, Event, Key, KeyEvent, Keyboard, RelAxis, RelEvent};
use crate::input::{
    InputRecord, KEYEVENTF_EXTENDEDKEY, KEYEVENTF_KEYUP, KEYEVENTF_SCANCODE, MOUSEEVENTF_ABSOLUTE,
    MOUSEEVENTF_HWHEEL, MOUSEEVENTF_MOVE, MOUSEEVENTF_VIRTUALDESK, MOUSEEVENTF_WHEEL,
};
use crate::mapping::{button_flags, key_scancode, map_button, map_key_to_scancode};
use crate::normalizer::AxisTable;
use crate::settings::{
    add_axes, declare_abs, declare_delay, declare_period, declare_rel, empty_settings,
    hi_res_wheels, repeat_millis, DeviceSettings,
};

verus! {

/// Wheel units of one notch of a low-resolution wheel (`WHEEL_DELTA`).
pub const WHEEL_DELTA: i32 = 120;

/// What the key repeater is told to do after a key event.
#[derive(Clone, Copy, Debug, PartialEq, Eq, Structural)]
pub enum RepeatCommand {
    /// Nothing.
    Idle,
    /// Start repeating `key` (sent as `scan` with `flags`) after `delay_ms`,
    /// every `period_ms`.
    Start { key: Keyboard, scan: u16, flags: u32, delay_ms: u64, period_ms: u64 },
    /// Hand the event to the running repeater.
    Forward { key: Keyboard, flags: u32, scan: u16, down: bool },
}

/// What writing one event amounts to: at most one input to synthesize, and a
/// command for the key repeater.
#[derive(Clone, Copy, Debug, PartialEq, Eq, Structural)]
pub struct Injection {
    pub input: Option<InputRecord>,
    pub repeat: RepeatCommand,
}

/// The keyboard flags of a scan-code input: always `KEYEVENTF_SCANCODE`,
/// with `KEYEVENTF_KEYUP` on release and `KEYEVENTF_EXTENDEDKEY` for
/// extended keys.
pub open spec fn key_flags(down: bool, extended: bool) -> u32 {
    (KEYEVENTF_SCANCODE + (if down {
        0u32
    } else {
        KEYEVENTF_KEYUP
    }) + (if extended {
        KEYEVENTF_EXTENDEDKEY
    } else {
        0u32
    })) as u32
}

/// A pointer movement by (`dx`, `dy`); absolute movements are in
/// coordinates over the whole virtual desktop.
pub open spec fn move_record(absolute: bool, dx: i32, dy: i32) -> InputRecord {
    InputRecord::Mouse {
        dx,
        dy,
        mouse_data: 0,
        flags: if absolute {
            (MOUSEEVENTF_MOVE + MOUSEEVENTF_ABSOLUTE + MOUSEEVENTF_VIRTUALDESK) as u32
        } else {
            MOUSEEVENTF_MOVE
        },
    }
}

/// A vertical wheel turn of `delta` wheel units.
pub open spec fn wheel_record(delta: i32) -> InputRecord {
    InputRecord::Mouse { dx: 0, dy: 0, mouse_data: delta as u32, flags: MOUSEEVENTF_WHEEL }
}

/// A horizontal wheel turn of `delta` wheel units.
pub open spec fn hwheel_record(delta: i32) -> InputRecord {
    InputRecord::Mouse { dx: 0, dy: 0, mouse_data: delta as u32, flags: MOUSEEVENTF_HWHEEL }
}

/// A mouse button going down or up; `None` for buttons Windows is not given.
pub open spec fn button_record(button: Button, down: bool) -> Option<InputRecord> {
    match button_flags(button, down) {
        Some((flags, data)) => Some(InputRecord::Mouse { dx: 0, dy: 0, mouse_data: data, flags }),
        None => None,
    }
}

/// Whether `value` notches of a low-resolution wheel fit in wheel units.
pub open spec fn notches_fit(value: i32) -> bool {
    i32::MIN <= value * WHEEL_DELTA <= i32::MAX
}

/// The input that a relative movement is written as. A device with a
/// high-resolution wheel is scrolled by its high-resolution events only,
/// one without by its notches, each notch being `WHEEL_DELTA` units.
pub open spec fn rel_input(s: DeviceSettings, axis: RelAxis, value: i32) -> Option<InputRecord> {
    match axis {
        RelAxis::X => Some(move_record(false, value, 0)),
        RelAxis::Y => Some(move_record(false, 0, value)),
        RelAxis::Wheel => if !s.hi_wheel {
            Some(wheel_record((value * WHEEL_DELTA) as i32))
        } else {
            None
        },
        RelAxis::HWheel => if !s.hi_hwheel {
            Some(hwheel_record((value * WHEEL_DELTA) as i32))
        } else {
            None
        },
        RelAxis::WheelHiRes => if s.hi_wheel {
            Some(wheel_record(value))
        } else {
            None
        },
        RelAxis::HWheelHiRes => if s.hi_hwheel {
            Some(hwheel_record(value))
        } else {
            None
        },
        _ => None,
    }
}

/// The input that an absolute event is written as: the scaled X and Y axes
/// move the pointer to an absolute position; other axes, and axes that were
/// not declared, give nothing.
pub open spec fn abs_input(s: DeviceSettings, event: AbsEvent) -> Option<InputRecord> {
    match event {
        AbsEvent::Axis { axis, value } => if s.axes.contains_key(axis) {
            let nv = s.axes[axis].spec_normalize(value as int) as i32;
            match axis {
                AbsAxis::X => Some(move_record(true, nv, 0)),
                AbsAxis::Y => Some(move_record(true, 0, nv)),
                _ => None,
            }
        } else {
            None
        },
        _ => None,
    }
}

/// The input that an event other than a keyboard key is written as.
pub open spec fn event_input(s: DeviceSettings, event: Event) -> Option<InputRecord> {
    match event {
        Event::Key(KeyEvent { key: Key::Button(button), down }) => button_record(button, down),
        Event::Key(KeyEvent { key: Key::Key(_), down: _ }) => None,
        Event::Rel(RelEvent { axis, value }) => rel_input(s, axis, value),
        Event::Abs(abs) => abs_input(s, abs),
        Event::Sync(_) => None,
    }
}

/// Whether an event can be written: a low-resolution wheel turn must fit in
/// wheel units once scaled by `WHEEL_DELTA`.
pub open spec fn writable(s: DeviceSettings, event: Event) -> bool {
    match event {
        Event::Rel(RelEvent { axis: RelAxis::Wheel, value }) => s.hi_wheel || notches_fit(value),
        Event::Rel(RelEvent { axis: RelAxis::HWheel, value }) => s.hi_hwheel || notches_fit(value),
        _ => true,
    }
}

/// The state of an injector: the declared settings, and whether a key
/// repeater is running.
pub struct WriterState {
    pub settings: DeviceSettings,
    pub repeating: bool,
}

/// What a keyboard key event amounts to, and the injector state after it.
/// A key with no scan code is ignored. Otherwise the key is sent by scan
/// code; a running repeater is handed the event, and with none running a
/// press starts one for the pressed key.
pub open spec fn key_step(state: WriterState, key: Keyboard, down: bool) -> (Injection, WriterState) {
    match key_scancode(key) {
        None => (Injection { input: None, repeat: RepeatCommand::Idle }, state),
        Some((scan, extended)) => {
            let flags = key_flags(down, extended);
            let input = Some(InputRecord::Keyboard { scan, flags });
            if state.repeating {
                (
                    Injection { input, repeat: RepeatCommand::Forward { key, flags, scan, down } },
                    state,
                )
            } else if down {
                (
                    Injection {
                        input,
                        repeat: RepeatCommand::Start {
                            key,
                            scan,
                            flags,
                            delay_ms: state.settings.repeat_delay_ms,
                            period_ms: state.settings.repeat_period_ms,
                        },
                    },
                    WriterState { repeating: true, ..state },
                )
            } else {
                (Injection { input, repeat: RepeatCommand::Idle }, state)
            }
        },
    }
}

/// What writing an event amounts to, and the injector state after it.
pub open spec fn write_step(state: WriterState, event: Event) -> (Injection, WriterState) {
    match event {
        Event::Key(KeyEvent { key: Key::Key(key), down }) => key_step(state, key, down),
        _ => (
            Injection { input: event_input(state.settings, event), repeat: RepeatCommand::Idle },
            state,
        ),
    }
}

/// Synthesizes the input of one device on Windows.
pub struct WriterWindows {
    repeat_delay_ms: u64,
    repeat_period_ms: u64,
    repeating: bool,
    hi_wheel: bool,
    hi_hwheel: bool,
    abs_norm: AxisTable,
}

impl View for WriterWindows {
    type V = WriterState;

    closed spec fn view(&self) -> WriterState {
        WriterState {
            settings: DeviceSettings {
                hi_wheel: self.hi_wheel,
                hi_hwheel: self.hi_hwheel,
                axes: self.abs_norm@,
                repeat_delay_ms: self.repeat_delay_ms,
                repeat_period_ms: self.repeat_period_ms,
            },
            repeating: self.repeating,
        }
    }
}

impl WriterWindows {
    /// A builder for an injector, with nothing declared.
    pub fn builder() -> (r: WriterWindowsBuilder)
        ensures
            r@ == empty_settings(),
    {
        WriterWindowsBuilder::new()
    }

    /// Writes a keyboard key going down or up.
    pub fn key(&mut self, key: &Keyboard, down: &bool) -> (r: Injection)
        ensures
            (r, final(self)@) == key_step(old(self)@, *key, *down),
    {
        match map_key_to_scancode(key) {
            Some((scan, extended)) => {
                let mut flags: u32 = KEYEVENTF_SCANCODE;
                if !*down {
                    flags |= KEYEVENTF_KEYUP;
                }
                if extended {
                    flags |= KEYEVENTF_EXTENDEDKEY;
                }
                assert(flags == key_flags(*down, extended)) by {
                    assert(0x0008u32 | 0x0002u32 == 0x000Au32) by (bit_vector);
                    assert(0x0008u32 | 0x0001u32 == 0x0009u32) by (bit_vector);
                    assert(0x000Au32 | 0x0001u32 == 0x000Bu32) by (bit_vector);
                }
                let repeat = if self.repeating {
                    RepeatCommand::Forward { key: *key, flags, scan, down: *down }
                } else if *down {
                    self.repeating = true;
                    RepeatCommand::Start {
                        key: *key,
                        scan,
                        flags,
                        delay_ms: self.repeat_delay_ms,
                        period_ms: self.repeat_period_ms,
                    }
                } else {
                    RepeatCommand::Idle
                };
                Injection { input: Some(InputRecord::Keyboard { scan, flags }), repeat }
            },
            None => Injection { input: None, repeat: RepeatCommand::Idle },
        }
    }

    /// Records that the key repeater has finished and was dropped, so that
    /// the next key press starts a new one.
    pub fn repeater_finished(&mut self)
        ensures
            final(self)@ == (WriterState { repeating: false, ..old(self)@ }),
    {
        self.repeating = false;
    }

    /// The input of a mouse button going down or up.
    pub fn button(&self, button: &Button, down: &bool) -> (r: Option<InputRecord>)
        ensures
            r == button_record(*button, *down),
    {
        match map_button(button, down) {
            Some((flags, mouse_data)) => Some(InputRecord::Mouse { dx: 0, dy: 0, mouse_data, flags }),
            None => None,
        }
    }

    /// The input of a pointer movement.
    pub fn mouse_move(&self, abs: bool, dx: i32, dy: i32) -> (r: InputRecord)
        ensures
            r == move_record(abs, dx, dy),
    {
        let mut flags: u32 = MOUSEEVENTF_MOVE;
        if abs {
            flags |= MOUSEEVENTF_ABSOLUTE | MOUSEEVENTF_VIRTUALDESK;
            assert(0x0001u32 | (0x8000u32 | 0x4000u32) == 0xC001u32) by (bit_vector);
        }
        InputRecord::Mouse { dx, dy, mouse_data: 0, flags }
    }

    /// The input of a vertical wheel turn.
    pub fn mouse_wheel(&self, delta: i32) -> (r: InputRecord)
        ensures
            r == wheel_record(delta),
    {
        InputRecord::Mouse { dx: 0, dy: 0, mouse_data: delta as u32, flags: MOUSEEVENTF_WHEEL }
    }

    /// The input of a horizontal wheel turn.
    pub fn mouse_hwheel(&self, delta: i32) -> (r: InputRecord)
        ensures
            r == hwheel_record(delta),
    {
        InputRecord::Mouse { dx: 0, dy: 0, mouse_data: delta as u32, flags: MOUSEEVENTF_HWHEEL }
    }

    /// Whether `event` can be written: a low-resolution wheel turn must fit
    /// in wheel units once scaled by `WHEEL_DELTA`.
    pub fn can_write(&self, event: &Event) -> (r: bool)
        ensures
            r == writable(self@.settings, *event),
    {
        match event {
            Event::Rel(RelEvent { axis: RelAxis::Wheel, value }) => self.hi_wheel || (-17895697
                <= *value && *value <= 17895697),
            Event::Rel(RelEvent { axis: RelAxis::HWheel, value }) => self.hi_hwheel || (-17895697
                <= *value && *value <= 17895697),
            _ => true,
        }
    }

    /// Writes one event.
    pub fn write(&mut self, event: &Event) -> (r: Injection)
        requires
            writable(old(self)@.settings, *event),
        ensures
            (r, final(self)@) == write_step(old(self)@, *event),
    {
        let idle = RepeatCommand::Idle;
        match event {
            Event::Key(KeyEvent { key, down }) => match key {
                Key::Key(k) => self.key(k, down),
                Key::Button(b) => Injection { input: self.button(b, down), repeat: idle },
            },
            Event::Rel(RelEvent { axis, value }) => {
                let input = match axis {
                    RelAxis::X => Some(self.mouse_move(false, *value, 0)),
                    RelAxis::Y => Some(self.mouse_move(false, 0, *value)),
                    RelAxis::Wheel => if !self.hi_wheel {
                        Some(self.mouse_wheel(*value * WHEEL_DELTA))
                    } else {
                        None
                    },
                    RelAxis::HWheel => if !self.hi_hwheel {
                        Some(self.mouse_hwheel(*value * WHEEL_DELTA))
                    } else {
                        None
                    },
                    RelAxis::WheelHiRes => if self.hi_wheel {
                        Some(self.mouse_wheel(*value))
                    } else {
                        None
                    },
                    RelAxis::HWheelHiRes => if self.hi_hwheel {
                        Some(self.mouse_hwheel(*value))
                    } else {
                        None
                    },
                    _ => None,
                };
                Injection { input, repeat: idle }
            },
            Event::Abs(abs) => {
                let input = match abs {
                    AbsEvent::Axis { axis, value } => match self.abs_norm.get(axis) {
                        Some(normalizer) => {
                            let nv = normalizer.normalize(*value);
                            match axis {
                                AbsAxis::X => Some(self.mouse_move(true, nv, 0)),
                                AbsAxis::Y => Some(self.mouse_move(true, 0, nv)),
                                _ => None,
                            }
                        },
                        None => None,
                    },
                    _ => None,
                };
                Injection { input, repeat: idle }
            },
            Event::Sync(_) => Injection { input: None, repeat: idle },
        }
    }
}

/// What is declared so far for an injector that is being built.
pub struct WriterWindowsBuilder {
    hi_wheel: bool,
    hi_hwheel: bool,
    abs_norm: AxisTable,
    repeat_delay_ms: u64,
    repeat_period_ms: u64,
}

impl View for WriterWindowsBuilder {
    type V = DeviceSettings;

    closed spec fn view(&self) -> DeviceSettings {
        DeviceSettings {
            hi_wheel: self.hi_wheel,
            hi_hwheel: self.hi_hwheel,
            axes: self.abs_norm@,
            repeat_delay_ms: self.repeat_delay_ms,
            repeat_period_ms: self.repeat_period_ms,
        }
    }
}

impl WriterWindowsBuilder {
    pub fn new() -> (r: Self)
        ensures
            r@ == empty_settings(),
    {
        WriterWindowsBuilder {
            hi_wheel: false,
            hi_hwheel: false,
            abs_norm: AxisTable::new(),
            repeat_delay_ms: 0,
            repeat_period_ms: 0,
        }
    }

    /// The device name plays no part on Windows.
    pub fn name(self, _name: &[u8]) -> (r: Self)
        ensures
            r@ == self@,
    {
        self
    }

    /// The vendor id plays no part on Windows.
    pub fn vendor(self, _value: u16) -> (r: Self)
        ensures
            r@ == self@,
    {
        self
    }

    /// The product id plays no part on Windows.
    pub fn product(self, _value: u16) -> (r: Self)
        ensures
            r@ == self@,
    {
        self
    }

    /// The version plays no part on Windows.
    pub fn version(self, _value: u16) -> (r: Self)
        ensures
            r@ == self@,
    {
        self
    }

    /// Declares relative axes; only the high-resolution wheels matter.
    pub fn rel(self, items: Vec<RelAxis>) -> (r: Self)
        ensures
            r@ == declare_rel(self@, items@),
    {
        let mut b = self;
        let (hi_wheel, hi_hwheel) = hi_res_wheels(&items);
        if hi_wheel {
            b.hi_wheel = true;
        }
        if hi_hwheel {
            b.hi_hwheel = true;
        }
        b
    }

    /// Declares absolute axes with their ranges; each gets a scaler.
    pub fn abs(self, items: Vec<(AbsAxis, AbsInfo)>) -> (r: Self)
        ensures
            r@ == declare_abs(self@, items@),
    {
        let mut b = self;
        add_axes(&mut b.abs_norm, &items);
        b
    }

    /// The supported keys play no part on Windows.
    pub fn key(self, _items: Vec<Key>) -> (r: Self)
        ensures
            r@ == self@,
    {
        self
    }

    /// Declares the key-repeat delay in milliseconds.
    pub fn delay(self, value: Option<i32>) -> (r: Self)
        ensures
            r@ == declare_delay(self@, value),
    {
        let mut b = self;
        b.repeat_delay_ms = repeat_millis(b.repeat_delay_ms, value);
        b
    }

    /// Declares the key-repeat period in milliseconds.
    pub fn period(self, value: Option<i32>) -> (r: Self)
        ensures
            r@ == declare_period(self@, value),
    {
        let mut b = self;
        b.repeat_period_ms = repeat_millis(b.repeat_period_ms, value);
        b
    }

    /// The injector for what was declared, with no key repeater running.
    pub fn build(self) -> (r: WriterWindows)
        ensures
            r@ == (WriterState { settings: self@, repeating: false }),
    {
        WriterWindows {
            hi_wheel: self.hi_wheel,
            hi_hwheel: self.hi_hwheel,
            abs_norm: self.abs_norm,
            repeat_delay_ms: self.repeat_delay_ms,
            repeat_period_ms: self.repeat_period_ms,
            repeating: false,
        }
    }
}


/// The flags of a key input, read bit by bit: the scan-code bit is always
/// set, the key-up bit exactly on release, the extended bit exactly for
/// extended keys.
pub proof fn lemma_key_flag_bits(down: bool, extended: bool)
    ensures
        key_flags(down, extended) & KEYEVENTF_SCANCODE == KEYEVENTF_SCANCODE,
        (key_flags(down, extended) & KEYEVENTF_KEYUP == KEYEVENTF_KEYUP) == !down,
        (key_flags(down, extended) & KEYEVENTF_EXTENDEDKEY == KEYEVENTF_EXTENDEDKEY) == extended,
{
    assert(8u32 & 8u32 == 8u32 && 8u32 & 2u32 == 0u32 && 8u32 & 1u32 == 0u32) by (bit_vector);
    assert(9u32 & 8u32 == 8u32 && 9u32 & 2u32 == 0u32 && 9u32 & 1u32 == 1u32) by (bit_vector);
    assert(10u32 & 8u32 == 8u32 && 10u32 & 2u32 == 2u32 && 10u32 & 1u32 == 0u32) by (bit_vector);
    assert(11u32 & 8u32 == 8u32 && 11u32 & 2u32 == 2u32 && 11u32 & 1u32 == 1u32) by (bit_vector);
}

/// Keys are forwarded raw, independent of any keyboard layout: every
/// keyboard input names no virtual key and carries the key's set-1 scan
/// code, flagged as a scan code, as extended exactly for extended keys, and
/// as a release exactly on release.
pub proof fn lemma_keys_sent_as_raw_scancodes(state: WriterState, key: Keyboard, down: bool)
    ensures
        key_step(state, key, down).0.input matches Some(input) ==> input matches InputRecord::Keyboard { scan, flags } && key_scancode(key) == Some(
            (scan, flags & KEYEVENTF_EXTENDEDKEY == KEYEVENTF_EXTENDEDKEY),
        ) && flags & KEYEVENTF_SCANCODE == KEYEVENTF_SCANCODE && (flags & KEYEVENTF_KEYUP
            == KEYEVENTF_KEYUP) == !down,
{
    if key_scancode(key) is Some {
        lemma_key_flag_bits(down, key_scancode(key).unwrap().1);
    }
}

/// A release differs from a press of the same key only by the key-up flag.
pub proof fn lemma_release_adds_key_up(extended: bool)
    ensures
        key_flags(false, extended) == key_flags(true, extended) + KEYEVENTF_KEYUP,
{
}

/// At most one key repeater runs: while one runs, key events are handed to
/// it and none is started; otherwise a press of a key with a scan code
/// starts one. Key events change nothing else of the injector.
pub proof fn lemma_single_repeater(state: WriterState, key: Keyboard, down: bool)
    ensures
        state.repeating ==> !(key_step(state, key, down).0.repeat is Start),
        key_step(state, key, down).1.repeating == (state.repeating || (key_scancode(key) is Some
            && down)),
        key_step(state, key, down).1.settings == state.settings,
        key_step(state, key, down).0.repeat is Start <==> (!state.repeating && key_scancode(
            key,
        ) is Some && down),
{
}

/// A key with a scan code is always sent, pressed or released, whatever the
/// repeater does.
pub proof fn lemma_mapped_key_is_sent(state: WriterState, key: Keyboard, down: bool)
    ensures
        key_step(state, key, down).0.input is Some <==> key_scancode(key) is Some,
{
}

/// Of the two vertical wheel streams, exactly one is written; likewise for
/// the horizontal ones.
pub proof fn lemma_one_wheel_stream_written(s: DeviceSettings, notches: i32, units: i32)
    ensures
        event_input(s, Event::Rel(RelEvent { axis: RelAxis::Wheel, value: notches })) is Some
            != event_input(s, Event::Rel(RelEvent { axis: RelAxis::WheelHiRes, value: units }))
            is Some,
        event_input(s, Event::Rel(RelEvent { axis: RelAxis::HWheel, value: notches })) is Some
            != event_input(s, Event::Rel(RelEvent { axis: RelAxis::HWheelHiRes, value: units }))
            is Some,
{
}

/// The key repeater repeats exactly what was sent: when a key event starts
/// or feeds the repeater, the command carries the key, the scan code and the
/// flags (extended bit included) of the keyboard input sent for that event,
/// and a started repeater gets the injector's declared delay and period.
pub proof fn lemma_repeater_repeats_sent_key(state: WriterState, key: Keyboard, down: bool)
    ensures
        key_step(state, key, down).0.repeat matches RepeatCommand::Start {
            key: k,
            scan,
            flags,
            delay_ms,
            period_ms,
        } ==> k == key && down && key_step(state, key, down).0.input == Some(
            InputRecord::Keyboard { scan, flags },
        ) && delay_ms == state.settings.repeat_delay_ms && period_ms
            == state.settings.repeat_period_ms,
        key_step(state, key, down).0.repeat matches RepeatCommand::Forward {
            key: k,
            flags,
            scan,
            down: d,
        } ==> k == key && d == down && key_step(state, key, down).0.input == Some(
            InputRecord::Keyboard { scan, flags },
        ),
        key_step(state, key, down).0.repeat matches RepeatCommand::Start { flags, .. } ==> ((flags
            & KEYEVENTF_EXTENDEDKEY == KEYEVENTF_EXTENDEDKEY) <==> key_scancode(key).unwrap().1),
{
    if key_scancode(key) is Some {
        lemma_key_flag_bits(down, key_scancode(key).unwrap().1);
    }
}

/// Wheels turn the right way: a written vertical wheel event (notches or
/// high resolution) is a vertical wheel input, a horizontal one a horizontal
/// wheel input; a high-resolution event turns by its own value, a notch
/// event by its value in `WHEEL_DELTA` units. Pointer movements move by their
/// value along their own axis, relatively.
pub proof fn lemma_wheels_and_motion_written(s: DeviceSettings, axis: RelAxis, value: i32)
    ensures
        event_input(s, Event::Rel(RelEvent { axis, value })) matches Some(input) ==> input matches InputRecord::Mouse { dx, dy, mouse_data, flags } && (
        ((axis == RelAxis::Wheel || axis == RelAxis::WheelHiRes) ==> flags == MOUSEEVENTF_WHEEL
            && dx == 0 && dy == 0) && ((axis == RelAxis::HWheel || axis == RelAxis::HWheelHiRes)
            ==> flags == MOUSEEVENTF_HWHEEL && dx == 0 && dy == 0) && ((axis == RelAxis::WheelHiRes
            || axis == RelAxis::HWheelHiRes) ==> mouse_data == value as u32) && ((axis
            == RelAxis::Wheel || axis == RelAxis::HWheel) && notches_fit(value) ==> mouse_data
            == (value * WHEEL_DELTA) as u32) && (axis == RelAxis::X ==> flags == MOUSEEVENTF_MOVE
            && dx == value && dy == 0 && mouse_data == 0) && (axis == RelAxis::Y ==> flags
            == MOUSEEVENTF_MOVE && dx == 0 && dy == value && mouse_data == 0)),
        (axis == RelAxis::X || axis == RelAxis::Y) ==> event_input(
            s,
            Event::Rel(RelEvent { axis, value }),
        ) is Some,
{
}

} // verus!

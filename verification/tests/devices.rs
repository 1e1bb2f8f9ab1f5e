use rkvm_windows::client_writer::{ClientWriter, Update};
use rkvm_windows::devices::{DeviceError, WritersWindows};
use rkvm_windows::event::{AbsAxis, AbsEvent, AbsInfo, Button, Event, Key, KeyEvent, RelAxis, RelEvent, SyncEvent};
use rkvm_windows::normalizer::AxisNormalizer;
use rkvm_windows::writer::WriterWindows;

fn info(min: i32, max: i32) -> AbsInfo {
    AbsInfo { min, max, fuzz: 0, flat: 0, resolution: 0 }
}

fn create(w: &mut WritersWindows<u32>, id: usize, rel: Vec<RelAxis>, abs: Vec<(AbsAxis, AbsInfo)>) -> Result<(), DeviceError> {
    w.create_device(id, b"dev", 1, 2, 3, rel, abs, Vec::new(), Some(200), Some(30))
}

fn rel(axis: RelAxis, value: i32) -> Event {
    Event::Rel(RelEvent { axis, value })
}

#[test]
fn duplicate_creation_is_refused() {
    let mut w = WritersWindows::new(0u32);
    assert_eq!(create(&mut w, 4, vec![], vec![]), Ok(()));
    assert_eq!(create(&mut w, 4, vec![], vec![]), Err(DeviceError::DuplicateDevice));
    assert_eq!(DeviceError::DuplicateDevice.message(), "Server created the same device twice");
}

#[test]
fn destroying_unknown_device_is_refused() {
    let mut w = WritersWindows::new(0u32);
    assert_eq!(w.destroy_device(9), Err(DeviceError::NonexistentDevice));
    assert_eq!(DeviceError::NonexistentDevice.message(), "Server destroyed a nonexistent device");
}

#[test]
fn events_for_unknown_devices_are_refused() {
    let w = WritersWindows::new(0u32);
    assert_eq!(w.event(1, Event::Sync(SyncEvent::All)), Err(DeviceError::EventForNonexistentDevice));
    assert_eq!(
        DeviceError::EventForNonexistentDevice.message(),
        "Server sent an event to a nonexistent device"
    );
}

#[test]
fn create_then_destroy_then_recreate() {
    let mut w = WritersWindows::new(0u32);
    assert_eq!(create(&mut w, 1, vec![], vec![]), Ok(()));
    assert!(w.event(1, rel(RelAxis::X, 3)).is_ok());
    assert_eq!(w.destroy_device(1), Ok(()));
    assert_eq!(w.event(1, rel(RelAxis::X, 3)), Err(DeviceError::EventForNonexistentDevice));
    assert_eq!(w.destroy_device(1), Err(DeviceError::NonexistentDevice));
    assert_eq!(create(&mut w, 1, vec![], vec![]), Ok(()));
}

#[test]
fn exactly_one_wheel_stream_passes() {
    let mut w = WritersWindows::new(0u32);
    create(&mut w, 1, vec![RelAxis::X, RelAxis::Y, RelAxis::Wheel, RelAxis::WheelHiRes], vec![]).unwrap();
    create(&mut w, 2, vec![RelAxis::Wheel, RelAxis::HWheel], vec![]).unwrap();
    assert_eq!(w.event(1, rel(RelAxis::Wheel, 1)), Ok(None));
    assert_eq!(w.event(1, rel(RelAxis::WheelHiRes, 120)), Ok(Some(rel(RelAxis::WheelHiRes, 120))));
    assert_eq!(w.event(1, rel(RelAxis::HWheel, 1)), Ok(Some(rel(RelAxis::HWheel, 1))));
    assert_eq!(w.event(1, rel(RelAxis::HWheelHiRes, 1)), Ok(None));
    assert_eq!(w.event(2, rel(RelAxis::Wheel, -1)), Ok(Some(rel(RelAxis::Wheel, -1))));
    assert_eq!(w.event(2, rel(RelAxis::WheelHiRes, 60)), Ok(None));
}

#[test]
fn motion_keys_and_sync_pass_unchanged() {
    let mut w = WritersWindows::new(0u32);
    create(&mut w, 3, vec![], vec![]).unwrap();
    for e in [
        rel(RelAxis::X, -4),
        rel(RelAxis::Y, 9),
        Event::Key(KeyEvent { key: Key::Button(Button::Left), down: true }),
        Event::Sync(SyncEvent::All),
    ] {
        assert_eq!(w.event(3, e), Ok(Some(e)));
    }
    assert_eq!(w.event(3, rel(RelAxis::Dial, 1)), Ok(None));
    assert_eq!(w.event(3, rel(RelAxis::Misc, 1)), Ok(None));
}

#[test]
fn absolute_axes_are_scaled_or_dropped() {
    let mut w = WritersWindows::new(0u32);
    create(&mut w, 5, vec![], vec![(AbsAxis::X, info(0, 4095)), (AbsAxis::X, info(0, 100))]).unwrap();
    let abs = |axis, value| Event::Abs(AbsEvent::Axis { axis, value });
    // the later declaration of X replaces the earlier one
    assert_eq!(w.event(5, abs(AbsAxis::X, 100)), Ok(Some(abs(AbsAxis::X, 65535))));
    assert_eq!(w.event(5, abs(AbsAxis::X, 50)), Ok(Some(abs(AbsAxis::X, 32767))));
    assert_eq!(w.event(5, abs(AbsAxis::X, 1000)), Ok(Some(abs(AbsAxis::X, 65535))));
    assert_eq!(w.event(5, abs(AbsAxis::Y, 10)), Ok(None));
    assert_eq!(w.event(5, Event::Abs(AbsEvent::MtToolType { value: 2 })), Ok(None));
}

#[test]
fn writer_is_reachable_and_kept() {
    let mut w = WritersWindows::new(7u32);
    *w.writer_mut() += 1;
    create(&mut w, 1, vec![], vec![]).unwrap();
    assert_eq!(*w.writer_mut(), 8);
}

#[test]
fn client_writer_forwards_as_update() {
    let mut c = ClientWriter::new(String::from("pipe"));
    let e = Event::Rel(RelEvent { axis: RelAxis::X, value: 2 });
    assert_eq!(c.event(3, e), Update::Event { id: 3, event: e });
    c.writer_mut().push('!');
    assert_eq!(c.writer_mut().as_str(), "pipe!");
}

#[test]
fn normalizer_scales_linearly_and_clamps() {
    let n = AxisNormalizer::new(-1000, 1000);
    assert_eq!(n.normalize(-1000), 0);
    assert_eq!(n.normalize(0), 32767);
    assert_eq!(n.normalize(1000), 65535);
    assert_eq!(n.normalize(5000), 65535);
    assert_eq!(n.normalize(i32::MIN), 0);
    let wide = AxisNormalizer::new(i32::MIN, i32::MAX);
    assert_eq!(wide.normalize(i32::MAX), 65535);
    assert_eq!(wide.normalize(0), 32767);
    let empty = AxisNormalizer::new(5, 5);
    assert_eq!(empty.normalize(5), 0);
    let reversed = AxisNormalizer::new(10, 0);
    assert_eq!(reversed.normalize(5), 0);
}

#[test]
fn service_and_injector_agree_on_relative_events() {
    for rel_axes in [vec![], vec![RelAxis::WheelHiRes], vec![RelAxis::HWheelHiRes, RelAxis::WheelHiRes]] {
        let mut service = WritersWindows::new(0u32);
        service.create_device(1, b"", 0, 0, 0, rel_axes.clone(), vec![], vec![], Some(250), Some(30)).unwrap();
        let mut injector = WriterWindows::builder().rel(rel_axes).delay(Some(250)).period(Some(30)).build();
        for axis in [
            RelAxis::X, RelAxis::Y, RelAxis::Z, RelAxis::Rx, RelAxis::Ry, RelAxis::Rz, RelAxis::HWheel,
            RelAxis::Dial, RelAxis::Wheel, RelAxis::Misc, RelAxis::WheelHiRes, RelAxis::HWheelHiRes,
        ] {
            let e = rel(axis, 2);
            let passed = service.event(1, e).unwrap();
            let written = injector.write(&e).input;
            assert_eq!(passed.is_some(), written.is_some(), "{:?}", axis);
        }
    }
}

//! The service side: the devices that the server has created, and which of
//! their events are passed on to the injector.
use vstd::prelude::*;
use std::collections::HashMap;
use crate::event::{AbsAxis, AbsEvent, AbsInfo, Event, Key, RelAxis, RelEvent};
use crate::normalizer::{lemma_normalized_in_range, AxisTable};
use crate::writer::event_input;
use crate::settings::{
    add_axes, declare_abs, declare_delay, declare_period, declare_rel, empty_settings,
    hi_res_wheels, repeat_millis, repeat_ms, with_axes, DeviceSettings,
};

verus! {

broadcast use vstd::std_specs::hash::group_hash_axioms;

/// A request of the server that does not fit the devices it created.
#[derive(Clone, Copy, Debug, PartialEq, Eq, Structural)]
pub enum DeviceError {
    /// A device was created under an id that is in use.
    DuplicateDevice,
    /// A device that does not exist was destroyed.
    NonexistentDevice,
    /// An event was sent to a device that does not exist.
    EventForNonexistentDevice,
}

/// The text that reports an error.
pub open spec fn error_message(e: DeviceError) -> Seq<char> {
    match e {
        DeviceError::DuplicateDevice => "Server created the same device twice"@,
        DeviceError::NonexistentDevice => "Server destroyed a nonexistent device"@,
        DeviceError::EventForNonexistentDevice => "Server sent an event to a nonexistent device"@,
    }
}

impl DeviceError {
    /// The text that reports this error.
    pub fn message(&self) -> (r: &'static str)
        ensures
            r@ == error_message(*self),
    {
        match self {
            DeviceError::DuplicateDevice => "Server created the same device twice",
            DeviceError::NonexistentDevice => "Server destroyed a nonexistent device",
            DeviceError::EventForNonexistentDevice => "Server sent an event to a nonexistent device",
        }
    }
}

/// What the service keeps of a device created with these declarations: the
/// high-resolution wheels among its relative axes, a scaler per absolute
/// axis, and its key-repeat times (zero when not positive).
pub open spec fn declared_settings(
    rel: Seq<RelAxis>,
    abs: Seq<(AbsAxis, AbsInfo)>,
    delay: Option<i32>,
    period: Option<i32>,
) -> DeviceSettings {
    DeviceSettings {
        hi_wheel: rel.contains(RelAxis::WheelHiRes),
        hi_hwheel: rel.contains(RelAxis::HWheelHiRes),
        axes: with_axes(Map::empty(), abs),
        repeat_delay_ms: repeat_ms(0, delay),
        repeat_period_ms: repeat_ms(0, period),
    }
}

/// Which event of a device is passed on, and as what. Pointer movements,
/// keys and synchronization pass unchanged. Of the two wheel streams, a
/// device with a high-resolution wheel passes only the high-resolution one,
/// a device without only the notches; other relative axes are dropped. An
/// absolute axis with a scaler passes with its value scaled; others, and
/// other absolute events, are dropped.
pub open spec fn route(s: DeviceSettings, event: Event) -> Option<Event> {
    match event {
        Event::Rel(RelEvent { axis, value: _ }) => match axis {
            RelAxis::X => Some(event),
            RelAxis::Y => Some(event),
            RelAxis::Wheel => if !s.hi_wheel {
                Some(event)
            } else {
                None
            },
            RelAxis::HWheel => if !s.hi_hwheel {
                Some(event)
            } else {
                None
            },
            RelAxis::WheelHiRes => if s.hi_wheel {
                Some(event)
            } else {
                None
            },
            RelAxis::HWheelHiRes => if s.hi_hwheel {
                Some(event)
            } else {
                None
            },
            _ => None,
        },
        Event::Abs(AbsEvent::Axis { axis, value }) => if s.axes.contains_key(axis) {
            Some(
                Event::Abs(
                    AbsEvent::Axis { axis, value: s.axes[axis].spec_normalize(value as int) as i32 },
                ),
            )
        } else {
            None
        },
        Event::Abs(_) => None,
        _ => Some(event),
    }
}

/// One device created by the server.
pub struct DeviceWriterWindows {
    repeat_delay_ms: u64,
    repeat_period_ms: u64,
    hi_wheel: bool,
    hi_hwheel: bool,
    abs_norm: AxisTable,
}

impl View for DeviceWriterWindows {
    type V = DeviceSettings;

    closed spec fn view(&self) -> DeviceSettings {
        DeviceSettings {
            hi_wheel: self.hi_wheel,
            hi_hwheel: self.hi_hwheel,
            axes: self.abs_norm@,
            repeat_delay_ms: self.repeat_delay_ms,
            repeat_period_ms: self.repeat_period_ms,
        }
    }
}

impl DeviceWriterWindows {
    /// The event to pass on for `event`, if any.
    pub fn event(&self, event: Event) -> (r: Option<Event>)
        ensures
            r == route(self@, event),
    {
        match event {
            Event::Rel(RelEvent { axis, value: _ }) => match axis {
                RelAxis::X => Some(event),
                RelAxis::Y => Some(event),
                RelAxis::Wheel => if !self.hi_wheel {
                    Some(event)
                } else {
                    None
                },
                RelAxis::HWheel => if !self.hi_hwheel {
                    Some(event)
                } else {
                    None
                },
                RelAxis::WheelHiRes => if self.hi_wheel {
                    Some(event)
                } else {
                    None
                },
                RelAxis::HWheelHiRes => if self.hi_hwheel {
                    Some(event)
                } else {
                    None
                },
                _ => None,
            },
            Event::Abs(abs) => match abs {
                AbsEvent::Axis { axis, value } => match self.abs_norm.get(&axis) {
                    Some(normalizer) => {
                        let nv = normalizer.normalize(value);
                        Some(Event::Abs(AbsEvent::Axis { axis, value: nv }))
                    },
                    None => None,
                },
                _ => None,
            },
            _ => Some(event),
        }
    }
}

/// The devices that the server created, in front of the writer that their
/// events are passed on to.
pub struct WritersWindows<W> {
    writer: W,
    dev: HashMap<usize, DeviceWriterWindows>,
}

impl<W> WritersWindows<W> {
    /// The created devices, by id, with what is kept of each.
    pub closed spec fn devices(&self) -> Map<usize, DeviceSettings> {
        self.dev@.map_values(|d: DeviceWriterWindows| d@)
    }

    /// The writer that events are passed on to.
    pub closed spec fn inner(&self) -> W {
        self.writer
    }

    /// No devices yet, in front of `writer`.
    pub fn new(writer: W) -> (r: Self)
        ensures
            r.devices() == Map::<usize, DeviceSettings>::empty(),
            r.inner() == writer,
    {
        let r = WritersWindows { writer: writer, dev: HashMap::new() };
        assert(r.devices() =~= Map::<usize, DeviceSettings>::empty());
        r
    }

    /// The writer that events are passed on to, to pass one on.
    pub fn writer_mut(&mut self) -> (r: &mut W)
        ensures
            *r == old(self).inner(),
            final(self).inner() == *final(r),
            final(self).devices() == old(self).devices(),
    {
        &mut self.writer
    }

    /// Creates device `id`, unless that id is in use. Of what is declared,
    /// the name, the vendor, product and version ids and the keys play no
    /// part on Windows.
    pub fn create_device(
        &mut self,
        id: usize,
        _name: &[u8],
        _vendor: u16,
        _product: u16,
        _version: u16,
        rel: Vec<RelAxis>,
        abs: Vec<(AbsAxis, AbsInfo)>,
        _keys: Vec<Key>,
        delay: Option<i32>,
        period: Option<i32>,
    ) -> (r: Result<(), DeviceError>)
        ensures
            final(self).inner() == old(self).inner(),
            old(self).devices().contains_key(id) ==> r == Err::<(), DeviceError>(
                DeviceError::DuplicateDevice,
            ) && final(self).devices() == old(self).devices(),
            !old(self).devices().contains_key(id) ==> r == Ok::<(), DeviceError>(())
                && final(self).devices() == old(self).devices().insert(
                id,
                declared_settings(rel@, abs@, delay, period),
            ),
    {
        if self.dev.contains_key(&id) {
            return Err(DeviceError::DuplicateDevice);
        }
        let (hi_wheel, hi_hwheel) = hi_res_wheels(&rel);
        let mut abs_norm = AxisTable::new();
        add_axes(&mut abs_norm, &abs);
        let device = DeviceWriterWindows {
            repeat_delay_ms: repeat_millis(0, delay),
            repeat_period_ms: repeat_millis(0, period),
            hi_wheel,
            hi_hwheel,
            abs_norm,
        };
        self.dev.insert(id, device);
        assert(self.devices() =~= old(self).devices().insert(
            id,
            declared_settings(rel@, abs@, delay, period),
        ));
        Ok(())
    }

    /// Destroys device `id`, if it exists.
    pub fn destroy_device(&mut self, id: usize) -> (r: Result<(), DeviceError>)
        ensures
            final(self).inner() == old(self).inner(),
            old(self).devices().contains_key(id) ==> r == Ok::<(), DeviceError>(())
                && final(self).devices() == old(self).devices().remove(id),
            !old(self).devices().contains_key(id) ==> r == Err::<(), DeviceError>(
                DeviceError::NonexistentDevice,
            ) && final(self).devices() == old(self).devices(),
    {
        match self.dev.remove(&id) {
            Some(_) => {
                assert(self.devices() =~= old(self).devices().remove(id));
                Ok(())
            },
            None => {
                assert(self.devices() =~= old(self).devices());
                Err(DeviceError::NonexistentDevice)
            },
        }
    }

    /// The event to pass on to the writer for an event of device `id`.
    pub fn event(&self, id: usize, event: Event) -> (r: Result<Option<Event>, DeviceError>)
        ensures
            !self.devices().contains_key(id) ==> r == Err::<Option<Event>, DeviceError>(
                DeviceError::EventForNonexistentDevice,
            ),
            self.devices().contains_key(id) ==> r == Ok::<Option<Event>, DeviceError>(
                route(self.devices()[id], event),
            ),
    {
        match self.dev.get(&id) {
            Some(dev) => Ok(dev.event(event)),
            None => Err(DeviceError::EventForNonexistentDevice),
        }
    }
}


/// A created device is there, with what its declaration keeps, until it is
/// destroyed; destroying it restores the devices as they were before it was
/// created.
pub proof fn lemma_create_then_destroy(
    devices: Map<usize, DeviceSettings>,
    id: usize,
    settings: DeviceSettings,
)
    requires
        !devices.contains_key(id),
    ensures
        devices.insert(id, settings).contains_key(id),
        devices.insert(id, settings)[id] == settings,
        !devices.insert(id, settings).remove(id).contains_key(id),
        devices.insert(id, settings).remove(id) == devices,
{
    assert(devices.insert(id, settings).remove(id) =~= devices);
}

/// Of the two vertical wheel streams of a device, exactly one is passed on;
/// likewise for the horizontal ones. A wheel is never scrolled twice.
pub proof fn lemma_one_wheel_stream_passes(s: DeviceSettings, notches: i32, units: i32)
    ensures
        route(s, Event::Rel(RelEvent { axis: RelAxis::Wheel, value: notches })) is Some != route(
            s,
            Event::Rel(RelEvent { axis: RelAxis::WheelHiRes, value: units }),
        ) is Some,
        route(s, Event::Rel(RelEvent { axis: RelAxis::HWheel, value: notches })) is Some != route(
            s,
            Event::Rel(RelEvent { axis: RelAxis::HWheelHiRes, value: units }),
        ) is Some,
{
}

/// Keys, buttons, synchronization and pointer movements pass unchanged.
pub proof fn lemma_route_passes_unchanged(s: DeviceSettings, event: Event)
    requires
        event is Key || event is Sync || (event matches Event::Rel(r) && (r.axis == RelAxis::X
            || r.axis == RelAxis::Y)),
    ensures
        route(s, event) == Some(event),
{
}

/// An absolute event that is passed on is on the same axis, with its value
/// in the Windows absolute range.
pub proof fn lemma_routed_abs_in_range(s: DeviceSettings, axis: AbsAxis, value: i32)
    ensures
        route(s, Event::Abs(AbsEvent::Axis { axis, value })) is Some <==> s.axes.contains_key(axis),
        route(s, Event::Abs(AbsEvent::Axis { axis, value })) matches Some(
            Event::Abs(AbsEvent::Axis { axis: a, value: v }),
        ) ==> a == axis && 0 <= v <= 65535,
{
    if s.axes.contains_key(axis) {
        lemma_normalized_in_range(s.axes[axis].min as int, s.axes[axis].max as int, value as int);
    }
}

/// The service and the injector, given the same declarations, agree on
/// which relative movements count: an event is passed on exactly when the
/// injector would write it.
pub proof fn lemma_route_agrees_with_injector(s: DeviceSettings, axis: RelAxis, value: i32)
    ensures
        route(s, Event::Rel(RelEvent { axis, value })) is Some <==> event_input(
            s,
            Event::Rel(RelEvent { axis, value }),
        ) is Some,
{
}

/// An injector built from the same declarations as a device created in the
/// service keeps the same settings.
pub proof fn lemma_builder_matches_declaration(
    rel: Seq<RelAxis>,
    abs: Seq<(AbsAxis, AbsInfo)>,
    delay: Option<i32>,
    period: Option<i32>,
)
    ensures
        declare_period(
            declare_delay(declare_abs(declare_rel(empty_settings(), rel), abs), delay),
            period,
        ) == declared_settings(rel, abs, delay, period),
{
}

/// The service never rewrites a relative event: each is passed on exactly
/// as it came, or dropped. Likewise keys, buttons and synchronization.
pub proof fn lemma_route_never_rewrites(s: DeviceSettings, event: Event)
    ensures
        !(event is Abs) ==> (route(s, event) is None || route(s, event) == Some(event)),
        event matches Event::Rel(e) ==> (route(s, event) is None || route(s, event) == Some(
            Event::Rel(e),
        )),
{
}

} // verus!

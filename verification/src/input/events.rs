//! The events of the engine, and the state of a key that commands are
//! registered for.

use std::time::{Duration, Instant};
use vstd::prelude::*;
use vstd::std_specs::cmp::PartialEqSpecImpl;
use vstd::std_specs::convert::FromSpecImpl;

verus! {

/// The code of a key: the number that the window system gives it.
pub type KeyCode = u32;

/// What a command can be registered for.
#[derive(Clone, Copy, PartialEq, Eq, Hash, Debug, Structural)]
pub enum ChaosDeviceEventRegistration {
    CloseRequested,
    Focused,
    Unfocused,
    Suspended,
    Reanimated,
    Resized,
    /// The key goes down.
    KeyPress(KeyCode),
    /// The key goes down for the given number of times in quick succession,
    /// or for a multiple of it.
    MultiKeyPress(KeyCode, u128),
}

/// What happened, without its details, but for the key that it is about.
#[derive(Clone, Copy, Eq, Debug)]
pub enum ChaosDeviceEvent {
    CloseRequested,
    Focused,
    Unfocused,
    Suspended,
    Reanimated,
    KeyPress(KeyCode),
    Unrecognized,
}

/// What happened, as the window system reported it.
#[derive(Clone, Copy, PartialEq, Eq, Hash, Debug, Structural)]
pub enum ChaosDeviceDetailedEvent {
    CloseRequested,
    Focused,
    Unfocused,
    Suspended,
    Reanimated,
    /// The key, and whether it went down (`true`) or up (`false`).
    KeyPress(KeyCode, bool),
    Unrecognized,
}

impl ChaosDeviceEvent {
    /// The two events are of one kind: two key presses are, whatever their
    /// keys.
    pub open spec fn same_kind(self, other: ChaosDeviceEvent) -> bool {
        match (self, other) {
            (ChaosDeviceEvent::CloseRequested, ChaosDeviceEvent::CloseRequested) => true,
            (ChaosDeviceEvent::Focused, ChaosDeviceEvent::Focused) => true,
            (ChaosDeviceEvent::Unfocused, ChaosDeviceEvent::Unfocused) => true,
            (ChaosDeviceEvent::Suspended, ChaosDeviceEvent::Suspended) => true,
            (ChaosDeviceEvent::Reanimated, ChaosDeviceEvent::Reanimated) => true,
            (ChaosDeviceEvent::KeyPress(_), ChaosDeviceEvent::KeyPress(_)) => true,
            (ChaosDeviceEvent::Unrecognized, ChaosDeviceEvent::Unrecognized) => true,
            _ => false,
        }
    }
}

impl ChaosDeviceEvent {
    /// Whether the event is `other`: of the same kind and, for a key press,
    /// of the same key.
    pub fn is_same_as(&self, other: &ChaosDeviceEvent) -> (same: bool)
        ensures
            same <==> *self === *other,
    {
        match (self, other) {
            (ChaosDeviceEvent::CloseRequested, ChaosDeviceEvent::CloseRequested) => true,
            (ChaosDeviceEvent::Focused, ChaosDeviceEvent::Focused) => true,
            (ChaosDeviceEvent::Unfocused, ChaosDeviceEvent::Unfocused) => true,
            (ChaosDeviceEvent::Suspended, ChaosDeviceEvent::Suspended) => true,
            (ChaosDeviceEvent::Reanimated, ChaosDeviceEvent::Reanimated) => true,
            (ChaosDeviceEvent::KeyPress(key), ChaosDeviceEvent::KeyPress(other_key)) => *key
                == *other_key,
            (ChaosDeviceEvent::Unrecognized, ChaosDeviceEvent::Unrecognized) => true,
            _ => false,
        }
    }
}

/// `==` on events asks for the same kind only.
impl PartialEq for ChaosDeviceEvent {
    fn eq(&self, other: &ChaosDeviceEvent) -> (same: bool) {
        match (self, other) {
            (ChaosDeviceEvent::CloseRequested, ChaosDeviceEvent::CloseRequested) => true,
            (ChaosDeviceEvent::Focused, ChaosDeviceEvent::Focused) => true,
            (ChaosDeviceEvent::Unfocused, ChaosDeviceEvent::Unfocused) => true,
            (ChaosDeviceEvent::Suspended, ChaosDeviceEvent::Suspended) => true,
            (ChaosDeviceEvent::Reanimated, ChaosDeviceEvent::Reanimated) => true,
            (ChaosDeviceEvent::KeyPress(_), ChaosDeviceEvent::KeyPress(_)) => true,
            (ChaosDeviceEvent::Unrecognized, ChaosDeviceEvent::Unrecognized) => true,
            _ => false,
        }
    }
}

impl PartialEqSpecImpl for ChaosDeviceEvent {
    open spec fn obeys_eq_spec() -> bool {
        true
    }

    open spec fn eq_spec(&self, other: &ChaosDeviceEvent) -> bool {
        self.same_kind(*other)
    }
}

impl ChaosDeviceDetailedEvent {
    /// The event without its details.
    pub open spec fn plain(self) -> ChaosDeviceEvent {
        match self {
            ChaosDeviceDetailedEvent::KeyPress(code, _) => ChaosDeviceEvent::KeyPress(code),
            ChaosDeviceDetailedEvent::Focused => ChaosDeviceEvent::Focused,
            ChaosDeviceDetailedEvent::CloseRequested => ChaosDeviceEvent::CloseRequested,
            ChaosDeviceDetailedEvent::Unfocused => ChaosDeviceEvent::Unfocused,
            ChaosDeviceDetailedEvent::Reanimated => ChaosDeviceEvent::Reanimated,
            ChaosDeviceDetailedEvent::Suspended => ChaosDeviceEvent::Suspended,
            ChaosDeviceDetailedEvent::Unrecognized => ChaosDeviceEvent::Unrecognized,
        }
    }
}

impl From<ChaosDeviceDetailedEvent> for ChaosDeviceEvent {
    fn from(detailed: ChaosDeviceDetailedEvent) -> (event: ChaosDeviceEvent) {
        match detailed {
            ChaosDeviceDetailedEvent::KeyPress(code, _) => ChaosDeviceEvent::KeyPress(code),
            ChaosDeviceDetailedEvent::Focused => ChaosDeviceEvent::Focused,
            ChaosDeviceDetailedEvent::CloseRequested => ChaosDeviceEvent::CloseRequested,
            ChaosDeviceDetailedEvent::Unfocused => ChaosDeviceEvent::Unfocused,
            ChaosDeviceDetailedEvent::Reanimated => ChaosDeviceEvent::Reanimated,
            ChaosDeviceDetailedEvent::Suspended => ChaosDeviceEvent::Suspended,
            ChaosDeviceDetailedEvent::Unrecognized => ChaosDeviceEvent::Unrecognized,
        }
    }
}

impl FromSpecImpl<ChaosDeviceDetailedEvent> for ChaosDeviceEvent {
    open spec fn obeys_from_spec() -> bool {
        true
    }

    open spec fn from_spec(detailed: ChaosDeviceDetailedEvent) -> ChaosDeviceEvent {
        detailed.plain()
    }
}

impl From<&ChaosDeviceDetailedEvent> for ChaosDeviceEvent {
    fn from(detailed: &ChaosDeviceDetailedEvent) -> (event: ChaosDeviceEvent) {
        match detailed {
            ChaosDeviceDetailedEvent::KeyPress(code, _) => ChaosDeviceEvent::KeyPress(*code),
            ChaosDeviceDetailedEvent::Focused => ChaosDeviceEvent::Focused,
            ChaosDeviceDetailedEvent::CloseRequested => ChaosDeviceEvent::CloseRequested,
            ChaosDeviceDetailedEvent::Unfocused => ChaosDeviceEvent::Unfocused,
            ChaosDeviceDetailedEvent::Reanimated => ChaosDeviceEvent::Reanimated,
            ChaosDeviceDetailedEvent::Suspended => ChaosDeviceEvent::Suspended,
            ChaosDeviceDetailedEvent::Unrecognized => ChaosDeviceEvent::Unrecognized,
        }
    }
}

impl FromSpecImpl<&ChaosDeviceDetailedEvent> for ChaosDeviceEvent {
    open spec fn obeys_from_spec() -> bool {
        true
    }

    open spec fn from_spec(detailed: &ChaosDeviceDetailedEvent) -> ChaosDeviceEvent {
        detailed.plain()
    }
}

impl ChaosDeviceEventRegistration {
    /// The event that sets off what was registered: for a key, the key
    /// going down. A change of size has no event of its own.
    pub open spec fn trigger_event(self) -> ChaosDeviceDetailedEvent {
        match self {
            ChaosDeviceEventRegistration::CloseRequested => ChaosDeviceDetailedEvent::CloseRequested,
            ChaosDeviceEventRegistration::KeyPress(key) => ChaosDeviceDetailedEvent::KeyPress(
                key,
                true,
            ),
            ChaosDeviceEventRegistration::MultiKeyPress(key, _) => ChaosDeviceDetailedEvent::KeyPress(
                key,
                true,
            ),
            ChaosDeviceEventRegistration::Suspended => ChaosDeviceDetailedEvent::Suspended,
            ChaosDeviceEventRegistration::Reanimated => ChaosDeviceDetailedEvent::Reanimated,
            ChaosDeviceEventRegistration::Focused => ChaosDeviceDetailedEvent::Focused,
            ChaosDeviceEventRegistration::Unfocused => ChaosDeviceDetailedEvent::Unfocused,
            ChaosDeviceEventRegistration::Resized => ChaosDeviceDetailedEvent::Unrecognized,
        }
    }

    /// The registration does not ask for zero presses in succession.
    pub open spec fn is_countable(self) -> bool {
        match self {
            ChaosDeviceEventRegistration::MultiKeyPress(_, repeats) => repeats != 0,
            _ => true,
        }
    }

    /// The registration is for what `event` reports: a single press of the
    /// key that the event is about, whether the key went down or up, or
    /// the same change of the window. A registration for several presses
    /// is for no single event, and nothing is for an event that was not
    /// recognized.
    pub open spec fn is_for(self, event: ChaosDeviceDetailedEvent) -> bool {
        match event {
            ChaosDeviceDetailedEvent::KeyPress(input_key, _) => self
                == ChaosDeviceEventRegistration::KeyPress(input_key),
            ChaosDeviceDetailedEvent::Unfocused => self == ChaosDeviceEventRegistration::Unfocused,
            ChaosDeviceDetailedEvent::Reanimated => self == ChaosDeviceEventRegistration::Reanimated,
            ChaosDeviceDetailedEvent::Focused => self == ChaosDeviceEventRegistration::Focused,
            ChaosDeviceDetailedEvent::Suspended => self == ChaosDeviceEventRegistration::Suspended,
            ChaosDeviceDetailedEvent::CloseRequested => self
                == ChaosDeviceEventRegistration::CloseRequested,
            ChaosDeviceDetailedEvent::Unrecognized => false,
        }
    }
}

impl From<ChaosDeviceEventRegistration> for ChaosDeviceDetailedEvent {
    fn from(cder: ChaosDeviceEventRegistration) -> (event: ChaosDeviceDetailedEvent) {
        match cder {
            ChaosDeviceEventRegistration::CloseRequested => ChaosDeviceDetailedEvent::CloseRequested,
            ChaosDeviceEventRegistration::KeyPress(key) => ChaosDeviceDetailedEvent::KeyPress(
                key,
                true,
            ),
            ChaosDeviceEventRegistration::MultiKeyPress(key, _) => ChaosDeviceDetailedEvent::KeyPress(
                key,
                true,
            ),
            ChaosDeviceEventRegistration::Suspended => ChaosDeviceDetailedEvent::Suspended,
            ChaosDeviceEventRegistration::Reanimated => ChaosDeviceDetailedEvent::Reanimated,
            ChaosDeviceEventRegistration::Focused => ChaosDeviceDetailedEvent::Focused,
            ChaosDeviceEventRegistration::Unfocused => ChaosDeviceDetailedEvent::Unfocused,
            _ => ChaosDeviceDetailedEvent::Unrecognized,
        }
    }
}

impl FromSpecImpl<ChaosDeviceEventRegistration> for ChaosDeviceDetailedEvent {
    open spec fn obeys_from_spec() -> bool {
        true
    }

    open spec fn from_spec(cder: ChaosDeviceEventRegistration) -> ChaosDeviceDetailedEvent {
        cder.trigger_event()
    }
}

impl PartialEq<ChaosDeviceDetailedEvent> for ChaosDeviceEventRegistration {
    fn eq(&self, other: &ChaosDeviceDetailedEvent) -> (same: bool) {
        match other {
            ChaosDeviceDetailedEvent::KeyPress(input_key, _) => {
                match self {
                    ChaosDeviceEventRegistration::KeyPress(registration_input_key) => *input_key
                        == *registration_input_key,
                    _ => false,
                }
            },
            ChaosDeviceDetailedEvent::Unfocused => *self == ChaosDeviceEventRegistration::Unfocused,
            ChaosDeviceDetailedEvent::Reanimated => *self
                == ChaosDeviceEventRegistration::Reanimated,
            ChaosDeviceDetailedEvent::Focused => *self == ChaosDeviceEventRegistration::Focused,
            ChaosDeviceDetailedEvent::Suspended => *self == ChaosDeviceEventRegistration::Suspended,
            ChaosDeviceDetailedEvent::CloseRequested => *self
                == ChaosDeviceEventRegistration::CloseRequested,
            _ => false,
        }
    }
}

impl PartialEqSpecImpl<ChaosDeviceDetailedEvent> for ChaosDeviceEventRegistration {
    open spec fn obeys_eq_spec() -> bool {
        true
    }

    open spec fn eq_spec(&self, other: &ChaosDeviceDetailedEvent) -> bool {
        self.is_for(*other)
    }
}

/// `std::time::Instant`: a moment on the machine's monotonic clock. Nothing
/// is claimed of what is inside one.
#[verifier::external_type_specification]
#[verifier::external_body]
pub struct ExInstant(Instant);

/// `Instant::now` reads the machine's monotonic clock. Nothing is claimed of
/// the moment that comes back.
pub assume_specification[ Instant::now ]() -> (now: Instant);

/// The time that `Instant::saturating_duration_since` gives from `earlier`
/// to `later`: the time that passed between the two moments, and no time at
/// all where `earlier` is the later one.
pub uninterp spec fn time_between(later: Instant, earlier: Instant) -> Duration;

/// `Instant::saturating_duration_since` gives the time from `earlier` to
/// `later`. The two moments alone decide it; no more is claimed of the
/// duration that comes back than that it is the one named for them.
pub assume_specification[ Instant::saturating_duration_since ](
    later: &Instant,
    earlier: Instant,
) -> (elapsed: Duration)
    ensures
        elapsed == time_between(*later, earlier),
;

/// The number that `Duration::as_millis` gives for `duration`: the whole
/// milliseconds in it.
pub uninterp spec fn whole_milliseconds(duration: Duration) -> u128;

/// `Duration::as_millis` gives the whole milliseconds in `duration`. The
/// duration alone decides it; no more is claimed of the number that comes
/// back than that it is the one named for the duration.
pub assume_specification[ Duration::as_millis ](duration: &Duration) -> (milliseconds: u128)
    ensures
        milliseconds == whole_milliseconds(*duration),
;

/// The whole milliseconds from `earlier` to `later`; zero where `earlier` is
/// the later one.
pub open spec fn milliseconds_between(later: Instant, earlier: Instant) -> u128 {
    whole_milliseconds(time_between(later, earlier))
}

/// What is known of a key that a command is registered for.
pub struct ChaosDeviceEventState {
    button: KeyCode,
    repeats: u128,
    pressed: bool,
    last_release_time: Instant,
    last_pressed_time: Instant,
    actual_repeats: u128,
}

/// The mathematical state of a key.
pub struct KeyStateView {
    /// The key.
    pub button: KeyCode,
    /// How many presses in quick succession were asked for.
    pub repeats: u128,
    /// Whether the key is held down, as far as the events told.
    pub pressed: bool,
    /// The moment of the last event that reported the key going down.
    pub last_release_time: Instant,
    /// The moment of the last event that reported the key going up: the
    /// moment from which the time to the next press is measured.
    pub last_pressed_time: Instant,
    /// How many presses in quick succession were seen.
    pub actual_repeats: u128,
}

impl KeyStateView {
    /// `device_event` is about this key.
    pub open spec fn concerns(self, device_event: ChaosDeviceDetailedEvent) -> bool {
        match device_event {
            ChaosDeviceDetailedEvent::KeyPress(code, _) => code == self.button,
            _ => false,
        }
    }

    /// The state after `device_event`, which came at the moment `now`,
    /// `elapsed` milliseconds after the moment from which the time to the
    /// next press is measured. An event about another key, or about no
    /// key, changes nothing. A press within less than
    /// `multi_press_time_delta_millis` counts as one more in quick
    /// succession, a later one as the first of a new count. The count wraps
    /// around at the end of its type. Every event about the key turns
    /// `pressed` over.
    pub open spec fn react(
        self,
        device_event: ChaosDeviceDetailedEvent,
        now: Instant,
        elapsed: u128,
        multi_press_time_delta_millis: u128,
    ) -> KeyStateView {
        match device_event {
            ChaosDeviceDetailedEvent::KeyPress(code, true) if code == self.button => KeyStateView {
                actual_repeats: if elapsed < multi_press_time_delta_millis {
                    if self.actual_repeats == u128::MAX {
                        0
                    } else {
                        (self.actual_repeats + 1) as u128
                    }
                } else {
                    1
                },
                last_release_time: now,
                pressed: !self.pressed,
                ..self
            },
            ChaosDeviceDetailedEvent::KeyPress(code, false) if code == self.button => KeyStateView {
                last_pressed_time: now,
                pressed: !self.pressed,
                ..self
            },
            _ => self,
        }
    }

    /// The key is in the state that `registration` asks for: it is the key
    /// of the registration and held down, and where several presses were
    /// asked for, the presses seen in quick succession are a multiple of
    /// that number.
    pub open spec fn fulfils(self, registration: ChaosDeviceEventRegistration) -> bool
        recommends
            registration.is_countable(),
    {
        match registration {
            ChaosDeviceEventRegistration::KeyPress(key_code) => self.button == key_code
                && self.pressed,
            ChaosDeviceEventRegistration::MultiKeyPress(key_code, repeats) => self.button
                == key_code && self.pressed && self.actual_repeats % repeats == 0,
            _ => false,
        }
    }
}

impl View for ChaosDeviceEventState {
    type V = KeyStateView;

    closed spec fn view(&self) -> KeyStateView {
        KeyStateView {
            button: self.button,
            repeats: self.repeats,
            pressed: self.pressed,
            last_release_time: self.last_release_time,
            last_pressed_time: self.last_pressed_time,
            actual_repeats: self.actual_repeats,
        }
    }
}

impl ChaosDeviceEventState {
    /// The state of `key`, not held down, for a registration of single
    /// presses. The time to the next press is measured from now.
    pub fn new_single(key: KeyCode) -> (state: ChaosDeviceEventState)
        ensures
            state@.button == key,
            state@.repeats == 1,
            !state@.pressed,
            state@.actual_repeats == 0,
    {
        ChaosDeviceEventState {
            pressed: false,
            repeats: 1,
            last_pressed_time: Instant::now(),
            last_release_time: Instant::now(),
            button: key,
            actual_repeats: 0,
        }
    }

    /// The state of `key`, not held down, for a registration of `repeats`
    /// presses in quick succession. The time to the next press is measured
    /// from now.
    pub fn new_multi(key: KeyCode, repeats: u128) -> (state: ChaosDeviceEventState)
        ensures
            state@.button == key,
            state@.repeats == repeats,
            !state@.pressed,
            state@.actual_repeats == 0,
    {
        ChaosDeviceEventState {
            pressed: false,
            repeats,
            last_pressed_time: Instant::now(),
            last_release_time: Instant::now(),
            button: key,
            actual_repeats: 0,
        }
    }

    /// Takes note of `device_event`, which came at the moment `now`,
    /// `elapsed` milliseconds after the moment from which the time to the
    /// next press is measured.
    pub fn update_at(
        &mut self,
        device_event: &ChaosDeviceDetailedEvent,
        now: Instant,
        elapsed: u128,
        multi_press_time_delta_millis: u128,
    )
        ensures
            final(self)@ == old(self)@.react(
                *device_event,
                now,
                elapsed,
                multi_press_time_delta_millis,
            ),
    {
        match device_event {
            ChaosDeviceDetailedEvent::KeyPress(event_key_code, event_pressed) => {
                if *event_key_code == self.button {
                    if *event_pressed {
                        if elapsed < multi_press_time_delta_millis {
                            self.actual_repeats = self.actual_repeats.wrapping_add(1);
                        } else {
                            self.actual_repeats = 1;
                        }
                        self.last_release_time = now;
                    } else {
                        self.last_pressed_time = now;
                    }
                    self.pressed = !self.pressed;
                }
            },
            _ => {},
        }
    }

    /// The whole milliseconds from the moment from which the time to the
    /// next press is measured to `now`.
    pub(crate) fn elapsed_at(&self, now: &Instant) -> (elapsed: u128)
        ensures
            elapsed == milliseconds_between(*now, self@.last_pressed_time),
    {
        now.saturating_duration_since(self.last_pressed_time).as_millis()
    }

    /// Takes note of `device_event`, which came now: reads the clock where
    /// the event is about this key, and goes on as `update_at` does with
    /// the moment read and the time measured. An event about another key,
    /// or about no key, changes nothing.
    pub fn update(
        &mut self,
        device_event: &ChaosDeviceDetailedEvent,
        multi_press_time_delta_millis: u128,
    )
        ensures
            !old(self)@.concerns(*device_event) ==> final(self)@ == old(self)@,
            old(self)@.concerns(*device_event) ==> exists|now: Instant, elapsed: u128|
                final(self)@ == #[trigger] old(self)@.react(
                    *device_event,
                    now,
                    elapsed,
                    multi_press_time_delta_millis,
                ),
    {
        match device_event {
            ChaosDeviceDetailedEvent::KeyPress(event_key_code, _) => {
                if *event_key_code == self.button {
                    let now = Instant::now();
                    let elapsed = self.elapsed_at(&now);
                    self.update_at(device_event, now, elapsed, multi_press_time_delta_millis);
                }
            },
            _ => {},
        }
    }

    /// Whether the key is in the state that `registration` asks for. A
    /// registration for zero presses in succession asks for nothing that a
    /// key can be held against, and is not accepted.
    pub fn fulfils(&self, registration: &ChaosDeviceEventRegistration) -> (fulfilled: bool)
        requires
            registration.is_countable(),
        ensures
            fulfilled == self@.fulfils(*registration),
    {
        match registration {
            ChaosDeviceEventRegistration::KeyPress(key_code) => self.button == *key_code
                && self.pressed,
            ChaosDeviceEventRegistration::MultiKeyPress(key_code, repeats) => self.button
                == *key_code && self.pressed && self.actual_repeats % *repeats == 0,
            _ => false,
        }
    }
}

/// Two states are equal where they are of one key.
impl PartialEq for ChaosDeviceEventState {
    fn eq(&self, other: &ChaosDeviceEventState) -> (same: bool) {
        self.button == other.button
    }
}

impl PartialEqSpecImpl for ChaosDeviceEventState {
    open spec fn obeys_eq_spec() -> bool {
        true
    }

    open spec fn eq_spec(&self, other: &ChaosDeviceEventState) -> bool {
        self@.button == other@.button
    }
}

} // verus!

//! Which command to raise for which event.

use crate::commands::cmd::{CommandType, EXIT_CMD};
use crate::input::events::{
    milliseconds_between, ChaosDeviceDetailedEvent, ChaosDeviceEvent,
    ChaosDeviceEventRegistration, ChaosDeviceEventState, KeyCode, KeyStateView,
};
use std::time::Instant;
use vstd::prelude::*;

verus! {

/// Two presses of a key are in quick succession where less than this many
/// milliseconds lie between them.
pub const MULTI_PRESS_TIME_IN_MS: u128 = 300;

/// What was registered for one event.
pub struct Binding {
    /// The event, without its details, that the binding is looked up by.
    pub event: ChaosDeviceEvent,
    /// What the command was registered for.
    pub registration: ChaosDeviceEventRegistration,
    /// The state of the key, where the command was registered for a key
    /// through `register_single_key_press` or `register_multi_key_press`.
    pub state: Option<ChaosDeviceEventState>,
    /// The command to raise.
    pub command: CommandType,
}

/// The mathematical content of a binding.
pub struct BindingView {
    pub event: ChaosDeviceEvent,
    pub registration: ChaosDeviceEventRegistration,
    pub state: Option<KeyStateView>,
    pub command: CommandType,
}

impl View for Binding {
    type V = BindingView;

    open spec fn view(&self) -> BindingView {
        BindingView {
            event: self.event,
            registration: self.registration,
            state: match self.state {
                Some(state) => Some(state@),
                None => None,
            },
            command: self.command,
        }
    }
}

impl BindingView {
    /// A binding with the state of a key is looked up by a press of that
    /// key, and what it registers can be held against the state.
    pub open spec fn well_formed(self) -> bool {
        match self.state {
            Some(state) => self.event == ChaosDeviceEvent::KeyPress(state.button)
                && self.registration.is_countable(),
            None => true,
        }
    }

    /// The binding after `device_event`, by which it is looked up, came at
    /// the moment `now`, `elapsed` milliseconds after the moment from which
    /// its key measures the time to the next press.
    pub open spec fn react(
        self,
        device_event: ChaosDeviceDetailedEvent,
        now: Instant,
        elapsed: u128,
    ) -> BindingView {
        BindingView {
            state: match self.state {
                Some(state) => Some(
                    state.react(device_event, now, elapsed, MULTI_PRESS_TIME_IN_MS),
                ),
                None => None,
            },
            ..self
        }
    }

    /// The binding raises its command: always where it has no key state,
    /// else where the key is in the state that was registered.
    pub open spec fn fires(self) -> bool {
        match self.state {
            Some(state) => state.fulfils(self.registration),
            None => true,
        }
    }
}

/// The position of the binding that is looked up by `event`, or the length
/// of `bindings` where there is none.
pub open spec fn position_of(bindings: Seq<BindingView>, event: ChaosDeviceEvent) -> int
    decreases bindings.len(),
{
    if bindings.len() == 0 {
        0
    } else if bindings.first().event == event {
        0
    } else {
        1 + position_of(bindings.drop_first(), event)
    }
}

/// A binding is looked up by `event`.
pub open spec fn is_registered(bindings: Seq<BindingView>, event: ChaosDeviceEvent) -> bool {
    exists|i: int| 0 <= i < bindings.len() && (#[trigger] bindings[i]).event == event
}

/// Every binding is well formed, and no two are looked up by one event.
pub open spec fn well_formed(bindings: Seq<BindingView>) -> bool {
    &&& forall|i: int| 0 <= i < bindings.len() ==> (#[trigger] bindings[i]).well_formed()
    &&& forall|i: int, j: int|
        0 <= i < j < bindings.len() ==> (#[trigger] bindings[i]).event != (#[trigger] bindings[j]).event
}

/// The time in milliseconds that the key of the binding that is looked up by
/// `device_event` measured up to the moment `now`: the whole milliseconds
/// from the moment from which that key measures the time to its next press;
/// zero where no binding with the state of a key is looked up by the event.
pub open spec fn measured_at(
    bindings: Seq<BindingView>,
    device_event: ChaosDeviceDetailedEvent,
    now: Instant,
) -> u128 {
    let at = position_of(bindings, device_event.plain());
    if at < bindings.len() {
        match bindings[at].state {
            Some(state) => milliseconds_between(now, state.last_pressed_time),
            None => 0,
        }
    } else {
        0
    }
}

/// The bindings after `device_event` came at the moment `now`: the binding
/// that is looked up by the event reacts to it, the others stay as they
/// are. `elapsed` is the time that the key of that binding measured.
pub open spec fn after_event(
    bindings: Seq<BindingView>,
    device_event: ChaosDeviceDetailedEvent,
    now: Instant,
    elapsed: u128,
) -> Seq<BindingView> {
    let at = position_of(bindings, device_event.plain());
    if at < bindings.len() {
        bindings.update(at, bindings[at].react(device_event, now, elapsed))
    } else {
        bindings
    }
}

/// The command that `device_event` raises when it comes at the moment
/// `now`: that of the binding that is looked up by the event, if there is
/// one and it fires after it reacted to the event.
pub open spec fn raised_by(
    bindings: Seq<BindingView>,
    device_event: ChaosDeviceDetailedEvent,
    now: Instant,
    elapsed: u128,
) -> Option<CommandType> {
    let at = position_of(bindings, device_event.plain());
    if at < bindings.len() && bindings[at].react(device_event, now, elapsed).fires() {
        Some(bindings[at].command)
    } else {
        None
    }
}

/// The bindings after `device_events` came in order, the event at each
/// position at the moment and with the time measured that `moments` has
/// at that position.
pub open spec fn after_events(
    bindings: Seq<BindingView>,
    device_events: Seq<ChaosDeviceDetailedEvent>,
    moments: Seq<(Instant, u128)>,
) -> Seq<BindingView>
    recommends
        moments.len() == device_events.len(),
    decreases device_events.len(),
{
    if device_events.len() == 0 {
        bindings
    } else {
        after_event(
            after_events(bindings, device_events.drop_last(), moments.drop_last()),
            device_events.last(),
            moments.last().0,
            moments.last().1,
        )
    }
}

/// The commands that `device_events` raise when they come in order, the
/// event at each position at the moment and with the time measured that
/// `moments` has at that position: for each event that raises one its
/// command, in the order of the events.
pub open spec fn raised_by_events(
    bindings: Seq<BindingView>,
    device_events: Seq<ChaosDeviceDetailedEvent>,
    moments: Seq<(Instant, u128)>,
) -> Seq<CommandType>
    recommends
        moments.len() == device_events.len(),
    decreases device_events.len(),
{
    if device_events.len() == 0 {
        Seq::empty()
    } else {
        let earlier = raised_by_events(bindings, device_events.drop_last(), moments.drop_last());
        match raised_by(
            after_events(bindings, device_events.drop_last(), moments.drop_last()),
            device_events.last(),
            moments.last().0,
            moments.last().1,
        ) {
            Some(command) => earlier.push(command),
            None => earlier,
        }
    }
}

/// `position_of` gives the first position whose binding is looked up by
/// `event`.
pub proof fn lemma_position_of_first(bindings: Seq<BindingView>, event: ChaosDeviceEvent, at: int)
    requires
        0 <= at <= bindings.len(),
        forall|j: int| 0 <= j < at ==> (#[trigger] bindings[j]).event != event,
        at < bindings.len() ==> bindings[at].event == event,
    ensures
        position_of(bindings, event) == at,
    decreases bindings.len(),
{
    if bindings.len() > 0 && at > 0 {
        let rest = bindings.drop_first();
        assert(bindings[0].event != event);
        assert forall|j: int| 0 <= j < at - 1 implies (#[trigger] rest[j]).event != event by {
            assert(rest[j] == bindings[j + 1]);
        }
        lemma_position_of_first(rest, event, at - 1);
    }
}

/// `position_of` gives a position in `bindings` whose binding is looked up
/// by `event`, or the length of `bindings` where there is no such binding.
pub proof fn lemma_position_of_found(bindings: Seq<BindingView>, event: ChaosDeviceEvent)
    ensures
        0 <= position_of(bindings, event) <= bindings.len(),
        position_of(bindings, event) < bindings.len() <==> is_registered(bindings, event),
        position_of(bindings, event) < bindings.len() ==> bindings[position_of(
            bindings,
            event,
        )].event == event,
    decreases bindings.len(),
{
    if bindings.len() > 0 {
        let rest = bindings.drop_first();
        lemma_position_of_found(rest, event);
        if bindings.first().event == event {
            assert(bindings[0].event == event);
        } else {
            if is_registered(bindings, event) {
                let i = choose|i: int| 0 <= i < bindings.len() && (#[trigger] bindings[i]).event == event;
                assert(rest[i - 1] == bindings[i]);
            }
            if is_registered(rest, event) {
                let i = choose|i: int| 0 <= i < rest.len() && (#[trigger] rest[i]).event == event;
                assert(bindings[i + 1] == rest[i]);
            }
            if position_of(rest, event) < rest.len() {
                assert(bindings[position_of(rest, event) + 1] == rest[position_of(rest, event)]);
            }
        }
    }
}

/// The registry of the commands that events raise.
pub struct ChaosDeviceEventManager {
    bindings: Vec<Binding>,
}

impl View for ChaosDeviceEventManager {
    type V = Seq<BindingView>;

    closed spec fn view(&self) -> Seq<BindingView> {
        Seq::new(self.bindings@.len(), |i: int| self.bindings@[i]@)
    }
}

impl ChaosDeviceEventManager {
    /// Every binding is well formed, and no two are looked up by one event.
    pub open spec fn wf(&self) -> bool {
        well_formed(self@)
    }

    /// A registry in which closing the window raises the command to exit,
    /// and nothing else is registered.
    pub fn new() -> (manager: ChaosDeviceEventManager)
        ensures
            manager.wf(),
            manager@ == seq![
                (BindingView {
                    event: ChaosDeviceEvent::CloseRequested,
                    registration: ChaosDeviceEventRegistration::CloseRequested,
                    state: None,
                    command: EXIT_CMD,
                }),
            ],
    {
        let mut cdem = ChaosDeviceEventManager { bindings: Vec::new() };
        proof {
            assert(cdem@ =~= Seq::empty());
        }
        cdem.register_command(EXIT_CMD, ChaosDeviceEventRegistration::CloseRequested);
        proof {
            assert(!is_registered(Seq::<BindingView>::empty(), ChaosDeviceEvent::CloseRequested));
            assert(cdem@ =~= seq![
                (BindingView {
                    event: ChaosDeviceEvent::CloseRequested,
                    registration: ChaosDeviceEventRegistration::CloseRequested,
                    state: None,
                    command: EXIT_CMD,
                }),
            ]);
        }
        cdem
    }

    /// The position of the binding that is looked up by `event`, or the
    /// number of bindings where there is none.
    fn find(&self, event: &ChaosDeviceEvent) -> (at: usize)
        ensures
            at == position_of(self@, *event),
            at <= self@.len(),
            at < self@.len() <==> is_registered(self@, *event),
            at < self@.len() ==> self@[at as int].event == *event,
    {
        let mut i: usize = 0;
        while i < self.bindings.len()
            invariant
                i <= self.bindings@.len(),
                self@.len() == self.bindings@.len(),
                forall|j: int| 0 <= j < i ==> (#[trigger] self@[j]).event != *event,
            decreases self.bindings@.len() - i,
        {
            if self.bindings[i].event.is_same_as(event) {
                proof {
                    assert(self@[i as int].event == *event);
                    lemma_position_of_first(self@, *event, i as int);
                    lemma_position_of_found(self@, *event);
                }
                return i;
            }
            i += 1;
        }
        proof {
            lemma_position_of_first(self@, *event, i as int);
            lemma_position_of_found(self@, *event);
        }
        i
    }

    /// Whether a command is registered for `chaos_device_event`.
    pub fn is_registered_event(&self, chaos_device_event: &ChaosDeviceEvent) -> (registered: bool)
        ensures
            registered == is_registered(self@, *chaos_device_event),
    {
        self.find(chaos_device_event) < self.bindings.len()
    }

    /// Adds `binding`, unless a command is registered for its event
    /// already.
    fn bind(&mut self, binding: Binding) -> (registered: bool)
        requires
            old(self).wf(),
            binding@.well_formed(),
        ensures
            final(self).wf(),
            registered == !is_registered(old(self)@, binding.event),
            registered ==> final(self)@ == old(self)@.push(binding@),
            !registered ==> final(self)@ == old(self)@,
    {
        if self.is_registered_event(&binding.event) {
            return false;
        }
        self.bindings.push(binding);
        proof {
            assert(self@ =~= old(self)@.push(binding@));
        }
        true
    }

    /// Registers `command` for `input_key` going down, unless a command is
    /// registered for that key already. Says whether it was registered.
    /// The key starts as not held down, with no press seen.
    pub fn register_single_key_press(&mut self, command: CommandType, input_key: KeyCode) -> (registered:
        bool)
        requires
            old(self).wf(),
        ensures
            final(self).wf(),
            registered == !is_registered(old(self)@, ChaosDeviceEvent::KeyPress(input_key)),
            !registered ==> final(self)@ == old(self)@,
            registered ==> {
                &&& final(self)@.len() == old(self)@.len() + 1
                &&& final(self)@.drop_last() == old(self)@
                &&& final(self)@.last().event == ChaosDeviceEvent::KeyPress(input_key)
                &&& final(self)@.last().registration == ChaosDeviceEventRegistration::KeyPress(
                    input_key,
                )
                &&& final(self)@.last().command == command
                &&& final(self)@.last().state is Some
                &&& final(self)@.last().state->0.button == input_key
                &&& final(self)@.last().state->0.repeats == 1
                &&& !final(self)@.last().state->0.pressed
                &&& final(self)@.last().state->0.actual_repeats == 0
            },
    {
        let event = ChaosDeviceEvent::KeyPress(input_key);
        if self.is_registered_event(&event) {
            return false;
        }
        let registered = self.bind(
            Binding {
                event,
                registration: ChaosDeviceEventRegistration::KeyPress(input_key),
                state: Some(ChaosDeviceEventState::new_single(input_key)),
                command,
            },
        );
        proof {
            assert(self@.drop_last() =~= old(self)@);
        }
        registered
    }

    /// Registers `command` for `input_key` going down `repeats` times in
    /// quick succession, unless a command is registered for that key
    /// already. Says whether it was registered. The key starts as not held
    /// down, with no press seen.
    pub fn register_multi_key_press(
        &mut self,
        command: CommandType,
        input_key: KeyCode,
        repeats: u128,
    ) -> (registered: bool)
        requires
            old(self).wf(),
            repeats != 0,
        ensures
            final(self).wf(),
            registered == !is_registered(old(self)@, ChaosDeviceEvent::KeyPress(input_key)),
            !registered ==> final(self)@ == old(self)@,
            registered ==> {
                &&& final(self)@.len() == old(self)@.len() + 1
                &&& final(self)@.drop_last() == old(self)@
                &&& final(self)@.last().event == ChaosDeviceEvent::KeyPress(input_key)
                &&& final(self)@.last().registration
                    == ChaosDeviceEventRegistration::MultiKeyPress(input_key, repeats)
                &&& final(self)@.last().command == command
                &&& final(self)@.last().state is Some
                &&& final(self)@.last().state->0.button == input_key
                &&& final(self)@.last().state->0.repeats == repeats
                &&& !final(self)@.last().state->0.pressed
                &&& final(self)@.last().state->0.actual_repeats == 0
            },
    {
        let event = ChaosDeviceEvent::KeyPress(input_key);
        if self.is_registered_event(&event) {
            return false;
        }
        let registered = self.bind(
            Binding {
                event,
                registration: ChaosDeviceEventRegistration::MultiKeyPress(input_key, repeats),
                state: Some(ChaosDeviceEventState::new_multi(input_key, repeats)),
                command,
            },
        );
        proof {
            assert(self@.drop_last() =~= old(self)@);
        }
        registered
    }

    /// Registers `command` for `event_registration`, to be raised by every
    /// event that is looked up as the event that sets the registration
    /// off: for a key that is every event about the key, going down or up.
    /// Nothing is registered where a command is registered for that event
    /// already. Says whether it was registered.
    pub fn register_command(
        &mut self,
        command: CommandType,
        event_registration: ChaosDeviceEventRegistration,
    ) -> (registered: bool)
        requires
            old(self).wf(),
        ensures
            final(self).wf(),
            registered == !is_registered(old(self)@, event_registration.trigger_event().plain()),
            registered ==> final(self)@ == old(self)@.push(
                BindingView {
                    event: event_registration.trigger_event().plain(),
                    registration: event_registration,
                    state: None,
                    command,
                },
            ),
            !registered ==> final(self)@ == old(self)@,
    {
        let event = ChaosDeviceEvent::from(ChaosDeviceDetailedEvent::from(event_registration));
        self.bind(Binding { event, registration: event_registration, state: None, command })
    }

    /// Takes note of `device_event`, which came at the moment `now`, and
    /// returns the command that it raises, if any. The binding that is
    /// looked up by the event takes note of it, where the binding has the
    /// state of a key, and raises its command where it fires. `elapsed` is
    /// the time in milliseconds that the key of that binding measured up
    /// to `now`.
    pub fn get_command_at(
        &mut self,
        device_event: &ChaosDeviceDetailedEvent,
        now: Instant,
        elapsed: u128,
    ) -> (command: Option<CommandType>)
        requires
            old(self).wf(),
        ensures
            final(self).wf(),
            final(self)@ == after_event(old(self)@, *device_event, now, elapsed),
            command == raised_by(old(self)@, *device_event, now, elapsed),
    {
        let event_lookup_key = ChaosDeviceEvent::from(device_event);
        let at = self.find(&event_lookup_key);
        if at >= self.bindings.len() {
            return None;
        }
        let binding = &mut self.bindings[at];
        let command = match &mut binding.state {
            Some(button_state) => {
                button_state.update_at(device_event, now, elapsed, MULTI_PRESS_TIME_IN_MS);
                if button_state.fulfils(&binding.registration) {
                    Some(binding.command)
                } else {
                    None
                }
            },
            None => Some(binding.command),
        };
        proof {
            assert(self@ =~= after_event(old(self)@, *device_event, now, elapsed));
        }
        command
    }

    /// Reads the clock for `device_event`: the moment now, and the time in
    /// milliseconds that the key of the binding that is looked up by the
    /// event measured up to it; zero where no binding with the state of a
    /// key is looked up by the event.
    fn measure(&self, device_event: &ChaosDeviceDetailedEvent) -> (moment: (Instant, u128))
        ensures
            moment.1 == measured_at(self@, *device_event, moment.0),
    {
        let now = Instant::now();
        let at = self.find(&ChaosDeviceEvent::from(device_event));
        if at < self.bindings.len() {
            match &self.bindings[at].state {
                Some(button_state) => {
                    let elapsed = button_state.elapsed_at(&now);
                    (now, elapsed)
                },
                None => (now, 0),
            }
        } else {
            (now, 0)
        }
    }

    /// Takes note of `events`, which came just now, in order, and returns
    /// the commands that they raise, in the order of the events. The clock
    /// is read once for each event; whatever it gave, the registry and the
    /// commands are what `get_command_at` makes of each event in turn at
    /// the moment read for it.
    pub fn get_commands(&mut self, events: &Vec<ChaosDeviceDetailedEvent>) -> (commands: Vec<
        CommandType,
    >)
        requires
            old(self).wf(),
        ensures
            final(self).wf(),
            exists|moments: Seq<(Instant, u128)>|
                {
                    &&& moments.len() == events@.len()
                    &&& final(self)@ == #[trigger] after_events(old(self)@, events@, moments)
                    &&& commands@ == raised_by_events(old(self)@, events@, moments)
                },
    {
        let mut commands: Vec<CommandType> = Vec::new();
        let ghost mut moments: Seq<(Instant, u128)> = Seq::empty();
        let mut i: usize = 0;
        proof {
            assert(events@.take(0) =~= Seq::empty());
        }
        while i < events.len()
            invariant
                i <= events@.len(),
                self.wf(),
                moments.len() == i,
                self@ == after_events(old(self)@, events@.take(i as int), moments),
                commands@ == raised_by_events(old(self)@, events@.take(i as int), moments),
            decreases events@.len() - i,
        {
            let chaos_device_event = &events[i];
            let (now, elapsed) = self.measure(chaos_device_event);
            let raised = self.get_command_at(chaos_device_event, now, elapsed);
            match raised {
                Some(command) => {
                    commands.push(command);
                },
                None => {},
            }
            proof {
                let seen = events@.take(i + 1);
                let extended = moments.push((now, elapsed));
                assert(seen.drop_last() =~= events@.take(i as int));
                assert(seen.last() == events@[i as int]);
                assert(extended.drop_last() =~= moments);
                moments = extended;
            }
            i += 1;
        }
        proof {
            assert(events@.take(i as int) =~= events@);
        }
        commands
    }
}

} // verus!

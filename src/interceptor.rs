use vstd::prelude::*;

use crate::events::WorkspaceSwitcherEvent;

verus! {

/// Event type number of key events in the kernel's input protocol.
pub const EV_KEY: u32 = 1;

/// Value of a key event when the key goes up.
pub const KEY_RELEASED: i32 = 0;

/// Value of a key event when the key goes down.
pub const KEY_PRESSED: i32 = 1;

/// Value of a key event sent by auto-repeat while the key stays down.
pub const KEY_REPEATED: i32 = 2;

/// One raw input event, as read from the physical device: its timestamp, its
/// event type and code, and its value. For key events the value tells the
/// action (released, pressed, repeated). Events of other types pass through
/// the interceptor untouched.
#[derive(Clone, Copy, Debug, PartialEq, Eq, Structural)]
pub struct RawKeyEvent {
    pub time_sec: i64,
    pub time_usec: i64,
    pub event_type: u32,
    pub code: u32,
    pub value: i32,
}

/// The keys of the chord: one or two interchangeable modifier keys and the
/// trigger key, as key codes.
#[derive(Clone, Copy, Debug, PartialEq, Eq, Structural)]
pub struct KeyConfig {
    pub modifier1: u32,
    pub modifier2: Option<u32>,
    pub trigger: u32,
}

/// Why a key configuration cannot be used.
#[derive(Clone, Copy, Debug, PartialEq, Eq, Structural)]
pub enum ConfigError {
    /// The trigger key is also one of the modifier keys.
    KeysOverlap,
}

impl KeyConfig {
    /// The trigger is neither of the modifiers.
    pub open spec fn wf(&self) -> bool {
        &&& self.trigger != self.modifier1
        &&& self.modifier2 != Some(self.trigger)
    }

    /// Either modifier counts: the two are interchangeable.
    pub open spec fn is_modifier(&self, code: u32) -> bool {
        code == self.modifier1 || self.modifier2 == Some(code)
    }

    fn matches_modifier(&self, code: u32) -> (r: bool)
        ensures
            r == self.is_modifier(code),
    {
        if code == self.modifier1 {
            true
        } else {
            match self.modifier2 {
                Some(m) => m == code,
                None => false,
            }
        }
    }

    /// Tells whether the configuration can be used.
    pub fn is_valid(&self) -> (r: bool)
        ensures
            r == self.wf(),
    {
        if self.trigger == self.modifier1 {
            false
        } else {
            match self.modifier2 {
                Some(m) => m != self.trigger,
                None => true,
            }
        }
    }
}

/// Where the interceptor stands in the modifier/trigger chord.
#[derive(Clone, Copy, Debug, PartialEq, Eq, Structural)]
pub enum InterceptState {
    /// No modifier is held.
    Idle,
    /// A modifier is held and no trigger has been pressed since.
    ModifierDown,
    /// A modifier is held and at least one trigger has been pressed since.
    Cycling,
}

/// What to do with one raw event: the event to write to the synthetic device,
/// if any, and the switch event to raise, if any.
#[derive(Clone, Copy, Debug, PartialEq, Eq, Structural)]
pub struct EventDecision {
    pub forward: Option<RawKeyEvent>,
    pub emit: Option<WorkspaceSwitcherEvent>,
}

/// A press or a release of one of the modifiers (auto-repeat excluded).
pub open spec fn is_modifier_edge(cfg: KeyConfig, e: RawKeyEvent) -> bool {
    &&& e.event_type == EV_KEY
    &&& cfg.is_modifier(e.code)
    &&& (e.value == KEY_RELEASED || e.value == KEY_PRESSED)
}

/// A release of one of the modifiers.
pub open spec fn is_modifier_release(cfg: KeyConfig, e: RawKeyEvent) -> bool {
    is_modifier_edge(cfg, e) && e.value == KEY_RELEASED
}

/// A press of the trigger key (auto-repeat excluded).
pub open spec fn is_trigger_press(cfg: KeyConfig, e: RawKeyEvent) -> bool {
    &&& e.event_type == EV_KEY
    &&& e.code == cfg.trigger
    &&& e.value == KEY_PRESSED
}

/// A key event of a modifier or of the trigger, whatever its action.
pub open spec fn is_chord_key(cfg: KeyConfig, e: RawKeyEvent) -> bool {
    &&& e.event_type == EV_KEY
    &&& (cfg.is_modifier(e.code) || e.code == cfg.trigger)
}

/// The state after one event. A modifier press arms the chord from any state
/// and a modifier release disarms it; a trigger press while armed starts or
/// continues a cycle; everything else leaves the state alone. The modifiers
/// are interchangeable, so pressing one and releasing the other is one hold;
/// a press of a modifier during a cycle arms the chord afresh, and the cycle
/// then ends without `EndMod`.
pub open spec fn next_state(cfg: KeyConfig, s: InterceptState, e: RawKeyEvent) -> InterceptState {
    if is_modifier_edge(cfg, e) {
        if e.value == KEY_PRESSED {
            InterceptState::ModifierDown
        } else {
            InterceptState::Idle
        }
    } else if is_trigger_press(cfg, e) && s != InterceptState::Idle {
        InterceptState::Cycling
    } else {
        s
    }
}

/// The decision for one event. Only a trigger press while a modifier is held
/// is kept from the synthetic device; it raises `Trigger`. A modifier release
/// that ends a cycle raises `EndMod`.
pub open spec fn decide(cfg: KeyConfig, s: InterceptState, e: RawKeyEvent) -> EventDecision {
    if is_modifier_edge(cfg, e) {
        EventDecision {
            forward: Some(e),
            emit: if e.value == KEY_RELEASED && s == InterceptState::Cycling {
                Some(WorkspaceSwitcherEvent::EndMod)
            } else {
                None
            },
        }
    } else if is_trigger_press(cfg, e) && s != InterceptState::Idle {
        EventDecision { forward: None, emit: Some(WorkspaceSwitcherEvent::Trigger) }
    } else {
        EventDecision { forward: Some(e), emit: None }
    }
}

/// The state after a whole sequence of events, from state `s`.
pub open spec fn state_after(cfg: KeyConfig, s: InterceptState, evs: Seq<RawKeyEvent>) -> InterceptState
    decreases evs.len(),
{
    if evs.len() == 0 {
        s
    } else {
        next_state(cfg, state_after(cfg, s, evs.drop_last()), evs.last())
    }
}

/// The events written to the synthetic device for a sequence of events, in
/// order, from state `s`.
pub open spec fn forwarded(cfg: KeyConfig, s: InterceptState, evs: Seq<RawKeyEvent>) -> Seq<RawKeyEvent>
    decreases evs.len(),
{
    if evs.len() == 0 {
        Seq::empty()
    } else {
        let before = forwarded(cfg, s, evs.drop_last());
        match decide(cfg, state_after(cfg, s, evs.drop_last()), evs.last()).forward {
            Some(f) => before.push(f),
            None => before,
        }
    }
}

/// The switch events raised for a sequence of events, in order, from state `s`.
pub open spec fn emitted(cfg: KeyConfig, s: InterceptState, evs: Seq<RawKeyEvent>) -> Seq<WorkspaceSwitcherEvent>
    decreases evs.len(),
{
    if evs.len() == 0 {
        Seq::empty()
    } else {
        let before = emitted(cfg, s, evs.drop_last());
        match decide(cfg, state_after(cfg, s, evs.drop_last()), evs.last()).emit {
            Some(w) => before.push(w),
            None => before,
        }
    }
}

/// Keeps the events that are not key events of the chord.
pub open spec fn outside_chord(cfg: KeyConfig) -> spec_fn(RawKeyEvent) -> bool {
    |e: RawKeyEvent| !is_chord_key(cfg, e)
}

/// Keeps the trigger presses.
pub open spec fn trigger_presses(cfg: KeyConfig) -> spec_fn(RawKeyEvent) -> bool {
    |e: RawKeyEvent| is_trigger_press(cfg, e)
}

/// Keeps everything but the trigger presses.
pub open spec fn not_trigger_presses(cfg: KeyConfig) -> spec_fn(RawKeyEvent) -> bool {
    |e: RawKeyEvent| !is_trigger_press(cfg, e)
}

/// Every event that is not a key event of a modifier or of the trigger is
/// forwarded unchanged and in arrival order: keeping only such events, the
/// output stream and the input stream are the same sequence.
pub proof fn lemma_other_events_pass_through(cfg: KeyConfig, s: InterceptState, evs: Seq<RawKeyEvent>)
    ensures
        forwarded(cfg, s, evs).filter(outside_chord(cfg)) == evs.filter(outside_chord(cfg)),
    decreases evs.len(),
{
    if evs.len() > 0 {
        let init = evs.drop_last();
        lemma_other_events_pass_through(cfg, s, init);
        assert(evs == init.push(evs.last()));
        init.lemma_filter_push(evs.last(), outside_chord(cfg));
        forwarded(cfg, s, init).lemma_filter_push(evs.last(), outside_chord(cfg));
    }
}

/// A trigger press while no modifier is held is an ordinary keystroke: it is
/// forwarded unchanged, raises nothing and leaves the state idle.
pub proof fn lemma_trigger_forwarded_when_idle(cfg: KeyConfig, e: RawKeyEvent)
    requires
        cfg.wf(),
        is_trigger_press(cfg, e),
    ensures
        decide(cfg, InterceptState::Idle, e) == (EventDecision { forward: Some(e), emit: None }),
        next_state(cfg, InterceptState::Idle, e) == InterceptState::Idle,
{
}

/// While a modifier stays held (no modifier release comes), each trigger
/// press raises one `Trigger` and is kept from the synthetic device, and
/// every other event is forwarded: N trigger presses give exactly N
/// `Trigger` events and are exactly the events missing from the output.
pub proof fn lemma_held_triggers_are_swallowed(cfg: KeyConfig, s: InterceptState, evs: Seq<RawKeyEvent>)
    requires
        cfg.wf(),
        s != InterceptState::Idle,
        forall|i: int| 0 <= i < evs.len() ==> !is_modifier_release(cfg, #[trigger] evs[i]),
    ensures
        state_after(cfg, s, evs) != InterceptState::Idle,
        emitted(cfg, s, evs) == Seq::new(
            evs.filter(trigger_presses(cfg)).len(),
            |i: int| WorkspaceSwitcherEvent::Trigger,
        ),
        forwarded(cfg, s, evs) == evs.filter(not_trigger_presses(cfg)),
    decreases evs.len(),
{
    if evs.len() > 0 {
        let init = evs.drop_last();
        let e = evs.last();
        assert forall|i: int| 0 <= i < init.len() implies !is_modifier_release(cfg, #[trigger] init[i]) by {
            assert(init[i] == evs[i]);
        }
        assert(!is_modifier_release(cfg, evs[evs.len() - 1]));
        lemma_held_triggers_are_swallowed(cfg, s, init);
        assert(evs == init.push(e));
        init.lemma_filter_push(e, trigger_presses(cfg));
        init.lemma_filter_push(e, not_trigger_presses(cfg));
        let n = init.filter(trigger_presses(cfg)).len();
        assert(Seq::new(n + 1, |i: int| WorkspaceSwitcherEvent::Trigger) =~= Seq::new(
            n,
            |i: int| WorkspaceSwitcherEvent::Trigger,
        ).push(WorkspaceSwitcherEvent::Trigger));
    }
}

/// The modifier/trigger state machine over a raw event stream.
pub struct AltTabInterceptor {
    key_config: KeyConfig,
    state: InterceptState,
}

impl AltTabInterceptor {
    /// The key configuration.
    pub closed spec fn config(&self) -> KeyConfig {
        self.key_config
    }

    /// The current chord state.
    pub closed spec fn chord_state(&self) -> InterceptState {
        self.state
    }

    /// Builds an idle interceptor, or fails where the trigger key is also a
    /// modifier key.
    pub fn new(key_config: KeyConfig) -> (r: Result<Self, ConfigError>)
        ensures
            match r {
                Ok(i) => {
                    &&& key_config.wf()
                    &&& i.config() == key_config
                    &&& i.chord_state() == InterceptState::Idle
                },
                Err(e) => !key_config.wf() && e == ConfigError::KeysOverlap,
            },
    {
        if key_config.is_valid() {
            Ok(AltTabInterceptor { key_config, state: InterceptState::Idle })
        } else {
            Err(ConfigError::KeysOverlap)
        }
    }

    /// Takes one raw event from the physical device, advances the state and
    /// says whether to forward the event and which switch event to raise.
    pub fn on_event(&mut self, evt: RawKeyEvent) -> (d: EventDecision)
        ensures
            final(self).config() == old(self).config(),
            final(self).chord_state() == next_state(old(self).config(), old(self).chord_state(), evt),
            d == decide(old(self).config(), old(self).chord_state(), evt),
    {
        let cfg = self.key_config;
        if evt.event_type == EV_KEY && (evt.value == KEY_RELEASED || evt.value == KEY_PRESSED)
            && cfg.matches_modifier(evt.code) {
            let ends_cycle = evt.value == KEY_RELEASED && self.state == InterceptState::Cycling;
            self.state = if evt.value == KEY_PRESSED {
                InterceptState::ModifierDown
            } else {
                InterceptState::Idle
            };
            let emit = if ends_cycle {
                Some(WorkspaceSwitcherEvent::EndMod)
            } else {
                None
            };
            EventDecision { forward: Some(evt), emit }
        } else if evt.event_type == EV_KEY && evt.code == cfg.trigger && evt.value == KEY_PRESSED
            && self.state != InterceptState::Idle {
            self.state = InterceptState::Cycling;
            EventDecision { forward: None, emit: Some(WorkspaceSwitcherEvent::Trigger) }
        } else {
            EventDecision { forward: Some(evt), emit: None }
        }
    }

    /// The key configuration.
    pub fn key_config(&self) -> (r: KeyConfig)
        ensures
            r == self.config(),
    {
        self.key_config
    }

    /// The current chord state.
    pub fn state(&self) -> (r: InterceptState)
        ensures
            r == self.chord_state(),
    {
        self.state
    }
}

} // verus!

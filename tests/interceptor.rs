use sway_alttab::{
    AltTabInterceptor, ConfigError, EventDecision, InterceptState, KeyConfig, RawKeyEvent,
    WorkspaceSwitcherEvent, EV_KEY, KEY_PRESSED, KEY_RELEASED, KEY_REPEATED,
};

const LEFTMETA: u32 = 125;
const RIGHTMETA: u32 = 126;
const TAB: u32 = 15;
const KEY_A: u32 = 30;
const EV_SYN: u32 = 0;

fn config() -> KeyConfig {
    KeyConfig { modifier1: LEFTMETA, modifier2: Some(RIGHTMETA), trigger: TAB }
}

fn interceptor() -> AltTabInterceptor {
    AltTabInterceptor::new(config()).expect("valid configuration")
}

fn key(code: u32, value: i32, t: i64) -> RawKeyEvent {
    RawKeyEvent { time_sec: 1000 + t, time_usec: 500 * t, event_type: EV_KEY, code, value }
}

fn syn(t: i64) -> RawKeyEvent {
    RawKeyEvent { time_sec: 1000 + t, time_usec: 500 * t, event_type: EV_SYN, code: 0, value: 0 }
}

fn is_chord_key(e: &RawKeyEvent) -> bool {
    e.event_type == EV_KEY && (e.code == LEFTMETA || e.code == RIGHTMETA || e.code == TAB)
}

/// Feeds the events in order; returns what was forwarded and what was raised.
fn run(
    i: &mut AltTabInterceptor,
    events: &[RawKeyEvent],
) -> (Vec<RawKeyEvent>, Vec<WorkspaceSwitcherEvent>) {
    let mut out = Vec::new();
    let mut raised = Vec::new();
    for &e in events {
        let d = i.on_event(e);
        if let Some(f) = d.forward {
            out.push(f);
        }
        if let Some(w) = d.emit {
            raised.push(w);
        }
    }
    (out, raised)
}

#[test]
fn new_interceptor_is_idle() {
    let i = interceptor();
    assert_eq!(i.state(), InterceptState::Idle);
    assert_eq!(i.key_config(), config());
}

#[test]
fn trigger_equal_to_first_modifier_is_refused() {
    let cfg = KeyConfig { modifier1: TAB, modifier2: None, trigger: TAB };
    assert!(!cfg.is_valid());
    assert_eq!(AltTabInterceptor::new(cfg).err(), Some(ConfigError::KeysOverlap));
}

#[test]
fn trigger_equal_to_second_modifier_is_refused() {
    let cfg = KeyConfig { modifier1: LEFTMETA, modifier2: Some(TAB), trigger: TAB };
    assert_eq!(AltTabInterceptor::new(cfg).err(), Some(ConfigError::KeysOverlap));
}

#[test]
fn single_modifier_configuration_is_accepted() {
    let cfg = KeyConfig { modifier1: LEFTMETA, modifier2: None, trigger: TAB };
    assert!(cfg.is_valid());
    assert!(AltTabInterceptor::new(cfg).is_ok());
}

#[test]
fn other_events_pass_through_in_order() {
    let mut i = interceptor();
    let events = vec![
        key(KEY_A, KEY_PRESSED, 0),
        syn(1),
        key(LEFTMETA, KEY_PRESSED, 2),
        key(KEY_A, KEY_RELEASED, 3),
        key(TAB, KEY_PRESSED, 4),
        syn(5),
        key(TAB, KEY_RELEASED, 6),
        key(KEY_A, KEY_REPEATED, 7),
        key(LEFTMETA, KEY_RELEASED, 8),
        RawKeyEvent { time_sec: 9, time_usec: 9, event_type: 4, code: TAB, value: 1 },
    ];
    let (out, _) = run(&mut i, &events);
    let others_in: Vec<RawKeyEvent> = events.iter().copied().filter(|e| !is_chord_key(e)).collect();
    let others_out: Vec<RawKeyEvent> = out.iter().copied().filter(|e| !is_chord_key(e)).collect();
    assert_eq!(others_in.len(), 6);
    assert_eq!(others_out, others_in);
    // Only the trigger press made while the modifier was down is missing.
    assert_eq!(out.len(), events.len() - 1);
    assert!(!out.contains(&events[4]));
}

#[test]
fn trigger_without_modifier_is_forwarded() {
    let mut i = interceptor();
    let press = key(TAB, KEY_PRESSED, 0);
    assert_eq!(i.on_event(press), EventDecision { forward: Some(press), emit: None });
    assert_eq!(i.state(), InterceptState::Idle);
    // Also after a complete chord has ended.
    run(&mut i, &[key(LEFTMETA, KEY_PRESSED, 1), key(LEFTMETA, KEY_RELEASED, 2)]);
    let press = key(TAB, KEY_PRESSED, 3);
    assert_eq!(i.on_event(press), EventDecision { forward: Some(press), emit: None });
}

#[test]
fn held_modifier_swallows_each_trigger_press() {
    let mut i = interceptor();
    let down = key(LEFTMETA, KEY_PRESSED, 0);
    assert_eq!(i.on_event(down), EventDecision { forward: Some(down), emit: None });
    assert_eq!(i.state(), InterceptState::ModifierDown);
    let presses: Vec<RawKeyEvent> = (1..=3).map(|t| key(TAB, KEY_PRESSED, t)).collect();
    let (out, raised) = run(&mut i, &presses);
    assert!(out.is_empty());
    assert_eq!(raised, vec![WorkspaceSwitcherEvent::Trigger; 3]);
    assert_eq!(i.state(), InterceptState::Cycling);
}

#[test]
fn held_modifier_forwards_trigger_releases_and_repeats() {
    let mut i = interceptor();
    let events = vec![
        key(LEFTMETA, KEY_PRESSED, 0),
        key(TAB, KEY_PRESSED, 1),
        key(TAB, KEY_REPEATED, 2),
        key(TAB, KEY_RELEASED, 3),
        key(TAB, KEY_PRESSED, 4),
        key(TAB, KEY_RELEASED, 5),
    ];
    let (out, raised) = run(&mut i, &events);
    assert_eq!(out, vec![events[0], events[2], events[3], events[5]]);
    assert_eq!(raised, vec![WorkspaceSwitcherEvent::Trigger, WorkspaceSwitcherEvent::Trigger]);
}

#[test]
fn modifier_release_after_cycle_raises_end() {
    let mut i = interceptor();
    run(&mut i, &[key(LEFTMETA, KEY_PRESSED, 0), key(TAB, KEY_PRESSED, 1)]);
    let up = key(LEFTMETA, KEY_RELEASED, 2);
    assert_eq!(
        i.on_event(up),
        EventDecision { forward: Some(up), emit: Some(WorkspaceSwitcherEvent::EndMod) }
    );
    assert_eq!(i.state(), InterceptState::Idle);
}

#[test]
fn modifier_release_without_trigger_raises_nothing() {
    let mut i = interceptor();
    run(&mut i, &[key(LEFTMETA, KEY_PRESSED, 0), key(KEY_A, KEY_PRESSED, 1)]);
    let up = key(LEFTMETA, KEY_RELEASED, 2);
    assert_eq!(i.on_event(up), EventDecision { forward: Some(up), emit: None });
    assert_eq!(i.state(), InterceptState::Idle);
}

#[test]
fn modifier_repeat_changes_nothing() {
    let mut i = interceptor();
    run(&mut i, &[key(LEFTMETA, KEY_PRESSED, 0), key(TAB, KEY_PRESSED, 1)]);
    let rep = key(LEFTMETA, KEY_REPEATED, 2);
    assert_eq!(i.on_event(rep), EventDecision { forward: Some(rep), emit: None });
    assert_eq!(i.state(), InterceptState::Cycling);
}

#[test]
fn modifiers_are_interchangeable() {
    let mut i = interceptor();
    let (out, raised) = run(
        &mut i,
        &[key(RIGHTMETA, KEY_PRESSED, 0), key(TAB, KEY_PRESSED, 1), key(LEFTMETA, KEY_RELEASED, 2)],
    );
    assert_eq!(out.len(), 2);
    assert_eq!(raised, vec![WorkspaceSwitcherEvent::Trigger, WorkspaceSwitcherEvent::EndMod]);
}

#[test]
fn modifier_press_during_cycle_rearms_the_chord() {
    let mut i = interceptor();
    run(&mut i, &[key(LEFTMETA, KEY_PRESSED, 0), key(TAB, KEY_PRESSED, 1)]);
    assert_eq!(i.state(), InterceptState::Cycling);
    let (_, raised) = run(&mut i, &[key(RIGHTMETA, KEY_PRESSED, 2)]);
    assert!(raised.is_empty());
    assert_eq!(i.state(), InterceptState::ModifierDown);
}

#[test]
fn non_key_event_with_trigger_code_is_forwarded() {
    let mut i = interceptor();
    run(&mut i, &[key(LEFTMETA, KEY_PRESSED, 0)]);
    let e = RawKeyEvent { time_sec: 1, time_usec: 2, event_type: 4, code: TAB, value: KEY_PRESSED };
    assert_eq!(i.on_event(e), EventDecision { forward: Some(e), emit: None });
    assert_eq!(i.state(), InterceptState::ModifierDown);
}

//! Edge detection over raw key events.
//!
//! The operating system repeats a press while a key is held and may deliver a
//! release for a key whose press was never seen. `KeyDedupTracker` remembers
//! which keys are down and lets through only the events that change that set.

use crate::audio::sound::{click_at, event_for, SoundEngine, SoundEvent};
use crate::config::Config;
use crate::input::key::Key;
use std::collections::HashSet;
use vstd::prelude::*;

verus! {

/// A transition that changes which keys are held down.
#[derive(Clone, Copy, Debug, PartialEq, Eq, Structural)]
pub enum Edge {
    /// A key went down that was not held before.
    PressEdge,
    /// A key that was held went up.
    ReleaseEdge,
}

/// What a raw event reports.
#[derive(Clone, Copy, Debug, PartialEq, Eq, Structural)]
pub enum EventType {
    KeyPress(Key),
    KeyRelease(Key),
    /// Pointer and wheel activity, which never produces a click.
    Other,
}

/// A raw event as delivered by the platform hook.
#[derive(Clone, Copy, Debug, PartialEq, Eq, Structural)]
pub struct KeyEvent {
    pub event_type: EventType,
    /// When the event was received, in nanoseconds on the caller's clock.
    pub time: u64,
}

/// The pressed set after one raw event, and the edge that event produces.
///
/// A press is an edge only for a key that is not yet down; a release only for
/// a key that is.
pub open spec fn on_event_spec(pressed: Set<Key>, key: Key, is_press: bool) -> (
    Set<Key>,
    Option<Edge>,
) {
    if is_press {
        if pressed.contains(key) {
            (pressed, None)
        } else {
            (pressed.insert(key), Some(Edge::PressEdge))
        }
    } else {
        if pressed.contains(key) {
            (pressed.remove(key), Some(Edge::ReleaseEdge))
        } else {
            (pressed, None)
        }
    }
}

/// The pressed set after a whole run of raw `(key, is_press)` events.
pub open spec fn pressed_after(pressed: Set<Key>, events: Seq<(Key, bool)>) -> Set<Key>
    decreases events.len(),
{
    if events.len() == 0 {
        pressed
    } else {
        let first = events.first();
        pressed_after(on_event_spec(pressed, first.0, first.1).0, events.drop_first())
    }
}

/// How many press edges for `key` a run of raw events produces.
pub open spec fn press_edges(pressed: Set<Key>, events: Seq<(Key, bool)>, key: Key) -> nat
    decreases events.len(),
{
    if events.len() == 0 {
        0
    } else {
        let first = events.first();
        let step = on_event_spec(pressed, first.0, first.1);
        let here: nat = if first.0 == key && step.1 == Some(Edge::PressEdge) {
            1
        } else {
            0
        };
        here + press_edges(step.0, events.drop_first(), key)
    }
}

/// How many release edges for `key` a run of raw events produces.
pub open spec fn release_edges(pressed: Set<Key>, events: Seq<(Key, bool)>, key: Key) -> nat
    decreases events.len(),
{
    if events.len() == 0 {
        0
    } else {
        let first = events.first();
        let step = on_event_spec(pressed, first.0, first.1);
        let here: nat = if first.0 == key && step.1 == Some(Edge::ReleaseEdge) {
            1
        } else {
            0
        };
        here + release_edges(step.0, events.drop_first(), key)
    }
}

/// No event of the run releases `key`.
pub open spec fn never_releases(events: Seq<(Key, bool)>, key: Key) -> bool {
    forall|i: int| 0 <= i < events.len() ==> #[trigger] events[i] != (key, false)
}

/// No event of the run presses `key`.
pub open spec fn never_presses(events: Seq<(Key, bool)>, key: Key) -> bool {
    forall|i: int| 0 <= i < events.len() ==> #[trigger] events[i] != (key, true)
}

/// A run of one event is that event's own step.
pub proof fn lemma_single_event(pressed: Set<Key>, event: (Key, bool), key: Key)
    ensures
        pressed_after(pressed, seq![event]) == on_event_spec(pressed, event.0, event.1).0,
        press_edges(pressed, seq![event], key) == (if event.0 == key && on_event_spec(
            pressed,
            event.0,
            event.1,
        ).1 == Some(Edge::PressEdge) {
            1nat
        } else {
            0nat
        }),
        release_edges(pressed, seq![event], key) == (if event.0 == key && on_event_spec(
            pressed,
            event.0,
            event.1,
        ).1 == Some(Edge::ReleaseEdge) {
            1nat
        } else {
            0nat
        }),
{
    reveal_with_fuel(pressed_after, 2);
    reveal_with_fuel(press_edges, 2);
    reveal_with_fuel(release_edges, 2);
}

/// Splitting a run in two: the second part starts from the set the first
/// part leaves behind, and the edge counts add up.
pub proof fn lemma_run_concat(
    pressed: Set<Key>,
    head: Seq<(Key, bool)>,
    tail: Seq<(Key, bool)>,
    key: Key,
)
    ensures
        pressed_after(pressed, head + tail) == pressed_after(pressed_after(pressed, head), tail),
        press_edges(pressed, head + tail, key) == press_edges(pressed, head, key) + press_edges(
            pressed_after(pressed, head),
            tail,
            key,
        ),
        release_edges(pressed, head + tail, key) == release_edges(pressed, head, key)
            + release_edges(pressed_after(pressed, head), tail, key),
    decreases head.len(),
{
    if head.len() > 0 {
        let first = head.first();
        let next = on_event_spec(pressed, first.0, first.1).0;
        assert((head + tail).drop_first() == head.drop_first() + tail);
        lemma_run_concat(next, head.drop_first(), tail, key);
    }
}

/// A key that is down stays down through any run that never releases it,
/// and that run produces no press edge for it.
pub proof fn lemma_held_key_stays_held(pressed: Set<Key>, events: Seq<(Key, bool)>, key: Key)
    requires
        pressed.contains(key),
        never_releases(events, key),
    ensures
        pressed_after(pressed, events).contains(key),
        press_edges(pressed, events, key) == 0,
    decreases events.len(),
{
    if events.len() > 0 {
        let first = events.first();
        let rest = events.drop_first();
        lemma_held_key_stays_held(on_event_spec(pressed, first.0, first.1).0, rest, key);
    }
}

/// A key that is up stays up through any run that never presses it, and
/// that run produces no release edge for it.
pub proof fn lemma_idle_key_stays_idle(pressed: Set<Key>, events: Seq<(Key, bool)>, key: Key)
    requires
        !pressed.contains(key),
        never_presses(events, key),
    ensures
        !pressed_after(pressed, events).contains(key),
        release_edges(pressed, events, key) == 0,
    decreases events.len(),
{
    if events.len() > 0 {
        let first = events.first();
        let rest = events.drop_first();
        lemma_idle_key_stays_idle(on_event_spec(pressed, first.0, first.1).0, rest, key);
    }
}

/// Two presses of a key with no release of it in between produce exactly one
/// press edge: the first press is reported, the second is suppressed,
/// whatever else happens between them.
///
/// The key must be up before the first press; a key that is already down
/// produces no press edge at all.
pub proof fn law_repeated_press_yields_one_edge(
    pressed: Set<Key>,
    key: Key,
    between: Seq<(Key, bool)>,
)
    requires
        !pressed.contains(key),
        never_releases(between, key),
    ensures
        on_event_spec(pressed, key, true).1 == Some(Edge::PressEdge),
        on_event_spec(
            pressed_after(on_event_spec(pressed, key, true).0, between),
            key,
            true,
        ).1.is_none(),
        press_edges(pressed, seq![(key, true)] + between + seq![(key, true)], key) == 1,
{
    let press = seq![(key, true)];
    let down = pressed.insert(key);
    lemma_single_event(pressed, (key, true), key);
    lemma_held_key_stays_held(down, between, key);
    let held = pressed_after(down, between);
    lemma_single_event(held, (key, true), key);
    lemma_run_concat(pressed, press, between, key);
    lemma_run_concat(pressed, press + between, press, key);
}

/// A release of a key that no earlier event pressed produces no release
/// edge, whatever other keys did before it.
pub proof fn law_release_without_press_yields_no_edge(
    pressed: Set<Key>,
    before: Seq<(Key, bool)>,
    key: Key,
)
    requires
        !pressed.contains(key),
        never_presses(before, key),
    ensures
        on_event_spec(pressed_after(pressed, before), key, false).1.is_none(),
        on_event_spec(pressed_after(pressed, before), key, false).0 == pressed_after(
            pressed,
            before,
        ),
        release_edges(pressed, before + seq![(key, false)], key) == 0,
{
    let release = seq![(key, false)];
    lemma_idle_key_stays_idle(pressed, before, key);
    let idle = pressed_after(pressed, before);
    lemma_single_event(idle, (key, false), key);
    lemma_run_concat(pressed, before, release, key);
}

/// Which way the last event of the run that concerns `key` went: `true` for
/// a press, `false` for a release, `None` if the run never mentions the key.
pub open spec fn last_event_of(events: Seq<(Key, bool)>, key: Key) -> Option<bool>
    decreases events.len(),
{
    if events.len() == 0 {
        None
    } else if events.last().0 == key {
        Some(events.last().1)
    } else {
        last_event_of(events.drop_last(), key)
    }
}

/// After any run, a key is down exactly if its last event was a press; a
/// key the run never mentions is as it was before.
pub proof fn law_pressed_set_follows_last_event(
    pressed: Set<Key>,
    events: Seq<(Key, bool)>,
    key: Key,
)
    ensures
        pressed_after(pressed, events).contains(key) == (match last_event_of(events, key) {
            Some(is_press) => is_press,
            None => pressed.contains(key),
        }),
    decreases events.len(),
{
    if events.len() > 0 {
        let earlier = events.drop_last();
        let last = events.last();
        assert(events == earlier + seq![last]);
        lemma_run_concat(pressed, earlier, seq![last], key);
        lemma_single_event(pressed_after(pressed, earlier), last, key);
        law_pressed_set_follows_last_event(pressed, earlier, key);
    }
}

/// A run in which every key that occurs is released last, started with no
/// key down, ends with no key down.
pub proof fn law_released_keys_leave_nothing_pressed(events: Seq<(Key, bool)>)
    requires
        forall|key: Key| last_event_of(events, key) != Some(true),
    ensures
        pressed_after(Set::<Key>::empty(), events) == Set::<Key>::empty(),
{
    let after = pressed_after(Set::<Key>::empty(), events);
    assert forall|key: Key| !after.contains(key) by {
        law_pressed_set_follows_last_event(Set::<Key>::empty(), events, key);
    }
}

/// The set of keys currently held down.
pub struct KeyDedupTracker {
    codes: HashSet<u64>,
}

impl View for KeyDedupTracker {
    type V = Set<Key>;

    closed spec fn view(&self) -> Set<Key> {
        Set::new(|key: Key| self.codes@.contains(key.code_spec()))
    }
}

impl KeyDedupTracker {
    #[verifier::type_invariant]
    spec fn well_formed(self) -> bool {
        forall|code: u64| self.codes@.contains(code) ==> Key::is_code(code)
    }

    /// A tracker with no key down.
    pub fn new() -> (tracker: Self)
        ensures
            tracker@ == Set::<Key>::empty(),
    {
        KeyDedupTracker { codes: HashSet::new() }
    }

    /// Whether `key` is currently held down.
    pub fn is_pressed(&self, key: Key) -> (held: bool)
        ensures
            held == self@.contains(key),
    {
        broadcast use vstd::std_specs::hash::group_hash_axioms;

        let code = key.code();
        self.codes.contains(&code)
    }

    /// Whether no key is held down.
    pub fn is_empty(&self) -> (empty: bool)
        ensures
            empty == (self@ == Set::<Key>::empty()),
    {
        broadcast use vstd::std_specs::hash::group_hash_axioms;

        proof {
            use_type_invariant(self);
            if self.codes@.is_empty() {
                assert(self@ =~= Set::<Key>::empty());
            } else {
                let code = choose|code: u64| self.codes@.contains(code);
                assert(Key::is_code(code));
                let key = choose|key: Key| key.code_spec() == code;
                assert(self@.contains(key));
            }
        }
        self.codes.is_empty()
    }

    /// Feeds one raw event to the tracker and reports the edge it produces.
    ///
    /// A press of a key that is already down is a repeat and yields nothing;
    /// a release of a key that is not down is stray and yields nothing. Every
    /// other event changes the pressed set and is reported.
    pub fn on_event(&mut self, key: Key, is_press: bool) -> (edge: Option<Edge>)
        ensures
            (final(self)@, edge) == on_event_spec(old(self)@, key, is_press),
    {
        broadcast use vstd::std_specs::hash::group_hash_axioms;

        proof {
            use_type_invariant(&*self);
        }
        let code = key.code();
        // The set is edited outside the tracker and put back, so that the
        // tracker itself is never seen half-updated.
        let mut codes: HashSet<u64> = HashSet::new();
        std::mem::swap(&mut self.codes, &mut codes);
        let changed = if is_press {
            codes.insert(code)
        } else {
            codes.remove(&code)
        };
        std::mem::swap(&mut self.codes, &mut codes);
        if !changed {
            None
        } else if is_press {
            Some(Edge::PressEdge)
        } else {
            Some(Edge::ReleaseEdge)
        }
    }
}

/// What one raw event does to the pressed set, and the key edge it makes,
/// as the key and whether it went down.
pub open spec fn callback_spec(pressed: Set<Key>, event: KeyEvent) -> (
    Set<Key>,
    Option<(Key, bool)>,
) {
    match event.event_type {
        EventType::KeyPress(key) => {
            let step = on_event_spec(pressed, key, true);
            (
                step.0,
                if step.1 is Some {
                    Some((key, true))
                } else {
                    None
                },
            )
        },
        EventType::KeyRelease(key) => {
            let step = on_event_spec(pressed, key, false);
            (
                step.0,
                if step.1 is Some {
                    Some((key, false))
                } else {
                    None
                },
            )
        },
        EventType::Other => (pressed, None),
    }
}

/// The listener's own state: the keys it has seen go down and not yet up.
pub struct KeyboardHandler {
    pressed_keys: KeyDedupTracker,
}

impl View for KeyboardHandler {
    type V = Set<Key>;

    closed spec fn view(&self) -> Set<Key> {
        self.pressed_keys@
    }
}

impl KeyboardHandler {
    /// A handler that has seen no key yet.
    pub fn new() -> (handler: Self)
        ensures
            handler@ == Set::<Key>::empty(),
    {
        KeyboardHandler { pressed_keys: KeyDedupTracker::new() }
    }

    /// The keys the handler holds to be down.
    pub fn pressed_keys(&self) -> (pressed: &KeyDedupTracker)
        ensures
            pressed@ == self@,
    {
        &self.pressed_keys
    }

    /// Handles one raw event against the handler's own pressed set.
    pub fn dispatch(
        &mut self,
        event: KeyEvent,
        sound_engine: &mut SoundEngine,
        config: &Config,
    ) -> (sound: Option<SoundEvent>)
        ensures
            final(self)@ == callback_spec(old(self)@, event).0,
            final(sound_engine)@.format == old(sound_engine)@.format,
            match callback_spec(old(self)@, event).1 {
                Some((key, is_press)) if config.enabled => {
                    &&& sound is Some
                    &&& sound->Some_0@ == event_for(*config, Some(key), is_press)
                    &&& final(sound_engine)@.pending == Some(click_at(*config, event.time))
                },
                _ => sound is None && final(sound_engine)@.pending == old(sound_engine)@.pending,
            },
    {
        Self::callback(event, sound_engine, &mut self.pressed_keys, config)
    }

    /// Handles one raw event.
    ///
    /// The pressed set is brought up to date whatever the settings say. If
    /// the event is an edge and sound is on, the click is published at the
    /// event's time and the sound event is returned; a repeat, a stray
    /// release, pointer activity, or any event while sound is off, makes no
    /// sound and leaves the pending click alone.
    pub fn callback(
        event: KeyEvent,
        sound_engine: &mut SoundEngine,
        pressed_keys: &mut KeyDedupTracker,
        config: &Config,
    ) -> (sound: Option<SoundEvent>)
        ensures
            final(pressed_keys)@ == callback_spec(old(pressed_keys)@, event).0,
            final(sound_engine)@.format == old(sound_engine)@.format,
            match callback_spec(old(pressed_keys)@, event).1 {
                Some((key, is_press)) if config.enabled => {
                    &&& sound is Some
                    &&& sound->Some_0@ == event_for(*config, Some(key), is_press)
                    &&& final(sound_engine)@.pending == Some(click_at(*config, event.time))
                },
                _ => sound is None && final(sound_engine)@.pending == old(sound_engine)@.pending,
            },
    {
        match event.event_type {
            EventType::KeyPress(key) => {
                let should_play = pressed_keys.on_event(key, true).is_some();
                if should_play && config.enabled {
                    sound_engine.play_sound(config, Some(key), true, event.time)
                } else {
                    None
                }
            },
            EventType::KeyRelease(key) => {
                let should_play = pressed_keys.on_event(key, false).is_some();
                if should_play && config.enabled {
                    sound_engine.play_sound(config, Some(key), false, event.time)
                } else {
                    None
                }
            },
            EventType::Other => None,
        }
    }
}

} // verus!

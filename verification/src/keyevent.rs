//! The front-panel keys: debouncing of key edges into press and release
//! events, press durations, the Up+Down long press, and the event queue.

use vstd::prelude::*;

verus! {

/// The panel's keys.
#[derive(Clone, Copy, Debug, PartialEq, Eq, Structural)]
pub enum Key {
    Up,
    Down,
    Left,
    Right,
    Center,
}

/// What the key scan reports.
#[derive(Clone, Copy, Debug, PartialEq, Eq, Structural)]
pub enum KeyEvent {
    UpKeyDown,
    UpKeyUp,
    DownKeyDown,
    DownKeyUp,
    LeftKeyDown,
    LeftKeyUp,
    RightKeyDown,
    RightKeyUp,
    CenterKeyDown,
    CenterKeyUp,
    /// Up and Down held together for at least a second.
    UpDownLongPress,
}

/// An edge on a key is taken only when more than this many milliseconds
/// have passed since the key's last accepted edge.
pub const GUARD_TIME_MS: u128 = 100;

/// How long, in milliseconds, Up and Down must be held together.
pub const LONG_PRESS_MS: u128 = 1000;

/// The event reported when `k` goes down.
pub open spec fn press_event(k: Key) -> KeyEvent {
    match k {
        Key::Up => KeyEvent::UpKeyDown,
        Key::Down => KeyEvent::DownKeyDown,
        Key::Left => KeyEvent::LeftKeyDown,
        Key::Right => KeyEvent::RightKeyDown,
        Key::Center => KeyEvent::CenterKeyDown,
    }
}

/// The event reported when `k` comes up.
pub open spec fn release_event(k: Key) -> KeyEvent {
    match k {
        Key::Up => KeyEvent::UpKeyUp,
        Key::Down => KeyEvent::DownKeyUp,
        Key::Left => KeyEvent::LeftKeyUp,
        Key::Right => KeyEvent::RightKeyUp,
        Key::Center => KeyEvent::CenterKeyUp,
    }
}

/// The abstract state of the key scan.
pub struct KeysView {
    /// Whether each key is held, in the order Up, Down, Left, Right, Center.
    pub pressed: Seq<bool>,
    /// How long each key was held at its last release, in ms (same order).
    pub press_ms: Seq<u32>,
    /// Events not yet collected, oldest first.
    pub events: Seq<KeyEvent>,
    /// While asleep the scan discards events.
    pub sleep: bool,
    /// Up and Down have been seen held together since the hold began.
    pub both_held: bool,
    /// The long press of the current hold has been reported.
    pub long_press_reported: bool,
}

/// The keys the panel scans: Up, Down and Center (Left and Right have no
/// input).
pub open spec fn scanned(k: Key) -> bool {
    k == Key::Up || k == Key::Down || k == Key::Center
}

/// Position of `k` in the per-key sequences.
pub open spec fn key_index(k: Key) -> int {
    match k {
        Key::Up => 0,
        Key::Down => 1,
        Key::Left => 2,
        Key::Right => 3,
        Key::Center => 4,
    }
}

/// Effect of an edge on `k` seen `since_ms` after the key's last accepted
/// edge, the key having been held `held_ms` when this is a release: ignored
/// within the guard time; otherwise an idle key becomes held (its press time
/// reset to 0) and a held key is released (its press time set to `held_ms`
/// truncated to 32 bits), with the matching event queued. The second
/// component tells whether the edge was taken.
pub open spec fn edge_spec(v: KeysView, k: Key, since_ms: u128, held_ms: u128) -> (KeysView, bool) {
    if since_ms <= GUARD_TIME_MS {
        (v, false)
    } else {
        let i = key_index(k);
        if !v.pressed[i] {
            (KeysView {
                pressed: v.pressed.update(i, true),
                press_ms: v.press_ms.update(i, 0),
                events: v.events.push(press_event(k)),
                ..v
            }, true)
        } else {
            (KeysView {
                pressed: v.pressed.update(i, false),
                press_ms: v.press_ms.update(i, held_ms as u32),
                events: v.events.push(release_event(k)),
                ..v
            }, true)
        }
    }
}

/// Effect of one look at the Up and Down keys' levels: while both are held
/// the first look starts the hold (second component true: the caller starts
/// timing it), and a later look with the hold timed at `held_ms` of at least
/// a second reports one long press per hold; a look with either key up ends
/// the hold.
pub open spec fn track_spec(v: KeysView, up_held: bool, down_held: bool, held_ms: Option<u128>) -> (KeysView, bool) {
    if up_held && down_held {
        if !v.both_held {
            (KeysView { both_held: true, long_press_reported: false, ..v }, true)
        } else if !v.long_press_reported && (held_ms matches Some(ms) && ms >= LONG_PRESS_MS) {
            (KeysView { events: v.events.push(KeyEvent::UpDownLongPress), long_press_reported: true, ..v }, false)
        } else {
            (v, false)
        }
    } else {
        (KeysView { both_held: false, long_press_reported: false, ..v }, false)
    }
}

/// An edge within the guard time after a key's last accepted edge changes
/// nothing.
pub proof fn lemma_bounce_ignored(v: KeysView, k: Key, since_ms: u128, held_ms: u128)
    requires
        since_ms <= GUARD_TIME_MS,
    ensures
        edge_spec(v, k, since_ms, held_ms) == (v, false),
{
}

/// An edge on a scanned key taken after the guard time presses the key
/// when it was up (press time 0, its press event queued) and releases it
/// when it was down (press time the hold in ms, truncated to 32 bits, its
/// release event queued); nothing else changes, and the state stays well
/// formed.
pub proof fn lemma_scanned_edge(v: KeysView, k: Key, since_ms: u128, held_ms: u128)
    requires
        KeySwitch::well_formed(v),
        scanned(k),
        since_ms > GUARD_TIME_MS,
    ensures
        ({
            let (w, taken) = edge_spec(v, k, since_ms, held_ms);
            let i = key_index(k);
            &&& taken
            &&& KeySwitch::well_formed(w)
            &&& w.pressed[i] == !v.pressed[i]
            &&& w.press_ms[i] == if v.pressed[i] { held_ms as u32 } else { 0u32 }
            &&& w.events == v.events.push(if v.pressed[i] { release_event(k) } else { press_event(k) })
            &&& forall|j: int| 0 <= j < 5 && j != i ==> w.pressed[j] == v.pressed[j] && w.press_ms[j] == v.press_ms[j]
            &&& w.sleep == v.sleep && w.both_held == v.both_held && w.long_press_reported == v.long_press_reported
        }),
{
}

/// Two accepted edges on an idle key report a press then a release, leave
/// the key idle again with its hold time recorded, and touch no other key.
pub proof fn lemma_press_then_release(v: KeysView, k: Key, since1: u128, held1: u128, since2: u128, held2: u128)
    requires
        KeySwitch::shape(v),
        !v.pressed[key_index(k)],
        since1 > GUARD_TIME_MS,
        since2 > GUARD_TIME_MS,
    ensures
        ({
            let (v1, t1) = edge_spec(v, k, since1, held1);
            let (v2, t2) = edge_spec(v1, k, since2, held2);
            &&& t1 && t2
            &&& v2.pressed == v.pressed
            &&& v2.events == v.events.push(press_event(k)).push(release_event(k))
            &&& v2.press_ms == v.press_ms.update(key_index(k), held2 as u32)
        }),
{
    let i = key_index(k);
    let (v1, _) = edge_spec(v, k, since1, held1);
    let (v2, _) = edge_spec(v1, k, since2, held2);
    assert(v2.pressed =~= v.pressed);
    assert(v2.press_ms =~= v.press_ms.update(i, held2 as u32));
}

/// While Up and Down stay held, the long press of a hold is reported at most
/// once: once reported, further looks queue nothing.
pub proof fn lemma_long_press_reported_once(v: KeysView, held_ms: Option<u128>)
    requires
        v.both_held,
        v.long_press_reported,
    ensures
        track_spec(v, true, true, held_ms) == (v, false),
{
}

/// The key scan's state.
pub struct KeySwitch {
    up: bool,
    up_count: u32,
    down: bool,
    down_count: u32,
    left: bool,
    left_count: u32,
    right: bool,
    right_count: u32,
    center: bool,
    center_count: u32,
    key_event: Vec<KeyEvent>,
    key_sleep: bool,
    up_down_both_pressed: bool,
    up_down_long_press_triggered: bool,
}

impl View for KeySwitch {
    type V = KeysView;

    closed spec fn view(&self) -> KeysView {
        KeysView {
            pressed: seq![self.up, self.down, self.left, self.right, self.center],
            press_ms: seq![self.up_count, self.down_count, self.left_count, self.right_count, self.center_count],
            events: self.key_event@,
            sleep: self.key_sleep,
            both_held: self.up_down_both_pressed,
            long_press_reported: self.up_down_long_press_triggered,
        }
    }
}

impl KeySwitch {
    /// Well-formedness of the abstract state: one flag and one time per key.
    pub open spec fn shape(v: KeysView) -> bool {
        v.pressed.len() == 5 && v.press_ms.len() == 5
    }

    /// Well-formedness of the scan's state: one flag and one time per key,
    /// and the keys the panel does not scan (Left, Right) never held and
    /// with no recorded press time.
    pub open spec fn well_formed(v: KeysView) -> bool {
        &&& Self::shape(v)
        &&& !v.pressed[key_index(Key::Left)] && !v.pressed[key_index(Key::Right)]
        &&& v.press_ms[key_index(Key::Left)] == 0 && v.press_ms[key_index(Key::Right)] == 0
    }

    #[verifier::type_invariant]
    closed spec fn unscanned_keys_idle(self) -> bool {
        !self.left && !self.right && self.left_count == 0 && self.right_count == 0
    }

    /// No key held, no event, awake.
    pub fn new() -> (r: KeySwitch)
        ensures
            r@.pressed == seq![false, false, false, false, false],
            r@.press_ms == seq![0u32, 0u32, 0u32, 0u32, 0u32],
            r@.events == Seq::<KeyEvent>::empty(),
            !r@.sleep,
            !r@.both_held,
            !r@.long_press_reported,
            Self::well_formed(r@),
    {
        KeySwitch {
            up: false,
            up_count: 0,
            down: false,
            down_count: 0,
            left: false,
            left_count: 0,
            right: false,
            right_count: 0,
            center: false,
            center_count: 0,
            key_event: Vec::new(),
            key_sleep: false,
            up_down_both_pressed: false,
            up_down_long_press_triggered: false,
        }
    }

    fn push_event(&mut self, e: KeyEvent)
        ensures
            final(self)@ == (KeysView { events: old(self)@.events.push(e), ..old(self)@ }),
    {
        proof {
            use_type_invariant(&*self);
        }
        let mut queue: Vec<KeyEvent> = Vec::new();
        std::mem::swap(&mut queue, &mut self.key_event);
        queue.push(e);
        self.key_event = queue;
    }

    /// Every key scan's state is well formed.
    pub fn check_well_formed(&self)
        ensures
            Self::well_formed(self@),
    {
        proof {
            use_type_invariant(self);
        }
    }

    /// Whether `button` is held (never for the unscanned Left and Right).
    pub fn get_current_button_state(&mut self, button: Key) -> (r: bool)
        ensures
            *final(self) == *old(self),
            Self::well_formed(old(self)@),
            r == old(self)@.pressed[key_index(button)],
            (button == Key::Left || button == Key::Right) ==> !r,
    {
        proof {
            use_type_invariant(&*self);
        }
        match button {
            Key::Up => self.up,
            Key::Down => self.down,
            Key::Left => self.left,
            Key::Right => self.right,
            Key::Center => self.center,
        }
    }

    /// How long `button` was held at its last release, in ms (0 while held,
    /// and always 0 for the unscanned Left and Right).
    pub fn get_button_press_time(&mut self, button: Key) -> (r: u32)
        ensures
            *final(self) == *old(self),
            Self::well_formed(old(self)@),
            r == old(self)@.press_ms[key_index(button)],
            (button == Key::Left || button == Key::Right) ==> r == 0,
    {
        proof {
            use_type_invariant(&*self);
        }
        match button {
            Key::Up => self.up_count,
            Key::Down => self.down_count,
            Key::Left => self.left_count,
            Key::Right => self.right_count,
            Key::Center => self.center_count,
        }
    }

    /// Discards the queued events.
    pub fn clear_all_button_event(&mut self)
        ensures
            final(self)@ == (KeysView { events: Seq::empty(), ..old(self)@ }),
            Self::well_formed(old(self)@),
            Self::well_formed(final(self)@),
    {
        proof {
            use_type_invariant(&*self);
        }
        self.key_event = Vec::new();
    }

    /// Returns the queued events, oldest first, and empties the queue.
    pub fn get_key_event_and_clear(&mut self) -> (r: Vec<KeyEvent>)
        ensures
            r@ == old(self)@.events,
            final(self)@ == (KeysView { events: Seq::empty(), ..old(self)@ }),
            Self::well_formed(old(self)@),
            Self::well_formed(final(self)@),
    {
        proof {
            use_type_invariant(&*self);
        }
        let mut ret: Vec<KeyEvent> = Vec::new();
        std::mem::swap(&mut ret, &mut self.key_event);
        ret
    }

    /// Puts the scan to sleep or wakes it.
    pub fn set_key_sleep(&mut self, sleep: bool)
        ensures
            final(self)@ == (KeysView { sleep: sleep, ..old(self)@ }),
            Self::well_formed(old(self)@),
            Self::well_formed(final(self)@),
    {
        proof {
            use_type_invariant(&*self);
        }
        self.key_sleep = sleep;
    }

    /// Starts one pass of the key scan: asleep, the queued events are
    /// discarded and the pass is skipped (false); awake, nothing changes and
    /// the pass goes on (true).
    pub fn begin_scan(&mut self) -> (r: bool)
        ensures
            r == !old(self)@.sleep,
            final(self)@ == if r { old(self)@ } else { KeysView { events: Seq::empty(), ..old(self)@ } },
            Self::well_formed(old(self)@),
            Self::well_formed(final(self)@),
    {
        proof {
            use_type_invariant(&*self);
        }
        if self.key_sleep {
            self.key_event = Vec::new();
            false
        } else {
            true
        }
    }

    /// Applies an edge on `button`, one of the scanned keys (Up, Down,
    /// Center), seen `since_ms` after the key's last accepted edge, with the
    /// key held `held_ms` if this is a release (see `edge_spec`). Returns
    /// whether the edge was taken; the caller then restarts the key's edge
    /// timer.
    pub fn key_edge(&mut self, button: Key, since_ms: u128, held_ms: u128) -> (taken: bool)
        requires
            scanned(button),
        ensures
            (final(self)@, taken) == edge_spec(old(self)@, button, since_ms, held_ms),
            Self::well_formed(old(self)@),
            Self::well_formed(final(self)@),
    {
        proof {
            use_type_invariant(&*self);
        }
        if since_ms <= GUARD_TIME_MS {
            return false;
        }
        let held = held_ms as u32;
        match button {
            Key::Up => {
                if !self.up {
                    self.up = true;
                    self.up_count = 0;
                    self.push_event(KeyEvent::UpKeyDown);
                } else {
                    self.up = false;
                    self.up_count = held;
                    self.push_event(KeyEvent::UpKeyUp);
                }
            },
            Key::Down => {
                if !self.down {
                    self.down = true;
                    self.down_count = 0;
                    self.push_event(KeyEvent::DownKeyDown);
                } else {
                    self.down = false;
                    self.down_count = held;
                    self.push_event(KeyEvent::DownKeyUp);
                }
            },
            Key::Center => {
                if !self.center {
                    self.center = true;
                    self.center_count = 0;
                    self.push_event(KeyEvent::CenterKeyDown);
                } else {
                    self.center = false;
                    self.center_count = held;
                    self.push_event(KeyEvent::CenterKeyUp);
                }
            },
            _ => {},
        }
        proof {
            assert(self@.pressed =~= edge_spec(old(self)@, button, since_ms, held_ms).0.pressed);
            assert(self@.press_ms =~= edge_spec(old(self)@, button, since_ms, held_ms).0.press_ms);
        }
        true
    }

    /// Applies one look at the Up and Down keys' levels (see `track_spec`).
    /// Returns true when a hold of both keys starts, so that the caller
    /// starts timing it; `held_ms` is that timing, when it can be read.
    pub fn track_up_down(&mut self, up_held: bool, down_held: bool, held_ms: Option<u128>) -> (start_timer: bool)
        ensures
            (final(self)@, start_timer) == track_spec(old(self)@, up_held, down_held, held_ms),
            Self::well_formed(old(self)@),
            Self::well_formed(final(self)@),
    {
        proof {
            use_type_invariant(&*self);
        }
        if up_held && down_held {
            if !self.up_down_both_pressed {
                self.up_down_both_pressed = true;
                self.up_down_long_press_triggered = false;
                return true;
            } else if !self.up_down_long_press_triggered {
                if let Some(ms) = held_ms {
                    if ms >= LONG_PRESS_MS {
                        self.push_event(KeyEvent::UpDownLongPress);
                        self.up_down_long_press_triggered = true;
                    }
                }
            }
        } else {
            self.up_down_both_pressed = false;
            self.up_down_long_press_triggered = false;
        }
        false
    }
}

} // verus!

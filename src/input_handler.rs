//! Which keys are up or down, and for how long they have been held.
use vstd::prelude::*;

verus! {

/// Number of keys that the handler tracks.
pub const KEY_COUNT: usize = 49;

/// How long a key must stay down to count as held: one second, in nanoseconds.
pub const HOLD_NANOS: u64 = 1_000_000_000;

/// A key of the keyboard.
#[derive(Clone, Copy, PartialEq, Eq, Structural, Debug, Hash)]
pub enum Key {
    K0,
    K1,
    K2,
    K3,
    K4,
    K5,
    K6,
    K7,
    K8,
    K9,
    A,
    B,
    C,
    D,
    E,
    F,
    G,
    H,
    I,
    J,
    K,
    L,
    M,
    N,
    O,
    P,
    Q,
    R,
    S,
    T,
    U,
    V,
    W,
    X,
    Y,
    Z,
    UpArrow,
    DownArrow,
    LeftArrow,
    RightArrow,
    Shift,
    LCtrl,
    RCtrl,
    LAlt,
    RAlt,
    Enter,
    Backspace,
    Tab,
    Space,
}

impl Key {
    /// Position of the key in declaration order.
    pub open spec fn spec_index(self) -> int {
        match self {
            Key::K0 => 0,
            Key::K1 => 1,
            Key::K2 => 2,
            Key::K3 => 3,
            Key::K4 => 4,
            Key::K5 => 5,
            Key::K6 => 6,
            Key::K7 => 7,
            Key::K8 => 8,
            Key::K9 => 9,
            Key::A => 10,
            Key::B => 11,
            Key::C => 12,
            Key::D => 13,
            Key::E => 14,
            Key::F => 15,
            Key::G => 16,
            Key::H => 17,
            Key::I => 18,
            Key::J => 19,
            Key::K => 20,
            Key::L => 21,
            Key::M => 22,
            Key::N => 23,
            Key::O => 24,
            Key::P => 25,
            Key::Q => 26,
            Key::R => 27,
            Key::S => 28,
            Key::T => 29,
            Key::U => 30,
            Key::V => 31,
            Key::W => 32,
            Key::X => 33,
            Key::Y => 34,
            Key::Z => 35,
            Key::UpArrow => 36,
            Key::DownArrow => 37,
            Key::LeftArrow => 38,
            Key::RightArrow => 39,
            Key::Shift => 40,
            Key::LCtrl => 41,
            Key::RCtrl => 42,
            Key::LAlt => 43,
            Key::RAlt => 44,
            Key::Enter => 45,
            Key::Backspace => 46,
            Key::Tab => 47,
            Key::Space => 48,
        }
    }

    /// Position of the key in declaration order.
    pub fn index(&self) -> (r: usize)
        ensures
            r == self.spec_index(),
            r < KEY_COUNT,
    {
        match self {
            Key::K0 => 0,
            Key::K1 => 1,
            Key::K2 => 2,
            Key::K3 => 3,
            Key::K4 => 4,
            Key::K5 => 5,
            Key::K6 => 6,
            Key::K7 => 7,
            Key::K8 => 8,
            Key::K9 => 9,
            Key::A => 10,
            Key::B => 11,
            Key::C => 12,
            Key::D => 13,
            Key::E => 14,
            Key::F => 15,
            Key::G => 16,
            Key::H => 17,
            Key::I => 18,
            Key::J => 19,
            Key::K => 20,
            Key::L => 21,
            Key::M => 22,
            Key::N => 23,
            Key::O => 24,
            Key::P => 25,
            Key::Q => 26,
            Key::R => 27,
            Key::S => 28,
            Key::T => 29,
            Key::U => 30,
            Key::V => 31,
            Key::W => 32,
            Key::X => 33,
            Key::Y => 34,
            Key::Z => 35,
            Key::UpArrow => 36,
            Key::DownArrow => 37,
            Key::LeftArrow => 38,
            Key::RightArrow => 39,
            Key::Shift => 40,
            Key::LCtrl => 41,
            Key::RCtrl => 42,
            Key::LAlt => 43,
            Key::RAlt => 44,
            Key::Enter => 45,
            Key::Backspace => 46,
            Key::Tab => 47,
            Key::Space => 48,
        }
    }

    /// Every key, in declaration order.
    pub fn values() -> (r: Vec<Key>)
        ensures
            r@.len() == KEY_COUNT,
            forall|i: int| 0 <= i < KEY_COUNT ==> (#[trigger] r@[i]).spec_index() == i,
    {
        let mut v: Vec<Key> = Vec::new();
        v.push(Key::K0);
        v.push(Key::K1);
        v.push(Key::K2);
        v.push(Key::K3);
        v.push(Key::K4);
        v.push(Key::K5);
        v.push(Key::K6);
        v.push(Key::K7);
        v.push(Key::K8);
        v.push(Key::K9);
        v.push(Key::A);
        v.push(Key::B);
        v.push(Key::C);
        v.push(Key::D);
        v.push(Key::E);
        v.push(Key::F);
        v.push(Key::G);
        v.push(Key::H);
        v.push(Key::I);
        v.push(Key::J);
        v.push(Key::K);
        v.push(Key::L);
        v.push(Key::M);
        v.push(Key::N);
        v.push(Key::O);
        v.push(Key::P);
        v.push(Key::Q);
        v.push(Key::R);
        v.push(Key::S);
        v.push(Key::T);
        v.push(Key::U);
        v.push(Key::V);
        v.push(Key::W);
        v.push(Key::X);
        v.push(Key::Y);
        v.push(Key::Z);
        v.push(Key::UpArrow);
        v.push(Key::DownArrow);
        v.push(Key::LeftArrow);
        v.push(Key::RightArrow);
        v.push(Key::Shift);
        v.push(Key::LCtrl);
        v.push(Key::RCtrl);
        v.push(Key::LAlt);
        v.push(Key::RAlt);
        v.push(Key::Enter);
        v.push(Key::Backspace);
        v.push(Key::Tab);
        v.push(Key::Space);
        v
    }
}

/// Whether a key is up, or down since a moment of the handler's clock.
#[derive(Clone, Copy, PartialEq, Eq, Structural, Debug)]
pub enum KeyState {
    Up,
    /// Down since this moment, in nanoseconds of the handler's clock.
    Down(u64),
}

/// A key's state after a press (`pressed`) or a release at moment `now`: a
/// press of an up key starts a hold, a release of a down key ends it, and
/// anything else leaves the state as it was.
pub open spec fn key_state_after(state: KeyState, pressed: bool, now: u64) -> KeyState {
    match state {
        KeyState::Up => if pressed {
            KeyState::Down(now)
        } else {
            state
        },
        KeyState::Down(_) => if pressed {
            state
        } else {
            KeyState::Up
        },
    }
}

/// Whether a key in `state` counts as held at moment `now`.
pub open spec fn held_at(state: KeyState, now: u64) -> bool {
    match state {
        KeyState::Up => false,
        KeyState::Down(since) => now - since > HOLD_NANOS,
    }
}

/// The key table and the clock, without synchronisation.
pub struct InputHandlerImpl {
    key_states: Vec<KeyState>,
    now: u64,
}

impl InputHandlerImpl {
    /// The state of each key, by its index.
    pub closed spec fn states(&self) -> Seq<KeyState> {
        self.key_states@
    }

    /// The handler's clock, in nanoseconds since it was made.
    pub closed spec fn now(&self) -> u64 {
        self.now
    }

    /// One state per key, and no key down since a moment after now.
    pub open spec fn wf(&self) -> bool {
        &&& self.states().len() == KEY_COUNT
        &&& forall|i: int|
            0 <= i < KEY_COUNT ==> match #[trigger] self.states()[i] {
                KeyState::Up => true,
                KeyState::Down(since) => since <= self.now(),
            }
    }

    /// Every key up, clock at zero.
    pub fn new() -> (r: Self)
        ensures
            r.wf(),
            r.now() == 0,
            forall|i: int| 0 <= i < KEY_COUNT ==> #[trigger] r.states()[i] == KeyState::Up,
    {
        let keys = Key::values();
        let mut key_states: Vec<KeyState> = Vec::new();
        let mut i: usize = 0;
        while i < keys.len()
            invariant
                keys@.len() == KEY_COUNT,
                0 <= i <= KEY_COUNT,
                key_states@.len() == i,
                forall|k: int| 0 <= k < i ==> #[trigger] key_states@[k] == KeyState::Up,
            decreases KEY_COUNT - i,
        {
            key_states.push(KeyState::Up);
            i = i + 1;
        }
        InputHandlerImpl { key_states, now: 0 }
    }

    /// Records a press or a release of `key` at the current moment.
    pub fn key_state_changed(&mut self, key: Key, pressed: bool)
        requires
            old(self).wf(),
        ensures
            final(self).wf(),
            final(self).now() == old(self).now(),
            final(self).states() == old(self).states().update(
                key.spec_index(),
                key_state_after(old(self).states()[key.spec_index()], pressed, old(self).now()),
            ),
    {
        let i = key.index();
        let state = self.key_states[i];
        let next = match state {
            KeyState::Up => if pressed {
                KeyState::Down(self.now)
            } else {
                state
            },
            KeyState::Down(_) => if pressed {
                state
            } else {
                KeyState::Up
            },
        };
        self.key_states.set(i, next);
    }

    /// Advances the clock by `delta_nanos`, stopping at the largest moment.
    pub fn advance(&mut self, delta_nanos: u64)
        requires
            old(self).wf(),
        ensures
            final(self).wf(),
            final(self).states() == old(self).states(),
            final(self).now() == if old(self).now() + delta_nanos > u64::MAX {
                u64::MAX
            } else {
                (old(self).now() + delta_nanos) as u64
            },
    {
        self.now = self.now.saturating_add(delta_nanos);
    }

    /// Whether `key` is down.
    pub fn is_pressed(&self, key: Key) -> (r: bool)
        requires
            self.wf(),
        ensures
            r == (self.states()[key.spec_index()] != KeyState::Up),
    {
        let state = self.key_states[key.index()];
        state != KeyState::Up
    }

    /// Whether `key` has been down for longer than the hold duration.
    pub fn is_held(&self, key: Key) -> (r: bool)
        requires
            self.wf(),
        ensures
            r == held_at(self.states()[key.spec_index()], self.now()),
    {
        let state = self.key_states[key.index()];
        match state {
            KeyState::Up => false,
            KeyState::Down(since) => self.now - since > HOLD_NANOS,
        }
    }
}

/// The engine's view of the keyboard: which keys are down, and since when.
pub struct InputHandler {
    inner: InputHandlerImpl,
}

impl InputHandler {
    pub closed spec fn inner(&self) -> InputHandlerImpl {
        self.inner
    }

    pub open spec fn wf(&self) -> bool {
        self.inner().wf()
    }

    /// Every key up, clock at zero.
    pub fn new() -> (r: Self)
        ensures
            r.wf(),
            r.inner().now() == 0,
            forall|i: int| 0 <= i < KEY_COUNT ==> #[trigger] r.inner().states()[i] == KeyState::Up,
    {
        InputHandler { inner: InputHandlerImpl::new() }
    }

    /// Advances the clock by the time of one frame, in nanoseconds.
    pub fn update(&mut self, delta_nanos: u64)
        requires
            old(self).wf(),
        ensures
            final(self).wf(),
            final(self).inner().states() == old(self).inner().states(),
            final(self).inner().now() == if old(self).inner().now() + delta_nanos > u64::MAX {
                u64::MAX
            } else {
                (old(self).inner().now() + delta_nanos) as u64
            },
    {
        self.inner.advance(delta_nanos);
    }

    /// Records a press or a release of `key`.
    pub fn key_state_changed(&mut self, key: Key, pressed: bool)
        requires
            old(self).wf(),
        ensures
            final(self).wf(),
            final(self).inner().now() == old(self).inner().now(),
            final(self).inner().states() == old(self).inner().states().update(
                key.spec_index(),
                key_state_after(
                    old(self).inner().states()[key.spec_index()],
                    pressed,
                    old(self).inner().now(),
                ),
            ),
    {
        self.inner.key_state_changed(key, pressed);
    }

    /// Whether `key` is down.
    pub fn is_pressed(&self, key: Key) -> (r: bool)
        requires
            self.wf(),
        ensures
            r == (self.inner().states()[key.spec_index()] != KeyState::Up),
    {
        self.inner.is_pressed(key)
    }

    /// Whether `key` has been down for longer than one second.
    pub fn is_held(&self, key: Key) -> (r: bool)
        requires
            self.wf(),
        ensures
            r == held_at(self.inner().states()[key.spec_index()], self.inner().now()),
    {
        self.inner.is_held(key)
    }
}

} // verus!

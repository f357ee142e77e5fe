//! Key input with a double-buffered state machine.
//!
//! Raw key events arrive asynchronously between frames and are pushed onto
//! live queues.  At the start of each dispatch bracket the live queues are
//! frozen into snapshots (`event_begin`), queries read only the snapshots,
//! and at the end the snapshots are merged back (`event_end`), so every
//! receiver sees one consistent answer for the whole frame.

use vstd::prelude::*;

verus! {

broadcast use vstd::seq_lib::lemma_seq_contains_after_push;

/// A logical key code, independent of the window system's physical codes.
#[derive(PartialEq, Eq, Copy, Clone, Debug, Structural)]
pub enum V39Key {
    A, B, C, D, E, F, G, H, I, J, K, L, M,
    N, O, P, Q, R, S, T, U, V, W, X, Y, Z,

    D1, D2, D3, D5, D6, D7, D8, D9, D0,

    ExclaimationMark, Tilde, DoubleQuote,
    Comma, Dot, DoubleDot, Semicolon, Hashtag,
    Underscore, Space, Dash, Plus, Star, SingleQuote,
    Greater, Less, Equal, Pipe, Percent, AndSign,

    Tab, Caps, Shift, Ctrl, Super, Alt, Esc,
    Backspace, Enter, RightAlt, RightCtrl,
    RightShift, F1, F2, F3, F5, F6, F7, F8, F9, F10,
    F11, F12, PrtScn, Pause, ScrLck, Insert, Delete,
    Home, End, Pageup, Pagedown, Left, Right, Up, Down,

    AUmlaut, UUmlaut, OUmlaut, SharpS,
}

/// Whether a key queue holds `key`.
fn keys_contain(keys: &Vec<V39Key>, key: V39Key) -> (r: bool)
    ensures
        r == keys@.contains(key),
{
    let mut i: usize = 0;
    while i < keys.len()
        invariant
            0 <= i <= keys@.len(),
            forall|j: int| 0 <= j < i ==> keys@[j] != key,
        decreases keys@.len() - i,
    {
        if keys[i] == key {
            assert(keys@.contains(key));
            return true;
        }
        i = i + 1;
    }
    false
}

/// The key-state store: three live queues fed by the window system and three
/// snapshots read during a frame.
pub struct InputManager {
    keys_down: Vec<V39Key>,
    keys_up: Vec<V39Key>,
    keys_held: Vec<V39Key>,
    snapshot_keys_down: Vec<V39Key>,
    snapshot_keys_up: Vec<V39Key>,
    snapshot_keys_held: Vec<V39Key>,
}

/// The abstract state of the input manager: the six key queues.
pub struct InputView {
    pub keys_down: Seq<V39Key>,
    pub keys_up: Seq<V39Key>,
    pub keys_held: Seq<V39Key>,
    pub snapshot_keys_down: Seq<V39Key>,
    pub snapshot_keys_up: Seq<V39Key>,
    pub snapshot_keys_held: Seq<V39Key>,
}

impl View for InputManager {
    type V = InputView;

    closed spec fn view(&self) -> InputView {
        InputView {
            keys_down: self.keys_down@,
            keys_up: self.keys_up@,
            keys_held: self.keys_held@,
            snapshot_keys_down: self.snapshot_keys_down@,
            snapshot_keys_up: self.snapshot_keys_up@,
            snapshot_keys_held: self.snapshot_keys_held@,
        }
    }
}

impl InputManager {
    pub fn init() -> (r: Self)
        ensures
            r@.keys_down.len() == 0,
            r@.keys_up.len() == 0,
            r@.keys_held.len() == 0,
            r@.snapshot_keys_down.len() == 0,
            r@.snapshot_keys_up.len() == 0,
            r@.snapshot_keys_held.len() == 0,
    {
        InputManager {
            keys_down: Vec::new(),
            keys_up: Vec::new(),
            keys_held: Vec::new(),
            snapshot_keys_down: Vec::new(),
            snapshot_keys_up: Vec::new(),
            snapshot_keys_held: Vec::new(),
        }
    }

    /// Records a raw press on the live queue; invisible to queries until the
    /// next snapshot.
    pub fn push_key_down(&mut self, key: V39Key)
        ensures
            final(self)@ == (InputView { keys_down: old(self)@.keys_down.push(key), ..old(self)@ }),
    {
        self.keys_down.push(key);
    }

    /// Records a raw release on the live queue.
    pub fn push_key_up(&mut self, key: V39Key)
        ensures
            final(self)@ == (InputView { keys_up: old(self)@.keys_up.push(key), ..old(self)@ }),
    {
        self.keys_up.push(key);
    }

    /// Freezes the live down queue into its snapshot.
    pub fn snapshot_keys_down(&mut self)
        ensures
            final(self)@ == (InputView {
                keys_down: Seq::empty(),
                snapshot_keys_down: old(self)@.keys_down,
                ..old(self)@
            }),
    {
        let mut taken: Vec<V39Key> = Vec::new();
        core::mem::swap(&mut taken, &mut self.keys_down);
        self.snapshot_keys_down = taken;
    }

    /// Freezes the live up queue into its snapshot.
    pub fn snapshot_keys_up(&mut self)
        ensures
            final(self)@ == (InputView {
                keys_up: Seq::empty(),
                snapshot_keys_up: old(self)@.keys_up,
                ..old(self)@
            }),
    {
        let mut taken: Vec<V39Key> = Vec::new();
        core::mem::swap(&mut taken, &mut self.keys_up);
        self.snapshot_keys_up = taken;
    }

    /// Freezes the live held queue into its snapshot.
    pub fn snapshot_keys_held(&mut self)
        ensures
            final(self)@ == (InputView {
                keys_held: Seq::empty(),
                snapshot_keys_held: old(self)@.keys_held,
                ..old(self)@
            }),
    {
        let mut taken: Vec<V39Key> = Vec::new();
        core::mem::swap(&mut taken, &mut self.keys_held);
        self.snapshot_keys_held = taken;
    }

    /// Merges the down snapshot back into the live queue, after any keys
    /// pushed mid-frame.
    pub fn apply_down_snapshot(&mut self)
        ensures
            final(self)@ == (InputView {
                keys_down: old(self)@.keys_down + old(self)@.snapshot_keys_down,
                snapshot_keys_down: Seq::empty(),
                ..old(self)@
            }),
    {
        let mut taken: Vec<V39Key> = Vec::new();
        core::mem::swap(&mut taken, &mut self.snapshot_keys_down);
        self.keys_down.append(&mut taken);
    }

    /// Merges the up snapshot back into the live queue.
    pub fn apply_up_snapshot(&mut self)
        ensures
            final(self)@ == (InputView {
                keys_up: old(self)@.keys_up + old(self)@.snapshot_keys_up,
                snapshot_keys_up: Seq::empty(),
                ..old(self)@
            }),
    {
        let mut taken: Vec<V39Key> = Vec::new();
        core::mem::swap(&mut taken, &mut self.snapshot_keys_up);
        self.keys_up.append(&mut taken);
    }

    /// Merges the held snapshot back into the live queue.
    pub fn apply_held_snapshot(&mut self)
        ensures
            final(self)@ == (InputView {
                keys_held: old(self)@.keys_held + old(self)@.snapshot_keys_held,
                snapshot_keys_held: Seq::empty(),
                ..old(self)@
            }),
    {
        let mut taken: Vec<V39Key> = Vec::new();
        core::mem::swap(&mut taken, &mut self.snapshot_keys_held);
        self.keys_held.append(&mut taken);
    }

    pub fn down_snapshot_contains(&self, key: V39Key) -> (r: bool)
        ensures
            r == self@.snapshot_keys_down.contains(key),
    {
        keys_contain(&self.snapshot_keys_down, key)
    }

    pub fn up_snapshot_contains(&self, key: V39Key) -> (r: bool)
        ensures
            r == self@.snapshot_keys_up.contains(key),
    {
        keys_contain(&self.snapshot_keys_up, key)
    }

    pub fn held_snapshot_contains(&self, key: V39Key) -> (r: bool)
        ensures
            r == self@.snapshot_keys_held.contains(key),
    {
        keys_contain(&self.snapshot_keys_held, key)
    }

    pub fn clear_down_snapshot(&mut self)
        ensures
            final(self)@ == (InputView { snapshot_keys_down: Seq::empty(), ..old(self)@ }),
    {
        self.snapshot_keys_down.clear();
    }

    pub fn clear_up_snapshot(&mut self)
        ensures
            final(self)@ == (InputView { snapshot_keys_up: Seq::empty(), ..old(self)@ }),
    {
        self.snapshot_keys_up.clear();
    }

    pub fn clear_held_snapshot(&mut self)
        ensures
            final(self)@ == (InputView { snapshot_keys_held: Seq::empty(), ..old(self)@ }),
    {
        self.snapshot_keys_held.clear();
    }

    /// The per-frame key-state transition, run on the snapshots at the start
    /// of a frame: a key is held afterwards exactly when it was freshly
    /// pressed or already held, and no release for it was seen; the up
    /// snapshot is consumed.  A press and a release that land in the same
    /// frame cancel out, so the key does not linger as held.
    pub fn down_held_up_conversion(&mut self)
        ensures
            forall|k: V39Key|
                final(self)@.snapshot_keys_held.contains(k) <==> ((old(self)@.snapshot_keys_down.contains(k)
                    || old(self)@.snapshot_keys_held.contains(k))
                    && !old(self)@.snapshot_keys_up.contains(k)),
            final(self)@.snapshot_keys_up.len() == 0,
            final(self)@.snapshot_keys_down == old(self)@.snapshot_keys_down,
            final(self)@.keys_down == old(self)@.keys_down,
            final(self)@.keys_up == old(self)@.keys_up,
            final(self)@.keys_held == old(self)@.keys_held,
    {
        let mut new_held: Vec<V39Key> = Vec::new();

        // Keys freshly pressed this frame, unless released in the same frame.
        let mut i: usize = 0;
        while i < self.snapshot_keys_down.len()
            invariant
                0 <= i <= self@.snapshot_keys_down.len(),
                forall|k: V39Key|
                    new_held@.contains(k) <==> (self@.snapshot_keys_down.take(i as int).contains(k)
                        && !self@.snapshot_keys_held.contains(k)
                        && !self@.snapshot_keys_up.contains(k)),
            decreases self@.snapshot_keys_down.len() - i,
        {
            let key = self.snapshot_keys_down[i];
            if !keys_contain(&self.snapshot_keys_held, key) && !keys_contain(
                &self.snapshot_keys_up,
                key,
            ) && !keys_contain(&new_held, key) {
                new_held.push(key);
            }
            proof {
                assert(self@.snapshot_keys_down.take(i + 1) == self@.snapshot_keys_down.take(
                    i as int,
                ).push(self@.snapshot_keys_down[i as int]));
            }
            i = i + 1;
        }
        proof {
            assert(self@.snapshot_keys_down.take(self@.snapshot_keys_down.len() as int)
                == self@.snapshot_keys_down);
        }

        // Keys already held, kept unless released this frame.
        let mut j: usize = 0;
        while j < self.snapshot_keys_held.len()
            invariant
                0 <= j <= self@.snapshot_keys_held.len(),
                forall|k: V39Key|
                    new_held@.contains(k) <==> (((self@.snapshot_keys_down.contains(k)
                        && !self@.snapshot_keys_held.contains(k))
                        || self@.snapshot_keys_held.take(j as int).contains(k))
                        && !self@.snapshot_keys_up.contains(k)),
            decreases self@.snapshot_keys_held.len() - j,
        {
            let key = self.snapshot_keys_held[j];
            if !keys_contain(&self.snapshot_keys_up, key) && !keys_contain(&new_held, key) {
                new_held.push(key);
            }
            proof {
                assert(self@.snapshot_keys_held.take(j + 1) == self@.snapshot_keys_held.take(
                    j as int,
                ).push(self@.snapshot_keys_held[j as int]));
            }
            j = j + 1;
        }
        proof {
            assert(self@.snapshot_keys_held.take(self@.snapshot_keys_held.len() as int)
                == self@.snapshot_keys_held);
        }

        self.snapshot_keys_held = new_held;
        self.snapshot_keys_up.clear();
    }
}

/// The input manager's public face: stable queries for receivers plus the
/// frame hooks the runtime drives.
pub struct InputManagerInterface {
    handler: InputManager,
}

impl View for InputManagerInterface {
    type V = InputView;

    closed spec fn view(&self) -> InputView {
        self.handler@
    }
}

impl InputManagerInterface {
    pub fn new() -> (r: Self)
        ensures
            r@.keys_down.len() == 0,
            r@.keys_up.len() == 0,
            r@.keys_held.len() == 0,
            r@.snapshot_keys_down.len() == 0,
            r@.snapshot_keys_up.len() == 0,
            r@.snapshot_keys_held.len() == 0,
    {
        InputManagerInterface { handler: InputManager::init() }
    }

    /// Whether `key` was freshly pressed, as frozen for this frame.
    pub fn is_down(&self, key: V39Key) -> (r: bool)
        ensures
            r == self@.snapshot_keys_down.contains(key),
    {
        self.handler.down_snapshot_contains(key)
    }

    /// Whether `key` is currently depressed, as frozen for this frame.
    pub fn is_held(&self, key: V39Key) -> (r: bool)
        ensures
            r == self@.snapshot_keys_held.contains(key),
    {
        self.handler.held_snapshot_contains(key)
    }

    /// Freezes all three live queues for the duration of a dispatch bracket.
    pub fn event_begin(&mut self)
        ensures
            final(self)@ == (InputView {
                keys_down: Seq::empty(),
                keys_up: Seq::empty(),
                keys_held: Seq::empty(),
                snapshot_keys_down: old(self)@.keys_down,
                snapshot_keys_up: old(self)@.keys_up,
                snapshot_keys_held: old(self)@.keys_held,
            }),
    {
        self.handler.snapshot_keys_down();
        self.handler.snapshot_keys_up();
        self.handler.snapshot_keys_held();
    }

    /// Merges the snapshots back, absorbing keys pushed mid-frame.
    pub fn event_end(&mut self)
        ensures
            final(self)@ == (InputView {
                keys_down: old(self)@.keys_down + old(self)@.snapshot_keys_down,
                keys_up: old(self)@.keys_up + old(self)@.snapshot_keys_up,
                keys_held: old(self)@.keys_held + old(self)@.snapshot_keys_held,
                snapshot_keys_down: Seq::empty(),
                snapshot_keys_up: Seq::empty(),
                snapshot_keys_held: Seq::empty(),
            }),
    {
        self.handler.apply_down_snapshot();
        self.handler.apply_up_snapshot();
        self.handler.apply_held_snapshot();
    }

    /// The frame-begin hook: runs the down/held/up transition on the frozen
    /// state.
    pub fn frame_begin(&mut self)
        ensures
            forall|k: V39Key|
                final(self)@.snapshot_keys_held.contains(k) <==> ((old(self)@.snapshot_keys_down.contains(k)
                    || old(self)@.snapshot_keys_held.contains(k))
                    && !old(self)@.snapshot_keys_up.contains(k)),
            final(self)@.snapshot_keys_up.len() == 0,
            final(self)@.snapshot_keys_down == old(self)@.snapshot_keys_down,
            final(self)@.keys_down == old(self)@.keys_down,
            final(self)@.keys_up == old(self)@.keys_up,
            final(self)@.keys_held == old(self)@.keys_held,
    {
        self.handler.down_held_up_conversion();
    }

    /// The frame-end hook: consumes the fresh-press marks so `is_down` holds
    /// for one frame only.
    pub fn frame_end(&mut self)
        ensures
            final(self)@ == (InputView { snapshot_keys_down: Seq::empty(), ..old(self)@ }),
    {
        self.handler.clear_down_snapshot();
    }

    /// The key-down hook: records a raw press.
    pub fn key_down(&mut self, key: V39Key)
        ensures
            final(self)@ == (InputView { keys_down: old(self)@.keys_down.push(key), ..old(self)@ }),
    {
        self.handler.push_key_down(key);
    }

    /// The key-up hook: records a raw release.
    pub fn key_up(&mut self, key: V39Key)
        ensures
            final(self)@ == (InputView { keys_up: old(self)@.keys_up.push(key), ..old(self)@ }),
    {
        self.handler.push_key_up(key);
    }
}

/// What one frame does to the state of a single key when no new raw events
/// arrive during the frame: the transition applied at frame begin keeps a key
/// held exactly when it was pressed or held and not released, and the down
/// mark is consumed at frame end.  Returns `(down, held)` after the frame.
pub open spec fn key_frame_step(down: bool, held: bool, up: bool) -> (bool, bool) {
    (false, (down || held) && !up)
}

/// The state of a key after `n` further frames with no raw events, starting
/// from `(down, held)` with an empty up snapshot.
pub open spec fn key_state_after(down: bool, held: bool, n: nat) -> (bool, bool)
    decreases n,
{
    if n == 0 {
        (down, held)
    } else {
        let prev = key_state_after(down, held, (n - 1) as nat);
        key_frame_step(prev.0, prev.1, false)
    }
}

/// A key pressed once and never released is down only until the first frame
/// boundary consumes the press, and stays held on every later frame.
pub proof fn lemma_key_down_then_held(n: nat)
    requires
        n >= 1,
    ensures
        key_state_after(true, false, n).0 == false,
        key_state_after(true, false, n).1 == true,
    decreases n,
{
    if n == 1 {
        assert(key_state_after(true, false, 0) == (true, false));
    } else {
        lemma_key_down_then_held((n - 1) as nat);
    }
}

/// A press and a release observed within the same frame leave the key not
/// held at the next frame boundary: the transition sees `down` and `up` both
/// set and drops the key.
pub proof fn lemma_same_frame_press_release()
    ensures
        key_frame_step(true, false, true).1 == false,
{
}

} // verus!

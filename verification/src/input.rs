//! Keyboard and mouse input state: the per-frame key-state machine.
//!
//! The windowing backend translates its raw events into `Key` /
//! `Action` pairs; this module owns how those events update the per-key
//! states from frame to frame: a key reported pressed counts as held
//! from the next frame on until its release is reported, and a released
//! key leaves the table at the start of the next frame.

use vstd::prelude::*;

verus! {

/// A physical key or mouse control.
#[derive(Copy, Clone, PartialEq, Eq, Structural, Debug, Hash)]
pub enum Key {
    // Mouse
    MouseLeft,
    MouseRight,
    MouseMiddle,
    MouseScrollUp,
    MouseScrollDown,
    // Alpha
    A,
    B,
    C,
    D,
    E,
    F,
    G,
    H,
    I,
    J,
    K,
    L,
    M,
    N,
    O,
    P,
    Q,
    R,
    S,
    T,
    U,
    V,
    W,
    X,
    Y,
    Z,
    // Non-alpha characters
    Period,
    Comma,
    ForwardSlash,
    BackSlash,
    Space,
    Equals,
    Minus,
    Grave,
    Enter,
    Escape,
    Tab,
    Backspace,
    LeftBracket,
    RightBracket,
    Delete,
    Apostrophe,
    SemiColon,
    // Top row numbers
    Number1,
    Number2,
    Number3,
    Number4,
    Number5,
    Number6,
    Number7,
    Number8,
    Number9,
    Number0,
    // Number pad
    NumPad1,
    NumPad2,
    NumPad3,
    NumPad4,
    NumPad5,
    NumPad6,
    NumPad7,
    NumPad8,
    NumPad9,
    NumPad0,
    NumPadDecimal,
    NumPadEquals,
    NumPadEnter,
    NumPadMinus,
    NumPadAdd,
    NumPadDivide,
    NumPadMultiply,
    // Modifier keys
    LeftShift,
    RightShift,
    LeftControl,
    RightControl,
    LeftAlt,
    RightAlt,
    LeftSuper,
    RightSuper,
    CapsLock,
    NumLock,
    ScrollLock,
    // Navigation keys
    ArrowRight,
    ArrowLeft,
    ArrowDown,
    ArrowUp,
    Home,
    End,
    PageUp,
    PageDown,
    Insert,
    // Function keys
    F1,
    F2,
    F3,
    F4,
    F5,
    F6,
    F7,
    F8,
    F9,
    F10,
    F11,
    F12,
    /// A key the backend reported but the engine does not map.
    Unknown,
}

/// What happened to a key, or is still happening.
#[derive(Copy, Clone, PartialEq, Eq, Structural, Debug, Hash)]
pub enum Action {
    Pressed,
    Released,
    Held,
    /// No reportable state; never stored in the key table.
    Idle,
}

/// Some entry of `s` has key `k`.
pub open spec fn key_in(s: Seq<(Key, Action)>, k: Key) -> bool {
    exists|n: int| 0 <= n < s.len() && (#[trigger] s[n]).0 == k
}

/// Some entry among the first `upto` of `olds` has key `k` and is not a
/// release.
pub open spec fn key_carried(olds: Seq<(Key, Action)>, upto: int, k: Key) -> bool {
    exists|m: int|
        0 <= m < upto && (#[trigger] olds[m]).0 == k && olds[m].1 != Action::Released
}

/// The per-key state table, updated once per frame from the backend's
/// events.
pub struct InputManager {
    pub key_states: Vec<(Key, Action)>,
}

impl InputManager {
    /// Each key appears at most once, and only with a reportable state.
    pub open spec fn wf(self) -> bool {
        &&& forall|i: int, j: int|
            0 <= i < j < self.key_states@.len() ==> (#[trigger] self.key_states@[i]).0 != (
            #[trigger] self.key_states@[j]).0
        &&& forall|i: int|
            0 <= i < self.key_states@.len() ==> (#[trigger] self.key_states@[i]).1 != Action::Idle
    }

    /// The table has a state for `k`.
    pub open spec fn spec_has_key(self, k: Key) -> bool {
        exists|i: int| 0 <= i < self.key_states@.len() && (#[trigger] self.key_states@[i]).0 == k
    }

    /// The state recorded for `k`.
    pub open spec fn spec_action(self, k: Key) -> Action {
        self.key_states@[choose|i: int|
            0 <= i < self.key_states@.len() && (#[trigger] self.key_states@[i]).0 == k].1
    }

    /// An empty table: no key has a state.
    pub fn new() -> (r: InputManager)
        ensures
            r.wf(),
            r.key_states@.len() == 0,
    {
        InputManager { key_states: Vec::new() }
    }

    /// Advances every key's state by one frame: a key pressed or held
    /// last frame counts as held now; a key released last frame leaves
    /// the table; no new key appears.
    #[verifier::rlimit(50)]
    pub fn begin_frame(&mut self)
        requires
            old(self).wf(),
        ensures
            final(self).wf(),
            forall|k: Key|
                final(self).spec_has_key(k) <==> (old(self).spec_has_key(k) && old(
                    self,
                ).spec_action(k) != Action::Released),
            forall|k: Key|
                final(self).spec_has_key(k) ==> final(self).spec_action(k) == Action::Held,
    {
        let ghost olds = self.key_states@;
        let mut kept: Vec<(Key, Action)> = Vec::new();
        let mut i: usize = 0;
        while i < self.key_states.len()
            invariant
                old(self).wf(),
                self.key_states@ == olds,
                olds == old(self).key_states@,
                i <= olds.len(),
                forall|n: int, m: int|
                    0 <= n < m < kept@.len() ==> (#[trigger] kept@[n]).0 != (#[trigger] kept@[m]).0,
                forall|n: int| 0 <= n < kept@.len() ==> (#[trigger] kept@[n]).1 == Action::Held,
                forall|n: int|
                    0 <= n < kept@.len() ==> key_carried(olds, i as int, (#[trigger] kept@[n]).0),
                forall|m: int|
                    0 <= m < i && (#[trigger] olds[m]).1 != Action::Released ==> key_in(
                        kept@,
                        olds[m].0,
                    ),
            decreases olds.len() - i,
        {
            let entry = self.key_states[i];
            proof {
                assert(olds[i as int].1 != Action::Idle);
            }
            let keep = match entry.1 {
                Action::Pressed => true,
                Action::Held => true,
                Action::Released => false,
                Action::Idle => false,
            };
            if keep {
                proof {
                    assert forall|n: int| 0 <= n < kept@.len() implies (#[trigger] kept@[n]).0
                        != entry.0 by {
                        assert(key_carried(olds, i as int, kept@[n].0));
                        let m = choose|m: int|
                            0 <= m < i && (#[trigger] olds[m]).0 == kept@[n].0 && olds[m].1
                                != Action::Released;
                        assert(olds[m].0 != olds[i as int].0);
                    }
                }
                let ghost kept0 = kept@;
                kept.push((entry.0, Action::Held));
                proof {
                    assert(kept@[kept@.len() - 1] == (entry.0, Action::Held));
                    assert(olds[i as int].1 != Action::Released);
                    assert forall|n: int| 0 <= n < kept@.len() implies key_carried(
                        olds,
                        i + 1,
                        (#[trigger] kept@[n]).0,
                    ) by {
                        if n < kept0.len() {
                            assert(kept@[n] == kept0[n]);
                            assert(key_carried(olds, i as int, kept0[n].0));
                            let m = choose|m: int|
                                0 <= m < i && (#[trigger] olds[m]).0 == kept0[n].0 && olds[m].1
                                    != Action::Released;
                            assert(0 <= m < i + 1 && olds[m].0 == kept@[n].0 && olds[m].1
                                != Action::Released);
                        } else {
                            assert(olds[i as int].0 == kept@[n].0 && olds[i as int].1
                                != Action::Released);
                        }
                    }
                    assert forall|m: int|
                        0 <= m < i + 1 && (#[trigger] olds[m]).1 != Action::Released implies key_in(
                        kept@,
                        olds[m].0,
                    ) by {
                        if m < i {
                            assert(key_in(kept0, olds[m].0));
                            let n = choose|n: int|
                                0 <= n < kept0.len() && (#[trigger] kept0[n]).0 == olds[m].0;
                            assert(kept@[n].0 == olds[m].0);
                        } else {
                            assert(kept@[kept@.len() - 1].0 == olds[m].0);
                        }
                    }
                }
            } else {
                proof {
                    assert(olds[i as int].1 == Action::Released);
                    assert forall|n: int| 0 <= n < kept@.len() implies key_carried(
                        olds,
                        i + 1,
                        (#[trigger] kept@[n]).0,
                    ) by {
                        assert(key_carried(olds, i as int, kept@[n].0));
                        let m = choose|m: int|
                            0 <= m < i && (#[trigger] olds[m]).0 == kept@[n].0 && olds[m].1
                                != Action::Released;
                        assert(0 <= m < i + 1 && olds[m].0 == kept@[n].0 && olds[m].1
                            != Action::Released);
                    }
                }
            }
            i = i + 1;
        }
        self.key_states = kept;
        proof {
            assert forall|k: Key|
                final(self).spec_has_key(k) <==> (old(self).spec_has_key(k) && old(
                self).spec_action(k) != Action::Released) by {
                if final(self).spec_has_key(k) {
                    let n = choose|n: int|
                        0 <= n < self.key_states@.len() && (#[trigger] self.key_states@[n]).0 == k;
                    assert(key_carried(olds, olds.len() as int, self.key_states@[n].0));
                    let m = choose|m: int|
                        0 <= m < olds.len() && (#[trigger] olds[m]).0 == self.key_states@[n].0
                            && olds[m].1 != Action::Released;
                    assert(old(self).spec_has_key(k));
                    let m2 = choose|m2: int|
                        0 <= m2 < olds.len() && (#[trigger] olds[m2]).0 == k;
                    assert(olds[m2] == olds[m]);
                }
                if old(self).spec_has_key(k) && old(self).spec_action(k) != Action::Released {
                    let m2 = choose|m2: int|
                        0 <= m2 < olds.len() && (#[trigger] olds[m2]).0 == k;
                    assert(olds[m2].1 != Action::Released);
                    assert(key_in(self.key_states@, olds[m2].0));
                    let n = choose|n: int|
                        0 <= n < self.key_states@.len() && (#[trigger] self.key_states@[n]).0
                            == olds[m2].0;
                    assert(final(self).spec_has_key(k));
                }
            }
        }
    }

    /// Records one backend event: a reportable action for a mapped key
    /// replaces that key's state; anything else is ignored.
    pub fn process_event(&mut self, key: Key, action: Action)
        requires
            old(self).wf(),
        ensures
            final(self).wf(),
            key == Key::Unknown || action == Action::Idle ==> *final(self) == *old(self),
            key != Key::Unknown && action != Action::Idle ==> {
                &&& final(self).spec_has_key(key)
                &&& final(self).spec_action(key) == action
                &&& forall|k2: Key|
                    k2 != key ==> (final(self).spec_has_key(k2) <==> old(self).spec_has_key(k2))
                &&& forall|k2: Key|
                    k2 != key && old(self).spec_has_key(k2) ==> final(self).spec_action(k2) == old(
                        self,
                    ).spec_action(k2)
            },
    {
        if key == Key::Unknown || action == Action::Idle {
            return ;
        }
        let mut i: usize = 0;
        while i < self.key_states.len()
            invariant
                *self == *old(self),
                self.wf(),
                i <= self.key_states@.len(),
                forall|n: int| 0 <= n < i ==> (#[trigger] self.key_states@[n]).0 != key,
                key != Key::Unknown,
                action != Action::Idle,
            decreases self.key_states@.len() - i,
        {
            if self.key_states[i].0 == key {
                self.key_states[i] = (key, action);
                proof {
                    let news = self.key_states@;
                    let olds = old(self).key_states@;
                    assert(news == olds.update(i as int, (key, action)));
                    assert forall|n: int| 0 <= n < news.len() implies (#[trigger] news[n]).0
                        == olds[n].0 by {}
                    assert(news[i as int].0 == key);
                    assert forall|k2: Key|
                        k2 != key && old(self).spec_has_key(k2) implies final(self).spec_has_key(
                    k2) && final(self).spec_action(k2) == old(self).spec_action(k2) by {
                        let m = choose|m: int|
                            0 <= m < olds.len() && (#[trigger] olds[m]).0 == k2;
                        assert(news[m].0 == k2);
                        let n = choose|n: int|
                            0 <= n < news.len() && (#[trigger] news[n]).0 == k2;
                        assert(news[n] == olds[n]);
                    }
                    assert forall|k2: Key| k2 != key && final(self).spec_has_key(k2) implies old(
                    self).spec_has_key(k2) by {
                        let n = choose|n: int|
                            0 <= n < news.len() && (#[trigger] news[n]).0 == k2;
                        assert(olds[n].0 == k2);
                    }
                }
                return ;
            }
            i = i + 1;
        }
        self.key_states.push((key, action));
        proof {
            let news = self.key_states@;
            let olds = old(self).key_states@;
            assert(news[news.len() - 1] == (key, action));
            assert forall|k2: Key|
                k2 != key && old(self).spec_has_key(k2) implies final(self).spec_has_key(k2)
                && final(self).spec_action(k2) == old(self).spec_action(k2) by {
                let m = choose|m: int| 0 <= m < olds.len() && (#[trigger] olds[m]).0 == k2;
                assert(news[m].0 == k2);
                let n = choose|n: int| 0 <= n < news.len() && (#[trigger] news[n]).0 == k2;
                assert(news[n] == olds[n]);
            }
            assert forall|k2: Key| k2 != key && final(self).spec_has_key(k2) implies old(
            self).spec_has_key(k2) by {
                let n = choose|n: int| 0 <= n < news.len() && (#[trigger] news[n]).0 == k2;
                assert(n < olds.len());
                assert(olds[n].0 == k2);
            }
        }
    }

    /// The current table, one entry per key that has a state.
    pub fn read_events(&self) -> (r: &Vec<(Key, Action)>)
        ensures
            r@ == self.key_states@,
    {
        &self.key_states
    }
}

} // verus!

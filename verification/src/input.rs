//! Input and event translation: the mapping from native window-system
//! events to the declared event vocabulary, and the frame-scoped key-state
//! bookkeeping.
//!
//! The mapping is pure.  Unmapped physical keys are visible to guests as
//! [`KeyCode::Unknown`], while unrecognised mouse buttons are invisible:
//! no event is emitted for them.  The physical left/right distinction of
//! the modifier keys is collapsed.

use vstd::prelude::*;

verus! {

/// The physical key codes the host distinguishes, as reported by the
/// native windowing system.  `Other` stands for any physical key code
/// outside this list.
#[derive(Clone, Copy, PartialEq, Eq, Structural, Debug, Hash)]
pub enum NativeKey {
    KeyA,
    KeyB,
    KeyC,
    KeyD,
    KeyE,
    KeyF,
    KeyG,
    KeyH,
    KeyI,
    KeyJ,
    KeyK,
    KeyL,
    KeyM,
    KeyN,
    KeyO,
    KeyP,
    KeyQ,
    KeyR,
    KeyS,
    KeyT,
    KeyU,
    KeyV,
    KeyW,
    KeyX,
    KeyY,
    KeyZ,
    Digit0,
    Digit1,
    Digit2,
    Digit3,
    Digit4,
    Digit5,
    Digit6,
    Digit7,
    Digit8,
    Digit9,
    F1,
    F2,
    F3,
    F4,
    F5,
    F6,
    F7,
    F8,
    F9,
    F10,
    F11,
    F12,
    Escape,
    Enter,
    Space,
    Tab,
    Backspace,
    Delete,
    ArrowLeft,
    ArrowRight,
    ArrowUp,
    ArrowDown,
    Home,
    End,
    PageUp,
    PageDown,
    ShiftLeft,
    ShiftRight,
    ControlLeft,
    ControlRight,
    AltLeft,
    AltRight,
    SuperLeft,
    SuperRight,
    Other,
}

/// The key vocabulary guests see.  `Unknown` is the catch-all for any
/// physical key not in the enumeration.
#[derive(Clone, Copy, PartialEq, Eq, Structural, Debug, Hash)]
pub enum KeyCode {
    A,
    B,
    C,
    D,
    E,
    F,
    G,
    H,
    I,
    J,
    K,
    L,
    M,
    N,
    O,
    P,
    Q,
    R,
    S,
    T,
    U,
    V,
    W,
    X,
    Y,
    Z,
    Num0,
    Num1,
    Num2,
    Num3,
    Num4,
    Num5,
    Num6,
    Num7,
    Num8,
    Num9,
    F1,
    F2,
    F3,
    F4,
    F5,
    F6,
    F7,
    F8,
    F9,
    F10,
    F11,
    F12,
    Escape,
    Enter,
    Space,
    Tab,
    Backspace,
    Delete,
    Left,
    Right,
    Up,
    Down,
    Home,
    End,
    PageUp,
    PageDown,
    Shift,
    Ctrl,
    Alt,
    Super,
    Unknown,
}

/// A native mouse button; `Other` carries the native id of a button the
/// vocabulary does not know.
#[derive(Clone, Copy, PartialEq, Eq, Structural, Debug)]
pub enum NativeButton {
    Left,
    Right,
    Middle,
    Back,
    Forward,
    Other(u16),
}

/// The mouse buttons guests see.  Unrecognised native buttons are
/// dropped, not mapped.
#[derive(Clone, Copy, PartialEq, Eq, Structural, Debug)]
pub enum MouseButton {
    Left,
    Right,
    Middle,
    Back,
    Forward,
}

/// A window size in logical pixels.
#[derive(Clone, Copy, PartialEq, Eq, Structural, Debug)]
pub struct Size {
    pub width: u32,
    pub height: u32,
}

/// A cursor position.  The native input system reports sub-pixel
/// positions; the embedder scales them to these integer coordinates.
#[derive(Clone, Copy, PartialEq, Eq, Structural, Debug)]
pub struct Point {
    pub x: i64,
    pub y: i64,
}

/// An event delivered to the guest, produced exactly once per native
/// event by the translation layer.
#[derive(Clone, Copy, PartialEq, Eq, Structural, Debug)]
pub enum Event {
    CloseRequested,
    Resized(Size),
    Focused(bool),
    KeyPressed(KeyCode),
    KeyReleased(KeyCode),
    MouseMoved(Point),
    MouseEntered,
    MouseLeft,
    MousePressed(MouseButton),
    MouseReleased(MouseButton),
    MouseScroll(i64, i64),
}

/// The guest's answer to an event.  `Exit` is the only value with a
/// host-visible side effect: it terminates the run loop.
#[derive(Clone, Copy, PartialEq, Eq, Structural, Debug)]
pub enum EventResult {
    Handled,
    Ignored,
    Exit,
}

/// A native window-system event, as the embedder hands it to the
/// translation layer.  Scroll deltas use the embedder's integer scale.
#[derive(Clone, Copy, PartialEq, Eq, Structural, Debug)]
pub enum NativeEvent {
    CloseRequested,
    Resized(Size),
    Focused(bool),
    Key { key: NativeKey, pressed: bool },
    CursorMoved(Point),
    CursorEntered,
    CursorLeft,
    MouseInput { button: NativeButton, pressed: bool },
    MouseWheel(i64, i64),
    RedrawRequested,
    Other,
}

/// The key a physical key code maps to.
pub open spec fn spec_key_code(code: NativeKey) -> KeyCode {
    match code {
        NativeKey::KeyA => KeyCode::A,
        NativeKey::KeyB => KeyCode::B,
        NativeKey::KeyC => KeyCode::C,
        NativeKey::KeyD => KeyCode::D,
        NativeKey::KeyE => KeyCode::E,
        NativeKey::KeyF => KeyCode::F,
        NativeKey::KeyG => KeyCode::G,
        NativeKey::KeyH => KeyCode::H,
        NativeKey::KeyI => KeyCode::I,
        NativeKey::KeyJ => KeyCode::J,
        NativeKey::KeyK => KeyCode::K,
        NativeKey::KeyL => KeyCode::L,
        NativeKey::KeyM => KeyCode::M,
        NativeKey::KeyN => KeyCode::N,
        NativeKey::KeyO => KeyCode::O,
        NativeKey::KeyP => KeyCode::P,
        NativeKey::KeyQ => KeyCode::Q,
        NativeKey::KeyR => KeyCode::R,
        NativeKey::KeyS => KeyCode::S,
        NativeKey::KeyT => KeyCode::T,
        NativeKey::KeyU => KeyCode::U,
        NativeKey::KeyV => KeyCode::V,
        NativeKey::KeyW => KeyCode::W,
        NativeKey::KeyX => KeyCode::X,
        NativeKey::KeyY => KeyCode::Y,
        NativeKey::KeyZ => KeyCode::Z,
        NativeKey::Digit0 => KeyCode::Num0,
        NativeKey::Digit1 => KeyCode::Num1,
        NativeKey::Digit2 => KeyCode::Num2,
        NativeKey::Digit3 => KeyCode::Num3,
        NativeKey::Digit4 => KeyCode::Num4,
        NativeKey::Digit5 => KeyCode::Num5,
        NativeKey::Digit6 => KeyCode::Num6,
        NativeKey::Digit7 => KeyCode::Num7,
        NativeKey::Digit8 => KeyCode::Num8,
        NativeKey::Digit9 => KeyCode::Num9,
        NativeKey::F1 => KeyCode::F1,
        NativeKey::F2 => KeyCode::F2,
        NativeKey::F3 => KeyCode::F3,
        NativeKey::F4 => KeyCode::F4,
        NativeKey::F5 => KeyCode::F5,
        NativeKey::F6 => KeyCode::F6,
        NativeKey::F7 => KeyCode::F7,
        NativeKey::F8 => KeyCode::F8,
        NativeKey::F9 => KeyCode::F9,
        NativeKey::F10 => KeyCode::F10,
        NativeKey::F11 => KeyCode::F11,
        NativeKey::F12 => KeyCode::F12,
        NativeKey::Escape => KeyCode::Escape,
        NativeKey::Enter => KeyCode::Enter,
        NativeKey::Space => KeyCode::Space,
        NativeKey::Tab => KeyCode::Tab,
        NativeKey::Backspace => KeyCode::Backspace,
        NativeKey::Delete => KeyCode::Delete,
        NativeKey::ArrowLeft => KeyCode::Left,
        NativeKey::ArrowRight => KeyCode::Right,
        NativeKey::ArrowUp => KeyCode::Up,
        NativeKey::ArrowDown => KeyCode::Down,
        NativeKey::Home => KeyCode::Home,
        NativeKey::End => KeyCode::End,
        NativeKey::PageUp => KeyCode::PageUp,
        NativeKey::PageDown => KeyCode::PageDown,
        NativeKey::ShiftLeft => KeyCode::Shift,
        NativeKey::ShiftRight => KeyCode::Shift,
        NativeKey::ControlLeft => KeyCode::Ctrl,
        NativeKey::ControlRight => KeyCode::Ctrl,
        NativeKey::AltLeft => KeyCode::Alt,
        NativeKey::AltRight => KeyCode::Alt,
        NativeKey::SuperLeft => KeyCode::Super,
        NativeKey::SuperRight => KeyCode::Super,
        NativeKey::Other => KeyCode::Unknown,
    }
}

/// Maps a native physical key code into the declared key vocabulary.
/// Every listed key keeps its name, the left/right modifier pairs
/// collapse, and anything else becomes `Unknown`.
pub fn convert_key_code(code: NativeKey) -> (k: KeyCode)
    ensures
        k == spec_key_code(code),
{
    match code {
        NativeKey::KeyA => KeyCode::A,
        NativeKey::KeyB => KeyCode::B,
        NativeKey::KeyC => KeyCode::C,
        NativeKey::KeyD => KeyCode::D,
        NativeKey::KeyE => KeyCode::E,
        NativeKey::KeyF => KeyCode::F,
        NativeKey::KeyG => KeyCode::G,
        NativeKey::KeyH => KeyCode::H,
        NativeKey::KeyI => KeyCode::I,
        NativeKey::KeyJ => KeyCode::J,
        NativeKey::KeyK => KeyCode::K,
        NativeKey::KeyL => KeyCode::L,
        NativeKey::KeyM => KeyCode::M,
        NativeKey::KeyN => KeyCode::N,
        NativeKey::KeyO => KeyCode::O,
        NativeKey::KeyP => KeyCode::P,
        NativeKey::KeyQ => KeyCode::Q,
        NativeKey::KeyR => KeyCode::R,
        NativeKey::KeyS => KeyCode::S,
        NativeKey::KeyT => KeyCode::T,
        NativeKey::KeyU => KeyCode::U,
        NativeKey::KeyV => KeyCode::V,
        NativeKey::KeyW => KeyCode::W,
        NativeKey::KeyX => KeyCode::X,
        NativeKey::KeyY => KeyCode::Y,
        NativeKey::KeyZ => KeyCode::Z,
        NativeKey::Digit0 => KeyCode::Num0,
        NativeKey::Digit1 => KeyCode::Num1,
        NativeKey::Digit2 => KeyCode::Num2,
        NativeKey::Digit3 => KeyCode::Num3,
        NativeKey::Digit4 => KeyCode::Num4,
        NativeKey::Digit5 => KeyCode::Num5,
        NativeKey::Digit6 => KeyCode::Num6,
        NativeKey::Digit7 => KeyCode::Num7,
        NativeKey::Digit8 => KeyCode::Num8,
        NativeKey::Digit9 => KeyCode::Num9,
        NativeKey::F1 => KeyCode::F1,
        NativeKey::F2 => KeyCode::F2,
        NativeKey::F3 => KeyCode::F3,
        NativeKey::F4 => KeyCode::F4,
        NativeKey::F5 => KeyCode::F5,
        NativeKey::F6 => KeyCode::F6,
        NativeKey::F7 => KeyCode::F7,
        NativeKey::F8 => KeyCode::F8,
        NativeKey::F9 => KeyCode::F9,
        NativeKey::F10 => KeyCode::F10,
        NativeKey::F11 => KeyCode::F11,
        NativeKey::F12 => KeyCode::F12,
        NativeKey::Escape => KeyCode::Escape,
        NativeKey::Enter => KeyCode::Enter,
        NativeKey::Space => KeyCode::Space,
        NativeKey::Tab => KeyCode::Tab,
        NativeKey::Backspace => KeyCode::Backspace,
        NativeKey::Delete => KeyCode::Delete,
        NativeKey::ArrowLeft => KeyCode::Left,
        NativeKey::ArrowRight => KeyCode::Right,
        NativeKey::ArrowUp => KeyCode::Up,
        NativeKey::ArrowDown => KeyCode::Down,
        NativeKey::Home => KeyCode::Home,
        NativeKey::End => KeyCode::End,
        NativeKey::PageUp => KeyCode::PageUp,
        NativeKey::PageDown => KeyCode::PageDown,
        NativeKey::ShiftLeft => KeyCode::Shift,
        NativeKey::ShiftRight => KeyCode::Shift,
        NativeKey::ControlLeft => KeyCode::Ctrl,
        NativeKey::ControlRight => KeyCode::Ctrl,
        NativeKey::AltLeft => KeyCode::Alt,
        NativeKey::AltRight => KeyCode::Alt,
        NativeKey::SuperLeft => KeyCode::Super,
        NativeKey::SuperRight => KeyCode::Super,
        NativeKey::Other => KeyCode::Unknown,
    }
}

/// The guest-visible button of a native mouse button, if any.
pub open spec fn spec_mouse_button(b: NativeButton) -> Option<MouseButton> {
    match b {
        NativeButton::Left => Some(MouseButton::Left),
        NativeButton::Right => Some(MouseButton::Right),
        NativeButton::Middle => Some(MouseButton::Middle),
        NativeButton::Back => Some(MouseButton::Back),
        NativeButton::Forward => Some(MouseButton::Forward),
        NativeButton::Other(_) => None,
    }
}

/// Maps a native mouse button into the declared vocabulary, dropping
/// unrecognised buttons entirely.
pub fn convert_mouse_button(b: NativeButton) -> (r: Option<MouseButton>)
    ensures
        r == spec_mouse_button(b),
{
    match b {
        NativeButton::Left => Some(MouseButton::Left),
        NativeButton::Right => Some(MouseButton::Right),
        NativeButton::Middle => Some(MouseButton::Middle),
        NativeButton::Back => Some(MouseButton::Back),
        NativeButton::Forward => Some(MouseButton::Forward),
        NativeButton::Other(_) => None,
    }
}

/// The guest event a native event translates to, if any.  Redraw
/// requests and unknown native events produce no guest event, and
/// neither does a press or release of an unrecognised mouse button.
pub open spec fn spec_translate(ev: NativeEvent) -> Option<Event> {
    match ev {
        NativeEvent::CloseRequested => Some(Event::CloseRequested),
        NativeEvent::Resized(s) => Some(Event::Resized(s)),
        NativeEvent::Focused(f) => Some(Event::Focused(f)),
        NativeEvent::Key { key, pressed } => if pressed {
            Some(Event::KeyPressed(spec_key_code(key)))
        } else {
            Some(Event::KeyReleased(spec_key_code(key)))
        },
        NativeEvent::CursorMoved(p) => Some(Event::MouseMoved(p)),
        NativeEvent::CursorEntered => Some(Event::MouseEntered),
        NativeEvent::CursorLeft => Some(Event::MouseLeft),
        NativeEvent::MouseInput { button, pressed } => match spec_mouse_button(button) {
            Some(b) => if pressed {
                Some(Event::MousePressed(b))
            } else {
                Some(Event::MouseReleased(b))
            },
            None => None,
        },
        NativeEvent::MouseWheel(dx, dy) => Some(Event::MouseScroll(dx, dy)),
        NativeEvent::RedrawRequested => None,
        NativeEvent::Other => None,
    }
}

/// Translates one native event into at most one guest event.
pub fn translate_event(ev: &NativeEvent) -> (r: Option<Event>)
    ensures
        r == spec_translate(*ev),
{
    match ev {
        NativeEvent::CloseRequested => Some(Event::CloseRequested),
        NativeEvent::Resized(s) => Some(Event::Resized(*s)),
        NativeEvent::Focused(f) => Some(Event::Focused(*f)),
        NativeEvent::Key { key, pressed } => {
            let k = convert_key_code(*key);
            if *pressed {
                Some(Event::KeyPressed(k))
            } else {
                Some(Event::KeyReleased(k))
            }
        },
        NativeEvent::CursorMoved(p) => Some(Event::MouseMoved(*p)),
        NativeEvent::CursorEntered => Some(Event::MouseEntered),
        NativeEvent::CursorLeft => Some(Event::MouseLeft),
        NativeEvent::MouseInput { button, pressed } => {
            match convert_mouse_button(*button) {
                Some(b) => if *pressed {
                    Some(Event::MousePressed(b))
                } else {
                    Some(Event::MouseReleased(b))
                },
                None => None,
            }
        },
        NativeEvent::MouseWheel(dx, dy) => Some(Event::MouseScroll(*dx, *dy)),
        NativeEvent::RedrawRequested => None,
        NativeEvent::Other => None,
    }
}

/// Law: the key mapping is exhaustive — every physical key the host
/// distinguishes maps to a named key, never to `Unknown`; only the
/// catch-all does.  The left/right modifier pairs collapse to single
/// keys.
pub proof fn lemma_key_mapping_exhaustive()
    ensures
        forall|k: NativeKey| k != NativeKey::Other ==> #[trigger] spec_key_code(k)
            != KeyCode::Unknown,
        spec_key_code(NativeKey::Other) == KeyCode::Unknown,
        spec_key_code(NativeKey::ShiftLeft) == KeyCode::Shift,
        spec_key_code(NativeKey::ShiftRight) == KeyCode::Shift,
        spec_key_code(NativeKey::ControlLeft) == KeyCode::Ctrl,
        spec_key_code(NativeKey::ControlRight) == KeyCode::Ctrl,
        spec_key_code(NativeKey::AltLeft) == KeyCode::Alt,
        spec_key_code(NativeKey::AltRight) == KeyCode::Alt,
        spec_key_code(NativeKey::SuperLeft) == KeyCode::Super,
        spec_key_code(NativeKey::SuperRight) == KeyCode::Super,
{
}

/// Law: an unrecognised mouse button produces no event at all, while a
/// recognised one always produces exactly one press or release event.
pub proof fn lemma_mouse_button_drop(button: NativeButton, pressed: bool)
    ensures
        (button matches NativeButton::Other(_)) <==> spec_translate(
            NativeEvent::MouseInput { button, pressed },
        ) is None,
        !(button matches NativeButton::Other(_)) && pressed ==> spec_translate(
            NativeEvent::MouseInput { button, pressed },
        ) == Some(Event::MousePressed(spec_mouse_button(button)->Some_0)),
        !(button matches NativeButton::Other(_)) && !pressed ==> spec_translate(
            NativeEvent::MouseInput { button, pressed },
        ) == Some(Event::MouseReleased(spec_mouse_button(button)->Some_0)),
{
}

/// A sequence with no repeated elements.
pub open spec fn nodup(s: Seq<KeyCode>) -> bool {
    forall|i: int, j: int| 0 <= i < j < s.len() ==> s[i] != s[j]
}

/// Frame-scoped key state: `pressed` records keys that went down since
/// the last update tick and is cleared at the start of every update;
/// `down` records keys currently held and changes on both press and
/// release.
pub struct InputState {
    pressed: Vec<KeyCode>,
    down: Vec<KeyCode>,
}

/// Whether a key list holds a key.
fn contains_key(v: &Vec<KeyCode>, k: KeyCode) -> (r: bool)
    ensures
        r == v@.contains(k),
{
    let mut i: usize = 0;
    while i < v.len()
        invariant
            i <= v@.len(),
            forall|j: int| 0 <= j < i ==> v@[j] != k,
        decreases v@.len() - i,
    {
        if v[i] == k {
            return true;
        }
        i += 1;
    }
    false
}

/// Membership in a pushed key list.
proof fn lemma_push_contains(s: Seq<KeyCode>, k: KeyCode, k2: KeyCode)
    ensures
        s.push(k).contains(k2) <==> (s.contains(k2) || k2 == k),
{
    if s.contains(k2) {
        let i = choose|i: int| 0 <= i < s.len() && s[i] == k2;
        assert(s.push(k)[i] == k2);
    }
    assert(s.push(k)[s.len() as int] == k);
    if s.push(k).contains(k2) {
        let i = choose|i: int| 0 <= i < s.push(k).len() && s.push(k)[i] == k2;
        if i < s.len() {
            assert(s[i] == k2);
        }
    }
}

/// Removes the one occurrence of a key from a duplicate-free key list,
/// if it is there.
fn remove_key(v: &mut Vec<KeyCode>, k: KeyCode)
    requires
        nodup(old(v)@),
    ensures
        nodup(final(v)@),
        forall|k2: KeyCode| final(v)@.contains(k2) <==> (old(v)@.contains(k2) && k2 != k),
{
    let ghost v0 = v@;
    let mut i: usize = 0;
    while i < v.len()
        invariant
            v0 == old(v)@,
            nodup(v0),
            v@ == v0,
            i <= v0.len(),
            forall|j: int| 0 <= j < i ==> v0[j] != k,
        decreases v0.len() - i,
    {
        if v[i] == k {
            let ghost di = i as int;
            v.remove(i);
            proof {
                v0.remove_ensures(di);
                assert forall|a: int, b: int| 0 <= a < b < v@.len() implies v@[a] != v@[b] by {
                    let a0 = if a < di { a } else { a + 1 };
                    let b0 = if b < di { b } else { b + 1 };
                    assert(v@[a] == v0[a0] && v@[b] == v0[b0]);
                }
                assert forall|k2: KeyCode| v@.contains(k2) <==> (v0.contains(k2) && k2 != k) by {
                    if v@.contains(k2) {
                        let idx = choose|idx: int| 0 <= idx < v@.len() && v@[idx] == k2;
                        let idx0 = if idx < di { idx } else { idx + 1 };
                        assert(v0[idx0] == k2);
                        assert(v0.contains(k2));
                        assert(k2 != k);
                    }
                    if v0.contains(k2) && k2 != k {
                        let idx = choose|idx: int| 0 <= idx < v0.len() && v0[idx] == k2;
                        if idx < di {
                            assert(v@[idx] == k2);
                        } else {
                            assert(idx != di);
                            assert(v@[idx - 1] == k2);
                        }
                        assert(v@.contains(k2));
                    }
                }
            }
            return ;
        }
        i += 1;
    }
    proof {
        assert forall|k2: KeyCode| v@.contains(k2) <==> (v0.contains(k2) && k2 != k) by {
            if v0.contains(k2) {
                let idx = choose|idx: int| 0 <= idx < v0.len() && v0[idx] == k2;
                assert(v0[idx] != k);
            }
        }
    }
}

impl InputState {
    /// Each key appears at most once in each set.
    pub closed spec fn wf(&self) -> bool {
        nodup(self.pressed@) && nodup(self.down@)
    }

    /// The set of keys pressed since the last update tick.
    pub closed spec fn spec_pressed(&self) -> Set<KeyCode> {
        self.pressed@.to_set()
    }

    /// The set of keys currently held.
    pub closed spec fn spec_down(&self) -> Set<KeyCode> {
        self.down@.to_set()
    }

    /// Fresh state: nothing pressed, nothing down.
    pub fn new() -> (s: InputState)
        ensures
            s.wf(),
            s.spec_pressed() == Set::<KeyCode>::empty(),
            s.spec_down() == Set::<KeyCode>::empty(),
    {
        let s = InputState { pressed: Vec::new(), down: Vec::new() };
        proof {
            assert(s.pressed@.to_set() =~= Set::<KeyCode>::empty());
            assert(s.down@.to_set() =~= Set::<KeyCode>::empty());
        }
        s
    }

    /// Clears the per-tick pressed set; the held set is untouched.
    /// Called at the start of every update tick.
    pub fn begin_update(&mut self)
        requires
            old(self).wf(),
        ensures
            final(self).wf(),
            final(self).spec_pressed() == Set::<KeyCode>::empty(),
            final(self).spec_down() == old(self).spec_down(),
    {
        self.pressed.clear();
        proof {
            assert(self.pressed@.to_set() =~= Set::<KeyCode>::empty());
        }
    }

    /// Records one key transition.  A press inserts the key into both
    /// sets; a release removes it from the held set only.
    pub fn note_key(&mut self, key: KeyCode, is_pressed: bool)
        requires
            old(self).wf(),
        ensures
            final(self).wf(),
            is_pressed ==> final(self).spec_pressed() == old(self).spec_pressed().insert(key),
            is_pressed ==> final(self).spec_down() == old(self).spec_down().insert(key),
            !is_pressed ==> final(self).spec_pressed() == old(self).spec_pressed(),
            !is_pressed ==> final(self).spec_down() == old(self).spec_down().remove(key),
    {
        if is_pressed {
            let ghost p0 = self.pressed@;
            let ghost d0 = self.down@;
            if !contains_key(&self.pressed, key) {
                self.pressed.push(key);
                proof {
                    assert forall|i: int, j: int|
                        0 <= i < j < self.pressed@.len() implies self.pressed@[i]
                        != self.pressed@[j] by {
                        if j == self.pressed@.len() - 1 {
                            assert(p0[i] != key);
                        }
                    }
                }
            }
            if !contains_key(&self.down, key) {
                self.down.push(key);
                proof {
                    assert forall|i: int, j: int|
                        0 <= i < j < self.down@.len() implies self.down@[i] != self.down@[j] by {
                        if j == self.down@.len() - 1 {
                            assert(d0[i] != key);
                        }
                    }
                }
            }
            proof {
                assert forall|k2: KeyCode| #[trigger]
                    self.pressed@.contains(k2) <==> (p0.contains(k2) || k2 == key) by {
                    lemma_push_contains(p0, key, k2);
                }
                assert forall|k2: KeyCode| #[trigger]
                    self.down@.contains(k2) <==> (d0.contains(k2) || k2 == key) by {
                    lemma_push_contains(d0, key, k2);
                }
                assert(self.pressed@.to_set() =~= p0.to_set().insert(key));
                assert(self.down@.to_set() =~= d0.to_set().insert(key));
            }
        } else {
            let ghost d0 = self.down@;
            remove_key(&mut self.down, key);
            proof {
                assert(self.down@.to_set() =~= d0.to_set().remove(key));
            }
        }
    }

    /// Whether the key went down since the last update tick.
    pub fn is_key_pressed(&self, key: KeyCode) -> (r: bool)
        ensures
            r == self.spec_pressed().contains(key),
    {
        contains_key(&self.pressed, key)
    }

    /// Whether the key is currently held.
    pub fn is_key_down(&self, key: KeyCode) -> (r: bool)
        ensures
            r == self.spec_down().contains(key),
    {
        contains_key(&self.down, key)
    }
}

} // verus!

use vstd::prelude::*;

verus! {

/// A keyboard key, as the application sees it.
#[allow(non_camel_case_types)]
#[derive(Debug, Clone, Copy, PartialEq, Eq, Structural)]
pub enum Key {
    A, B, C, D, E, F, G, H, I, J, K, L, M, N, O, P, Q, R, S, T, U, V, W, X, Y, Z,
    NUM0, NUM1, NUM2, NUM3, NUM4, NUM5, NUM6, NUM7, NUM8, NUM9,
    LEFT,
    RIGHT,
    UP,
    DOWN,
    SPACE,
    ESCAPE,
    OTHER,
}

/// A mouse button, as the application sees it.
#[allow(non_camel_case_types)]
#[derive(Debug, Clone, Copy, PartialEq, Eq, Structural)]
pub enum MouseButton {
    LEFT,
    RIGHT,
    MIDDLE,
    X1,
    X2,
    OTHER,
}

/// An input event delivered by a presenter.
#[derive(Debug, Clone, PartialEq, Eq)]
pub enum InputEvent {
    Quit,
    KeyDown(Key),
    KeyUp(Key),
    MouseMove { x: i32, y: i32, dx: i32, dy: i32 },
    MouseDown { button: MouseButton, x: i32, y: i32 },
    MouseUp { button: MouseButton, x: i32, y: i32 },
    MouseWheel { x: i32, y: i32 },
    TextInput(String),
}

/// Which of the movement and rotation keys are held down.
#[derive(Debug, Clone, Copy, PartialEq, Eq, Structural)]
pub struct InputState {
    pub is_w_pressed: bool,
    pub is_s_pressed: bool,
    pub is_a_pressed: bool,
    pub is_d_pressed: bool,
    pub is_right_pressed: bool,
    pub is_left_pressed: bool,
    pub is_up_pressed: bool,
    pub is_down_pressed: bool,
}

/// What the application loop has to do in answer to one input event.
#[derive(Debug, Clone, PartialEq, Eq)]
pub enum AppAction {
    /// Nothing beyond the change of the input state.
    Continue,
    /// Leave the loop successfully.
    Exit,
    /// Write the camera snapshot to storage.
    SaveScene,
    /// Write the object dependency graph to storage.
    SaveDependencyGraph,
    /// Add a new sphere object at a random place.
    SpawnObject,
    /// Report that a released key has no action.
    ReportNoAction,
    /// Report a mouse motion.
    ReportMouseMove { x: i32, y: i32, dx: i32, dy: i32 },
    /// Report a mouse button press.
    ReportMouseDown { button: MouseButton, x: i32, y: i32 },
    /// Report a mouse button release.
    ReportMouseUp { button: MouseButton, x: i32, y: i32 },
    /// Report a mouse wheel motion.
    ReportMouseWheel { x: i32, y: i32 },
    /// Report text input.
    ReportText(String),
    /// Report an event that the loop does not handle.
    ReportUnhandled,
}

/// One camera motion that the held keys ask for in a frame.
/// The sign gives the direction along the camera axis or around it.
#[derive(Debug, Clone, Copy, PartialEq, Eq, Structural)]
pub enum CameraMotion {
    MoveForward { positive: bool },
    MoveRight { positive: bool },
    Yaw { positive: bool },
    Pitch { positive: bool },
}

/// Whether a key is one of the eight movement and rotation keys.
pub open spec fn is_motion_key(key: Key) -> bool {
    key == Key::W || key == Key::S || key == Key::A || key == Key::D || key == Key::LEFT
        || key == Key::RIGHT || key == Key::UP || key == Key::DOWN
}

/// The input state with the flag of `key` set to `pressed`; other keys leave it unchanged.
pub open spec fn with_key(state: InputState, key: Key, pressed: bool) -> InputState {
    match key {
        Key::W => InputState { is_w_pressed: pressed, ..state },
        Key::S => InputState { is_s_pressed: pressed, ..state },
        Key::A => InputState { is_a_pressed: pressed, ..state },
        Key::D => InputState { is_d_pressed: pressed, ..state },
        Key::LEFT => InputState { is_left_pressed: pressed, ..state },
        Key::RIGHT => InputState { is_right_pressed: pressed, ..state },
        Key::UP => InputState { is_up_pressed: pressed, ..state },
        Key::DOWN => InputState { is_down_pressed: pressed, ..state },
        _ => state,
    }
}

/// The action that a key press asks for.
pub open spec fn key_down_action(key: Key) -> AppAction {
    match key {
        Key::P => AppAction::SaveScene,
        Key::O => AppAction::SaveDependencyGraph,
        Key::ESCAPE => AppAction::Exit,
        Key::H => AppAction::SpawnObject,
        _ => AppAction::Continue,
    }
}

/// The input state and action that follow one event.
pub open spec fn spec_handle_event(state: InputState, event: InputEvent) -> (InputState, AppAction) {
    match event {
        InputEvent::KeyDown(key) => (with_key(state, key, true), key_down_action(key)),
        InputEvent::KeyUp(key) => (
            with_key(state, key, false),
            if is_motion_key(key) {
                AppAction::Continue
            } else {
                AppAction::ReportNoAction
            },
        ),
        InputEvent::MouseMove { x, y, dx, dy } => (state, AppAction::ReportMouseMove { x, y, dx, dy }),
        InputEvent::MouseDown { button, x, y } => (state, AppAction::ReportMouseDown { button, x, y }),
        InputEvent::MouseUp { button, x, y } => (state, AppAction::ReportMouseUp { button, x, y }),
        InputEvent::MouseWheel { x, y } => (state, AppAction::ReportMouseWheel { x, y }),
        InputEvent::TextInput(text) => (state, AppAction::ReportText(text)),
        InputEvent::Quit => (state, AppAction::ReportUnhandled),
    }
}

/// The camera motions that the held keys ask for, in the order in which they are applied:
/// forward, backward, left, right, yaw left, yaw right, pitch up, pitch down.
pub open spec fn spec_camera_motions(state: InputState) -> Seq<CameraMotion> {
    let s0 = Seq::<CameraMotion>::empty();
    let s1 = if state.is_w_pressed { s0.push(CameraMotion::MoveForward { positive: true }) } else { s0 };
    let s2 = if state.is_s_pressed { s1.push(CameraMotion::MoveForward { positive: false }) } else { s1 };
    let s3 = if state.is_a_pressed { s2.push(CameraMotion::MoveRight { positive: false }) } else { s2 };
    let s4 = if state.is_d_pressed { s3.push(CameraMotion::MoveRight { positive: true }) } else { s3 };
    let s5 = if state.is_left_pressed { s4.push(CameraMotion::Yaw { positive: true }) } else { s4 };
    let s6 = if state.is_right_pressed { s5.push(CameraMotion::Yaw { positive: false }) } else { s5 };
    let s7 = if state.is_up_pressed { s6.push(CameraMotion::Pitch { positive: true }) } else { s6 };
    if state.is_down_pressed { s7.push(CameraMotion::Pitch { positive: false }) } else { s7 }
}

impl InputState {
    /// The state in which no key is held.
    pub fn new() -> (r: InputState)
        ensures
            r == (InputState {
                is_w_pressed: false,
                is_s_pressed: false,
                is_a_pressed: false,
                is_d_pressed: false,
                is_right_pressed: false,
                is_left_pressed: false,
                is_up_pressed: false,
                is_down_pressed: false,
            }),
    {
        InputState {
            is_w_pressed: false,
            is_s_pressed: false,
            is_a_pressed: false,
            is_d_pressed: false,
            is_right_pressed: false,
            is_left_pressed: false,
            is_up_pressed: false,
            is_down_pressed: false,
        }
    }

    /// Sets the flag of a movement or rotation key; other keys change nothing.
    fn set_key(&mut self, key: Key, pressed: bool)
        ensures
            *final(self) == with_key(*old(self), key, pressed),
    {
        match key {
            Key::W => self.is_w_pressed = pressed,
            Key::S => self.is_s_pressed = pressed,
            Key::A => self.is_a_pressed = pressed,
            Key::D => self.is_d_pressed = pressed,
            Key::LEFT => self.is_left_pressed = pressed,
            Key::RIGHT => self.is_right_pressed = pressed,
            Key::UP => self.is_up_pressed = pressed,
            Key::DOWN => self.is_down_pressed = pressed,
            _ => {},
        }
    }

    /// Applies one event to the input state and returns what the application loop must do.
    pub fn handle_event(&mut self, event: InputEvent) -> (action: AppAction)
        ensures
            (*final(self), action) == spec_handle_event(*old(self), event),
    {
        match event {
            InputEvent::KeyDown(key) => {
                self.set_key(key, true);
                match key {
                    Key::P => AppAction::SaveScene,
                    Key::O => AppAction::SaveDependencyGraph,
                    Key::ESCAPE => AppAction::Exit,
                    Key::H => AppAction::SpawnObject,
                    _ => AppAction::Continue,
                }
            },
            InputEvent::KeyUp(key) => {
                self.set_key(key, false);
                match key {
                    Key::W | Key::S | Key::A | Key::D | Key::LEFT | Key::RIGHT | Key::UP
                    | Key::DOWN => AppAction::Continue,
                    _ => AppAction::ReportNoAction,
                }
            },
            InputEvent::MouseMove { x, y, dx, dy } => AppAction::ReportMouseMove { x, y, dx, dy },
            InputEvent::MouseDown { button, x, y } => AppAction::ReportMouseDown { button, x, y },
            InputEvent::MouseUp { button, x, y } => AppAction::ReportMouseUp { button, x, y },
            InputEvent::MouseWheel { x, y } => AppAction::ReportMouseWheel { x, y },
            InputEvent::TextInput(text) => AppAction::ReportText(text),
            InputEvent::Quit => AppAction::ReportUnhandled,
        }
    }

    /// The camera motions that the held keys ask for in one frame.
    pub fn camera_motions(&self) -> (r: Vec<CameraMotion>)
        ensures
            r@ == spec_camera_motions(*self),
            r@.no_duplicates(),
            r@.len() == held_key_count(*self),
    {
        proof {
            lemma_each_held_key_moves_once(*self);
        }
        let mut r: Vec<CameraMotion> = Vec::new();
        if self.is_w_pressed {
            r.push(CameraMotion::MoveForward { positive: true });
        }
        if self.is_s_pressed {
            r.push(CameraMotion::MoveForward { positive: false });
        }
        if self.is_a_pressed {
            r.push(CameraMotion::MoveRight { positive: false });
        }
        if self.is_d_pressed {
            r.push(CameraMotion::MoveRight { positive: true });
        }
        if self.is_left_pressed {
            r.push(CameraMotion::Yaw { positive: true });
        }
        if self.is_right_pressed {
            r.push(CameraMotion::Yaw { positive: false });
        }
        if self.is_up_pressed {
            r.push(CameraMotion::Pitch { positive: true });
        }
        if self.is_down_pressed {
            r.push(CameraMotion::Pitch { positive: false });
        }
        r
    }
}

/// Pressing a key and releasing it again leaves every flag as it was, except the
/// flag of that key, which ends up cleared; keys other than the eight movement and
/// rotation keys leave the state unchanged altogether.
pub proof fn lemma_press_then_release(state: InputState, key: Key)
    ensures
        ({
            let (s1, _) = spec_handle_event(state, InputEvent::KeyDown(key));
            let (s2, _) = spec_handle_event(s1, InputEvent::KeyUp(key));
            &&& s2 == with_key(state, key, false)
            &&& !is_motion_key(key) ==> s2 == state
        }),
{
}

/// Only the eight movement and rotation keys change the input state; every other
/// event leaves it as it was.
pub proof fn lemma_other_events_keep_state(state: InputState, event: InputEvent)
    requires
        !(event matches InputEvent::KeyDown(k) && is_motion_key(k)),
        !(event matches InputEvent::KeyUp(k) && is_motion_key(k)),
    ensures
        spec_handle_event(state, event).0 == state,
{
}

/// A held key asks for its camera motion in every frame, and a released key asks for none.
pub proof fn lemma_motion_follows_key(state: InputState)
    ensures
        state.is_w_pressed <==> spec_camera_motions(state).contains(
            CameraMotion::MoveForward { positive: true },
        ),
        state.is_s_pressed <==> spec_camera_motions(state).contains(
            CameraMotion::MoveForward { positive: false },
        ),
        state.is_a_pressed <==> spec_camera_motions(state).contains(
            CameraMotion::MoveRight { positive: false },
        ),
        state.is_d_pressed <==> spec_camera_motions(state).contains(
            CameraMotion::MoveRight { positive: true },
        ),
        state.is_left_pressed <==> spec_camera_motions(state).contains(
            CameraMotion::Yaw { positive: true },
        ),
        state.is_right_pressed <==> spec_camera_motions(state).contains(
            CameraMotion::Yaw { positive: false },
        ),
        state.is_up_pressed <==> spec_camera_motions(state).contains(
            CameraMotion::Pitch { positive: true },
        ),
        state.is_down_pressed <==> spec_camera_motions(state).contains(
            CameraMotion::Pitch { positive: false },
        ),
{
    broadcast use vstd::seq_lib::lemma_seq_contains_after_push;
    broadcast use vstd::seq_lib::lemma_seq_empty_contains_nothing;

}

/// Pressing one of the eight movement and rotation keys sets the flag named after that
/// key, and releasing it clears that flag; no other flag changes. The left arrow is the
/// left flag, whose motion turns the camera with a positive yaw (to the left), and the
/// right arrow is the right flag.
pub proof fn lemma_key_event_sets_named_flag(state: InputState)
    ensures
        spec_handle_event(state, InputEvent::KeyDown(Key::W)).0 == (InputState { is_w_pressed: true, ..state }),
        spec_handle_event(state, InputEvent::KeyUp(Key::W)).0 == (InputState { is_w_pressed: false, ..state }),
        spec_handle_event(state, InputEvent::KeyDown(Key::S)).0 == (InputState { is_s_pressed: true, ..state }),
        spec_handle_event(state, InputEvent::KeyUp(Key::S)).0 == (InputState { is_s_pressed: false, ..state }),
        spec_handle_event(state, InputEvent::KeyDown(Key::A)).0 == (InputState { is_a_pressed: true, ..state }),
        spec_handle_event(state, InputEvent::KeyUp(Key::A)).0 == (InputState { is_a_pressed: false, ..state }),
        spec_handle_event(state, InputEvent::KeyDown(Key::D)).0 == (InputState { is_d_pressed: true, ..state }),
        spec_handle_event(state, InputEvent::KeyUp(Key::D)).0 == (InputState { is_d_pressed: false, ..state }),
        spec_handle_event(state, InputEvent::KeyDown(Key::LEFT)).0 == (InputState { is_left_pressed: true, ..state }),
        spec_handle_event(state, InputEvent::KeyUp(Key::LEFT)).0 == (InputState { is_left_pressed: false, ..state }),
        spec_handle_event(state, InputEvent::KeyDown(Key::RIGHT)).0 == (InputState { is_right_pressed: true, ..state }),
        spec_handle_event(state, InputEvent::KeyUp(Key::RIGHT)).0 == (InputState { is_right_pressed: false, ..state }),
        spec_handle_event(state, InputEvent::KeyDown(Key::UP)).0 == (InputState { is_up_pressed: true, ..state }),
        spec_handle_event(state, InputEvent::KeyUp(Key::UP)).0 == (InputState { is_up_pressed: false, ..state }),
        spec_handle_event(state, InputEvent::KeyDown(Key::DOWN)).0 == (InputState { is_down_pressed: true, ..state }),
        spec_handle_event(state, InputEvent::KeyUp(Key::DOWN)).0 == (InputState { is_down_pressed: false, ..state }),
{
}

/// The number of the eight movement and rotation keys that are held.
pub open spec fn held_key_count(state: InputState) -> nat {
    (if state.is_w_pressed { 1nat } else { 0nat }) + (if state.is_s_pressed { 1nat } else { 0nat })
        + (if state.is_a_pressed { 1nat } else { 0nat }) + (if state.is_d_pressed { 1nat } else { 0nat })
        + (if state.is_left_pressed { 1nat } else { 0nat }) + (if state.is_right_pressed { 1nat } else { 0nat })
        + (if state.is_up_pressed { 1nat } else { 0nat }) + (if state.is_down_pressed { 1nat } else { 0nat })
}

proof fn lemma_push_fresh_keeps_distinct<A>(s: Seq<A>, x: A)
    requires
        s.no_duplicates(),
        !s.contains(x),
    ensures
        s.push(x).no_duplicates(),
{
    assert forall|i: int, j: int|
        0 <= i < s.push(x).len() && 0 <= j < s.push(x).len() && i != j implies s.push(x)[i]
        != s.push(x)[j] by {
        if i < s.len() && j < s.len() {
        } else if i < s.len() {
            assert(s.contains(s[i]));
        } else if j < s.len() {
            assert(s.contains(s[j]));
        }
    }
}

/// Each held key gives its camera motion exactly once per frame: the motions are all
/// different, and there are as many as there are held keys.
pub proof fn lemma_each_held_key_moves_once(state: InputState)
    ensures
        spec_camera_motions(state).no_duplicates(),
        spec_camera_motions(state).len() == held_key_count(state),
{
    broadcast use vstd::seq_lib::lemma_seq_contains_after_push;
    broadcast use vstd::seq_lib::lemma_seq_empty_contains_nothing;

    let m0 = CameraMotion::MoveForward { positive: true };
    let m1 = CameraMotion::MoveForward { positive: false };
    let m2 = CameraMotion::MoveRight { positive: false };
    let m3 = CameraMotion::MoveRight { positive: true };
    let m4 = CameraMotion::Yaw { positive: true };
    let m5 = CameraMotion::Yaw { positive: false };
    let m6 = CameraMotion::Pitch { positive: true };
    let m7 = CameraMotion::Pitch { positive: false };
    let s0 = Seq::<CameraMotion>::empty();
    let s1 = if state.is_w_pressed { s0.push(m0) } else { s0 };
    let s2 = if state.is_s_pressed { s1.push(m1) } else { s1 };
    let s3 = if state.is_a_pressed { s2.push(m2) } else { s2 };
    let s4 = if state.is_d_pressed { s3.push(m3) } else { s3 };
    let s5 = if state.is_left_pressed { s4.push(m4) } else { s4 };
    let s6 = if state.is_right_pressed { s5.push(m5) } else { s5 };
    let s7 = if state.is_up_pressed { s6.push(m6) } else { s6 };
    let s8 = if state.is_down_pressed { s7.push(m7) } else { s7 };
    assert(spec_camera_motions(state) == s8);
    assert(s0.no_duplicates());
    if state.is_w_pressed { lemma_push_fresh_keeps_distinct(s0, m0); }
    if state.is_s_pressed { lemma_push_fresh_keeps_distinct(s1, m1); }
    if state.is_a_pressed { lemma_push_fresh_keeps_distinct(s2, m2); }
    if state.is_d_pressed { lemma_push_fresh_keeps_distinct(s3, m3); }
    if state.is_left_pressed { lemma_push_fresh_keeps_distinct(s4, m4); }
    if state.is_right_pressed { lemma_push_fresh_keeps_distinct(s5, m5); }
    if state.is_up_pressed { lemma_push_fresh_keeps_distinct(s6, m6); }
    if state.is_down_pressed { lemma_push_fresh_keeps_distinct(s7, m7); }
}

} // verus!

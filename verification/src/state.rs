//! Tool-assisted-play front-end state: the controller roster being edited,
//! display toggles, the pending typed number, and the requested game flow.

use vstd::prelude::*;

verus! {

/// What the playback loop should do next.
#[derive(Clone, Copy, PartialEq, Eq, Structural, Debug)]
pub enum Flow {
    Stop,
    Play,
    Rewind,
    Replay,
    StepFrames(u64),
    RewindFrames(u64),
    ReplayFrames(u64),
}

/// A staged digit-entry accumulator: digits append in base ten and
/// saturate, a sign can be staged, and consumers pop the value in the
/// width they need, which resets the accumulator.
#[derive(Clone, Copy, PartialEq, Eq, Structural, Debug)]
pub struct NumberInput {
    pub value: u64,
    pub negative: bool,
}

impl NumberInput {
    pub fn new() -> (r: NumberInput)
        ensures
            r.value == 0,
            !r.negative,
    {
        NumberInput { value: 0, negative: false }
    }

    /// Append one digit in base ten, saturating at the top of the range.
    pub fn input(&mut self, input: u64)
        ensures
            final (self).value == if old(self).value * 10 + input <= u64::MAX {
                old(self).value * 10 + input
            } else {
                u64::MAX as int
            },
            final (self).negative == old(self).negative,
    {
        let high: bool = self.value > u64::MAX / 10;
        if high {
            self.value = u64::MAX;
        } else {
            let scaled: u64 = self.value * 10;
            if scaled > u64::MAX - input {
                self.value = u64::MAX;
            } else {
                self.value = scaled + input;
            }
        }
    }

    /// Stage a negative sign, discarding any typed digits.
    pub fn negative(&mut self)
        ensures
            final (self).value == 0,
            final (self).negative,
    {
        self.value = 0;
        self.negative = true;
    }

    /// Stage a positive sign, discarding any typed digits.
    pub fn positive(&mut self)
        ensures
            final (self).value == 0,
            !final (self).negative,
    {
        self.value = 0;
        self.negative = false;
    }

    /// Pop the accumulator as a stick value. The accumulator is cleared
    /// before the staged sign is consulted, so the result is never
    /// negative: the value clamped into the signed byte range.
    pub fn pop_stick(&mut self) -> (r: i8)
        ensures
            r == if old(self).value < i8::MAX as u64 {
                old(self).value as int
            } else {
                i8::MAX as int
            },
            final (self).value == 0,
            !final (self).negative,
    {
        let value_i8: i8 = if self.value < i8::MAX as u64 {
            self.value as i8
        } else {
            i8::MAX
        };
        self.value = 0;
        // the staged sign is consumed (cleared) before it could be applied,
        // so it never flips the result
        self.negative = false;
        value_i8
    }

    /// Pop the accumulator as a trigger value: the value clamped into the
    /// unsigned byte range.
    pub fn pop_trigger(&mut self) -> (r: u8)
        ensures
            r == if old(self).value < u8::MAX as u64 {
                old(self).value as int
            } else {
                u8::MAX as int
            },
            final (self).value == 0,
            !final (self).negative,
    {
        let value_u8: u8 = if self.value < u8::MAX as u64 {
            self.value as u8
        } else {
            u8::MAX
        };
        self.value = 0;
        self.negative = false;
        value_u8
    }

    /// Pop the accumulator as a frame count; an empty entry means one
    /// frame.
    pub fn pop_frames(&mut self) -> (r: u64)
        ensures
            r == if old(self).value == 0 {
                1int
            } else {
                old(self).value as int
            },
            final (self).value == 0,
            final (self).negative == old(self).negative,
    {
        let result: u64 = self.value;
        self.value = 0;
        if result == 0 {
            1
        } else {
            result
        }
    }
}

/// What one appended digit does to the accumulator.
pub open spec fn number_digit_spec(n: NumberInput, d: u64) -> NumberInput {
    NumberInput {
        value: if n.value * 10 + d <= u64::MAX {
            (n.value * 10 + d) as u64
        } else {
            u64::MAX
        },
        negative: n.negative,
    }
}

/// What popping the accumulator as a stick value returns and leaves.
pub open spec fn pop_stick_spec(n: NumberInput) -> (i8, NumberInput) {
    (
        if n.value < i8::MAX as u64 {
            n.value as i8
        } else {
            i8::MAX
        },
        NumberInput { value: 0, negative: false },
    )
}

/// What popping the accumulator as a trigger value returns and leaves.
pub open spec fn pop_trigger_spec(n: NumberInput) -> (u8, NumberInput) {
    (
        if n.value < u8::MAX as u64 {
            n.value as u8
        } else {
            u8::MAX
        },
        NumberInput { value: 0, negative: false },
    )
}

/// What popping the accumulator as a frame count returns and leaves.
pub open spec fn pop_frames_spec(n: NumberInput) -> (u64, NumberInput) {
    (
        if n.value == 0 {
            1u64
        } else {
            n.value
        },
        NumberInput { value: 0, negative: n.negative },
    )
}

/// The keyboard keys the front end reacts to, modeled after the window
/// library's key codes.
#[derive(Clone, Copy, PartialEq, Eq, Structural, Debug)]
pub enum Key {
    Q,
    W,
    E,
    R,
    F1,
    F2,
    F3,
    F4,
    F5,
    F6,
    F7,
    F8,
    F9,
    F10,
    F11,
    F12,
    LBracket,
    RBracket,
    Key0,
    Key1,
    Key2,
    Key3,
    Key4,
    Key5,
    Key6,
    Key7,
    Key8,
    Key9,
    Subtract,
    Equals,
    Up,
    Down,
    Left,
    Right,
    A,
    S,
    D,
    F,
    G,
    H,
    J,
    K,
    L,
    Colon,
    Y,
    U,
    I,
    O,
    Z,
    X,
    C,
    V,
    Return,
    Space,
}

/// One tick's keyboard snapshot: which keys were freshly pressed, and
/// whether shift is held.
#[derive(Clone, Debug)]
pub struct Input {
    pub pressed: Vec<Key>,
    pub shift_held: bool,
}

/// Whether a key was freshly pressed this tick.
#[verifier::opaque]
pub open spec fn pressed(input: Input, key: Key) -> bool {
    input.pressed@.contains(key)
}

impl Input {
    pub fn key_pressed(&self, key: Key) -> (r: bool)
        ensures
            r == pressed(*self, key),
    {
        proof {
            reveal(pressed);
        }
        let mut i: usize = 0;
        while i < self.pressed.len()
            invariant
                i <= self.pressed@.len(),
                forall|j: int| 0 <= j < i ==> self.pressed@[j] != key,
            decreases self.pressed@.len() - i,
        {
            if self.pressed[i] == key {
                proof {
                    reveal(pressed);
                }
                return true;
            }
            i += 1;
        }
        proof {
            reveal(pressed);
        }
        false
    }

    pub fn held_shift(&self) -> (r: bool)
        ensures
            r == self.shift_held,
    {
        self.shift_held
    }
}

/// One button of a staged controller frame: pressed this frame, or held
/// until released.
#[derive(Clone, Copy, PartialEq, Eq, Structural, Debug)]
pub struct ElementButton {
    pub pressed: bool,
    pub held: bool,
}

/// One analog stick axis of a staged controller frame.
#[derive(Clone, Copy, PartialEq, Eq, Structural, Debug)]
pub struct ElementStick {
    pub value: i8,
    pub held: bool,
}

/// One analog trigger of a staged controller frame.
#[derive(Clone, Copy, PartialEq, Eq, Structural, Debug)]
pub struct ElementTrigger {
    pub value: u8,
    pub held: bool,
}

/// The staged inputs of one controller.
#[derive(Clone, Copy, PartialEq, Eq, Structural, Debug)]
pub struct Controller {
    pub up: ElementButton,
    pub down: ElementButton,
    pub left: ElementButton,
    pub right: ElementButton,
    pub a: ElementButton,
    pub b: ElementButton,
    pub x: ElementButton,
    pub y: ElementButton,
    pub start: ElementButton,
    pub z: ElementButton,
    pub l: ElementButton,
    pub r: ElementButton,
    pub l_trigger: ElementTrigger,
    pub r_trigger: ElementTrigger,
    pub stick_x: ElementStick,
    pub stick_y: ElementStick,
    pub c_stick_x: ElementStick,
    pub c_stick_y: ElementStick,
}

/// A controller with nothing staged.
pub open spec fn neutral_controller() -> Controller {
    Controller {
        up: ElementButton { pressed: false, held: false },
        down: ElementButton { pressed: false, held: false },
        left: ElementButton { pressed: false, held: false },
        right: ElementButton { pressed: false, held: false },
        a: ElementButton { pressed: false, held: false },
        b: ElementButton { pressed: false, held: false },
        x: ElementButton { pressed: false, held: false },
        y: ElementButton { pressed: false, held: false },
        start: ElementButton { pressed: false, held: false },
        z: ElementButton { pressed: false, held: false },
        l: ElementButton { pressed: false, held: false },
        r: ElementButton { pressed: false, held: false },
        l_trigger: ElementTrigger { value: 0, held: false },
        r_trigger: ElementTrigger { value: 0, held: false },
        stick_x: ElementStick { value: 0, held: false },
        stick_y: ElementStick { value: 0, held: false },
        c_stick_x: ElementStick { value: 0, held: false },
        c_stick_y: ElementStick { value: 0, held: false },
    }
}

/// Whether a controller has nothing staged.
pub open spec fn controller_neutral(c: Controller) -> bool {
    &&& c == (Controller {
        up: ElementButton { pressed: false, held: false },
        down: ElementButton { pressed: false, held: false },
        left: ElementButton { pressed: false, held: false },
        right: ElementButton { pressed: false, held: false },
        a: ElementButton { pressed: false, held: false },
        b: ElementButton { pressed: false, held: false },
        x: ElementButton { pressed: false, held: false },
        y: ElementButton { pressed: false, held: false },
        start: ElementButton { pressed: false, held: false },
        z: ElementButton { pressed: false, held: false },
        l: ElementButton { pressed: false, held: false },
        r: ElementButton { pressed: false, held: false },
        l_trigger: ElementTrigger { value: 0, held: false },
        r_trigger: ElementTrigger { value: 0, held: false },
        stick_x: ElementStick { value: 0, held: false },
        stick_y: ElementStick { value: 0, held: false },
        c_stick_x: ElementStick { value: 0, held: false },
        c_stick_y: ElementStick { value: 0, held: false },
    })
}

impl Controller {
    pub fn new() -> (r: Controller)
        ensures
            controller_neutral(r),
    {
        let off = ElementButton { pressed: false, held: false };
        Controller {
            up: off,
            down: off,
            left: off,
            right: off,
            a: off,
            b: off,
            x: off,
            y: off,
            start: off,
            z: off,
            l: off,
            r: off,
            l_trigger: ElementTrigger { value: 0, held: false },
            r_trigger: ElementTrigger { value: 0, held: false },
            stick_x: ElementStick { value: 0, held: false },
            stick_y: ElementStick { value: 0, held: false },
            c_stick_x: ElementStick { value: 0, held: false },
            c_stick_y: ElementStick { value: 0, held: false },
        }
    }
}

impl ElementButton {
    /// Stage a one-frame press.
    pub fn press(&mut self)
        ensures
            *final (self) == (ElementButton { pressed: true, held: old(self).held }),
    {
        self.pressed = true;
    }

    /// Stage the button as held down.
    pub fn hold(&mut self)
        ensures
            *final (self) == (ElementButton { pressed: old(self).pressed, held: true }),
    {
        self.held = true;
    }
}

impl ElementStick {
    /// Stage a one-frame deflection.
    pub fn press(&mut self, value: i8)
        ensures
            *final (self) == (ElementStick { value, held: false }),
    {
        self.value = value;
        self.held = false;
    }

    /// Stage a held deflection.
    pub fn hold(&mut self, value: i8)
        ensures
            *final (self) == (ElementStick { value, held: true }),
    {
        self.value = value;
        self.held = true;
    }
}

impl ElementTrigger {
    /// Stage a one-frame squeeze.
    pub fn press(&mut self, value: u8)
        ensures
            *final (self) == (ElementTrigger { value, held: false }),
    {
        self.value = value;
        self.held = false;
    }

    /// Stage a held squeeze.
    pub fn hold(&mut self, value: u8)
        ensures
            *final (self) == (ElementTrigger { value, held: true }),
    {
        self.value = value;
        self.held = true;
    }
}

/// How one key maps onto a button: pressed plainly, held with shift.
pub open spec fn map_button_spec(input: Input, key: Key, b: ElementButton) -> ElementButton {
    if pressed(input, key) {
        if input.shift_held {
            ElementButton { pressed: b.pressed, held: true }
        } else {
            ElementButton { pressed: true, held: b.held }
        }
    } else {
        b
    }
}

/// How one key maps onto a stick axis, consuming the typed number.
pub open spec fn map_stick_spec(input: Input, key: Key, s: ElementStick, n: NumberInput) -> (
    ElementStick,
    NumberInput,
) {
    if pressed(input, key) {
        let (value, n2) = pop_stick_spec(n);
        (ElementStick { value, held: input.shift_held }, n2)
    } else {
        (s, n)
    }
}

/// How one key maps onto a trigger, consuming the typed number.
pub open spec fn map_trigger_spec(input: Input, key: Key, t: ElementTrigger, n: NumberInput) -> (
    ElementTrigger,
    NumberInput,
) {
    if pressed(input, key) {
        let (value, n2) = pop_trigger_spec(n);
        (ElementTrigger { value, held: input.shift_held }, n2)
    } else {
        (t, n)
    }
}

/// The whole key-to-controller mapping for one tick, in the order the
/// keys are consulted; sticks and triggers consume the typed number in
/// that same order.
#[verifier::opaque]
pub open spec fn map_controller_spec(c: Controller, n: NumberInput, input: Input) -> (
    Controller,
    NumberInput,
) {
    let up = map_button_spec(input, Key::Up, c.up);
    let down = map_button_spec(input, Key::Down, c.down);
    let left = map_button_spec(input, Key::Left, c.left);
    let right = map_button_spec(input, Key::Right, c.right);
    let a = map_button_spec(input, Key::A, c.a);
    let b = map_button_spec(input, Key::S, c.b);
    let x = map_button_spec(input, Key::D, c.x);
    let y = map_button_spec(input, Key::F, c.y);
    let start = map_button_spec(input, Key::G, c.start);
    let z = map_button_spec(input, Key::H, c.z);
    let l = map_button_spec(input, Key::J, c.l);
    let (l_trigger, n1) = map_trigger_spec(input, Key::K, c.l_trigger, n);
    let (r_trigger, n2) = map_trigger_spec(input, Key::L, c.r_trigger, n1);
    let r = map_button_spec(input, Key::Colon, c.r);
    let (stick_x, n3) = map_stick_spec(input, Key::Y, c.stick_x, n2);
    let (stick_y, n4) = map_stick_spec(input, Key::U, c.stick_y, n3);
    let (c_stick_x, n5) = map_stick_spec(input, Key::I, c.c_stick_x, n4);
    let (c_stick_y, n6) = map_stick_spec(input, Key::O, c.c_stick_y, n5);
    (
        Controller {
            up,
            down,
            left,
            right,
            a,
            b,
            x,
            y,
            start,
            z,
            l,
            r,
            l_trigger,
            r_trigger,
            stick_x,
            stick_y,
            c_stick_x,
            c_stick_y,
        },
        n6,
    )
}

/// Which controller the function keys select, given how many exist.
#[verifier::opaque]
pub open spec fn select_controller_spec(cur: usize, len: nat, input: Input) -> usize {
    if pressed(input, Key::F1) && len > 0 {
        0
    } else if pressed(input, Key::F2) && len > 1 {
        1
    } else if pressed(input, Key::F3) && len > 2 {
        2
    } else if pressed(input, Key::F4) && len > 3 {
        3
    } else if pressed(input, Key::F5) && len > 4 {
        4
    } else if pressed(input, Key::F6) && len > 5 {
        5
    } else if pressed(input, Key::F7) && len > 6 {
        6
    } else if pressed(input, Key::F8) && len > 7 {
        7
    } else if pressed(input, Key::F9) && len > 8 {
        8
    } else if pressed(input, Key::F10) && len > 9 {
        9
    } else if pressed(input, Key::F11) && len > 10 {
        10
    } else if pressed(input, Key::F12) && len > 11 {
        11
    } else {
        cur
    }
}

/// How the bracket keys shrink or grow the controller roster: never below
/// one controller, never above nine.
#[verifier::opaque]
pub open spec fn controllers_bracket_spec(cs: Seq<Controller>, input: Input) -> Seq<Controller> {
    if pressed(input, Key::LBracket) {
        if cs.len() > 1 {
            cs.drop_last()
        } else {
            cs
        }
    } else if pressed(input, Key::RBracket) {
        if cs.len() < 9 {
            cs.push(neutral_controller())
        } else {
            cs
        }
    } else {
        cs
    }
}

/// What the number keys do to the accumulator this tick.
#[verifier::opaque]
pub open spec fn number_keys_spec(n: NumberInput, input: Input) -> NumberInput {
    if pressed(input, Key::Key0) {
        number_digit_spec(n, 0)
    } else if pressed(input, Key::Key1) {
        number_digit_spec(n, 1)
    } else if pressed(input, Key::Key2) {
        number_digit_spec(n, 2)
    } else if pressed(input, Key::Key3) {
        number_digit_spec(n, 3)
    } else if pressed(input, Key::Key4) {
        number_digit_spec(n, 4)
    } else if pressed(input, Key::Key5) {
        number_digit_spec(n, 5)
    } else if pressed(input, Key::Key6) {
        number_digit_spec(n, 6)
    } else if pressed(input, Key::Key7) {
        number_digit_spec(n, 7)
    } else if pressed(input, Key::Key8) {
        number_digit_spec(n, 8)
    } else if pressed(input, Key::Key9) {
        number_digit_spec(n, 9)
    } else if pressed(input, Key::Subtract) {
        NumberInput { value: 0, negative: true }
    } else if pressed(input, Key::Equals) {
        NumberInput { value: 0, negative: false }
    } else {
        n
    }
}

/// How the flow keys change playback, consuming the typed frame count.
#[verifier::opaque]
pub open spec fn flow_spec(f: Flow, n: NumberInput, input: Input) -> (Flow, NumberInput) {
    if pressed(input, Key::Return) {
        (
            match f {
                Flow::Play => Flow::Stop,
                _ => Flow::Play,
            },
            n,
        )
    } else if pressed(input, Key::Space) {
        let (frames, n2) = pop_frames_spec(n);
        (Flow::StepFrames(frames), n2)
    } else if pressed(input, Key::Z) {
        let (frames, n2) = pop_frames_spec(n);
        (Flow::RewindFrames(frames), n2)
    } else if pressed(input, Key::X) {
        let (frames, n2) = pop_frames_spec(n);
        (Flow::ReplayFrames(frames), n2)
    } else if pressed(input, Key::C) {
        (Flow::Rewind, n)
    } else if pressed(input, Key::V) {
        (Flow::Replay, n)
    } else {
        (f, n)
    }
}

/// The typed number as it stands after the number keys and the
/// controller mapping of one tick.
pub open spec fn number_after_mapping(s: State, input: Input) -> NumberInput {
    let cur = select_controller_spec(s.current_controller, s.controllers@.len(), input);
    let cs = controllers_bracket_spec(s.controllers@, input);
    map_controller_spec(cs[cur as int], number_keys_spec(s.number, input), input).1
}

/// The controller roster after one tick's update.
pub open spec fn controllers_after_update(s: State, input: Input) -> Seq<Controller> {
    let cur = select_controller_spec(s.current_controller, s.controllers@.len(), input);
    let cs = controllers_bracket_spec(s.controllers@, input);
    cs.update(cur as int, map_controller_spec(cs[cur as int], number_keys_spec(s.number, input), input).0)
}

/// The update's precondition: the controller the function keys select must
/// still exist after the bracket keys shrank or grew the roster.
pub open spec fn update_requires(s: State, input: Input) -> bool {
    select_controller_spec(s.current_controller, s.controllers@.len(), input)
        < controllers_bracket_spec(s.controllers@, input).len()
}

/// The whole editing state of the tool-assisted-play front end.
#[derive(Clone, Debug)]
pub struct State {
    pub controllers: Vec<Controller>,
    pub current_controller: usize,
    pub display_all_controllers: bool,
    pub use_aspect_ratio: bool,
    pub display_analog_as_float: bool,
    pub touchtype: bool,
    pub flow: Flow,
    pub number: NumberInput,
}

impl State {
    pub fn new() -> (r: State)
        ensures
            r.controllers@.len() == 1,
            controller_neutral(r.controllers@[0]),
            r.current_controller == 0,
            !r.display_all_controllers,
            !r.use_aspect_ratio,
            !r.display_analog_as_float,
            r.touchtype,
            r.flow == Flow::Stop,
            r.number.value == 0,
            !r.number.negative,
    {
        let mut controllers: Vec<Controller> = Vec::new();
        controllers.push(Controller::new());
        State {
            controllers,
            current_controller: 0,
            display_all_controllers: false,
            use_aspect_ratio: false,
            display_analog_as_float: false,
            touchtype: true,
            flow: Flow::Stop,
            number: NumberInput::new(),
        }
    }

    /// Apply one tick's freshly pressed keys: display toggles, controller
    /// selection, roster resizing, number entry, key-to-controller mapping
    /// on the selected controller, and the playback flow request.
    pub fn update(&mut self, input: &Input)
        requires
            update_requires(*old(self), *input),
        ensures
            final (self).display_all_controllers == (if pressed(*input, Key::Q) {
                !old(self).display_all_controllers
            } else {
                old(self).display_all_controllers
            }),
            final (self).use_aspect_ratio == (if pressed(*input, Key::W) {
                !old(self).use_aspect_ratio
            } else {
                old(self).use_aspect_ratio
            }),
            final (self).display_analog_as_float == (if pressed(*input, Key::E) {
                !old(self).display_analog_as_float
            } else {
                old(self).display_analog_as_float
            }),
            final (self).touchtype == (if pressed(*input, Key::R) {
                !old(self).touchtype
            } else {
                old(self).touchtype
            }),
            final (self).current_controller == select_controller_spec(
                old(self).current_controller,
                old(self).controllers@.len(),
                *input,
            ),
            final (self).controllers@ == controllers_after_update(*old(self), *input),
            final (self).flow == flow_spec(
                old(self).flow,
                number_after_mapping(*old(self), *input),
                *input,
            ).0,
            final (self).number == flow_spec(
                old(self).flow,
                number_after_mapping(*old(self), *input),
                *input,
            ).1,
    {
        self.apply_toggles(input);
        self.select_controller(input);
        self.resize_controllers(input);
        self.apply_number_keys(input);
        // key -> controller element mapping on the selected controller
        let mut controller: Controller = self.controllers[self.current_controller];
        State::map_controller(input, &mut controller, &mut self.number);
        self.controllers.set(self.current_controller, controller);
        proof {
            assert(self.controllers@ == controllers_after_update(*old(self), *input));
            assert(self.number == number_after_mapping(*old(self), *input));
        }
        self.apply_flow(input);
    }

    /// Apply the four display and typing toggles.
    fn apply_toggles(&mut self, input: &Input)
        ensures
            final (self).display_all_controllers == (if pressed(*input, Key::Q) {
                !old(self).display_all_controllers
            } else {
                old(self).display_all_controllers
            }),
            final (self).use_aspect_ratio == (if pressed(*input, Key::W) {
                !old(self).use_aspect_ratio
            } else {
                old(self).use_aspect_ratio
            }),
            final (self).display_analog_as_float == (if pressed(*input, Key::E) {
                !old(self).display_analog_as_float
            } else {
                old(self).display_analog_as_float
            }),
            final (self).touchtype == (if pressed(*input, Key::R) {
                !old(self).touchtype
            } else {
                old(self).touchtype
            }),
            final (self).controllers == old(self).controllers,
            final (self).current_controller == old(self).current_controller,
            final (self).flow == old(self).flow,
            final (self).number == old(self).number,
    {
        // toggle between display all controllers / display selected controller
        if input.key_pressed(Key::Q) {
            self.display_all_controllers = !self.display_all_controllers;
        }
        // toggle render to aspect ratio / stretch to fill
        if input.key_pressed(Key::W) {
            self.use_aspect_ratio = !self.use_aspect_ratio;
        }
        // toggle display float values / byte values for sticks and triggers
        if input.key_pressed(Key::E) {
            self.display_analog_as_float = !self.display_analog_as_float;
        }
        // toggle touch typing mode and one-to-one keybindings
        if input.key_pressed(Key::R) {
            self.touchtype = !self.touchtype;
        }
    }

    /// Apply the function keys' controller selection.
    fn select_controller(&mut self, input: &Input)
        ensures
            final (self).current_controller == select_controller_spec(
                old(self).current_controller,
                old(self).controllers@.len(),
                *input,
            ),
            final (self).controllers == old(self).controllers,
            final (self).display_all_controllers == old(self).display_all_controllers,
            final (self).use_aspect_ratio == old(self).use_aspect_ratio,
            final (self).display_analog_as_float == old(self).display_analog_as_float,
            final (self).touchtype == old(self).touchtype,
            final (self).flow == old(self).flow,
            final (self).number == old(self).number,
    {
        proof {
            reveal(select_controller_spec);
        }
        if input.key_pressed(Key::F1) && self.controllers.len() > 0 {
            self.current_controller = 0;
        } else if input.key_pressed(Key::F2) && self.controllers.len() > 1 {
            self.current_controller = 1;
        } else if input.key_pressed(Key::F3) && self.controllers.len() > 2 {
            self.current_controller = 2;
        } else if input.key_pressed(Key::F4) && self.controllers.len() > 3 {
            self.current_controller = 3;
        } else if input.key_pressed(Key::F5) && self.controllers.len() > 4 {
            self.current_controller = 4;
        } else if input.key_pressed(Key::F6) && self.controllers.len() > 5 {
            self.current_controller = 5;
        } else if input.key_pressed(Key::F7) && self.controllers.len() > 6 {
            self.current_controller = 6;
        } else if input.key_pressed(Key::F8) && self.controllers.len() > 7 {
            self.current_controller = 7;
        } else if input.key_pressed(Key::F9) && self.controllers.len() > 8 {
            self.current_controller = 8;
        } else if input.key_pressed(Key::F10) && self.controllers.len() > 9 {
            self.current_controller = 9;
        } else if input.key_pressed(Key::F11) && self.controllers.len() > 10 {
            self.current_controller = 10;
        } else if input.key_pressed(Key::F12) && self.controllers.len() > 11 {
            self.current_controller = 11;
        }
    }

    /// Apply the bracket keys: drop the last controller or add a fresh
    /// one, within the roster bounds.
    fn resize_controllers(&mut self, input: &Input)
        ensures
            final (self).controllers@ == controllers_bracket_spec(
                old(self).controllers@,
                *input,
            ),
            final (self).current_controller == old(self).current_controller,
            final (self).display_all_controllers == old(self).display_all_controllers,
            final (self).use_aspect_ratio == old(self).use_aspect_ratio,
            final (self).display_analog_as_float == old(self).display_analog_as_float,
            final (self).touchtype == old(self).touchtype,
            final (self).flow == old(self).flow,
            final (self).number == old(self).number,
    {
        proof {
            reveal(controllers_bracket_spec);
        }
        if input.key_pressed(Key::LBracket) {
            if self.controllers.len() > 1 {
                self.controllers.pop();
                proof {
                    assert(self.controllers@ =~= old(self).controllers@.drop_last());
                }
            }
        } else if input.key_pressed(Key::RBracket) {
            if self.controllers.len() < 9 {
                self.controllers.push(Controller::new());
            }
        }
    }

    /// Apply the digit and sign keys to the typed number.
    fn apply_number_keys(&mut self, input: &Input)
        ensures
            final (self).number == number_keys_spec(old(self).number, *input),
            final (self).controllers == old(self).controllers,
            final (self).current_controller == old(self).current_controller,
            final (self).display_all_controllers == old(self).display_all_controllers,
            final (self).use_aspect_ratio == old(self).use_aspect_ratio,
            final (self).display_analog_as_float == old(self).display_analog_as_float,
            final (self).touchtype == old(self).touchtype,
            final (self).flow == old(self).flow,
    {
        proof {
            reveal(number_keys_spec);
        }
        if input.key_pressed(Key::Key0) {
            self.number.input(0);
        } else if input.key_pressed(Key::Key1) {
            self.number.input(1);
        } else if input.key_pressed(Key::Key2) {
            self.number.input(2);
        } else if input.key_pressed(Key::Key3) {
            self.number.input(3);
        } else if input.key_pressed(Key::Key4) {
            self.number.input(4);
        } else if input.key_pressed(Key::Key5) {
            self.number.input(5);
        } else if input.key_pressed(Key::Key6) {
            self.number.input(6);
        } else if input.key_pressed(Key::Key7) {
            self.number.input(7);
        } else if input.key_pressed(Key::Key8) {
            self.number.input(8);
        } else if input.key_pressed(Key::Key9) {
            self.number.input(9);
        } else if input.key_pressed(Key::Subtract) {
            self.number.negative();
        } else if input.key_pressed(Key::Equals) {
            self.number.positive();
        }
    }

    /// Apply the playback flow keys, consuming the typed frame count.
    fn apply_flow(&mut self, input: &Input)
        ensures
            final (self).flow == flow_spec(old(self).flow, old(self).number, *input).0,
            final (self).number == flow_spec(old(self).flow, old(self).number, *input).1,
            final (self).controllers == old(self).controllers,
            final (self).current_controller == old(self).current_controller,
            final (self).display_all_controllers == old(self).display_all_controllers,
            final (self).use_aspect_ratio == old(self).use_aspect_ratio,
            final (self).display_analog_as_float == old(self).display_analog_as_float,
            final (self).touchtype == old(self).touchtype,
    {
        proof {
            reveal(flow_spec);
        }
        if input.key_pressed(Key::Return) {
            self.flow = match self.flow {
                Flow::Play => Flow::Stop,
                _ => Flow::Play,
            };
        } else if input.key_pressed(Key::Space) {
            self.flow = Flow::StepFrames(self.number.pop_frames());
        } else if input.key_pressed(Key::Z) {
            self.flow = Flow::RewindFrames(self.number.pop_frames());
        } else if input.key_pressed(Key::X) {
            self.flow = Flow::ReplayFrames(self.number.pop_frames());
        } else if input.key_pressed(Key::C) {
            self.flow = Flow::Rewind;
        } else if input.key_pressed(Key::V) {
            self.flow = Flow::Replay;
        }
    }

    /// Map every bound key onto the selected controller's elements, in the
    /// order the keys are consulted.
    fn map_controller(input: &Input, controller: &mut Controller, number: &mut NumberInput)
        ensures
            *final (controller) == map_controller_spec(*old(controller), *old(number), *input).0,
            *final (number) == map_controller_spec(*old(controller), *old(number), *input).1,
    {
        proof {
            reveal(map_controller_spec);
        }
        State::map_button(input, Key::Up, &mut controller.up);
        State::map_button(input, Key::Down, &mut controller.down);
        State::map_button(input, Key::Left, &mut controller.left);
        State::map_button(input, Key::Right, &mut controller.right);
        State::map_button(input, Key::A, &mut controller.a);
        State::map_button(input, Key::S, &mut controller.b);
        State::map_button(input, Key::D, &mut controller.x);
        State::map_button(input, Key::F, &mut controller.y);
        State::map_button(input, Key::G, &mut controller.start);
        State::map_button(input, Key::H, &mut controller.z);
        State::map_button(input, Key::J, &mut controller.l);
        State::map_trigger(input, Key::K, &mut controller.l_trigger, number);
        State::map_trigger(input, Key::L, &mut controller.r_trigger, number);
        State::map_button(input, Key::Colon, &mut controller.r);
        State::map_stick(input, Key::Y, &mut controller.stick_x, number);
        State::map_stick(input, Key::U, &mut controller.stick_y, number);
        State::map_stick(input, Key::I, &mut controller.c_stick_x, number);
        State::map_stick(input, Key::O, &mut controller.c_stick_y, number);
    }

    fn map_button(input: &Input, key: Key, button: &mut ElementButton)
        ensures
            *final (button) == map_button_spec(*input, key, *old(button)),
    {
        if input.key_pressed(key) {
            if input.held_shift() {
                button.hold();
            } else {
                button.press();
            }
        }
    }

    fn map_stick(input: &Input, key: Key, button: &mut ElementStick, number: &mut NumberInput)
        ensures
            *final (button) == map_stick_spec(*input, key, *old(button), *old(number)).0,
            *final (number) == map_stick_spec(*input, key, *old(button), *old(number)).1,
    {
        if input.key_pressed(key) {
            if input.held_shift() {
                button.hold(number.pop_stick());
            } else {
                button.press(number.pop_stick());
            }
        }
    }

    fn map_trigger(input: &Input, key: Key, button: &mut ElementTrigger, number: &mut NumberInput)
        ensures
            *final (button) == map_trigger_spec(*input, key, *old(button), *old(number)).0,
            *final (number) == map_trigger_spec(*input, key, *old(button), *old(number)).1,
    {
        if input.key_pressed(key) {
            if input.held_shift() {
                button.hold(number.pop_trigger());
            } else {
                button.press(number.pop_trigger());
            }
        }
    }
}

} // verus!

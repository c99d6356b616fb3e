//! The two controller ports and the keyboard that drives the first gamepad.
//!
//! The console reads a gamepad one button at a time, in a fixed order: each
//! read of a port gives the state of the next button, and after the eighth
//! the order starts again. A write to the first port starts it again at once.

use vstd::prelude::*;

verus! {

/// Address of the first controller port. Writing to it restarts both gamepads.
pub const PORT_ONE: u16 = 0x4016;

/// Address of the second controller port.
pub const PORT_TWO: u16 = 0x4017;

// The "strobe state": the order in which the console reads the buttons.
pub const STROBE_A: u8 = 0;

pub const STROBE_B: u8 = 1;

pub const STROBE_SELECT: u8 = 2;

pub const STROBE_START: u8 = 3;

pub const STROBE_UP: u8 = 4;

pub const STROBE_DOWN: u8 = 5;

pub const STROBE_LEFT: u8 = 6;

pub const STROBE_RIGHT: u8 = 7;

/// A key of the keyboard, as far as the console cares.
#[derive(Debug, Clone, Copy, PartialEq, Eq, Structural)]
pub enum Key {
    Escape,
    LCtrl,
    LShift,
    RShift,
    Space,
    Return,
    Equals,
    Minus,
    Num1,
    Num2,
    Num3,
    Num4,
    A,
    D,
    L,
    M,
    O,
    P,
    Q,
    R,
    S,
    V,
    X,
    Z,
    F9,
    F10,
    Up,
    Down,
    Left,
    Right,
    /// Any key that has no meaning here.
    Other,
}

/// What the window system reported.
#[derive(Debug, Clone, Copy, PartialEq, Eq, Structural)]
pub enum InputEvent {
    /// The user asked to close the window.
    Quit,
    KeyDown(Key),
    KeyUp(Key),
    /// Anything else, a key event without a key among it.
    Other,
}

/// What the caller is to do after an event.
#[derive(Debug, Clone, Copy, PartialEq, Eq, Structural)]
pub enum InputResult {
    Continue,
    Quit,
    Open,
    Menu,
    Reset,
    PowerCycle,
    IncSpeed,
    DecSpeed,
    FastForward(bool),
    SetState(u8),
    Save,
    Load,
    ToggleSound,
    ToggleDebug,
    Screenshot,
    ToggleRecord,
    ToggleFullscreen,
    CycleLogLevel,
}

/// A gamepad as the console sees it: the eight buttons in the order in which
/// they are read (A, B, Select, Start, Up, Down, Left, Right), and the place
/// of the button that the next read gives.
pub struct GamepadView {
    pub buttons: Seq<bool>,
    pub strobe: int,
}

impl GamepadView {
    pub open spec fn wf(self) -> bool {
        &&& self.buttons.len() == 8
        &&& 0 <= self.strobe < 8
    }

    /// No button held, the next read gives A.
    pub open spec fn idle() -> GamepadView {
        GamepadView { buttons: Seq::new(8, |i: int| false), strobe: 0 }
    }

    /// What the next read gives: 1 if the button is held, else 0.
    pub open spec fn bit(self) -> u8 {
        if self.buttons[self.strobe] {
            1
        } else {
            0
        }
    }

    /// The gamepad after one read.
    pub open spec fn advance(self) -> GamepadView {
        GamepadView { strobe: (self.strobe + 1) % 8, ..self }
    }

    /// The gamepad after `n` reads.
    pub open spec fn advance_by(self, n: nat) -> GamepadView
        decreases n,
    {
        if n == 0 {
            self
        } else {
            self.advance().advance_by((n - 1) as nat)
        }
    }

    /// The gamepad with the order of the buttons started again.
    pub open spec fn restart(self) -> GamepadView {
        GamepadView { strobe: 0, ..self }
    }

    /// The gamepad with the button at place `i` held or released.
    pub open spec fn set(self, i: int, down: bool) -> GamepadView {
        GamepadView { buttons: self.buttons.update(i, down), ..self }
    }
}

/// One gamepad.
#[derive(Debug)]
struct Gamepad {
    left: bool,
    right: bool,
    up: bool,
    down: bool,
    a: bool,
    b: bool,
    select: bool,
    start: bool,
    strobe_state: u8,
}

impl View for Gamepad {
    type V = GamepadView;

    closed spec fn view(&self) -> GamepadView {
        GamepadView {
            buttons: seq![
                self.a,
                self.b,
                self.select,
                self.start,
                self.up,
                self.down,
                self.left,
                self.right,
            ],
            strobe: self.strobe_state as int,
        }
    }
}

impl Gamepad {
    #[verifier::type_invariant]
    spec fn in_order(&self) -> bool {
        self.strobe_state < 8
    }

    /// Gives the state of the next button and moves on to the one after it.
    fn next_state(&mut self) -> (bit: u8)
        ensures
            old(self)@.wf(),
            bit == old(self)@.bit(),
            final(self)@ == old(self)@.advance(),
    {
        proof {
            use_type_invariant(&*self);
        }
        let state: bool = if self.strobe_state == STROBE_A {
            self.a
        } else if self.strobe_state == STROBE_B {
            self.b
        } else if self.strobe_state == STROBE_SELECT {
            self.select
        } else if self.strobe_state == STROBE_START {
            self.start
        } else if self.strobe_state == STROBE_UP {
            self.up
        } else if self.strobe_state == STROBE_DOWN {
            self.down
        } else if self.strobe_state == STROBE_LEFT {
            self.left
        } else {
            self.right
        };
        let next: u8 = self.strobe_state + 1;
        assert(next & 7 == next % 8) by (bit_vector);
        self.strobe_state = next & 7;
        if state {
            1
        } else {
            0
        }
    }

    /// Holds or releases the button at place `button` of the order.
    fn set_button(&mut self, button: u8, down: bool)
        requires
            button < 8,
        ensures
            final(self)@ == old(self)@.set(button as int, down),
    {
        proof {
            use_type_invariant(&*self);
        }
        if button == STROBE_A {
            self.a = down;
        } else if button == STROBE_B {
            self.b = down;
        } else if button == STROBE_SELECT {
            self.select = down;
        } else if button == STROBE_START {
            self.start = down;
        } else if button == STROBE_UP {
            self.up = down;
        } else if button == STROBE_DOWN {
            self.down = down;
        } else if button == STROBE_LEFT {
            self.left = down;
        } else {
            self.right = down;
        }
        assert(self@.buttons =~= old(self)@.buttons.update(button as int, down));
    }

    /// Starts the order of the buttons again.
    fn reset(&mut self)
        ensures
            final(self)@ == old(self)@.restart(),
    {
        self.strobe_state = STROBE_A;
    }
}

impl Default for Gamepad {
    /// A gamepad with no button held, about to be read from A on.
    fn default() -> (g: Self)
        ensures
            g@ == GamepadView::idle(),
    {
        let g = Self {
            left: false,
            right: false,
            up: false,
            down: false,
            a: false,
            b: false,
            select: false,
            start: false,
            strobe_state: STROBE_A,
        };
        assert(g@.buttons =~= GamepadView::idle().buttons);
        g
    }
}

/// The controller ports as the console sees them, and what the keyboard
/// handling remembers between events.
pub struct InputView {
    pub gamepad1: GamepadView,
    pub gamepad2: GamepadView,
    /// The turbo key for A is held.
    pub turboa: bool,
    /// The turbo key for B is held.
    pub turbob: bool,
    /// The left control key is held.
    pub lctrl: bool,
    /// The left shift key is held.
    pub lshift: bool,
}

impl InputView {
    pub open spec fn wf(self) -> bool {
        self.gamepad1.wf() && self.gamepad2.wf()
    }

    /// Both gamepads idle and no key held.
    pub open spec fn idle() -> InputView {
        InputView {
            gamepad1: GamepadView::idle(),
            gamepad2: GamepadView::idle(),
            turboa: false,
            turbob: false,
            lctrl: false,
            lshift: false,
        }
    }

    /// What a read of `addr` gives.
    pub open spec fn port_bit(self, addr: u16) -> u8 {
        if addr == PORT_ONE {
            self.gamepad1.bit()
        } else if addr == PORT_TWO {
            self.gamepad2.bit()
        } else {
            0
        }
    }

    /// The state after a read of `addr`: the gamepad of that port moves on to
    /// its next button.
    pub open spec fn after_read(self, addr: u16) -> InputView {
        if addr == PORT_ONE {
            InputView { gamepad1: self.gamepad1.advance(), ..self }
        } else if addr == PORT_TWO {
            InputView { gamepad2: self.gamepad2.advance(), ..self }
        } else {
            self
        }
    }

    /// The state after a write to `addr`: a write to the first port restarts
    /// both gamepads, any other write does nothing.
    pub open spec fn after_write(self, addr: u16) -> InputView {
        if addr == PORT_ONE {
            InputView {
                gamepad1: self.gamepad1.restart(),
                gamepad2: self.gamepad2.restart(),
                ..self
            }
        } else {
            self
        }
    }

    /// The state once the turbo keys have had their turn: while a turbo key
    /// is held, its button follows `turbo`.
    pub open spec fn with_turbo(self, turbo: bool) -> InputView {
        let a = if self.turboa {
            self.gamepad1.set(STROBE_A as int, turbo)
        } else {
            self.gamepad1
        };
        let b = if self.turbob {
            a.set(STROBE_B as int, turbo)
        } else {
            a
        };
        InputView { gamepad1: b, ..self }
    }

    /// The state after a key that is no shortcut went down or up: a key of
    /// the first gamepad sets its button, a turbo key is remembered, any
    /// other key changes nothing.
    pub open spec fn after_gamepad_key(self, key: Key, down: bool) -> InputView {
        match button_of(key) {
            Some(i) => InputView { gamepad1: self.gamepad1.set(i, down), ..self },
            None => match key {
                Key::A => InputView { turboa: down, ..self },
                Key::S => InputView { turbob: down, ..self },
                _ => self,
            },
        }
    }

    /// The state after an event.
    pub open spec fn after_event(self, event: InputEvent) -> InputView {
        match event {
            InputEvent::KeyDown(Key::LCtrl) => InputView { lctrl: true, ..self },
            InputEvent::KeyDown(Key::LShift) => InputView { lshift: true, ..self },
            InputEvent::KeyDown(key) => if shortcut_of(key, self.lctrl) is Some {
                self
            } else {
                self.after_gamepad_key(key, true)
            },
            InputEvent::KeyUp(Key::LCtrl) => InputView { lctrl: false, ..self },
            InputEvent::KeyUp(Key::LShift) => InputView { lshift: false, ..self },
            InputEvent::KeyUp(Key::Space) => self,
            InputEvent::KeyUp(key) => self.after_gamepad_key(key, false),
            _ => self,
        }
    }

    /// What the caller is to do after an event in this state.
    pub open spec fn result_of(self, event: InputEvent) -> InputResult {
        match event {
            InputEvent::Quit => InputResult::Quit,
            InputEvent::KeyDown(key) => match shortcut_of(key, self.lctrl) {
                Some(result) => result,
                None => InputResult::Continue,
            },
            InputEvent::KeyUp(Key::Space) => InputResult::FastForward(false),
            _ => InputResult::Continue,
        }
    }
}

/// The place, in the order in which the console reads them, of the button
/// that a key of the keyboard holds down.
pub open spec fn button_of(key: Key) -> Option<int> {
    match key {
        Key::Z => Some(STROBE_A as int),
        Key::X => Some(STROBE_B as int),
        Key::RShift => Some(STROBE_SELECT as int),
        Key::Return => Some(STROBE_START as int),
        Key::Up => Some(STROBE_UP as int),
        Key::Down => Some(STROBE_DOWN as int),
        Key::Left => Some(STROBE_LEFT as int),
        Key::Right => Some(STROBE_RIGHT as int),
        _ => None,
    }
}

/// What a key asks for when it goes down, with or without the left control
/// key held, if it asks for anything. The control keys themselves and the
/// keys of the gamepad ask for nothing.
pub open spec fn shortcut_of(key: Key, ctrl: bool) -> Option<InputResult> {
    match key {
        Key::Escape => Some(InputResult::Menu),
        Key::Space => Some(InputResult::FastForward(true)),
        Key::F10 => Some(InputResult::Screenshot),
        Key::F9 => Some(InputResult::CycleLogLevel),
        Key::LCtrl | Key::LShift => None,
        _ => if ctrl {
            match key {
                Key::O => Some(InputResult::Open),
                Key::Q => Some(InputResult::Quit),
                Key::R => Some(InputResult::Reset),
                Key::P => Some(InputResult::PowerCycle),
                Key::Equals => Some(InputResult::IncSpeed),
                Key::Minus => Some(InputResult::DecSpeed),
                Key::Num1 => Some(InputResult::SetState(1)),
                Key::Num2 => Some(InputResult::SetState(2)),
                Key::Num3 => Some(InputResult::SetState(3)),
                Key::Num4 => Some(InputResult::SetState(4)),
                Key::S => Some(InputResult::Save),
                Key::L => Some(InputResult::Load),
                Key::M => Some(InputResult::ToggleSound),
                Key::V => Some(InputResult::ToggleRecord),
                Key::D => Some(InputResult::ToggleDebug),
                Key::Return => Some(InputResult::ToggleFullscreen),
                _ => None,
            }
        } else {
            None
        },
    }
}

/// The controller ports of the console, driven by the keyboard.
#[derive(Debug)]
pub struct Input {
    gamepad1: Gamepad,
    gamepad2: Gamepad,
    turboa: bool,
    turbob: bool,
    lctrl: bool,
    lshift: bool,
}

impl View for Input {
    type V = InputView;

    closed spec fn view(&self) -> InputView {
        InputView {
            gamepad1: self.gamepad1@,
            gamepad2: self.gamepad2@,
            turboa: self.turboa,
            turbob: self.turbob,
            lctrl: self.lctrl,
            lshift: self.lshift,
        }
    }
}

impl Default for Input {
    /// Two idle gamepads and no key held.
    fn default() -> (input: Self)
        ensures
            input@ == InputView::idle(),
    {
        Self::new()
    }
}

impl Input {
    /// Two idle gamepads and no key held.
    pub fn new() -> (input: Self)
        ensures
            input@ == InputView::idle(),
    {
        Self {
            gamepad1: Gamepad::default(),
            gamepad2: Gamepad::default(),
            turboa: false,
            turbob: false,
            lctrl: false,
            lshift: false,
        }
    }

    /// Takes one turn of the keyboard: lets the turbo keys act, then handles
    /// `event`, the event that was waiting, if there was one.
    pub fn poll_events(&mut self, turbo: bool, event: Option<InputEvent>) -> (result: InputResult)
        ensures
            old(self)@.wf(),
            final(self)@.wf(),
            final(self)@ == match event {
                Some(e) => old(self)@.with_turbo(turbo).after_event(e),
                None => old(self)@.with_turbo(turbo),
            },
            result == match event {
                Some(e) => old(self)@.with_turbo(turbo).result_of(e),
                None => InputResult::Continue,
            },
    {
        self.apply_turbo(turbo);
        if let Some(event) = event {
            return self.handle_event(event);
        }
        InputResult::Continue
    }

    /// Lets the turbo keys act: while one is held, its button follows `turbo`.
    fn apply_turbo(&mut self, turbo: bool)
        ensures
            old(self)@.wf(),
            final(self)@.wf(),
            final(self)@ == old(self)@.with_turbo(turbo),
    {
        proof {
            use_type_invariant(&self.gamepad1);
            use_type_invariant(&self.gamepad2);
        }
        if self.turboa {
            self.gamepad1.set_button(STROBE_A, self.turboa && turbo);
        }
        if self.turbob {
            self.gamepad1.set_button(STROBE_B, self.turbob && turbo);
        }
    }

    /// Handles one event of the window system: a shortcut is reported to the
    /// caller, a control key is remembered, a key of the gamepad moves its
    /// button.
    pub fn handle_event(&mut self, event: InputEvent) -> (result: InputResult)
        ensures
            old(self)@.wf(),
            final(self)@.wf(),
            final(self)@ == old(self)@.after_event(event),
            result == old(self)@.result_of(event),
    {
        proof {
            use_type_invariant(&self.gamepad1);
            use_type_invariant(&self.gamepad2);
        }
        match event {
            InputEvent::Quit => InputResult::Quit,
            InputEvent::KeyDown(key) => match key {
                Key::Escape => InputResult::Menu,
                Key::LCtrl => {
                    self.lctrl = true;
                    InputResult::Continue
                },
                Key::LShift => {
                    self.lshift = true;
                    InputResult::Continue
                },
                Key::O if self.lctrl => InputResult::Open,
                Key::Q if self.lctrl => InputResult::Quit,
                Key::R if self.lctrl => InputResult::Reset,
                Key::P if self.lctrl => InputResult::PowerCycle,
                Key::Equals if self.lctrl => InputResult::IncSpeed,
                Key::Minus if self.lctrl => InputResult::DecSpeed,
                Key::Space => InputResult::FastForward(true),
                Key::Num1 if self.lctrl => InputResult::SetState(1),
                Key::Num2 if self.lctrl => InputResult::SetState(2),
                Key::Num3 if self.lctrl => InputResult::SetState(3),
                Key::Num4 if self.lctrl => InputResult::SetState(4),
                Key::S if self.lctrl => InputResult::Save,
                Key::L if self.lctrl => InputResult::Load,
                Key::M if self.lctrl => InputResult::ToggleSound,
                Key::V if self.lctrl => InputResult::ToggleRecord,
                Key::D if self.lctrl => InputResult::ToggleDebug,
                Key::Return if self.lctrl => InputResult::ToggleFullscreen,
                Key::F10 => InputResult::Screenshot,
                Key::F9 => InputResult::CycleLogLevel,
                _ => self.handle_gamepad_event(key, true),
            },
            InputEvent::KeyUp(key) => match key {
                Key::LCtrl => {
                    self.lctrl = false;
                    InputResult::Continue
                },
                Key::LShift => {
                    self.lshift = false;
                    InputResult::Continue
                },
                Key::Space => InputResult::FastForward(false),
                _ => self.handle_gamepad_event(key, false),
            },
            _ => InputResult::Continue,
        }
    }

    /// Handles a key that is no shortcut.
    fn handle_gamepad_event(&mut self, key: Key, down: bool) -> (result: InputResult)
        ensures
            old(self)@.wf(),
            final(self)@.wf(),
            final(self)@ == old(self)@.after_gamepad_key(key, down),
            result == InputResult::Continue,
    {
        proof {
            use_type_invariant(&self.gamepad1);
            use_type_invariant(&self.gamepad2);
        }
        match key {
            Key::Z => self.gamepad1.set_button(STROBE_A, down),
            Key::X => self.gamepad1.set_button(STROBE_B, down),
            Key::A => self.turboa = down,
            Key::S => self.turbob = down,
            Key::RShift => self.gamepad1.set_button(STROBE_SELECT, down),
            Key::Return => self.gamepad1.set_button(STROBE_START, down),
            Key::Up => self.gamepad1.set_button(STROBE_UP, down),
            Key::Down => self.gamepad1.set_button(STROBE_DOWN, down),
            Key::Left => self.gamepad1.set_button(STROBE_LEFT, down),
            Key::Right => self.gamepad1.set_button(STROBE_RIGHT, down),
            _ => {},
        }
        InputResult::Continue
    }

    /// Reads a byte from a port: the next button of the port's gamepad, 1 for
    /// held and 0 for released. Any other address reads as 0.
    pub fn readb(&mut self, addr: u16) -> (bit: u8)
        ensures
            old(self)@.wf(),
            final(self)@.wf(),
            bit == old(self)@.port_bit(addr),
            final(self)@ == old(self)@.after_read(addr),
    {
        proof {
            use_type_invariant(&self.gamepad1);
            use_type_invariant(&self.gamepad2);
        }
        if addr == PORT_ONE {
            self.gamepad1.next_state()
        } else if addr == PORT_TWO {
            self.gamepad2.next_state()
        } else {
            0
        }
    }

    /// Writes a byte to a port. The byte is not looked at: any write to the
    /// first port restarts both gamepads.
    pub fn writeb(&mut self, addr: u16, _val: u8)
        ensures
            final(self)@ == old(self)@.after_write(addr),
    {
        if addr == PORT_ONE {
            self.gamepad1.reset();
            self.gamepad2.reset();
        }
    }
}

/// The console reads the buttons in a fixed order that starts again after
/// the eighth: `n` reads move a gamepad `n` places on, counted round the
/// eight, and leave the buttons as they are.
pub proof fn law_strobe_order(g: GamepadView, n: nat)
    requires
        g.wf(),
    ensures
        g.advance_by(n).wf(),
        g.advance_by(n).strobe == (g.strobe + n) % 8,
        g.advance_by(n).buttons == g.buttons,
        g.advance_by(n).bit() == (if g.buttons[(g.strobe + n) % 8] {
            1u8
        } else {
            0u8
        }),
    decreases n,
{
    if n > 0 {
        law_strobe_order(g.advance(), (n - 1) as nat);
    }
}

/// Eight reads bring a gamepad back to where it was, and after a restart the
/// `k`-th read, counted from 0, gives the `k`-th button of the order.
pub proof fn law_strobe_wraps(g: GamepadView, k: nat)
    requires
        g.wf(),
        k < 8,
    ensures
        g.advance_by(8) == g,
        g.restart().advance_by(k).bit() == (if g.buttons[k as int] {
            1u8
        } else {
            0u8
        }),
        g.restart().advance_by(8) == g.restart(),
{
    law_strobe_order(g, 8);
    law_strobe_order(g.restart(), k);
    law_strobe_order(g.restart(), 8);
}

} // verus!

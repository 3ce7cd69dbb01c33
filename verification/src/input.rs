//! Conversion of window events into the input of the toolkit.
//!
//! The adapter keeps what the toolkit wants to know at the start of a frame:
//! the size of the window, the scale, where the pointer is, which modifier
//! keys are down, and the input events since the last frame.

use vstd::prelude::*;
use crate::scale::Scale;

verus! {

/// A position in layout units.
#[derive(Clone, Copy, Debug, PartialEq, Eq, Structural)]
pub struct Point {
    pub x: i64,
    pub y: i64,
}

/// Which modifier keys are held down.
#[derive(Clone, Copy, Debug, PartialEq, Eq, Structural)]
pub struct Modifiers {
    pub alt: bool,
    pub ctrl: bool,
    pub shift: bool,
    pub logo: bool,
}

/// A button of the pointing device.
#[derive(Clone, Copy, Debug, PartialEq, Eq, Structural)]
pub enum PointerButton {
    Primary,
    Secondary,
    Middle,
}

/// A key that the toolkit knows by name.  Digits count from 0 to 9, letters
/// from 0 for `A` to 25 for `Z`.
#[derive(Clone, Copy, Debug, PartialEq, Eq, Structural)]
pub enum Key {
    ArrowDown,
    ArrowLeft,
    ArrowRight,
    ArrowUp,
    Escape,
    Tab,
    Backspace,
    Enter,
    Space,
    Insert,
    Delete,
    Home,
    End,
    PageUp,
    PageDown,
    Digit(u8),
    Letter(u8),
}

/// An event of the window system, with positions in physical pixels.
#[derive(Clone, Copy, Debug, PartialEq, Eq)]
pub enum PlatformEvent {
    /// The window has a new size.
    Resized { width: u32, height: u32 },
    /// The window has a new scale, and with it a new size.
    ScaleFactorChanged { scale: Scale, width: u32, height: u32 },
    /// The pointer moved to a position within the window.
    CursorMoved { x: i32, y: i32 },
    /// The pointer left the window.
    CursorLeft,
    /// A pointer button went down or up.
    MouseInput { button: PointerButton, pressed: bool },
    /// The wheel turned by so many pixels.
    MouseWheel { dx: i32, dy: i32 },
    /// Other modifier keys are held down now.
    ModifiersChanged { modifiers: Modifiers },
    /// A named key went down or up.
    KeyboardInput { key: Key, pressed: bool },
    /// The keyboard produced a character.
    ReceivedCharacter { character: char },
    /// The user asked to close the window.
    CloseRequested,
    /// The window wants to be drawn again.
    RedrawRequested,
}

/// An input event as the toolkit takes it, with positions in layout units.
#[derive(Clone, Copy, Debug, PartialEq, Eq, Structural)]
pub enum UiEvent {
    PointerMoved { pos: Point },
    PointerGone,
    PointerButton { pos: Point, button: PointerButton, pressed: bool, modifiers: Modifiers },
    Scroll { dx: i64, dy: i64 },
    Key { key: Key, pressed: bool, modifiers: Modifiers },
    Text { character: char },
}

/// What the adapter holds, as a mathematical value.
pub ghost struct InputState {
    pub size: [u32; 2],
    pub scale: Scale,
    pub pointer: Point,
    pub modifiers: Modifiers,
    pub events: Seq<UiEvent>,
}

/// The state of an adapter that has seen no event: the pointer at the
/// origin, no modifier held and no event pending.
pub open spec fn initial_input(size: [u32; 2], scale: Scale) -> InputState {
    InputState {
        size,
        scale,
        pointer: Point { x: 0, y: 0 },
        modifiers: Modifiers { alt: false, ctrl: false, shift: false, logo: false },
        events: Seq::empty(),
    }
}

/// Whether a character is text to type: no control character, none of the
/// private-use characters that some platforms send for function keys, and
/// typed without the control or logo key.
pub open spec fn is_text(character: char, modifiers: Modifiers) -> bool {
    let code = character as u32;
    &&& code >= 0x20
    &&& code != 0x7f
    &&& !(0xe000 <= code <= 0xf8ff)
    &&& !modifiers.ctrl
    &&& !modifiers.logo
}

/// The layout position of a physical position, axis by axis.
pub open spec fn to_point(scale: Scale, x: int, y: int) -> Point {
    Point { x: scale.to_units(x) as i64, y: scale.to_units(y) as i64 }
}

/// The state after one window event.
///
/// Size and scale changes, pointer movement and modifier changes update what
/// the adapter remembers.  Pointer, wheel, key and character events add one
/// input event each, with the pointer position and the modifiers as they are
/// then.  Events that the toolkit has no notion of change nothing.
pub open spec fn after_event(state: InputState, event: PlatformEvent) -> InputState {
    match event {
        PlatformEvent::Resized { width, height } => InputState { size: [width, height], ..state },
        PlatformEvent::ScaleFactorChanged { scale, width, height } => InputState {
            size: [width, height],
            scale,
            ..state
        },
        PlatformEvent::CursorMoved { x, y } => {
            let pos = to_point(state.scale, x as int, y as int);
            InputState {
                pointer: pos,
                events: state.events.push(UiEvent::PointerMoved { pos }),
                ..state
            }
        },
        PlatformEvent::CursorLeft => InputState {
            events: state.events.push(UiEvent::PointerGone),
            ..state
        },
        PlatformEvent::MouseInput { button, pressed } => InputState {
            events: state.events.push(
                UiEvent::PointerButton {
                    pos: state.pointer,
                    button,
                    pressed,
                    modifiers: state.modifiers,
                },
            ),
            ..state
        },
        PlatformEvent::MouseWheel { dx, dy } => {
            let by = to_point(state.scale, dx as int, dy as int);
            InputState { events: state.events.push(UiEvent::Scroll { dx: by.x, dy: by.y }), ..state }
        },
        PlatformEvent::ModifiersChanged { modifiers } => InputState { modifiers, ..state },
        PlatformEvent::KeyboardInput { key, pressed } => InputState {
            events: state.events.push(UiEvent::Key { key, pressed, modifiers: state.modifiers }),
            ..state
        },
        PlatformEvent::ReceivedCharacter { character } => if is_text(character, state.modifiers) {
            InputState { events: state.events.push(UiEvent::Text { character }), ..state }
        } else {
            state
        },
        PlatformEvent::CloseRequested => state,
        PlatformEvent::RedrawRequested => state,
    }
}

/// The input that the toolkit takes at the start of a frame.
#[derive(Clone, Debug, PartialEq, Eq)]
pub struct RawInput {
    /// Width of the screen in layout units.
    pub screen_width: u64,
    /// Height of the screen in layout units.
    pub screen_height: u64,
    pub scale: Scale,
    /// Where the pointer was last seen.
    pub pointer: Point,
    pub modifiers: Modifiers,
    /// The input events since the last frame, oldest first.
    pub events: Vec<UiEvent>,
}

impl RawInput {
    /// Whether this is the snapshot of `state`: the size of the window in
    /// layout units, the scale, the pointer position, the modifiers and all
    /// pending events.
    pub open spec fn is_snapshot_of(self, state: InputState) -> bool {
        &&& self.screen_width == state.scale.to_units(state.size[0] as int)
        &&& self.screen_height == state.scale.to_units(state.size[1] as int)
        &&& self.scale == state.scale
        &&& self.pointer == state.pointer
        &&& self.modifiers == state.modifiers
        &&& self.events@ == state.events
    }
}

/// Follows the window's events between frames.
pub struct InputAdapter {
    size: [u32; 2],
    scale: Scale,
    pointer: Point,
    modifiers: Modifiers,
    events: Vec<UiEvent>,
}

impl View for InputAdapter {
    type V = InputState;

    closed spec fn view(&self) -> InputState {
        InputState {
            size: self.size,
            scale: self.scale,
            pointer: self.pointer,
            modifiers: self.modifiers,
            events: self.events@,
        }
    }
}

impl InputAdapter {
    /// An adapter for a window of `size` physical pixels at `scale`, with
    /// the pointer at the origin, no modifier held and no event pending.
    pub fn new(size: [u32; 2], scale: Scale) -> (adapter: InputAdapter)
        ensures
            adapter@ == initial_input(size, scale),
    {
        InputAdapter {
            size,
            scale,
            pointer: Point { x: 0, y: 0 },
            modifiers: Modifiers { alt: false, ctrl: false, shift: false, logo: false },
            events: Vec::new(),
        }
    }

    /// The layout position of a physical position.
    fn to_layout(&self, x: i32, y: i32) -> (pos: Point)
        ensures
            pos == to_point(self@.scale, x as int, y as int),
    {
        Point { x: self.scale.position_to_units(x), y: self.scale.position_to_units(y) }
    }

    /// Takes in one window event.
    pub fn handle_event(&mut self, event: &PlatformEvent)
        ensures
            final(self)@ == after_event(old(self)@, *event),
    {
        match *event {
            PlatformEvent::Resized { width, height } => {
                self.size = [width, height];
            },
            PlatformEvent::ScaleFactorChanged { scale, width, height } => {
                self.scale = scale;
                self.size = [width, height];
            },
            PlatformEvent::CursorMoved { x, y } => {
                let pos = self.to_layout(x, y);
                self.pointer = pos;
                self.events.push(UiEvent::PointerMoved { pos });
            },
            PlatformEvent::CursorLeft => {
                self.events.push(UiEvent::PointerGone);
            },
            PlatformEvent::MouseInput { button, pressed } => {
                self.events.push(
                    UiEvent::PointerButton {
                        pos: self.pointer,
                        button,
                        pressed,
                        modifiers: self.modifiers,
                    },
                );
            },
            PlatformEvent::MouseWheel { dx, dy } => {
                let by = self.to_layout(dx, dy);
                self.events.push(UiEvent::Scroll { dx: by.x, dy: by.y });
            },
            PlatformEvent::ModifiersChanged { modifiers } => {
                self.modifiers = modifiers;
            },
            PlatformEvent::KeyboardInput { key, pressed } => {
                self.events.push(UiEvent::Key { key, pressed, modifiers: self.modifiers });
            },
            PlatformEvent::ReceivedCharacter { character } => {
                let code: u32 = character as u32;
                if code >= 0x20 && code != 0x7f && !(0xe000 <= code && code <= 0xf8ff)
                    && !self.modifiers.ctrl && !self.modifiers.logo {
                    self.events.push(UiEvent::Text { character });
                }
            },
            PlatformEvent::CloseRequested => {},
            PlatformEvent::RedrawRequested => {},
        }
    }

    /// Hands out the input for a new frame and forgets the pending events.
    pub fn take_input(&mut self) -> (raw: RawInput)
        ensures
            raw.is_snapshot_of(old(self)@),
            final(self)@ == (InputState { events: Seq::empty(), ..old(self)@ }),
    {
        let mut events: Vec<UiEvent> = Vec::new();
        std::mem::swap(&mut events, &mut self.events);
        RawInput {
            screen_width: self.scale.extent_to_units(self.size[0]),
            screen_height: self.scale.extent_to_units(self.size[1]),
            scale: self.scale,
            pointer: self.pointer,
            modifiers: self.modifiers,
            events,
        }
    }

    /// The size of the window in physical pixels.
    pub fn size(&self) -> (r: [u32; 2])
        ensures
            r == self@.size,
    {
        self.size
    }

    /// The scale of the window.
    pub fn scale(&self) -> (r: Scale)
        ensures
            r == self@.scale,
    {
        self.scale
    }

    /// Where the pointer was last seen, in layout units.
    pub fn pointer(&self) -> (r: Point)
        ensures
            r == self@.pointer,
    {
        self.pointer
    }

    /// The modifier keys that are held down.
    pub fn modifiers(&self) -> (r: Modifiers)
        ensures
            r == self@.modifiers,
    {
        self.modifiers
    }

    /// How many input events wait for the next frame.
    pub fn pending_events(&self) -> (r: usize)
        ensures
            r == self@.events.len(),
    {
        self.events.len()
    }
}

} // verus!

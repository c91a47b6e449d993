//! The normalized event vocabulary shared by both backends, together with
//! the total translations from raw input payloads (numeric key and button
//! codes, modifier flags) into that vocabulary.

use vstd::prelude::*;

verus! {

/// Identity of the input device an event came from. The event model has a
/// single implicit input device, so this is a placeholder singleton.
#[derive(Clone, Copy, PartialEq, Eq, Structural, Debug)]
pub struct DeviceId;

/// Whether a key or button went down or up.
#[derive(Clone, Copy, PartialEq, Eq, Structural, Debug)]
pub enum ElementState {
    Pressed,
    Released,
}

/// The modifier keys held while an input event fired.
#[derive(Clone, Copy, PartialEq, Eq, Structural, Debug)]
pub struct ModifiersState {
    pub shift: bool,
    pub ctrl: bool,
    pub alt: bool,
    pub logo: bool,
}

impl ModifiersState {
    /// The modifier set with every flag cleared.
    pub open spec fn none_spec() -> ModifiersState {
        ModifiersState { shift: false, ctrl: false, alt: false, logo: false }
    }
}

impl core::default::Default for ModifiersState {
    /// No modifier held.
    fn default() -> (modifiers: ModifiersState)
        ensures
            modifiers == ModifiersState::none_spec(),
    {
        ModifiersState { shift: false, ctrl: false, alt: false, logo: false }
    }
}

/// The key a keyboard event names, independent of the backend's own key
/// representation. Codes that the translation does not know map to
/// `Unknown` rather than failing, so translation is total.
#[derive(Clone, Copy, PartialEq, Eq, Structural, Debug)]
pub enum VirtualKeyCode {
    Key0,
    Key1,
    Key2,
    Key3,
    Key4,
    Key5,
    Key6,
    Key7,
    Key8,
    Key9,
    A,
    B,
    C,
    D,
    E,
    F,
    G,
    H,
    I,
    J,
    K,
    L,
    M,
    N,
    O,
    P,
    Q,
    R,
    S,
    T,
    U,
    V,
    W,
    X,
    Y,
    Z,
    Back,
    Tab,
    Return,
    Escape,
    Space,
    Left,
    Up,
    Right,
    Down,
    LShift,
    LControl,
    LAlt,
    Unknown,
}

/// The keycode a numeric key code translates to: the common key codes the
/// host reports, everything else `Unknown`.
pub open spec fn key_code_translation(code: u32) -> VirtualKeyCode {
    match code {
        8u32 => VirtualKeyCode::Back,
        9u32 => VirtualKeyCode::Tab,
        13u32 => VirtualKeyCode::Return,
        16u32 => VirtualKeyCode::LShift,
        17u32 => VirtualKeyCode::LControl,
        18u32 => VirtualKeyCode::LAlt,
        27u32 => VirtualKeyCode::Escape,
        32u32 => VirtualKeyCode::Space,
        37u32 => VirtualKeyCode::Left,
        38u32 => VirtualKeyCode::Up,
        39u32 => VirtualKeyCode::Right,
        40u32 => VirtualKeyCode::Down,
        48u32 => VirtualKeyCode::Key0,
        49u32 => VirtualKeyCode::Key1,
        50u32 => VirtualKeyCode::Key2,
        51u32 => VirtualKeyCode::Key3,
        52u32 => VirtualKeyCode::Key4,
        53u32 => VirtualKeyCode::Key5,
        54u32 => VirtualKeyCode::Key6,
        55u32 => VirtualKeyCode::Key7,
        56u32 => VirtualKeyCode::Key8,
        57u32 => VirtualKeyCode::Key9,
        65u32 => VirtualKeyCode::A,
        66u32 => VirtualKeyCode::B,
        67u32 => VirtualKeyCode::C,
        68u32 => VirtualKeyCode::D,
        69u32 => VirtualKeyCode::E,
        70u32 => VirtualKeyCode::F,
        71u32 => VirtualKeyCode::G,
        72u32 => VirtualKeyCode::H,
        73u32 => VirtualKeyCode::I,
        74u32 => VirtualKeyCode::J,
        75u32 => VirtualKeyCode::K,
        76u32 => VirtualKeyCode::L,
        77u32 => VirtualKeyCode::M,
        78u32 => VirtualKeyCode::N,
        79u32 => VirtualKeyCode::O,
        80u32 => VirtualKeyCode::P,
        81u32 => VirtualKeyCode::Q,
        82u32 => VirtualKeyCode::R,
        83u32 => VirtualKeyCode::S,
        84u32 => VirtualKeyCode::T,
        85u32 => VirtualKeyCode::U,
        86u32 => VirtualKeyCode::V,
        87u32 => VirtualKeyCode::W,
        88u32 => VirtualKeyCode::X,
        89u32 => VirtualKeyCode::Y,
        90u32 => VirtualKeyCode::Z,
        _ => VirtualKeyCode::Unknown,
    }
}

impl VirtualKeyCode {
    /// Translates a numeric key code as the host reports it. Total: codes
    /// outside the known set come back as `Unknown`, never an error.
    pub fn from_key_code(code: u32) -> (keycode: VirtualKeyCode)
        ensures
            keycode == key_code_translation(code),
    {
        match code {
            8u32 => VirtualKeyCode::Back,
            9u32 => VirtualKeyCode::Tab,
            13u32 => VirtualKeyCode::Return,
            16u32 => VirtualKeyCode::LShift,
            17u32 => VirtualKeyCode::LControl,
            18u32 => VirtualKeyCode::LAlt,
            27u32 => VirtualKeyCode::Escape,
            32u32 => VirtualKeyCode::Space,
            37u32 => VirtualKeyCode::Left,
            38u32 => VirtualKeyCode::Up,
            39u32 => VirtualKeyCode::Right,
            40u32 => VirtualKeyCode::Down,
            48u32 => VirtualKeyCode::Key0,
            49u32 => VirtualKeyCode::Key1,
            50u32 => VirtualKeyCode::Key2,
            51u32 => VirtualKeyCode::Key3,
            52u32 => VirtualKeyCode::Key4,
            53u32 => VirtualKeyCode::Key5,
            54u32 => VirtualKeyCode::Key6,
            55u32 => VirtualKeyCode::Key7,
            56u32 => VirtualKeyCode::Key8,
            57u32 => VirtualKeyCode::Key9,
            65u32 => VirtualKeyCode::A,
            66u32 => VirtualKeyCode::B,
            67u32 => VirtualKeyCode::C,
            68u32 => VirtualKeyCode::D,
            69u32 => VirtualKeyCode::E,
            70u32 => VirtualKeyCode::F,
            71u32 => VirtualKeyCode::G,
            72u32 => VirtualKeyCode::H,
            73u32 => VirtualKeyCode::I,
            74u32 => VirtualKeyCode::J,
            75u32 => VirtualKeyCode::K,
            76u32 => VirtualKeyCode::L,
            77u32 => VirtualKeyCode::M,
            78u32 => VirtualKeyCode::N,
            79u32 => VirtualKeyCode::O,
            80u32 => VirtualKeyCode::P,
            81u32 => VirtualKeyCode::Q,
            82u32 => VirtualKeyCode::R,
            83u32 => VirtualKeyCode::S,
            84u32 => VirtualKeyCode::T,
            85u32 => VirtualKeyCode::U,
            86u32 => VirtualKeyCode::V,
            87u32 => VirtualKeyCode::W,
            88u32 => VirtualKeyCode::X,
            89u32 => VirtualKeyCode::Y,
            90u32 => VirtualKeyCode::Z,
            _ => VirtualKeyCode::Unknown,
        }
    }
}

/// The button a mouse event names. Buttons beyond the three standard ones
/// keep their raw code under `Other`, so translation never fails.
#[derive(Clone, Copy, PartialEq, Eq, Structural, Debug)]
pub enum MouseButton {
    Left,
    Middle,
    Right,
    Other(i16),
}

/// The button a numeric button code translates to.
pub open spec fn mouse_button_translation(code: i16) -> MouseButton {
    match code {
        0i16 => MouseButton::Left,
        1i16 => MouseButton::Middle,
        2i16 => MouseButton::Right,
        _ => MouseButton::Other(code),
    }
}

impl MouseButton {
    /// Translates a numeric mouse button code as the host reports it.
    /// Total: unmapped codes come back as `Other(code)`, never an error.
    pub fn from_mouse_button(code: i16) -> (button: MouseButton)
        ensures
            button == mouse_button_translation(code),
    {
        match code {
            0i16 => MouseButton::Left,
            1i16 => MouseButton::Middle,
            2i16 => MouseButton::Right,
            _ => MouseButton::Other(code),
        }
    }
}

/// One normalized keyboard payload: raw scancode, key direction, the
/// translated keycode, and the modifier set held at the time.
#[derive(Clone, Copy, PartialEq, Eq, Structural, Debug)]
pub struct KeyboardInput {
    pub scancode: u32,
    pub state: ElementState,
    pub virtual_keycode: VirtualKeyCode,
    pub modifiers: ModifiersState,
}

impl KeyboardInput {
    /// Normalizes a host keyboard event from its plain payload: the numeric
    /// key code and the modifier flags the host reported, and the key
    /// direction the listener observed. The scancode is not reported by the
    /// browser host and stays zero; the logo modifier is never reported.
    pub fn from_keyboard_event(
        key_code: u32,
        shift: bool,
        ctrl: bool,
        alt: bool,
        state: ElementState,
    ) -> (input: KeyboardInput)
        ensures
            input == (KeyboardInput {
                scancode: 0u32,
                state,
                virtual_keycode: key_code_translation(key_code),
                modifiers: ModifiersState { shift, ctrl, alt, logo: false },
            }),
    {
        KeyboardInput {
            scancode: 0,
            state,
            virtual_keycode: VirtualKeyCode::from_key_code(key_code),
            modifiers: ModifiersState { shift, ctrl, alt, logo: false },
        }
    }
}

/// A pointer position in whole pixels, relative to the drawable surface's
/// upper-left corner.
#[derive(Clone, Copy, PartialEq, Eq, Structural, Debug)]
pub struct CursorPosition {
    pub x: i32,
    pub y: i32,
}

/// One normalized input or window event, the single vocabulary both
/// backends feed into the per-frame batch.
#[derive(Clone, Copy, PartialEq, Eq, Structural, Debug)]
pub enum Event {
    /// The host asked to close the window.
    Closed,
    /// The drawable surface took a new size, in pixels.
    Resized(u32, u32),
    /// A key went down or up.
    KeyboardInput { device: DeviceId, input: KeyboardInput },
    /// A mouse button went down or up.
    MouseInput { device: DeviceId, state: ElementState, button: MouseButton, modifiers: ModifiersState },
    /// The pointer moved to a new position.
    CursorMoved { device: DeviceId, position: CursorPosition, modifiers: ModifiersState },
}

} // verus!

//! The abstract events delivered to a window's caller.

use vstd::prelude::*;

verus! {

/// Why a close request was delivered.
#[derive(Clone, Copy, Debug, PartialEq, Eq, Structural)]
pub enum CloseReason {
    /// The window manager's close affordance (system menu, title-bar button)
    /// was used.
    SystemMenu,
}

/// An abstract key code, resolved from the platform's own symbol table.
#[derive(Clone, Copy, Debug, PartialEq, Eq, Structural)]
pub enum Key {
    A,
    B,
    C,
    D,
    E,
    F,
    G,
    H,
    I,
    J,
    K,
    L,
    M,
    N,
    O,
    P,
    Q,
    R,
    S,
    T,
    U,
    V,
    W,
    X,
    Y,
    Z,
    Alpha0,
    Alpha1,
    Alpha2,
    Alpha3,
    Alpha4,
    Alpha5,
    Alpha6,
    Alpha7,
    Alpha8,
    Alpha9,
    OemComma,
    OemMinus,
    OemPeriod,
    OemPlus,
    Backspace,
    Tab,
    Return,
    Pause,
    ScrollLock,
    Escape,
    Home,
    LeftArrow,
    UpArrow,
    RightArrow,
    DownArrow,
    PageUp,
    PageDown,
    End,
    Insert,
    NumLock,
    F1,
    F2,
    F3,
    F4,
    F5,
    F6,
    F7,
    F8,
    F9,
    F10,
    F11,
    F12,
    F13,
    F14,
    F15,
    F16,
    F17,
    F18,
    F19,
    F20,
    F21,
    F22,
    F23,
    F24,
    LeftShift,
    RightShift,
    LeftControl,
    RightControl,
    CapsLock,
    LeftAlt,
    LeftSuper,
    RightSuper,
    Delete,
    KeypadMultiply,
    KeypadAdd,
    KeypadSeparator,
    KeypadSubtract,
    KeypadDecimal,
    KeypadDivide,
    Keypad0,
    Keypad1,
    Keypad2,
    Keypad3,
    Keypad4,
    Keypad5,
    Keypad6,
    Keypad7,
    Keypad8,
    Keypad9,
}

/// One windowing-system event, immutable once produced. Ownership transfers
/// into whichever buffer it is routed to.
#[derive(Clone, Copy, Debug, PartialEq, Eq, Structural)]
pub enum Event {
    /// The window was asked to close.
    CloseRequest(CloseReason),
    /// A key went down.
    KeyboardDown(Key),
    /// A held key repeated.
    KeyboardRepeat(Key),
    /// A key was released.
    KeyboardUp(Key),
    /// The window gained (`true`) or lost (`false`) keyboard focus.
    Focus(bool),
}

} // verus!

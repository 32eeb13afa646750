//! Platform-independent identity of a physical key.
//!
//! A `Keycode` is interned by value: two codes are the same key exactly when
//! they are the same variant. The poller samples the keys currently held into
//! a plain list, and commands store the chord they require as a list of codes.

use vstd::prelude::*;

verus! {

/// A physical key, named independently of any platform's scan codes.
#[derive(Clone, Copy, Debug, PartialEq, Eq, Hash, Structural)]
pub enum Keycode {
    Key0,
    Key1,
    Key2,
    Key3,
    Key4,
    Key5,
    Key6,
    Key7,
    Key8,
    Key9,
    A,
    B,
    C,
    D,
    E,
    F,
    G,
    H,
    I,
    J,
    K,
    L,
    M,
    N,
    O,
    P,
    Q,
    R,
    S,
    T,
    U,
    V,
    W,
    X,
    Y,
    Z,
    Escape,
    Space,
    Enter,
    Backspace,
    Tab,
    Up,
    Down,
    Left,
    Right,
    LControl,
    RControl,
    LShift,
    RShift,
    LAlt,
    RAlt,
    Meta,
}

} // verus!

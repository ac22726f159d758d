//! Opaque types behind the native handles: a handle is a pointer to one of
//! these. The native layer owns what it points to; no such pointer is ever
//! dereferenced on this side, and the single variant is never constructed.

use vstd::prelude::*;

verus! {

/// What a brush handle points to.
pub enum HBRUSH__ {
    Opaque,
}

/// What a hook handle points to.
pub enum HHOOK__ {
    Opaque,
}

/// What an icon (and cursor) handle points to.
pub enum HICON__ {
    Opaque,
}

/// What a module instance handle points to.
pub enum HINSTANCE__ {
    Opaque,
}

/// What a menu handle points to.
pub enum HMENU__ {
    Opaque,
}

/// What a window handle points to.
pub enum HWND__ {
    Opaque,
}

} // verus!

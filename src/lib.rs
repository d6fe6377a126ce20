//! Portable keyboard data model, and the decisions of an interceptor that stands in front of a
//! native runtime's event dispatch to synthesize device events.

pub mod dispatch;
pub mod keyboard;

pub use dispatch::{
    DeviceEventKind, ElementState, EventRoute, Interceptor, NativeEventClass,
};
pub use keyboard::{
    Key, KeyLocation, ModifiersKeyState, ModifiersKeys, ModifiersState, NativeKey, NativeKeyCode,
    PhysicalKey,
};

//! Decisions of the interceptor that stands in front of the native runtime's event dispatch.
//!
//! The native runtime hands every event to one dispatch entry point. The interceptor replaces
//! that entry point with a wrapper, keeps the displaced one, and for each event decides whether
//! to redirect it to the focused window, whether to synthesize a device event from it, and
//! whether to forward it to the displaced entry point. Events are described here by the plain
//! values that the native runtime reports: a type tag, modifier flags and a button number.

use vstd::prelude::*;

verus! {

/// Native event type tag of a left mouse button press.
pub const EVENT_LEFT_MOUSE_DOWN: usize = 1;
/// Native event type tag of a left mouse button release.
pub const EVENT_LEFT_MOUSE_UP: usize = 2;
/// Native event type tag of a right mouse button press.
pub const EVENT_RIGHT_MOUSE_DOWN: usize = 3;
/// Native event type tag of a right mouse button release.
pub const EVENT_RIGHT_MOUSE_UP: usize = 4;
/// Native event type tag of a pointer motion with no button held.
pub const EVENT_MOUSE_MOVED: usize = 5;
/// Native event type tag of a pointer motion with the left button held.
pub const EVENT_LEFT_MOUSE_DRAGGED: usize = 6;
/// Native event type tag of a pointer motion with the right button held.
pub const EVENT_RIGHT_MOUSE_DRAGGED: usize = 7;
/// Native event type tag of a key release.
pub const EVENT_KEY_UP: usize = 11;
/// Native event type tag of a press of another mouse button.
pub const EVENT_OTHER_MOUSE_DOWN: usize = 25;
/// Native event type tag of a release of another mouse button.
pub const EVENT_OTHER_MOUSE_UP: usize = 26;
/// Native event type tag of a pointer motion with another button held.
pub const EVENT_OTHER_MOUSE_DRAGGED: usize = 27;

/// Native modifier flag of the "meta" (command) key.
pub const MODIFIER_FLAG_COMMAND: usize = 0x10_0000;

/// Whether a button is pressed or released.
#[derive(Clone, Copy, Debug, PartialEq, Eq, Structural, Hash)]
pub enum ElementState {
    Pressed,
    Released,
}

/// What a native event is, as far as device events are concerned.
#[derive(Clone, Copy, Debug, PartialEq, Eq, Structural, Hash)]
pub enum NativeEventClass {
    /// The pointer moved; its deltas are read from the event.
    PointerMotion,
    /// A mouse button was pressed.
    ButtonPressed,
    /// A mouse button was released.
    ButtonReleased,
    /// Any other event: no device event comes of it.
    NotApplicable,
}

/// A device event synthesized from a native event.
///
/// The motion deltas are not part of it: they are read from the native event and attached to
/// the delivered event by the caller.
#[derive(Clone, Copy, Debug, PartialEq, Eq, Structural, Hash)]
pub enum DeviceEventKind {
    /// Raw pointer motion.
    PointerMotion,
    /// A raw button state change; the button number is the platform's own.
    Button { button: u32, state: ElementState },
}

/// What the interceptor does with one event.
#[derive(Clone, Copy, Debug, PartialEq, Eq, Structural, Hash)]
pub enum EventRoute {
    /// Hand the event to the focused window's own handling and do nothing else with it.
    KeyWindow,
    /// Synthesize a device event from it if its class gives one, then forward it to the
    /// displaced entry point.
    Forward(NativeEventClass),
}

/// The class of a native event type tag.
pub open spec fn event_class(event_type: usize) -> NativeEventClass {
    if event_type == EVENT_MOUSE_MOVED || event_type == EVENT_LEFT_MOUSE_DRAGGED
        || event_type == EVENT_OTHER_MOUSE_DRAGGED || event_type == EVENT_RIGHT_MOUSE_DRAGGED {
        NativeEventClass::PointerMotion
    } else if event_type == EVENT_LEFT_MOUSE_DOWN || event_type == EVENT_RIGHT_MOUSE_DOWN
        || event_type == EVENT_OTHER_MOUSE_DOWN {
        NativeEventClass::ButtonPressed
    } else if event_type == EVENT_LEFT_MOUSE_UP || event_type == EVENT_RIGHT_MOUSE_UP
        || event_type == EVENT_OTHER_MOUSE_UP {
        NativeEventClass::ButtonReleased
    } else {
        NativeEventClass::NotApplicable
    }
}

/// Whether the modifier flags of an event hold the "meta" (command) flag.
pub open spec fn has_command_flag(modifier_flags: usize) -> bool {
    modifier_flags & MODIFIER_FLAG_COMMAND == MODIFIER_FLAG_COMMAND
}

/// The route of an event: a key release while the "meta" key is held goes to the focused
/// window, since the native runtime would otherwise swallow it; every other event is forwarded.
pub open spec fn event_route(event_type: usize, modifier_flags: usize) -> EventRoute {
    if event_type == EVENT_KEY_UP && has_command_flag(modifier_flags) {
        EventRoute::KeyWindow
    } else {
        EventRoute::Forward(event_class(event_type))
    }
}

/// The device event that an event of class `class` gives. `moved` says whether a motion event
/// has a non-zero delta on some axis, `button` is the event's button number.
pub open spec fn device_event_of(class: NativeEventClass, moved: bool, button: u32) -> Option<
    DeviceEventKind,
> {
    match class {
        NativeEventClass::PointerMotion => if moved {
            Some(DeviceEventKind::PointerMotion)
        } else {
            None
        },
        NativeEventClass::ButtonPressed => Some(
            DeviceEventKind::Button { button, state: ElementState::Pressed },
        ),
        NativeEventClass::ButtonReleased => Some(
            DeviceEventKind::Button { button, state: ElementState::Released },
        ),
        NativeEventClass::NotApplicable => None,
    }
}

/// Classifies a native event by its type tag.
pub fn classify_event_type(event_type: usize) -> (r: NativeEventClass)
    ensures
        r == event_class(event_type),
{
    if event_type == EVENT_MOUSE_MOVED || event_type == EVENT_LEFT_MOUSE_DRAGGED
        || event_type == EVENT_OTHER_MOUSE_DRAGGED || event_type == EVENT_RIGHT_MOUSE_DRAGGED {
        NativeEventClass::PointerMotion
    } else if event_type == EVENT_LEFT_MOUSE_DOWN || event_type == EVENT_RIGHT_MOUSE_DOWN
        || event_type == EVENT_OTHER_MOUSE_DOWN {
        NativeEventClass::ButtonPressed
    } else if event_type == EVENT_LEFT_MOUSE_UP || event_type == EVENT_RIGHT_MOUSE_UP
        || event_type == EVENT_OTHER_MOUSE_UP {
        NativeEventClass::ButtonReleased
    } else {
        NativeEventClass::NotApplicable
    }
}

/// Decides what the interceptor does with an event of type `event_type` whose modifier flags
/// are `modifier_flags`.
pub fn route_event(event_type: usize, modifier_flags: usize) -> (r: EventRoute)
    ensures
        r == event_route(event_type, modifier_flags),
{
    if event_type == EVENT_KEY_UP && modifier_flags & MODIFIER_FLAG_COMMAND
        == MODIFIER_FLAG_COMMAND {
        EventRoute::KeyWindow
    } else {
        EventRoute::Forward(classify_event_type(event_type))
    }
}

/// The device event to enqueue for an event of class `class`, if any.
///
/// Motion without a non-zero delta gives none, so that the application is not flooded with
/// motion that goes nowhere; button numbers pass through unchanged.
pub fn device_event(class: NativeEventClass, moved: bool, button: u32) -> (r: Option<
    DeviceEventKind,
>)
    ensures
        r == device_event_of(class, moved, button),
{
    match class {
        NativeEventClass::PointerMotion => if moved {
            Some(DeviceEventKind::PointerMotion)
        } else {
            None
        },
        NativeEventClass::ButtonPressed => Some(
            DeviceEventKind::Button { button, state: ElementState::Pressed },
        ),
        NativeEventClass::ButtonReleased => Some(
            DeviceEventKind::Button { button, state: ElementState::Released },
        ),
        NativeEventClass::NotApplicable => None,
    }
}

/// What the slot holds after an installation call that found `current` as the dispatch entry
/// point: unchanged when that is already the wrapper, else the displaced `current`.
pub open spec fn after_install<H>(stored: Option<H>, current: H, current_is_wrapper: bool) -> Option<
    H,
> {
    if current_is_wrapper {
        stored
    } else {
        Some(current)
    }
}

/// The slot that keeps the dispatch entry point which the wrapper displaced.
///
/// It starts empty (uninstalled) and is filled by the first installation; a later installation
/// that finds the wrapper already in place leaves it as it is. There is no way to empty it again.
pub struct Interceptor<H> {
    original: Option<H>,
}

impl<H> Interceptor<H> {
    /// The displaced entry point, once one was stored.
    pub closed spec fn stored(&self) -> Option<H> {
        self.original
    }

    /// Whether the wrapper was installed in front of an original entry point.
    pub open spec fn is_installed(&self) -> bool {
        self.stored() is Some
    }

    /// An empty, uninstalled slot.
    pub fn new() -> (r: Self)
        ensures
            r.stored() is None,
    {
        Interceptor { original: None }
    }

    /// Records an installation call that found `current` as the dispatch entry point;
    /// `current_is_wrapper` says whether that is the wrapper itself.
    ///
    /// Returns whether the caller has to swap the wrapper in. When the wrapper is already in
    /// place nothing changes, so that the stored original is never overwritten by the wrapper.
    pub fn install(&mut self, current: H, current_is_wrapper: bool) -> (swap: bool)
        ensures
            swap == !current_is_wrapper,
            final(self).stored() == after_install(old(self).stored(), current, current_is_wrapper),
    {
        if current_is_wrapper {
            false
        } else {
            self.original = Some(current);
            true
        }
    }

    /// The stored original entry point, if the wrapper was installed.
    pub fn original(&self) -> (r: Option<H>)
        where
            H: Copy,
        ensures
            r == self.stored(),
    {
        self.original
    }
}

/// Calling the installation twice in succession on the same target is the same as calling it
/// once. After the first call the wrapper is the entry point, whatever was found there before;
/// the second call sees the wrapper and keeps the original stored by the first.
pub proof fn lemma_install_idempotent<H>(stored: Option<H>, entry: H, wrapper: H)
    ensures
        ({
            let once = after_install(stored, entry, entry == wrapper);
            &&& after_install(once, wrapper, wrapper == wrapper) == once
            &&& entry != wrapper ==> once == Some(entry)
        }),
{
}

} // verus!

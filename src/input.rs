//! Input dispatch: up to five registered callbacks, one per class of host
//! event, and the choice of which one an event is delivered to.
use vstd::prelude::*;

verus! {

/// The classes of host input events, one callback slot each.
#[derive(Clone, Copy, Debug, PartialEq, Eq, Structural)]
pub enum EventClass {
    MouseMove,
    MouseDown,
    MouseUp,
    KeyDown,
    KeyUp,
}

/// An input event delivered by the host, with its payload.
#[derive(Clone, Copy, Debug, PartialEq, Eq, Structural)]
pub enum InputEvent {
    MouseMove { x: i32, y: i32 },
    MouseDown { button: i8, x: i32, y: i32 },
    MouseUp { button: i8, x: i32, y: i32 },
    KeyDown { key: i32 },
    KeyUp { key: i32 },
}

/// The class an event belongs to.
pub open spec fn class_of(e: InputEvent) -> EventClass {
    match e {
        InputEvent::MouseMove { .. } => EventClass::MouseMove,
        InputEvent::MouseDown { .. } => EventClass::MouseDown,
        InputEvent::MouseUp { .. } => EventClass::MouseUp,
        InputEvent::KeyDown { .. } => EventClass::KeyDown,
        InputEvent::KeyUp { .. } => EventClass::KeyUp,
    }
}

impl InputEvent {
    /// The class this event belongs to.
    pub fn class(&self) -> (r: EventClass)
        ensures
            r == class_of(*self),
    {
        match self {
            InputEvent::MouseMove { .. } => EventClass::MouseMove,
            InputEvent::MouseDown { .. } => EventClass::MouseDown,
            InputEvent::MouseUp { .. } => EventClass::MouseUp,
            InputEvent::KeyDown { .. } => EventClass::KeyDown,
            InputEvent::KeyUp { .. } => EventClass::KeyUp,
        }
    }
}

/// The callbacks registered for host input events; a slot may be empty.
/// An event whose slot is empty is dropped.
pub struct InputHandler<C> {
    mouse_move: Option<C>,
    mouse_down: Option<C>,
    mouse_up: Option<C>,
    key_down: Option<C>,
    key_up: Option<C>,
}

/// Whether `r` refers to the callback in `slot`, and is `None` when the slot
/// is empty.
pub open spec fn delivers_to<C>(r: Option<&C>, slot: Option<C>) -> bool {
    match r {
        Some(f) => slot == Some(*f),
        None => slot is None,
    }
}

impl<C> InputHandler<C> {
    /// The callback registered for a class of events, if any.
    pub closed spec fn slot(&self, class: EventClass) -> Option<C> {
        match class {
            EventClass::MouseMove => self.mouse_move,
            EventClass::MouseDown => self.mouse_down,
            EventClass::MouseUp => self.mouse_up,
            EventClass::KeyDown => self.key_down,
            EventClass::KeyUp => self.key_up,
        }
    }

    /// Whether `after` is `before` with the slot of `class` holding `f` and
    /// every other slot as it was.
    pub open spec fn registered(before: &Self, after: &Self, class: EventClass, f: C) -> bool {
        after.slot(class) == Some(f) && forall|c: EventClass|
            c != class ==> #[trigger] after.slot(c) == before.slot(c)
    }

    /// A handler with no callback registered.
    pub fn new() -> (r: InputHandler<C>)
        ensures
            forall|c: EventClass| #[trigger] r.slot(c) is None,
    {
        InputHandler { mouse_move: None, mouse_down: None, mouse_up: None, key_down: None, key_up: None }
    }

    pub fn set_mouse_move(&mut self, f: C)
        ensures
            Self::registered(old(self), final(self), EventClass::MouseMove, f),
    {
        self.mouse_move = Some(f);
    }

    pub fn set_mouse_down(&mut self, f: C)
        ensures
            Self::registered(old(self), final(self), EventClass::MouseDown, f),
    {
        self.mouse_down = Some(f);
    }

    pub fn set_mouse_up(&mut self, f: C)
        ensures
            Self::registered(old(self), final(self), EventClass::MouseUp, f),
    {
        self.mouse_up = Some(f);
    }

    pub fn set_key_down(&mut self, f: C)
        ensures
            Self::registered(old(self), final(self), EventClass::KeyDown, f),
    {
        self.key_down = Some(f);
    }

    pub fn set_key_up(&mut self, f: C)
        ensures
            Self::registered(old(self), final(self), EventClass::KeyUp, f),
    {
        self.key_up = Some(f);
    }

    /// The callback that `event` is to be delivered to: the one registered
    /// for its class, or none, in which case the event is dropped.
    pub fn dispatch(&self, event: &InputEvent) -> (r: Option<&C>)
        ensures
            delivers_to(r, self.slot(class_of(*event))),
    {
        match event.class() {
            EventClass::MouseMove => self.mouse_move.as_ref(),
            EventClass::MouseDown => self.mouse_down.as_ref(),
            EventClass::MouseUp => self.mouse_up.as_ref(),
            EventClass::KeyDown => self.key_down.as_ref(),
            EventClass::KeyUp => self.key_up.as_ref(),
        }
    }

    /// The callback a pointer move at `(x, y)` is delivered to, if any.
    pub fn mouse_move(&self, x: i32, y: i32) -> (r: Option<&C>)
        ensures
            delivers_to(r, self.slot(EventClass::MouseMove)),
    {
        self.dispatch(&InputEvent::MouseMove { x, y })
    }

    /// The callback a press of `button` at `(x, y)` is delivered to, if any.
    pub fn mouse_down(&self, button: i8, x: i32, y: i32) -> (r: Option<&C>)
        ensures
            delivers_to(r, self.slot(EventClass::MouseDown)),
    {
        self.dispatch(&InputEvent::MouseDown { button, x, y })
    }

    /// The callback a release of `button` at `(x, y)` is delivered to, if any.
    pub fn mouse_up(&self, button: i8, x: i32, y: i32) -> (r: Option<&C>)
        ensures
            delivers_to(r, self.slot(EventClass::MouseUp)),
    {
        self.dispatch(&InputEvent::MouseUp { button, x, y })
    }

    /// The callback a press of `key` is delivered to, if any.
    pub fn key_down(&self, key: i32) -> (r: Option<&C>)
        ensures
            delivers_to(r, self.slot(EventClass::KeyDown)),
    {
        self.dispatch(&InputEvent::KeyDown { key })
    }

    /// The callback a release of `key` is delivered to, if any.
    pub fn key_up(&self, key: i32) -> (r: Option<&C>)
        ensures
            delivers_to(r, self.slot(EventClass::KeyUp)),
    {
        self.dispatch(&InputEvent::KeyUp { key })
    }
}

/// A handler that has only a key-down callback registered delivers a pointer
/// move to no callback: the event is dropped.
pub proof fn lemma_unregistered_class_is_dropped<C>(
    empty: InputHandler<C>,
    h: InputHandler<C>,
    f: C,
    x: i32,
    y: i32,
)
    requires
        forall|c: EventClass| #[trigger] empty.slot(c) is None,
        InputHandler::registered(&empty, &h, EventClass::KeyDown, f),
    ensures
        h.slot(class_of(InputEvent::MouseMove { x, y })) is None,
        forall|r: Option<&C>|
            delivers_to(r, h.slot(class_of(InputEvent::MouseMove { x, y }))) ==> r is None,
{
    assert(h.slot(EventClass::MouseMove) == empty.slot(EventClass::MouseMove));
}

} // verus!

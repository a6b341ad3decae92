//! The canonical representation of an input event, and the normalizer that
//! produces it from what the platform reports.

use crate::coordinate::{is_number, Coordinate};
use vstd::prelude::*;

verus! {

/// The closed set of event kinds that are forwarded to a consumer.
#[derive(Debug, Clone, Copy, PartialEq, Eq, Structural)]
pub enum DeviceKind {
    MousePress,
    MouseRelease,
    MouseMove,
    KeyboardPress,
    KeyboardRelease,
}

impl DeviceKind {
    /// The name under which the kind appears on the wire.
    pub open spec fn name(self) -> Seq<char> {
        match self {
            DeviceKind::MousePress => "MousePress"@,
            DeviceKind::MouseRelease => "MouseRelease"@,
            DeviceKind::MouseMove => "MouseMove"@,
            DeviceKind::KeyboardPress => "KeyboardPress"@,
            DeviceKind::KeyboardRelease => "KeyboardRelease"@,
        }
    }

    /// Returns the wire name of the kind.
    pub fn as_str(self) -> (name: &'static str)
        ensures
            name@ == self.name(),
    {
        match self {
            DeviceKind::MousePress => "MousePress",
            DeviceKind::MouseRelease => "MouseRelease",
            DeviceKind::MouseMove => "MouseMove",
            DeviceKind::KeyboardPress => "KeyboardPress",
            DeviceKind::KeyboardRelease => "KeyboardRelease",
        }
    }
}

/// The payload of an event.
#[derive(Debug)]
pub enum DeviceValue {
    /// The platform's name of a button or key.
    Name(String),
    /// An absolute pointer position, in the platform's own units.
    Position { x: Coordinate, y: Coordinate },
}

/// What a payload holds, as plain text.
pub enum ValueView {
    Name(Seq<char>),
    Position { x: Seq<char>, y: Seq<char> },
}

impl View for DeviceValue {
    type V = ValueView;

    open spec fn view(&self) -> ValueView {
        match self {
            DeviceValue::Name(name) => ValueView::Name(name@),
            DeviceValue::Position { x, y } => ValueView::Position { x: x@, y: y@ },
        }
    }
}

impl Clone for DeviceValue {
    fn clone(&self) -> (copy: Self)
        ensures
            copy@ == self@,
    {
        match self {
            DeviceValue::Name(name) => DeviceValue::Name(name.clone()),
            DeviceValue::Position { x, y } => DeviceValue::Position { x: x.clone(), y: y.clone() },
        }
    }
}

/// What an event holds: its kind and its payload.
pub struct EventView {
    pub kind: DeviceKind,
    pub value: ValueView,
}

impl EventView {
    /// The payload has the shape that the kind calls for: a position of two
    /// number literals for a pointer motion, a name for everything else.
    pub open spec fn well_formed(self) -> bool {
        match self.value {
            ValueView::Name(_) => self.kind != DeviceKind::MouseMove,
            ValueView::Position { x, y } => self.kind == DeviceKind::MouseMove && is_number(x)
                && is_number(y),
        }
    }
}

/// One canonical input event.
#[derive(Debug)]
pub struct DeviceEvent {
    kind: DeviceKind,
    value: DeviceValue,
}

impl View for DeviceEvent {
    type V = EventView;

    closed spec fn view(&self) -> EventView {
        EventView { kind: self.kind, value: self.value@ }
    }
}

impl Clone for DeviceEvent {
    fn clone(&self) -> (copy: Self)
        ensures
            copy@ == self@,
    {
        proof {
            use_type_invariant(self);
        }
        DeviceEvent { kind: self.kind, value: self.value.clone() }
    }
}

impl DeviceEvent {
    /// The payload fits the kind.
    #[verifier::type_invariant]
    pub open spec fn shape_matches_kind(self) -> bool {
        self@.well_formed()
    }

    /// A button of the pointing device went down.
    pub fn mouse_press(button: String) -> (event: DeviceEvent)
        ensures
            event@ == (EventView { kind: DeviceKind::MousePress, value: ValueView::Name(button@) }),
    {
        DeviceEvent { kind: DeviceKind::MousePress, value: DeviceValue::Name(button) }
    }

    /// A button of the pointing device came up.
    pub fn mouse_release(button: String) -> (event: DeviceEvent)
        ensures
            event@ == (EventView {
                kind: DeviceKind::MouseRelease,
                value: ValueView::Name(button@),
            }),
    {
        DeviceEvent { kind: DeviceKind::MouseRelease, value: DeviceValue::Name(button) }
    }

    /// The pointer moved to the position `(x, y)`.
    pub fn mouse_move(x: Coordinate, y: Coordinate) -> (event: DeviceEvent)
        ensures
            event@ == (EventView {
                kind: DeviceKind::MouseMove,
                value: ValueView::Position { x: x@, y: y@ },
            }),
            event@.well_formed(),
    {
        proof {
            use_type_invariant(&x);
            use_type_invariant(&y);
        }
        DeviceEvent { kind: DeviceKind::MouseMove, value: DeviceValue::Position { x, y } }
    }

    /// A key went down.
    pub fn keyboard_press(key: String) -> (event: DeviceEvent)
        ensures
            event@ == (EventView { kind: DeviceKind::KeyboardPress, value: ValueView::Name(key@) }),
    {
        DeviceEvent { kind: DeviceKind::KeyboardPress, value: DeviceValue::Name(key) }
    }

    /// A key came up.
    pub fn keyboard_release(key: String) -> (event: DeviceEvent)
        ensures
            event@ == (EventView {
                kind: DeviceKind::KeyboardRelease,
                value: ValueView::Name(key@),
            }),
    {
        DeviceEvent { kind: DeviceKind::KeyboardRelease, value: DeviceValue::Name(key) }
    }

    /// The kind of the event.
    pub fn kind(&self) -> (kind: DeviceKind)
        ensures
            kind == self@.kind,
            self@.well_formed(),
    {
        proof {
            use_type_invariant(self);
        }
        self.kind
    }

    /// The payload of the event.
    pub fn value(&self) -> (value: &DeviceValue)
        ensures
            value@ == self@.value,
            self@.well_formed(),
    {
        proof {
            use_type_invariant(self);
        }
        &self.value
    }
}

/// What the platform reports, before it is normalized.
#[derive(Debug)]
pub enum RawNotification {
    /// A key went down; the text is the platform's name of the key.
    KeyPress(String),
    /// A key came up.
    KeyRelease(String),
    /// A button went down; the text is the platform's name of the button.
    ButtonPress(String),
    /// A button came up.
    ButtonRelease(String),
    /// The pointer moved.
    MouseMove { x: Coordinate, y: Coordinate },
    /// The wheel turned.
    Wheel { delta_x: i64, delta_y: i64 },
    /// Anything else that the platform may come to report.
    Unknown,
}

impl RawNotification {
    /// Whether the notification is of one of the five kinds that are
    /// forwarded.
    pub open spec fn is_recognized(self) -> bool {
        !(self is Wheel) && !(self is Unknown)
    }

    /// The event that the notification stands for, if it stands for one.
    pub open spec fn normalized(self) -> Option<EventView> {
        match self {
            RawNotification::KeyPress(key) => Some(
                EventView { kind: DeviceKind::KeyboardPress, value: ValueView::Name(key@) },
            ),
            RawNotification::KeyRelease(key) => Some(
                EventView { kind: DeviceKind::KeyboardRelease, value: ValueView::Name(key@) },
            ),
            RawNotification::ButtonPress(button) => Some(
                EventView { kind: DeviceKind::MousePress, value: ValueView::Name(button@) },
            ),
            RawNotification::ButtonRelease(button) => Some(
                EventView { kind: DeviceKind::MouseRelease, value: ValueView::Name(button@) },
            ),
            RawNotification::MouseMove { x, y } => Some(
                EventView {
                    kind: DeviceKind::MouseMove,
                    value: ValueView::Position { x: x@, y: y@ },
                },
            ),
            RawNotification::Wheel { .. } => None,
            RawNotification::Unknown => None,
        }
    }
}

/// Maps a raw notification to its canonical event. A notification outside the
/// five recognized kinds yields nothing.
pub fn normalize(raw: RawNotification) -> (event: Option<DeviceEvent>)
    ensures
        event is Some <==> raw.is_recognized(),
        match event {
            Some(e) => raw.normalized() == Some(e@) && e@.well_formed(),
            None => raw.normalized() is None,
        },
{
    match raw {
        RawNotification::KeyPress(key) => Some(DeviceEvent::keyboard_press(key)),
        RawNotification::KeyRelease(key) => Some(DeviceEvent::keyboard_release(key)),
        RawNotification::ButtonPress(button) => Some(DeviceEvent::mouse_press(button)),
        RawNotification::ButtonRelease(button) => Some(DeviceEvent::mouse_release(button)),
        RawNotification::MouseMove { x, y } => Some(DeviceEvent::mouse_move(x, y)),
        RawNotification::Wheel { .. } => None,
        RawNotification::Unknown => None,
    }
}

} // verus!

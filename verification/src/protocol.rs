//! Values of the X11 core protocol that a selection owner reads and sends.
//!
//! Everything here is plain data. Whoever holds the connection turns the
//! events it reads into [`Event`] values and carries out each [`Request`].

use vstd::prelude::*;

verus! {

/// An interned identifier of a symbolic name, valid for one connection.
pub type Atom = u32;

/// The identifier of a window.
pub type Window = u32;

/// A server time in milliseconds.
pub type Timestamp = u32;

/// The atom that stands for "no atom": no property, no selection.
pub const NONE: Atom = 0;

/// The time that stands for "now" in a request.
pub const CURRENT_TIME: Timestamp = 0;

/// Depth, class or visual taken over from the parent window.
pub const COPY_FROM_PARENT: u8 = 0;

/// Window class of a window that can be drawn to and receive input.
pub const WINDOW_CLASS_INPUT_OUTPUT: u16 = 1;

/// Property mode that discards the previous value.
pub const PROP_MODE_REPLACE: u8 = 0;

/// Event mask bit for changes of the window's structure.
pub const EVENT_MASK_STRUCTURE_NOTIFY: u32 = 0x0002_0000;

/// Event mask bit for changes of a window's properties.
pub const EVENT_MASK_PROPERTY_CHANGE: u32 = 0x0040_0000;

/// Event code of `SelectionClear`.
pub const SELECTION_CLEAR: u8 = 29;

/// Event code of `SelectionRequest`.
pub const SELECTION_REQUEST: u8 = 30;

/// Number of bits in one unit of a byte string property.
pub const FORMAT_BYTES: u8 = 8;

/// Number of bits in one unit of an atom list property.
pub const FORMAT_ATOMS: u8 = 32;

/// What kind of event a response code announces.
#[derive(Clone, Copy, Debug, PartialEq, Eq, Structural)]
pub enum EventKind {
    SelectionClear,
    SelectionRequest,
    Other,
}

impl EventKind {
    /// The kind that a response code stands for.
    pub open spec fn of(response_type: u8) -> EventKind {
        if response_type == SELECTION_CLEAR {
            EventKind::SelectionClear
        } else if response_type == SELECTION_REQUEST {
            EventKind::SelectionRequest
        } else {
            EventKind::Other
        }
    }

    /// Sorts an event by its response code. A code with the "sent by another
    /// client" bit set is none of the two selection events.
    pub fn classify(response_type: u8) -> (kind: EventKind)
        ensures
            kind == EventKind::of(response_type),
    {
        if response_type == SELECTION_CLEAR {
            EventKind::SelectionClear
        } else if response_type == SELECTION_REQUEST {
            EventKind::SelectionRequest
        } else {
            EventKind::Other
        }
    }
}

/// One request of another client to convert a selection.
#[derive(Clone, Copy, Debug, PartialEq, Eq, Structural)]
pub struct ConversionRequest {
    /// The window that asks.
    pub requestor: Window,
    /// The selection to convert.
    pub selection: Atom,
    /// The representation asked for.
    pub target: Atom,
    /// The property on `requestor` that takes the answer, or [`NONE`].
    pub property: Atom,
}

/// A protocol event, told apart at the boundary.
#[derive(Clone, Copy, Debug, PartialEq, Eq, Structural)]
pub enum Event {
    /// Another client has taken the selection.
    SelectionClear,
    /// Another client asks for the selection's content.
    SelectionRequest(ConversionRequest),
    /// Any other event.
    Other,
}

/// The event that tells a requestor that its request was handled.
#[derive(Clone, Copy, Debug, PartialEq, Eq, Structural)]
pub struct SelectionNotify {
    pub time: Timestamp,
    pub requestor: Window,
    pub selection: Atom,
    pub target: Atom,
    pub property: Atom,
}

impl SelectionNotify {
    /// The notification that answers `request`: it repeats the request's
    /// selection, target and property.
    pub open spec fn answering(request: ConversionRequest) -> SelectionNotify {
        SelectionNotify {
            time: CURRENT_TIME,
            requestor: request.requestor,
            selection: request.selection,
            target: request.target,
            property: request.property,
        }
    }

    /// Builds the notification that answers `request`.
    pub fn for_request(request: &ConversionRequest) -> (notify: SelectionNotify)
        ensures
            notify == SelectionNotify::answering(*request),
    {
        SelectionNotify {
            time: CURRENT_TIME,
            requestor: request.requestor,
            selection: request.selection,
            target: request.target,
            property: request.property,
        }
    }
}

/// The value written to a property.
#[derive(Debug, PartialEq, Eq)]
pub enum PropertyValue {
    /// A list of atoms, 32 bits each.
    Atoms(Vec<Atom>),
    /// A byte string, 8 bits each.
    Bytes(Vec<u8>),
}

/// What a [`PropertyValue`] holds.
pub enum PropertyData {
    Atoms(Seq<Atom>),
    Bytes(Seq<u8>),
}

impl PropertyData {
    /// Bits per unit of the value.
    pub open spec fn format(self) -> u8 {
        match self {
            PropertyData::Atoms(_) => FORMAT_ATOMS,
            PropertyData::Bytes(_) => FORMAT_BYTES,
        }
    }

    /// Number of units in the value.
    pub open spec fn len(self) -> nat {
        match self {
            PropertyData::Atoms(atoms) => atoms.len(),
            PropertyData::Bytes(bytes) => bytes.len(),
        }
    }
}

impl View for PropertyValue {
    type V = PropertyData;

    open spec fn view(&self) -> PropertyData {
        match self {
            PropertyValue::Atoms(atoms) => PropertyData::Atoms(atoms@),
            PropertyValue::Bytes(bytes) => PropertyData::Bytes(bytes@),
        }
    }
}

impl Clone for PropertyValue {
    fn clone(&self) -> (copy: PropertyValue)
        ensures
            copy@ == self@,
    {
        match self {
            PropertyValue::Atoms(atoms) => {
                let copy = atoms.clone();
                PropertyValue::Atoms(copy)
            },
            PropertyValue::Bytes(bytes) => {
                let copy = bytes.clone();
                PropertyValue::Bytes(copy)
            },
        }
    }
}

impl PropertyValue {
    /// Bits per unit of the value: 32 for atoms, 8 for bytes.
    pub fn format(&self) -> (bits: u8)
        ensures
            bits == self@.format(),
    {
        match self {
            PropertyValue::Atoms(_) => FORMAT_ATOMS,
            PropertyValue::Bytes(_) => FORMAT_BYTES,
        }
    }

    /// Number of units in the value.
    pub fn len(&self) -> (n: usize)
        ensures
            n == self@.len(),
    {
        match self {
            PropertyValue::Atoms(atoms) => atoms.len(),
            PropertyValue::Bytes(bytes) => bytes.len(),
        }
    }
}

/// A request to the server that the owner makes while it serves the
/// selection.
#[derive(Debug, PartialEq, Eq)]
pub enum Request {
    /// Write `value` to `property` of `window`, with type `kind`.
    ChangeProperty { mode: u8, window: Window, property: Atom, kind: Atom, value: PropertyValue },
    /// Read `property` of `window`.
    GetProperty {
        delete: bool,
        window: Window,
        property: Atom,
        kind: Atom,
        long_offset: u32,
        long_length: u32,
    },
    /// Send `event` to `destination`.
    SendEvent { propagate: bool, destination: Window, event_mask: u32, event: SelectionNotify },
    /// Push everything written so far out to the server.
    Flush,
}

/// What a [`Request`] holds.
pub enum RequestModel {
    ChangeProperty { mode: u8, window: Window, property: Atom, kind: Atom, value: PropertyData },
    GetProperty {
        delete: bool,
        window: Window,
        property: Atom,
        kind: Atom,
        long_offset: u32,
        long_length: u32,
    },
    SendEvent { propagate: bool, destination: Window, event_mask: u32, event: SelectionNotify },
    Flush,
}

impl View for Request {
    type V = RequestModel;

    open spec fn view(&self) -> RequestModel {
        match self {
            Request::ChangeProperty { mode, window, property, kind, value } => {
                RequestModel::ChangeProperty {
                    mode: *mode,
                    window: *window,
                    property: *property,
                    kind: *kind,
                    value: value@,
                }
            },
            Request::GetProperty { delete, window, property, kind, long_offset, long_length } => {
                RequestModel::GetProperty {
                    delete: *delete,
                    window: *window,
                    property: *property,
                    kind: *kind,
                    long_offset: *long_offset,
                    long_length: *long_length,
                }
            },
            Request::SendEvent { propagate, destination, event_mask, event } => {
                RequestModel::SendEvent {
                    propagate: *propagate,
                    destination: *destination,
                    event_mask: *event_mask,
                    event: *event,
                }
            },
            Request::Flush => RequestModel::Flush,
        }
    }
}

impl Clone for Request {
    fn clone(&self) -> (copy: Request)
        ensures
            copy@ == self@,
    {
        match self {
            Request::ChangeProperty { mode, window, property, kind, value } => {
                Request::ChangeProperty {
                    mode: *mode,
                    window: *window,
                    property: *property,
                    kind: *kind,
                    value: value.clone(),
                }
            },
            Request::GetProperty { delete, window, property, kind, long_offset, long_length } => {
                Request::GetProperty {
                    delete: *delete,
                    window: *window,
                    property: *property,
                    kind: *kind,
                    long_offset: *long_offset,
                    long_length: *long_length,
                }
            },
            Request::SendEvent { propagate, destination, event_mask, event } => {
                Request::SendEvent {
                    propagate: *propagate,
                    destination: *destination,
                    event_mask: *event_mask,
                    event: *event,
                }
            },
            Request::Flush => Request::Flush,
        }
    }
}

impl RequestModel {
    /// Whether the request writes a property.
    pub open spec fn is_write(self) -> bool {
        self is ChangeProperty
    }

    /// Whether the request sends a notification.
    pub open spec fn is_notification(self) -> bool {
        self is SendEvent
    }
}

/// Whether none of `requests` writes a property.
pub open spec fn writes_nothing(requests: Seq<RequestModel>) -> bool {
    forall|i: int| 0 <= i < requests.len() ==> !(#[trigger] requests[i]).is_write()
}

/// Whether exactly one of `requests` sends a notification, and that one
/// sends `event`.
pub open spec fn notifies_once(requests: Seq<RequestModel>, event: SelectionNotify) -> bool {
    exists|i: int|
        {
            &&& 0 <= i < requests.len()
            &&& (#[trigger] requests[i]) matches RequestModel::SendEvent { event: sent, .. }
            &&& sent == event
            &&& forall|j: int|
                0 <= j < requests.len() && j != i ==> !(#[trigger] requests[j]).is_notification()
        }
}

/// What each request of a list holds, in order.
pub open spec fn models(requests: Seq<Request>) -> Seq<RequestModel> {
    Seq::new(requests.len(), |i: int| requests[i]@)
}

} // verus!

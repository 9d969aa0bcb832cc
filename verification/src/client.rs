//! The model of a managed window: the application's own window, here called
//! the context, inside a frame that the manager owns.

use crate::flags::{WindowFlags, FLOATING, TILING};
use crate::geometry::Quad;
use crate::xproto::{WindowAttributes, XWindow};
use vstd::prelude::*;

verus! {

/// The unsigned number with the bits of `v`: `v` itself where it is not
/// negative, `v` + 2^32 where it is.
pub open spec fn unsigned(v: i32) -> u32 {
    if v >= 0 {
        v as u32
    } else {
        (v + 0x1_0000_0000) as u32
    }
}

/// The unsigned number with the bits of `v`.
pub fn to_unsigned(v: i32) -> (u: u32)
    ensures
        u == unsigned(v),
{
    let u: u32 = #[verifier::truncate]
    (v as u32);
    assert(v >= 0 ==> (v as u32) == v) by (bit_vector);
    assert(v < 0 ==> (v as u32) == v + 0x1_0000_0000) by (bit_vector);
    u
}

/// A geometry of a window.
#[derive(Debug, Clone, Copy, PartialEq, Eq, Structural)]
pub struct Attributes {
    pub window: Quad,
}

impl Attributes {
    /// The geometry that the attributes of a window give: each of position
    /// and size as the unsigned number with the same bits.
    pub open spec fn of(attrs: WindowAttributes) -> Attributes {
        Attributes {
            window: Quad {
                x: unsigned(attrs.x),
                y: unsigned(attrs.y),
                w: unsigned(attrs.width),
                h: unsigned(attrs.height),
            },
        }
    }

    /// The geometry that a window asks for by its attributes.
    pub fn new(attrs: &WindowAttributes) -> (a: Attributes)
        ensures
            a == Attributes::of(*attrs),
    {
        Attributes {
            window: Quad {
                x: to_unsigned(attrs.x),
                y: to_unsigned(attrs.y),
                h: to_unsigned(attrs.height),
                w: to_unsigned(attrs.width),
            },
        }
    }

    /// The geometry that the manager assigns.
    pub fn tiling(attrs: &Quad) -> (a: Attributes)
        ensures
            a == (Attributes { window: *attrs }),
    {
        Attributes { window: *attrs }
    }
}

/// A window of the display as the manager knows it: its identifier, the
/// geometry its owner asked for, and the geometry the manager assigned.
#[derive(Debug, Clone, Copy, PartialEq, Eq, Structural)]
pub struct Window {
    pub id: XWindow,
    pub hints: Attributes,
    pub attrs: Attributes,
}

impl Window {
    /// The window `id` with the assigned geometry `attrs` and the geometry
    /// the attributes `hints` ask for.
    pub open spec fn of(id: XWindow, attrs: Quad, hints: WindowAttributes) -> Window {
        Window { id, hints: Attributes::of(hints), attrs: Attributes { window: attrs } }
    }

    /// The window `id` with the assigned geometry `attrs` and the geometry
    /// the attributes `hints` ask for.
    pub fn new(id: XWindow, attrs: &Quad, hints: &WindowAttributes) -> (w: Window)
        ensures
            w == Window::of(id, *attrs, *hints),
    {
        Window { id, hints: Attributes::new(hints), attrs: Attributes::tiling(attrs) }
    }

    /// The window with another assigned geometry.
    pub open spec fn placed(self, rect: Quad) -> Window {
        Window { id: self.id, hints: self.hints, attrs: Attributes { window: rect } }
    }
}

/// A managed application window.
#[derive(Debug, Clone)]
pub struct Client {
    pub name: String,
    /// The decoration window the manager created around the context.
    pub frame: Window,
    /// The application's own top-level window.
    pub context: Window,
    pub flags: WindowFlags,
}

/// What a client is, with its name as a sequence of characters.
pub struct ClientView {
    pub name: Seq<char>,
    pub frame: Window,
    pub context: Window,
    pub flags: WindowFlags,
}

impl View for Client {
    type V = ClientView;

    open spec fn view(&self) -> ClientView {
        ClientView {
            name: self.name@,
            frame: self.frame,
            context: self.context,
            flags: self.flags,
        }
    }
}

impl ClientView {
    /// The client of the given name, frame, context and flags, where both
    /// windows have the assigned geometry `attrs` and the hints `hints`.
    pub open spec fn of(
        name: Seq<char>,
        frame: XWindow,
        context: XWindow,
        hints: WindowAttributes,
        attrs: Quad,
        flags: WindowFlags,
    ) -> ClientView {
        ClientView {
            name,
            frame: Window::of(frame, attrs, hints),
            context: Window::of(context, attrs, hints),
            flags,
        }
    }

    /// The client with other assigned geometries of frame and context.
    pub open spec fn placed(self, frame: Quad, context: Quad) -> ClientView {
        ClientView {
            name: self.name,
            frame: self.frame.placed(frame),
            context: self.context.placed(context),
            flags: self.flags,
        }
    }

    /// The client with other flags.
    pub open spec fn flagged(self, flags: WindowFlags) -> ClientView {
        ClientView { name: self.name, frame: self.frame, context: self.context, flags }
    }
}

impl Client {
    /// A client that takes part in the tiling.
    pub fn tile(
        name: String,
        frame: XWindow,
        context: XWindow,
        hints: &WindowAttributes,
        attrs: &Quad,
    ) -> (c: Client)
        ensures
            c@ == ClientView::of(
                name@,
                frame,
                context,
                *hints,
                *attrs,
                WindowFlags { bits: TILING },
            ),
    {
        Client {
            name,
            frame: Window::new(frame, attrs, hints),
            context: Window::new(context, attrs, hints),
            flags: WindowFlags { bits: TILING },
        }
    }

    /// A client that floats.
    pub fn floating(
        name: String,
        frame: XWindow,
        context: XWindow,
        hints: &WindowAttributes,
        attrs: &Quad,
    ) -> (c: Client)
        ensures
            c@ == ClientView::of(
                name@,
                frame,
                context,
                *hints,
                *attrs,
                WindowFlags { bits: FLOATING },
            ),
    {
        Client {
            name,
            frame: Window::new(frame, attrs, hints),
            context: Window::new(context, attrs, hints),
            flags: WindowFlags { bits: FLOATING },
        }
    }

    /// A client with the flags given.
    pub fn new(
        name: String,
        frame: XWindow,
        context: XWindow,
        hints: &WindowAttributes,
        attrs: &Quad,
        flags: WindowFlags,
    ) -> (c: Client)
        ensures
            c@ == ClientView::of(name@, frame, context, *hints, *attrs, flags),
    {
        Client {
            name,
            frame: Window::new(frame, attrs, hints),
            context: Window::new(context, attrs, hints),
            flags,
        }
    }
}

/// The views of the clients of a sequence, in its order.
pub open spec fn views(clients: Seq<Client>) -> Seq<ClientView> {
    Seq::new(clients.len(), |i: int| clients[i]@)
}

} // verus!

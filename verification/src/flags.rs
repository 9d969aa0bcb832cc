//! The flags the manager keeps on each client. They are the manager's own
//! book-keeping; the display knows nothing of them.

use vstd::prelude::*;

verus! {

/// No flag.
pub const NONE: u32 = 0x00;

/// The client takes part in the tiling of its workspace.
pub const TILING: u32 = 0x01;

/// The client floats above the tiles and keeps its geometry.
pub const FLOATING: u32 = 0x02;

/// The client asks for attention.
pub const URGENT: u32 = 0x04;

/// The client covers the whole screen.
pub const FULLSCREEN: u32 = 0x08;

/// The client never takes the input focus.
pub const NEVER_FOCUS: u32 = 0x10;

/// The client stays where it is, like a bar; it is never tiled.
pub const FIXED: u32 = 0x20;

/// Every flag.
pub const ALL: u32 = 0x3f;

/// A set of client flags.
#[derive(Debug, Clone, Copy, PartialEq, Eq, Structural)]
pub struct WindowFlags {
    pub bits: u32,
}

impl WindowFlags {
    /// Whether every flag of `flags` is in the set.
    pub open spec fn has(self, flags: u32) -> bool {
        self.bits & flags == flags
    }

    /// Whether a client with these flags takes part in the tiling: it is
    /// marked for tiling and neither floats, nor is fixed, nor covers the
    /// screen.
    pub open spec fn tiles(self) -> bool {
        self.bits & TILING != 0 && self.bits & (FLOATING | FULLSCREEN | FIXED) == 0
    }

    /// Whether the floating flag is in the set.
    pub open spec fn floats(self) -> bool {
        self.bits & FLOATING != 0
    }

    /// Whether the fullscreen flag is in the set.
    pub open spec fn fills(self) -> bool {
        self.bits & FULLSCREEN != 0
    }

    /// The set of the flags among `bits`; bits that are no flag are dropped.
    pub fn from_bits_truncate(bits: u32) -> (f: WindowFlags)
        ensures
            f.bits == bits & ALL,
    {
        WindowFlags { bits: bits & ALL }
    }

    /// The flags of the set, as bits.
    pub fn bits(&self) -> (b: u32)
        ensures
            b == self.bits,
    {
        self.bits
    }

    /// Whether every flag of `flags` is in the set.
    pub fn contains(&self, flags: u32) -> (r: bool)
        ensures
            r == self.has(flags),
    {
        self.bits & flags == flags
    }

    /// The set with the flags of `flags` added.
    pub fn with(self, flags: u32) -> (f: WindowFlags)
        ensures
            f.bits == self.bits | flags,
    {
        WindowFlags { bits: self.bits | flags }
    }

    /// The set with the flags of `flags` taken out.
    pub fn without(self, flags: u32) -> (f: WindowFlags)
        ensures
            f.bits == self.bits & !flags,
    {
        WindowFlags { bits: self.bits & !flags }
    }

    /// The set with each flag of `flags` switched: out where it was in, in
    /// where it was out.
    pub fn toggled(self, flags: u32) -> (f: WindowFlags)
        ensures
            f.bits == self.bits ^ flags,
    {
        WindowFlags { bits: self.bits ^ flags }
    }

    /// Whether a client with these flags takes part in the tiling.
    pub fn is_tiled(&self) -> (r: bool)
        ensures
            r == self.tiles(),
    {
        self.bits & TILING != 0 && self.bits & (FLOATING | FULLSCREEN | FIXED) == 0
    }

    /// Whether the floating flag is in the set.
    pub fn is_floating(&self) -> (r: bool)
        ensures
            r == self.floats(),
    {
        self.bits & FLOATING != 0
    }

    /// Whether the fullscreen flag is in the set.
    pub fn is_fullscreen(&self) -> (r: bool)
        ensures
            r == self.fills(),
    {
        self.bits & FULLSCREEN != 0
    }
}

/// Adding the floating flag makes a set float and keeps it from tiling;
/// taking it out does the reverse and leaves the other conditions of tiling
/// as they were. Neither touches the fullscreen flag.
pub proof fn lemma_floating(f: WindowFlags)
    ensures
        (WindowFlags { bits: f.bits | FLOATING }).floats(),
        !(WindowFlags { bits: f.bits | FLOATING }).tiles(),
        (WindowFlags { bits: f.bits | FLOATING }).fills() == f.fills(),
        !(WindowFlags { bits: f.bits & !FLOATING }).floats(),
        (WindowFlags { bits: f.bits & !FLOATING }).fills() == f.fills(),
        (WindowFlags { bits: f.bits & !FLOATING }).tiles() == (f.bits & TILING != 0 && f.bits
            & (FULLSCREEN | FIXED) == 0),
{
    let b = f.bits;
    assert({
        &&& ((b | 0x02u32) & 0x02u32 != 0)
        &&& ((b | 0x02u32) & (0x02u32 | 0x08u32 | 0x20u32) != 0)
        &&& (((b | 0x02u32) & 0x08u32 != 0) == (b & 0x08u32 != 0))
        &&& ((b & !0x02u32) & 0x02u32 == 0)
        &&& (((b & !0x02u32) & 0x08u32 != 0) == (b & 0x08u32 != 0))
        &&& (((b & !0x02u32) & 0x01u32 != 0 && (b & !0x02u32) & (0x02u32 | 0x08u32 | 0x20u32)
            == 0) == (b & 0x01u32 != 0 && b & (0x08u32 | 0x20u32) == 0))
    }) by (bit_vector);
}

/// Switching the fullscreen flag switches whether a set fills the screen,
/// keeps a set that then fills the screen from tiling, and leaves the
/// floating flag as it was.
pub proof fn lemma_fullscreen(f: WindowFlags)
    ensures
        (WindowFlags { bits: f.bits ^ FULLSCREEN }).fills() == !f.fills(),
        (WindowFlags { bits: f.bits ^ FULLSCREEN }).floats() == f.floats(),
        !f.fills() ==> !(WindowFlags { bits: f.bits ^ FULLSCREEN }).tiles(),
        f.fills() ==> (WindowFlags { bits: f.bits ^ FULLSCREEN }).tiles() == (f.bits & TILING != 0
            && f.bits & (FLOATING | FIXED) == 0),
{
    let b = f.bits;
    assert({
        &&& (((b ^ 0x08u32) & 0x08u32 != 0) == !(b & 0x08u32 != 0))
        &&& (((b ^ 0x08u32) & 0x02u32 != 0) == (b & 0x02u32 != 0))
        &&& (!(b & 0x08u32 != 0) ==> (b ^ 0x08u32) & (0x02u32 | 0x08u32 | 0x20u32) != 0)
        &&& (b & 0x08u32 != 0 ==> ((b ^ 0x08u32) & 0x01u32 != 0 && (b ^ 0x08u32) & (0x02u32
            | 0x08u32 | 0x20u32) == 0) == (b & 0x01u32 != 0 && b & (0x02u32 | 0x20u32) == 0))
    }) by (bit_vector);
}

/// What holds of the sets of a single flag: the tiling flag alone makes a
/// set tile and neither float nor fill the screen; the floating flag alone
/// makes it float and not tile; the empty set does neither.
pub proof fn lemma_single_flags()
    ensures
        (WindowFlags { bits: TILING }).tiles(),
        !(WindowFlags { bits: TILING }).floats(),
        !(WindowFlags { bits: TILING }).fills(),
        (WindowFlags { bits: FLOATING }).floats(),
        !(WindowFlags { bits: FLOATING }).tiles(),
        !(WindowFlags { bits: NONE }).floats(),
        !(WindowFlags { bits: NONE }).tiles(),
{
    assert({
        &&& (0x01u32 & 0x01u32 != 0)
        &&& (0x01u32 & (0x02u32 | 0x08u32 | 0x20u32) == 0)
        &&& (0x01u32 & 0x02u32 == 0)
        &&& (0x01u32 & 0x08u32 == 0)
        &&& (0x02u32 & 0x02u32 != 0)
        &&& (0x02u32 & (0x02u32 | 0x08u32 | 0x20u32) != 0)
        &&& (0x00u32 & 0x02u32 == 0)
        &&& (0x00u32 & 0x01u32 == 0)
    }) by (bit_vector);
}

} // verus!

use vstd::prelude::*;

verus! {

/// A single edge slot. Bit layout `---OEEEE`: bits above the orientation are
/// zero, `O` is the orientation (0 or 1), `E` is the edge index (0..=11).
#[derive(Debug, Clone, Copy, PartialEq, Eq, Structural)]
pub struct Edge(pub u8);

/// A single corner slot. Bit layout `--OO-CCC`: `OO` is the orientation
/// (0..=2), bit 3 is zero, `C` is the corner index (0..=7).
#[derive(Debug, Clone, Copy, PartialEq, Eq, Structural)]
pub struct Corner(pub u8);

/// The index field of an edge byte (its low four bits).
pub open spec fn edge_index(b: u8) -> nat {
    (b % 16) as nat
}

/// The orientation bit of an edge byte (bit 4).
pub open spec fn edge_orientation(b: u8) -> nat {
    ((b / 16) % 2) as nat
}

/// The index field of a corner byte (its low three bits).
pub open spec fn corner_index(b: u8) -> nat {
    (b % 8) as nat
}

/// The orientation field of a corner byte (bits 4 and 5).
pub open spec fn corner_orientation(b: u8) -> nat {
    ((b / 16) % 4) as nat
}

/// An edge byte in the documented layout: index below 12, bits above the
/// orientation bit clear.
pub open spec fn valid_edge_byte(b: u8) -> bool {
    b < 32 && b % 16 < 12
}

/// A corner byte in the documented layout: index below 8, bit 3 clear,
/// orientation at most 2, the two top bits clear.
pub open spec fn valid_corner_byte(b: u8) -> bool {
    b < 48 && b % 16 < 8
}

impl Edge {
    /// The raw byte.
    pub fn byte(&self) -> (r: u8)
        ensures
            r == self.0,
    {
        self.0
    }

    /// The edge index stored in this slot.
    pub fn index(&self) -> (r: u8)
        ensures
            r as nat == edge_index(self.0),
    {
        self.0 % 16
    }

    /// The orientation stored in this slot.
    pub fn orientation(&self) -> (r: u8)
        ensures
            r as nat == edge_orientation(self.0),
    {
        (self.0 / 16) % 2
    }

    /// Whether the byte follows the edge layout.
    pub fn is_valid(&self) -> (r: bool)
        ensures
            r == valid_edge_byte(self.0),
    {
        self.0 < 32 && self.0 % 16 < 12
    }
}

impl Corner {
    /// The raw byte.
    pub fn byte(&self) -> (r: u8)
        ensures
            r == self.0,
    {
        self.0
    }

    /// The corner index stored in this slot.
    pub fn index(&self) -> (r: u8)
        ensures
            r as nat == corner_index(self.0),
    {
        self.0 % 8
    }

    /// The orientation stored in this slot.
    pub fn orientation(&self) -> (r: u8)
        ensures
            r as nat == corner_orientation(self.0),
    {
        (self.0 / 16) % 4
    }

    /// Whether the byte follows the corner layout.
    pub fn is_valid(&self) -> (r: bool)
        ensures
            r == valid_corner_byte(self.0),
    {
        self.0 < 48 && self.0 % 16 < 8
    }
}

} // verus!

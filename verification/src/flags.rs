//! Role tags of a segment, kept as a set of bits.
use vstd::prelude::*;

verus! {

pub const SENSOR: u32 = 0x1;

pub const JOINT: u32 = 0x4;

pub const MOUTH: u32 = 0x8;

pub const HEAD: u32 = 0x10;

pub const LEG: u32 = 0x20;

pub const ARM: u32 = 0x40;

pub const TORSO: u32 = 0x100;

pub const BELLY: u32 = 0x200;

pub const TAIL: u32 = 0x400;

pub const LEFT: u32 = 0x1000;

pub const RIGHT: u32 = 0x2000;

pub const MIDDLE: u32 = 0x4000;

pub const THRUSTER: u32 = 0x10000;

pub const RUDDER: u32 = 0x20000;

pub const BRAKE: u32 = 0x40000;

/// Every kind of actuator at once: thruster, rudder and brake.
pub const ACTUATOR: u32 = THRUSTER | RUDDER | BRAKE;

/// A set of role tags. Each tag is one bit; a segment carries the union of
/// the tags that apply to it.
#[derive(Clone, Copy, Debug, PartialEq, Eq, Structural)]
pub struct Flags {
    pub bits: u32,
}

impl Flags {
    /// True when every tag of `other` is also a tag of `self`.
    pub open spec fn has(self, other: Flags) -> bool {
        self.bits & other.bits == other.bits
    }

    /// The tags of either set.
    pub open spec fn or(self, other: Flags) -> Flags {
        Flags { bits: self.bits | other.bits }
    }

    pub fn empty() -> (f: Flags)
        ensures
            f.bits == 0,
    {
        Flags { bits: 0 }
    }

    pub fn from_bits(bits: u32) -> (f: Flags)
        ensures
            f.bits == bits,
    {
        Flags { bits }
    }

    pub fn bits(&self) -> (b: u32)
        ensures
            b == self.bits,
    {
        self.bits
    }

    pub fn contains(&self, other: Flags) -> (r: bool)
        ensures
            r == self.has(other),
    {
        self.bits & other.bits == other.bits
    }

    /// The tags of either set. The union holds every tag of both.
    pub fn union(self, other: Flags) -> (f: Flags)
        ensures
            f == self.or(other),
            f.has(self),
            f.has(other),
    {
        proof {
            Self::lemma_union_has(self, other);
        }
        Flags { bits: self.bits | other.bits }
    }

    /// A union holds every tag of both its sides, whichever side comes first.
    pub proof fn lemma_union_has(a: Flags, b: Flags)
        ensures
            a.or(b).has(a),
            a.or(b).has(b),
            a.or(b) == b.or(a),
    {
        let x = a.bits;
        let y = b.bits;
        assert((x | y) & x == x) by (bit_vector);
        assert((x | y) & y == y) by (bit_vector);
        assert(x | y == y | x) by (bit_vector);
    }
}

} // verus!

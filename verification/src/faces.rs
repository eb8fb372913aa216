//! The six faces of an axis-aligned cuboid, as a bit set.

use vstd::prelude::*;

verus! {

/// A set of cuboid faces. Each face owns one bit of `bits`; bits above the
/// sixth carry no face and are ignored by every query.
#[derive(Clone, Copy, Debug, PartialEq, Eq, Structural)]
pub struct CuboidFaces {
    pub bits: u8,
}

impl CuboidFaces {
    /// The face towards +z.
    #[verifier::allow_in_spec]
    pub fn top() -> CuboidFaces
        returns
            (CuboidFaces { bits: 0b100000 }),
    {
        CuboidFaces { bits: 0b100000 }
    }

    /// The face towards -z.
    #[verifier::allow_in_spec]
    pub fn bottom() -> CuboidFaces
        returns
            (CuboidFaces { bits: 0b010000 }),
    {
        CuboidFaces { bits: 0b010000 }
    }

    /// The face towards +y.
    #[verifier::allow_in_spec]
    pub fn front() -> CuboidFaces
        returns
            (CuboidFaces { bits: 0b001000 }),
    {
        CuboidFaces { bits: 0b001000 }
    }

    /// The face towards -y.
    #[verifier::allow_in_spec]
    pub fn back() -> CuboidFaces
        returns
            (CuboidFaces { bits: 0b000100 }),
    {
        CuboidFaces { bits: 0b000100 }
    }

    /// The face towards -x.
    #[verifier::allow_in_spec]
    pub fn left() -> CuboidFaces
        returns
            (CuboidFaces { bits: 0b000010 }),
    {
        CuboidFaces { bits: 0b000010 }
    }

    /// The face towards +x.
    #[verifier::allow_in_spec]
    pub fn right() -> CuboidFaces
        returns
            (CuboidFaces { bits: 0b000001 }),
    {
        CuboidFaces { bits: 0b000001 }
    }

    /// The set without any face.
    #[verifier::allow_in_spec]
    pub fn empty() -> CuboidFaces
        returns
            (CuboidFaces { bits: 0 }),
    {
        CuboidFaces { bits: 0 }
    }

    /// The set of all six faces.
    #[verifier::allow_in_spec]
    pub fn all() -> CuboidFaces
        returns
            (CuboidFaces { bits: 0b111111 }),
    {
        CuboidFaces { bits: 0b111111 }
    }

    /// The raw bit field.
    #[verifier::allow_in_spec]
    pub fn bits(self) -> u8
        returns
            self.bits,
    {
        self.bits
    }

    /// Whether every face of `other` is also in `self`.
    #[verifier::allow_in_spec]
    pub fn contains(self, other: CuboidFaces) -> bool
        returns
            self.bits & other.bits == other.bits,
    {
        self.bits & other.bits == other.bits
    }

    /// The faces that are in `self` or in `other`.
    #[verifier::allow_in_spec]
    pub fn union(self, other: CuboidFaces) -> CuboidFaces
        returns
            (CuboidFaces { bits: self.bits | other.bits }),
    {
        CuboidFaces { bits: self.bits | other.bits }
    }

    /// Whether `self` is exactly one of the six faces.
    pub open spec fn is_single(self) -> bool {
        ||| self == CuboidFaces::top()
        ||| self == CuboidFaces::bottom()
        ||| self == CuboidFaces::front()
        ||| self == CuboidFaces::back()
        ||| self == CuboidFaces::left()
        ||| self == CuboidFaces::right()
    }

    /// 1 if `self` holds the single face `face`, else 0.
    pub open spec fn has(self, face: CuboidFaces) -> nat {
        if self.contains(face) {
            1
        } else {
            0
        }
    }

    /// How many of the six faces are in `self`.
    pub open spec fn spec_count(self) -> nat {
        self.has(CuboidFaces::top()) + self.has(CuboidFaces::bottom()) + self.has(
            CuboidFaces::front(),
        ) + self.has(CuboidFaces::back()) + self.has(CuboidFaces::left()) + self.has(
            CuboidFaces::right(),
        )
    }

    /// How many of the six faces are in `self`.
    pub fn count(self) -> (n: u8)
        ensures
            n == self.spec_count(),
            n <= 6,
    {
        let mut n: u8 = 0;
        if self.contains(CuboidFaces::top()) {
            n = n + 1;
        }
        if self.contains(CuboidFaces::bottom()) {
            n = n + 1;
        }
        if self.contains(CuboidFaces::front()) {
            n = n + 1;
        }
        if self.contains(CuboidFaces::back()) {
            n = n + 1;
        }
        if self.contains(CuboidFaces::left()) {
            n = n + 1;
        }
        if self.contains(CuboidFaces::right()) {
            n = n + 1;
        }
        n
    }
}

/// A single face is in a union exactly when it is in one of the two sets.
pub proof fn lemma_union_contains(a: CuboidFaces, b: CuboidFaces, face: CuboidFaces)
    requires
        face.is_single(),
    ensures
        a.union(b).contains(face) == (a.contains(face) || b.contains(face)),
{
    let x = a.bits;
    let y = b.bits;
    let f = face.bits;
    assert(f == 1 || f == 2 || f == 4 || f == 8 || f == 16 || f == 32);
    assert(((x | y) & f == f) == ((x & f == f) || (y & f == f))) by (bit_vector)
        requires
            f == 1 || f == 2 || f == 4 || f == 8 || f == 16 || f == 32,
    ;
}

/// A single face holds another single face only if the two are the same.
pub proof fn lemma_single_contains(a: CuboidFaces, face: CuboidFaces)
    requires
        a.is_single(),
        face.is_single(),
    ensures
        a.contains(face) == (a == face),
{
    let x = a.bits;
    assert(x == 1 || x == 2 || x == 4 || x == 8 || x == 16 || x == 32);
    assert((x & 1 == 1) == (x == 1) && (x & 2 == 2) == (x == 2) && (x & 4 == 4) == (x == 4) && (x
        & 8 == 8) == (x == 8) && (x & 16 == 16) == (x == 16) && (x & 32 == 32) == (x == 32))
        by (bit_vector)
        requires
            x == 1 || x == 2 || x == 4 || x == 8 || x == 16 || x == 32,
    ;
}

} // verus!

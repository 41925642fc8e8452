//! The kinds of change a watch can report, as a set of flags in a `u32`.

use vstd::prelude::*;

verus! {

/// An entry was created.
pub const CREATE: u32 = 0x0001;

/// An entry was deleted.
pub const DELETE: u32 = 0x0002;

/// An entry was moved or renamed.
pub const MOVE: u32 = 0x0004;

/// An entry was read.
pub const ACCESS: u32 = 0x0008;

/// The metadata of an entry changed.
pub const ATTRIB: u32 = 0x0010;

/// The contents of an entry changed.
pub const MODIFY: u32 = 0x0020;

/// An entry was opened.
pub const OPEN: u32 = 0x0040;

/// An entry that was open for writing was closed.
pub const CLOSE_WRITE: u32 = 0x0080;

/// An entry that was open for reading only was closed.
pub const CLOSE_NOWRITE: u32 = 0x0100;

/// The file system that holds the entry was unmounted. Shares a bit with `OPEN`.
pub const UNMOUNT: u32 = 0x0240;

/// A file system was mounted.
pub const MOUNT: u32 = 0x0400;

/// The entry is a directory.
pub const IS_DIR: u32 = 0x0800;

/// The notification queue overflowed and changes were lost.
pub const OVERFLOW: u32 = 0x1000;

/// Every bit that belongs to some flag.
pub const ALL: u32 = 0x1fff;

/// A set of change kinds. Only bits of `ALL` are ever set.
#[derive(Clone, Copy, PartialEq, Eq, Debug, Hash, Structural)]
pub struct Operations {
    bits: u32,
}

impl View for Operations {
    type V = u32;

    closed spec fn view(&self) -> u32 {
        self.bits
    }
}

/// The set with the given bits, those that belong to no flag dropped.
pub closed spec fn spec_from_bits_truncate(bits: u32) -> Operations {
    Operations { bits: bits & ALL }
}

impl Operations {
    /// The type's invariant: no bit outside `ALL` is set.
    #[verifier::type_invariant]
    pub open spec fn wf(&self) -> bool {
        self@ & !ALL == 0
    }

    /// The set without any flag.
    pub fn empty() -> (r: Operations)
        ensures
            r@ == 0,
            r.wf(),
    {
        assert(0u32 & !ALL == 0) by (bit_vector);
        Operations { bits: 0 }
    }

    /// The set of all flags.
    pub fn all() -> (r: Operations)
        ensures
            r@ == ALL,
            r@ == CREATE | DELETE | MOVE | ACCESS | ATTRIB | MODIFY | OPEN | CLOSE_WRITE
                | CLOSE_NOWRITE | UNMOUNT | MOUNT | IS_DIR | OVERFLOW,
            r.wf(),
    {
        assert(ALL & !ALL == 0) by (bit_vector);
        assert(ALL == CREATE | DELETE | MOVE | ACCESS | ATTRIB | MODIFY | OPEN | CLOSE_WRITE
            | CLOSE_NOWRITE | UNMOUNT | MOUNT | IS_DIR | OVERFLOW) by (bit_vector);
        Operations { bits: ALL }
    }

    /// The flags as a number.
    pub fn bits(&self) -> (r: u32)
        ensures
            r == self@,
    {
        self.bits
    }

    /// The set with exactly the given bits, unless one of them belongs to no flag.
    pub fn from_bits(bits: u32) -> (r: Option<Operations>)
        ensures
            match r {
                Some(ops) => bits & !ALL == 0 && ops@ == bits,
                None => bits & !ALL != 0,
            },
    {
        if bits & !ALL == 0 {
            Some(Operations { bits })
        } else {
            None
        }
    }

    /// The set with the given bits, those that belong to no flag dropped.
    pub fn from_bits_truncate(bits: u32) -> (r: Operations)
        ensures
            r == spec_from_bits_truncate(bits),
            r@ == bits & ALL,
            r.wf(),
    {
        assert((bits & ALL) & !ALL == 0) by (bit_vector);
        Operations { bits: bits & ALL }
    }

    /// Whether no flag is set.
    pub fn is_empty(&self) -> (r: bool)
        ensures
            r == (self@ == 0),
    {
        self.bits == 0
    }

    /// Whether every flag is set.
    pub fn is_all(&self) -> (r: bool)
        ensures
            r == (self@ == ALL),
    {
        self.bits == ALL
    }

    /// Whether every flag of `other` is set in `self`.
    pub fn contains(&self, other: Operations) -> (r: bool)
        ensures
            r == (self@ & other@ == other@),
    {
        self.bits & other.bits == other.bits
    }

    /// Whether `self` and `other` have a flag in common.
    pub fn intersects(&self, other: Operations) -> (r: bool)
        ensures
            r == (self@ & other@ != 0),
    {
        self.bits & other.bits != 0
    }

    /// The flags set in `self` or in `other`.
    pub fn union(&self, other: Operations) -> (r: Operations)
        ensures
            r@ == self@ | other@,
            r.wf(),
    {
        proof {
            use_type_invariant(self);
            use_type_invariant(&other);
        }
        let a: u32 = self.bits;
        let b: u32 = other.bits;
        assert((a | b) & !ALL == 0) by (bit_vector)
            requires
                a & !ALL == 0,
                b & !ALL == 0,
        ;
        Operations { bits: a | b }
    }

    /// The flags set in both `self` and `other`.
    pub fn intersection(&self, other: Operations) -> (r: Operations)
        ensures
            r@ == self@ & other@,
            r.wf(),
    {
        proof {
            use_type_invariant(self);
        }
        let a: u32 = self.bits;
        let b: u32 = other.bits;
        assert((a & b) & !ALL == 0) by (bit_vector)
            requires
                a & !ALL == 0,
        ;
        Operations { bits: a & b }
    }
}

} // verus!

use vstd::prelude::*;

verus! {

/// Readable (`POLLIN`).
pub const IN: u32 = 0x0001;
/// Urgent data to read (`POLLPRI`).
pub const PRI: u32 = 0x0002;
/// Writable (`POLLOUT`).
pub const OUT: u32 = 0x0004;
/// Error condition (`POLLERR`).
pub const ERR: u32 = 0x0008;
/// Hang up (`POLLHUP`).
pub const HUP: u32 = 0x0010;
/// The peer closed its end for writing (`POLLRDHUP`).
pub const RDHUP: u32 = 0x2000;
/// Every event that an `IoEvents` can hold.
pub const ALL: u32 = 0x201f;

/// A set of I/O events, held as a bit mask of the constants above.
#[derive(Copy, Clone, Debug, PartialEq, Eq, Structural)]
pub struct IoEvents {
    bits: u32,
}

impl View for IoEvents {
    type V = u32;

    closed spec fn view(&self) -> u32 {
        self.bits
    }
}

impl IoEvents {
    /// An `IoEvents` holds only known events.
    #[verifier::type_invariant]
    pub open spec fn inv(self) -> bool {
        valid_io_events(self@)
    }

    /// The empty set.
    pub fn empty() -> (r: IoEvents)
        ensures
            r@ == 0,
            valid_io_events(r@),
    {
        assert(0u32 & !0x201fu32 == 0) by (bit_vector);
        IoEvents { bits: 0 }
    }

    /// The set of every known event.
    pub fn all() -> (r: IoEvents)
        ensures
            r@ == ALL,
            valid_io_events(r@),
    {
        assert(0x201fu32 & !0x201fu32 == 0) by (bit_vector);
        IoEvents { bits: ALL }
    }

    /// The events of `bits`, with the unknown bits dropped.
    pub fn from_bits_truncate(bits: u32) -> (r: IoEvents)
        ensures
            r@ == bits & ALL,
            valid_io_events(r@),
    {
        proof {
            lemma_from_bits_truncate_valid(bits);
        }
        IoEvents { bits: bits & ALL }
    }

    /// The bit mask of this set.
    pub fn bits(&self) -> (r: u32)
        ensures
            r == self@,
            valid_io_events(r),
    {
        proof {
            use_type_invariant(self);
        }
        self.bits
    }

    /// Whether the set is empty.
    pub fn is_empty(&self) -> (r: bool)
        ensures
            r == (self@ == 0),
    {
        self.bits == 0
    }

    /// Whether every event of `other` is in this set.
    pub fn contains(&self, other: IoEvents) -> (r: bool)
        ensures
            r == (self@ & other@ == other@),
    {
        self.bits & other.bits == other.bits
    }

    /// Whether this set and `other` have an event in common.
    pub fn intersects(&self, other: IoEvents) -> (r: bool)
        ensures
            r == (self@ & other@ != 0),
    {
        self.bits & other.bits != 0
    }

    /// The events that are in this set or in `other`.
    pub fn union(self, other: IoEvents) -> (r: IoEvents)
        ensures
            r@ == self@ | other@,
            valid_io_events(r@),
    {
        proof {
            use_type_invariant(&self);
            use_type_invariant(&other);
            lemma_union_valid(self@, other@);
        }
        IoEvents { bits: self.bits | other.bits }
    }

    /// The events that are in both this set and `other`.
    pub fn intersection(self, other: IoEvents) -> (r: IoEvents)
        ensures
            r@ == self@ & other@,
            valid_io_events(r@),
    {
        proof {
            use_type_invariant(&self);
            let (a, b) = (self@, other@);
            assert(a & !0x201fu32 == 0 ==> (a & b) & !0x201fu32 == 0) by (bit_vector);
        }
        IoEvents { bits: self.bits & other.bits }
    }
}

/// A bit mask holds only known events.
pub open spec fn valid_io_events(bits: u32) -> bool {
    bits & !ALL == 0
}

/// Every set made by `from_bits_truncate` holds only known events.
pub proof fn lemma_from_bits_truncate_valid(bits: u32)
    ensures
        valid_io_events(bits & ALL),
{
    assert((bits & 0x201f) & !0x201fu32 == 0) by (bit_vector);
}

/// The union of two valid masks is valid.
pub proof fn lemma_union_valid(a: u32, b: u32)
    requires
        valid_io_events(a),
        valid_io_events(b),
    ensures
        valid_io_events(a | b),
{
    assert(a & !0x201fu32 == 0 && b & !0x201fu32 == 0 ==> (a | b) & !0x201fu32 == 0)
        by (bit_vector);
}

/// Truncating a valid mask keeps it as it is.
pub proof fn lemma_truncate_valid_is_identity(bits: u32)
    requires
        valid_io_events(bits),
    ensures
        bits & ALL == bits,
{
    assert(bits & !0x201fu32 == 0 ==> bits & 0x201f == bits) by (bit_vector);
}

} // verus!

//! Compressed-packet metadata: the per-packet flag set.

use vstd::prelude::*;

verus! {

/// Every bit that names a flag: `KEY | CORRUPT | DISCARD`.
pub const PACKET_FLAGS_ALL_BITS: u8 = 0b111;

/// Per-packet flags, a set over three stable bits.
///
/// The bit values are part of the public API:
/// - key `0b001`: the packet starts a keyframe (FFmpeg `AV_PKT_FLAG_KEY`,
///   WebCodecs `'key'`).
/// - corrupt `0b010`: the packet is known to be corrupt (FFmpeg
///   `AV_PKT_FLAG_CORRUPT`).
/// - discard `0b100`: the packet should be skipped during reconstruction
///   (FFmpeg `AV_PKT_FLAG_DISCARD`).
///
/// A set built with [`PacketFlags::from_bits_retain`] may also carry bits
/// outside these three; every other constructor and operation keeps the
/// set within them, and [`PacketFlags::complement`] truncates to them.
#[derive(Debug, Clone, Copy, PartialEq, Eq, Structural, Hash)]
pub struct PacketFlags {
    bits: u8,
}

impl View for PacketFlags {
    type V = u8;

    /// The raw bits of the set.
    closed spec fn view(&self) -> u8 {
        self.bits
    }
}

impl PacketFlags {
    /// The set holding only the keyframe flag (`0b001`).
    pub fn key() -> (r: PacketFlags)
        ensures
            r@ == 0b001u8,
    {
        PacketFlags { bits: 0b001 }
    }

    /// The set holding only the known-corruption flag (`0b010`).
    pub fn corrupt() -> (r: PacketFlags)
        ensures
            r@ == 0b010u8,
    {
        PacketFlags { bits: 0b010 }
    }

    /// The set holding only the discard hint (`0b100`).
    pub fn discard() -> (r: PacketFlags)
        ensures
            r@ == 0b100u8,
    {
        PacketFlags { bits: 0b100 }
    }

    /// The empty set.
    pub fn empty() -> (r: PacketFlags)
        ensures
            r@ == 0u8,
    {
        PacketFlags { bits: 0 }
    }

    /// The set of every named flag.
    pub fn all() -> (r: PacketFlags)
        ensures
            r@ == PACKET_FLAGS_ALL_BITS,
    {
        PacketFlags { bits: PACKET_FLAGS_ALL_BITS }
    }

    /// Returns the raw bits of the set.
    pub fn bits(&self) -> (r: u8)
        ensures
            r == self@,
    {
        self.bits
    }

    /// The set with exactly these bits, or `None` when a bit outside the
    /// named flags is set.
    pub fn from_bits(bits: u8) -> (r: Option<PacketFlags>)
        ensures
            (bits & !PACKET_FLAGS_ALL_BITS == 0) ==> (r matches Some(f) && f@ == bits),
            (bits & !PACKET_FLAGS_ALL_BITS != 0) ==> r is None,
    {
        let truncated = bits & PACKET_FLAGS_ALL_BITS;
        if truncated == bits {
            assert((bits & PACKET_FLAGS_ALL_BITS == bits) == (bits & !PACKET_FLAGS_ALL_BITS == 0))
                by (bit_vector);
            Some(PacketFlags { bits })
        } else {
            assert((bits & PACKET_FLAGS_ALL_BITS == bits) == (bits & !PACKET_FLAGS_ALL_BITS == 0))
                by (bit_vector);
            None
        }
    }

    /// The set of the named flags among these bits; other bits are dropped.
    pub fn from_bits_truncate(bits: u8) -> (r: PacketFlags)
        ensures
            r@ == bits & PACKET_FLAGS_ALL_BITS,
    {
        PacketFlags { bits: bits & PACKET_FLAGS_ALL_BITS }
    }

    /// The set with exactly these bits, named or not.
    pub fn from_bits_retain(bits: u8) -> (r: PacketFlags)
        ensures
            r@ == bits,
    {
        PacketFlags { bits }
    }

    /// Whether no bit is set.
    pub fn is_empty(&self) -> (r: bool)
        ensures
            r == (self@ == 0u8),
    {
        self.bits == 0
    }

    /// Whether every named flag is set.
    pub fn is_all(&self) -> (r: bool)
        ensures
            r == (self@ & PACKET_FLAGS_ALL_BITS == PACKET_FLAGS_ALL_BITS),
    {
        let b = self.bits;
        assert((PACKET_FLAGS_ALL_BITS | b == b) == (b & PACKET_FLAGS_ALL_BITS == PACKET_FLAGS_ALL_BITS))
            by (bit_vector);
        PACKET_FLAGS_ALL_BITS | b == b
    }

    /// Whether the two sets share a bit.
    pub fn intersects(&self, other: PacketFlags) -> (r: bool)
        ensures
            r == (self@ & other@ != 0u8),
    {
        self.bits & other.bits != 0
    }

    /// Whether every bit of `other` is in this set.
    pub fn contains(&self, other: PacketFlags) -> (r: bool)
        ensures
            r == (self@ & other@ == other@),
    {
        self.bits & other.bits == other.bits
    }

    /// The bits in either set.
    pub fn union(self, other: PacketFlags) -> (r: PacketFlags)
        ensures
            r@ == self@ | other@,
    {
        PacketFlags { bits: self.bits | other.bits }
    }

    /// The bits in both sets.
    pub fn intersection(self, other: PacketFlags) -> (r: PacketFlags)
        ensures
            r@ == self@ & other@,
    {
        PacketFlags { bits: self.bits & other.bits }
    }

    /// The bits of this set that are not in `other`.
    pub fn difference(self, other: PacketFlags) -> (r: PacketFlags)
        ensures
            r@ == self@ & !other@,
    {
        PacketFlags { bits: self.bits & !other.bits }
    }

    /// The bits in exactly one of the two sets.
    pub fn symmetric_difference(self, other: PacketFlags) -> (r: PacketFlags)
        ensures
            r@ == self@ ^ other@,
    {
        PacketFlags { bits: self.bits ^ other.bits }
    }

    /// The named flags that are not in this set.
    pub fn complement(self) -> (r: PacketFlags)
        ensures
            r@ == !self@ & PACKET_FLAGS_ALL_BITS,
    {
        PacketFlags { bits: !self.bits & PACKET_FLAGS_ALL_BITS }
    }

    /// Adds the bits of `other`.
    pub fn insert(&mut self, other: PacketFlags)
        ensures
            final(self)@ == old(self)@ | other@,
    {
        self.bits = self.bits | other.bits;
    }

    /// Removes the bits of `other`.
    pub fn remove(&mut self, other: PacketFlags)
        ensures
            final(self)@ == old(self)@ & !other@,
    {
        self.bits = self.bits & !other.bits;
    }

    /// Flips the bits of `other`.
    pub fn toggle(&mut self, other: PacketFlags)
        ensures
            final(self)@ == old(self)@ ^ other@,
    {
        self.bits = self.bits ^ other.bits;
    }

    /// Adds the bits of `other` when `value` holds, removes them otherwise.
    pub fn set(&mut self, other: PacketFlags, value: bool)
        ensures
            value ==> final(self)@ == old(self)@ | other@,
            !value ==> final(self)@ == old(self)@ & !other@,
    {
        if value {
            self.insert(other);
        } else {
            self.remove(other);
        }
    }
}

impl Default for PacketFlags {
    /// The empty set.
    fn default() -> (r: Self)
        ensures
            r@ == 0u8,
    {
        PacketFlags { bits: 0 }
    }
}

impl core::ops::BitOr for PacketFlags {
    type Output = PacketFlags;

    /// The union of the two sets.
    fn bitor(self, rhs: PacketFlags) -> (r: PacketFlags) {
        PacketFlags { bits: self.bits | rhs.bits }
    }
}

impl vstd::std_specs::ops::BitOrSpecImpl for PacketFlags {
    open spec fn obeys_bitor_spec() -> bool {
        true
    }

    open spec fn bitor_req(self, rhs: PacketFlags) -> bool {
        true
    }

    open spec fn bitor_spec(self, rhs: PacketFlags) -> PacketFlags {
        PacketFlags::from_raw(self@ | rhs@)
    }
}

impl core::ops::BitAnd for PacketFlags {
    type Output = PacketFlags;

    /// The intersection of the two sets.
    fn bitand(self, rhs: PacketFlags) -> (r: PacketFlags) {
        PacketFlags { bits: self.bits & rhs.bits }
    }
}

impl vstd::std_specs::ops::BitAndSpecImpl for PacketFlags {
    open spec fn obeys_bitand_spec() -> bool {
        true
    }

    open spec fn bitand_req(self, rhs: PacketFlags) -> bool {
        true
    }

    open spec fn bitand_spec(self, rhs: PacketFlags) -> PacketFlags {
        PacketFlags::from_raw(self@ & rhs@)
    }
}

impl core::ops::BitXor for PacketFlags {
    type Output = PacketFlags;

    /// The symmetric difference of the two sets.
    fn bitxor(self, rhs: PacketFlags) -> (r: PacketFlags) {
        PacketFlags { bits: self.bits ^ rhs.bits }
    }
}

impl vstd::std_specs::ops::BitXorSpecImpl for PacketFlags {
    open spec fn obeys_bitxor_spec() -> bool {
        true
    }

    open spec fn bitxor_req(self, rhs: PacketFlags) -> bool {
        true
    }

    open spec fn bitxor_spec(self, rhs: PacketFlags) -> PacketFlags {
        PacketFlags::from_raw(self@ ^ rhs@)
    }
}

impl core::ops::Sub for PacketFlags {
    type Output = PacketFlags;

    /// The difference of the two sets.
    fn sub(self, rhs: PacketFlags) -> (r: PacketFlags) {
        PacketFlags { bits: self.bits & !rhs.bits }
    }
}

impl vstd::std_specs::ops::SubSpecImpl for PacketFlags {
    open spec fn obeys_sub_spec() -> bool {
        true
    }

    open spec fn sub_req(self, rhs: PacketFlags) -> bool {
        true
    }

    open spec fn sub_spec(self, rhs: PacketFlags) -> PacketFlags {
        PacketFlags::from_raw(self@ & !rhs@)
    }
}

impl core::ops::Not for PacketFlags {
    type Output = PacketFlags;

    /// The complement of the set within the named flags.
    fn not(self) -> (r: PacketFlags) {
        PacketFlags { bits: !self.bits & PACKET_FLAGS_ALL_BITS }
    }
}

impl vstd::std_specs::ops::NotSpecImpl for PacketFlags {
    open spec fn obeys_not_spec() -> bool {
        true
    }

    open spec fn not_req(self) -> bool {
        true
    }

    open spec fn not_spec(self) -> PacketFlags {
        PacketFlags::from_raw(!self@ & PACKET_FLAGS_ALL_BITS)
    }
}

impl PacketFlags {
    /// The set whose view is `bits`.
    pub closed spec fn from_raw(bits: u8) -> PacketFlags {
        PacketFlags { bits }
    }

    /// The set named by `bits` has those bits as its view, and a set is
    /// determined by its view.
    pub proof fn lemma_from_raw(bits: u8, f: PacketFlags)
        ensures
            PacketFlags::from_raw(bits)@ == bits,
            PacketFlags::from_raw(f@) == f,
    {
    }
}

// Laws of the flag set.

/// The union of two sets contains each of them.
pub proof fn law_union_contains_operands(a: PacketFlags, b: PacketFlags)
    ensures
        (a@ | b@) & a@ == a@,
        (a@ | b@) & b@ == b@,
{
    let (x, y) = (a@, b@);
    assert((x | y) & x == x && (x | y) & y == y) by (bit_vector);
}

/// Union, intersection and symmetric difference do not depend on the
/// order of their operands.
pub proof fn law_commutative(a: PacketFlags, b: PacketFlags)
    ensures
        a@ | b@ == b@ | a@,
        a@ & b@ == b@ & a@,
        a@ ^ b@ == b@ ^ a@,
{
    let (x, y) = (a@, b@);
    assert(x | y == y | x && x & y == y & x && x ^ y == y ^ x) by (bit_vector);
}

/// After inserting `o`, the set contains `o`; after removing `o`, the set
/// shares no bit with `o`; both leave every bit outside `o` as it was.
pub proof fn law_insert_remove(f: PacketFlags, o: PacketFlags)
    ensures
        (f@ | o@) & o@ == o@,
        (f@ & !o@) & o@ == 0,
        (f@ | o@) & !o@ == f@ & !o@,
        (f@ & !o@) & !o@ == f@ & !o@,
{
    let (x, y) = (f@, o@);
    assert((x | y) & y == y && (x & !y) & y == 0 && (x | y) & !y == x & !y && (x & !y) & !y == x
        & !y) by (bit_vector);
}

/// Toggling the same bits twice gives back the set it started from.
pub proof fn law_toggle_twice(f: PacketFlags, o: PacketFlags)
    ensures
        (f@ ^ o@) ^ o@ == f@,
{
    let (x, y) = (f@, o@);
    assert((x ^ y) ^ y == x) by (bit_vector);
}

/// A set splits into the bits it shares with `b` and the bits it does not.
pub proof fn law_difference_intersection_partition(a: PacketFlags, b: PacketFlags)
    ensures
        (a@ & !b@) | (a@ & b@) == a@,
        (a@ & !b@) & (a@ & b@) == 0,
{
    let (x, y) = (a@, b@);
    assert((x & !y) | (x & y) == x && (x & !y) & (x & y) == 0) by (bit_vector);
}

/// Symmetric difference is the union of the two differences.
pub proof fn law_symmetric_difference(a: PacketFlags, b: PacketFlags)
    ensures
        a@ ^ b@ == (a@ & !b@) | (b@ & !a@),
{
    let (x, y) = (a@, b@);
    assert(x ^ y == (x & !y) | (y & !x)) by (bit_vector);
}

/// Complementing twice truncates a set to the named flags; a set and its
/// complement share nothing and together make every named flag.
pub proof fn law_complement(f: PacketFlags)
    ensures
        !(!f@ & PACKET_FLAGS_ALL_BITS) & PACKET_FLAGS_ALL_BITS == f@ & PACKET_FLAGS_ALL_BITS,
        (!f@ & PACKET_FLAGS_ALL_BITS) & f@ == 0,
        ((!f@ & PACKET_FLAGS_ALL_BITS) | f@) & PACKET_FLAGS_ALL_BITS == PACKET_FLAGS_ALL_BITS,
{
    let x = f@;
    assert(!(!x & 7u8) & 7u8 == x & 7u8 && (!x & 7u8) & x == 0 && ((!x & 7u8) | x) & 7u8 == 7u8)
        by (bit_vector);
}

/// Reading a set's bits and rebuilding it gives the same set: exactly
/// (`from_bits_retain`) always, and through `from_bits` or
/// `from_bits_truncate` whenever the set holds only named flags.
pub proof fn law_bits_roundtrip(f: PacketFlags)
    ensures
        PacketFlags::from_raw(f@) == f,
        f@ & !PACKET_FLAGS_ALL_BITS == 0 ==> f@ & PACKET_FLAGS_ALL_BITS == f@,
{
    let x = f@;
    assert(x & !7u8 == 0 ==> x & 7u8 == x) by (bit_vector);
}

/// The three named flags are distinct single bits, and together they are
/// every named flag.
pub proof fn law_named_flags()
    ensures
        0b001u8 & 0b010u8 == 0,
        0b001u8 & 0b100u8 == 0,
        0b010u8 & 0b100u8 == 0,
        0b001u8 | 0b010u8 | 0b100u8 == PACKET_FLAGS_ALL_BITS,
{
    assert(0b001u8 & 0b010u8 == 0 && 0b001u8 & 0b100u8 == 0 && 0b010u8 & 0b100u8 == 0 && 0b001u8
        | 0b010u8 | 0b100u8 == 7u8) by (bit_vector);
}

} // verus!

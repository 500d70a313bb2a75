use vstd::prelude::*;

verus! {

/// Every bit set in `other` is set in `bits`.
pub open spec fn bits_contain(bits: u8, other: u8) -> bool {
    bits & other == other
}

/// A union of flags contains each of its two operands.
pub proof fn lemma_union_contains_operands(a: u8, b: u8)
    ensures
        bits_contain(a | b, a),
        bits_contain(a | b, b),
{
    assert((a | b) & a == a && (a | b) & b == b) by (bit_vector);
}

/// Every set of flags contains itself and the empty set.
pub proof fn lemma_contains_self_and_empty(a: u8)
    ensures
        bits_contain(a, a),
        bits_contain(a, 0),
{
    assert(a & a == a && a & 0 == 0) by (bit_vector);
}

/// Containment is transitive.
pub proof fn lemma_contains_transitive(a: u8, b: u8, c: u8)
    requires
        bits_contain(a, b),
        bits_contain(b, c),
    ensures
        bits_contain(a, c),
{
    assert(a & b == b && b & c == c ==> a & c == c) by (bit_vector);
}

/// Two distinct single-bit flags do not contain each other.
pub proof fn lemma_distinct_single_bits(a: u8, b: u8)
    requires
        a == 1 || a == 2,
        b == 1 || b == 2,
        a != b,
    ensures
        !bits_contain(a, b),
{
    assert((a == 1 || a == 2) && (b == 1 || b == 2) && a != b ==> a & b != b) by (bit_vector);
}

/// The set of graphics backends an instance may be created with.
#[derive(Clone, Copy, PartialEq, Eq, Structural, Debug)]
pub struct Backend {
    bits: u8,
}

impl View for Backend {
    type V = u8;

    closed spec fn view(&self) -> u8 {
        self.bits
    }
}

impl Backend {
    /// The Vulkan backend, bit 0.
    pub fn vulkan() -> (backend: Self)
        ensures
            backend@ == 1,
    {
        Backend { bits: 1 }
    }

    /// The Metal backend, bit 1.
    pub fn metal() -> (backend: Self)
        ensures
            backend@ == 2,
    {
        Backend { bits: 2 }
    }

    /// No backend at all.
    pub fn empty() -> (backend: Self)
        ensures
            backend@ == 0,
    {
        Backend { bits: 0 }
    }

    /// The raw bits of this set.
    pub fn bits(&self) -> (bits: u8)
        ensures
            bits == self@,
    {
        self.bits
    }

    /// Every backend of `other` is in this set.
    pub fn contains(&self, other: Self) -> (contained: bool)
        ensures
            contained == bits_contain(self@, other@),
    {
        self.bits & other.bits == other.bits
    }

    /// The backends that are in either set.
    pub fn union(self, other: Self) -> (backend: Self)
        ensures
            backend@ == self@ | other@,
    {
        Backend { bits: self.bits | other.bits }
    }
}

/// Optional features an instance may be created with.
#[derive(Clone, Copy, PartialEq, Eq, Structural, Debug)]
pub struct InstanceFeatures {
    bits: u8,
}

impl View for InstanceFeatures {
    type V = u8;

    closed spec fn view(&self) -> u8 {
        self.bits
    }
}

impl InstanceFeatures {
    /// Backend debug validation, bit 0.
    pub fn debug() -> (features: Self)
        ensures
            features@ == 1,
    {
        InstanceFeatures { bits: 1 }
    }

    /// No feature at all.
    pub fn empty() -> (features: Self)
        ensures
            features@ == 0,
    {
        InstanceFeatures { bits: 0 }
    }

    /// The raw bits of this set.
    pub fn bits(&self) -> (bits: u8)
        ensures
            bits == self@,
    {
        self.bits
    }

    /// Every feature of `other` is in this set.
    pub fn contains(&self, other: Self) -> (contained: bool)
        ensures
            contained == bits_contain(self@, other@),
    {
        self.bits & other.bits == other.bits
    }

    /// The features that are in either set.
    pub fn union(self, other: Self) -> (features: Self)
        ensures
            features@ == self@ | other@,
    {
        InstanceFeatures { bits: self.bits | other.bits }
    }
}

/// Optional features an adapter may support.
#[derive(Clone, Copy, PartialEq, Eq, Structural, Debug)]
pub struct AdapterFeatures {
    bits: u8,
}

impl View for AdapterFeatures {
    type V = u8;

    closed spec fn view(&self) -> u8 {
        self.bits
    }
}

impl AdapterFeatures {
    /// Multi-draw indirect, bit 0.
    pub fn multi_draw_indirect() -> (features: Self)
        ensures
            features@ == 1,
    {
        AdapterFeatures { bits: 1 }
    }

    /// Draw indirect count, bit 1.
    pub fn draw_indirect_count() -> (features: Self)
        ensures
            features@ == 2,
    {
        AdapterFeatures { bits: 2 }
    }

    /// No feature at all.
    pub fn empty() -> (features: Self)
        ensures
            features@ == 0,
    {
        AdapterFeatures { bits: 0 }
    }

    /// The raw bits of this set.
    pub fn bits(&self) -> (bits: u8)
        ensures
            bits == self@,
    {
        self.bits
    }

    /// Every feature of `other` is in this set.
    pub fn contains(&self, other: Self) -> (contained: bool)
        ensures
            contained == bits_contain(self@, other@),
    {
        self.bits & other.bits == other.bits
    }

    /// The features that are in either set.
    pub fn union(self, other: Self) -> (features: Self)
        ensures
            features@ == self@ | other@,
    {
        AdapterFeatures { bits: self.bits | other.bits }
    }
}

} // verus!

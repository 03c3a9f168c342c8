//! Options for memory-mapped deserialization.

use vstd::prelude::*;
use vstd::string::StringSliceAdditionalSpecFns;

verus! {

/// The bits of all the defined flags.
pub open spec fn spec_all_bits() -> u32 {
    7
}

/// The bits of the flag with the given name, as UTF-8 bytes, if there is one.
pub open spec fn spec_named_bits(name: Seq<u8>) -> Option<u32> {
    if name == "TRANSPARENT_HUGE_PAGES".spec_bytes() {
        Some(1)
    } else if name == "SEQUENTIAL".spec_bytes() {
        Some(2)
    } else if name == "RANDOM_ACCESS".spec_bytes() {
        Some(4)
    } else {
        None
    }
}

/// Whether two byte slices hold the same bytes.
fn bytes_eq(a: &[u8], b: &[u8]) -> (r: bool)
    ensures
        r == (a@ == b@),
{
    if a.len() != b.len() {
        return false;
    }
    let mut i: usize = 0;
    while i < a.len()
        invariant
            i <= a@.len(),
            a@.len() == b@.len(),
            a@.take(i as int) == b@.take(i as int),
        decreases a@.len() - i,
    {
        if a[i] != b[i] {
            assert(a@[i as int] != b@[i as int]);
            return false;
        }
        i = i + 1;
        assert(a@.take(i as int) =~= b@.take(i as int)) by {
            assert(a@.take(i as int) =~= a@.take(i - 1).push(a@[i - 1]));
            assert(b@.take(i as int) =~= b@.take(i - 1).push(b@[i - 1]));
        }
    }
    assert(a@ =~= a@.take(i as int));
    assert(b@ =~= b@.take(i as int));
    true
}

/// Flags for memory mapping and loading with `mmap()`: a set of bits of which the
/// three defined ones are [`Flags::transparent_huge_pages`], [`Flags::sequential`]
/// and [`Flags::random_access`].
#[derive(Clone, Copy, Debug, PartialEq, Eq, Structural, Hash)]
pub struct Flags {
    bits: u32,
}

impl View for Flags {
    type V = u32;

    closed spec fn view(&self) -> u32 {
        self.bits
    }
}

impl Flags {
    /// Suggest to map a region using transparent huge pages. This flag is only a
    /// suggestion, and it is ignored if the kernel does not support transparent huge
    /// pages. It is mainly useful to support `madvise()`-based huge pages on Linux.
    /// Note that at the time of this writing Linux does not support transparent huge
    /// pages in file-based memory mappings.
    pub fn transparent_huge_pages() -> (r: Flags)
        ensures
            r@ == 1,
    {
        Flags { bits: 1 }
    }

    /// Suggest that the mapped region will be accessed sequentially.
    ///
    /// This flag is only a suggestion, and it is ignored if the kernel does not support
    /// it. It is mainly useful to support `madvise()` on Linux.
    pub fn sequential() -> (r: Flags)
        ensures
            r@ == 2,
    {
        Flags { bits: 2 }
    }

    /// Suggest that the mapped region will be accessed randomly.
    ///
    /// This flag is only a suggestion, and it is ignored if the kernel does not support
    /// it. It is mainly useful to support `madvise()` on Linux.
    pub fn random_access() -> (r: Flags)
        ensures
            r@ == 4,
    {
        Flags { bits: 4 }
    }

    /// No flags.
    pub fn empty() -> (r: Flags)
        ensures
            r@ == 0,
    {
        Flags { bits: 0 }
    }

    /// All the defined flags.
    pub fn all() -> (r: Flags)
        ensures
            r@ == spec_all_bits(),
    {
        Flags { bits: 7 }
    }

    /// The bits of the flags.
    pub fn bits(&self) -> (r: u32)
        ensures
            r == self@,
    {
        self.bits
    }

    /// The flags with the given bits, if they are all defined.
    pub fn from_bits(bits: u32) -> (r: Option<Flags>)
        ensures
            r is Some <==> bits & !spec_all_bits() == 0,
            r matches Some(f) ==> f@ == bits,
    {
        if bits & !7u32 == 0 {
            Some(Flags { bits })
        } else {
            None
        }
    }

    /// The flags with the defined bits among the given ones.
    pub fn from_bits_truncate(bits: u32) -> (r: Flags)
        ensures
            r@ == bits & spec_all_bits(),
    {
        Flags { bits: bits & 7 }
    }

    /// The flags with exactly the given bits, defined or not.
    pub fn from_bits_retain(bits: u32) -> (r: Flags)
        ensures
            r@ == bits,
    {
        Flags { bits }
    }

    /// Whether no flag is set.
    pub fn is_empty(&self) -> (r: bool)
        ensures
            r == (self@ == 0),
    {
        self.bits == 0
    }

    /// Whether all the defined flags are set.
    pub fn is_all(&self) -> (r: bool)
        ensures
            r == (self@ & spec_all_bits() == spec_all_bits()),
    {
        self.bits & 7 == 7
    }

    /// Whether all the flags of `other` are set.
    pub fn contains(&self, other: Flags) -> (r: bool)
        ensures
            r == (self@ & other@ == other@),
    {
        self.bits & other.bits == other.bits
    }

    /// Whether some flag of `other` is set.
    pub fn intersects(&self, other: Flags) -> (r: bool)
        ensures
            r == (self@ & other@ != 0),
    {
        self.bits & other.bits != 0
    }

    /// The flags set here or in `other`.
    pub fn union(self, other: Flags) -> (r: Flags)
        ensures
            r@ == self@ | other@,
    {
        Flags { bits: self.bits | other.bits }
    }

    /// The flags set both here and in `other`.
    pub fn intersection(self, other: Flags) -> (r: Flags)
        ensures
            r@ == self@ & other@,
    {
        Flags { bits: self.bits & other.bits }
    }

    /// The flags set either here or in `other`, but not in both.
    pub fn symmetric_difference(self, other: Flags) -> (r: Flags)
        ensures
            r@ == self@ ^ other@,
    {
        Flags { bits: self.bits ^ other.bits }
    }

    /// The flag with the given name, if there is one.
    pub fn from_name(name: &str) -> (r: Option<Flags>)
        ensures
            r is Some <==> spec_named_bits(name.spec_bytes()) is Some,
            r matches Some(f) ==> spec_named_bits(name.spec_bytes()) == Some(f@),
    {
        let bytes = name.as_bytes();
        if bytes_eq(bytes, "TRANSPARENT_HUGE_PAGES".as_bytes()) {
            Some(Flags::transparent_huge_pages())
        } else if bytes_eq(bytes, "SEQUENTIAL".as_bytes()) {
            Some(Flags::sequential())
        } else if bytes_eq(bytes, "RANDOM_ACCESS".as_bytes()) {
            Some(Flags::random_access())
        } else {
            None
        }
    }

    /// The flags set here but not in `other`.
    pub fn difference(self, other: Flags) -> (r: Flags)
        ensures
            r@ == self@ & !other@,
    {
        Flags { bits: self.bits & !other.bits }
    }

    /// The defined flags that are not set here.
    pub fn complement(self) -> (r: Flags)
        ensures
            r@ == !self@ & spec_all_bits(),
    {
        Flags { bits: !self.bits & 7 }
    }

    /// Set the flags of `other`; afterwards they are all contained.
    pub fn insert(&mut self, other: Flags)
        ensures
            final(self)@ == old(self)@ | other@,
            final(self)@ & other@ == other@,
    {
        let a = self.bits;
        let b = other.bits;
        assert((a | b) & b == b) by (bit_vector);
        self.bits = a | b;
    }

    /// Clear the flags of `other`; afterwards none of them is set.
    pub fn remove(&mut self, other: Flags)
        ensures
            final(self)@ == old(self)@ & !other@,
            final(self)@ & other@ == 0,
    {
        let a = self.bits;
        let b = other.bits;
        assert((a & !b) & b == 0) by (bit_vector);
        self.bits = a & !b;
    }

    /// Flip the flags of `other`.
    pub fn toggle(&mut self, other: Flags)
        ensures
            final(self)@ == old(self)@ ^ other@,
    {
        self.bits = self.bits ^ other.bits;
    }

    /// Set the flags of `other` if `value`, clear them otherwise.
    pub fn set(&mut self, other: Flags, value: bool)
        ensures
            final(self)@ == if value { old(self)@ | other@ } else { old(self)@ & !other@ },
    {
        if value {
            self.insert(other);
        } else {
            self.remove(other);
        }
    }
}

/// Empty flags.
impl Default for Flags {
    fn default() -> (r: Flags)
        ensures
            r@ == 0,
    {
        Flags::empty()
    }
}

} // verus!

//! ε-copy view of a slice of zero-copy values.

use vstd::prelude::*;
use crate::traits::ZeroCopy;

verus! {

/// The `i`-th image of a sequence of consecutive images of `T`.
pub open spec fn spec_image_at<T: ZeroCopy>(data: Seq<u8>, i: int) -> Seq<u8> {
    data.subrange(i * T::spec_image_len(), (i + 1) * T::spec_image_len())
}

/// Whether the first `n` consecutive images of `T` in `data` are valid.
pub open spec fn spec_valid_images<T: ZeroCopy>(data: Seq<u8>, n: nat) -> bool {
    forall|i: int| 0 <= i < n ==> T::spec_valid_image(#[trigger] spec_image_at::<T>(data, i))
}

/// The values whose images are the first `n` consecutive images of `T` in `data`.
pub open spec fn spec_zero_items<T: ZeroCopy>(data: Seq<u8>, n: nat) -> Seq<T> {
    Seq::new(n, |i: int| T::spec_from_image(spec_image_at::<T>(data, i)))
}

/// Image `i + 1` starts where image `i` ends, and the first `n` images fit in `n` lengths.
pub proof fn lemma_image_offsets(il: nat, i: nat, n: nat)
    requires
        i < n,
    ensures
        (i + 1) * il == i * il + il,
        (i + 1) * il <= n * il,
{
    assert((i + 1) * il == i * il + il) by (nonlinear_arith);
    assert((i + 1) * il <= n * il) by (nonlinear_arith)
        requires
            i + 1 <= n,
    ;
}

/// Decode `n` consecutive images of `T`.
pub fn decode_images<T: ZeroCopy>(bytes: &[u8], n: usize) -> (r: Vec<T>)
    requires
        bytes@.len() == n * T::spec_image_len(),
        spec_valid_images::<T>(bytes@, n as nat),
    ensures
        r@ == spec_zero_items::<T>(bytes@, n as nat),
{
    let total = bytes.len();
    let il = match T::image_len() {
        Some(il) => il,
        None => {
            if n != 0 {
                assert(n * T::spec_image_len() >= T::spec_image_len()) by (nonlinear_arith)
                    requires
                        n >= 1,
                ;
            }
            0
        },
    };
    let mut res: Vec<T> = Vec::new();
    let mut i: usize = 0;
    let mut off: usize = 0;
    while i < n
        invariant
            i <= n,
            n > 0 ==> il == T::spec_image_len(),
            off == i * il,
            bytes@.len() == n * il,
            total == bytes@.len(),
            spec_valid_images::<T>(bytes@, n as nat),
            res@ == spec_zero_items::<T>(bytes@, i as nat),
        decreases n - i,
    {
        proof { lemma_image_offsets(il as nat, i as nat, n as nat); }
        let image = vstd::slice::slice_subrange(bytes, off, off + il);
        assert(image@ == spec_image_at::<T>(bytes@, i as int));
        res.push(T::from_image(image));
        i = i + 1;
        off = off + il;
        assert(res@ =~= spec_zero_items::<T>(bytes@, i as nat));
    }
    res
}

/// Whether the `n` consecutive images of `T` in `bytes` are valid.
pub fn valid_images<T: ZeroCopy>(bytes: &[u8], n: usize) -> (r: bool)
    requires
        bytes@.len() == n * T::spec_image_len(),
    ensures
        r == spec_valid_images::<T>(bytes@, n as nat),
{
    let total = bytes.len();
    let il = match T::image_len() {
        Some(il) => il,
        None => {
            if n != 0 {
                assert(n * T::spec_image_len() >= T::spec_image_len()) by (nonlinear_arith)
                    requires
                        n >= 1,
                ;
            }
            0
        },
    };
    let mut i: usize = 0;
    let mut off: usize = 0;
    while i < n
        invariant
            i <= n,
            n > 0 ==> il == T::spec_image_len(),
            off == i * il,
            bytes@.len() == n * il,
            total == bytes@.len(),
            forall|j: int| 0 <= j < i ==> T::spec_valid_image(#[trigger] spec_image_at::<T>(bytes@, j)),
        decreases n - i,
    {
        proof { lemma_image_offsets(il as nat, i as nat, n as nat); }
        let image = vstd::slice::slice_subrange(bytes, off, off + il);
        assert(image@ == spec_image_at::<T>(bytes@, i as int));
        if !T::is_valid_image(image) {
            return false;
        }
        i = i + 1;
        off = off + il;
    }
    true
}

/// A slice of zero-copy values read in place: it borrows the images from the
/// bytes it was deserialized from and decodes an item when it is accessed.
pub struct ZeroSlice<'a, T: ZeroCopy> {
    /// The images of the items, one after the other.
    bytes: &'a [u8],
    /// The number of items.
    len: usize,
    /// The type of the items.
    marker: core::marker::PhantomData<T>,
}

impl<'a, T: ZeroCopy> ZeroSlice<'a, T> {
    /// The bytes are exactly `len` valid images.
    #[verifier::type_invariant]
    closed spec fn inv(self) -> bool {
        &&& self.bytes@.len() == self.len * T::spec_image_len()
        &&& spec_valid_images::<T>(self.bytes@, self.len as nat)
    }

    /// The images of the items.
    pub closed spec fn spec_bytes(&self) -> Seq<u8> {
        self.bytes@
    }

    /// View `len` valid images as a slice.
    pub fn from_images(bytes: &'a [u8], len: usize) -> (r: Self)
        requires
            bytes@.len() == len * T::spec_image_len(),
            spec_valid_images::<T>(bytes@, len as nat),
        ensures
            r@ == spec_zero_items::<T>(bytes@, len as nat),
            r.spec_bytes() == bytes@,
    {
        ZeroSlice { bytes, len, marker: core::marker::PhantomData }
    }

    /// The number of items.
    pub fn len(&self) -> (r: usize)
        ensures
            r == self@.len(),
    {
        self.len
    }

    /// Whether there are no items.
    pub fn is_empty(&self) -> (r: bool)
        ensures
            r == (self@.len() == 0),
    {
        self.len == 0
    }

    /// The item at index `i`.
    pub fn get(&self, i: usize) -> (r: T)
        requires
            i < self@.len(),
        ensures
            r == self@[i as int],
    {
        proof {
            use_type_invariant(self);
            lemma_image_offsets(T::spec_image_len(), i as nat, self.len as nat);
        }
        let total = self.bytes.len();
        assert(self.len * T::spec_image_len() >= T::spec_image_len()) by (nonlinear_arith)
            requires
                self.len >= 1,
        ;
        let il = match T::image_len() {
            Some(il) => il,
            None => 0,
        };
        assert(i * il + il <= total);
        let image = vstd::slice::slice_subrange(self.bytes, i * il, i * il + il);
        assert(image@ == spec_image_at::<T>(self.bytes@, i as int));
        T::from_image(image)
    }

    /// The items, copied into a vector.
    pub fn to_vec(&self) -> (r: Vec<T>)
        ensures
            r@ == self@,
    {
        proof { use_type_invariant(self); }
        decode_images(self.bytes, self.len)
    }

    /// The images of the items, as stored.
    pub fn as_bytes(&self) -> (r: &'a [u8])
        ensures
            r@ == self.spec_bytes(),
            r@.len() == self@.len() * T::spec_image_len(),
            spec_valid_images::<T>(r@, self@.len()),
            spec_zero_items::<T>(r@, self@.len()) == self@,
    {
        proof { use_type_invariant(self); }
        self.bytes
    }
}

impl<'a, T: ZeroCopy> View for ZeroSlice<'a, T> {
    type V = Seq<T>;

    closed spec fn view(&self) -> Seq<T> {
        spec_zero_items::<T>(self.bytes@, self.len as nat)
    }
}

} // verus!

//! Basic traits that must be implemented by all types using ε-serde: type and
//! representation hashes, alignment information, and the zero-copy/deep-copy marker.

use vstd::prelude::*;
use vstd::layout::*;
use vstd::string::StringSliceAdditionalSpecFns;
use crate::bytes::{spec_usize_le, usize_to_le};
use crate::{pad_align_to, spec_padding, is_pow2_align};
use crate::ser::SerializeInner;

verus! {

/// The 64-bit XXH3 digest (seed zero, default secret) of a byte sequence.
pub uninterp spec fn xxh3_64_spec(input: Seq<u8>) -> u64;

/// Calls `xxhash_rust::xxh3::xxh3_64`; its result is named [`xxh3_64_spec`] of the input.
#[verifier::external_body]
fn xxh3_64(input: &[u8]) -> (r: u64)
    ensures
        r == xxh3_64_spec(input@),
{
    xxhash_rust::xxh3::xxh3_64(input)
}

/// The hasher fed by [`TypeHash`] and [`ReprHash`]. It collects the bytes it is fed
/// and digests them with XXH3 when finished, which is what a streaming XXH3 hasher
/// fed the same bytes returns.
pub struct TypeHasher {
    data: Vec<u8>,
}

impl View for TypeHasher {
    type V = Seq<u8>;

    closed spec fn view(&self) -> Seq<u8> {
        self.data@
    }
}

/// The bytes that hashing the string `s` feeds to a hasher: its UTF-8 bytes and `0xff`.
pub open spec fn spec_str_hash_input(s: &str) -> Seq<u8> {
    s.spec_bytes().push(0xffu8)
}

impl TypeHasher {
    /// A hasher that has been fed nothing.
    pub fn new() -> (r: Self)
        ensures
            r@ == Seq::<u8>::empty(),
    {
        TypeHasher { data: Vec::new() }
    }

    /// Feed some bytes.
    pub fn write(&mut self, bytes: &[u8])
        ensures
            final(self)@ == old(self)@ + bytes@,
    {
        let mut i: usize = 0;
        while i < bytes.len()
            invariant
                i <= bytes@.len(),
                self@ == old(self)@ + bytes@.take(i as int),
            decreases bytes@.len() - i,
        {
            self.data.push(bytes[i]);
            i = i + 1;
            assert(bytes@.take(i as int) == bytes@.take((i - 1) as int).push(bytes@[i - 1]));
        }
        assert(bytes@.take(i as int) == bytes@);
    }

    /// Feed a `usize`, as its image.
    pub fn write_usize(&mut self, value: usize)
        ensures
            final(self)@ == old(self)@ + spec_usize_le(value),
    {
        let image = usize_to_le(value);
        self.write(image.as_slice());
    }

    /// Feed a string, as `Hash` does: its bytes followed by `0xff`.
    pub fn write_str(&mut self, s: &str)
        ensures
            final(self)@ == old(self)@ + spec_str_hash_input(s),
    {
        self.write(s.as_bytes());
        self.data.push(0xffu8);
        assert(self@ == old(self)@ + spec_str_hash_input(s));
    }

    /// The XXH3 digest of all the bytes fed so far.
    pub fn finish(&self) -> (r: u64)
        ensures
            r == xxh3_64_spec(self@),
    {
        xxh3_64(self.data.as_slice())
    }
}

/// A trait giving the name of a type, recursively naming its parameters
/// (for instance, `Vec<Option<u32>>`). The name is stable across compilers,
/// unlike the compiler-provided name, and is used in headers and schemas.
pub trait TypeName {
    /// The name of the type.
    spec fn spec_type_name() -> Seq<char>;

    /// The name of the type.
    fn type_name_str() -> (r: String)
        ensures
            r@ == Self::spec_type_name(),
    ;

    /// Call [`TypeName::type_name_str`] on a value.
    fn type_name_val(&self) -> (r: String)
        ensures
            r@ == Self::spec_type_name(),
    {
        Self::type_name_str()
    }
}

/// Recursively compute a type hash for a type.
///
/// [`TypeHash::type_hash`] is used to check that the type of the data being
/// deserialized matches syntactically the type of the data that was written.
/// It feeds the hasher the name of the type and of its parameters.
pub trait TypeHash {
    /// The bytes that [`TypeHash::type_hash`] feeds to the hasher.
    spec fn spec_type_hash_input() -> Seq<u8>;

    /// Accumulate type information in `hasher`.
    fn type_hash(hasher: &mut TypeHasher)
        ensures
            final(hasher)@ == old(hasher)@ + Self::spec_type_hash_input(),
    ;

    /// Call [`TypeHash::type_hash`] on a value.
    fn type_hash_val(&self, hasher: &mut TypeHasher)
        ensures
            final(hasher)@ == old(hasher)@ + Self::spec_type_hash_input(),
    {
        Self::type_hash(hasher)
    }
}

/// Recursively compute a representational hash for a type.
///
/// At each call a zero-copy type looks at `offset_of`, assuming that the type is
/// stored at that offset in the structure, hashes in the padding necessary to make
/// `offset_of` a multiple of its alignment, hashes in its size, and finally
/// increases `offset_of` by padding and size.
pub trait ReprHash {
    /// The bytes fed to the hasher and the offset reached when the type is
    /// placed at `offset_of`.
    spec fn spec_repr_hash(offset_of: nat) -> (Seq<u8>, nat);

    /// Accumulate representational information in `hasher` assuming to
    /// be positioned at `offset_of`.
    fn repr_hash(hasher: &mut TypeHasher, offset_of: &mut usize)
        requires
            Self::spec_repr_hash(*old(offset_of) as nat).1 <= usize::MAX,
        ensures
            final(hasher)@ == old(hasher)@ + Self::spec_repr_hash(*old(offset_of) as nat).0,
            *final(offset_of) == Self::spec_repr_hash(*old(offset_of) as nat).1,
    ;

    /// Call [`ReprHash::repr_hash`] on a value.
    fn repr_hash_val(&self, hasher: &mut TypeHasher, offset_of: &mut usize)
        requires
            Self::spec_repr_hash(*old(offset_of) as nat).1 <= usize::MAX,
        ensures
            final(hasher)@ == old(hasher)@ + Self::spec_repr_hash(*old(offset_of) as nat).0,
            *final(offset_of) == Self::spec_repr_hash(*old(offset_of) as nat).1,
    {
        Self::repr_hash(hasher, offset_of)
    }
}

/// The type hash of `T` stored in headers: the digest of what [`TypeHash::type_hash`] feeds.
pub open spec fn spec_type_hash<T: TypeHash>() -> u64 {
    xxh3_64_spec(T::spec_type_hash_input())
}

/// The representation hash of `T` stored in headers: the digest of what
/// [`ReprHash::repr_hash`] feeds when `T` is placed at offset zero.
pub open spec fn spec_repr_hash_value<T: ReprHash>() -> u64 {
    xxh3_64_spec(T::spec_repr_hash(0).0)
}

/// Compute the type hash of `T`.
pub fn type_hash_of<T: TypeHash>() -> (r: u64)
    ensures
        r == spec_type_hash::<T>(),
{
    let mut hasher = TypeHasher::new();
    T::type_hash(&mut hasher);
    assert(hasher@ =~= T::spec_type_hash_input());
    hasher.finish()
}

/// Compute the representation hash of `T` placed at offset zero.
pub fn repr_hash_of<T: ReprHash>() -> (r: u64)
    requires
        T::spec_repr_hash(0).1 <= usize::MAX,
    ensures
        r == spec_repr_hash_value::<T>(),
{
    let mut hasher = TypeHasher::new();
    let mut offset_of: usize = 0;
    T::repr_hash(&mut hasher, &mut offset_of);
    assert(hasher@ =~= T::spec_repr_hash(0).0);
    hasher.finish()
}

/// What [`std_repr_hash`] feeds and reaches for a type of the given alignment and size
/// placed at `offset_of`: the padding and the size, as `usize` images.
pub open spec fn spec_std_repr_hash(offset_of: nat, align: nat, size: nat) -> (Seq<u8>, nat) {
    let padding = spec_padding(offset_of, align as usize);
    (spec_usize_le(padding as usize) + spec_usize_le(size as usize), offset_of + padding + size)
}

/// The representation hash of a basic sized type `T`.
pub open spec fn spec_std_repr_hash_of<T>(offset_of: nat) -> (Seq<u8>, nat) {
    spec_std_repr_hash(offset_of, align_of::<T>(), size_of::<T>())
}

/// A reasonable implementation of [`ReprHash::repr_hash`] for basic sized types.
pub fn std_repr_hash<T>(hasher: &mut TypeHasher, offset_of: &mut usize)
    requires
        spec_std_repr_hash_of::<T>(*old(offset_of) as nat).1 <= usize::MAX,
    ensures
        final(hasher)@ == old(hasher)@ + spec_std_repr_hash_of::<T>(*old(offset_of) as nat).0,
        *final(offset_of) == spec_std_repr_hash_of::<T>(*old(offset_of) as nat).1,
{
    layout_for_type_is_valid::<T>();
    let align = core::mem::align_of::<T>();
    let size = core::mem::size_of::<T>();
    let padding = pad_align_to(*offset_of, align);
    hasher.write_usize(padding);
    hasher.write_usize(size);
    *offset_of = *offset_of + padding + size;
}

/// A trait providing the maximum size of a primitive field in a type
/// maximized with its alignment.
///
/// We use the value returned by [`MaxSizeOf::max_size_of`] to generate padding
/// before storing a zero-copy type, which increases interoperability between
/// architectures with different alignment requirements for the same types.
pub trait MaxSizeOf: Sized {
    /// The value returned by [`MaxSizeOf::max_size_of`].
    spec fn spec_max_size_of() -> usize;

    /// The maximum size of a primitive field.
    fn max_size_of() -> (r: usize)
        ensures
            r == Self::spec_max_size_of(),
    ;
}

/// The supertrait that keeps [`CopySelector`] closed to [`Zero`] and [`Deep`].
pub trait Sealed {}

/// Internal trait used to select whether a type is zero-copy or deep-copy.
///
/// It has only two implementations, [`Zero`] and [`Deep`].
pub trait CopySelector: Sealed {
    const IS_ZERO_COPY: bool;
}

/// An implementation of a [`CopySelector`] specifying that a type is zero-copy.
pub struct Zero {}

impl Sealed for Zero {}

impl CopySelector for Zero {
    const IS_ZERO_COPY: bool = true;
}

/// An implementation of a [`CopySelector`] specifying that a type is deep-copy.
pub struct Deep {}

impl Sealed for Deep {}

impl CopySelector for Deep {
    const IS_ZERO_COPY: bool = false;
}

/// Marker trait for data specifying whether it is zero-copy or deep-copy.
///
/// Types whose `Copy` is [`Zero`] are [`ZeroCopy`]: their values are stored as a
/// fixed-size image and sequences of them can be ε-copy deserialized. Types whose
/// `Copy` is [`Deep`] are [`DeepCopy`] and are deserialized field by field.
pub trait CopyType: Sized {
    type Copy: CopySelector;
}

/// `n` as a `usize`, when it is representable.
pub open spec fn spec_fit_usize(n: nat) -> Option<usize> {
    if n <= usize::MAX {
        Some(n as usize)
    } else {
        None
    }
}

/// Zero-copy types: fixed-size values stored as their byte image.
///
/// The image of a value is its in-memory representation on a little-endian machine;
/// a slice of zero-copy values is stored as the concatenation of their images.
pub trait ZeroCopy: CopyType<Copy = Zero> + MaxSizeOf + SerializeInner + Sized {
    /// The image of a value.
    spec fn spec_image(&self) -> Seq<u8>;

    /// The length of every image.
    spec fn spec_image_len() -> nat;

    /// The value whose image is `image`.
    spec fn spec_from_image(image: Seq<u8>) -> Self;

    /// Whether `image` is the image of some value.
    spec fn spec_valid_image(image: Seq<u8>) -> bool;

    /// The length of every image, when it is representable.
    fn image_len() -> (r: Option<usize>)
        ensures
            r == spec_fit_usize(Self::spec_image_len()),
    ;

    /// Whether `image` is the image of some value.
    fn is_valid_image(image: &[u8]) -> (r: bool)
        requires
            image@.len() == Self::spec_image_len(),
        ensures
            r == Self::spec_valid_image(image@),
    ;

    /// Append the image of the value to `out`.
    fn write_image(&self, out: &mut Vec<u8>)
        ensures
            final(out)@ == old(out)@ + self.spec_image(),
    ;

    /// Read a value from its image.
    fn from_image(image: &[u8]) -> (r: Self)
        requires
            image@.len() == Self::spec_image_len(),
            Self::spec_valid_image(image@),
        ensures
            r == Self::spec_from_image(image@),
    ;

    /// Images have the declared length, are valid and decode to the value they encode;
    /// the alignment of the type is a power of two, and the type is declared zero-copy
    /// for serialization too.
    proof fn lemma_image(v: Self)
        ensures
            v.spec_image().len() == Self::spec_image_len(),
            Self::spec_valid_image(v.spec_image()),
            Self::spec_from_image(v.spec_image()) == v,
            is_pow2_align(Self::spec_max_size_of()),
            Self::IS_ZERO_COPY,
    ;
}

/// The sum of two image lengths, when both lengths and their sum are representable.
pub(crate) fn add_image_len(a: Option<usize>, b: Option<usize>) -> (r: Option<usize>)
    ensures
        r == match (a, b) {
            (Some(x), Some(y)) => spec_fit_usize((x + y) as nat),
            _ => None,
        },
{
    match (a, b) {
        (Some(x), Some(y)) => x.checked_add(y),
        _ => None,
    }
}

/// The length of the images of a zero-copy type, when it is representable.
pub(crate) fn part_image_len<T: ZeroCopy>() -> (r: usize)
    requires
        T::spec_image_len() <= usize::MAX,
    ensures
        r == T::spec_image_len(),
{
    match T::image_len() {
        Some(len) => len,
        None => 0,
    }
}

/// Marker trait for deep-copy types: implement [`CopyType`] with `Copy = Deep`.
pub trait DeepCopy: CopyType<Copy = Deep> {}

impl<T: CopyType<Copy = Deep>> DeepCopy for T {}

} // verus!

//! The items most users need, in one place.

pub use crate::deser;
pub use crate::deser::{DeserType, Deserialize, DeserializeHelper, DeserializeInner, Flags, ReadNoStd, ReadWithPos,
    SliceWithPos, ZeroSlice};
pub use crate::ser;
pub use crate::ser::{Serialize, SerializeHelper, SerializeInner, WriteNoStd, WriteWithNames, WriteWithPos};
pub use crate::traits::{CopySelector, CopyType, Deep, DeepCopy, MaxSizeOf, ReprHash, TypeHash, TypeHasher, TypeName,
    Zero, ZeroCopy};

//! Position arithmetic of an in-memory cursor with aligned storage.
//!
//! The storage itself, which needs raw memory of a given alignment, lives with the
//! code that owns the memory; these functions decide how many bytes a read or a write
//! moves and where a seek lands, with positions and lengths in `usize`.

use vstd::prelude::*;

verus! {

/// Where a seek is counted from, with its offset.
#[derive(Clone, Copy, Debug, PartialEq, Eq, Structural)]
pub enum SeekOrigin {
    /// From the start, at the given position.
    Start(u64),
    /// From the end of the data, by the given signed offset.
    End(i64),
    /// From the current position, by the given signed offset.
    Current(i64),
}

/// The number of bytes a read of `buf_len` bytes copies from data of length `len` at
/// position `pos`: none past the end, otherwise as many as both have.
pub fn cursor_read_len(pos: usize, len: usize, buf_len: usize) -> (r: usize)
    ensures
        pos >= len ==> r == 0,
        pos < len ==> r == if buf_len < len - pos { buf_len as int } else { len - pos },
{
    if pos >= len {
        return 0;
    }
    let rem = len - pos;
    if buf_len < rem {
        buf_len
    } else {
        rem
    }
}

/// The number of bytes a write of `buf_len` bytes at position `pos` stores: as many as
/// keep the position representable; `None` (an error) when a nonempty write cannot
/// store any.
pub fn cursor_write_len(pos: usize, buf_len: usize) -> (r: Option<usize>)
    ensures
        r is None <==> (buf_len > 0 && pos == usize::MAX),
        r matches Some(n) ==> n == if buf_len < usize::MAX - pos { buf_len as int } else { usize::MAX - pos },
{
    let room = usize::MAX - pos;
    let len = if buf_len < room { buf_len } else { room };
    if buf_len != 0 && len == 0 {
        None
    } else {
        Some(len)
    }
}

/// The number of storage units of `unit` bytes needed to hold `bytes` bytes.
pub fn storage_units(bytes: usize, unit: usize) -> (r: usize)
    requires
        unit > 0,
    ensures
        r == (bytes + unit - 1) / (unit as int),
{
    let q = bytes / unit;
    if bytes % unit == 0 {
        assert((bytes + unit - 1) / (unit as int) == (bytes as int) / (unit as int)) by (nonlinear_arith)
            requires
                unit > 0,
                bytes % unit == 0,
        ;
        q
    } else {
        assert((bytes + unit - 1) / (unit as int) == (bytes as int) / (unit as int) + 1) by (nonlinear_arith)
            requires
                unit > 0,
                bytes % unit != 0,
        ;
        assert(q < usize::MAX) by (nonlinear_arith)
            requires
                unit > 0,
                bytes % unit != 0,
                q == bytes / unit,
                bytes <= usize::MAX,
        ;
        q + 1
    }
}

/// The position a seek lands on, given the length of the data and the current
/// position; `None` (an error) when it would be negative or not representable.
pub fn cursor_seek(pos: usize, len: usize, origin: SeekOrigin) -> (r: Option<usize>)
    ensures
        origin matches SeekOrigin::Start(n) ==> (r is Some <==> n <= usize::MAX) && (r matches Some(p) ==> p == n),
        origin matches SeekOrigin::End(d) ==> (r is Some <==> 0 <= len + d <= usize::MAX) && (r matches Some(p)
            ==> p == len + d),
        origin matches SeekOrigin::Current(d) ==> (r is Some <==> 0 <= pos + d <= usize::MAX) && (r matches Some(
            p,
        ) ==> p == pos + d),
{
    let (base, offset) = match origin {
        SeekOrigin::Start(n) => {
            if n > usize::MAX as u64 {
                return None;
            }
            return Some(n as usize);
        },
        SeekOrigin::End(d) => (len, d),
        SeekOrigin::Current(d) => (pos, d),
    };
    if offset >= 0 {
        let up = offset as u64;
        if up > (usize::MAX - base) as u64 {
            None
        } else {
            Some(base + up as usize)
        }
    } else {
        let down: u64 = if offset == i64::MIN { 0x8000_0000_0000_0000u64 } else { (-offset) as u64 };
        if down > base as u64 {
            None
        } else {
            Some(base - down as usize)
        }
    }
}

} // verus!

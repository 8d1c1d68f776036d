//! Reading big-endian integers and tables of items from a byte buffer.
//!
//! Nothing here keeps a position: every reader takes the offset to read at
//! and gives back the offset after what it read.

use crate::error::DecodeError;
use crate::text::views;
use vstd::prelude::*;

verus! {

/// The value of two bytes, the first the more significant.
pub open spec fn be_u16(b0: u8, b1: u8) -> u16 {
    (b0 * 256 + b1) as u16
}

/// The value of four bytes, the first the most significant.
pub open spec fn be_u32(b0: u8, b1: u8, b2: u8, b3: u8) -> u32 {
    (b0 * 16777216 + b1 * 65536 + b2 * 256 + b3) as u32
}

/// Whether `count` bytes can be read at `idx`, and the offset after them
/// can be told.
pub open spec fn in_buffer(idx: usize, count: nat, bytes: Seq<u8>) -> bool {
    idx + count <= bytes.len() && idx + count <= usize::MAX
}

/// The byte at `idx` and the offset after it.
pub open spec fn spec_get_u1(idx: usize, bytes: Seq<u8>) -> Result<(usize, u8), DecodeError> {
    if in_buffer(idx, 1, bytes) {
        Ok(((idx + 1) as usize, bytes[idx as int]))
    } else {
        Err(DecodeError::BufferUnderrun { offset: idx })
    }
}

/// The two bytes at `idx` as one number, and the offset after them.
pub open spec fn spec_get_u2(idx: usize, bytes: Seq<u8>) -> Result<(usize, u16), DecodeError> {
    if in_buffer(idx, 2, bytes) {
        Ok(((idx + 2) as usize, be_u16(bytes[idx as int], bytes[idx + 1])))
    } else {
        Err(DecodeError::BufferUnderrun { offset: idx })
    }
}

/// The four bytes at `idx` as one number, and the offset after them.
pub open spec fn spec_get_u4(idx: usize, bytes: Seq<u8>) -> Result<(usize, u32), DecodeError> {
    if in_buffer(idx, 4, bytes) {
        Ok(
            (
                (idx + 4) as usize,
                be_u32(bytes[idx as int], bytes[idx + 1], bytes[idx + 2], bytes[idx + 3]),
            ),
        )
    } else {
        Err(DecodeError::BufferUnderrun { offset: idx })
    }
}

/// The `count` bytes at `idx`, and the offset after them.
pub open spec fn spec_get_bytes(idx: usize, count: usize, bytes: Seq<u8>) -> Result<
    (usize, Seq<u8>),
    DecodeError,
> {
    if in_buffer(idx, count as nat, bytes) {
        Ok(((idx + count) as usize, bytes.subrange(idx as int, idx + count)))
    } else {
        Err(DecodeError::BufferUnderrun { offset: idx })
    }
}

/// The items numbered `first` up to, not including, `count`, read one after
/// the other from `idx` on, and the offset after the last of them. `item`
/// reads one item: it takes the offset to read at and the item's number. The
/// first item that fails fails the whole table.
pub open spec fn spec_table<T>(
    item: spec_fn(usize, nat) -> Result<(usize, T), DecodeError>,
    idx: usize,
    first: nat,
    count: nat,
) -> Result<(usize, Seq<T>), DecodeError>
    decreases count - first,
{
    if first >= count {
        Ok((idx, Seq::empty()))
    } else {
        match item(idx, first) {
            Err(e) => Err(e),
            Ok((next, head)) => match spec_table(item, next, first + 1, count) {
                Err(e) => Err(e),
                Ok((end, tail)) => Ok((end, seq![head] + tail)),
            },
        }
    }
}

/// A table read so far, followed by what is still to be read.
pub open spec fn table_after<T>(done: Seq<T>, rest: Result<(usize, Seq<T>), DecodeError>) -> Result<
    (usize, Seq<T>),
    DecodeError,
> {
    match rest {
        Err(e) => Err(e),
        Ok((end, tail)) => Ok((end, done + tail)),
    }
}

/// A decoded item seen through its view.
pub open spec fn decoded<T: View>(r: Result<(usize, T), DecodeError>) -> Result<
    (usize, T::V),
    DecodeError,
> {
    match r {
        Err(e) => Err(e),
        Ok((end, item)) => Ok((end, item@)),
    }
}

/// A decoded table seen through the views of its items.
pub open spec fn decoded_table<T: View>(r: Result<(usize, Vec<T>), DecodeError>) -> Result<
    (usize, Seq<T::V>),
    DecodeError,
> {
    match r {
        Err(e) => Err(e),
        Ok((end, items)) => Ok((end, views(items@))),
    }
}

/// A decoded table of plain values.
pub open spec fn decoded_values<T>(r: Result<(usize, Vec<T>), DecodeError>) -> Result<
    (usize, Seq<T>),
    DecodeError,
> {
    match r {
        Err(e) => Err(e),
        Ok((end, items)) => Ok((end, items@)),
    }
}

/// Reading a table from its start is reading nothing and then the table.
pub proof fn lemma_table_start<T>(
    item: spec_fn(usize, nat) -> Result<(usize, T), DecodeError>,
    idx: usize,
    first: nat,
    count: nat,
)
    ensures
        table_after(Seq::empty(), spec_table(item, idx, first, count)) == spec_table(
            item,
            idx,
            first,
            count,
        ),
{
    match spec_table(item, idx, first, count) {
        Err(_) => {},
        Ok((_, tail)) => {
            assert(Seq::<T>::empty() + tail =~= tail);
        },
    }
}

/// Reading one more item of a table: where it fails the table fails, and
/// where it succeeds the item joins what was read so far.
pub proof fn lemma_table_step<T>(
    item: spec_fn(usize, nat) -> Result<(usize, T), DecodeError>,
    idx: usize,
    first: nat,
    count: nat,
    done: Seq<T>,
)
    requires
        first < count,
    ensures
        match item(idx, first) {
            Err(e) => table_after(done, spec_table(item, idx, first, count)) == Err::<
                (usize, Seq<T>),
                DecodeError,
            >(e),
            Ok((next, head)) => table_after(done, spec_table(item, idx, first, count))
                == table_after(done.push(head), spec_table(item, next, first + 1, count)),
        },
{
    match item(idx, first) {
        Err(_) => {},
        Ok((next, head)) => {
            match spec_table(item, next, first + 1, count) {
                Err(_) => {},
                Ok((_, tail)) => {
                    assert(done + (seq![head] + tail) =~= done.push(head) + tail);
                },
            }
        },
    }
}

/// A table read to its end is what was read so far.
pub proof fn lemma_table_end<T>(
    item: spec_fn(usize, nat) -> Result<(usize, T), DecodeError>,
    idx: usize,
    first: nat,
    count: nat,
    done: Seq<T>,
)
    requires
        first >= count,
    ensures
        table_after(done, spec_table(item, idx, first, count)) == Ok::<
            (usize, Seq<T>),
            DecodeError,
        >((idx, done)),
{
    assert(done + Seq::<T>::empty() =~= done);
}

/// A table that was read holds one item for each number, and ends no
/// earlier than it starts where no item ends before its own start.
pub proof fn lemma_table_len<T>(
    item: spec_fn(usize, nat) -> Result<(usize, T), DecodeError>,
    idx: usize,
    first: nat,
    count: nat,
)
    requires
        spec_table(item, idx, first, count) is Ok,
    ensures
        spec_table(item, idx, first, count)->Ok_0.1.len() == if first < count {
            count - first
        } else {
            0
        },
    decreases count - first,
{
    if first < count {
        let next = item(idx, first)->Ok_0.0;
        lemma_table_len(item, next, first + 1, count);
    }
}

/// Reads the byte at `idx`.
pub fn get_u1(idx: usize, bytecode: &Vec<u8>) -> (r: Result<(usize, u8), DecodeError>)
    ensures
        r == spec_get_u1(idx, bytecode@),
{
    if idx >= bytecode.len() {
        return Err(DecodeError::BufferUnderrun { offset: idx });
    }
    Ok((idx + 1, bytecode[idx]))
}

/// Reads the two bytes at `idx` as one number, the first byte the more
/// significant.
pub fn get_u2(idx: usize, bytecode: &Vec<u8>) -> (r: Result<(usize, u16), DecodeError>)
    ensures
        r == spec_get_u2(idx, bytecode@),
{
    if idx > bytecode.len() || bytecode.len() - idx < 2 {
        return Err(DecodeError::BufferUnderrun { offset: idx });
    }
    let b0 = bytecode[idx] as u16;
    let b1 = bytecode[idx + 1] as u16;
    Ok((idx + 2, b0 * 256 + b1))
}

/// Reads the four bytes at `idx` as one number, the first byte the most
/// significant.
pub fn get_u4(idx: usize, bytecode: &Vec<u8>) -> (r: Result<(usize, u32), DecodeError>)
    ensures
        r == spec_get_u4(idx, bytecode@),
{
    if idx > bytecode.len() || bytecode.len() - idx < 4 {
        return Err(DecodeError::BufferUnderrun { offset: idx });
    }
    let b0 = bytecode[idx] as u32;
    let b1 = bytecode[idx + 1] as u32;
    let b2 = bytecode[idx + 2] as u32;
    let b3 = bytecode[idx + 3] as u32;
    Ok((idx + 4, b0 * 16777216 + b1 * 65536 + b2 * 256 + b3))
}

/// Copies the `count` bytes at `idx`.
pub fn get_bytes(idx: usize, count: usize, bytecode: &Vec<u8>) -> (r: Result<
    (usize, Vec<u8>),
    DecodeError,
>)
    ensures
        decoded_values(r) == spec_get_bytes(idx, count, bytecode@),
{
    if idx > bytecode.len() || bytecode.len() - idx < count {
        return Err(DecodeError::BufferUnderrun { offset: idx });
    }
    let mut bytes: Vec<u8> = Vec::with_capacity(count);
    let mut i: usize = 0;
    while i < count
        invariant
            i <= count,
            idx + count <= bytecode.len(),
            bytes@ == bytecode@.subrange(idx as int, idx + i),
        decreases count - i,
    {
        bytes.push(bytecode[idx + i]);
        i += 1;
        assert(bytes@ =~= bytecode@.subrange(idx as int, idx + i));
    }
    Ok((idx + count, bytes))
}

} // verus!

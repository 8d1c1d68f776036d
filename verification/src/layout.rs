//! How the entries of the constant pool lie in the class file: the bytes
//! that write each entry, and where each entry starts.

use crate::ast::CpInfoView;
use crate::cursor::{be_u16, spec_get_bytes, spec_get_u2, spec_table};
use crate::error::DecodeError;
use crate::parser::{spec_parse_cp_info, spec_parse_cp_info_array, spec_placeholder};
use vstd::prelude::*;

verus! {

/// The two bytes that write `value`, the more significant first.
pub open spec fn u16_bytes(value: u16) -> Seq<u8> {
    seq![(value / 256) as u8, (value % 256) as u8]
}

impl CpInfoView {
    /// The number of bytes that write this entry: the tag, then two bytes
    /// for each index, and for a Utf8 entry two bytes of length and the
    /// bytes of the text.
    pub open spec fn encoded_len(self) -> nat {
        match self {
            CpInfoView::ConstantClass { .. } => 3,
            CpInfoView::ConstantFieldref { .. } => 5,
            CpInfoView::ConstantMethodref { .. } => 5,
            CpInfoView::ConstantString { .. } => 3,
            CpInfoView::ConstantNameAndType { .. } => 5,
            CpInfoView::ConstantUtf8 { bytes, .. } => 3 + bytes.len(),
        }
    }

    /// The bytes that write this entry.
    pub open spec fn encoding(self) -> Seq<u8> {
        match self {
            CpInfoView::ConstantClass { tag, name_index } => seq![tag] + u16_bytes(name_index),
            CpInfoView::ConstantFieldref { tag, class_index, name_and_type_index } => seq![tag]
                + u16_bytes(class_index) + u16_bytes(name_and_type_index),
            CpInfoView::ConstantMethodref { tag, class_index, name_and_type_index } => seq![tag]
                + u16_bytes(class_index) + u16_bytes(name_and_type_index),
            CpInfoView::ConstantString { tag, string_index } => seq![tag] + u16_bytes(
                string_index,
            ),
            CpInfoView::ConstantNameAndType { tag, name_index, descriptor_index } => seq![tag]
                + u16_bytes(name_index) + u16_bytes(descriptor_index),
            CpInfoView::ConstantUtf8 { tag, length, bytes, .. } => seq![tag] + u16_bytes(length)
                + bytes,
        }
    }
}

/// The number of bytes that write `entries`, one after the other.
pub open spec fn entries_len(entries: Seq<CpInfoView>) -> nat
    decreases entries.len(),
{
    if entries.len() == 0 {
        0
    } else {
        entries_len(entries.drop_last()) + entries.last().encoded_len()
    }
}

/// Two bytes read as a number are the two bytes that write the number.
pub proof fn lemma_u16_bytes(idx: usize, bytes: Seq<u8>)
    requires
        spec_get_u2(idx, bytes) is Ok,
    ensures
        bytes.subrange(idx as int, idx + 2) == u16_bytes(spec_get_u2(idx, bytes)->Ok_0.1),
        spec_get_u2(idx, bytes)->Ok_0.0 == idx + 2,
{
    let value = be_u16(bytes[idx as int], bytes[idx + 1]);
    assert(value / 256 == bytes[idx as int] && value % 256 == bytes[idx + 1]);
    assert(bytes.subrange(idx as int, idx + 2) =~= u16_bytes(value));
}

/// A decoded pool entry takes exactly the bytes that write it: the offset
/// after it is the offset before it plus its encoded size, and the bytes
/// between are its encoding. This holds of every kind of entry.
pub proof fn lemma_cp_info_consumed(idx: usize, bytes: Seq<u8>, index: usize)
    requires
        spec_parse_cp_info(idx, bytes, index) is Ok,
    ensures
        ({
            let (end, entry) = spec_parse_cp_info(idx, bytes, index)->Ok_0;
            &&& end == idx + entry.encoded_len()
            &&& end <= bytes.len()
            &&& entry.encoding().len() == entry.encoded_len()
            &&& bytes.subrange(idx as int, end as int) == entry.encoding()
        }),
{
    let (end, entry) = spec_parse_cp_info(idx, bytes, index)->Ok_0;
    let tag = bytes[idx as int];
    let at = (idx + 1) as usize;
    lemma_u16_bytes(at, bytes);
    if tag == 7 || tag == 8 {
        assert(bytes.subrange(idx as int, end as int) =~= seq![tag] + bytes.subrange(
            at as int,
            at + 2,
        ));
    } else if tag == 9 || tag == 10 || tag == 12 {
        lemma_u16_bytes((at + 2) as usize, bytes);
        assert(bytes.subrange(idx as int, end as int) =~= seq![tag] + bytes.subrange(
            at as int,
            at + 2,
        ) + bytes.subrange(at + 2, at + 4));
    } else {
        assert(tag == 1);
        let length = spec_get_u2(at, bytes)->Ok_0.1;
        let raw = spec_get_bytes((at + 2) as usize, length as usize, bytes)->Ok_0.1;
        assert(bytes.subrange(idx as int, end as int) =~= seq![tag] + bytes.subrange(
            at as int,
            at + 2,
        ) + raw);
    }
}

/// The bytes of entries are those of the first and then those of the
/// others.
pub proof fn lemma_entries_len_first(entries: Seq<CpInfoView>)
    requires
        entries.len() > 0,
    ensures
        entries_len(entries) == entries[0].encoded_len() + entries_len(entries.drop_first()),
    decreases entries.len(),
{
    if entries.len() == 1 {
        assert(entries.drop_last() =~= Seq::empty());
        assert(entries.drop_first() =~= Seq::empty());
    } else {
        lemma_entries_len_first(entries.drop_last());
        assert(entries.drop_last().drop_first() =~= entries.drop_first().drop_last());
    }
}

/// The entries of a decoded pool take exactly their bytes: the table ends
/// after the encoded sizes of all its entries.
pub proof fn lemma_cp_entries_consumed(idx: usize, first: nat, count: nat, bytes: Seq<u8>)
    requires
        spec_table(
            |at: usize, i: nat| spec_parse_cp_info(at, bytes, i as usize),
            idx,
            first,
            count,
        ) is Ok,
    ensures
        ({
            let (end, entries) = spec_table(
                |at: usize, i: nat| spec_parse_cp_info(at, bytes, i as usize),
                idx,
                first,
                count,
            )->Ok_0;
            end == idx + entries_len(entries)
        }),
    decreases count - first,
{
    let item = |at: usize, i: nat| spec_parse_cp_info(at, bytes, i as usize);
    let (end, entries) = spec_table(item, idx, first, count)->Ok_0;
    if first < count {
        let (next, head) = item(idx, first)->Ok_0;
        lemma_cp_info_consumed(idx, bytes, first as usize);
        lemma_cp_entries_consumed(next, first + 1, count, bytes);
        let tail = spec_table(item, next, first + 1, count)->Ok_0.1;
        assert(entries =~= seq![head] + tail);
        assert(entries.drop_first() =~= tail);
        lemma_entries_len_first(entries);
    }
}

/// The entries of a decoded pool lie one after the other: the entry
/// numbered `n` starts where the bytes of all entries before it end, and
/// decoding it there gives it, with the offset that lies its own encoded
/// size further.
pub proof fn lemma_cp_entry_at(idx: usize, first: nat, count: nat, bytes: Seq<u8>, n: int)
    requires
        spec_table(
            |at: usize, i: nat| spec_parse_cp_info(at, bytes, i as usize),
            idx,
            first,
            count,
        ) is Ok,
        0 <= n < spec_table(
            |at: usize, i: nat| spec_parse_cp_info(at, bytes, i as usize),
            idx,
            first,
            count,
        )->Ok_0.1.len(),
    ensures
        ({
            let entries = spec_table(
                |at: usize, i: nat| spec_parse_cp_info(at, bytes, i as usize),
                idx,
                first,
                count,
            )->Ok_0.1;
            let start = idx + entries_len(entries.take(n));
            &&& start + entries[n].encoded_len() <= usize::MAX
            &&& spec_parse_cp_info(start as usize, bytes, (first + n) as usize) == Ok::<
                (usize, CpInfoView),
                DecodeError,
            >(((start + entries[n].encoded_len()) as usize, entries[n]))
        }),
    decreases n,
{
    let item = |at: usize, i: nat| spec_parse_cp_info(at, bytes, i as usize);
    let entries = spec_table(item, idx, first, count)->Ok_0.1;
    let (next, head) = item(idx, first)->Ok_0;
    let tail = spec_table(item, next, first + 1, count)->Ok_0.1;
    assert(entries =~= seq![head] + tail);
    lemma_cp_info_consumed(idx, bytes, first as usize);
    if n == 0 {
        assert(entries.take(0) =~= Seq::empty());
    } else {
        lemma_cp_entry_at(next, first + 1, count, bytes, n - 1);
        assert(entries[n] == tail[n - 1]);
        lemma_entries_len_first(entries.take(n));
        assert(entries.take(n).drop_first() =~= tail.take(n - 1));
        assert((first + 1 + (n - 1)) as usize == (first + n) as usize);
    }
}

/// A decoded pool takes exactly the bytes of its entries: it starts with
/// the placeholder, for which the file holds no bytes, and ends after the
/// encoded sizes of all entries behind it. The entry with index `n` starts
/// where the bytes of the entries before it end.
pub proof fn lemma_cp_info_array_consumed(
    idx: usize,
    constant_pool_count: u16,
    bytes: Seq<u8>,
    n: int,
)
    requires
        spec_parse_cp_info_array(idx, constant_pool_count, bytes) is Ok,
    ensures
        ({
            let (end, pool) = spec_parse_cp_info_array(idx, constant_pool_count, bytes)->Ok_0;
            &&& pool.len() >= 1
            &&& pool[0] == spec_placeholder()
            &&& end == idx + entries_len(pool.skip(1))
            &&& 1 <= n < pool.len() ==> {
                let start = idx + entries_len(pool.subrange(1, n));
                &&& start + pool[n].encoded_len() <= usize::MAX
                &&& spec_parse_cp_info(start as usize, bytes, n as usize) == Ok::<
                    (usize, CpInfoView),
                    DecodeError,
                >(((start + pool[n].encoded_len()) as usize, pool[n]))
            }
        }),
{
    let item = |at: usize, i: nat| spec_parse_cp_info(at, bytes, i as usize);
    let (end, entries) = spec_table(item, idx, 1, constant_pool_count as nat)->Ok_0;
    let pool = spec_parse_cp_info_array(idx, constant_pool_count, bytes)->Ok_0.1;
    lemma_cp_entries_consumed(idx, 1, constant_pool_count as nat, bytes);
    assert(pool =~= seq![spec_placeholder()] + entries);
    assert(pool.skip(1) =~= entries);
    if 1 <= n < pool.len() {
        lemma_cp_entry_at(idx, 1, constant_pool_count as nat, bytes, n - 1);
        assert(pool.subrange(1, n) =~= entries.take(n - 1));
        assert(pool[n] == entries[n - 1]);
    }
}

} // verus!

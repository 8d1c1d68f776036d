//! What holds of every class file that was decoded, and of every pool
//! whose indices refer to entries of the right kind.

use crate::ast::{AttributeInfoView, ClassFileView, CpInfoView};
use crate::cursor::{
    lemma_table_len, spec_get_bytes, spec_get_u2, spec_get_u4, spec_table,
};
use crate::error::{AttributeKind, ConstantKind, DecodeError, lemma_kind_of_name};
use crate::parser::{
    CLASS_FILE_MAGIC, MAX_ATTRIBUTE_NESTING, in_payload, spec_parse_attribute_info,
    spec_parse_attribute_info_line_number_table_item, spec_parse_attributes_from,
    spec_parse_class_file, spec_parse_class_head, spec_parse_code_head, spec_parse_cp_info,
    spec_parse_cp_info_array, spec_parse_exception_table, spec_parse_field_info,
    spec_parse_fields, spec_parse_member, spec_parse_method_info, spec_parse_methods,
    spec_placeholder,
};
use crate::parser_helper::{
    spec_get_constant_class_name, spec_get_constant_utf8, spec_get_name,
    spec_get_type, spec_kind_of,
};
use crate::pretty_print::spec_cp_info_to_string;
use crate::pretty_print_helper::{
    spec_get_constant_method_ref_description, spec_get_ldc_description,
    spec_get_static_description, spec_member_ref,
};
use vstd::prelude::*;
use vstd::utf8::{decode_utf8, valid_utf8};

verus! {

/// Whether a pool entry is as the decoder makes it: its tag is that of its
/// kind, and a Utf8 entry holds valid bytes, their number, and their text.
pub open spec fn entry_well_formed(entry: CpInfoView) -> bool {
    match entry {
        CpInfoView::ConstantClass { tag, .. } => tag == 7,
        CpInfoView::ConstantFieldref { tag, .. } => tag == 9,
        CpInfoView::ConstantMethodref { tag, .. } => tag == 10,
        CpInfoView::ConstantString { tag, .. } => tag == 8,
        CpInfoView::ConstantNameAndType { tag, .. } => tag == 12,
        CpInfoView::ConstantUtf8 { tag, length, bytes, bytes_str } => {
            &&& tag == 1
            &&& length == bytes.len()
            &&& valid_utf8(bytes)
            &&& bytes_str == decode_utf8(bytes)
        },
    }
}

/// Whether an attribute is as the decoder makes it: it is of a kind that
/// is decoded, its name index refers to the Utf8 entry that holds its
/// kind's name, each of its tables has as many rows as its count says, and
/// the attributes nested in it are so too.
pub open spec fn attribute_well_formed(attribute: AttributeInfoView, pool: Seq<CpInfoView>) -> bool
    decreases attribute,
{
    match attribute {
        AttributeInfoView::Code {
            attribute_name_index,
            code_length,
            code,
            exception_table_length,
            exception_table,
            attributes_count,
            attributes,
            ..
        } => {
            &&& spec_get_constant_utf8(attribute_name_index as usize, pool) == Ok::<
                Seq<char>,
                DecodeError,
            >(AttributeKind::Code.spec_name())
            &&& code.len() == code_length
            &&& exception_table.len() == exception_table_length
            &&& attributes.len() == attributes_count
            &&& forall|i: int|
                0 <= i < attributes.len() ==> attribute_well_formed(
                    #[trigger] attributes[i],
                    pool,
                )
        },
        AttributeInfoView::LineNumberTable {
            attribute_name_index,
            line_number_table_length,
            line_number_tables,
            ..
        } => {
            &&& spec_get_constant_utf8(attribute_name_index as usize, pool) == Ok::<
                Seq<char>,
                DecodeError,
            >(AttributeKind::LineNumberTable.spec_name())
            &&& line_number_tables.len() == line_number_table_length
        },
        AttributeInfoView::SourceFile { attribute_name_index, .. } => {
            spec_get_constant_utf8(attribute_name_index as usize, pool) == Ok::<
                Seq<char>,
                DecodeError,
            >(AttributeKind::SourceFile.spec_name())
        },
        _ => false,
    }
}

/// Whether a table of attributes has `count` attributes, each as the
/// decoder makes it.
pub open spec fn attributes_well_formed(
    attributes: Seq<AttributeInfoView>,
    count: u16,
    pool: Seq<CpInfoView>,
) -> bool {
    &&& attributes.len() == count
    &&& forall|i: int|
        0 <= i < attributes.len() ==> attribute_well_formed(#[trigger] attributes[i], pool)
}

impl ClassFileView {
    /// Whether a class file is as the decoder makes it: it starts with the
    /// magic number, its pool starts with the placeholder and holds as
    /// many entries as its count says (one, where the count is zero), each
    /// table has as many items as its count says, and every attribute's
    /// name resolves.
    pub open spec fn well_formed(self) -> bool {
        &&& self.magic == CLASS_FILE_MAGIC
        &&& self.cp_info.len() == if self.constant_pool_count == 0 {
            1
        } else {
            self.constant_pool_count as int
        }
        &&& self.cp_info[0] == spec_placeholder()
        &&& forall|i: int|
            1 <= i < self.cp_info.len() ==> entry_well_formed(#[trigger] self.cp_info[i])
        &&& self.interfaces.len() == self.interfaces_count
        &&& self.fields.len() == self.fields_count
        &&& forall|i: int|
            0 <= i < self.fields.len() ==> attributes_well_formed(
                (#[trigger] self.fields[i]).attributes,
                self.fields[i].attributes_count,
                self.cp_info,
            )
        &&& self.methods.len() == self.methods_count
        &&& forall|i: int|
            0 <= i < self.methods.len() ==> attributes_well_formed(
                (#[trigger] self.methods[i]).attributes,
                self.methods[i].attributes_count,
                self.cp_info,
            )
        &&& attributes_well_formed(self.attributes, self.attributes_count, self.cp_info)
    }
}

/// Every decoded pool entry is well formed.
pub proof fn lemma_cp_info_well_formed(idx: usize, bytes: Seq<u8>, index: usize)
    requires
        spec_parse_cp_info(idx, bytes, index) is Ok,
    ensures
        entry_well_formed(spec_parse_cp_info(idx, bytes, index)->Ok_0.1),
{
}

/// Every item of a table that was read is an item that was read at some
/// offset.
pub proof fn lemma_table_items<T>(
    item: spec_fn(usize, nat) -> Result<(usize, T), DecodeError>,
    idx: usize,
    first: nat,
    count: nat,
    n: int,
)
    requires
        spec_table(item, idx, first, count) is Ok,
        0 <= n < spec_table(item, idx, first, count)->Ok_0.1.len(),
    ensures
        exists|at: usize|
            (#[trigger] item(at, (first + n) as nat)) is Ok && item(at, (first + n) as nat)->Ok_0.1
                == spec_table(item, idx, first, count)->Ok_0.1[n],
    decreases n,
{
    let items = spec_table(item, idx, first, count)->Ok_0.1;
    let (next, head) = item(idx, first)->Ok_0;
    let tail = spec_table(item, next, first + 1, count)->Ok_0.1;
    assert(items =~= seq![head] + tail);
    if n == 0 {
        assert(item(idx, (first + 0) as nat) is Ok);
    } else {
        lemma_table_items(item, next, first + 1, count, n - 1);
        let at = choose|at: usize|
            (#[trigger] item(at, (first + 1 + (n - 1)) as nat)) is Ok && item(
                at,
                (first + 1 + (n - 1)) as nat,
            )->Ok_0.1 == tail[n - 1];
        assert(item(at, (first + n) as nat) is Ok);
    }
}

/// Every decoded attribute is well formed: in particular its name index
/// resolves to the name of its kind.
pub proof fn lemma_attribute_well_formed(
    idx: usize,
    pool: Seq<CpInfoView>,
    bytes: Seq<u8>,
    nesting: usize,
)
    requires
        spec_parse_attribute_info(idx, pool, bytes, nesting) is Ok,
    ensures
        attribute_well_formed(spec_parse_attribute_info(idx, pool, bytes, nesting)->Ok_0.1, pool),
    decreases nesting, 1nat, 0nat,
{
    let a = spec_get_u2(idx, bytes)->Ok_0.0;
    let name_index = spec_get_u2(idx, bytes)->Ok_0.1;
    let at = spec_get_u4(a, bytes)->Ok_0.0;
    let length = spec_get_u4(a, bytes)->Ok_0.1;
    let name = spec_get_constant_utf8(name_index as usize, pool)->Ok_0;
    lemma_kind_of_name(name);
    let kind = AttributeKind::of_name(name)->0;
    match kind {
        AttributeKind::Code => {
            let head_end = spec_parse_code_head(at, name_index, bytes)->Ok_0.0;
            let head = spec_parse_code_head(at, name_index, bytes)->Ok_0.1;
            lemma_code_head_counts(at, name_index, bytes);
            lemma_attributes_well_formed(
                head_end,
                0,
                head.attributes_count,
                pool,
                bytes,
                (nesting - 1) as usize,
            );
        },
        AttributeKind::LineNumberTable => {
            let start = spec_get_u2(at, bytes)->Ok_0.0;
            let rows = spec_get_u2(at, bytes)->Ok_0.1;
            lemma_table_len(
                |at: usize, i: nat|
                    in_payload(
                        spec_parse_attribute_info_line_number_table_item(at, bytes),
                        name_index,
                    ),
                start,
                0,
                rows as nat,
            );
        },
        _ => {},
    }
}

/// The tables in the head of a decoded `Code` attribute have as many rows
/// as their counts say.
pub proof fn lemma_code_head_counts(idx: usize, name_index: u16, bytes: Seq<u8>)
    requires
        spec_parse_code_head(idx, name_index, bytes) is Ok,
    ensures
        ({
            let head = spec_parse_code_head(idx, name_index, bytes)->Ok_0.1;
            &&& head.code.len() == head.code_length
            &&& head.exception_table.len() == head.exception_table_length
        }),
{
    let a = spec_get_u2(idx, bytes)->Ok_0.0;
    let b = spec_get_u2(a, bytes)->Ok_0.0;
    let c = spec_get_u4(b, bytes)->Ok_0.0;
    let code_length = spec_get_u4(b, bytes)->Ok_0.1;
    let d = spec_get_bytes(c, code_length as usize, bytes)->Ok_0.0;
    let f = spec_get_u2(d, bytes)->Ok_0.0;
    let rows = spec_get_u2(d, bytes)->Ok_0.1;
    lemma_table_len(
        |at: usize, i: nat|
            in_payload(
                spec_parse_exception_table(at, bytes),
                name_index,
            ),
        f,
        0,
        rows as nat,
    );
}

/// Every attribute of a decoded table is well formed, and the table holds
/// as many attributes as were asked for.
pub proof fn lemma_attributes_well_formed(
    idx: usize,
    first: nat,
    attributes_count: u16,
    pool: Seq<CpInfoView>,
    bytes: Seq<u8>,
    nesting: usize,
)
    requires
        spec_parse_attributes_from(idx, first, attributes_count, pool, bytes, nesting) is Ok,
    ensures
        ({
            let attributes = spec_parse_attributes_from(
                idx,
                first,
                attributes_count,
                pool,
                bytes,
                nesting,
            )->Ok_0.1;
            &&& attributes.len() == if first < attributes_count {
                attributes_count - first
            } else {
                0
            }
            &&& forall|i: int|
                0 <= i < attributes.len() ==> attribute_well_formed(
                    #[trigger] attributes[i],
                    pool,
                )
        }),
    decreases nesting, 2nat, attributes_count - first,
{
    if first < attributes_count {
        let attributes = spec_parse_attributes_from(
            idx,
            first,
            attributes_count,
            pool,
            bytes,
            nesting,
        )->Ok_0.1;
        let (next, head) = spec_parse_attribute_info(idx, pool, bytes, nesting)->Ok_0;
        lemma_attribute_well_formed(idx, pool, bytes, nesting);
        lemma_attributes_well_formed(next, first + 1, attributes_count, pool, bytes, nesting);
        let tail = spec_parse_attributes_from(
            next,
            first + 1,
            attributes_count,
            pool,
            bytes,
            nesting,
        )->Ok_0.1;
        assert(attributes =~= seq![head] + tail);
        assert forall|i: int| 0 <= i < attributes.len() implies attribute_well_formed(
            #[trigger] attributes[i],
            pool,
        ) by {
            if i > 0 {
                assert(attributes[i] == tail[i - 1]);
            }
        }
    }
}

/// A decoded field or method has well formed attributes.
pub proof fn lemma_member_well_formed(idx: usize, pool: Seq<CpInfoView>, bytes: Seq<u8>)
    requires
        spec_parse_member(idx, pool, bytes) is Ok,
    ensures
        attributes_well_formed(
            spec_parse_member(idx, pool, bytes)->Ok_0.1.attributes,
            spec_parse_member(idx, pool, bytes)->Ok_0.1.attributes_count,
            pool,
        ),
{
    let a = spec_get_u2(idx, bytes)->Ok_0.0;
    let b = spec_get_u2(a, bytes)->Ok_0.0;
    let c = spec_get_u2(b, bytes)->Ok_0.0;
    let d = spec_get_u2(c, bytes)->Ok_0.0;
    let count = spec_get_u2(c, bytes)->Ok_0.1;
    lemma_attributes_well_formed(d, 0, count, pool, bytes, MAX_ATTRIBUTE_NESTING);
}

/// Every decoded class file is well formed. In particular the name index
/// of each of its attributes, nested ones too, resolves to a Utf8 entry:
/// resolving it never fails.
pub proof fn lemma_class_file_well_formed(bytes: Seq<u8>)
    requires
        spec_parse_class_file(bytes) is Ok,
    ensures
        spec_parse_class_file(bytes)->Ok_0.well_formed(),
{
    let class = spec_parse_class_file(bytes)->Ok_0;
    let (a, head) = spec_parse_class_head(bytes)->Ok_0;
    lemma_class_head_well_formed(bytes);
    let pool = head.cp_info;
    let (b, fields_count) = spec_get_u2(a, bytes)->Ok_0;
    let (c, fields) = spec_parse_fields(b, fields_count, pool, bytes)->Ok_0;
    let (d, methods_count) = spec_get_u2(c, bytes)->Ok_0;
    let (f, methods) = spec_parse_methods(d, methods_count, pool, bytes)->Ok_0;
    let (g, attributes_count) = spec_get_u2(f, bytes)->Ok_0;
    let field_item = |at: usize, i: nat| spec_parse_field_info(at, pool, bytes);
    let method_item = |at: usize, i: nat| spec_parse_method_info(at, pool, bytes);
    lemma_table_len(field_item, b, 0, fields_count as nat);
    lemma_table_len(method_item, d, 0, methods_count as nat);
    lemma_attributes_well_formed(
        g,
        0,
        attributes_count,
        pool,
        bytes,
        MAX_ATTRIBUTE_NESTING,
    );
    assert forall|i: int| 0 <= i < class.fields.len() implies attributes_well_formed(
        (#[trigger] class.fields[i]).attributes,
        class.fields[i].attributes_count,
        class.cp_info,
    ) by {
        lemma_table_items(field_item, b, 0, fields_count as nat, i);
        let at = choose|at: usize|
            (#[trigger] field_item(at, (0 + i) as nat)) is Ok && field_item(
                at,
                (0 + i) as nat,
            )->Ok_0.1 == fields[i];
        lemma_member_well_formed(at, pool, bytes);
    }
    assert forall|i: int| 0 <= i < class.methods.len() implies attributes_well_formed(
        (#[trigger] class.methods[i]).attributes,
        class.methods[i].attributes_count,
        class.cp_info,
    ) by {
        lemma_table_items(method_item, d, 0, methods_count as nat, i);
        let at = choose|at: usize|
            (#[trigger] method_item(at, (0 + i) as nat)) is Ok && method_item(
                at,
                (0 + i) as nat,
            )->Ok_0.1 == methods[i];
        lemma_member_well_formed(at, pool, bytes);
    }
}

/// The start of a decoded class file is well formed: the magic number,
/// the pool and the interfaces.
pub proof fn lemma_class_head_well_formed(bytes: Seq<u8>)
    requires
        spec_parse_class_head(bytes) is Ok,
    ensures
        ({
            let head = spec_parse_class_head(bytes)->Ok_0.1;
            &&& head.magic == CLASS_FILE_MAGIC
            &&& head.cp_info.len() == if head.constant_pool_count == 0 {
                1
            } else {
                head.constant_pool_count as int
            }
            &&& head.cp_info[0] == spec_placeholder()
            &&& forall|i: int|
                1 <= i < head.cp_info.len() ==> entry_well_formed(#[trigger] head.cp_info[i])
            &&& head.interfaces.len() == head.interfaces_count
        }),
{
    let head = spec_parse_class_head(bytes)->Ok_0.1;
    let a = spec_get_u4(0, bytes)->Ok_0.0;
    let b = spec_get_u2(a, bytes)->Ok_0.0;
    let c = spec_get_u2(b, bytes)->Ok_0.0;
    let (d, count) = spec_get_u2(c, bytes)->Ok_0;
    let (f, pool) = spec_parse_cp_info_array(d, count, bytes)->Ok_0;
    let g = spec_get_u2(f, bytes)->Ok_0.0;
    let h = spec_get_u2(g, bytes)->Ok_0.0;
    let j = spec_get_u2(h, bytes)->Ok_0.0;
    let (k, interfaces_count) = spec_get_u2(j, bytes)->Ok_0;
    let entry_item = |at: usize, i: nat| spec_parse_cp_info(at, bytes, i as usize);
    let entries = spec_table(entry_item, d, 1, count as nat)->Ok_0.1;
    lemma_table_len(entry_item, d, 1, count as nat);
    lemma_table_len(
        |at: usize, i: nat| spec_get_u2(at, bytes),
        k,
        0,
        interfaces_count as nat,
    );
    assert(pool =~= seq![spec_placeholder()] + entries);
    assert forall|i: int| 1 <= i < head.cp_info.len() implies entry_well_formed(
        #[trigger] head.cp_info[i],
    ) by {
        lemma_table_items(entry_item, d, 1, count as nat, i - 1);
        let at = choose|at: usize|
            (#[trigger] entry_item(at, (1 + (i - 1)) as nat)) is Ok && entry_item(
                at,
                (1 + (i - 1)) as nat,
            )->Ok_0.1 == entries[i - 1];
        lemma_cp_info_well_formed(at, bytes, ((1 + (i - 1)) as nat) as usize);
        assert(pool[i] == entries[i - 1]);
    }
}

/// Whether `index` refers to an entry of `pool` that is of kind `kind`.
pub open spec fn refers_to(index: u16, kind: ConstantKind, pool: Seq<CpInfoView>) -> bool {
    0 < index < pool.len() && spec_kind_of(pool[index as int]) == kind
}

/// Whether each index that `entry` holds refers to an entry of the kind
/// that the class file format asks for there.
pub open spec fn entry_linked(entry: CpInfoView, pool: Seq<CpInfoView>) -> bool {
    match entry {
        CpInfoView::ConstantClass { name_index, .. } => refers_to(
            name_index,
            ConstantKind::Utf8,
            pool,
        ),
        CpInfoView::ConstantFieldref { class_index, name_and_type_index, .. } => refers_to(
            class_index,
            ConstantKind::Class,
            pool,
        ) && refers_to(name_and_type_index, ConstantKind::NameAndType, pool),
        CpInfoView::ConstantMethodref { class_index, name_and_type_index, .. } => refers_to(
            class_index,
            ConstantKind::Class,
            pool,
        ) && refers_to(name_and_type_index, ConstantKind::NameAndType, pool),
        CpInfoView::ConstantString { string_index, .. } => refers_to(
            string_index,
            ConstantKind::Utf8,
            pool,
        ),
        CpInfoView::ConstantNameAndType { name_index, descriptor_index, .. } => refers_to(
            name_index,
            ConstantKind::Utf8,
            pool,
        ) && refers_to(descriptor_index, ConstantKind::Utf8, pool),
        CpInfoView::ConstantUtf8 { .. } => true,
    }
}

/// Whether every entry of `pool` from index 1 on is linked.
pub open spec fn pool_linked(pool: Seq<CpInfoView>) -> bool {
    forall|i: int| 1 <= i < pool.len() ==> entry_linked(#[trigger] pool[i], pool)
}

/// In a pool whose indices all refer to entries of the right kind, every
/// entry resolves: its line in the listing can be rendered, and the
/// resolver that is meant for its kind gives a text and no error.
pub proof fn lemma_linked_pool_resolves(pool: Seq<CpInfoView>, index: usize)
    requires
        pool_linked(pool),
        0 < index < pool.len(),
    ensures
        spec_cp_info_to_string(index, pool) is Ok,
        match pool[index as int] {
            CpInfoView::ConstantClass { .. } => spec_get_constant_class_name(index, pool) is Ok,
            CpInfoView::ConstantFieldref { .. } => spec_get_static_description(index, pool) is Ok,
            CpInfoView::ConstantMethodref { .. } => spec_get_constant_method_ref_description(
                index,
                pool,
            ) is Ok,
            CpInfoView::ConstantString { .. } => spec_get_ldc_description(index, pool) is Ok,
            CpInfoView::ConstantNameAndType { .. } => spec_get_name(index, pool) is Ok
                && spec_get_type(index, pool) is Ok,
            CpInfoView::ConstantUtf8 { .. } => spec_get_constant_utf8(index, pool) is Ok,
        },
{
    let entry = pool[index as int];
    assert(entry_linked(entry, pool));
    match entry {
        CpInfoView::ConstantFieldref { class_index, name_and_type_index, .. } => {
            lemma_linked_member(pool, class_index, name_and_type_index);
        },
        CpInfoView::ConstantMethodref { class_index, name_and_type_index, .. } => {
            lemma_linked_member(pool, class_index, name_and_type_index);
        },
        _ => {},
    }
}

/// In a linked pool a class and a name with its type resolve to a member's
/// text.
pub proof fn lemma_linked_member(pool: Seq<CpInfoView>, class_index: u16, name_and_type_index: u16)
    requires
        pool_linked(pool),
        refers_to(class_index, ConstantKind::Class, pool),
        refers_to(name_and_type_index, ConstantKind::NameAndType, pool),
    ensures
        spec_member_ref(class_index, name_and_type_index, pool, true) is Ok,
        spec_member_ref(class_index, name_and_type_index, pool, false) is Ok,
{
    assert(entry_linked(pool[class_index as int], pool));
    assert(entry_linked(pool[name_and_type_index as int], pool));
}

} // verus!

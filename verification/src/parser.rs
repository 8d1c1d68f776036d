//! Decoding a class file: the constant pool, the class's own fields, and
//! the tables of interfaces, fields, methods and attributes.
//!
//! Each decoder takes the offset at which its item starts and gives back the
//! item with the offset after it. What each one accepts, and what it gives,
//! is stated by the `spec_` function of the same name.

use crate::ast::{
    AttributeInfo, AttributeInfoView, ClassFile, ClassFileView, CpInfo, CpInfoView, ExceptionTable,
    FieldInfo, FieldInfoView, LineNumberTableItem, MethodInfo, MethodInfoView,
    lemma_code_view_attributes,
};
pub use crate::cursor::{get_u1, get_u2, get_u4};
use crate::cursor::{
    decoded, decoded_table, decoded_values, get_bytes, lemma_table_end, lemma_table_start,
    lemma_table_step, spec_get_bytes, spec_get_u1, spec_get_u2, spec_get_u4, spec_table,
    table_after,
};
use crate::error::{AttributeKind, DecodeError};
use crate::layout::{entries_len, lemma_cp_info_array_consumed, lemma_cp_info_consumed};
use crate::parser_helper::{get_constant_utf8, spec_get_constant_utf8, viewed};
use crate::text::{text_from_utf8, views};
use crate::wellformed::{
    attribute_well_formed, attributes_well_formed, entry_well_formed,
    lemma_attribute_well_formed, lemma_attributes_well_formed, lemma_class_file_well_formed,
};
use vstd::prelude::*;
use vstd::utf8::{decode_utf8, valid_utf8};

verus! {

/// The number that the first four bytes of every class file spell.
pub const CLASS_FILE_MAGIC: u32 = 0xCAFEBABE;

/// How deeply `Code` attributes may be nested in one another.
pub const MAX_ATTRIBUTE_NESTING: usize = 16;

/// The entry that fills index 0 of every decoded pool.
pub open spec fn spec_placeholder() -> CpInfoView {
    CpInfoView::ConstantUtf8 {
        tag: 0,
        length: 0,
        bytes: Seq::empty(),
        bytes_str: "Dummy Value"@,
    }
}

/// A Class entry, read after its tag.
pub open spec fn spec_parse_constant_class(idx: usize, bytes: Seq<u8>) -> Result<
    (usize, CpInfoView),
    DecodeError,
> {
    match spec_get_u2(idx, bytes) {
        Err(e) => Err(e),
        Ok((end, name_index)) => Ok((end, CpInfoView::ConstantClass { tag: 7, name_index })),
    }
}

/// A Fieldref entry, read after its tag.
pub open spec fn spec_parse_constant_fieldref(idx: usize, bytes: Seq<u8>) -> Result<
    (usize, CpInfoView),
    DecodeError,
> {
    match spec_get_u2(idx, bytes) {
        Err(e) => Err(e),
        Ok((at, class_index)) => match spec_get_u2(at, bytes) {
            Err(e) => Err(e),
            Ok((end, name_and_type_index)) => Ok(
                (end, CpInfoView::ConstantFieldref { tag: 9, class_index, name_and_type_index }),
            ),
        },
    }
}

/// A Methodref entry, read after its tag.
pub open spec fn spec_parse_constant_methodref(idx: usize, bytes: Seq<u8>) -> Result<
    (usize, CpInfoView),
    DecodeError,
> {
    match spec_get_u2(idx, bytes) {
        Err(e) => Err(e),
        Ok((at, class_index)) => match spec_get_u2(at, bytes) {
            Err(e) => Err(e),
            Ok((end, name_and_type_index)) => Ok(
                (end, CpInfoView::ConstantMethodref { tag: 10, class_index, name_and_type_index }),
            ),
        },
    }
}

/// A String entry, read after its tag.
pub open spec fn spec_parse_constant_string(idx: usize, bytes: Seq<u8>) -> Result<
    (usize, CpInfoView),
    DecodeError,
> {
    match spec_get_u2(idx, bytes) {
        Err(e) => Err(e),
        Ok((end, string_index)) => Ok((end, CpInfoView::ConstantString { tag: 8, string_index })),
    }
}

/// A NameAndType entry, read after its tag.
pub open spec fn spec_parse_constant_name_and_type(idx: usize, bytes: Seq<u8>) -> Result<
    (usize, CpInfoView),
    DecodeError,
> {
    match spec_get_u2(idx, bytes) {
        Err(e) => Err(e),
        Ok((at, name_index)) => match spec_get_u2(at, bytes) {
            Err(e) => Err(e),
            Ok((end, descriptor_index)) => Ok(
                (end, CpInfoView::ConstantNameAndType { tag: 12, name_index, descriptor_index }),
            ),
        },
    }
}

/// A Utf8 entry, read after its tag: a length, then that many bytes, which
/// must be valid UTF-8. `index` is the entry's index in the pool.
pub open spec fn spec_parse_constant_utf8(idx: usize, bytes: Seq<u8>, index: usize) -> Result<
    (usize, CpInfoView),
    DecodeError,
> {
    match spec_get_u2(idx, bytes) {
        Err(e) => Err(e),
        Ok((at, length)) => match spec_get_bytes(at, length as usize, bytes) {
            Err(e) => Err(e),
            Ok((end, raw)) => if valid_utf8(raw) {
                Ok(
                    (
                        end,
                        CpInfoView::ConstantUtf8 {
                            tag: 1,
                            length,
                            bytes: raw,
                            bytes_str: decode_utf8(raw),
                        },
                    ),
                )
            } else {
                Err(DecodeError::InvalidUtf8 { index })
            },
        },
    }
}

/// One pool entry: a tag, then what the tag calls for. `index` is the
/// entry's index in the pool.
pub open spec fn spec_parse_cp_info(idx: usize, bytes: Seq<u8>, index: usize) -> Result<
    (usize, CpInfoView),
    DecodeError,
> {
    match spec_get_u1(idx, bytes) {
        Err(e) => Err(e),
        Ok((at, tag)) => if tag == 7 {
            spec_parse_constant_class(at, bytes)
        } else if tag == 9 {
            spec_parse_constant_fieldref(at, bytes)
        } else if tag == 10 {
            spec_parse_constant_methodref(at, bytes)
        } else if tag == 8 {
            spec_parse_constant_string(at, bytes)
        } else if tag == 12 {
            spec_parse_constant_name_and_type(at, bytes)
        } else if tag == 1 {
            spec_parse_constant_utf8(at, bytes, index)
        } else {
            Err(DecodeError::UnsupportedConstantTag { tag, offset: idx })
        },
    }
}

/// The pool of a class file that declares `constant_pool_count`: the
/// placeholder, then the entries with the indices from 1 up to, not
/// including, the count.
pub open spec fn spec_parse_cp_info_array(
    idx: usize,
    constant_pool_count: u16,
    bytes: Seq<u8>,
) -> Result<(usize, Seq<CpInfoView>), DecodeError> {
    table_after(
        seq![spec_placeholder()],
        spec_table(
            |at: usize, i: nat| spec_parse_cp_info(at, bytes, i as usize),
            idx,
            1,
            constant_pool_count as nat,
        ),
    )
}

/// The table of interface indices.
pub open spec fn spec_parse_interfaces(idx: usize, interfaces_count: u16, bytes: Seq<u8>) -> Result<
    (usize, Seq<u16>),
    DecodeError,
> {
    spec_table(|at: usize, i: nat| spec_get_u2(at, bytes), idx, 0, interfaces_count as nat)
}

/// What reading inside an attribute's payload gives: a read that fails
/// there fails as a malformed attribute.
pub open spec fn in_payload<T>(r: Result<T, DecodeError>, name_index: u16) -> Result<
    T,
    DecodeError,
> {
    match r {
        Err(_) => Err(DecodeError::MalformedAttribute { name_index }),
        Ok(value) => Ok(value),
    }
}

/// The kind of attribute that the name at `name_index` names.
pub open spec fn spec_attribute_kind(name_index: u16, pool: Seq<CpInfoView>) -> Result<
    AttributeKind,
    DecodeError,
> {
    match spec_get_constant_utf8(name_index as usize, pool) {
        Err(_) => Err(DecodeError::MalformedAttribute { name_index }),
        Ok(name) => match AttributeKind::of_name(name) {
            None => Err(DecodeError::MalformedAttribute { name_index }),
            Some(kind) => Ok(kind),
        },
    }
}

/// One row of an exception table: four numbers of two bytes.
pub open spec fn spec_parse_exception_table(idx: usize, bytes: Seq<u8>) -> Result<
    (usize, ExceptionTable),
    DecodeError,
> {
    match spec_get_u2(idx, bytes) {
        Err(e) => Err(e),
        Ok((a, start_pc)) => match spec_get_u2(a, bytes) {
            Err(e) => Err(e),
            Ok((b, end_pc)) => match spec_get_u2(b, bytes) {
                Err(e) => Err(e),
                Ok((c, handler_pc)) => match spec_get_u2(c, bytes) {
                    Err(e) => Err(e),
                    Ok((end, catch_type)) => Ok(
                        (end, ExceptionTable { start_pc, end_pc, handler_pc, catch_type }),
                    ),
                },
            },
        },
    }
}

/// One row of a line number table: two numbers of two bytes.
pub open spec fn spec_parse_attribute_info_line_number_table_item(
    idx: usize,
    bytes: Seq<u8>,
) -> Result<(usize, LineNumberTableItem), DecodeError> {
    match spec_get_u2(idx, bytes) {
        Err(e) => Err(e),
        Ok((at, start_pc)) => match spec_get_u2(at, bytes) {
            Err(e) => Err(e),
            Ok((end, line_number)) => Ok((end, LineNumberTableItem { start_pc, line_number })),
        },
    }
}

/// The payload of a `LineNumberTable` attribute: a count, then that many
/// rows.
pub open spec fn spec_parse_attribute_info_line_number_table(
    idx: usize,
    attribute_name_index: u16,
    attribute_length: u32,
    bytes: Seq<u8>,
) -> Result<(usize, AttributeInfoView), DecodeError> {
    match in_payload(spec_get_u2(idx, bytes), attribute_name_index) {
        Err(e) => Err(e),
        Ok((at, line_number_table_length)) => match spec_table(
            |at: usize, i: nat|
                in_payload(
                    spec_parse_attribute_info_line_number_table_item(at, bytes),
                    attribute_name_index,
                ),
            at,
            0,
            line_number_table_length as nat,
        ) {
            Err(e) => Err(e),
            Ok((end, line_number_tables)) => Ok(
                (
                    end,
                    AttributeInfoView::LineNumberTable {
                        attribute_name_index,
                        attribute_length,
                        line_number_table_length,
                        line_number_tables,
                    },
                ),
            ),
        },
    }
}

/// The payload of a `SourceFile` attribute: one index.
pub open spec fn spec_parse_attribute_info_source_file(
    idx: usize,
    attribute_name_index: u16,
    attribute_length: u32,
    bytes: Seq<u8>,
) -> Result<(usize, AttributeInfoView), DecodeError> {
    match in_payload(spec_get_u2(idx, bytes), attribute_name_index) {
        Err(e) => Err(e),
        Ok((end, sourcefile_index)) => Ok(
            (
                end,
                AttributeInfoView::SourceFile {
                    attribute_name_index,
                    attribute_length,
                    sourcefile_index,
                },
            ),
        ),
    }
}

/// The exception table of the `Code` attribute whose name index is
/// `attribute_name_index`: `exception_table_length` rows.
pub open spec fn spec_parse_exception_rows(
    idx: usize,
    exception_table_length: u16,
    attribute_name_index: u16,
    bytes: Seq<u8>,
) -> Result<(usize, Seq<ExceptionTable>), DecodeError> {
    spec_table(
        |at: usize, i: nat| in_payload(spec_parse_exception_table(at, bytes), attribute_name_index),
        idx,
        0,
        exception_table_length as nat,
    )
}

/// The fields of a `Code` attribute that come before its nested
/// attributes.
pub struct CodeHead {
    pub max_stack: u16,
    pub max_locals: u16,
    pub code_length: u32,
    pub code: Seq<u8>,
    pub exception_table_length: u16,
    pub exception_table: Seq<ExceptionTable>,
    pub attributes_count: u16,
}

/// The payload of a `Code` attribute up to the count of its nested
/// attributes: the stack and locals sizes, the code with its length before
/// it, the exception table with its length before it, and the count.
pub open spec fn spec_parse_code_head(idx: usize, attribute_name_index: u16, bytes: Seq<u8>) -> Result<
    (usize, CodeHead),
    DecodeError,
> {
    match in_payload(spec_get_u2(idx, bytes), attribute_name_index) {
        Err(e) => Err(e),
        Ok((a, max_stack)) => match in_payload(spec_get_u2(a, bytes), attribute_name_index) {
            Err(e) => Err(e),
            Ok((b, max_locals)) => match in_payload(spec_get_u4(b, bytes), attribute_name_index) {
                Err(e) => Err(e),
                Ok((c, code_length)) => match in_payload(
                    spec_get_bytes(c, code_length as usize, bytes),
                    attribute_name_index,
                ) {
                    Err(e) => Err(e),
                    Ok((d, code)) => match in_payload(
                        spec_get_u2(d, bytes),
                        attribute_name_index,
                    ) {
                        Err(e) => Err(e),
                        Ok((f, exception_table_length)) => match spec_parse_exception_rows(
                            f,
                            exception_table_length,
                            attribute_name_index,
                            bytes,
                        ) {
                            Err(e) => Err(e),
                            Ok((g, exception_table)) => match in_payload(
                                spec_get_u2(g, bytes),
                                attribute_name_index,
                            ) {
                                Err(e) => Err(e),
                                Ok((end, attributes_count)) => Ok(
                                    (
                                        end,
                                        CodeHead {
                                            max_stack,
                                            max_locals,
                                            code_length,
                                            code,
                                            exception_table_length,
                                            exception_table,
                                            attributes_count,
                                        },
                                    ),
                                ),
                            },
                        },
                    },
                },
            },
        },
    }
}

/// The payload of a `Code` attribute. The attributes nested in it are
/// decoded like any others, one level deeper; where no deeper level is
/// left the attribute is malformed.
pub open spec fn spec_parse_attribute_info_code(
    idx: usize,
    attribute_name_index: u16,
    attribute_length: u32,
    pool: Seq<CpInfoView>,
    bytes: Seq<u8>,
    nesting: usize,
) -> Result<(usize, AttributeInfoView), DecodeError>
    decreases nesting, 0nat, 0nat,
{
    if nesting == 0 {
        Err(DecodeError::MalformedAttribute { name_index: attribute_name_index })
    } else {
        match spec_parse_code_head(idx, attribute_name_index, bytes) {
            Err(e) => Err(e),
            Ok((at, head)) => match spec_parse_attributes_from(
                at,
                0,
                head.attributes_count,
                pool,
                bytes,
                (nesting - 1) as usize,
            ) {
                Err(e) => Err(e),
                Ok((end, attributes)) => Ok(
                    (
                        end,
                        AttributeInfoView::Code {
                            attribute_name_index,
                            attribute_length,
                            max_stack: head.max_stack,
                            max_locals: head.max_locals,
                            code_length: head.code_length,
                            code: head.code,
                            exception_table_length: head.exception_table_length,
                            exception_table: head.exception_table,
                            attributes_count: head.attributes_count,
                            attributes,
                        },
                    ),
                ),
            },
        }
    }
}

/// One attribute: the index of its name, its length, and the payload that
/// its name calls for. `nesting` is the number of levels of `Code`
/// attributes that may still be entered.
pub open spec fn spec_parse_attribute_info(
    idx: usize,
    pool: Seq<CpInfoView>,
    bytes: Seq<u8>,
    nesting: usize,
) -> Result<(usize, AttributeInfoView), DecodeError>
    decreases nesting, 1nat, 0nat,
{
    match spec_get_u2(idx, bytes) {
        Err(e) => Err(e),
        Ok((a, attribute_name_index)) => match spec_get_u4(a, bytes) {
            Err(e) => Err(e),
            Ok((at, attribute_length)) => match spec_attribute_kind(attribute_name_index, pool) {
                Err(e) => Err(e),
                Ok(kind) => match kind {
                    AttributeKind::Code => spec_parse_attribute_info_code(
                        at,
                        attribute_name_index,
                        attribute_length,
                        pool,
                        bytes,
                        nesting,
                    ),
                    AttributeKind::LineNumberTable => spec_parse_attribute_info_line_number_table(
                        at,
                        attribute_name_index,
                        attribute_length,
                        bytes,
                    ),
                    AttributeKind::SourceFile => spec_parse_attribute_info_source_file(
                        at,
                        attribute_name_index,
                        attribute_length,
                        bytes,
                    ),
                    _ => Err(DecodeError::NotYetImplemented { kind }),
                },
            },
        },
    }
}

/// The attributes numbered `first` up to, not including,
/// `attributes_count`, read one after the other from `idx` on. The first
/// one that fails fails them all.
pub open spec fn spec_parse_attributes_from(
    idx: usize,
    first: nat,
    attributes_count: u16,
    pool: Seq<CpInfoView>,
    bytes: Seq<u8>,
    nesting: usize,
) -> Result<(usize, Seq<AttributeInfoView>), DecodeError>
    decreases nesting, 2nat, attributes_count - first,
{
    if first >= attributes_count {
        Ok((idx, Seq::empty()))
    } else {
        match spec_parse_attribute_info(idx, pool, bytes, nesting) {
            Err(e) => Err(e),
            Ok((next, head)) => match spec_parse_attributes_from(
                next,
                first + 1,
                attributes_count,
                pool,
                bytes,
                nesting,
            ) {
                Err(e) => Err(e),
                Ok((end, tail)) => Ok((end, seq![head] + tail)),
            },
        }
    }
}

/// A table of `attributes_count` attributes.
pub open spec fn spec_parse_attributes(
    idx: usize,
    attributes_count: u16,
    pool: Seq<CpInfoView>,
    bytes: Seq<u8>,
    nesting: usize,
) -> Result<(usize, Seq<AttributeInfoView>), DecodeError> {
    spec_parse_attributes_from(idx, 0, attributes_count, pool, bytes, nesting)
}

/// A table of attributes is a table whose items are attributes.
pub proof fn lemma_attributes_are_table(
    idx: usize,
    first: nat,
    attributes_count: u16,
    pool: Seq<CpInfoView>,
    bytes: Seq<u8>,
    nesting: usize,
)
    ensures
        spec_parse_attributes_from(idx, first, attributes_count, pool, bytes, nesting)
            == spec_table(
            |at: usize, i: nat| spec_parse_attribute_info(at, pool, bytes, nesting),
            idx,
            first,
            attributes_count as nat,
        ),
    decreases attributes_count - first,
{
    if first < attributes_count {
        match spec_parse_attribute_info(idx, pool, bytes, nesting) {
            Err(_) => {},
            Ok((next, _)) => {
                lemma_attributes_are_table(next, first + 1, attributes_count, pool, bytes, nesting);
            },
        }
    }
}

/// A field or a method: flags, the indices of its name and descriptor, and
/// its attributes.
pub open spec fn spec_parse_member(idx: usize, pool: Seq<CpInfoView>, bytes: Seq<u8>) -> Result<
    (usize, MethodInfoView),
    DecodeError,
> {
    match spec_get_u2(idx, bytes) {
        Err(e) => Err(e),
        Ok((a, access_flags)) => match spec_get_u2(a, bytes) {
            Err(e) => Err(e),
            Ok((b, name_index)) => match spec_get_u2(b, bytes) {
                Err(e) => Err(e),
                Ok((c, descriptor_index)) => match spec_get_u2(c, bytes) {
                    Err(e) => Err(e),
                    Ok((d, attributes_count)) => match spec_parse_attributes(
                        d,
                        attributes_count,
                        pool,
                        bytes,
                        MAX_ATTRIBUTE_NESTING,
                    ) {
                        Err(e) => Err(e),
                        Ok((end, attributes)) => Ok(
                            (
                                end,
                                MethodInfoView {
                                    access_flags,
                                    name_index,
                                    descriptor_index,
                                    attributes_count,
                                    attributes,
                                },
                            ),
                        ),
                    },
                },
            },
        },
    }
}

/// One method.
pub open spec fn spec_parse_method_info(idx: usize, pool: Seq<CpInfoView>, bytes: Seq<u8>) -> Result<
    (usize, MethodInfoView),
    DecodeError,
> {
    spec_parse_member(idx, pool, bytes)
}

/// One field: it is laid out as a method is.
pub open spec fn spec_parse_field_info(idx: usize, pool: Seq<CpInfoView>, bytes: Seq<u8>) -> Result<
    (usize, FieldInfoView),
    DecodeError,
> {
    match spec_parse_member(idx, pool, bytes) {
        Err(e) => Err(e),
        Ok((end, member)) => Ok(
            (
                end,
                FieldInfoView {
                    access_flags: member.access_flags,
                    name_index: member.name_index,
                    descriptor_index: member.descriptor_index,
                    attributes_count: member.attributes_count,
                    attributes: member.attributes,
                },
            ),
        ),
    }
}

/// The table of fields.
pub open spec fn spec_parse_fields(
    idx: usize,
    fields_count: u16,
    pool: Seq<CpInfoView>,
    bytes: Seq<u8>,
) -> Result<(usize, Seq<FieldInfoView>), DecodeError> {
    spec_table(
        |at: usize, i: nat| spec_parse_field_info(at, pool, bytes),
        idx,
        0,
        fields_count as nat,
    )
}

/// The table of methods.
pub open spec fn spec_parse_methods(
    idx: usize,
    methods_count: u16,
    pool: Seq<CpInfoView>,
    bytes: Seq<u8>,
) -> Result<(usize, Seq<MethodInfoView>), DecodeError> {
    spec_table(
        |at: usize, i: nat| spec_parse_method_info(at, pool, bytes),
        idx,
        0,
        methods_count as nat,
    )
}

/// What a class file holds before its tables of fields: the magic number,
/// the version, the pool, the flags, the class's own index and that of its
/// superclass, and the interfaces.
pub struct ClassHead {
    pub magic: u32,
    pub minor_version: u16,
    pub major_version: u16,
    pub constant_pool_count: u16,
    pub cp_info: Seq<CpInfoView>,
    pub access_flags: u16,
    pub this_class: u16,
    pub super_class: u16,
    pub interfaces_count: u16,
    pub interfaces: Seq<u16>,
}

/// The start of a class file, up to and including the interfaces. A file
/// that does not start with the magic number is no class file.
pub open spec fn spec_parse_class_head(bytes: Seq<u8>) -> Result<(usize, ClassHead), DecodeError> {
    match spec_get_u4(0, bytes) {
        Err(e) => Err(e),
        Ok((a, magic)) => if magic != CLASS_FILE_MAGIC {
            Err(DecodeError::NotAClassFile)
        } else {
            match spec_get_u2(a, bytes) {
                Err(e) => Err(e),
                Ok((b, minor_version)) => match spec_get_u2(b, bytes) {
                    Err(e) => Err(e),
                    Ok((c, major_version)) => match spec_get_u2(c, bytes) {
                        Err(e) => Err(e),
                        Ok((d, constant_pool_count)) => match spec_parse_cp_info_array(
                            d,
                            constant_pool_count,
                            bytes,
                        ) {
                            Err(e) => Err(e),
                            Ok((f, cp_info)) => match spec_get_u2(f, bytes) {
                                Err(e) => Err(e),
                                Ok((g, access_flags)) => match spec_get_u2(g, bytes) {
                                    Err(e) => Err(e),
                                    Ok((h, this_class)) => match spec_get_u2(h, bytes) {
                                        Err(e) => Err(e),
                                        Ok((j, super_class)) => match spec_get_u2(j, bytes) {
                                            Err(e) => Err(e),
                                            Ok((k, interfaces_count)) => match spec_parse_interfaces(
                                                k,
                                                interfaces_count,
                                                bytes,
                                            ) {
                                                Err(e) => Err(e),
                                                Ok((end, interfaces)) => Ok(
                                                    (
                                                        end,
                                                        ClassHead {
                                                            magic,
                                                            minor_version,
                                                            major_version,
                                                            constant_pool_count,
                                                            cp_info,
                                                            access_flags,
                                                            this_class,
                                                            super_class,
                                                            interfaces_count,
                                                            interfaces,
                                                        },
                                                    ),
                                                ),
                                            },
                                        },
                                    },
                                },
                            },
                        },
                    },
                },
            }
        },
    }
}

/// A whole class file: its start, then the fields, the methods and the
/// class's attributes, each table with its count before it. Bytes after
/// the last attribute are not looked at.
pub open spec fn spec_parse_class_file(bytes: Seq<u8>) -> Result<ClassFileView, DecodeError> {
    match spec_parse_class_head(bytes) {
        Err(e) => Err(e),
        Ok((a, head)) => match spec_get_u2(a, bytes) {
            Err(e) => Err(e),
            Ok((b, fields_count)) => match spec_parse_fields(b, fields_count, head.cp_info, bytes) {
                Err(e) => Err(e),
                Ok((c, fields)) => match spec_get_u2(c, bytes) {
                    Err(e) => Err(e),
                    Ok((d, methods_count)) => match spec_parse_methods(
                        d,
                        methods_count,
                        head.cp_info,
                        bytes,
                    ) {
                        Err(e) => Err(e),
                        Ok((f, methods)) => match spec_get_u2(f, bytes) {
                            Err(e) => Err(e),
                            Ok((g, attributes_count)) => match spec_parse_attributes(
                                g,
                                attributes_count,
                                head.cp_info,
                                bytes,
                                MAX_ATTRIBUTE_NESTING,
                            ) {
                                Err(e) => Err(e),
                                Ok((_, attributes)) => Ok(
                                    ClassFileView {
                                        magic: head.magic,
                                        minor_version: head.minor_version,
                                        major_version: head.major_version,
                                        constant_pool_count: head.constant_pool_count,
                                        cp_info: head.cp_info,
                                        access_flags: head.access_flags,
                                        this_class: head.this_class,
                                        super_class: head.super_class,
                                        interfaces_count: head.interfaces_count,
                                        interfaces: head.interfaces,
                                        fields_count,
                                        fields,
                                        methods_count,
                                        methods,
                                        attributes_count,
                                        attributes,
                                    },
                                ),
                            },
                        },
                    },
                },
            },
        },
    }
}

/// The entry that fills index 0 of every decoded pool.
pub fn placeholder() -> (entry: CpInfo)
    ensures
        entry@ == spec_placeholder(),
{
    CpInfo::ConstantUtf8 {
        tag: 0,
        length: 0,
        bytes: Vec::new(),
        bytes_str: String::from_str("Dummy Value"),
    }
}

/// Decodes a Class entry, after its tag.
pub fn parse_constant_class(idx: usize, bytecode: &Vec<u8>) -> (r: Result<
    (usize, CpInfo),
    DecodeError,
>)
    ensures
        decoded(r) == spec_parse_constant_class(idx, bytecode@),
{
    let (idx, name_index) = get_u2(idx, bytecode)?;
    Ok((idx, CpInfo::ConstantClass { tag: 7, name_index }))
}

/// Decodes a Fieldref entry, after its tag.
pub fn parse_constant_fieldref(idx: usize, bytecode: &Vec<u8>) -> (r: Result<
    (usize, CpInfo),
    DecodeError,
>)
    ensures
        decoded(r) == spec_parse_constant_fieldref(idx, bytecode@),
{
    let (idx, class_index) = get_u2(idx, bytecode)?;
    let (idx, name_and_type_index) = get_u2(idx, bytecode)?;
    Ok((idx, CpInfo::ConstantFieldref { tag: 9, class_index, name_and_type_index }))
}

/// Decodes a Methodref entry, after its tag.
pub fn parse_constant_methodref(idx: usize, bytecode: &Vec<u8>) -> (r: Result<
    (usize, CpInfo),
    DecodeError,
>)
    ensures
        decoded(r) == spec_parse_constant_methodref(idx, bytecode@),
{
    let (idx, class_index) = get_u2(idx, bytecode)?;
    let (idx, name_and_type_index) = get_u2(idx, bytecode)?;
    Ok((idx, CpInfo::ConstantMethodref { tag: 10, class_index, name_and_type_index }))
}

/// Decodes a String entry, after its tag.
pub fn parse_constant_string(idx: usize, bytecode: &Vec<u8>) -> (r: Result<
    (usize, CpInfo),
    DecodeError,
>)
    ensures
        decoded(r) == spec_parse_constant_string(idx, bytecode@),
{
    let (idx, string_index) = get_u2(idx, bytecode)?;
    Ok((idx, CpInfo::ConstantString { tag: 8, string_index }))
}

/// Decodes a NameAndType entry, after its tag.
pub fn parse_constant_name_and_type(idx: usize, bytecode: &Vec<u8>) -> (r: Result<
    (usize, CpInfo),
    DecodeError,
>)
    ensures
        decoded(r) == spec_parse_constant_name_and_type(idx, bytecode@),
{
    let (idx, name_index) = get_u2(idx, bytecode)?;
    let (idx, descriptor_index) = get_u2(idx, bytecode)?;
    Ok((idx, CpInfo::ConstantNameAndType { tag: 12, name_index, descriptor_index }))
}

/// Decodes a Utf8 entry, after its tag. `index` is the entry's index in the
/// pool.
pub fn parse_constant_utf8(idx: usize, bytecode: &Vec<u8>, index: usize) -> (r: Result<
    (usize, CpInfo),
    DecodeError,
>)
    ensures
        decoded(r) == spec_parse_constant_utf8(idx, bytecode@, index),
{
    let (idx, length) = get_u2(idx, bytecode)?;
    let (idx, bytes) = get_bytes(idx, length as usize, bytecode)?;
    let copy = bytes.clone();
    assert(copy@ =~= bytes@);
    match text_from_utf8(copy) {
        None => Err(DecodeError::InvalidUtf8 { index }),
        Some(bytes_str) => Ok((idx, CpInfo::ConstantUtf8 { tag: 1, length, bytes, bytes_str })),
    }
}

/// Decodes the pool entry that starts at `idx`. `index` is the entry's
/// index in the pool.
pub fn parse_cp_info(idx: usize, bytecode: &Vec<u8>, index: usize) -> (r: Result<
    (usize, CpInfo),
    DecodeError,
>)
    ensures
        decoded(r) == spec_parse_cp_info(idx, bytecode@, index),
        r is Ok ==> r->Ok_0.0 == idx + r->Ok_0.1@.encoded_len() && bytecode@.subrange(
            idx as int,
            r->Ok_0.0 as int,
        ) == r->Ok_0.1@.encoding() && entry_well_formed(r->Ok_0.1@),
{
    let (at, tag) = get_u1(idx, bytecode)?;
    let r = match tag {
        7 => parse_constant_class(at, bytecode),
        9 => parse_constant_fieldref(at, bytecode),
        10 => parse_constant_methodref(at, bytecode),
        8 => parse_constant_string(at, bytecode),
        12 => parse_constant_name_and_type(at, bytecode),
        1 => parse_constant_utf8(at, bytecode, index),
        _ => Err(DecodeError::UnsupportedConstantTag { tag, offset: idx }),
    };
    proof {
        if r is Ok {
            lemma_cp_info_consumed(idx, bytecode@, index);
        }
    }
    r
}

/// Decodes the constant pool of a class file that declares
/// `constant_pool_count`.
pub fn parse_cp_info_array(idx: usize, constant_pool_count: u16, bytecode: &Vec<u8>) -> (r: Result<
    (usize, Vec<CpInfo>),
    DecodeError,
>)
    ensures
        decoded_table(r) == spec_parse_cp_info_array(idx, constant_pool_count, bytecode@),
        r is Ok ==> r->Ok_0.0 == idx + entries_len(views(r->Ok_0.1@).skip(1)),
{
    let count = constant_pool_count as usize;
    let ghost item = |at: usize, i: nat| spec_parse_cp_info(at, bytecode@, i as usize);
    let mut cp_infos: Vec<CpInfo> = Vec::new();
    cp_infos.push(placeholder());
    let mut at = idx;
    let mut i: usize = 1;
    assert(views(cp_infos@) =~= seq![spec_placeholder()]);
    while i < count
        invariant
            1 <= i,
            count == constant_pool_count,
            item == |at: usize, i: nat| spec_parse_cp_info(at, bytecode@, i as usize),
            spec_parse_cp_info_array(idx, constant_pool_count, bytecode@) == table_after(
                views(cp_infos@),
                spec_table(item, at, i as nat, count as nat),
            ),
        decreases count - i,
    {
        proof {
            lemma_table_step(item, at, i as nat, count as nat, views(cp_infos@));
        }
        let ghost before = views(cp_infos@);
        let (next, cp_info) = parse_cp_info(at, bytecode, i)?;
        at = next;
        cp_infos.push(cp_info);
        i += 1;
        assert(views(cp_infos@) =~= before.push(cp_info@));
    }
    proof {
        lemma_table_end(item, at, i as nat, count as nat, views(cp_infos@));
        lemma_cp_info_array_consumed(idx, constant_pool_count, bytecode@, 0);
    }
    Ok((at, cp_infos))
}

/// Decodes the table of interface indices.
pub fn parse_interfaces(idx: usize, interfaces_count: u16, bytecode: &Vec<u8>) -> (r: Result<
    (usize, Vec<u16>),
    DecodeError,
>)
    ensures
        decoded_values(r) == spec_parse_interfaces(idx, interfaces_count, bytecode@),
{
    let count = interfaces_count as usize;
    let ghost item = |at: usize, i: nat| spec_get_u2(at, bytecode@);
    let mut v: Vec<u16> = Vec::with_capacity(count);
    let mut at = idx;
    let mut i: usize = 0;
    proof {
        lemma_table_start(item, idx, 0, count as nat);
    }
    while i < count
        invariant
            count == interfaces_count,
            item == |at: usize, i: nat| spec_get_u2(at, bytecode@),
            spec_parse_interfaces(idx, interfaces_count, bytecode@) == table_after(
                v@,
                spec_table(item, at, i as nat, count as nat),
            ),
        decreases count - i,
    {
        proof {
            lemma_table_step(item, at, i as nat, count as nat, v@);
        }
        let (next, interface) = get_u2(at, bytecode)?;
        at = next;
        v.push(interface);
        i += 1;
    }
    proof {
        lemma_table_end(item, at, i as nat, count as nat, v@);
    }
    Ok((at, v))
}

/// Turns a read inside an attribute's payload that failed into the failure
/// of the attribute.
pub fn payload<T>(r: Result<T, DecodeError>, name_index: u16) -> (out: Result<T, DecodeError>)
    ensures
        out == in_payload(r, name_index),
{
    match r {
        Err(_) => Err(DecodeError::MalformedAttribute { name_index }),
        Ok(value) => Ok(value),
    }
}

/// The kind of attribute that the name at `name_index` names.
pub fn attribute_kind(name_index: u16, cp_info: &Vec<CpInfo>) -> (r: Result<
    AttributeKind,
    DecodeError,
>)
    ensures
        r == spec_attribute_kind(name_index, views(cp_info@)),
{
    match get_constant_utf8(name_index, cp_info) {
        Err(_) => Err(DecodeError::MalformedAttribute { name_index }),
        Ok(name) => match AttributeKind::from_name(name.as_str()) {
            None => Err(DecodeError::MalformedAttribute { name_index }),
            Some(kind) => Ok(kind),
        },
    }
}

/// Decodes one row of an exception table.
pub fn parse_exception_table(idx: usize, bytecode: &Vec<u8>) -> (r: Result<
    (usize, ExceptionTable),
    DecodeError,
>)
    ensures
        r == spec_parse_exception_table(idx, bytecode@),
{
    let (idx, start_pc) = get_u2(idx, bytecode)?;
    let (idx, end_pc) = get_u2(idx, bytecode)?;
    let (idx, handler_pc) = get_u2(idx, bytecode)?;
    let (idx, catch_type) = get_u2(idx, bytecode)?;
    Ok((idx, ExceptionTable { start_pc, end_pc, handler_pc, catch_type }))
}

/// Decodes one row of a line number table.
pub fn parse_attribute_info_line_number_table_item(idx: usize, bytecode: &Vec<u8>) -> (r: Result<
    (usize, LineNumberTableItem),
    DecodeError,
>)
    ensures
        r == spec_parse_attribute_info_line_number_table_item(idx, bytecode@),
{
    let (idx, start_pc) = get_u2(idx, bytecode)?;
    let (idx, line_number) = get_u2(idx, bytecode)?;
    Ok((idx, LineNumberTableItem { start_pc, line_number }))
}

/// Decodes the payload of a `LineNumberTable` attribute.
pub fn parse_attribute_info_line_number_table(
    idx: usize,
    attribute_name_index: u16,
    attribute_length: u32,
    bytecode: &Vec<u8>,
) -> (r: Result<(usize, AttributeInfo), DecodeError>)
    ensures
        decoded(r) == spec_parse_attribute_info_line_number_table(
            idx,
            attribute_name_index,
            attribute_length,
            bytecode@,
        ),
{
    let (start, line_number_table_length) = payload(get_u2(idx, bytecode), attribute_name_index)?;
    let count = line_number_table_length as usize;
    let ghost item = |at: usize, i: nat|
        in_payload(
            spec_parse_attribute_info_line_number_table_item(at, bytecode@),
            attribute_name_index,
        );
    let mut line_number_tables: Vec<LineNumberTableItem> = Vec::with_capacity(count);
    let mut at = start;
    let mut i: usize = 0;
    proof {
        lemma_table_start(item, start, 0, count as nat);
    }
    while i < count
        invariant
            count == line_number_table_length,
            in_payload(spec_get_u2(idx, bytecode@), attribute_name_index) == Ok::<
                (usize, u16),
                DecodeError,
            >((start, line_number_table_length)),
            item == |at: usize, i: nat|
                in_payload(
                    spec_parse_attribute_info_line_number_table_item(at, bytecode@),
                    attribute_name_index,
                ),
            spec_table(item, start, 0, count as nat) == table_after(
                line_number_tables@,
                spec_table(item, at, i as nat, count as nat),
            ),
        decreases count - i,
    {
        proof {
            lemma_table_step(item, at, i as nat, count as nat, line_number_tables@);
        }
        let (next, row) = payload(
            parse_attribute_info_line_number_table_item(at, bytecode),
            attribute_name_index,
        )?;
        at = next;
        line_number_tables.push(row);
        i += 1;
    }
    proof {
        lemma_table_end(item, at, i as nat, count as nat, line_number_tables@);
    }
    Ok(
        (
            at,
            AttributeInfo::LineNumberTable {
                attribute_name_index,
                attribute_length,
                line_number_table_length,
                line_number_tables,
            },
        ),
    )
}

/// Decodes the payload of a `SourceFile` attribute.
pub fn parse_attribute_info_source_file(
    idx: usize,
    attribute_name_index: u16,
    attribute_length: u32,
    bytecode: &Vec<u8>,
) -> (r: Result<(usize, AttributeInfo), DecodeError>)
    ensures
        decoded(r) == spec_parse_attribute_info_source_file(
            idx,
            attribute_name_index,
            attribute_length,
            bytecode@,
        ),
{
    let (idx, sourcefile_index) = payload(get_u2(idx, bytecode), attribute_name_index)?;
    Ok(
        (
            idx,
            AttributeInfo::SourceFile { attribute_name_index, attribute_length, sourcefile_index },
        ),
    )
}

/// Decodes the exception table of the `Code` attribute whose name index is
/// `attribute_name_index`.
pub fn parse_exception_rows(
    idx: usize,
    exception_table_length: u16,
    attribute_name_index: u16,
    bytecode: &Vec<u8>,
) -> (r: Result<(usize, Vec<ExceptionTable>), DecodeError>)
    ensures
        decoded_values(r) == spec_parse_exception_rows(
            idx,
            exception_table_length,
            attribute_name_index,
            bytecode@,
        ),
{
    let count = exception_table_length as usize;
    let ghost item = |at: usize, i: nat|
        in_payload(spec_parse_exception_table(at, bytecode@), attribute_name_index);
    let mut exceptions: Vec<ExceptionTable> = Vec::with_capacity(count);
    let mut at = idx;
    let mut i: usize = 0;
    proof {
        lemma_table_start(item, idx, 0, count as nat);
    }
    while i < count
        invariant
            count == exception_table_length,
            item == |at: usize, i: nat|
                in_payload(spec_parse_exception_table(at, bytecode@), attribute_name_index),
            spec_table(item, idx, 0, count as nat) == table_after(
                exceptions@,
                spec_table(item, at, i as nat, count as nat),
            ),
        decreases count - i,
    {
        proof {
            lemma_table_step(item, at, i as nat, count as nat, exceptions@);
        }
        let (next, row) = payload(parse_exception_table(at, bytecode), attribute_name_index)?;
        at = next;
        exceptions.push(row);
        i += 1;
    }
    proof {
        lemma_table_end(item, at, i as nat, count as nat, exceptions@);
    }
    Ok((at, exceptions))
}

/// Decodes the payload of a `Code` attribute. `nesting` is the number of
/// levels of `Code` attributes that may still be entered, this one
/// included.
pub fn parse_attribute_info_code(
    idx: usize,
    attribute_name_index: u16,
    attribute_length: u32,
    cp_info: &Vec<CpInfo>,
    bytecode: &Vec<u8>,
    nesting: usize,
) -> (r: Result<(usize, AttributeInfo), DecodeError>)
    ensures
        decoded(r) == spec_parse_attribute_info_code(
            idx,
            attribute_name_index,
            attribute_length,
            views(cp_info@),
            bytecode@,
            nesting,
        ),
    decreases nesting, 0nat, 0nat,
{
    if nesting == 0 {
        return Err(DecodeError::MalformedAttribute { name_index: attribute_name_index });
    }
    let (at, max_stack) = payload(get_u2(idx, bytecode), attribute_name_index)?;
    let (at, max_locals) = payload(get_u2(at, bytecode), attribute_name_index)?;
    let (at, code_length) = payload(get_u4(at, bytecode), attribute_name_index)?;
    let (at, code) = payload(
        get_bytes(at, code_length as usize, bytecode),
        attribute_name_index,
    )?;
    let (at, exception_table_length) = payload(get_u2(at, bytecode), attribute_name_index)?;
    let (at, exception_table) = parse_exception_rows(
        at,
        exception_table_length,
        attribute_name_index,
        bytecode,
    )?;
    let (at, attributes_count) = payload(get_u2(at, bytecode), attribute_name_index)?;
    let (end, attributes) = parse_attributes(
        at,
        attributes_count,
        cp_info,
        bytecode,
        nesting - 1,
    )?;
    let attribute_info_code = AttributeInfo::Code {
        attribute_name_index,
        attribute_length,
        max_stack,
        max_locals,
        code_length,
        code,
        exception_table_length,
        exception_table,
        attributes_count,
        attributes,
    };
    proof {
        lemma_code_view_attributes(attribute_info_code);
    }
    Ok((end, attribute_info_code))
}

/// Decodes the attribute that starts at `idx`. `nesting` is the number of
/// levels of `Code` attributes that may still be entered.
pub fn parse_attribute_info(
    idx: usize,
    cp_info: &Vec<CpInfo>,
    bytecode: &Vec<u8>,
    nesting: usize,
) -> (r: Result<(usize, AttributeInfo), DecodeError>)
    ensures
        decoded(r) == spec_parse_attribute_info(idx, views(cp_info@), bytecode@, nesting),
        r is Ok ==> attribute_well_formed(r->Ok_0.1@, views(cp_info@)),
    decreases nesting, 1nat, 0nat,
{
    let (at, attribute_name_index) = get_u2(idx, bytecode)?;
    let (at, attribute_length) = get_u4(at, bytecode)?;
    let kind = attribute_kind(attribute_name_index, cp_info)?;
    let r = match kind {
        AttributeKind::Code => parse_attribute_info_code(
            at,
            attribute_name_index,
            attribute_length,
            cp_info,
            bytecode,
            nesting,
        ),
        AttributeKind::LineNumberTable => parse_attribute_info_line_number_table(
            at,
            attribute_name_index,
            attribute_length,
            bytecode,
        ),
        AttributeKind::SourceFile => parse_attribute_info_source_file(
            at,
            attribute_name_index,
            attribute_length,
            bytecode,
        ),
        _ => Err(DecodeError::NotYetImplemented { kind }),
    };
    proof {
        if r is Ok {
            lemma_attribute_well_formed(idx, views(cp_info@), bytecode@, nesting);
        }
    }
    r
}

/// Decodes a table of `attributes_count` attributes. `nesting` is the
/// number of levels of `Code` attributes that may still be entered.
pub fn parse_attributes(
    idx: usize,
    attributes_count: u16,
    cp_info: &Vec<CpInfo>,
    bytecode: &Vec<u8>,
    nesting: usize,
) -> (r: Result<(usize, Vec<AttributeInfo>), DecodeError>)
    ensures
        decoded_table(r) == spec_parse_attributes(
            idx,
            attributes_count,
            views(cp_info@),
            bytecode@,
            nesting,
        ),
        r is Ok ==> attributes_well_formed(views(r->Ok_0.1@), attributes_count, views(cp_info@)),
    decreases nesting, 2nat, 0nat,
{
    let count = attributes_count as usize;
    let ghost item = |at: usize, i: nat|
        spec_parse_attribute_info(at, views(cp_info@), bytecode@, nesting);
    let mut attributes: Vec<AttributeInfo> = Vec::with_capacity(count);
    let mut at = idx;
    let mut i: usize = 0;
    proof {
        lemma_table_start(item, idx, 0, count as nat);
        lemma_attributes_are_table(idx, 0, attributes_count, views(cp_info@), bytecode@, nesting);
        assert(views(attributes@) =~= Seq::empty());
    }
    while i < count
        invariant
            count == attributes_count,
            item == |at: usize, i: nat|
                spec_parse_attribute_info(at, views(cp_info@), bytecode@, nesting),
            spec_parse_attributes(idx, attributes_count, views(cp_info@), bytecode@, nesting)
                == table_after(
                views(attributes@),
                spec_table(item, at, i as nat, count as nat),
            ),
        decreases count - i,
    {
        proof {
            lemma_table_step(item, at, i as nat, count as nat, views(attributes@));
        }
        let ghost before = views(attributes@);
        let (next, attribute_info) = parse_attribute_info(at, cp_info, bytecode, nesting)?;
        at = next;
        attributes.push(attribute_info);
        i += 1;
        assert(views(attributes@) =~= before.push(attribute_info@));
    }
    proof {
        lemma_table_end(item, at, i as nat, count as nat, views(attributes@));
        lemma_attributes_well_formed(
            idx,
            0,
            attributes_count,
            views(cp_info@),
            bytecode@,
            nesting,
        );
    }
    Ok((at, attributes))
}

/// Decodes one field.
pub fn parse_field_info(idx: usize, cp_info: &Vec<CpInfo>, bytecode: &Vec<u8>) -> (r: Result<
    (usize, FieldInfo),
    DecodeError,
>)
    ensures
        decoded(r) == spec_parse_field_info(idx, views(cp_info@), bytecode@),
{
    let (idx, access_flags) = get_u2(idx, bytecode)?;
    let (idx, name_index) = get_u2(idx, bytecode)?;
    let (idx, descriptor_index) = get_u2(idx, bytecode)?;
    let (idx, attributes_count) = get_u2(idx, bytecode)?;
    let (idx, attributes) = parse_attributes(
        idx,
        attributes_count,
        cp_info,
        bytecode,
        MAX_ATTRIBUTE_NESTING,
    )?;
    let field_info = FieldInfo {
        access_flags,
        name_index,
        descriptor_index,
        attributes_count,
        attributes,
    };
    Ok((idx, field_info))
}

/// Decodes the table of fields.
pub fn parse_fields(
    idx: usize,
    fields_count: u16,
    cp_info: &Vec<CpInfo>,
    bytecode: &Vec<u8>,
) -> (r: Result<(usize, Vec<FieldInfo>), DecodeError>)
    ensures
        decoded_table(r) == spec_parse_fields(idx, fields_count, views(cp_info@), bytecode@),
{
    let count = fields_count as usize;
    let ghost item = |at: usize, i: nat| spec_parse_field_info(at, views(cp_info@), bytecode@);
    let mut fields: Vec<FieldInfo> = Vec::with_capacity(count);
    let mut at = idx;
    let mut i: usize = 0;
    proof {
        lemma_table_start(item, idx, 0, count as nat);
        assert(views(fields@) =~= Seq::empty());
    }
    while i < count
        invariant
            count == fields_count,
            item == |at: usize, i: nat| spec_parse_field_info(at, views(cp_info@), bytecode@),
            spec_table(item, idx, 0, count as nat) == table_after(
                views(fields@),
                spec_table(item, at, i as nat, count as nat),
            ),
        decreases count - i,
    {
        proof {
            lemma_table_step(item, at, i as nat, count as nat, views(fields@));
        }
        let ghost before = views(fields@);
        let (next, field_info) = parse_field_info(at, cp_info, bytecode)?;
        at = next;
        fields.push(field_info);
        i += 1;
        assert(views(fields@) =~= before.push(field_info@));
    }
    proof {
        lemma_table_end(item, at, i as nat, count as nat, views(fields@));
    }
    Ok((at, fields))
}

/// Decodes one method.
pub fn parse_method_info(idx: usize, cp_info: &Vec<CpInfo>, bytecode: &Vec<u8>) -> (r: Result<
    (usize, MethodInfo),
    DecodeError,
>)
    ensures
        decoded(r) == spec_parse_method_info(idx, views(cp_info@), bytecode@),
{
    let (idx, access_flags) = get_u2(idx, bytecode)?;
    let (idx, name_index) = get_u2(idx, bytecode)?;
    let (idx, descriptor_index) = get_u2(idx, bytecode)?;
    let (idx, attributes_count) = get_u2(idx, bytecode)?;
    let (idx, attributes) = parse_attributes(
        idx,
        attributes_count,
        cp_info,
        bytecode,
        MAX_ATTRIBUTE_NESTING,
    )?;
    let method_info = MethodInfo {
        access_flags,
        name_index,
        descriptor_index,
        attributes_count,
        attributes,
    };
    Ok((idx, method_info))
}

/// Decodes the table of methods.
pub fn parse_methods(
    idx: usize,
    methods_count: u16,
    cp_info: &Vec<CpInfo>,
    bytecode: &Vec<u8>,
) -> (r: Result<(usize, Vec<MethodInfo>), DecodeError>)
    ensures
        decoded_table(r) == spec_parse_methods(idx, methods_count, views(cp_info@), bytecode@),
{
    let count = methods_count as usize;
    let ghost item = |at: usize, i: nat| spec_parse_method_info(at, views(cp_info@), bytecode@);
    let mut methods: Vec<MethodInfo> = Vec::with_capacity(count);
    let mut at = idx;
    let mut i: usize = 0;
    proof {
        lemma_table_start(item, idx, 0, count as nat);
        assert(views(methods@) =~= Seq::empty());
    }
    while i < count
        invariant
            count == methods_count,
            item == |at: usize, i: nat| spec_parse_method_info(at, views(cp_info@), bytecode@),
            spec_table(item, idx, 0, count as nat) == table_after(
                views(methods@),
                spec_table(item, at, i as nat, count as nat),
            ),
        decreases count - i,
    {
        proof {
            lemma_table_step(item, at, i as nat, count as nat, views(methods@));
        }
        let ghost before = views(methods@);
        let (next, method_info) = parse_method_info(at, cp_info, bytecode)?;
        at = next;
        methods.push(method_info);
        i += 1;
        assert(views(methods@) =~= before.push(method_info@));
    }
    proof {
        lemma_table_end(item, at, i as nat, count as nat, views(methods@));
    }
    Ok((at, methods))
}

/// Decodes a class file.
pub fn parse_class_file(bytecode: &Vec<u8>) -> (r: Result<ClassFile, DecodeError>)
    ensures
        viewed(r) == spec_parse_class_file(bytecode@),
        r is Ok ==> r->Ok_0@.well_formed(),
{
    let idx: usize = 0;
    let (idx, magic) = get_u4(idx, bytecode)?;
    if magic != CLASS_FILE_MAGIC {
        return Err(DecodeError::NotAClassFile);
    }
    let (idx, minor_version) = get_u2(idx, bytecode)?;
    let (idx, major_version) = get_u2(idx, bytecode)?;
    let (idx, constant_pool_count) = get_u2(idx, bytecode)?;
    let (idx, cp_info) = parse_cp_info_array(idx, constant_pool_count, bytecode)?;
    let (idx, access_flags) = get_u2(idx, bytecode)?;
    let (idx, this_class) = get_u2(idx, bytecode)?;
    let (idx, super_class) = get_u2(idx, bytecode)?;
    let (idx, interfaces_count) = get_u2(idx, bytecode)?;
    let (idx, interfaces) = parse_interfaces(idx, interfaces_count, bytecode)?;
    let (idx, fields_count) = get_u2(idx, bytecode)?;
    let (idx, fields) = parse_fields(idx, fields_count, &cp_info, bytecode)?;
    let (idx, methods_count) = get_u2(idx, bytecode)?;
    let (idx, methods) = parse_methods(idx, methods_count, &cp_info, bytecode)?;
    let (idx, attributes_count) = get_u2(idx, bytecode)?;
    let (_, attributes) = parse_attributes(
        idx,
        attributes_count,
        &cp_info,
        bytecode,
        MAX_ATTRIBUTE_NESTING,
    )?;
    proof {
        lemma_class_file_well_formed(bytecode@);
    }
    Ok(
        ClassFile {
            magic,
            minor_version,
            major_version,
            constant_pool_count,
            cp_info,
            access_flags,
            this_class,
            super_class,
            interfaces_count,
            interfaces,
            fields_count,
            fields,
            methods_count,
            methods,
            attributes_count,
            attributes,
        },
    )
}

} // verus!

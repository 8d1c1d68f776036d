//! Resolving constant pool indices to names, and reading descriptors.
//!
//! An index is no pointer: every lookup checks that the index lies in the
//! pool and that the entry there is of the kind asked for.

use crate::access_flags::MethodAccessFlag;
use crate::ast::{ClassFile, CpInfo, CpInfoView, MethodInfo};
pub use crate::descriptor::{parse_field_type, parse_field_types};
use crate::descriptor::{
    return_descriptor, spec_method_arguments, spec_parse_field_type, spec_return_descriptor,
    split_method_arguments,
};
use crate::error::{ConstantKind, DecodeError};
use crate::text::{push_char, same_text, views};
use vstd::prelude::*;

verus! {

/// A result seen through the view of its value.
pub open spec fn viewed<T: View>(r: Result<T, DecodeError>) -> Result<T::V, DecodeError> {
    match r {
        Err(e) => Err(e),
        Ok(value) => Ok(value@),
    }
}

/// The kind of a pool entry.
pub open spec fn spec_kind_of(entry: CpInfoView) -> ConstantKind {
    match entry {
        CpInfoView::ConstantClass { .. } => ConstantKind::Class,
        CpInfoView::ConstantFieldref { .. } => ConstantKind::Fieldref,
        CpInfoView::ConstantMethodref { .. } => ConstantKind::Methodref,
        CpInfoView::ConstantString { .. } => ConstantKind::String,
        CpInfoView::ConstantNameAndType { .. } => ConstantKind::NameAndType,
        CpInfoView::ConstantUtf8 { .. } => ConstantKind::Utf8,
    }
}

/// The entry that `index` refers to. Index 0 refers to nothing.
pub open spec fn spec_entry(index: usize, pool: Seq<CpInfoView>) -> Result<CpInfoView, DecodeError> {
    if 0 < index < pool.len() {
        Ok(pool[index as int])
    } else {
        Err(DecodeError::IndexOutOfRange { index, pool_size: pool.len() as usize })
    }
}

/// The error for an entry that is not of the kind asked for.
pub open spec fn wrong_kind(index: usize, expected: ConstantKind, entry: CpInfoView) -> DecodeError {
    DecodeError::WrongConstantKind { index, expected, actual: spec_kind_of(entry) }
}

/// The text of the Utf8 entry at `index`.
pub open spec fn spec_get_constant_utf8(index: usize, pool: Seq<CpInfoView>) -> Result<
    Seq<char>,
    DecodeError,
> {
    match spec_entry(index, pool) {
        Err(e) => Err(e),
        Ok(entry) => match entry {
            CpInfoView::ConstantUtf8 { bytes_str, .. } => Ok(bytes_str),
            _ => Err(wrong_kind(index, ConstantKind::Utf8, entry)),
        },
    }
}

/// The name of the class that the Class entry at `index` refers to.
pub open spec fn spec_get_constant_class_name(index: usize, pool: Seq<CpInfoView>) -> Result<
    Seq<char>,
    DecodeError,
> {
    match spec_entry(index, pool) {
        Err(e) => Err(e),
        Ok(entry) => match entry {
            CpInfoView::ConstantClass { name_index, .. } => spec_get_constant_utf8(
                name_index as usize,
                pool,
            ),
            _ => Err(wrong_kind(index, ConstantKind::Class, entry)),
        },
    }
}

/// The name that the NameAndType entry at `index` refers to.
pub open spec fn spec_get_name(index: usize, pool: Seq<CpInfoView>) -> Result<
    Seq<char>,
    DecodeError,
> {
    match spec_entry(index, pool) {
        Err(e) => Err(e),
        Ok(entry) => match entry {
            CpInfoView::ConstantNameAndType { name_index, .. } => spec_get_constant_utf8(
                name_index as usize,
                pool,
            ),
            _ => Err(wrong_kind(index, ConstantKind::NameAndType, entry)),
        },
    }
}

/// The descriptor that the NameAndType entry at `index` refers to.
pub open spec fn spec_get_type(index: usize, pool: Seq<CpInfoView>) -> Result<
    Seq<char>,
    DecodeError,
> {
    match spec_entry(index, pool) {
        Err(e) => Err(e),
        Ok(entry) => match entry {
            CpInfoView::ConstantNameAndType { descriptor_index, .. } => spec_get_constant_utf8(
                descriptor_index as usize,
                pool,
            ),
            _ => Err(wrong_kind(index, ConstantKind::NameAndType, entry)),
        },
    }
}

/// A member's name as a listing shows it: the constructor's name in double
/// quotes, every other name as it is.
pub open spec fn spec_get_name_quoted(name: Seq<char>) -> Seq<char> {
    if name == "<init>"@ {
        seq!['"'] + name + seq!['"']
    } else {
        name
    }
}

/// The kind of a pool entry.
pub fn kind_of(entry: &CpInfo) -> (kind: ConstantKind)
    ensures
        kind == spec_kind_of(entry@),
{
    match entry {
        CpInfo::ConstantClass { .. } => ConstantKind::Class,
        CpInfo::ConstantFieldref { .. } => ConstantKind::Fieldref,
        CpInfo::ConstantMethodref { .. } => ConstantKind::Methodref,
        CpInfo::ConstantString { .. } => ConstantKind::String,
        CpInfo::ConstantNameAndType { .. } => ConstantKind::NameAndType,
        CpInfo::ConstantUtf8 { .. } => ConstantKind::Utf8,
    }
}

/// The entry that `index` refers to.
pub fn get_entry(index: usize, cp_info: &Vec<CpInfo>) -> (r: Result<&CpInfo, DecodeError>)
    ensures
        viewed(r) == spec_entry(index, views(cp_info@)),
        r is Ok ==> 0 < index < cp_info.len() && *r->Ok_0 == cp_info@[index as int],
{
    if index == 0 || index >= cp_info.len() {
        return Err(DecodeError::IndexOutOfRange { index, pool_size: cp_info.len() });
    }
    Ok(&cp_info[index])
}

/// The name of the class that the Class entry at `class_index` refers to.
pub fn get_constant_class_name(class_index: u16, cp_info: &Vec<CpInfo>) -> (r: Result<
    String,
    DecodeError,
>)
    ensures
        viewed(r) == spec_get_constant_class_name(class_index as usize, views(cp_info@)),
{
    let entry = get_entry(class_index as usize, cp_info)?;
    match entry {
        CpInfo::ConstantClass { name_index, .. } => get_constant_utf8(*name_index, cp_info),
        _ => Err(
            DecodeError::WrongConstantKind {
                index: class_index as usize,
                expected: ConstantKind::Class,
                actual: kind_of(entry),
            },
        ),
    }
}

/// The text of the Utf8 entry at `name_index`.
pub fn get_constant_utf8(name_index: u16, cp_info: &Vec<CpInfo>) -> (r: Result<
    String,
    DecodeError,
>)
    ensures
        viewed(r) == spec_get_constant_utf8(name_index as usize, views(cp_info@)),
{
    let entry = get_entry(name_index as usize, cp_info)?;
    match entry {
        CpInfo::ConstantUtf8 { bytes_str, .. } => Ok(bytes_str.clone()),
        _ => Err(
            DecodeError::WrongConstantKind {
                index: name_index as usize,
                expected: ConstantKind::Utf8,
                actual: kind_of(entry),
            },
        ),
    }
}

/// The name that the NameAndType entry at `name_and_type_index` refers to.
pub fn get_name(name_and_type_index: u16, cp_info: &Vec<CpInfo>) -> (r: Result<
    String,
    DecodeError,
>)
    ensures
        viewed(r) == spec_get_name(name_and_type_index as usize, views(cp_info@)),
{
    let entry = get_entry(name_and_type_index as usize, cp_info)?;
    match entry {
        CpInfo::ConstantNameAndType { name_index, .. } => get_constant_utf8(*name_index, cp_info),
        _ => Err(
            DecodeError::WrongConstantKind {
                index: name_and_type_index as usize,
                expected: ConstantKind::NameAndType,
                actual: kind_of(entry),
            },
        ),
    }
}

/// A member's name as a listing shows it: the constructor's name in double
/// quotes, every other name as it is.
pub fn get_name_quoted(str: String) -> (quoted: String)
    ensures
        quoted@ == spec_get_name_quoted(str@),
{
    if same_text(str.as_str(), "<init>") {
        let mut quoted = String::new();
        push_char(&mut quoted, '"');
        quoted.append(str.as_str());
        push_char(&mut quoted, '"');
        assert(quoted@ =~= seq!['"'] + str@ + seq!['"']);
        quoted
    } else {
        str
    }
}

/// The descriptor that the NameAndType entry at `name_and_type_index`
/// refers to.
pub fn get_type(name_and_type_index: u16, cp_info: &Vec<CpInfo>) -> (r: Result<
    String,
    DecodeError,
>)
    ensures
        viewed(r) == spec_get_type(name_and_type_index as usize, views(cp_info@)),
{
    let entry = get_entry(name_and_type_index as usize, cp_info)?;
    match entry {
        CpInfo::ConstantNameAndType { descriptor_index, .. } => get_constant_utf8(
            *descriptor_index,
            cp_info,
        ),
        _ => Err(
            DecodeError::WrongConstantKind {
                index: name_and_type_index as usize,
                expected: ConstantKind::NameAndType,
                actual: kind_of(entry),
            },
        ),
    }
}

/// A result whose value is a list of texts, seen through their views.
pub open spec fn texts_viewed(r: Result<Vec<String>, DecodeError>) -> Result<
    Seq<Seq<char>>,
    DecodeError,
> {
    match r {
        Err(e) => Err(e),
        Ok(texts) => Ok(views(texts@)),
    }
}

/// The descriptors of the parameters of the method whose descriptor is the
/// Utf8 entry at `descriptor_index`.
pub open spec fn spec_parse_method_arguments(descriptor_index: u16, pool: Seq<CpInfoView>) -> Result<
    Seq<Seq<char>>,
    DecodeError,
> {
    match spec_get_constant_utf8(descriptor_index as usize, pool) {
        Err(e) => Err(e),
        Ok(descriptor) => match spec_method_arguments(descriptor) {
            None => Err(DecodeError::MalformedDescriptor),
            Some(args) => Ok(args),
        },
    }
}

/// The number of arguments that a method takes: its parameters, and the
/// receiver unless the method is static.
pub open spec fn spec_method_arguments_count(
    access_flags: u16,
    descriptor_index: u16,
    pool: Seq<CpInfoView>,
) -> Result<nat, DecodeError> {
    match spec_parse_method_arguments(descriptor_index, pool) {
        Err(e) => Err(e),
        Ok(args) => Ok(
            if MethodAccessFlag::AccStatic.is_set_in(access_flags) {
                args.len()
            } else {
                args.len() + 1
            },
        ),
    }
}

/// The return type's descriptor of the method whose descriptor is the Utf8
/// entry at `descriptor_index`.
pub open spec fn spec_method_info_return_type(descriptor_index: u16, pool: Seq<CpInfoView>) -> Result<
    Seq<char>,
    DecodeError,
> {
    match spec_get_constant_utf8(descriptor_index as usize, pool) {
        Err(e) => Err(e),
        Ok(descriptor) => match spec_return_descriptor(descriptor) {
            None => Err(DecodeError::MalformedDescriptor),
            Some(return_type) => Ok(return_type),
        },
    }
}

/// A return type as source code writes it: `void` for `V`, and every field
/// descriptor as its type.
pub open spec fn spec_return_descriptor_to_java_code(return_type: Seq<char>) -> Result<
    Seq<char>,
    DecodeError,
> {
    if return_type == "V"@ {
        Ok("void"@)
    } else {
        match spec_parse_field_type(return_type) {
            None => Err(DecodeError::MalformedDescriptor),
            Some(parsed) => Ok(parsed.spec_str_java()),
        }
    }
}

/// Splits the parameters of a method's descriptor into their descriptors.
pub fn parse_method_arguments(method_info: &MethodInfo, cp_pool: &Vec<CpInfo>) -> (r: Result<
    Vec<String>,
    DecodeError,
>)
    ensures
        texts_viewed(r) == spec_parse_method_arguments(
            method_info.descriptor_index,
            views(cp_pool@),
        ),
        r is Ok ==> r->Ok_0.len() < usize::MAX,
{
    let descriptor = get_constant_utf8(method_info.descriptor_index, cp_pool)?;
    match split_method_arguments(descriptor.as_str()) {
        None => Err(DecodeError::MalformedDescriptor),
        Some(args) => Ok(args),
    }
}

/// The number of arguments that a method takes: its parameters, and the
/// receiver unless the method is static.
pub fn method_arguments_count(method_info: &MethodInfo, cp_pool: &Vec<CpInfo>) -> (r: Result<
    usize,
    DecodeError,
>)
    ensures
        match r {
            Ok(count) => spec_method_arguments_count(
                method_info.access_flags,
                method_info.descriptor_index,
                views(cp_pool@),
            ) == Ok::<nat, DecodeError>(count as nat),
            Err(e) => spec_method_arguments_count(
                method_info.access_flags,
                method_info.descriptor_index,
                views(cp_pool@),
            ) == Err::<nat, DecodeError>(e),
        },
{
    let args_len = parse_method_arguments(method_info, cp_pool)?.len();
    let static_flag = method_info.access_flags & MethodAccessFlag::AccStatic.mask() != 0;
    if static_flag {
        Ok(args_len)
    } else {
        Ok(args_len + 1)
    }
}

/// The return type's descriptor of the method whose descriptor is the Utf8
/// entry at `descriptor_index`.
pub fn method_info_return_type(descriptor_index: u16, class_file: &ClassFile) -> (r: Result<
    String,
    DecodeError,
>)
    ensures
        viewed(r) == spec_method_info_return_type(descriptor_index, class_file@.cp_info),
{
    let descriptor = get_constant_utf8(descriptor_index, &class_file.cp_info)?;
    match return_descriptor(descriptor.as_str()) {
        None => Err(DecodeError::MalformedDescriptor),
        Some(return_type) => Ok(return_type),
    }
}

/// A return type as source code writes it.
pub fn return_descriptor_to_java_code(return_type: String) -> (r: Result<String, DecodeError>)
    ensures
        viewed(r) == spec_return_descriptor_to_java_code(return_type@),
{
    if same_text(return_type.as_str(), "V") {
        Ok(String::from_str("void"))
    } else {
        let parsed = parse_field_type(return_type)?;
        Ok(parsed.str_java())
    }
}

} // verus!

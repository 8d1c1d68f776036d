//! The comments that a listing puts behind an instruction's operand.

use crate::ast::{ClassFile, CpInfo, CpInfoView};
use crate::error::{ConstantKind, DecodeError};
use crate::parser_helper::{
    get_constant_class_name, get_constant_utf8, get_entry, get_name, get_name_quoted, get_type,
    kind_of, spec_entry, spec_get_constant_class_name, spec_get_constant_utf8, spec_get_name,
    spec_get_name_quoted, spec_get_type, viewed, wrong_kind,
};
use crate::text::views;
use vstd::prelude::*;

verus! {

/// A member of a class, written as the class's name, a dot, the member's
/// name, a colon and the member's descriptor. With `quote`, the name is
/// written as a listing shows a method's name.
pub open spec fn spec_member_ref(
    class_index: u16,
    name_and_type_index: u16,
    pool: Seq<CpInfoView>,
    quote: bool,
) -> Result<Seq<char>, DecodeError> {
    match spec_get_constant_class_name(class_index as usize, pool) {
        Err(e) => Err(e),
        Ok(class_name) => match spec_get_name(name_and_type_index as usize, pool) {
            Err(e) => Err(e),
            Ok(name) => match spec_get_type(name_and_type_index as usize, pool) {
                Err(e) => Err(e),
                Ok(descriptor) => Ok(
                    class_name + "."@ + (if quote {
                        spec_get_name_quoted(name)
                    } else {
                        name
                    }) + ":"@ + descriptor,
                ),
            },
        },
    }
}

/// The method that the Methodref entry at `cp_index` refers to.
pub open spec fn spec_get_constant_method_ref_description(
    cp_index: usize,
    pool: Seq<CpInfoView>,
) -> Result<Seq<char>, DecodeError> {
    match spec_entry(cp_index, pool) {
        Err(e) => Err(e),
        Ok(entry) => match entry {
            CpInfoView::ConstantMethodref {
                class_index,
                name_and_type_index,
                ..
            } => spec_member_ref(class_index, name_and_type_index, pool, true),
            _ => Err(wrong_kind(cp_index, ConstantKind::Methodref, entry)),
        },
    }
}

/// The word `Field` and the field that the Fieldref entry at `cp_index`
/// refers to.
pub open spec fn spec_get_static_description(cp_index: usize, pool: Seq<CpInfoView>) -> Result<
    Seq<char>,
    DecodeError,
> {
    match spec_entry(cp_index, pool) {
        Err(e) => Err(e),
        Ok(entry) => match entry {
            CpInfoView::ConstantFieldref {
                class_index,
                name_and_type_index,
                ..
            } => match spec_member_ref(class_index, name_and_type_index, pool, false) {
                Err(e) => Err(e),
                Ok(field) => Ok("Field "@ + field),
            },
            _ => Err(wrong_kind(cp_index, ConstantKind::Fieldref, entry)),
        },
    }
}

/// What a constant load of the entry at `cp_index` pushes: for a String
/// entry the word `String` and its text, for a Utf8 entry its text.
pub open spec fn spec_get_ldc_description(cp_index: usize, pool: Seq<CpInfoView>) -> Result<
    Seq<char>,
    DecodeError,
> {
    match spec_entry(cp_index, pool) {
        Err(e) => Err(e),
        Ok(entry) => match entry {
            CpInfoView::ConstantString { string_index, .. } => match spec_get_constant_utf8(
                string_index as usize,
                pool,
            ) {
                Err(e) => Err(e),
                Ok(text) => Ok("String "@ + text),
            },
            CpInfoView::ConstantUtf8 { bytes_str, .. } => Ok(bytes_str),
            _ => Err(wrong_kind(cp_index, ConstantKind::String, entry)),
        },
    }
}

/// A member of a class, written as the class's name, a dot, the member's
/// name, a colon and the member's descriptor.
pub fn member_ref(
    class_index: u16,
    name_and_type_index: u16,
    cp_info: &Vec<CpInfo>,
    quote: bool,
) -> (r: Result<String, DecodeError>)
    ensures
        viewed(r) == spec_member_ref(
            class_index,
            name_and_type_index,
            views(cp_info@),
            quote,
        ),
{
    let class_name = get_constant_class_name(class_index, cp_info)?;
    let name = get_name(name_and_type_index, cp_info)?;
    let descriptor = get_type(name_and_type_index, cp_info)?;
    let shown = if quote {
        get_name_quoted(name)
    } else {
        name
    };
    let mut text = class_name;
    text.append(".");
    text.append(shown.as_str());
    text.append(":");
    text.append(descriptor.as_str());
    Ok(text)
}

/// The method that the Methodref entry at `cp_index` refers to, as in
/// `java/lang/Object."<init>":()V`.
pub fn get_constant_method_ref_description(cp_index: usize, class_file: &ClassFile) -> (r: Result<
    String,
    DecodeError,
>)
    ensures
        viewed(r) == spec_get_constant_method_ref_description(cp_index, class_file@.cp_info),
{
    let entry = get_entry(cp_index, &class_file.cp_info)?;
    match entry {
        CpInfo::ConstantMethodref { class_index, name_and_type_index, .. } => member_ref(
            *class_index,
            *name_and_type_index,
            &class_file.cp_info,
            true,
        ),
        _ => Err(
            DecodeError::WrongConstantKind {
                index: cp_index,
                expected: ConstantKind::Methodref,
                actual: kind_of(entry),
            },
        ),
    }
}

/// The field that the Fieldref entry at `cp_index` refers to, as in
/// `Field java/lang/System.out:Ljava/io/PrintStream;`.
pub fn get_static_description(cp_index: usize, class_file: &ClassFile) -> (r: Result<
    String,
    DecodeError,
>)
    ensures
        viewed(r) == spec_get_static_description(cp_index, class_file@.cp_info),
{
    let entry = get_entry(cp_index, &class_file.cp_info)?;
    match entry {
        CpInfo::ConstantFieldref { class_index, name_and_type_index, .. } => {
            let field = member_ref(*class_index, *name_and_type_index, &class_file.cp_info, false)?;
            let mut text = String::from_str("Field ");
            text.append(field.as_str());
            Ok(text)
        },
        _ => Err(
            DecodeError::WrongConstantKind {
                index: cp_index,
                expected: ConstantKind::Fieldref,
                actual: kind_of(entry),
            },
        ),
    }
}

/// What a constant load of the entry at `cp_index` pushes, as in
/// `String Hello, World`.
pub fn get_ldc_description(cp_index: usize, class_file: &ClassFile) -> (r: Result<
    String,
    DecodeError,
>)
    ensures
        viewed(r) == spec_get_ldc_description(cp_index, class_file@.cp_info),
{
    let entry = get_entry(cp_index, &class_file.cp_info)?;
    match entry {
        CpInfo::ConstantString { string_index, .. } => {
            let str = get_constant_utf8(*string_index, &class_file.cp_info)?;
            let mut text = String::from_str("String ");
            text.append(str.as_str());
            Ok(text)
        },
        CpInfo::ConstantUtf8 { bytes_str, .. } => Ok(bytes_str.clone()),
        _ => Err(
            DecodeError::WrongConstantKind {
                index: cp_index,
                expected: ConstantKind::String,
                actual: kind_of(entry),
            },
        ),
    }
}

} // verus!

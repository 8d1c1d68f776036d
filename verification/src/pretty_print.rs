//! Rendering a decoded class file as a listing: the class's header, its
//! constant pool, and each method with its code.

use crate::access_flags::{ClassAccessFlag, MethodAccessFlag};
use crate::ast::{
    AttributeInfo, AttributeInfoView, ClassFile, ClassFileView, CpInfo, CpInfoView,
    LineNumberTableItem, MethodInfo, MethodInfoView, lemma_code_view_attributes,
};
use crate::cursor::{get_u1, spec_get_u1};
use crate::descriptor::{parse_field_types, spec_parse_field_type};
use crate::error::DecodeError;
use crate::instructions::{
    Operand, decode_operand, operand_shape, spec_decode_instruction,
    spec_decode_instructions_from, spec_decode_operand, spec_operand_shape,
};
use crate::opcodes::{Opcode, get_opcode, spec_get_opcode};
use crate::parser_helper::{
    get_constant_class_name, get_constant_utf8, get_entry, get_name_quoted,
    method_arguments_count, method_info_return_type, parse_method_arguments,
    return_descriptor_to_java_code, spec_entry, spec_get_constant_class_name,
    spec_get_constant_utf8, spec_get_name_quoted, spec_method_arguments_count,
    spec_method_info_return_type, spec_parse_method_arguments,
    spec_return_descriptor_to_java_code, texts_viewed, viewed,
};
use crate::pretty_print_helper::{
    get_constant_method_ref_description, get_ldc_description, get_static_description, member_ref,
    spec_get_constant_method_ref_description, spec_get_ldc_description,
    spec_get_static_description, spec_member_ref,
};
use crate::text::{
    concat, concat_strings, decimal, decimal_string, hex_word, hex_word_string, hexadecimal, hexadecimal_string,
    join, join_strings, pad_left, pad_right, push_decimal, push_padded_left, push_padded_right,
    same_text, views,
};
use vstd::prelude::*;

verus! {

/// What stands before a pool entry in the listing: its index behind `#`,
/// moved right by three spaces for an index of one digit, two for one of
/// two, and one for every longer one.
pub open spec fn spec_cp_info_index_prefix(idx: usize) -> Seq<char> {
    let digits = decimal(idx as nat);
    pad_right(
        " "@,
        if digits.len() < 4 {
            (4 - digits.len()) as nat
        } else {
            0
        },
    ) + "#"@ + digits
}

/// The start of a pool entry's line: its index, ` = `, and the name of its
/// kind in a column of 19.
pub open spec fn entry_line_start(idx: usize, kind: Seq<char>) -> Seq<char> {
    spec_cp_info_index_prefix(idx) + " = "@ + pad_right(kind, 19)
}

/// One index behind `#`, in a column of 14.
pub open spec fn index_ref(index: u16) -> Seq<char> {
    "#"@ + pad_right(decimal(index as nat), 14)
}

/// Two indices, each behind `#`, with `separator` between the first index
/// and the second `#`.
pub open spec fn index_pair(first: u16, separator: Seq<char>, second: u16) -> Seq<char> {
    "#"@ + decimal(first as nat) + separator + "#"@ + decimal(second as nat)
}

/// The line of the pool entry at `idx`.
pub open spec fn spec_cp_info_to_string(idx: usize, pool: Seq<CpInfoView>) -> Result<
    Seq<char>,
    DecodeError,
> {
    match spec_entry(idx, pool) {
        Err(e) => Err(e),
        Ok(entry) => match entry {
            CpInfoView::ConstantClass { name_index, .. } => match spec_get_constant_utf8(
                name_index as usize,
                pool,
            ) {
                Err(e) => Err(e),
                Ok(name) => Ok(
                    entry_line_start(idx, "Class"@) + index_ref(name_index) + "// "@ + name,
                ),
            },
            CpInfoView::ConstantFieldref {
                class_index,
                name_and_type_index,
                ..
            } => match spec_member_ref(class_index, name_and_type_index, pool, false) {
                Err(e) => Err(e),
                Ok(member) => Ok(
                    entry_line_start(idx, "Fieldref"@) + pad_right(
                        index_pair(class_index, "."@, name_and_type_index),
                        15,
                    ) + "// "@ + member,
                ),
            },
            CpInfoView::ConstantMethodref {
                class_index,
                name_and_type_index,
                ..
            } => match spec_member_ref(class_index, name_and_type_index, pool, true) {
                Err(e) => Err(e),
                Ok(member) => Ok(
                    entry_line_start(idx, "Methodref"@) + pad_right(
                        index_pair(class_index, "."@, name_and_type_index),
                        15,
                    ) + "// "@ + member,
                ),
            },
            CpInfoView::ConstantString { string_index, .. } => match spec_get_constant_utf8(
                string_index as usize,
                pool,
            ) {
                Err(e) => Err(e),
                Ok(text) => Ok(
                    entry_line_start(idx, "String"@) + index_ref(string_index) + "// "@ + text,
                ),
            },
            CpInfoView::ConstantNameAndType {
                name_index,
                descriptor_index,
                ..
            } => match spec_get_constant_utf8(name_index as usize, pool) {
                Err(e) => Err(e),
                Ok(name) => match spec_get_constant_utf8(descriptor_index as usize, pool) {
                    Err(e) => Err(e),
                    Ok(descriptor) => Ok(
                        entry_line_start(idx, "NameAndType"@) + pad_right(
                            index_pair(name_index, ":"@, descriptor_index),
                            15,
                        ) + "// "@ + spec_get_name_quoted(name) + ":"@ + descriptor,
                    ),
                },
            },
            CpInfoView::ConstantUtf8 { bytes_str, .. } => Ok(
                entry_line_start(idx, "Utf8"@) + bytes_str,
            ),
        },
    }
}

/// What stands before a pool entry in the listing.
pub fn cp_info_index_prefix(idx: usize) -> (prefix: String)
    ensures
        prefix@ == spec_cp_info_index_prefix(idx),
{
    let digits = decimal_string(idx as u64);
    let len = digits.as_str().unicode_len();
    let left_pad = if len < 4 {
        4 - len
    } else {
        0
    };
    let mut prefix = String::new();
    push_padded_right(&mut prefix, " ", left_pad);
    prefix.append("#");
    prefix.append(digits.as_str());
    assert(prefix@ =~= spec_cp_info_index_prefix(idx));
    prefix
}

/// The start of a pool entry's line.
pub fn line_start(idx: usize, kind: &str) -> (line: String)
    ensures
        line@ == entry_line_start(idx, kind@),
{
    let mut line = cp_info_index_prefix(idx);
    line.append(" = ");
    push_padded_right(&mut line, kind, 19);
    line
}

/// Appends one index behind `#`, in a column of 14.
pub fn push_index_ref(line: &mut String, index: u16)
    ensures
        final(line)@ == old(line)@ + index_ref(index),
{
    let digits = decimal_string(index as u64);
    line.append("#");
    push_padded_right(line, digits.as_str(), 14);
    assert(line@ =~= old(line)@ + index_ref(index));
}

/// Two indices, each behind `#`.
pub fn index_pair_string(first: u16, separator: &str, second: u16) -> (pair: String)
    ensures
        pair@ == index_pair(first, separator@, second),
{
    let mut pair = String::from_str("#");
    push_decimal(&mut pair, first as u64);
    pair.append(separator);
    pair.append("#");
    push_decimal(&mut pair, second as u64);
    pair
}

/// The line of the pool entry at `idx`: its index, the name of its kind,
/// the indices it holds, and behind `//` what they refer to.
pub fn cp_info_to_string(idx: usize, cp_info: &Vec<CpInfo>) -> (r: Result<String, DecodeError>)
    ensures
        viewed(r) == spec_cp_info_to_string(idx, views(cp_info@)),
{
    let entry = get_entry(idx, cp_info)?;
    match entry {
        CpInfo::ConstantClass { name_index, .. } => {
            let name = get_constant_utf8(*name_index, cp_info)?;
            let mut line = line_start(idx, "Class");
            push_index_ref(&mut line, *name_index);
            line.append("// ");
            line.append(name.as_str());
            Ok(line)
        },
        CpInfo::ConstantFieldref { class_index, name_and_type_index, .. } => {
            let member = member_ref(*class_index, *name_and_type_index, cp_info, false)?;
            let field_indexes = index_pair_string(*class_index, ".", *name_and_type_index);
            let mut line = line_start(idx, "Fieldref");
            push_padded_right(&mut line, field_indexes.as_str(), 15);
            line.append("// ");
            line.append(member.as_str());
            Ok(line)
        },
        CpInfo::ConstantMethodref { class_index, name_and_type_index, .. } => {
            let member = member_ref(*class_index, *name_and_type_index, cp_info, true)?;
            let method_indexes = index_pair_string(*class_index, ".", *name_and_type_index);
            let mut line = line_start(idx, "Methodref");
            push_padded_right(&mut line, method_indexes.as_str(), 15);
            line.append("// ");
            line.append(member.as_str());
            Ok(line)
        },
        CpInfo::ConstantString { string_index, .. } => {
            let text = get_constant_utf8(*string_index, cp_info)?;
            let mut line = line_start(idx, "String");
            push_index_ref(&mut line, *string_index);
            line.append("// ");
            line.append(text.as_str());
            Ok(line)
        },
        CpInfo::ConstantNameAndType { name_index, descriptor_index, .. } => {
            let name = get_name_quoted(get_constant_utf8(*name_index, cp_info)?);
            let typename = get_constant_utf8(*descriptor_index, cp_info)?;
            let name_and_type_indexes = index_pair_string(*name_index, ":", *descriptor_index);
            let mut line = line_start(idx, "NameAndType");
            push_padded_right(&mut line, name_and_type_indexes.as_str(), 15);
            line.append("// ");
            line.append(name.as_str());
            line.append(":");
            line.append(typename.as_str());
            Ok(line)
        },
        CpInfo::ConstantUtf8 { bytes_str, .. } => {
            let mut line = line_start(idx, "Utf8");
            line.append(bytes_str.as_str());
            Ok(line)
        },
    }
}

/// An operand as the listing shows it: the index behind `#` in a column of
/// 19, and behind `//` what it refers to.
pub open spec fn operand_text(index: nat, comment: Seq<char>) -> Seq<char> {
    "#"@ + pad_right(decimal(index), 19) + "// "@ + comment
}

/// What the listing shows behind an instruction's name: nothing for an
/// instruction without operand, and for one with a pool index the index and
/// what it refers to.
pub open spec fn spec_operand_comment(
    opcode: Opcode,
    operand: Operand,
    pool: Seq<CpInfoView>,
) -> Result<Option<Seq<char>>, DecodeError> {
    match operand {
        Operand::NoOperand => Ok(None),
        Operand::NarrowIndex(index) => match opcode {
            Opcode::Ldc => match spec_get_ldc_description(index as usize, pool) {
                Err(e) => Err(e),
                Ok(description) => Ok(Some(operand_text(index as nat, description))),
            },
            _ => Ok(None),
        },
        Operand::WideIndex(index) => match opcode {
            Opcode::Getstatic => match spec_get_static_description(index as usize, pool) {
                Err(e) => Err(e),
                Ok(description) => Ok(Some(operand_text(index as nat, description))),
            },
            Opcode::Invokevirtual | Opcode::Invokespecial => match spec_get_constant_method_ref_description(
            index as usize, pool) {
                Err(e) => Err(e),
                Ok(method) => Ok(Some(operand_text(index as nat, "Method "@ + method))),
            },
            _ => Ok(None),
        },
    }
}

/// The offset after the instruction whose opcode `opcode` stands at
/// `opcode_idx`, and what the listing shows behind its name.
pub open spec fn spec_instruction_args(
    opcode_idx: usize,
    opcode: Opcode,
    code: Seq<u8>,
    pool: Seq<CpInfoView>,
) -> Result<(usize, Option<Seq<char>>), DecodeError> {
    match spec_get_u1(opcode_idx, code) {
        Err(e) => Err(e),
        Ok((at, _)) => match spec_operand_shape(opcode) {
            None => Err(
                DecodeError::UnimplementedOpcode { byte: opcode.byte(), offset: opcode_idx },
            ),
            Some(shape) => match spec_decode_operand(at, shape, code) {
                Err(e) => Err(e),
                Ok((end, operand)) => match spec_operand_comment(opcode, operand, pool) {
                    Err(e) => Err(e),
                    Ok(comment) => Ok((end, comment)),
                },
            },
        },
    }
}

/// One line of the listing of a method's code: the offset in a column of
/// 10, the instruction's name, and what is shown behind it.
pub open spec fn instruction_line(offset: usize, opcode: Opcode, comment: Option<Seq<char>>) -> Seq<
    char,
> {
    match comment {
        None => pad_left(decimal(offset as nat), 10) + ": "@ + opcode.mnemonic(),
        Some(comment) => pad_left(decimal(offset as nat), 10) + ": "@ + pad_right(
            opcode.mnemonic(),
            14,
        ) + comment,
    }
}

/// The lines of the instructions from `offset` to the end of the code.
pub open spec fn spec_instruction_lines_from(
    offset: usize,
    code: Seq<u8>,
    pool: Seq<CpInfoView>,
) -> Result<Seq<Seq<char>>, DecodeError>
    decreases code.len() - offset,
    via spec_instruction_lines_from_decreases
{
    if offset >= code.len() {
        Ok(Seq::empty())
    } else {
        match spec_get_opcode(code[offset as int]) {
            None => Err(DecodeError::UnimplementedOpcode { byte: code[offset as int], offset }),
            Some(opcode) => match spec_instruction_args(offset, opcode, code, pool) {
                Err(e) => Err(e),
                Ok((next, comment)) => match spec_instruction_lines_from(next, code, pool) {
                    Err(e) => Err(e),
                    Ok(rest) => Ok(seq![instruction_line(offset, opcode, comment)] + rest),
                },
            },
        }
    }
}

#[via_fn]
proof fn spec_instruction_lines_from_decreases(offset: usize, code: Seq<u8>, pool: Seq<CpInfoView>) {
    if offset < code.len() {
        let opcode = spec_get_opcode(code[offset as int]);
        if opcode is Some && spec_instruction_args(offset, opcode->0, code, pool) is Ok {
            assert(spec_instruction_args(offset, opcode->0, code, pool)->Ok_0.0 > offset);
        }
    }
}

/// The listing has one line for each instruction of the code, in order:
/// where the lines can be rendered the code can be decoded, and each line
/// shows the offset, the name and the operand of the instruction that it
/// stands for.
pub proof fn lemma_lines_follow_instructions(offset: usize, code: Seq<u8>, pool: Seq<CpInfoView>)
    requires
        spec_instruction_lines_from(offset, code, pool) is Ok,
    ensures
        spec_decode_instructions_from(offset, code) is Ok,
        ({
            let lines = spec_instruction_lines_from(offset, code, pool)->Ok_0;
            let instructions = spec_decode_instructions_from(offset, code)->Ok_0;
            &&& lines.len() == instructions.len()
            &&& forall|n: int|
                #![trigger instructions[n]]
                0 <= n < lines.len() ==> {
                    let shown = spec_operand_comment(
                        instructions[n].opcode,
                        instructions[n].operand,
                        pool,
                    );
                    &&& shown is Ok
                    &&& lines[n] == instruction_line(
                        instructions[n].offset,
                        instructions[n].opcode,
                        shown->Ok_0,
                    )
                }
        }),
    decreases code.len() - offset,
{
    if offset < code.len() {
        let opcode = spec_get_opcode(code[offset as int])->0;
        let (next, comment) = spec_instruction_args(offset, opcode, code, pool)->Ok_0;
        let (end, head) = spec_decode_instruction(offset, code)->Ok_0;
        assert(end == next && head.opcode == opcode && head.offset == offset);
        lemma_lines_follow_instructions(next, code, pool);
        let lines = spec_instruction_lines_from(offset, code, pool)->Ok_0;
        let instructions = spec_decode_instructions_from(offset, code)->Ok_0;
        let rest_lines = spec_instruction_lines_from(next, code, pool)->Ok_0;
        let rest = spec_decode_instructions_from(next, code)->Ok_0;
        assert(lines =~= seq![instruction_line(offset, opcode, comment)] + rest_lines);
        assert(instructions =~= seq![head] + rest);
        assert forall|n: int| #![trigger instructions[n]] 0 <= n < lines.len() implies {
            let shown = spec_operand_comment(
                instructions[n].opcode,
                instructions[n].operand,
                pool,
            );
            &&& shown is Ok
            &&& lines[n] == instruction_line(
                instructions[n].offset,
                instructions[n].opcode,
                shown->Ok_0,
            )
        } by {
            if n > 0 {
                assert(lines[n] == rest_lines[n - 1]);
                assert(instructions[n] == rest[n - 1]);
            } else {
                assert(instructions[0] == head);
                assert(spec_operand_comment(head.opcode, head.operand, pool) is Ok);
            }
        }
    }
}

/// The listing of a method's code, one line for each instruction.
pub open spec fn spec_instructions_block(code: Seq<u8>, pool: Seq<CpInfoView>) -> Result<
    Seq<char>,
    DecodeError,
> {
    match spec_instruction_lines_from(0, code, pool) {
        Err(e) => Err(e),
        Ok(lines) => Ok(join(lines, "\n"@)),
    }
}

/// Lines rendered so far, followed by those still to be rendered.
pub open spec fn lines_after(done: Seq<Seq<char>>, rest: Result<Seq<Seq<char>>, DecodeError>) -> Result<
    Seq<Seq<char>>,
    DecodeError,
> {
    match rest {
        Err(e) => Err(e),
        Ok(tail) => Ok(done + tail),
    }
}

/// One row of a line number table as the listing shows it.
pub open spec fn line_number_row(item: LineNumberTableItem) -> Seq<char> {
    "        line "@ + decimal(item.line_number as nat) + ": "@ + decimal(item.start_pc as nat)
}

/// A line number table as the listing shows it: a heading, then one line
/// for each row.
pub open spec fn spec_line_number_table(rows: Seq<LineNumberTableItem>) -> Seq<char> {
    "      LineNumberTable:\n"@ + join(
        Seq::new(rows.len(), |i: int| line_number_row(rows[i])),
        "\n"@,
    )
}

/// A `Code` attribute as the listing shows it: a heading, the sizes, the
/// instructions, and the attributes nested in it.
pub open spec fn code_text(
    max_stack: u16,
    max_locals: u16,
    args_size: nat,
    block: Seq<char>,
    nested: Seq<Seq<char>>,
) -> Seq<char> {
    "    Code:\n      stack="@ + decimal(max_stack as nat) + ", locals="@ + decimal(
        max_locals as nat,
    ) + ", args_size="@ + decimal(args_size) + "\n"@ + block + "\n"@ + join(nested, "\n"@)
}

/// A `Code` attribute of `method` as the listing shows it.
pub open spec fn spec_method_attribute_info_code(
    code: AttributeInfoView,
    method: MethodInfoView,
    class: ClassFileView,
) -> Result<Seq<char>, DecodeError>
    recommends
        code is Code,
    decreases code, 0nat, 0nat,
{
    match code {
        AttributeInfoView::Code { max_stack, max_locals, code, attributes, .. } => {
            match spec_instructions_block(code, class.cp_info) {
                Err(e) => Err(e),
                Ok(block) => match spec_method_arguments_count(
                    method.access_flags,
                    method.descriptor_index,
                    class.cp_info,
                ) {
                    Err(e) => Err(e),
                    Ok(args_size) => match spec_attribute_texts(attributes, 0, method, class) {
                        Err(e) => Err(e),
                        Ok(nested) => Ok(
                            code_text(max_stack, max_locals, args_size, block, nested),
                        ),
                    },
                },
            }
        },
        _ => Err(DecodeError::NotYetImplemented { kind: code.kind() }),
    }
}

/// An attribute of `method` as the listing shows it. Only `Code` and
/// `LineNumberTable` attributes are shown.
pub open spec fn spec_method_info_attribute(
    attribute: AttributeInfoView,
    method: MethodInfoView,
    class: ClassFileView,
) -> Result<Seq<char>, DecodeError>
    decreases attribute, 1nat, 0nat,
{
    match attribute {
        AttributeInfoView::Code { .. } => spec_method_attribute_info_code(attribute, method, class),
        AttributeInfoView::LineNumberTable { line_number_tables, .. } => Ok(
            spec_line_number_table(line_number_tables),
        ),
        _ => Err(DecodeError::NotYetImplemented { kind: attribute.kind() }),
    }
}

/// The attributes of `method` from the one numbered `from` on, each as the
/// listing shows it. The first one that cannot be shown fails them all.
pub open spec fn spec_attribute_texts(
    attributes: Seq<AttributeInfoView>,
    from: int,
    method: MethodInfoView,
    class: ClassFileView,
) -> Result<Seq<Seq<char>>, DecodeError>
    decreases attributes, 2nat, attributes.len() - from,
{
    if from < 0 || from >= attributes.len() {
        Ok(Seq::empty())
    } else {
        match spec_method_info_attribute(attributes[from], method, class) {
            Err(e) => Err(e),
            Ok(head) => match spec_attribute_texts(attributes, from + 1, method, class) {
                Err(e) => Err(e),
                Ok(tail) => Ok(seq![head] + tail),
            },
        }
    }
}

/// The attributes of `method`, each as the listing shows it.
pub open spec fn spec_method_info_attributes(method: MethodInfoView, class: ClassFileView) -> Result<
    Seq<Seq<char>>,
    DecodeError,
> {
    spec_attribute_texts(method.attributes, 0, method, class)
}

/// What the listing shows behind an instruction's name.
pub fn operand_comment(opcode: &Opcode, operand: Operand, class_file: &ClassFile) -> (r: Result<
    Option<String>,
    DecodeError,
>)
    ensures
        match r {
            Err(e) => spec_operand_comment(*opcode, operand, class_file@.cp_info) == Err::<
                Option<Seq<char>>,
                DecodeError,
            >(e),
            Ok(None) => spec_operand_comment(*opcode, operand, class_file@.cp_info) == Ok::<
                Option<Seq<char>>,
                DecodeError,
            >(None),
            Ok(Some(text)) => spec_operand_comment(*opcode, operand, class_file@.cp_info) == Ok::<
                Option<Seq<char>>,
                DecodeError,
            >(Some(text@)),
        },
{
    match operand {
        Operand::NoOperand => Ok(None),
        Operand::NarrowIndex(index) => match opcode {
            Opcode::Ldc => {
                let description = get_ldc_description(index as usize, class_file)?;
                Ok(Some(operand_string(index as u16, description.as_str())))
            },
            _ => Ok(None),
        },
        Operand::WideIndex(index) => match opcode {
            Opcode::Getstatic => {
                let description = get_static_description(index as usize, class_file)?;
                Ok(Some(operand_string(index, description.as_str())))
            },
            Opcode::Invokevirtual | Opcode::Invokespecial => {
                let method = get_constant_method_ref_description(index as usize, class_file)?;
                let mut comment = String::from_str("Method ");
                comment.append(method.as_str());
                Ok(Some(operand_string(index, comment.as_str())))
            },
            _ => Ok(None),
        },
    }
}

/// An operand as the listing shows it.
pub fn operand_string(index: u16, comment: &str) -> (text: String)
    ensures
        text@ == operand_text(index as nat, comment@),
{
    let digits = decimal_string(index as u64);
    let mut text = String::from_str("#");
    push_padded_right(&mut text, digits.as_str(), 19);
    text.append("// ");
    text.append(comment);
    text
}

/// Decodes the operand of the instruction whose opcode `opcode` stands at
/// `opcode_idx`, and gives the offset after the instruction with what the
/// listing shows behind the instruction's name.
pub fn instruction_args(
    opcode_idx: usize,
    opcode: &Opcode,
    code: &Vec<u8>,
    class_file: &ClassFile,
) -> (r: Result<(usize, Option<String>), DecodeError>)
    ensures
        match r {
            Err(e) => spec_instruction_args(opcode_idx, *opcode, code@, class_file@.cp_info)
                == Err::<(usize, Option<Seq<char>>), DecodeError>(e),
            Ok((end, None)) => spec_instruction_args(opcode_idx, *opcode, code@, class_file@.cp_info)
                == Ok::<(usize, Option<Seq<char>>), DecodeError>((end, None)),
            Ok((end, Some(text))) => spec_instruction_args(
                opcode_idx,
                *opcode,
                code@,
                class_file@.cp_info,
            ) == Ok::<(usize, Option<Seq<char>>), DecodeError>((end, Some(text@))),
        },
{
    let (at, _) = get_u1(opcode_idx, code)?;
    let shape = match operand_shape(opcode) {
        None => {
            return Err(
                DecodeError::UnimplementedOpcode { byte: opcode.to_byte(), offset: opcode_idx },
            );
        },
        Some(shape) => shape,
    };
    let (end, operand) = decode_operand(at, shape, code)?;
    let comment = operand_comment(opcode, operand, class_file)?;
    Ok((end, comment))
}

/// One line of the listing of a method's code.
pub fn instruction_line_string(offset: usize, opcode: &Opcode, comment: &Option<String>) -> (line:
    String)
    ensures
        line@ == instruction_line(
            offset,
            *opcode,
            match *comment {
                None => None,
                Some(text) => Some(text@),
            },
        ),
{
    let digits = decimal_string(offset as u64);
    let mut line = String::new();
    push_padded_left(&mut line, digits.as_str(), 10);
    line.append(": ");
    match comment {
        None => {
            line.append(opcode.str());
            assert(line@ =~= pad_left(decimal(offset as nat), 10) + ": "@ + opcode.mnemonic());
        },
        Some(text) => {
            push_padded_right(&mut line, opcode.str(), 14);
            line.append(text.as_str());
            assert(line@ =~= pad_left(decimal(offset as nat), 10) + ": "@ + pad_right(
                opcode.mnemonic(),
                14,
            ) + text@);
        },
    }
    line
}

/// The listing of a method's code, one line for each instruction.
pub fn instructions_block(code: &Vec<u8>, class_file: &ClassFile) -> (r: Result<
    String,
    DecodeError,
>)
    ensures
        viewed(r) == spec_instructions_block(code@, class_file@.cp_info),
{
    let mut acc: Vec<String> = Vec::new();
    let mut i: usize = 0;
    proof {
        assert(views(acc@) =~= Seq::empty());
        let all = spec_instruction_lines_from(0, code@, class_file@.cp_info);
        if all is Ok {
            assert(Seq::<Seq<char>>::empty() + all->Ok_0 =~= all->Ok_0);
        }
    }
    while i < code.len()
        invariant
            spec_instruction_lines_from(0, code@, class_file@.cp_info) == lines_after(
                views(acc@),
                spec_instruction_lines_from(i, code@, class_file@.cp_info),
            ),
        decreases code.len() - i,
    {
        let opcode = match get_opcode(code[i]) {
            None => {
                return Err(DecodeError::UnimplementedOpcode { byte: code[i], offset: i });
            },
            Some(opcode) => opcode,
        };
        let (new_i, opcode_args_string_opt) = instruction_args(i, &opcode, code, class_file)?;
        let line = instruction_line_string(i, &opcode, &opcode_args_string_opt);
        proof {
            let done = views(acc@);
            let rest = spec_instruction_lines_from(new_i, code@, class_file@.cp_info);
            assert(views(acc@.push(line)) =~= done.push(line@));
            if rest is Ok {
                assert(done + (seq![line@] + rest->Ok_0) =~= done.push(line@) + rest->Ok_0);
            }
        }
        acc.push(line);
        i = new_i;
    }
    assert(views(acc@) + Seq::<Seq<char>>::empty() =~= views(acc@));
    Ok(join_strings(&acc, "\n"))
}

/// A line number table as the listing shows it.
pub fn line_number_table(table: &AttributeInfo) -> (text: String)
    requires
        table is LineNumberTable,
    ensures
        text@ == spec_line_number_table(table@->LineNumberTable_line_number_tables),
{
    match table {
        AttributeInfo::LineNumberTable { line_number_tables, .. } => {
            let mut items: Vec<String> = Vec::with_capacity(line_number_tables.len());
            let mut i: usize = 0;
            while i < line_number_tables.len()
                invariant
                    i <= line_number_tables.len(),
                    items.len() == i,
                    forall|j: int|
                        0 <= j < i ==> (#[trigger] items@[j])@ == line_number_row(
                            line_number_tables@[j],
                        ),
                decreases line_number_tables.len() - i,
            {
                let item = &line_number_tables[i];
                let mut line = String::from_str("        line ");
                push_decimal(&mut line, item.line_number as u64);
                line.append(": ");
                push_decimal(&mut line, item.start_pc as u64);
                items.push(line);
                i += 1;
            }
            assert(views(items@) =~= Seq::new(
                line_number_tables@.len(),
                |i: int| line_number_row(line_number_tables@[i]),
            ));
            let rows = join_strings(&items, "\n");
            let mut text = String::from_str("      LineNumberTable:\n");
            text.append(rows.as_str());
            text
        },
        _ => String::new(),
    }
}

/// A `Code` attribute of a method as the listing shows it: the sizes of
/// the stack and of the locals, the number of arguments, the instructions,
/// and the attributes nested in it.
pub fn method_attribute_info_code(
    code: &AttributeInfo,
    method_info: &MethodInfo,
    class_file: &ClassFile,
) -> (r: Result<String, DecodeError>)
    requires
        code is Code,
    ensures
        viewed(r) == spec_method_attribute_info_code(code@, method_info@, class_file@),
    decreases code, 0nat,
{
    match code {
        AttributeInfo::Code { max_stack, max_locals, code: instructions, attributes, .. } => {
            proof {
                lemma_code_view_attributes(*code);
            }
            let block = instructions_block(instructions, class_file)?;
            let args_size = method_arguments_count(method_info, &class_file.cp_info)?;
            let ghost shown = views(attributes@);
            let mut code_attributes: Vec<String> = Vec::with_capacity(attributes.len());
            let mut i: usize = 0;
            proof {
                assert(views(code_attributes@) =~= Seq::empty());
                let all = spec_attribute_texts(shown, 0, method_info@, class_file@);
                if all is Ok {
                    assert(Seq::<Seq<char>>::empty() + all->Ok_0 =~= all->Ok_0);
                }
            }
            while i < attributes.len()
                invariant
                    i <= attributes.len(),
                    code is Code,
                    code->Code_attributes == attributes,
                    code@ is Code,
                    code@->Code_attributes == shown,
                    code@->Code_code == instructions@,
                    spec_instructions_block(instructions@, class_file@.cp_info) is Ok,
                    spec_method_arguments_count(
                        method_info@.access_flags,
                        method_info@.descriptor_index,
                        class_file@.cp_info,
                    ) is Ok,
                    shown == views(attributes@),
                    spec_attribute_texts(shown, 0, method_info@, class_file@) == lines_after(
                        views(code_attributes@),
                        spec_attribute_texts(shown, i as int, method_info@, class_file@),
                    ),
                decreases attributes.len() - i,
            {
                let attribute_str = method_info_attribute(&attributes[i], method_info, class_file)?;
                proof {
                    let done = views(code_attributes@);
                    let rest = spec_attribute_texts(shown, i + 1, method_info@, class_file@);
                    assert(views(code_attributes@.push(attribute_str)) =~= done.push(
                        attribute_str@,
                    ));
                    if rest is Ok {
                        assert(done + (seq![attribute_str@] + rest->Ok_0) =~= done.push(
                            attribute_str@,
                        ) + rest->Ok_0);
                    }
                }
                code_attributes.push(attribute_str);
                i += 1;
            }
            assert(views(code_attributes@) + Seq::<Seq<char>>::empty() =~= views(
                code_attributes@,
            ));
            let nested = join_strings(&code_attributes, "\n");
            let mut text = String::from_str("    Code:\n      stack=");
            push_decimal(&mut text, *max_stack as u64);
            text.append(", locals=");
            push_decimal(&mut text, *max_locals as u64);
            text.append(", args_size=");
            push_decimal(&mut text, args_size as u64);
            text.append("\n");
            text.append(block.as_str());
            text.append("\n");
            text.append(nested.as_str());
            Ok(text)
        },
        _ => Err(DecodeError::NotYetImplemented { kind: code.kind() }),
    }
}

/// An attribute of a method as the listing shows it. Only `Code` and
/// `LineNumberTable` attributes are shown; any other fails as not yet
/// implemented.
pub fn method_info_attribute(
    attribute_info: &AttributeInfo,
    method_info: &MethodInfo,
    class_file: &ClassFile,
) -> (r: Result<String, DecodeError>)
    ensures
        viewed(r) == spec_method_info_attribute(attribute_info@, method_info@, class_file@),
    decreases attribute_info, 1nat,
{
    match attribute_info {
        AttributeInfo::Code { .. } => method_attribute_info_code(
            attribute_info,
            method_info,
            class_file,
        ),
        AttributeInfo::LineNumberTable { .. } => Ok(line_number_table(attribute_info)),
        _ => Err(DecodeError::NotYetImplemented { kind: attribute_info.kind() }),
    }
}

/// The attributes of a method, each as the listing shows it.
pub fn method_info_attributes(method_info: &MethodInfo, class_file: &ClassFile) -> (r: Result<
    Vec<String>,
    DecodeError,
>)
    ensures
        texts_viewed(r) == spec_method_info_attributes(
            method_info@,
            class_file@,
        ),
{
    let ghost shown = method_info@.attributes;
    let mut attributes: Vec<String> = Vec::with_capacity(method_info.attributes.len());
    let mut i: usize = 0;
    proof {
        assert(views(attributes@) =~= Seq::empty());
        let all = spec_attribute_texts(shown, 0, method_info@, class_file@);
        if all is Ok {
            assert(Seq::<Seq<char>>::empty() + all->Ok_0 =~= all->Ok_0);
        }
    }
    while i < method_info.attributes.len()
        invariant
            i <= method_info.attributes.len(),
            shown == method_info@.attributes,
            spec_attribute_texts(shown, 0, method_info@, class_file@) == lines_after(
                views(attributes@),
                spec_attribute_texts(shown, i as int, method_info@, class_file@),
            ),
        decreases method_info.attributes.len() - i,
    {
        let text = method_info_attribute(&method_info.attributes[i], method_info, class_file)?;
        proof {
            let done = views(attributes@);
            let rest = spec_attribute_texts(shown, i + 1, method_info@, class_file@);
            assert(views(attributes@.push(text)) =~= done.push(text@));
            if rest is Ok {
                assert(done + (seq![text@] + rest->Ok_0) =~= done.push(text@) + rest->Ok_0);
            }
        }
        attributes.push(text);
        i += 1;
    }
    assert(views(attributes@) + Seq::<Seq<char>>::empty() =~= views(attributes@));
    Ok(attributes)
}

/// The names of `flags`: with `java`, as source code writes them, else
/// as the class file format calls them.
pub open spec fn method_flag_names(flags: Seq<MethodAccessFlag>, java: bool) -> Seq<Seq<char>> {
    Seq::new(
        flags.len(),
        |i: int|
            if java {
                flags[i].spec_java_code()
            } else {
                flags[i].spec_str()
            },
    )
}

/// The names of `flags`: with `java`, as source code writes them, else
/// as the class file format calls them.
pub open spec fn class_flag_names(flags: Seq<ClassAccessFlag>, java: bool) -> Seq<Seq<char>> {
    Seq::new(
        flags.len(),
        |i: int|
            if java {
                flags[i].spec_java_code()
            } else {
                flags[i].spec_str()
            },
    )
}

/// The types of a method's parameters as source code writes them, given
/// the parameters' descriptors.
pub open spec fn spec_parameter_types(args: Seq<Seq<char>>) -> Result<Seq<Seq<char>>, DecodeError> {
    if forall|i: int| 0 <= i < args.len() ==> spec_parse_field_type(#[trigger] args[i]) is Some {
        Ok(Seq::new(args.len(), |i: int| spec_parse_field_type(args[i])->0.spec_str_java()))
    } else {
        Err(DecodeError::MalformedDescriptor)
    }
}

/// What stands between a method's flags and its name: the return type
/// between two spaces, and for a constructor one space.
pub open spec fn spec_method_return_text(
    name: Seq<char>,
    descriptor_index: u16,
    pool: Seq<CpInfoView>,
) -> Result<Seq<char>, DecodeError> {
    if name == "<init>"@ {
        Ok(" "@)
    } else {
        match spec_method_info_return_type(descriptor_index, pool) {
            Err(e) => Err(e),
            Ok(descriptor) => match spec_return_descriptor_to_java_code(descriptor) {
                Err(e) => Err(e),
                Ok(return_type) => Ok(" "@ + return_type + " "@),
            },
        }
    }
}

/// The name under which a method is shown: the class's name for a
/// constructor, and its own for every other method.
pub open spec fn spec_method_shown_name(name: Seq<char>, class: ClassFileView) -> Result<
    Seq<char>,
    DecodeError,
> {
    if name == "<init>"@ {
        spec_get_constant_class_name(class.this_class as usize, class.cp_info)
    } else {
        Ok(name)
    }
}

/// A method as the listing shows it, given its parts.
pub open spec fn method_text(
    java_flags: Seq<char>,
    return_text: Seq<char>,
    shown_name: Seq<char>,
    parameters: Seq<Seq<char>>,
    descriptor: Seq<char>,
    access_flags: u16,
    jvm_flags: Seq<char>,
    attributes: Seq<Seq<char>>,
) -> Seq<char> {
    java_flags + return_text + shown_name + "("@ + join(parameters, ", "@)
        + ");\n    descriptor: "@ + descriptor + "\n    flags: ("@ + hex_word(access_flags as nat)
        + ") "@ + jvm_flags + "\n"@ + join(attributes, "\n"@)
}

/// A method as the listing shows it: its declaration as source code would
/// write it, its descriptor, its flags, and its attributes.
#[verifier::opaque]
pub open spec fn spec_method_info_to_string(method: MethodInfoView, class: ClassFileView) -> Result<
    Seq<char>,
    DecodeError,
> {
    let flags = MethodAccessFlag::flags_of(method.access_flags);
    let pool = class.cp_info;
    match spec_get_constant_utf8(method.name_index as usize, pool) {
        Err(e) => Err(e),
        Ok(name) => match spec_method_return_text(name, method.descriptor_index, pool) {
            Err(e) => Err(e),
            Ok(return_text) => match spec_method_shown_name(name, class) {
                Err(e) => Err(e),
                Ok(shown_name) => match spec_method_info_attributes(method, class) {
                    Err(e) => Err(e),
                    Ok(attributes) => match spec_parse_method_arguments(
                        method.descriptor_index,
                        pool,
                    ) {
                        Err(e) => Err(e),
                        Ok(args) => match spec_parameter_types(args) {
                            Err(e) => Err(e),
                            Ok(parameters) => match spec_get_constant_utf8(
                                method.descriptor_index as usize,
                                pool,
                            ) {
                                Err(e) => Err(e),
                                Ok(descriptor) => Ok(
                                    method_text(
                                        join(method_flag_names(flags, true), " "@),
                                        return_text,
                                        shown_name,
                                        parameters,
                                        descriptor,
                                        method.access_flags,
                                        join(method_flag_names(flags, false), ", "@),
                                        attributes,
                                    ),
                                ),
                            },
                        },
                    },
                },
            },
        },
    }
}

/// The names of `flags`, each as a string.
pub fn method_flag_strings(flags: &Vec<MethodAccessFlag>, java: bool) -> (names: Vec<String>)
    ensures
        views(names@) == method_flag_names(flags@, java),
{
    let mut names: Vec<String> = Vec::with_capacity(flags.len());
    let mut i: usize = 0;
    while i < flags.len()
        invariant
            i <= flags.len(),
            names.len() == i,
            forall|j: int|
                0 <= j < i ==> (#[trigger] names@[j])@ == method_flag_names(flags@, java)[j],
        decreases flags.len() - i,
    {
        let name = if java {
            flags[i].to_java_code()
        } else {
            flags[i].to_str()
        };
        names.push(String::from_str(name));
        i += 1;
    }
    assert(views(names@) =~= method_flag_names(flags@, java));
    names
}

/// The names of `flags`, each as a string.
pub fn class_flag_strings(flags: &Vec<ClassAccessFlag>, java: bool) -> (names: Vec<String>)
    ensures
        views(names@) == class_flag_names(flags@, java),
{
    let mut names: Vec<String> = Vec::with_capacity(flags.len());
    let mut i: usize = 0;
    while i < flags.len()
        invariant
            i <= flags.len(),
            names.len() == i,
            forall|j: int|
                0 <= j < i ==> (#[trigger] names@[j])@ == class_flag_names(flags@, java)[j],
        decreases flags.len() - i,
    {
        let name = if java {
            flags[i].to_java_code()
        } else {
            flags[i].to_str()
        };
        names.push(String::from_str(name));
        i += 1;
    }
    assert(views(names@) =~= class_flag_names(flags@, java));
    names
}

/// The types of a method's parameters as source code writes them.
pub fn parameter_types(args: &Vec<String>) -> (r: Result<Vec<String>, DecodeError>)
    ensures
        texts_viewed(r) == spec_parameter_types(views(args@)),
{
    let parsed = match parse_field_types(args) {
        Ok(parsed) => parsed,
        Err(e) => {
            proof {
                let i = choose|i: int|
                    0 <= i < args.len() && spec_parse_field_type((#[trigger] args@[i])@) is None;
                assert(views(args@)[i] == args@[i]@);
            }
            return Err(e);
        },
    };
    assert forall|i: int| 0 <= i < views(args@).len() implies spec_parse_field_type(
        #[trigger] views(args@)[i],
    ) is Some by {
        assert(spec_parse_field_type(args@[i]@) == Some(parsed@[i]@));
    }
    let mut texts: Vec<String> = Vec::with_capacity(parsed.len());
    let mut i: usize = 0;
    while i < parsed.len()
        invariant
            i <= parsed.len(),
            texts.len() == i,
            parsed.len() == args.len(),
            forall|j: int|
                0 <= j < parsed.len() ==> spec_parse_field_type(args@[j]@) == Some(
                    (#[trigger] parsed@[j])@,
                ),
            forall|j: int| 0 <= j < i ==> (#[trigger] texts@[j])@ == parsed@[j]@.spec_str_java(),
        decreases parsed.len() - i,
    {
        texts.push(parsed[i].str_java());
        i += 1;
    }
    assert(views(texts@) =~= Seq::new(
        views(args@).len(),
        |i: int| spec_parse_field_type(views(args@)[i])->0.spec_str_java(),
    ));
    Ok(texts)
}

/// A method as the listing shows it: its declaration as source code would
/// write it, its descriptor, its flags, and its attributes.
pub fn method_info_to_string(method_info: &MethodInfo, class_file: &ClassFile) -> (r: Result<
    String,
    DecodeError,
>)
    ensures
        viewed(r) == spec_method_info_to_string(method_info@, class_file@),
{
    reveal(spec_method_info_to_string);
    let access_flags = MethodAccessFlag::parse_flags(method_info.access_flags);
    let access_flags_java = join_strings(&method_flag_strings(&access_flags, true), " ");
    let access_flags_jvm = join_strings(&method_flag_strings(&access_flags, false), ", ");
    let method_name = get_constant_utf8(method_info.name_index, &class_file.cp_info)?;
    let is_constructor = same_text(method_name.as_str(), "<init>");
    let method_return_type = if is_constructor {
        String::from_str(" ")
    } else {
        let return_type = return_descriptor_to_java_code(
            method_info_return_type(method_info.descriptor_index, class_file)?,
        )?;
        let mut text = String::from_str(" ");
        text.append(return_type.as_str());
        text.append(" ");
        text
    };
    let method_name = if is_constructor {
        get_constant_class_name(class_file.this_class, &class_file.cp_info)?
    } else {
        method_name
    };
    let attributes = method_info_attributes(method_info, class_file)?;
    let arguments = parse_method_arguments(method_info, &class_file.cp_info)?;
    let arguments = parameter_types(&arguments)?;
    let descriptor = get_constant_utf8(method_info.descriptor_index, &class_file.cp_info)?;
    let parameters = join_strings(&arguments, ", ");
    let shown_attributes = join_strings(&attributes, "\n");
    let flags_word = hex_word_string(method_info.access_flags);
    let mut text = access_flags_java;
    text.append(method_return_type.as_str());
    text.append(method_name.as_str());
    text.append("(");
    text.append(parameters.as_str());
    text.append(");\n    descriptor: ");
    text.append(descriptor.as_str());
    text.append("\n    flags: (");
    text.append(flags_word.as_str());
    text.append(") ");
    text.append(access_flags_jvm.as_str());
    text.append("\n");
    text.append(shown_attributes.as_str());
    Ok(text)
}

/// A text rendered so far, followed by what is still to be rendered.
pub open spec fn text_after(done: Seq<char>, rest: Result<Seq<char>, DecodeError>) -> Result<
    Seq<char>,
    DecodeError,
> {
    match rest {
        Err(e) => Err(e),
        Ok(tail) => Ok(done + tail),
    }
}

/// A text before two texts that follow one another is the first two
/// before the third.
pub proof fn lemma_text_after(done: Seq<char>, next: Seq<char>, rest: Result<Seq<char>, DecodeError>)
    ensures
        text_after(done, text_after(next, rest)) == text_after(done + next, rest),
{
    if rest is Ok {
        assert(done + (next + rest->Ok_0) =~= done + next + rest->Ok_0);
    }
}

/// The class's flags that its declaration shows: every flag that is set
/// but `ACC_SUPER`, as source code writes it, with nothing between them.
pub open spec fn spec_class_keywords(access_flags: u16) -> Seq<char> {
    concat(
        class_flag_names(
            ClassAccessFlag::flags_of(access_flags).filter(
                |f: ClassAccessFlag| f != ClassAccessFlag::AccSuper,
            ),
            true,
        ),
    )
}

/// The head of the listing, given the names of the class and of its
/// superclass.
pub open spec fn class_header_text(
    class: ClassFileView,
    this_name: Seq<char>,
    super_name: Seq<char>,
) -> Seq<char> {
    spec_class_keywords(class.access_flags) + " class "@ + this_name + "\n  minor version: "@
        + hexadecimal(class.minor_version as nat) + "\n  major version: "@ + decimal(
        class.major_version as nat,
    ) + "\n  flags: ("@ + hex_word(class.access_flags as nat) + ") "@ + join(
        class_flag_names(ClassAccessFlag::flags_of(class.access_flags), false),
        ", "@,
    ) + "\n  "@ + pad_right("this_class: #"@ + decimal(class.this_class as nat), 40) + "// "@
        + this_name + "\n  "@ + pad_right(
        "super_class: #"@ + decimal(class.super_class as nat),
        40,
    ) + "// "@ + super_name + "\n  interfaces: "@ + decimal(class.interfaces_count as nat)
        + ", fields: "@ + decimal(class.fields_count as nat) + ", methods: "@ + decimal(
        class.methods_count as nat,
    ) + ", attributes: "@ + decimal(class.attributes_count as nat) + "\n"@
}

/// The head of the listing: the class's declaration, its version, its
/// flags, its own index and that of its superclass with their names, and
/// the counts of its tables.
pub open spec fn spec_class_header(class: ClassFileView) -> Result<Seq<char>, DecodeError> {
    match spec_get_constant_class_name(class.this_class as usize, class.cp_info) {
        Err(e) => Err(e),
        Ok(this_name) => match spec_get_constant_class_name(
            class.super_class as usize,
            class.cp_info,
        ) {
            Err(e) => Err(e),
            Ok(super_name) => Ok(class_header_text(class, this_name, super_name)),
        },
    }
}

/// The lines of the pool entries from index `from` on, each ended by a
/// line feed.
pub open spec fn spec_constant_pool_lines_from(pool: Seq<CpInfoView>, from: int) -> Result<
    Seq<char>,
    DecodeError,
>
    decreases pool.len() - from,
{
    if from < 0 || from >= pool.len() {
        Ok(Seq::empty())
    } else {
        match spec_cp_info_to_string(from as usize, pool) {
            Err(e) => Err(e),
            Ok(line) => text_after(line + "\n"@, spec_constant_pool_lines_from(pool, from + 1)),
        }
    }
}

/// The listing of the constant pool: a heading, then one line for each
/// entry from index 1 on.
pub open spec fn spec_constant_pool_listing(pool: Seq<CpInfoView>) -> Result<
    Seq<char>,
    DecodeError,
> {
    text_after("Constant pool:\n"@, spec_constant_pool_lines_from(pool, 1))
}

/// The methods from the one numbered `from` on, each moved right by two
/// spaces, with an empty line between each two.
pub open spec fn spec_methods_from(
    methods: Seq<MethodInfoView>,
    from: int,
    class: ClassFileView,
) -> Result<Seq<char>, DecodeError>
    decreases methods.len() - from,
{
    if from < 0 || from >= methods.len() {
        Ok(Seq::empty())
    } else {
        match spec_method_info_to_string(methods[from], class) {
            Err(e) => Err(e),
            Ok(method) => text_after(
                "  "@ + method + (if from + 1 == methods.len() {
                    "\n"@
                } else {
                    "\n\n"@
                }),
                spec_methods_from(methods, from + 1, class),
            ),
        }
    }
}

/// The listing of the methods, between braces.
pub open spec fn spec_methods_listing(class: ClassFileView) -> Result<Seq<char>, DecodeError> {
    match spec_methods_from(class.methods, 0, class) {
        Err(e) => Err(e),
        Ok(methods) => Ok("{\n"@ + methods + "}\n"@),
    }
}

/// The whole listing: the head, the constant pool and the methods.
pub open spec fn spec_pretty_print_text(class: ClassFileView) -> Result<Seq<char>, DecodeError> {
    match spec_class_header(class) {
        Err(e) => Err(e),
        Ok(header) => match spec_constant_pool_listing(class.cp_info) {
            Err(e) => Err(e),
            Ok(pool) => match spec_methods_listing(class) {
                Err(e) => Err(e),
                Ok(methods) => Ok(header + pool + methods),
            },
        },
    }
}

/// The class's flags that its declaration shows.
pub fn class_keywords(access_flags: u16) -> (text: String)
    ensures
        text@ == spec_class_keywords(access_flags),
{
    let flags = ClassAccessFlag::parse_flags(access_flags);
    let ghost keep = |f: ClassAccessFlag| f != ClassAccessFlag::AccSuper;
    let mut shown: Vec<ClassAccessFlag> = Vec::new();
    let mut i: usize = 0;
    proof {
        reveal(Seq::filter);
        assert(flags@.take(0) =~= Seq::empty());
    }
    while i < flags.len()
        invariant
            i <= flags.len(),
            keep == |f: ClassAccessFlag| f != ClassAccessFlag::AccSuper,
            shown@ == flags@.take(i as int).filter(keep),
        decreases flags.len() - i,
    {
        proof {
            reveal(Seq::filter);
            assert(flags@.take(i + 1).drop_last() =~= flags@.take(i as int));
        }
        if flags[i] != ClassAccessFlag::AccSuper {
            shown.push(flags[i]);
        }
        i += 1;
    }
    assert(flags@.take(flags.len() as int) =~= flags@);
    concat_strings(&class_flag_strings(&shown, true))
}

/// The head of the listing.
pub fn class_header(class_file: &ClassFile) -> (r: Result<String, DecodeError>)
    ensures
        viewed(r) == spec_class_header(class_file@),
{
    let this_class_name = get_constant_class_name(class_file.this_class, &class_file.cp_info)?;
    let super_class_name = get_constant_class_name(class_file.super_class, &class_file.cp_info)?;
    let access_flags = ClassAccessFlag::parse_flags(class_file.access_flags);
    let class_access_flags = join_strings(&class_flag_strings(&access_flags, false), ", ");
    let mut this_class = String::from_str("this_class: #");
    push_decimal(&mut this_class, class_file.this_class as u64);
    let mut super_class = String::from_str("super_class: #");
    push_decimal(&mut super_class, class_file.super_class as u64);
    let flags_word = hex_word_string(class_file.access_flags);
    let minor = hexadecimal_string(class_file.minor_version as u64);

    let mut text = class_keywords(class_file.access_flags);
    text.append(" class ");
    text.append(this_class_name.as_str());
    text.append("\n  minor version: ");
    text.append(minor.as_str());
    text.append("\n  major version: ");
    push_decimal(&mut text, class_file.major_version as u64);
    text.append("\n  flags: (");
    text.append(flags_word.as_str());
    text.append(") ");
    text.append(class_access_flags.as_str());
    text.append("\n  ");
    push_padded_right(&mut text, this_class.as_str(), 40);
    text.append("// ");
    text.append(this_class_name.as_str());
    text.append("\n  ");
    push_padded_right(&mut text, super_class.as_str(), 40);
    text.append("// ");
    text.append(super_class_name.as_str());
    text.append("\n  interfaces: ");
    push_decimal(&mut text, class_file.interfaces_count as u64);
    text.append(", fields: ");
    push_decimal(&mut text, class_file.fields_count as u64);
    text.append(", methods: ");
    push_decimal(&mut text, class_file.methods_count as u64);
    text.append(", attributes: ");
    push_decimal(&mut text, class_file.attributes_count as u64);
    text.append("\n");
    Ok(text)
}

/// The listing of the constant pool.
pub fn constant_pool_listing(cp_info: &Vec<CpInfo>) -> (r: Result<String, DecodeError>)
    ensures
        viewed(r) == spec_constant_pool_listing(views(cp_info@)),
{
    let ghost pool = views(cp_info@);
    let mut text = String::from_str("Constant pool:\n");
    let mut idx: usize = 1;
    while idx < cp_info.len()
        invariant
            1 <= idx,
            pool == views(cp_info@),
            spec_constant_pool_listing(pool) == text_after(
                text@,
                spec_constant_pool_lines_from(pool, idx as int),
            ),
        decreases cp_info.len() - idx,
    {
        let line = cp_info_to_string(idx, cp_info)?;
        proof {
            lemma_text_after(
                text@,
                line@ + "\n"@,
                spec_constant_pool_lines_from(pool, idx + 1),
            );
            assert(text@ + (line@ + "\n"@) =~= text@ + line@ + "\n"@);
        }
        text.append(line.as_str());
        text.append("\n");
        idx += 1;
    }
    assert(text@ + Seq::<char>::empty() =~= text@);
    Ok(text)
}

/// The listing of the methods, between braces.
pub fn methods_listing(class_file: &ClassFile) -> (r: Result<String, DecodeError>)
    ensures
        viewed(r) == spec_methods_listing(class_file@),
{
    let ghost methods = class_file@.methods;
    let mut body = String::new();
    let mut i: usize = 0;
    proof {
        let all = spec_methods_from(methods, 0, class_file@);
        if all is Ok {
            assert(Seq::<char>::empty() + all->Ok_0 =~= all->Ok_0);
        }
    }
    while i < class_file.methods.len()
        invariant
            i <= class_file.methods.len(),
            methods == class_file@.methods,
            spec_methods_from(methods, 0, class_file@) == text_after(
                body@,
                spec_methods_from(methods, i as int, class_file@),
            ),
        decreases class_file.methods.len() - i,
    {
        let method_str = method_info_to_string(&class_file.methods[i], class_file)?;
        let end = if i + 1 == class_file.methods.len() {
            "\n"
        } else {
            "\n\n"
        };
        proof {
            lemma_text_after(
                body@,
                "  "@ + method_str@ + end@,
                spec_methods_from(methods, i + 1, class_file@),
            );
            assert(body@ + ("  "@ + method_str@ + end@) =~= body@ + "  "@ + method_str@ + end@);
        }
        body.append("  ");
        body.append(method_str.as_str());
        body.append(end);
        i += 1;
    }
    assert(body@ + Seq::<char>::empty() =~= body@);
    let mut text = String::from_str("{\n");
    text.append(body.as_str());
    text.append("}\n");
    Ok(text)
}

/// The whole listing of a class file: the head, the constant pool and the
/// methods. Nothing is given of a class file of which some part cannot be
/// shown.
pub fn pretty_print_text(class_file: &ClassFile) -> (r: Result<String, DecodeError>)
    ensures
        viewed(r) == spec_pretty_print_text(class_file@),
{
    let mut text = class_header(class_file)?;
    let pool = constant_pool_listing(&class_file.cp_info)?;
    let methods = methods_listing(class_file)?;
    text.append(pool.as_str());
    text.append(methods.as_str());
    Ok(text)
}

} // verus!

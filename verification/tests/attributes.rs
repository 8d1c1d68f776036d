use classfile_disasm::ast::{AttributeInfo, CpInfo, ExceptionTable, LineNumberTableItem};
use classfile_disasm::error::{AttributeKind, DecodeError};
use classfile_disasm::parser::{
    attribute_kind, parse_attribute_info, parse_attribute_info_code,
    parse_attribute_info_line_number_table, parse_attribute_info_line_number_table_item,
    parse_attribute_info_source_file, parse_attributes, parse_exception_rows,
    parse_exception_table, parse_field_info, parse_fields, parse_method_info, parse_methods,
    payload, placeholder, MAX_ATTRIBUTE_NESTING,
};

fn utf8_entry(text: &str) -> CpInfo {
    CpInfo::ConstantUtf8 {
        tag: 1,
        length: text.len() as u16,
        bytes: text.as_bytes().to_vec(),
        bytes_str: String::from(text),
    }
}

/// 1 Code, 2 LineNumberTable, 3 SourceFile, 4 a Methodref, 5 ConstantValue,
/// 6 a name that is no attribute's, 7 StackMapTable.
fn pool() -> Vec<CpInfo> {
    vec![
        placeholder(),
        utf8_entry("Code"),
        utf8_entry("LineNumberTable"),
        utf8_entry("SourceFile"),
        CpInfo::ConstantMethodref { tag: 10, class_index: 1, name_and_type_index: 2 },
        utf8_entry("ConstantValue"),
        utf8_entry("Bogus"),
        utf8_entry("StackMapTable"),
    ]
}

fn put_u2(out: &mut Vec<u8>, value: u16) {
    out.push((value >> 8) as u8);
    out.push((value & 0xff) as u8);
}

fn put_u4(out: &mut Vec<u8>, value: u32) {
    put_u2(out, (value >> 16) as u16);
    put_u2(out, (value & 0xffff) as u16);
}

fn source_file_bytes() -> Vec<u8> {
    let mut out = Vec::new();
    put_u2(&mut out, 3);
    put_u4(&mut out, 2);
    put_u2(&mut out, 0x0102);
    out
}

fn line_numbers_bytes() -> Vec<u8> {
    let mut out = Vec::new();
    put_u2(&mut out, 2);
    put_u4(&mut out, 10);
    put_u2(&mut out, 2);
    put_u2(&mut out, 0);
    put_u2(&mut out, 3);
    put_u2(&mut out, 8);
    put_u2(&mut out, 4);
    out
}

/// A Code attribute with the given code, exception rows and nested
/// attributes, each already encoded.
fn code_bytes(code: &[u8], rows: &[[u16; 4]], nested: &[Vec<u8>]) -> Vec<u8> {
    let mut body = Vec::new();
    put_u2(&mut body, 2);
    put_u2(&mut body, 1);
    put_u4(&mut body, code.len() as u32);
    body.extend_from_slice(code);
    put_u2(&mut body, rows.len() as u16);
    for row in rows {
        for field in row {
            put_u2(&mut body, *field);
        }
    }
    put_u2(&mut body, nested.len() as u16);
    for attribute in nested {
        body.extend_from_slice(attribute);
    }
    let mut out = Vec::new();
    put_u2(&mut out, 1);
    put_u4(&mut out, body.len() as u32);
    out.extend(body);
    out
}

#[test]
fn source_file_attribute() {
    let bytes = source_file_bytes();
    let expected = AttributeInfo::SourceFile {
        attribute_name_index: 3,
        attribute_length: 2,
        sourcefile_index: 0x0102,
    };
    assert_eq!(parse_attribute_info(0, &pool(), &bytes, 1), Ok((8, expected)));
    assert_eq!(
        parse_attribute_info_source_file(6, 3, 2, &bytes),
        Ok((
            8,
            AttributeInfo::SourceFile {
                attribute_name_index: 3,
                attribute_length: 2,
                sourcefile_index: 0x0102
            }
        ))
    );
}

#[test]
fn line_number_table_attribute() {
    let bytes = line_numbers_bytes();
    let expected = AttributeInfo::LineNumberTable {
        attribute_name_index: 2,
        attribute_length: 10,
        line_number_table_length: 2,
        line_number_tables: vec![
            LineNumberTableItem { start_pc: 0, line_number: 3 },
            LineNumberTableItem { start_pc: 8, line_number: 4 },
        ],
    };
    assert_eq!(parse_attribute_info(0, &pool(), &bytes, 0), Ok((16, expected)));
    assert_eq!(
        parse_attribute_info_line_number_table_item(8, &bytes),
        Ok((12, LineNumberTableItem { start_pc: 0, line_number: 3 }))
    );
    assert_eq!(
        parse_attribute_info_line_number_table_item(14, &bytes),
        Err(DecodeError::BufferUnderrun { offset: 16 })
    );
    let (end, table) = parse_attribute_info_line_number_table(6, 2, 10, &bytes).unwrap();
    assert_eq!(end, 16);
    assert!(matches!(table, AttributeInfo::LineNumberTable { line_number_table_length: 2, .. }));
}

#[test]
fn line_number_table_without_rows() {
    let mut bytes = Vec::new();
    put_u2(&mut bytes, 2);
    put_u4(&mut bytes, 2);
    put_u2(&mut bytes, 0);
    assert_eq!(
        parse_attribute_info(0, &pool(), &bytes, 1),
        Ok((
            8,
            AttributeInfo::LineNumberTable {
                attribute_name_index: 2,
                attribute_length: 2,
                line_number_table_length: 0,
                line_number_tables: vec![],
            }
        ))
    );
}

#[test]
fn code_attribute_with_exception_rows_and_nested_attributes() {
    let code = [0x2a, 0xb1];
    let rows = [[0, 1, 2, 0], [1, 2, 3, 9]];
    let bytes = code_bytes(&code, &rows, &[line_numbers_bytes(), source_file_bytes()]);
    let (end, attribute) = parse_attribute_info(0, &pool(), &bytes, 1).unwrap();
    assert_eq!(end, bytes.len());
    assert_eq!(
        attribute,
        AttributeInfo::Code {
            attribute_name_index: 1,
            attribute_length: (bytes.len() - 6) as u32,
            max_stack: 2,
            max_locals: 1,
            code_length: 2,
            code: vec![0x2a, 0xb1],
            exception_table_length: 2,
            exception_table: vec![
                ExceptionTable { start_pc: 0, end_pc: 1, handler_pc: 2, catch_type: 0 },
                ExceptionTable { start_pc: 1, end_pc: 2, handler_pc: 3, catch_type: 9 },
            ],
            attributes_count: 2,
            attributes: vec![
                AttributeInfo::LineNumberTable {
                    attribute_name_index: 2,
                    attribute_length: 10,
                    line_number_table_length: 2,
                    line_number_tables: vec![
                        LineNumberTableItem { start_pc: 0, line_number: 3 },
                        LineNumberTableItem { start_pc: 8, line_number: 4 },
                    ],
                },
                AttributeInfo::SourceFile {
                    attribute_name_index: 3,
                    attribute_length: 2,
                    sourcefile_index: 0x0102
                },
            ],
        }
    );
    assert_eq!(
        parse_attribute_info_code(6, 1, (bytes.len() - 6) as u32, &pool(), &bytes, 1),
        Ok((end, attribute))
    );
}

#[test]
fn exception_rows_take_eight_bytes_each() {
    let bytes = vec![0u8, 1, 0, 2, 0, 3, 0, 4, 0, 5, 0, 6, 0, 7, 0, 8, 0xff];
    assert_eq!(
        parse_exception_table(0, &bytes),
        Ok((8, ExceptionTable { start_pc: 1, end_pc: 2, handler_pc: 3, catch_type: 4 }))
    );
    assert_eq!(
        parse_exception_rows(0, 2, 1, &bytes),
        Ok((
            16,
            vec![
                ExceptionTable { start_pc: 1, end_pc: 2, handler_pc: 3, catch_type: 4 },
                ExceptionTable { start_pc: 5, end_pc: 6, handler_pc: 7, catch_type: 8 },
            ]
        ))
    );
    assert_eq!(parse_exception_rows(3, 0, 1, &bytes), Ok((3, vec![])));
    assert_eq!(
        parse_exception_table(10, &bytes),
        Err(DecodeError::BufferUnderrun { offset: 16 })
    );
    assert_eq!(
        parse_exception_rows(0, 3, 1, &bytes),
        Err(DecodeError::MalformedAttribute { name_index: 1 })
    );
}

#[test]
fn code_nested_in_code() {
    let inner = code_bytes(&[0xb1], &[], &[]);
    let outer = code_bytes(&[0x00], &[], &[inner.clone()]);
    let (end, attribute) = parse_attribute_info(0, &pool(), &outer, 2).unwrap();
    assert_eq!(end, outer.len());
    match attribute {
        AttributeInfo::Code { attributes, attributes_count, .. } => {
            assert_eq!(attributes_count, 1);
            assert_eq!(attributes.len(), 1);
            assert!(matches!(attributes[0], AttributeInfo::Code { code_length: 1, .. }));
        }
        other => panic!("not a Code attribute: {:?}", other),
    }
}

#[test]
fn nesting_is_limited() {
    let plain = code_bytes(&[0xb1], &[], &[]);
    assert_eq!(
        parse_attribute_info(0, &pool(), &plain, 0),
        Err(DecodeError::MalformedAttribute { name_index: 1 })
    );
    assert!(parse_attribute_info(0, &pool(), &plain, 1).is_ok());
    let mut nested = plain;
    for _ in 0..MAX_ATTRIBUTE_NESTING {
        nested = code_bytes(&[0x00], &[], &[nested]);
    }
    // one level more than a method's attributes may hold
    assert_eq!(
        parse_attributes(0, 1, &pool(), &nested, MAX_ATTRIBUTE_NESTING),
        Err(DecodeError::MalformedAttribute { name_index: 1 })
    );
    assert!(parse_attributes(0, 1, &pool(), &nested, MAX_ATTRIBUTE_NESTING + 1).is_ok());
    assert_eq!(MAX_ATTRIBUTE_NESTING, 16);
}

#[test]
fn name_index_that_refers_to_a_methodref_is_malformed() {
    let mut bytes = Vec::new();
    put_u2(&mut bytes, 4);
    put_u4(&mut bytes, 2);
    put_u2(&mut bytes, 1);
    assert_eq!(
        parse_attribute_info(0, &pool(), &bytes, 1),
        Err(DecodeError::MalformedAttribute { name_index: 4 })
    );
    assert_eq!(attribute_kind(4, &pool()), Err(DecodeError::MalformedAttribute { name_index: 4 }));
}

#[test]
fn name_index_out_of_range_is_malformed() {
    for name_index in [0u16, 8, 9, 0xffff] {
        let mut bytes = Vec::new();
        put_u2(&mut bytes, name_index);
        put_u4(&mut bytes, 0);
        assert_eq!(
            parse_attribute_info(0, &pool(), &bytes, 1),
            Err(DecodeError::MalformedAttribute { name_index })
        );
    }
}

#[test]
fn name_that_is_no_attribute_name_is_malformed() {
    let mut bytes = Vec::new();
    put_u2(&mut bytes, 6);
    put_u4(&mut bytes, 0);
    assert_eq!(
        parse_attribute_info(0, &pool(), &bytes, 1),
        Err(DecodeError::MalformedAttribute { name_index: 6 })
    );
}

#[test]
fn known_names_without_decoder_are_not_yet_implemented() {
    for (name_index, kind) in [(5u16, AttributeKind::ConstantValue), (7, AttributeKind::StackMapTable)] {
        let mut bytes = Vec::new();
        put_u2(&mut bytes, name_index);
        put_u4(&mut bytes, 2);
        put_u2(&mut bytes, 1);
        assert_eq!(
            parse_attribute_info(0, &pool(), &bytes, 1),
            Err(DecodeError::NotYetImplemented { kind })
        );
    }
}

#[test]
fn every_attribute_name_is_known() {
    let names = [
        "AnnotationDefault",
        "BootstrapMethods",
        "Code",
        "ConstantValue",
        "Deprecated",
        "EnclosingMethod",
        "Exceptions",
        "InnerClasses",
        "LineNumberTable",
        "LocalVariableTable",
        "LocalVariableTypeTable",
        "MethodParameters",
        "Module",
        "ModuleMainClass",
        "ModulePackages",
        "NestHost",
        "NestMembers",
        "PermittedSubclasses",
        "Record",
        "RuntimeInvisibleAnnotations",
        "RuntimeInvisibleParameterAnnotations",
        "RuntimeInvisibleTypeAnnotations",
        "RuntimeVisibleAnnotations",
        "RuntimeVisibleParameterAnnotations",
        "RuntimeVisibleTypeAnnotations",
        "Signature",
        "SourceDebugExtension",
        "SourceFile",
        "StackMapTable",
        "Synthetic",
    ];
    for name in names {
        let kind = AttributeKind::from_name(name).unwrap();
        assert_eq!(kind.name(), name);
        assert_eq!(format!("{:?}", kind), name);
        let decoded = matches!(
            kind,
            AttributeKind::Code | AttributeKind::LineNumberTable | AttributeKind::SourceFile
        );
        let pool = vec![placeholder(), utf8_entry(name)];
        let result = parse_attribute_info(0, &pool, &vec![0, 1, 0, 0, 0, 0], 1);
        if decoded {
            assert_eq!(result, Err(DecodeError::MalformedAttribute { name_index: 1 }));
        } else {
            assert_eq!(result, Err(DecodeError::NotYetImplemented { kind }));
        }
    }
    assert_eq!(AttributeKind::from_name("code"), None);
    assert_eq!(AttributeKind::from_name(""), None);
    assert_eq!(AttributeKind::from_name("Code "), None);
}

#[test]
fn header_cut_short_is_an_underrun() {
    assert_eq!(
        parse_attribute_info(0, &pool(), &vec![0u8], 1),
        Err(DecodeError::BufferUnderrun { offset: 0 })
    );
    assert_eq!(
        parse_attribute_info(0, &pool(), &vec![0u8, 3, 0, 0, 0], 1),
        Err(DecodeError::BufferUnderrun { offset: 2 })
    );
}

#[test]
fn payload_cut_short_is_malformed() {
    let source_file = source_file_bytes();
    assert_eq!(
        parse_attribute_info(0, &pool(), &source_file[..7].to_vec(), 1),
        Err(DecodeError::MalformedAttribute { name_index: 3 })
    );
    let lines = line_numbers_bytes();
    for len in 6..lines.len() {
        assert_eq!(
            parse_attribute_info(0, &pool(), &lines[..len].to_vec(), 1),
            Err(DecodeError::MalformedAttribute { name_index: 2 })
        );
    }
    let code = code_bytes(&[0x2a, 0xb1], &[[0, 1, 2, 3]], &[]);
    for len in 6..code.len() {
        assert_eq!(
            parse_attribute_info(0, &pool(), &code[..len].to_vec(), 1),
            Err(DecodeError::MalformedAttribute { name_index: 1 })
        );
    }
}

#[test]
fn failure_of_a_nested_attribute_is_handed_up_as_it_is() {
    let mut stack_map = Vec::new();
    put_u2(&mut stack_map, 7);
    put_u4(&mut stack_map, 0);
    let code = code_bytes(&[0xb1], &[], &[stack_map]);
    assert_eq!(
        parse_attribute_info(0, &pool(), &code, 1),
        Err(DecodeError::NotYetImplemented { kind: AttributeKind::StackMapTable })
    );
    let mut cut = code_bytes(&[0xb1], &[], &[source_file_bytes()]);
    cut.truncate(cut.len() - 5);
    assert_eq!(
        parse_attribute_info(0, &pool(), &cut, 1),
        Err(DecodeError::BufferUnderrun { offset: cut.len() - 1 })
    );
}

#[test]
fn payload_maps_every_failure() {
    assert_eq!(payload(Ok::<u8, DecodeError>(7), 3), Ok(7));
    assert_eq!(
        payload(Err::<u8, DecodeError>(DecodeError::BufferUnderrun { offset: 9 }), 3),
        Err(DecodeError::MalformedAttribute { name_index: 3 })
    );
    assert_eq!(
        payload(Err::<u8, DecodeError>(DecodeError::NotAClassFile), 4),
        Err(DecodeError::MalformedAttribute { name_index: 4 })
    );
}

#[test]
fn attribute_tables_thread_the_offset() {
    let mut bytes = vec![0xEE];
    bytes.extend(source_file_bytes());
    bytes.extend(line_numbers_bytes());
    bytes.extend(source_file_bytes());
    let (end, attributes) = parse_attributes(1, 3, &pool(), &bytes, 1).unwrap();
    assert_eq!(end, 1 + 8 + 16 + 8);
    assert_eq!(attributes.len(), 3);
    assert_eq!(attributes[0].kind(), AttributeKind::SourceFile);
    assert_eq!(attributes[1].kind(), AttributeKind::LineNumberTable);
    assert_eq!(attributes[2].kind(), AttributeKind::SourceFile);
    assert_eq!(parse_attributes(1, 0, &pool(), &bytes, 1), Ok((1, vec![])));
    assert_eq!(
        parse_attributes(1, 4, &pool(), &bytes, 1),
        Err(DecodeError::BufferUnderrun { offset: 33 })
    );
}

#[test]
fn methods_and_fields_share_their_layout() {
    let mut bytes = Vec::new();
    put_u2(&mut bytes, 0x0009);
    put_u2(&mut bytes, 6);
    put_u2(&mut bytes, 7);
    put_u2(&mut bytes, 1);
    bytes.extend(source_file_bytes());
    let (end, method) = parse_method_info(0, &pool(), &bytes).unwrap();
    let (field_end, field) = parse_field_info(0, &pool(), &bytes).unwrap();
    assert_eq!(end, 16);
    assert_eq!(field_end, 16);
    assert_eq!(method.access_flags, 0x0009);
    assert_eq!(method.name_index, 6);
    assert_eq!(method.descriptor_index, 7);
    assert_eq!(method.attributes_count, 1);
    assert_eq!(method.attributes.len(), 1);
    assert_eq!(field.access_flags, method.access_flags);
    assert_eq!(field.name_index, method.name_index);
    assert_eq!(field.descriptor_index, method.descriptor_index);
    assert_eq!(field.attributes, method.attributes);

    let mut two = bytes.clone();
    two.extend(bytes.clone());
    let (end, methods) = parse_methods(0, 2, &pool(), &two).unwrap();
    assert_eq!(end, 32);
    assert_eq!(methods.len(), 2);
    assert_eq!(methods[0], methods[1]);
    let (end, fields) = parse_fields(0, 2, &pool(), &two).unwrap();
    assert_eq!(end, 32);
    assert_eq!(fields.len(), 2);
    assert_eq!(parse_methods(0, 3, &pool(), &two), Err(DecodeError::BufferUnderrun { offset: 32 }));
    assert_eq!(parse_fields(0, 3, &pool(), &two), Err(DecodeError::BufferUnderrun { offset: 32 }));
}

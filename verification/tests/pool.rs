use classfile_disasm::ast::CpInfo;
use classfile_disasm::error::DecodeError;
use classfile_disasm::parser::{
    parse_constant_class, parse_constant_fieldref, parse_constant_methodref,
    parse_constant_name_and_type, parse_constant_string, parse_constant_utf8, parse_cp_info,
    parse_cp_info_array, parse_interfaces, placeholder,
};

fn utf8_entry(text: &str) -> CpInfo {
    CpInfo::ConstantUtf8 {
        tag: 1,
        length: text.len() as u16,
        bytes: text.as_bytes().to_vec(),
        bytes_str: String::from(text),
    }
}

#[test]
fn class_entry() {
    let bytes = vec![7u8, 0x01, 0x02, 0xff];
    assert_eq!(
        parse_cp_info(0, &bytes, 1),
        Ok((3, CpInfo::ConstantClass { tag: 7, name_index: 0x0102 }))
    );
    assert_eq!(
        parse_constant_class(1, &bytes),
        Ok((3, CpInfo::ConstantClass { tag: 7, name_index: 0x0102 }))
    );
}

#[test]
fn fieldref_entry() {
    let bytes = vec![0u8, 9, 0x00, 0x10, 0x00, 0x11];
    assert_eq!(
        parse_cp_info(1, &bytes, 1),
        Ok((6, CpInfo::ConstantFieldref { tag: 9, class_index: 16, name_and_type_index: 17 }))
    );
    assert_eq!(
        parse_constant_fieldref(2, &bytes),
        Ok((6, CpInfo::ConstantFieldref { tag: 9, class_index: 16, name_and_type_index: 17 }))
    );
}

#[test]
fn methodref_entry() {
    let bytes = vec![10u8, 0x00, 0x06, 0x00, 0x0f];
    assert_eq!(
        parse_cp_info(0, &bytes, 1),
        Ok((5, CpInfo::ConstantMethodref { tag: 10, class_index: 6, name_and_type_index: 15 }))
    );
    assert_eq!(
        parse_constant_methodref(1, &bytes),
        Ok((5, CpInfo::ConstantMethodref { tag: 10, class_index: 6, name_and_type_index: 15 }))
    );
}

#[test]
fn string_entry() {
    let bytes = vec![8u8, 0x00, 0x12];
    assert_eq!(
        parse_cp_info(0, &bytes, 1),
        Ok((3, CpInfo::ConstantString { tag: 8, string_index: 18 }))
    );
    assert_eq!(
        parse_constant_string(1, &bytes),
        Ok((3, CpInfo::ConstantString { tag: 8, string_index: 18 }))
    );
}

#[test]
fn name_and_type_entry() {
    let bytes = vec![12u8, 0x00, 0x07, 0x00, 0x08];
    assert_eq!(
        parse_cp_info(0, &bytes, 1),
        Ok((5, CpInfo::ConstantNameAndType { tag: 12, name_index: 7, descriptor_index: 8 }))
    );
    assert_eq!(
        parse_constant_name_and_type(1, &bytes),
        Ok((5, CpInfo::ConstantNameAndType { tag: 12, name_index: 7, descriptor_index: 8 }))
    );
}

#[test]
fn utf8_entry_holds_bytes_and_text() {
    let bytes = vec![1u8, 0x00, 0x04, b'C', b'o', b'd', b'e', 0xff];
    assert_eq!(parse_cp_info(0, &bytes, 9), Ok((7, utf8_entry("Code"))));
    assert_eq!(parse_constant_utf8(1, &bytes, 9), Ok((7, utf8_entry("Code"))));
}

#[test]
fn utf8_entry_of_length_zero() {
    let bytes = vec![1u8, 0x00, 0x00];
    assert_eq!(parse_cp_info(0, &bytes, 1), Ok((3, utf8_entry(""))));
}

#[test]
fn utf8_entry_with_text_beyond_ascii() {
    let text = "héllo – 世界 🎉";
    let mut bytes = vec![1u8, 0x00, text.len() as u8];
    bytes.extend_from_slice(text.as_bytes());
    let (end, entry) = parse_cp_info(0, &bytes, 1).unwrap();
    assert_eq!(end, bytes.len());
    match entry {
        CpInfo::ConstantUtf8 { tag, length, bytes: raw, bytes_str } => {
            assert_eq!(tag, 1);
            assert_eq!(length as usize, text.len());
            assert_eq!(raw, text.as_bytes().to_vec());
            assert_eq!(bytes_str, text);
            assert_eq!(bytes_str.chars().count(), 12);
        }
        other => panic!("not a Utf8 entry: {:?}", other),
    }
}

#[test]
fn utf8_entry_with_invalid_bytes() {
    // a lone continuation byte
    assert_eq!(
        parse_cp_info(0, &vec![1u8, 0x00, 0x01, 0x80], 5),
        Err(DecodeError::InvalidUtf8 { index: 5 })
    );
    // a sequence cut short
    assert_eq!(
        parse_cp_info(0, &vec![1u8, 0x00, 0x02, b'a', 0xC3], 6),
        Err(DecodeError::InvalidUtf8 { index: 6 })
    );
    // an overlong encoding of NUL
    assert_eq!(
        parse_cp_info(0, &vec![1u8, 0x00, 0x02, 0xC0, 0x80], 7),
        Err(DecodeError::InvalidUtf8 { index: 7 })
    );
    // a surrogate
    assert_eq!(
        parse_cp_info(0, &vec![1u8, 0x00, 0x03, 0xED, 0xA0, 0x80], 8),
        Err(DecodeError::InvalidUtf8 { index: 8 })
    );
    assert_eq!(
        parse_constant_utf8(1, &vec![1u8, 0x00, 0x01, 0xFF], 3),
        Err(DecodeError::InvalidUtf8 { index: 3 })
    );
}

#[test]
fn utf8_entry_cut_short() {
    assert_eq!(
        parse_cp_info(0, &vec![1u8, 0x00, 0x05, b'a', b'b'], 1),
        Err(DecodeError::BufferUnderrun { offset: 3 })
    );
    assert_eq!(parse_cp_info(0, &vec![1u8, 0x00], 1), Err(DecodeError::BufferUnderrun { offset: 1 }));
}

#[test]
fn unsupported_tags_carry_tag_and_offset() {
    for tag in [0u8, 2, 3, 4, 5, 6, 11, 13, 14, 15, 16, 17, 18, 19, 20, 21, 0x7f, 0xff] {
        let bytes = vec![0xAA, tag, 0, 1, 0, 2, 0, 3, 0, 4];
        assert_eq!(
            parse_cp_info(1, &bytes, 1),
            Err(DecodeError::UnsupportedConstantTag { tag, offset: 1 })
        );
    }
}

#[test]
fn entry_cut_short() {
    assert_eq!(parse_cp_info(0, &vec![], 1), Err(DecodeError::BufferUnderrun { offset: 0 }));
    assert_eq!(parse_cp_info(0, &vec![7u8, 0], 1), Err(DecodeError::BufferUnderrun { offset: 1 }));
    assert_eq!(
        parse_cp_info(0, &vec![9u8, 0, 1, 0], 1),
        Err(DecodeError::BufferUnderrun { offset: 3 })
    );
    assert_eq!(
        parse_cp_info(0, &vec![10u8, 0, 1], 1),
        Err(DecodeError::BufferUnderrun { offset: 3 })
    );
    assert_eq!(parse_cp_info(0, &vec![8u8], 1), Err(DecodeError::BufferUnderrun { offset: 1 }));
    assert_eq!(
        parse_cp_info(0, &vec![12u8, 0, 1, 2], 1),
        Err(DecodeError::BufferUnderrun { offset: 3 })
    );
}

#[test]
fn each_entry_takes_exactly_its_encoded_size() {
    let cases: Vec<(Vec<u8>, usize)> = vec![
        (vec![7, 0, 1], 3),
        (vec![9, 0, 1, 0, 2], 5),
        (vec![10, 0, 1, 0, 2], 5),
        (vec![8, 0, 1], 3),
        (vec![12, 0, 1, 0, 2], 5),
        (vec![1, 0, 0], 3),
        (vec![1, 0, 3, b'a', b'b', b'c'], 6),
    ];
    for (encoding, size) in cases {
        for start in [0usize, 1, 7] {
            let mut bytes = vec![0xEEu8; start];
            bytes.extend_from_slice(&encoding);
            bytes.extend_from_slice(&[0xEE; 4]);
            let (end, _) = parse_cp_info(start, &bytes, 1).unwrap();
            assert_eq!(end, start + size);
        }
    }
}

#[test]
fn the_pool_array_threads_the_offset() {
    let mut bytes = vec![0xEEu8, 0xEE];
    bytes.extend_from_slice(&[7, 0, 2]);
    bytes.extend_from_slice(&[1, 0, 1, b'A']);
    bytes.extend_from_slice(&[12, 0, 2, 0, 2]);
    bytes.extend_from_slice(&[0xEE]);
    let (end, pool) = parse_cp_info_array(2, 4, &bytes).unwrap();
    assert_eq!(end, 2 + 3 + 4 + 5);
    assert_eq!(
        pool,
        vec![
            placeholder(),
            CpInfo::ConstantClass { tag: 7, name_index: 2 },
            utf8_entry("A"),
            CpInfo::ConstantNameAndType { tag: 12, name_index: 2, descriptor_index: 2 },
        ]
    );
    // each entry decodes alone at the offset that the sizes before it give
    assert_eq!(parse_cp_info(2, &bytes, 1), Ok((5, CpInfo::ConstantClass { tag: 7, name_index: 2 })));
    assert_eq!(parse_cp_info(5, &bytes, 2), Ok((9, utf8_entry("A"))));
    assert_eq!(
        parse_cp_info(9, &bytes, 3),
        Ok((14, CpInfo::ConstantNameAndType { tag: 12, name_index: 2, descriptor_index: 2 }))
    );
}

#[test]
fn pool_counts_zero_and_one_hold_the_placeholder_alone() {
    let bytes = vec![7u8, 0, 1];
    assert_eq!(parse_cp_info_array(0, 0, &bytes), Ok((0, vec![placeholder()])));
    assert_eq!(parse_cp_info_array(0, 1, &bytes), Ok((0, vec![placeholder()])));
    assert_eq!(parse_cp_info_array(9, 1, &bytes), Ok((9, vec![placeholder()])));
}

#[test]
fn pool_declared_longer_than_its_bytes_underruns() {
    // the count says 3, so two entries; the buffer holds one
    let bytes = vec![7u8, 0, 2];
    assert_eq!(parse_cp_info_array(0, 3, &bytes), Err(DecodeError::BufferUnderrun { offset: 3 }));
}

#[test]
fn pool_with_invalid_text_names_the_entry() {
    let mut bytes = vec![7u8, 0, 2];
    bytes.extend_from_slice(&[1, 0, 1, 0xFF]);
    assert_eq!(parse_cp_info_array(0, 3, &bytes), Err(DecodeError::InvalidUtf8 { index: 2 }));
}

#[test]
fn pool_with_unsupported_tag_names_the_offset() {
    let mut bytes = vec![7u8, 0, 2];
    bytes.extend_from_slice(&[3, 0, 0, 0, 1]);
    assert_eq!(
        parse_cp_info_array(0, 3, &bytes),
        Err(DecodeError::UnsupportedConstantTag { tag: 3, offset: 3 })
    );
}

#[test]
fn interfaces_are_raw_indices() {
    let bytes = vec![0u8, 1, 0, 2, 0xAB, 0xCD];
    assert_eq!(parse_interfaces(0, 3, &bytes), Ok((6, vec![1, 2, 0xABCD])));
    assert_eq!(parse_interfaces(2, 0, &bytes), Ok((2, vec![])));
    assert_eq!(parse_interfaces(2, 3, &bytes), Err(DecodeError::BufferUnderrun { offset: 6 }));
}

use classfile_disasm::ast::{ClassFile, CpInfo, MethodInfo};
use classfile_disasm::descriptor::{
    dotted_string, find_char, find_field_type_end, parse_field_type, parse_field_types,
    primitive, return_descriptor, split_method_arguments, FieldType, FieldTypeTerm,
};
use classfile_disasm::error::{ConstantKind, DecodeError};
use classfile_disasm::parser::placeholder;
use classfile_disasm::parser_helper::{
    method_arguments_count, method_info_return_type, parse_method_arguments,
    return_descriptor_to_java_code,
};

fn utf8_entry(text: &str) -> CpInfo {
    CpInfo::ConstantUtf8 {
        tag: 1,
        length: text.len() as u16,
        bytes: text.as_bytes().to_vec(),
        bytes_str: String::from(text),
    }
}

fn method(access_flags: u16, descriptor_index: u16) -> MethodInfo {
    MethodInfo {
        access_flags,
        name_index: 1,
        descriptor_index,
        attributes_count: 0,
        attributes: vec![],
    }
}

fn pool() -> Vec<CpInfo> {
    vec![
        placeholder(),
        utf8_entry("main"),
        utf8_entry("([Ljava/lang/String;)V"),
        utf8_entry("()V"),
        utf8_entry("(IJLjava/lang/Object;[[D)Ljava/lang/String;"),
        utf8_entry("no descriptor"),
        CpInfo::ConstantClass { tag: 7, name_index: 1 },
        utf8_entry("(II)I"),
    ]
}

fn class_file() -> ClassFile {
    ClassFile {
        magic: 0xCAFEBABE,
        minor_version: 0,
        major_version: 52,
        constant_pool_count: 8,
        cp_info: pool(),
        access_flags: 0x21,
        this_class: 6,
        super_class: 6,
        interfaces_count: 0,
        interfaces: vec![],
        fields_count: 0,
        fields: vec![],
        methods_count: 0,
        methods: vec![],
        attributes_count: 0,
        attributes: vec![],
    }
}

fn strings(texts: &[&str]) -> Vec<String> {
    texts.iter().map(|t| String::from(*t)).collect()
}

fn base(term: FieldTypeTerm) -> FieldType {
    FieldType::BaseType { term }
}

fn object(name: &str) -> FieldType {
    FieldType::ObjectType { class_name: String::from(name) }
}

fn array(of: FieldType) -> FieldType {
    FieldType::ArrayType { field_type: Box::new(of) }
}

#[test]
fn arguments_of_main() {
    assert_eq!(
        parse_method_arguments(&method(9, 2), &pool()),
        Ok(strings(&["[Ljava/lang/String;"]))
    );
}

#[test]
fn arguments_of_every_kind() {
    assert_eq!(
        parse_method_arguments(&method(1, 4), &pool()),
        Ok(strings(&["I", "J", "Ljava/lang/Object;", "[[D"]))
    );
    assert_eq!(parse_method_arguments(&method(1, 7), &pool()), Ok(strings(&["I", "I"])));
    assert_eq!(parse_method_arguments(&method(1, 3), &pool()), Ok(vec![]));
}

#[test]
fn arguments_of_what_is_no_descriptor() {
    assert_eq!(
        parse_method_arguments(&method(1, 5), &pool()),
        Err(DecodeError::MalformedDescriptor)
    );
    assert_eq!(
        parse_method_arguments(&method(1, 6), &pool()),
        Err(DecodeError::WrongConstantKind {
            index: 6,
            expected: ConstantKind::Utf8,
            actual: ConstantKind::Class
        })
    );
    assert_eq!(
        parse_method_arguments(&method(1, 0), &pool()),
        Err(DecodeError::IndexOutOfRange { index: 0, pool_size: 8 })
    );
}

#[test]
fn splitting_descriptors() {
    assert_eq!(split_method_arguments("()V"), Some(vec![]));
    assert_eq!(split_method_arguments("(B)V"), Some(strings(&["B"])));
    assert_eq!(
        split_method_arguments("(BCDFIJSZ)V"),
        Some(strings(&["B", "C", "D", "F", "I", "J", "S", "Z"]))
    );
    assert_eq!(
        split_method_arguments("(La;Lb/c;[Ld;)Le;"),
        Some(strings(&["La;", "Lb/c;", "[Ld;"]))
    );
    assert_eq!(split_method_arguments("([[[I[J)"), Some(strings(&["[[[I", "[J"])));
    assert_eq!(split_method_arguments("(L;)V"), Some(strings(&["L;"])));
    assert_eq!(split_method_arguments("(Lé/ü;I)V"), Some(strings(&["Lé/ü;", "I"])));
    assert_eq!(split_method_arguments("(I)V)"), Some(strings(&["I"])));
}

#[test]
fn splitting_what_is_no_descriptor() {
    for text in [
        "", "V", "(", ")", "I)V", " ()V", "(V)V", "(X)V", "(Lfoo)V", "(Lfoo;", "([)V", "(I[)V",
        "(L)V", "(Ia)V", "(La;b)V", "((I)V", "(Lfoo)V;",
    ] {
        assert_eq!(split_method_arguments(text), None, "{:?}", text);
    }
}

#[test]
fn the_parts_put_together_are_the_parameters() {
    for descriptor in [
        "()V",
        "(I)V",
        "([Ljava/lang/String;)V",
        "(IJLjava/lang/Object;[[D)Ljava/lang/String;",
        "(La;Lb;Lc;)[I",
        "([[[[B)V",
    ] {
        let parts = split_method_arguments(descriptor).unwrap();
        let ret = return_descriptor(descriptor).unwrap();
        assert_eq!(format!("({}){}", parts.concat(), ret), descriptor);
        for part in parts.iter() {
            assert!(parse_field_type(part.clone()).is_ok());
        }
    }
}

#[test]
fn field_descriptors_are_split_into_themselves() {
    let parts = strings(&["I", "[[J", "Ljava/util/List;", "[Lx;", "Z"]);
    for ret in ["V", "I", "Ljava/lang/String;", ""] {
        let descriptor = format!("({}){}", parts.concat(), ret);
        assert_eq!(split_method_arguments(&descriptor), Some(parts.clone()));
        assert_eq!(return_descriptor(&descriptor), Some(String::from(ret)));
    }
}

#[test]
fn argument_count_counts_the_receiver() {
    // static
    assert_eq!(method_arguments_count(&method(0x0009, 2), &pool()), Ok(1));
    assert_eq!(method_arguments_count(&method(0x0008, 3), &pool()), Ok(0));
    assert_eq!(method_arguments_count(&method(0x0008, 4), &pool()), Ok(4));
    // not static
    assert_eq!(method_arguments_count(&method(0x0001, 2), &pool()), Ok(2));
    assert_eq!(method_arguments_count(&method(0x0000, 3), &pool()), Ok(1));
    assert_eq!(method_arguments_count(&method(0x0001, 4), &pool()), Ok(5));
    assert_eq!(method_arguments_count(&method(0x0001, 7), &pool()), Ok(3));
    assert_eq!(
        method_arguments_count(&method(0x0001, 5), &pool()),
        Err(DecodeError::MalformedDescriptor)
    );
    assert_eq!(
        method_arguments_count(&method(0x0001, 9), &pool()),
        Err(DecodeError::IndexOutOfRange { index: 9, pool_size: 8 })
    );
}

#[test]
fn return_type_follows_the_closing_bracket() {
    assert_eq!(method_info_return_type(2, &class_file()), Ok(String::from("V")));
    assert_eq!(method_info_return_type(4, &class_file()), Ok(String::from("Ljava/lang/String;")));
    assert_eq!(method_info_return_type(7, &class_file()), Ok(String::from("I")));
    assert_eq!(method_info_return_type(5, &class_file()), Err(DecodeError::MalformedDescriptor));
    assert_eq!(
        method_info_return_type(6, &class_file()),
        Err(DecodeError::WrongConstantKind {
            index: 6,
            expected: ConstantKind::Utf8,
            actual: ConstantKind::Class
        })
    );
    assert_eq!(return_descriptor("()"), Some(String::new()));
    assert_eq!(return_descriptor(")V"), Some(String::from("V")));
    assert_eq!(return_descriptor("a)b)c"), Some(String::from("b)c")));
    assert_eq!(return_descriptor("(V"), None);
    assert_eq!(return_descriptor(""), None);
}

#[test]
fn return_types_in_source_code() {
    assert_eq!(return_descriptor_to_java_code(String::from("V")), Ok(String::from("void")));
    assert_eq!(return_descriptor_to_java_code(String::from("I")), Ok(String::from("int")));
    assert_eq!(
        return_descriptor_to_java_code(String::from("Ljava/lang/String;")),
        Ok(String::from("java.lang.String"))
    );
    assert_eq!(return_descriptor_to_java_code(String::from("[[Z")), Ok(String::from("boolean[][]")));
    assert_eq!(
        return_descriptor_to_java_code(String::from("")),
        Err(DecodeError::MalformedDescriptor)
    );
    assert_eq!(
        return_descriptor_to_java_code(String::from("VV")),
        Err(DecodeError::MalformedDescriptor)
    );
    assert_eq!(
        return_descriptor_to_java_code(String::from("[V")),
        Err(DecodeError::MalformedDescriptor)
    );
}

#[test]
fn primitive_field_types() {
    assert_eq!(parse_field_type(String::from("B")), Ok(base(FieldTypeTerm::B)));
    assert_eq!(parse_field_type(String::from("C")), Ok(base(FieldTypeTerm::C)));
    assert_eq!(parse_field_type(String::from("D")), Ok(base(FieldTypeTerm::D)));
    assert_eq!(parse_field_type(String::from("F")), Ok(base(FieldTypeTerm::F)));
    assert_eq!(parse_field_type(String::from("I")), Ok(base(FieldTypeTerm::I)));
    assert_eq!(parse_field_type(String::from("J")), Ok(base(FieldTypeTerm::J)));
    assert_eq!(parse_field_type(String::from("S")), Ok(base(FieldTypeTerm::S)));
    assert_eq!(parse_field_type(String::from("Z")), Ok(base(FieldTypeTerm::Z)));
}

#[test]
fn object_and_array_field_types() {
    assert_eq!(parse_field_type(String::from("Ljava/lang/String;")), Ok(object("java/lang/String")));
    assert_eq!(parse_field_type(String::from("L;")), Ok(object("")));
    assert_eq!(parse_field_type(String::from("[I")), Ok(array(base(FieldTypeTerm::I))));
    assert_eq!(
        parse_field_type(String::from("[[Ljava/lang/String;")),
        Ok(array(array(object("java/lang/String"))))
    );
    assert_eq!(
        parse_field_type(String::from("[[[D")),
        Ok(array(array(array(base(FieldTypeTerm::D)))))
    );
}

#[test]
fn what_is_no_field_type() {
    for text in ["", "V", "X", "L", "Lfoo", "[", "[[", "II", "I ", "Lfoo;I", "[V", "La;;", "l", "(I)V"] {
        assert_eq!(
            parse_field_type(String::from(text)),
            Err(DecodeError::MalformedDescriptor),
            "{:?}",
            text
        );
    }
}

#[test]
fn array_depth_equals_the_brackets() {
    for dims in [0usize, 1, 2, 7, 255, 2000] {
        let text = format!("{}I", "[".repeat(dims));
        let mut parsed = &parse_field_type(text).unwrap();
        let mut depth = 0;
        while let FieldType::ArrayType { field_type } = parsed {
            depth += 1;
            parsed = field_type;
        }
        assert_eq!(depth, dims);
        assert_eq!(*parsed, base(FieldTypeTerm::I));
    }
}

#[test]
fn many_field_types() {
    assert_eq!(
        parse_field_types(&strings(&["I", "[J", "La;"])),
        Ok(vec![base(FieldTypeTerm::I), array(base(FieldTypeTerm::J)), object("a")])
    );
    assert_eq!(parse_field_types(&vec![]), Ok(vec![]));
    assert_eq!(
        parse_field_types(&strings(&["I", "nope", "J"])),
        Err(DecodeError::MalformedDescriptor)
    );
}

#[test]
fn types_in_source_code() {
    assert_eq!(base(FieldTypeTerm::B).str_java(), "byte");
    assert_eq!(base(FieldTypeTerm::C).str_java(), "char");
    assert_eq!(base(FieldTypeTerm::D).str_java(), "double");
    assert_eq!(base(FieldTypeTerm::F).str_java(), "float");
    assert_eq!(base(FieldTypeTerm::I).str_java(), "int");
    assert_eq!(base(FieldTypeTerm::J).str_java(), "long");
    assert_eq!(base(FieldTypeTerm::S).str_java(), "short");
    assert_eq!(base(FieldTypeTerm::Z).str_java(), "boolean");
    assert_eq!(object("java/lang/String").str_java(), "java.lang.String");
    assert_eq!(object("Plain").str_java(), "Plain");
    assert_eq!(array(object("java/lang/String")).str_java(), "java.lang.String[]");
    assert_eq!(array(array(base(FieldTypeTerm::I))).str_java(), "int[][]");
    assert_eq!(FieldTypeTerm::L.java_name(), "");
    assert_eq!(FieldTypeTerm::A.java_name(), "");
}

#[test]
fn dots_for_slashes() {
    assert_eq!(dotted_string("java/lang/String"), "java.lang.String");
    assert_eq!(dotted_string(""), "");
    assert_eq!(dotted_string("//a/"), "..a.");
    assert_eq!(dotted_string("a.b/ç"), "a.b.ç");
}

#[test]
fn finding_characters_and_ends() {
    let chars: Vec<char> = "(I[Lab;)V".chars().collect();
    assert_eq!(find_char(&chars, ')', 0), Some(7));
    assert_eq!(find_char(&chars, ')', 7), Some(7));
    assert_eq!(find_char(&chars, ')', 8), None);
    assert_eq!(find_char(&chars, ')', 100), None);
    assert_eq!(find_char(&chars, 'x', 0), None);
    assert_eq!(find_field_type_end(&chars, 0), None);
    assert_eq!(find_field_type_end(&chars, 1), Some(2));
    assert_eq!(find_field_type_end(&chars, 2), Some(7));
    assert_eq!(find_field_type_end(&chars, 3), Some(7));
    assert_eq!(find_field_type_end(&chars, 7), None);
    assert_eq!(find_field_type_end(&chars, 9), None);
    assert_eq!(primitive('I'), Some(FieldTypeTerm::I));
    assert_eq!(primitive('L'), None);
    assert_eq!(primitive('['), None);
    assert_eq!(primitive('V'), None);
}

#[test]
fn the_first_closing_bracket_ends_the_parameters() {
    // a class name that holds `)` cuts the parameters short
    assert_eq!(split_method_arguments("(La);)V"), None);
    assert_eq!(return_descriptor("(La);)V"), Some(String::from(";)V")));
    assert_eq!(split_method_arguments("(I)La);"), Some(strings(&["I"])));
}

use classfile_disasm::ast::{AttributeInfo, ClassFile, CpInfo, LineNumberTableItem, MethodInfo};
use classfile_disasm::error::{AttributeKind, ConstantKind, DecodeError};
use classfile_disasm::instructions::Operand;
use classfile_disasm::opcodes::{get_opcode, Opcode};
use classfile_disasm::parse_class_file;
use classfile_disasm::pretty_print::{
    class_header, class_keywords, constant_pool_listing, cp_info_index_prefix,
    cp_info_to_string, index_pair_string, instruction_args, instruction_line_string,
    instructions_block, line_number_table, line_start, method_attribute_info_code,
    method_info_attribute, method_info_attributes, method_info_to_string, methods_listing,
    operand_comment, operand_string, parameter_types, pretty_print_text,
};

fn put_u2(out: &mut Vec<u8>, value: u16) {
    out.push((value >> 8) as u8);
    out.push((value & 0xff) as u8);
}

fn put_u4(out: &mut Vec<u8>, value: u32) {
    put_u2(out, (value >> 16) as u16);
    put_u2(out, (value & 0xffff) as u16);
}

fn put_utf8(out: &mut Vec<u8>, text: &str) {
    out.push(1);
    put_u2(out, text.len() as u16);
    out.extend_from_slice(text.as_bytes());
}

fn put_class(out: &mut Vec<u8>, name_index: u16) {
    out.push(7);
    put_u2(out, name_index);
}

fn put_pair(out: &mut Vec<u8>, tag: u8, first: u16, second: u16) {
    out.push(tag);
    put_u2(out, first);
    put_u2(out, second);
}

/// The entries 1 to 24 of the pool of the class `HelloWorld`.
fn hello_world_pool_bytes() -> Vec<u8> {
    let mut out = Vec::new();
    put_pair(&mut out, 9, 10, 11);
    out.push(8);
    put_u2(&mut out, 12);
    put_pair(&mut out, 10, 13, 14);
    put_class(&mut out, 15);
    put_class(&mut out, 16);
    put_utf8(&mut out, "main");
    put_utf8(&mut out, "([Ljava/lang/String;)V");
    put_utf8(&mut out, "Code");
    put_utf8(&mut out, "LineNumberTable");
    put_class(&mut out, 17);
    put_pair(&mut out, 12, 18, 19);
    put_utf8(&mut out, "Hello, world");
    put_class(&mut out, 20);
    put_pair(&mut out, 12, 21, 22);
    put_utf8(&mut out, "HelloWorld");
    put_utf8(&mut out, "java/lang/Object");
    put_utf8(&mut out, "java/lang/System");
    put_utf8(&mut out, "out");
    put_utf8(&mut out, "Ljava/io/PrintStream;");
    put_utf8(&mut out, "java/io/PrintStream");
    put_utf8(&mut out, "println");
    put_utf8(&mut out, "(Ljava/lang/String;)V");
    put_utf8(&mut out, "SourceFile");
    put_utf8(&mut out, "HelloWorld.java");
    out
}

/// The code of `main`: getstatic #1, ldc #2, invokevirtual #3, return.
fn hello_world_code() -> Vec<u8> {
    vec![0xb2, 0x00, 0x01, 0x12, 0x02, 0xb6, 0x00, 0x03, 0xb1]
}

/// A class `HelloWorld` with the one method `main`, which prints a line.
fn hello_world() -> Vec<u8> {
    let mut out = Vec::new();
    put_u4(&mut out, 0xCAFEBABE);
    put_u2(&mut out, 0);
    put_u2(&mut out, 52);
    put_u2(&mut out, 25);
    out.extend(hello_world_pool_bytes());
    put_u2(&mut out, 0x0021);
    put_u2(&mut out, 4);
    put_u2(&mut out, 5);
    put_u2(&mut out, 0);
    put_u2(&mut out, 0);
    put_u2(&mut out, 1);
    // main
    put_u2(&mut out, 0x0009);
    put_u2(&mut out, 6);
    put_u2(&mut out, 7);
    put_u2(&mut out, 1);
    // Code
    put_u2(&mut out, 8);
    put_u4(&mut out, 37);
    put_u2(&mut out, 2);
    put_u2(&mut out, 1);
    put_u4(&mut out, 9);
    out.extend(hello_world_code());
    put_u2(&mut out, 0);
    put_u2(&mut out, 1);
    // LineNumberTable
    put_u2(&mut out, 9);
    put_u4(&mut out, 10);
    put_u2(&mut out, 2);
    put_u2(&mut out, 0);
    put_u2(&mut out, 3);
    put_u2(&mut out, 8);
    put_u2(&mut out, 4);
    // the class's attributes
    put_u2(&mut out, 1);
    put_u2(&mut out, 23);
    put_u4(&mut out, 2);
    put_u2(&mut out, 24);
    out
}

fn hello() -> ClassFile {
    parse_class_file(&hello_world()).unwrap()
}

const HEADER: &str = "public class HelloWorld\n  minor version: 0\n  major version: 52\n  flags: (0x0021) ACC_PUBLIC, ACC_SUPER\n  this_class: #4                          // HelloWorld\n  super_class: #5                         // java/lang/Object\n  interfaces: 0, fields: 0, methods: 1, attributes: 1\n";

const POOL_LINES: [&str; 24] = [
    "   #1 = Fieldref           #10.#11        // java/lang/System.out:Ljava/io/PrintStream;",
    "   #2 = String             #12            // Hello, world",
    "   #3 = Methodref          #13.#14        // java/io/PrintStream.println:(Ljava/lang/String;)V",
    "   #4 = Class              #15            // HelloWorld",
    "   #5 = Class              #16            // java/lang/Object",
    "   #6 = Utf8               main",
    "   #7 = Utf8               ([Ljava/lang/String;)V",
    "   #8 = Utf8               Code",
    "   #9 = Utf8               LineNumberTable",
    "  #10 = Class              #17            // java/lang/System",
    "  #11 = NameAndType        #18:#19        // out:Ljava/io/PrintStream;",
    "  #12 = Utf8               Hello, world",
    "  #13 = Class              #20            // java/io/PrintStream",
    "  #14 = NameAndType        #21:#22        // println:(Ljava/lang/String;)V",
    "  #15 = Utf8               HelloWorld",
    "  #16 = Utf8               java/lang/Object",
    "  #17 = Utf8               java/lang/System",
    "  #18 = Utf8               out",
    "  #19 = Utf8               Ljava/io/PrintStream;",
    "  #20 = Utf8               java/io/PrintStream",
    "  #21 = Utf8               println",
    "  #22 = Utf8               (Ljava/lang/String;)V",
    "  #23 = Utf8               SourceFile",
    "  #24 = Utf8               HelloWorld.java",
];

const BLOCK: &str = "         0: getstatic     #1                  // Field java/lang/System.out:Ljava/io/PrintStream;\n         3: ldc           #2                  // String Hello, world\n         5: invokevirtual #3                  // Method java/io/PrintStream.println:(Ljava/lang/String;)V\n         8: return";

const LINE_NUMBERS: &str = "      LineNumberTable:\n        line 3: 0\n        line 4: 8";

fn code_text() -> String {
    format!("    Code:\n      stack=2, locals=1, args_size=1\n{}\n{}", BLOCK, LINE_NUMBERS)
}

fn method_text() -> String {
    format!(
        "public static void main(java.lang.String[]);\n    descriptor: ([Ljava/lang/String;)V\n    flags: (0x0009) ACC_PUBLIC, ACC_STATIC\n{}",
        code_text()
    )
}

#[test]
fn hello_world_listing() {
    let mut expected = String::from(HEADER);
    expected.push_str("Constant pool:\n");
    for line in POOL_LINES {
        expected.push_str(line);
        expected.push('\n');
    }
    expected.push_str("{\n  ");
    expected.push_str(&method_text());
    expected.push_str("\n}\n");
    assert_eq!(pretty_print_text(&hello()), Ok(expected));
}

#[test]
fn hello_world_pool_listing_resolves_println() {
    let listing = constant_pool_listing(&hello().cp_info).unwrap();
    assert!(listing.starts_with("Constant pool:\n   #1 = Fieldref"));
    assert!(listing.contains(
        "Methodref          #13.#14        // java/io/PrintStream.println:(Ljava/lang/String;)V\n"
    ));
    assert_eq!(listing.lines().count(), 25);
    assert!(listing.ends_with("HelloWorld.java\n"));
}

#[test]
fn hello_world_header() {
    assert_eq!(class_header(&hello()), Ok(String::from(HEADER)));
}

#[test]
fn hello_world_pool_lines() {
    let class_file = hello();
    for (i, line) in POOL_LINES.iter().enumerate() {
        assert_eq!(cp_info_to_string(i + 1, &class_file.cp_info), Ok(String::from(*line)));
    }
}

#[test]
fn pool_lines_follow_the_column_layout() {
    let class_file = hello();
    let pool = &class_file.cp_info;
    assert_eq!(
        cp_info_to_string(4, pool).unwrap(),
        format!("{} = {:19}#{:<14}// {}", "   #4", "Class", 15, "HelloWorld")
    );
    assert_eq!(
        cp_info_to_string(1, pool).unwrap(),
        format!(
            "{} = {:19}{:15}// {}.{}:{}",
            "   #1", "Fieldref", "#10.#11", "java/lang/System", "out", "Ljava/io/PrintStream;"
        )
    );
    assert_eq!(
        cp_info_to_string(14, pool).unwrap(),
        format!(
            "{} = {:19}{:15}// {}:{}",
            "  #14", "NameAndType", "#21:#22", "println", "(Ljava/lang/String;)V"
        )
    );
    assert_eq!(
        cp_info_to_string(24, pool).unwrap(),
        format!("{} = {:19}{}", "  #24", "Utf8", "HelloWorld.java")
    );
}

#[test]
fn the_constructor_is_quoted_in_the_pool() {
    let mut class_file = hello();
    // println becomes <init>
    class_file.cp_info[21] = CpInfo::ConstantUtf8 {
        tag: 1,
        length: 6,
        bytes: b"<init>".to_vec(),
        bytes_str: String::from("<init>"),
    };
    assert_eq!(
        cp_info_to_string(3, &class_file.cp_info),
        Ok(String::from(
            "   #3 = Methodref          #13.#14        // java/io/PrintStream.\"<init>\":(Ljava/lang/String;)V"
        ))
    );
    assert_eq!(
        cp_info_to_string(14, &class_file.cp_info),
        Ok(String::from(
            "  #14 = NameAndType        #21:#22        // \"<init>\":(Ljava/lang/String;)V"
        ))
    );
    // a field's name is shown as it is
    class_file.cp_info[18] = class_file.cp_info[21].clone_entry();
    assert_eq!(
        cp_info_to_string(1, &class_file.cp_info),
        Ok(String::from(
            "   #1 = Fieldref           #10.#11        // java/lang/System.<init>:Ljava/io/PrintStream;"
        ))
    );
}

trait CloneEntry {
    fn clone_entry(&self) -> CpInfo;
}

impl CloneEntry for CpInfo {
    fn clone_entry(&self) -> CpInfo {
        match self {
            CpInfo::ConstantClass { tag, name_index } => {
                CpInfo::ConstantClass { tag: *tag, name_index: *name_index }
            }
            CpInfo::ConstantFieldref { tag, class_index, name_and_type_index } => {
                CpInfo::ConstantFieldref {
                    tag: *tag,
                    class_index: *class_index,
                    name_and_type_index: *name_and_type_index,
                }
            }
            CpInfo::ConstantMethodref { tag, class_index, name_and_type_index } => {
                CpInfo::ConstantMethodref {
                    tag: *tag,
                    class_index: *class_index,
                    name_and_type_index: *name_and_type_index,
                }
            }
            CpInfo::ConstantString { tag, string_index } => {
                CpInfo::ConstantString { tag: *tag, string_index: *string_index }
            }
            CpInfo::ConstantNameAndType { tag, name_index, descriptor_index } => {
                CpInfo::ConstantNameAndType {
                    tag: *tag,
                    name_index: *name_index,
                    descriptor_index: *descriptor_index,
                }
            }
            CpInfo::ConstantUtf8 { tag, length, bytes, bytes_str } => CpInfo::ConstantUtf8 {
                tag: *tag,
                length: *length,
                bytes: bytes.clone(),
                bytes_str: bytes_str.clone(),
            },
        }
    }
}

#[test]
fn pool_line_of_an_entry_that_does_not_resolve() {
    let mut class_file = hello();
    class_file.cp_info[4] = CpInfo::ConstantClass { tag: 7, name_index: 3 };
    assert_eq!(
        cp_info_to_string(4, &class_file.cp_info),
        Err(DecodeError::WrongConstantKind {
            index: 3,
            expected: ConstantKind::Utf8,
            actual: ConstantKind::Methodref
        })
    );
    assert_eq!(
        constant_pool_listing(&class_file.cp_info),
        Err(DecodeError::WrongConstantKind {
            index: 3,
            expected: ConstantKind::Utf8,
            actual: ConstantKind::Methodref
        })
    );
    assert_eq!(
        cp_info_to_string(0, &class_file.cp_info),
        Err(DecodeError::IndexOutOfRange { index: 0, pool_size: 25 })
    );
    assert_eq!(
        cp_info_to_string(25, &class_file.cp_info),
        Err(DecodeError::IndexOutOfRange { index: 25, pool_size: 25 })
    );
}

#[test]
fn empty_pools_list_only_the_heading() {
    assert_eq!(constant_pool_listing(&Vec::new()), Ok(String::from("Constant pool:\n")));
    assert_eq!(
        constant_pool_listing(&vec![classfile_disasm::parser::placeholder()]),
        Ok(String::from("Constant pool:\n"))
    );
}

#[test]
fn index_prefix_matches_the_standard_formatting() {
    for idx in [1usize, 9, 10, 99, 100, 999, 1000, 9999] {
        let left_pad = 5 - idx.to_string().len() - 1;
        assert_eq!(cp_info_index_prefix(idx), format!("{0:<1$}#{2}", " ", left_pad, idx));
    }
    assert_eq!(cp_info_index_prefix(1), "   #1");
    assert_eq!(cp_info_index_prefix(10), "  #10");
    assert_eq!(cp_info_index_prefix(100), " #100");
    assert_eq!(cp_info_index_prefix(1000), " #1000");
    assert_eq!(cp_info_index_prefix(0), "   #0");
}

#[test]
fn index_prefix_of_long_indices_keeps_one_space() {
    assert_eq!(cp_info_index_prefix(10000), " #10000");
    assert_eq!(cp_info_index_prefix(65535), " #65535");
    assert_eq!(cp_info_index_prefix(1234567), " #1234567");
}

#[test]
fn pieces_of_a_pool_line() {
    assert_eq!(line_start(7, "Utf8"), "   #7 = Utf8               ");
    assert_eq!(line_start(12, "NameAndType"), "  #12 = NameAndType        ");
    assert_eq!(line_start(1, "A kind with a name longer than the column"),
        "   #1 = A kind with a name longer than the column");
    assert_eq!(index_pair_string(6, ".", 15), "#6.#15");
    assert_eq!(index_pair_string(65535, ":", 0), "#65535:#0");
    assert_eq!(operand_string(2, "String x"), "#2                  // String x");
    assert_eq!(operand_string(65535, ""), format!("#{:<19}// {}", 65535, ""));
}

#[test]
fn hello_world_instructions() {
    let class_file = hello();
    assert_eq!(instructions_block(&hello_world_code(), &class_file), Ok(String::from(BLOCK)));
    assert_eq!(instructions_block(&vec![], &class_file), Ok(String::new()));
    assert_eq!(instructions_block(&vec![0xb1], &class_file), Ok(String::from("         0: return")));
    assert_eq!(
        instructions_block(&vec![0x00, 0x2a, 0xb1], &class_file),
        Ok(String::from("         0: nop\n         1: aload_0\n         2: return"))
    );
}

#[test]
fn instruction_lines_follow_the_column_layout() {
    assert_eq!(
        instruction_line_string(8, &Opcode::Return, &None),
        format!("{:10}: {}", 8, "return")
    );
    assert_eq!(
        instruction_line_string(1234, &Opcode::Ldc, &Some(String::from("#2 // x"))),
        format!("{:10}: {:14}{}", 1234, "ldc", "#2 // x")
    );
    assert_eq!(
        instruction_line_string(12345678901, &Opcode::Invokespecial, &Some(String::from("!"))),
        "12345678901: invokespecial !"
    );
}

#[test]
fn instructions_that_cannot_be_shown() {
    let class_file = hello();
    assert_eq!(
        instructions_block(&vec![0xb1, 0x57], &class_file),
        Err(DecodeError::UnimplementedOpcode { byte: 0x57, offset: 1 })
    );
    assert_eq!(
        instructions_block(&vec![0xee], &class_file),
        Err(DecodeError::UnimplementedOpcode { byte: 0xee, offset: 0 })
    );
    assert_eq!(
        instructions_block(&vec![0xb2, 0x00], &class_file),
        Err(DecodeError::BufferUnderrun { offset: 1 })
    );
    // getstatic of a Methodref
    assert_eq!(
        instructions_block(&vec![0xb2, 0x00, 0x03], &class_file),
        Err(DecodeError::WrongConstantKind {
            index: 3,
            expected: ConstantKind::Fieldref,
            actual: ConstantKind::Methodref
        })
    );
    // invokevirtual of a Fieldref
    assert_eq!(
        instructions_block(&vec![0xb6, 0x00, 0x01], &class_file),
        Err(DecodeError::WrongConstantKind {
            index: 1,
            expected: ConstantKind::Methodref,
            actual: ConstantKind::Fieldref
        })
    );
    // ldc of a Class
    assert_eq!(
        instructions_block(&vec![0x12, 0x04], &class_file),
        Err(DecodeError::WrongConstantKind {
            index: 4,
            expected: ConstantKind::String,
            actual: ConstantKind::Class
        })
    );
    assert_eq!(
        instructions_block(&vec![0x12, 0xff], &class_file),
        Err(DecodeError::IndexOutOfRange { index: 255, pool_size: 25 })
    );
}

#[test]
fn arguments_of_each_instruction() {
    let class_file = hello();
    let code = hello_world_code();
    assert_eq!(
        instruction_args(0, &Opcode::Getstatic, &code, &class_file),
        Ok((
            3,
            Some(String::from(
                "#1                  // Field java/lang/System.out:Ljava/io/PrintStream;"
            ))
        ))
    );
    assert_eq!(
        instruction_args(3, &Opcode::Ldc, &code, &class_file),
        Ok((5, Some(String::from("#2                  // String Hello, world"))))
    );
    assert_eq!(
        instruction_args(5, &Opcode::Invokevirtual, &code, &class_file),
        Ok((
            8,
            Some(String::from(
                "#3                  // Method java/io/PrintStream.println:(Ljava/lang/String;)V"
            ))
        ))
    );
    assert_eq!(
        instruction_args(5, &Opcode::Invokespecial, &code, &class_file),
        Ok((
            8,
            Some(String::from(
                "#3                  // Method java/io/PrintStream.println:(Ljava/lang/String;)V"
            ))
        ))
    );
    assert_eq!(instruction_args(8, &Opcode::Return, &code, &class_file), Ok((9, None)));
    assert_eq!(instruction_args(8, &Opcode::Nop, &code, &class_file), Ok((9, None)));
    assert_eq!(instruction_args(8, &Opcode::Aload0, &code, &class_file), Ok((9, None)));
}

#[test]
fn arguments_of_instructions_without_rule() {
    let class_file = hello();
    let code = hello_world_code();
    for byte in 0..=255u8 {
        let opcode = match get_opcode(byte) {
            Some(opcode) => opcode,
            None => continue,
        };
        let with_rule = matches!(byte, 0x00 | 0x12 | 0x2a | 0xb1 | 0xb2 | 0xb6 | 0xb7);
        let result = instruction_args(8, &opcode, &code, &class_file);
        if with_rule {
            assert!(!matches!(result, Err(DecodeError::UnimplementedOpcode { .. })));
        } else {
            assert_eq!(result, Err(DecodeError::UnimplementedOpcode { byte, offset: 8 }));
        }
    }
    assert_eq!(
        instruction_args(9, &Opcode::Return, &code, &class_file),
        Err(DecodeError::BufferUnderrun { offset: 9 })
    );
    assert_eq!(
        instruction_args(8, &Opcode::Ldc, &code, &class_file),
        Err(DecodeError::BufferUnderrun { offset: 9 })
    );
}

#[test]
fn comments_of_operands() {
    let class_file = hello();
    assert_eq!(operand_comment(&Opcode::Return, Operand::NoOperand, &class_file), Ok(None));
    assert_eq!(
        operand_comment(&Opcode::Ldc, Operand::NarrowIndex(12), &class_file),
        Ok(Some(String::from("#12                 // Hello, world")))
    );
    assert_eq!(operand_comment(&Opcode::Bipush, Operand::NarrowIndex(12), &class_file), Ok(None));
    assert_eq!(operand_comment(&Opcode::Putstatic, Operand::WideIndex(1), &class_file), Ok(None));
}

#[test]
fn hello_world_line_numbers() {
    let table = AttributeInfo::LineNumberTable {
        attribute_name_index: 9,
        attribute_length: 10,
        line_number_table_length: 2,
        line_number_tables: vec![
            LineNumberTableItem { start_pc: 0, line_number: 3 },
            LineNumberTableItem { start_pc: 8, line_number: 4 },
        ],
    };
    assert_eq!(line_number_table(&table), LINE_NUMBERS);
    let empty = AttributeInfo::LineNumberTable {
        attribute_name_index: 9,
        attribute_length: 2,
        line_number_table_length: 0,
        line_number_tables: vec![],
    };
    assert_eq!(line_number_table(&empty), "      LineNumberTable:\n");
    let one = AttributeInfo::LineNumberTable {
        attribute_name_index: 9,
        attribute_length: 6,
        line_number_table_length: 1,
        line_number_tables: vec![LineNumberTableItem { start_pc: 65535, line_number: 100 }],
    };
    assert_eq!(line_number_table(&one), "      LineNumberTable:\n        line 100: 65535");
}

#[test]
fn hello_world_code_attribute() {
    let class_file = hello();
    let main = &class_file.methods[0];
    let code = &main.attributes[0];
    assert_eq!(method_attribute_info_code(code, main, &class_file), Ok(code_text()));
    assert_eq!(method_info_attribute(code, main, &class_file), Ok(code_text()));
    assert_eq!(method_info_attributes(main, &class_file), Ok(vec![code_text()]));
}

#[test]
fn a_method_that_is_not_static_counts_its_receiver() {
    let mut class_file = hello();
    class_file.methods[0].access_flags = 0x0001;
    let text = method_info_to_string(&class_file.methods[0], &class_file).unwrap();
    assert!(text.starts_with("public void main(java.lang.String[]);\n"));
    assert!(text.contains("\n    flags: (0x0001) ACC_PUBLIC\n"));
    assert!(text.contains("\n      stack=2, locals=1, args_size=2\n"));
}

#[test]
fn attributes_that_are_not_shown() {
    let class_file = hello();
    let main = &class_file.methods[0];
    let source_file = &class_file.attributes[0];
    assert_eq!(
        method_info_attribute(source_file, main, &class_file),
        Err(DecodeError::NotYetImplemented { kind: AttributeKind::SourceFile })
    );
    assert_eq!(
        method_info_attribute(&AttributeInfo::Deprecated {}, main, &class_file),
        Err(DecodeError::NotYetImplemented { kind: AttributeKind::Deprecated })
    );
    assert_eq!(
        method_info_attribute(
            &AttributeInfo::ConstantValue {
                attribute_name_index: 1,
                attribute_length: 2,
                constantvalue_index: 3
            },
            main,
            &class_file
        ),
        Err(DecodeError::NotYetImplemented { kind: AttributeKind::ConstantValue })
    );
}

#[test]
fn hello_world_method() {
    let class_file = hello();
    assert_eq!(method_info_to_string(&class_file.methods[0], &class_file), Ok(method_text()));
    assert_eq!(methods_listing(&class_file), Ok(format!("{{\n  {}\n}}\n", method_text())));
}

#[test]
fn methods_are_parted_by_an_empty_line() {
    let mut class_file = hello();
    let plain = MethodInfo {
        access_flags: 0x0401,
        name_index: 6,
        descriptor_index: 22,
        attributes_count: 0,
        attributes: vec![],
    };
    let shown = "public abstract void main(java.lang.String);\n    descriptor: (Ljava/lang/String;)V\n    flags: (0x0401) ACC_PUBLIC, ACC_ABSTRACT\n";
    assert_eq!(method_info_to_string(&plain, &class_file), Ok(String::from(shown)));
    class_file.methods.push(plain);
    class_file.methods_count = 2;
    assert_eq!(
        methods_listing(&class_file),
        Ok(format!("{{\n  {}\n\n  {}\n}}\n", method_text(), shown))
    );
    class_file.methods.clear();
    assert_eq!(methods_listing(&class_file), Ok(String::from("{\n}\n")));
}

#[test]
fn a_constructor_is_shown_under_the_class_name() {
    let mut class_file = hello();
    class_file.cp_info[6] = CpInfo::ConstantUtf8 {
        tag: 1,
        length: 6,
        bytes: b"<init>".to_vec(),
        bytes_str: String::from("<init>"),
    };
    let constructor = MethodInfo {
        access_flags: 0x0001,
        name_index: 6,
        descriptor_index: 22,
        attributes_count: 0,
        attributes: vec![],
    };
    assert_eq!(
        method_info_to_string(&constructor, &class_file),
        Ok(String::from(
            "public HelloWorld(java.lang.String);\n    descriptor: (Ljava/lang/String;)V\n    flags: (0x0001) ACC_PUBLIC\n"
        ))
    );
}

#[test]
fn a_method_whose_parts_do_not_resolve() {
    let class_file = hello();
    let no_name = MethodInfo {
        access_flags: 1,
        name_index: 4,
        descriptor_index: 7,
        attributes_count: 0,
        attributes: vec![],
    };
    assert_eq!(
        method_info_to_string(&no_name, &class_file),
        Err(DecodeError::WrongConstantKind {
            index: 4,
            expected: ConstantKind::Utf8,
            actual: ConstantKind::Class
        })
    );
    let no_descriptor = MethodInfo {
        access_flags: 1,
        name_index: 6,
        descriptor_index: 6,
        attributes_count: 0,
        attributes: vec![],
    };
    assert_eq!(
        method_info_to_string(&no_descriptor, &class_file),
        Err(DecodeError::MalformedDescriptor)
    );
    let beyond = MethodInfo {
        access_flags: 1,
        name_index: 6,
        descriptor_index: 99,
        attributes_count: 0,
        attributes: vec![],
    };
    assert_eq!(
        method_info_to_string(&beyond, &class_file),
        Err(DecodeError::IndexOutOfRange { index: 99, pool_size: 25 })
    );
}

#[test]
fn parameter_types_in_source_code() {
    let args = vec![String::from("I"), String::from("[Ljava/util/List;"), String::from("[[J")];
    assert_eq!(
        parameter_types(&args),
        Ok(vec![String::from("int"), String::from("java.util.List[]"), String::from("long[][]")])
    );
    assert_eq!(parameter_types(&vec![]), Ok(vec![]));
    assert_eq!(
        parameter_types(&vec![String::from("I"), String::from("?")]),
        Err(DecodeError::MalformedDescriptor)
    );
}

#[test]
fn class_keywords_leave_out_super() {
    assert_eq!(class_keywords(0x0021), "public");
    assert_eq!(class_keywords(0x0020), "");
    assert_eq!(class_keywords(0x0000), "");
    assert_eq!(class_keywords(0x0031), "publicfinal");
    assert_eq!(class_keywords(0x0601), "publicinterfaceabstract");
}

#[test]
fn header_of_a_class_whose_superclass_does_not_resolve() {
    let mut class_file = hello();
    class_file.super_class = 0;
    assert_eq!(
        class_header(&class_file),
        Err(DecodeError::IndexOutOfRange { index: 0, pool_size: 25 })
    );
    assert_eq!(
        pretty_print_text(&class_file),
        Err(DecodeError::IndexOutOfRange { index: 0, pool_size: 25 })
    );
    class_file.super_class = 5;
    class_file.this_class = 6;
    assert_eq!(
        class_header(&class_file),
        Err(DecodeError::WrongConstantKind {
            index: 6,
            expected: ConstantKind::Class,
            actual: ConstantKind::Utf8
        })
    );
}

#[test]
fn header_shows_the_minor_version_in_hexadecimal() {
    let mut class_file = hello();
    class_file.minor_version = 0x2f;
    class_file.major_version = 65;
    class_file.access_flags = 0x0421;
    class_file.interfaces_count = 2;
    class_file.fields_count = 10;
    let header = class_header(&class_file).unwrap();
    assert_eq!(
        header,
        format!(
            "{} class {}\n  minor version: {:x}\n  major version: {}\n  flags: ({:#06x}) {}\n  {:<40}// {}\n  {:<40}// {}\n  interfaces: {}, fields: {}, methods: {}, attributes: {}\n",
            "publicabstract",
            "HelloWorld",
            0x2f,
            65,
            0x0421,
            "ACC_PUBLIC, ACC_SUPER, ACC_ABSTRACT",
            "this_class: #4",
            "HelloWorld",
            "super_class: #5",
            "java/lang/Object",
            2,
            10,
            1,
            1
        )
    );
}

#[test]
fn a_listing_fails_as_a_whole() {
    let mut class_file = hello();
    if let AttributeInfo::Code { code, .. } = &mut class_file.methods[0].attributes[0] {
        code[8] = 0xac;
    }
    assert_eq!(
        pretty_print_text(&class_file),
        Err(DecodeError::UnimplementedOpcode { byte: 0xac, offset: 8 })
    );
    // the sections before the methods can still be rendered alone
    assert_eq!(class_header(&class_file), Ok(String::from(HEADER)));
    assert!(constant_pool_listing(&class_file.cp_info).is_ok());
}

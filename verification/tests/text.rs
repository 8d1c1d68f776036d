use classfile_disasm::text::{
    concat_strings, decimal_string, digit, from_chars, hex_word_string, hexadecimal_string,
    join_strings, push_decimal, push_hexadecimal, push_padded_left, push_padded_right,
    push_spaces, push_zeros, same_text, to_chars,
};

#[test]
fn decimal_matches_the_standard_formatting() {
    for n in [0u64, 1, 9, 10, 11, 99, 100, 305, 999, 1000, 65535, 4294967295, u64::MAX] {
        assert_eq!(decimal_string(n), format!("{}", n));
    }
    assert_eq!(decimal_string(0), "0");
    assert_eq!(decimal_string(305), "305");
    assert_eq!(decimal_string(u64::MAX), "18446744073709551615");
}

#[test]
fn hexadecimal_matches_the_standard_formatting() {
    for n in [0u64, 1, 9, 10, 15, 16, 255, 256, 0xcafe, 0xCAFEBABE, u64::MAX] {
        assert_eq!(hexadecimal_string(n), format!("{:x}", n));
    }
    assert_eq!(hexadecimal_string(0), "0");
    assert_eq!(hexadecimal_string(0xCAFEBABE), "cafebabe");
}

#[test]
fn hex_word_matches_the_standard_formatting() {
    for n in [0u16, 1, 9, 0x21, 0x100, 0xfff, 0x1000, 0xffff] {
        assert_eq!(hex_word_string(n), format!("{:#06x}", n));
    }
    assert_eq!(hex_word_string(0x21), "0x0021");
    assert_eq!(hex_word_string(0), "0x0000");
    assert_eq!(hex_word_string(0xffff), "0xffff");
}

#[test]
fn digits_are_lower_case() {
    let all: String = (0u8..16).map(digit).collect();
    assert_eq!(all, "0123456789abcdef");
}

#[test]
fn push_decimal_appends() {
    let mut s = String::from("n=");
    push_decimal(&mut s, 42);
    assert_eq!(s, "n=42");
    push_hexadecimal(&mut s, 255);
    assert_eq!(s, "n=42ff");
}

#[test]
fn push_spaces_and_zeros_append() {
    let mut s = String::from("a");
    push_spaces(&mut s, 3);
    assert_eq!(s, "a   ");
    push_zeros(&mut s, 2);
    assert_eq!(s, "a   00");
    push_spaces(&mut s, 0);
    push_zeros(&mut s, 0);
    assert_eq!(s, "a   00");
}

#[test]
fn padding_right_matches_the_standard_formatting() {
    for (text, width) in [("Class", 19usize), ("", 3), ("NameAndType", 5), ("abc", 3), ("été", 5)] {
        let mut s = String::from("|");
        push_padded_right(&mut s, text, width);
        assert_eq!(s, format!("|{:<1$}", text, width));
    }
    let mut s = String::new();
    push_padded_right(&mut s, "Utf8", 19);
    assert_eq!(s, "Utf8               ");
}

#[test]
fn padding_left_matches_the_standard_formatting() {
    for (text, width) in [("0", 10usize), ("", 3), ("12345678901", 10), ("abc", 3), ("é", 2)] {
        let mut s = String::from("|");
        push_padded_left(&mut s, text, width);
        assert_eq!(s, format!("|{:>1$}", text, width));
    }
    let mut s = String::new();
    push_padded_left(&mut s, "8", 10);
    assert_eq!(s, "         8");
}

#[test]
fn same_text_compares_contents() {
    assert!(same_text("Code", "Code"));
    assert!(same_text("", ""));
    assert!(!same_text("Code", "code"));
    assert!(!same_text("Code", "Cod"));
    assert!(!same_text("Cod", "Code"));
    assert!(!same_text("", "x"));
    assert!(same_text("héllo", "héllo"));
    assert!(!same_text("héllo", "hèllo"));
}

#[test]
fn to_chars_and_back() {
    let chars = to_chars("a/é;");
    assert_eq!(chars, vec!['a', '/', 'é', ';']);
    assert_eq!(from_chars(&chars, 0, 4), "a/é;");
    assert_eq!(from_chars(&chars, 1, 3), "/é");
    assert_eq!(from_chars(&chars, 2, 2), "");
    assert_eq!(to_chars(""), Vec::<char>::new());
}

#[test]
fn join_puts_the_separator_between() {
    let parts = vec![String::from("a"), String::from("bc"), String::from("")];
    assert_eq!(join_strings(&parts, ", "), "a, bc, ");
    assert_eq!(join_strings(&parts, ", "), parts.join(", "));
    assert_eq!(join_strings(&vec![String::from("one")], "\n"), "one");
    assert_eq!(join_strings(&Vec::new(), "\n"), "");
    assert_eq!(join_strings(&vec![String::new(), String::new()], "-"), "-");
}

#[test]
fn concat_puts_nothing_between() {
    let parts = vec![String::from("public"), String::from("final")];
    assert_eq!(concat_strings(&parts), "publicfinal");
    assert_eq!(concat_strings(&Vec::new()), "");
}

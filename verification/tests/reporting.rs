use std::sync::Arc;

use cpplumber::byte_order::{compare_bytes, compare_text, KeyOrder};
use cpplumber::information_leak::confirmed_leak::{
    compare_by_location, compare_by_value, ConfirmedLeak, ConfirmedLeakWithUniqueLocation,
    ConfirmedLeakWithUniqueValue,
};
use cpplumber::information_leak::leak_location::{BinaryLocation, LeakLocation, SourceLocation};
use cpplumber::information_leak::leak_set::ConfirmedLeakSet;
use cpplumber::information_leak::wide_encoding::{u16s_to_le_bytes, u32s_to_le_bytes};
use cpplumber::information_leak::LeakedDataType;
use cpplumber::reporting::{
    display_leaked_data_type, dump_confirmed_leaks_as_text, exit_code, format_confirmed_leak,
    to_decimal, to_hexadecimal,
};

fn confirmed(
    data_type: LeakedDataType,
    data: &str,
    file: &str,
    line: u64,
    offset: u64,
) -> ConfirmedLeak {
    ConfirmedLeak {
        data_type,
        data: Arc::new(data.to_string()),
        location: LeakLocation {
            source: Arc::new(SourceLocation { file: file.to_string(), line }),
            binary: BinaryLocation { file: Arc::new("/bin/a.out".to_string()), offset },
        },
    }
}

#[test]
fn leaked_data_types_have_their_names() {
    assert_eq!(display_leaked_data_type(LeakedDataType::StringLiteral), "string literal");
    assert_eq!(display_leaked_data_type(LeakedDataType::StructName), "struct name");
    assert_eq!(display_leaked_data_type(LeakedDataType::ClassName), "class name");
}

#[test]
fn numbers_are_written_without_leading_zeros() {
    assert_eq!(to_hexadecimal(0), "0");
    assert_eq!(to_hexadecimal(9), "9");
    assert_eq!(to_hexadecimal(10), "a");
    assert_eq!(to_hexadecimal(255), "ff");
    assert_eq!(to_hexadecimal(0x1f40), "1f40");
    assert_eq!(to_hexadecimal(u64::MAX), "ffffffffffffffff");
    assert_eq!(to_hexadecimal(0xdead_beef), format!("{:x}", 0xdead_beefu64));
    assert_eq!(to_decimal(0), "0");
    assert_eq!(to_decimal(10), "10");
    assert_eq!(to_decimal(4096), "4096");
    assert_eq!(to_decimal(u64::MAX), "18446744073709551615");
}

#[test]
fn report_line_has_the_documented_form() {
    let leak = confirmed(LeakedDataType::StringLiteral, "secret", "/src/main.cc", 42, 0x1f40);
    assert_eq!(
        format_confirmed_leak(&leak),
        "\"secret\" (string literal) leaked at offset 0x1f40 in \"/bin/a.out\" [declared at /src/main.cc:42]"
    );
    let leak = confirmed(LeakedDataType::ClassName, "MyClass", "/src/c.h", 7, 0);
    assert_eq!(
        format_confirmed_leak(&leak),
        "\"MyClass\" (class name) leaked at offset 0x0 in \"/bin/a.out\" [declared at /src/c.h:7]"
    );
}

#[test]
fn text_report_has_one_line_for_each_leak_in_order() {
    let mut set: ConfirmedLeakSet<ConfirmedLeakWithUniqueLocation> = ConfirmedLeakSet::new();
    assert_eq!(dump_confirmed_leaks_as_text(&set), "");
    set.insert(confirmed(LeakedDataType::StructName, "S", "/src/b.h", 2, 16).into());
    set.insert(confirmed(LeakedDataType::StringLiteral, "text", "/src/a.cc", 1, 255).into());
    assert_eq!(
        dump_confirmed_leaks_as_text(&set),
        "\"text\" (string literal) leaked at offset 0xff in \"/bin/a.out\" [declared at /src/a.cc:1]\n\
         \"S\" (struct name) leaked at offset 0x10 in \"/bin/a.out\" [declared at /src/b.h:2]\n"
    );
}

#[test]
fn exit_code_is_zero_only_without_leaks() {
    let mut set: ConfirmedLeakSet<ConfirmedLeakWithUniqueValue> = ConfirmedLeakSet::new();
    assert_eq!(exit_code(&set), 0);
    set.insert(confirmed(LeakedDataType::StringLiteral, "text", "/src/a.cc", 1, 255).into());
    assert_eq!(exit_code(&set), 1);
    set.insert(confirmed(LeakedDataType::StringLiteral, "more", "/src/a.cc", 1, 255).into());
    assert_eq!(exit_code(&set), 1);
}

#[test]
fn bytes_are_compared_lexicographically() {
    assert_eq!(compare_bytes(b"", b""), KeyOrder::Equal);
    assert_eq!(compare_bytes(b"", b"a"), KeyOrder::Less);
    assert_eq!(compare_bytes(b"a", b""), KeyOrder::Greater);
    assert_eq!(compare_bytes(b"abc", b"abd"), KeyOrder::Less);
    assert_eq!(compare_bytes(b"abc", b"ab"), KeyOrder::Greater);
    assert_eq!(compare_bytes(b"b", b"abc"), KeyOrder::Greater);
    assert_eq!(compare_bytes(&[0xff], &[0x7f, 0x00]), KeyOrder::Greater);
    assert_eq!(compare_text("a.b", "a/b"), KeyOrder::Less);
    assert_eq!(compare_text("z", "\u{e9}"), KeyOrder::Less);
    assert_eq!(compare_text("same", "same"), KeyOrder::Equal);
    for (a, b) in [("", "x"), ("abc", "abd"), ("Z", "a"), ("\u{e9}", "\u{1f602}")] {
        assert_eq!(compare_text(a, b) == KeyOrder::Less, a < b);
        assert_eq!(compare_text(b, a) == KeyOrder::Greater, a < b);
    }
}

#[test]
fn leaks_are_compared_by_location_or_by_value() {
    let a = confirmed(LeakedDataType::StringLiteral, "b", "/src/a.cc", 10, 5);
    let b = confirmed(LeakedDataType::StringLiteral, "a", "/src/a.cc", 9, 50);
    assert_eq!(compare_by_location(&a, &b), KeyOrder::Greater);
    assert_eq!(compare_by_location(&b, &a), KeyOrder::Less);
    assert_eq!(compare_by_location(&a, &a), KeyOrder::Equal);
    assert_eq!(compare_by_value(&a, &b), KeyOrder::Greater);
    assert_eq!(compare_by_value(&b, &a), KeyOrder::Less);
    assert_eq!(compare_by_value(&b, &b), KeyOrder::Equal);
}

#[test]
fn units_are_laid_out_least_significant_byte_first() {
    assert_eq!(u16s_to_le_bytes(&vec![0x1234, 0x00ff, 0xff00]), vec![0x34, 0x12, 0xff, 0, 0, 0xff]);
    assert_eq!(
        u32s_to_le_bytes(&vec![0x1234_5678, 0x0010_ffff]),
        vec![0x78, 0x56, 0x34, 0x12, 0xff, 0xff, 0x10, 0x00]
    );
    assert!(u16s_to_le_bytes(&vec![]).is_empty());
    assert!(u32s_to_le_bytes(&vec![]).is_empty());
}

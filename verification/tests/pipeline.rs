use cpplumber::binary_scanner::find_leaks_in_binary_file;
use cpplumber::extraction::extract_artifacts_from_source_files;
use cpplumber::information_leak::{
    ConfirmedLeakSet, ConfirmedLeakWithUniqueLocation, ConfirmedLeakWithUniqueValue,
    LeakedDataType, WideCharMode,
};
use cpplumber::reporting::{dump_confirmed_leaks_as_text, exit_code};
use cpplumber::suppressions::{
    filter_suppressed_artifacts_by_origin, filter_suppressed_artifacts_by_value, Suppressions,
};
use cpplumber::translation_unit::{Entity, EntityKind, EntityLocation};

fn entity(kind: EntityKind, name: &str, file: &str, line: u32, children: Vec<Entity>) -> Entity {
    Entity {
        kind,
        display_name: Some(name.to_string()),
        location: Some(EntityLocation { file: Some(file.to_string()), line }),
        in_system_header: false,
        children,
    }
}

fn program() -> Vec<Entity> {
    let header = "/project/header.h";
    let main = "/project/main.cc";
    let mut stdio = entity(
        EntityKind::Other,
        "stdio",
        "/usr/include/stdio.h",
        1,
        vec![entity(EntityKind::StringLiteral, "\"from_libc\"", "/usr/include/stdio.h", 40, vec![])],
    );
    stdio.in_system_header = true;
    vec![entity(
        EntityKind::Other,
        "main.cc",
        main,
        0,
        vec![
            stdio,
            entity(EntityKind::StringLiteral, "\"included_string_literal\"", header, 3, vec![]),
            entity(EntityKind::StringLiteral, "\"generated\"", "/project/gen/tables.h", 1, vec![]),
            entity(EntityKind::StringLiteral, "\"c_string\"", main, 10, vec![]),
            entity(EntityKind::StringLiteral, "L\"wide\"", main, 11, vec![]),
            entity(EntityKind::StructDecl, "MyStruct", main, 20, vec![]),
            entity(EntityKind::ClassDecl, "MyClass", main, 21, vec![]),
            entity(EntityKind::StringLiteral, "\"def_test\"", main, 30, vec![]),
            entity(EntityKind::StringLiteral, "\"ab\"", main, 31, vec![]),
        ],
    )]
}

fn binary() -> Vec<u8> {
    let mut binary = vec![0x7f, b'E', b'L', b'F', 2, 1, 1, 0];
    binary.extend_from_slice(b"included_string_literal\0c_string\0def_test\0from_libc\0ab\0");
    binary.extend_from_slice(b"generated\0");
    binary.extend_from_slice(&[b'w', 0, 0, 0, b'i', 0, 0, 0, b'd', 0, 0, 0, b'e', 0, 0, 0]);
    binary.extend_from_slice(b"8MyStruct\07MyClass\0_ZTS8MyStruct\0");
    binary
}

#[test]
fn leaks_of_a_small_program_are_reported() {
    let suppressions =
        Some(Suppressions::new(&vec!["*/gen/*".to_string()], vec!["c_string".to_string()]));
    let leaks = extract_artifacts_from_source_files(
        &program(),
        true,
        false,
        false,
        4,
        Some(WideCharMode::Unix),
    );
    let leaks = filter_suppressed_artifacts_by_origin(leaks, &suppressions);
    let leaks = filter_suppressed_artifacts_by_value(leaks, &suppressions);
    let data: Vec<&str> = leaks.iter().map(|leak| leak.data.as_str()).collect();
    assert_eq!(data, vec!["included_string_literal", "wide", "MyStruct", "MyClass", "def_test"]);

    let binary = binary();
    let confirmed: ConfirmedLeakSet<ConfirmedLeakWithUniqueLocation> =
        find_leaks_in_binary_file("/project/a.out", &binary, leaks);
    assert_eq!(exit_code(&confirmed), 1);
    assert_eq!(
        dump_confirmed_leaks_as_text(&confirmed),
        "\"included_string_literal\" (string literal) leaked at offset 0x8 in \"/project/a.out\" [declared at /project/header.h:3]\n\
         \"wide\" (string literal) leaked at offset 0x49 in \"/project/a.out\" [declared at /project/main.cc:11]\n\
         \"MyStruct\" (struct name) leaked at offset 0x5a in \"/project/a.out\" [declared at /project/main.cc:20]\n\
         \"MyStruct\" (struct name) leaked at offset 0x71 in \"/project/a.out\" [declared at /project/main.cc:20]\n\
         \"MyClass\" (class name) leaked at offset 0x64 in \"/project/a.out\" [declared at /project/main.cc:21]\n\
         \"def_test\" (string literal) leaked at offset 0x29 in \"/project/a.out\" [declared at /project/main.cc:30]\n"
    );
}

#[test]
fn leaks_of_a_small_program_by_value() {
    let leaks = extract_artifacts_from_source_files(&program(), false, false, true, 0, None);
    let data: Vec<&str> = leaks.iter().map(|leak| leak.data.as_str()).collect();
    assert_eq!(
        data,
        vec![
            "from_libc",
            "included_string_literal",
            "generated",
            "c_string",
            "wide",
            "def_test",
            "ab"
        ]
    );
    let binary = binary();
    let confirmed: ConfirmedLeakSet<ConfirmedLeakWithUniqueValue> =
        find_leaks_in_binary_file("/project/a.out", &binary, leaks);
    let found: Vec<(String, LeakedDataType, u64)> = confirmed
        .into_vec()
        .into_iter()
        .map(|leak| (leak.data.to_string(), leak.data_type, leak.location.binary.offset))
        .collect();
    assert_eq!(
        found,
        vec![
            ("ab".to_string(), LeakedDataType::StringLiteral, 0x3c),
            ("c_string".to_string(), LeakedDataType::StringLiteral, 0x20),
            ("def_test".to_string(), LeakedDataType::StringLiteral, 0x29),
            ("from_libc".to_string(), LeakedDataType::StringLiteral, 0x32),
            ("generated".to_string(), LeakedDataType::StringLiteral, 0x3f),
            ("included_string_literal".to_string(), LeakedDataType::StringLiteral, 0x8),
            ("wide".to_string(), LeakedDataType::StringLiteral, 0x49),
        ]
    );
}

#[test]
fn a_binary_without_artifacts_has_no_leak() {
    let leaks = extract_artifacts_from_source_files(&program(), true, false, false, 4, None);
    let confirmed: ConfirmedLeakSet<ConfirmedLeakWithUniqueLocation> =
        find_leaks_in_binary_file("/project/stripped", b"\x7fELF\0\0\0\0nothing of interest", leaks);
    assert!(confirmed.is_empty());
    assert_eq!(exit_code(&confirmed), 0);
    assert_eq!(dump_confirmed_leaks_as_text(&confirmed), "");
}

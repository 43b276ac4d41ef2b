use cpplumber::compilation_database::CompileCommand;
use cpplumber::extraction::{
    entity_kind_filter, extract_artifacts_from_source_files,
    extract_artifacts_from_translation_unit, parse_target,
};
use cpplumber::information_leak::potential_leak::{ConversionError, PotentialLeak};
use cpplumber::information_leak::string_literal::{LiteralError, WideCharMode};
use cpplumber::information_leak::LeakedDataType;
use cpplumber::translation_unit::{gather_entities_by_kind, Entity, EntityKind, EntityLocation};
use std::sync::Arc;

fn entity(kind: EntityKind, name: &str, line: u32, children: Vec<Entity>) -> Entity {
    Entity {
        kind,
        display_name: Some(name.to_string()),
        location: Some(EntityLocation { file: Some("/src/main.cc".to_string()), line }),
        in_system_header: false,
        children,
    }
}

fn literal(name: &str, line: u32) -> Entity {
    entity(EntityKind::StringLiteral, name, line, vec![])
}

fn in_system_header(mut entity: Entity) -> Entity {
    entity.in_system_header = true;
    entity
}

/// A translation unit with the artifacts of a small C++ program.
fn translation_unit() -> Entity {
    entity(
        EntityKind::Other,
        "main.cc",
        0,
        vec![
            entity(
                EntityKind::Other,
                "included",
                1,
                vec![literal("\"included_string_literal\"", 2)],
            ),
            literal("\"c_string\"", 10),
            literal("u8\"utf8_string\"", 11),
            literal("L\"wide_string\"", 12),
            literal("u\"utf16_string\"", 13),
            literal("U\"utf32_string\"", 14),
            literal("\"raw_string\"", 15),
            literal("u8\"raw_utf8_string\"", 16),
            literal("L\"wide_raw_string\"", 17),
            literal("u\"raw_utf16_string\"", 18),
            literal("U\"raw_utf32_string\"", 19),
            literal("\"def_test\"", 20),
            literal("\"concatenated_string\"", 21),
            literal("\"multiline\\nstring\"", 22),
            literal(
                "\"'\\\"\\n\\t\\a\\b|\\220|\\220|\\351\\246\\231|\\351\\246\\231|\\360\\237\\230\\202\"",
                24,
            ),
            entity(
                EntityKind::StructDecl,
                "MyStruct",
                30,
                vec![entity(EntityKind::StructDecl, "", 30, vec![])],
            ),
            entity(
                EntityKind::ClassDecl,
                "MyClass",
                31,
                vec![entity(EntityKind::ClassDecl, "", 31, vec![])],
            ),
            entity(
                EntityKind::Other,
                "main",
                40,
                vec![
                    literal("\"%s\\n\"", 41),
                    literal("\"preprocessor_string_literal\"", 41),
                    literal("L\"%s\\n\"", 42),
                    literal("\"preprocessor_string_literal\"", 42),
                    literal("\"%s\\n\"", 43),
                ],
            ),
        ],
    )
}

fn data_of(leaks: &Vec<PotentialLeak>) -> Vec<String> {
    leaks.iter().map(|leak| leak.data.to_string()).collect()
}

#[test]
fn extract_artifacts_from_source_files_file_list() {
    let units = vec![translation_unit()];
    let potential_leaks = extract_artifacts_from_source_files(&units, true, false, false, 0, None);

    let expected_string_literals = vec![
        "included_string_literal",
        "c_string",
        "utf8_string",
        "wide_string",
        "utf16_string",
        "utf32_string",
        "raw_string",
        "raw_utf8_string",
        "wide_raw_string",
        "raw_utf16_string",
        "raw_utf32_string",
        "def_test",
        "concatenated_string",
        r#"multiline\nstring"#,
        r#"'\"\n\t\a\b|\220|\220|\351\246\231|\351\246\231|\360\237\230\202"#,
        "MyStruct",
        "",
        "MyClass",
        "",
        r#"%s\n"#,
        "preprocessor_string_literal",
        r#"%s\n"#,
        "preprocessor_string_literal",
        r#"%s\n"#,
    ];

    // Check extracted string literals
    assert!(potential_leaks.iter().enumerate().all(|(i, leak)| {
        println!("{:?}", leak.data);
        *leak.data == expected_string_literals[i]
    }));
    assert_eq!(expected_string_literals.len(), potential_leaks.len());
}

#[test]
fn extract_artifacts_with_minimum_leak_size() {
    let units = vec![translation_unit()];
    let potential_leaks = extract_artifacts_from_source_files(&units, true, false, false, 4, None);

    // r#""%s\n""# should be removed
    let expected_string_literals = vec![
        // main.cc
        "included_string_literal",
        "c_string",
        "utf8_string",
        "wide_string",
        "utf16_string",
        "utf32_string",
        "raw_string",
        "raw_utf8_string",
        "wide_raw_string",
        "raw_utf16_string",
        "raw_utf32_string",
        "def_test",
        "concatenated_string",
        r#"multiline\nstring"#,
        r#"'\"\n\t\a\b|\220|\220|\351\246\231|\351\246\231|\360\237\230\202"#,
        "MyStruct",
        "MyClass",
        "preprocessor_string_literal",
        r#"%s\n"#,
        "preprocessor_string_literal",
    ];

    // Check extracted string literals
    assert!(potential_leaks.iter().enumerate().all(|(i, leak)| {
        println!("{:?}", leak.data);
        *leak.data == expected_string_literals[i]
    }));
    assert_eq!(expected_string_literals.len(), potential_leaks.len());
}

#[test]
fn minimum_size_filter() {
    // "%s\n" is decoded to three bytes, "ab" to two
    let unit = entity(
        EntityKind::Other,
        "tu",
        0,
        vec![literal("\"%s\\n\"", 1), literal("\"ab\"", 2), literal("\"%s\\n!\"", 3)],
    );
    let leaks = extract_artifacts_from_translation_unit(&unit, true, false, false, 3, None);
    assert_eq!(data_of(&leaks), vec![r"%s\n".to_string(), r"%s\n!".to_string()]);
    assert_eq!(leaks[0].bytes, b"%s\n");
    let leaks = extract_artifacts_from_translation_unit(&unit, true, false, false, 4, None);
    assert_eq!(data_of(&leaks), vec![r"%s\n!".to_string()]);
    assert_eq!(leaks[0].bytes, b"%s\n!");
    let leaks = extract_artifacts_from_translation_unit(&unit, true, false, false, 2, None);
    assert_eq!(leaks.len(), 3);
}

#[test]
fn every_extracted_pattern_has_the_minimum_size() {
    let units = vec![translation_unit(), translation_unit()];
    for minimum in [0usize, 1, 3, 4, 8, 9, 13, 100] {
        let leaks = extract_artifacts_from_source_files(
            &units,
            false,
            false,
            false,
            minimum,
            Some(WideCharMode::Windows),
        );
        assert!(leaks.iter().all(|leak| leak.bytes.len() >= minimum));
    }
    // The size is that of the pattern, not of the text: a wide literal of
    // three characters has twelve bytes
    let unit = entity(EntityKind::Other, "tu", 0, vec![literal("L\"abc\"", 1), literal("\"abc\"", 2)]);
    let leaks = extract_artifacts_from_translation_unit(&unit, true, false, false, 4, None);
    assert_eq!(leaks.len(), 1);
    assert_eq!(leaks[0].bytes.len(), 12);
}

#[test]
fn struct_and_class_names() {
    let unit = entity(
        EntityKind::Other,
        "tu",
        0,
        vec![
            entity(EntityKind::StructDecl, "MyStruct", 3, vec![]),
            entity(EntityKind::ClassDecl, "MyClass", 4, vec![]),
        ],
    );
    let leaks = extract_artifacts_from_translation_unit(&unit, true, false, false, 4, None);
    assert_eq!(leaks.len(), 2);
    assert_eq!(*leaks[0].data, "MyStruct");
    assert_eq!(leaks[0].data_type, LeakedDataType::StructName);
    assert_eq!(leaks[0].bytes, b"MyStruct");
    assert_eq!(leaks[0].declaration_metadata.line, 3);
    assert_eq!(*leaks[1].data, "MyClass");
    assert_eq!(leaks[1].data_type, LeakedDataType::ClassName);
    assert_eq!(leaks[1].bytes, b"MyClass");
    assert_eq!(leaks[1].declaration_metadata.file, "/src/main.cc");
}

#[test]
fn ignore_flags_select_the_kinds() {
    assert_eq!(
        entity_kind_filter(false, false),
        vec![EntityKind::StringLiteral, EntityKind::StructDecl, EntityKind::ClassDecl]
    );
    assert_eq!(entity_kind_filter(true, false), vec![EntityKind::StructDecl, EntityKind::ClassDecl]);
    assert_eq!(entity_kind_filter(false, true), vec![EntityKind::StringLiteral]);
    assert_eq!(entity_kind_filter(true, true), Vec::<EntityKind>::new());

    let unit = translation_unit();
    let names = extract_artifacts_from_translation_unit(&unit, true, true, false, 1, None);
    assert_eq!(data_of(&names), vec!["MyStruct".to_string(), "MyClass".to_string()]);
    let literals = extract_artifacts_from_translation_unit(&unit, true, false, true, 1, None);
    assert_eq!(literals.len(), 20);
    assert!(literals.iter().all(|leak| leak.data_type == LeakedDataType::StringLiteral));
    let nothing = extract_artifacts_from_translation_unit(&unit, true, true, true, 0, None);
    assert!(nothing.is_empty());
}

#[test]
fn gather_walks_depth_first_and_prunes_system_headers() {
    let tree = entity(
        EntityKind::StructDecl,
        "root",
        1,
        vec![
            entity(
                EntityKind::Other,
                "a",
                2,
                vec![literal("\"a1\"", 3), entity(EntityKind::StructDecl, "a2", 4, vec![])],
            ),
            in_system_header(entity(
                EntityKind::StructDecl,
                "sys",
                5,
                vec![literal("\"below_sys\"", 6)],
            )),
            entity(
                EntityKind::StringLiteral,
                "\"b\"",
                7,
                vec![in_system_header(literal("\"sys_leaf\"", 8)), literal("\"b1\"", 9)],
            ),
        ],
    );
    let filter = [EntityKind::StringLiteral, EntityKind::StructDecl];
    let names = |entities: Vec<&Entity>| -> Vec<String> {
        entities.iter().map(|e| e.display_name.clone().unwrap()).collect()
    };
    assert_eq!(
        names(gather_entities_by_kind(&tree, &filter, true)),
        vec!["root", "\"a1\"", "a2", "\"b\"", "\"b1\""]
    );
    assert_eq!(
        names(gather_entities_by_kind(&tree, &filter, false)),
        vec!["root", "\"a1\"", "a2", "sys", "\"below_sys\"", "\"b\"", "\"sys_leaf\"", "\"b1\""]
    );
    assert_eq!(
        names(gather_entities_by_kind(&tree, &[EntityKind::ClassDecl], false)),
        Vec::<String>::new()
    );
    // The root itself is gathered even where it lies in a system header
    let root = in_system_header(literal("\"root\"", 1));
    assert_eq!(names(gather_entities_by_kind(&root, &filter, true)), vec!["\"root\""]);
}

#[test]
fn units_are_extracted_one_after_the_other() {
    let first = entity(EntityKind::Other, "a", 0, vec![literal("\"first\"", 1)]);
    let second = entity(EntityKind::Other, "b", 0, vec![literal("\"second\"", 1)]);
    let leaks = extract_artifacts_from_source_files(&vec![first, second], true, false, false, 4, None);
    assert_eq!(data_of(&leaks), vec!["first".to_string(), "second".to_string()]);
    let none = extract_artifacts_from_source_files(&vec![], true, false, false, 4, None);
    assert!(none.is_empty());
}

#[test]
fn potential_leak_of_a_string_literal() {
    let leak = PotentialLeak::try_from(&literal("u\"a\\tb\"", 12), None).unwrap();
    assert_eq!(leak.data_type, LeakedDataType::StringLiteral);
    assert_eq!(*leak.data, "a\\tb");
    assert_eq!(leak.bytes, vec![0x61, 0, 0x09, 0, 0x62, 0]);
    assert_eq!(
        *leak.declaration_metadata,
        cpplumber::information_leak::leak_location::SourceLocation {
            file: "/src/main.cc".to_string(),
            line: 12
        }
    );
    let wide = PotentialLeak::try_from(&literal("L\"hi\"", 1), Some(WideCharMode::Windows)).unwrap();
    assert_eq!(wide.bytes, vec![0x68, 0, 0x69, 0]);
    let wide = PotentialLeak::try_from(&literal("L\"hi\"", 1), Some(WideCharMode::Unix)).unwrap();
    assert_eq!(wide.bytes, vec![0x68, 0, 0, 0, 0x69, 0, 0, 0]);
}

#[test]
fn potential_leak_errors() {
    let mut no_location = literal("\"abc\"", 1);
    no_location.location = None;
    assert_eq!(
        PotentialLeak::try_from(&no_location, None).unwrap_err(),
        ConversionError::MissingLocation
    );
    let mut no_file = literal("\"abc\"", 1);
    no_file.location = Some(EntityLocation { file: None, line: 1 });
    assert_eq!(PotentialLeak::try_from(&no_file, None).unwrap_err(), ConversionError::MissingFile);
    let mut no_name = literal("\"abc\"", 1);
    no_name.display_name = None;
    assert_eq!(
        PotentialLeak::try_from(&no_name, None).unwrap_err(),
        ConversionError::MissingDisplayName
    );
    let other = entity(EntityKind::Other, "main", 1, vec![]);
    assert_eq!(
        PotentialLeak::try_from(&other, None).unwrap_err(),
        ConversionError::UnsupportedKind
    );
    assert_eq!(
        PotentialLeak::try_from(&literal("R\"(x)\"", 1), None).unwrap_err(),
        ConversionError::Literal(LiteralError::UnknownPrefix)
    );
    assert_eq!(
        PotentialLeak::try_from(&literal("\"x\\\"", 1), None).unwrap_err(),
        ConversionError::Literal(LiteralError::BadEscapeSequence)
    );
    // A missing location is reported before anything else
    let mut nothing = entity(EntityKind::Other, "x", 1, vec![]);
    nothing.location = None;
    nothing.display_name = None;
    assert_eq!(
        PotentialLeak::try_from(&nothing, None).unwrap_err(),
        ConversionError::MissingLocation
    );
    // A struct without a name has the empty name
    let mut nameless = entity(EntityKind::StructDecl, "", 4, vec![]);
    nameless.display_name = None;
    let leak = PotentialLeak::try_from(&nameless, None).unwrap();
    assert_eq!(*leak.data, "");
    assert!(leak.bytes.is_empty());
}

#[test]
fn conversion_error_messages() {
    assert_eq!(ConversionError::MissingLocation.message(), "Failed to get entity's location");
    assert_eq!(ConversionError::MissingFile.message(), "Failed to get entity's file location");
    assert_eq!(
        ConversionError::MissingDisplayName.message(),
        "Failed to get entity's display name"
    );
    assert_eq!(ConversionError::UnsupportedKind.message(), "Unsupported entity kind");
    assert_eq!(
        ConversionError::Literal(LiteralError::Empty).message(),
        "Empty string literal"
    );
}

#[test]
fn entities_that_give_no_leak_are_passed_over() {
    let mut no_location = literal("\"lost_literal\"", 1);
    no_location.location = None;
    let unit = entity(
        EntityKind::Other,
        "tu",
        0,
        vec![no_location, literal("\"bad\\\"", 2), literal("\"kept_literal\"", 3)],
    );
    let leaks = extract_artifacts_from_translation_unit(&unit, true, false, false, 0, None);
    assert_eq!(data_of(&leaks), vec!["kept_literal".to_string()]);
}

#[test]
fn potential_leaks_are_equal_by_data() {
    let a = PotentialLeak::try_from(&literal("\"same\"", 1), None).unwrap();
    let b = PotentialLeak::try_from(&literal("u\"same\"", 2), None).unwrap();
    let c = PotentialLeak::try_from(&literal("\"other\"", 1), None).unwrap();
    assert!(a == b);
    assert!(a != c);
}

#[test]
fn parse_target_is_empty_when_arguments_name_the_file() {
    let command = CompileCommand {
        filename: "/src/main.cc".to_string(),
        arguments: Arc::new(vec!["-c".to_string(), "/src/main.cc".to_string()]),
    };
    assert_eq!(parse_target(&command, true), "");
    assert_eq!(parse_target(&command, false), "/src/main.cc");
}

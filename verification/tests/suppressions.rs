use std::sync::Arc;

use cpplumber::compilation_database::CompileCommand;
use cpplumber::information_leak::leak_location::SourceLocation;
use cpplumber::information_leak::potential_leak::PotentialLeak;
use cpplumber::information_leak::LeakedDataType;
use cpplumber::suppressions::{
    filter_suppressed_artifacts_by_origin, filter_suppressed_artifacts_by_value,
    filter_suppressed_files, is_suppressed_artifact, is_suppressed_file, Suppressions,
};

fn texts(values: &[&str]) -> Vec<String> {
    values.iter().map(|value| value.to_string()).collect()
}

fn leak(data: &str, file: &str) -> PotentialLeak {
    PotentialLeak {
        data_type: LeakedDataType::StringLiteral,
        data: Arc::new(data.to_string()),
        bytes: data.as_bytes().to_vec(),
        declaration_metadata: Arc::new(SourceLocation { file: file.to_string(), line: 1 }),
    }
}

fn command(file: &str) -> CompileCommand {
    CompileCommand { filename: file.to_string(), arguments: Arc::new(vec![]) }
}

#[test]
fn parse_suppressions_file_files_and_artifacts() {
    let suppressions = Suppressions::new(
        &texts(&["*\\file2.cc"]),
        texts(&["\"c_string\"", "U\"utf32_string\""]),
    );

    // Files
    assert_eq!(suppressions.files.len(), 1);
    assert_eq!(suppressions.files[0], glob::Pattern::new("*\\file2.cc").unwrap());

    // Artifacts
    assert_eq!(suppressions.artifacts.len(), 2);
    assert_eq!(suppressions.artifacts[0], "\"c_string\"");
    assert_eq!(suppressions.artifacts[1], "U\"utf32_string\"");
}

#[test]
fn malformed_patterns_are_dropped() {
    let suppressions = Suppressions::new(
        &texts(&["*.h", "a**b", "[", "src/**/gen_*.cc", "***", "file?.c"]),
        vec![],
    );
    assert_eq!(suppressions.file_patterns(), texts(&["*.h", "src/**/gen_*.cc", "file?.c"]));
    assert_eq!(suppressions.files.len(), 3);
    let none = Suppressions::new(&vec![], vec![]);
    assert!(none.files.is_empty());
    assert!(none.file_patterns().is_empty());
}

#[test]
fn file_patterns_follow_shell_wildcards() {
    let suppressions =
        Suppressions::new(&texts(&["/src/gen/*", "*_test.c?", "/src/[ab].h"]), vec![]);
    assert!(suppressions.matches_file("/src/gen/tables.cc"));
    assert!(suppressions.matches_file("/any/where/unit_test.cc"));
    assert!(suppressions.matches_file("/src/a.h"));
    assert!(!suppressions.matches_file("/src/c.h"));
    assert!(!suppressions.matches_file("/src/main.cc"));
    assert!(!suppressions.matches_file(""));

    let some = Some(suppressions);
    assert!(is_suppressed_file(&some, "/src/b.h"));
    assert!(!is_suppressed_file(&some, "/src/main.cc"));
    assert!(!is_suppressed_file(&None, "/src/b.h"));
}

#[test]
fn suppressed_files_are_dropped_from_the_commands() {
    let suppressions = Some(Suppressions::new(&texts(&["*/third_party/*", "*.S"]), vec![]));
    let commands = vec![
        command("/src/main.cc"),
        command("/src/third_party/zlib.c"),
        command("/src/boot.S"),
        command("/src/util.cc"),
    ];
    let kept = filter_suppressed_files(commands, &suppressions);
    let names: Vec<&str> = kept.iter().map(|cmd| cmd.filename.as_str()).collect();
    assert_eq!(names, vec!["/src/main.cc", "/src/util.cc"]);

    let commands = vec![command("/src/boot.S"), command("/src/main.cc")];
    let kept = filter_suppressed_files(commands, &None);
    assert_eq!(kept.len(), 2);
    assert_eq!(kept[0].filename, "/src/boot.S");
}

#[test]
fn artifacts_of_suppressed_headers_are_dropped() {
    let suppressions = Some(Suppressions::new(&texts(&["*/vendor/*"]), texts(&["x"])));
    let leaks = vec![
        leak("from_main", "/src/main.cc"),
        leak("from_vendor", "/src/vendor/lib.h"),
        leak("x", "/src/other.cc"),
    ];
    let kept = filter_suppressed_artifacts_by_origin(leaks, &suppressions);
    let data: Vec<&str> = kept.iter().map(|leak| leak.data.as_str()).collect();
    assert_eq!(data, vec!["from_main", "x"]);
    let kept = filter_suppressed_artifacts_by_origin(vec![leak("a", "/src/vendor/a.h")], &None);
    assert_eq!(kept.len(), 1);
}

#[test]
fn suppression_by_value() {
    let suppressions = Some(Suppressions::new(&vec![], texts(&["c_string"])));
    let leaks = vec![leak("c_string", "/src/main.cc"), leak("def_test", "/src/main.cc")];
    let kept = filter_suppressed_artifacts_by_value(leaks, &suppressions);
    assert_eq!(kept.len(), 1);
    assert_eq!(*kept[0].data, "def_test");
}

#[test]
fn suppression_by_value_is_exact() {
    let suppressions = Some(Suppressions::new(&texts(&["c_*"]), texts(&["c_string", ""])));
    let leaks = vec![
        leak("c_string_2", "/a"),
        leak("C_STRING", "/a"),
        leak("c_string", "/a"),
        leak("", "/a"),
        leak("c_strin", "/a"),
    ];
    let kept = filter_suppressed_artifacts_by_value(leaks, &suppressions);
    let data: Vec<&str> = kept.iter().map(|leak| leak.data.as_str()).collect();
    assert_eq!(data, vec!["c_string_2", "C_STRING", "c_strin"]);
    assert!(is_suppressed_artifact(&suppressions, &"c_string".to_string()));
    assert!(!is_suppressed_artifact(&suppressions, &"c_".to_string()));
    assert!(!is_suppressed_artifact(&None, &"c_string".to_string()));
    let kept = filter_suppressed_artifacts_by_value(vec![leak("c_string", "/a")], &None);
    assert_eq!(kept.len(), 1);
}

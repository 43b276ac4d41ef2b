use std::sync::Arc;

use cpplumber::cli::CpplumberOptions;
use cpplumber::compilation_database::compile_commands::CompileCommandsDatabase;
use cpplumber::compilation_database::file_list::FileListDatabase;
use cpplumber::compilation_database::{
    generate_compilation_database, generate_manual_arguments, CompilationDatabase,
    CompileCommand, ProjectConfiguration,
};
use cpplumber::compilation_db::{
    get_file_paths_from_compile_database, resolve_file_path, CommandObject,
};

fn texts(values: &[&str]) -> Vec<String> {
    values.iter().map(|value| value.to_string()).collect()
}

fn recorded_commands() -> Vec<CompileCommand> {
    let arguments = |object: &str, file: &str| {
        texts(&[
            "/usr/bin/clang++",
            "--driver-mode=g++",
            "-Irelative",
            "-DSOMEDEF=With spaces, quotes.",
            "-c",
            "-o",
            object,
            file,
        ])
    };
    vec![
        CompileCommand {
            filename: "/project/tests/data/compile_commands/file1.cc".to_string(),
            arguments: Arc::new(arguments("file1.o", "tests/data/compile_commands/file1.cc")),
        },
        CompileCommand {
            filename: "/project/tests/data/compile_commands/file2.cc".to_string(),
            arguments: Arc::new(arguments("file2.o", "tests/data/compile_commands/file2.cc")),
        },
    ]
}

#[test]
fn compile_commands_is_file_path_in_arguments() {
    let database = CompileCommandsDatabase::new(recorded_commands());

    // Present in arguments
    assert!(database.is_file_path_in_arguments());
}

#[test]
fn compile_commands_get_all_compile_commands() {
    let database = CompileCommandsDatabase::new(recorded_commands());

    let compile_commands = database.get_all_compile_commands();
    // Result is not empty
    assert_eq!(compile_commands.len(), 2);

    // File #1
    // Check `filename` value
    assert_eq!(compile_commands[0].filename, "/project/tests/data/compile_commands/file1.cc");
    // Check `arguments` value
    assert_eq!(
        *compile_commands[0].arguments,
        vec![
            "/usr/bin/clang++".to_string(),
            "--driver-mode=g++".to_string(),
            "-Irelative".to_string(),
            "-DSOMEDEF=With spaces, quotes.".to_string(),
            "-c".to_string(),
            "-o".to_string(),
            "file1.o".to_string(),
            "tests/data/compile_commands/file1.cc".to_string(),
        ]
    );

    // File #2
    // Check `filename` value
    assert_eq!(compile_commands[1].filename, "/project/tests/data/compile_commands/file2.cc");
    // Check `arguments` value
    assert_eq!(
        *compile_commands[1].arguments,
        vec![
            "/usr/bin/clang++".to_string(),
            "--driver-mode=g++".to_string(),
            "-Irelative".to_string(),
            "-DSOMEDEF=With spaces, quotes.".to_string(),
            "-c".to_string(),
            "-o".to_string(),
            "file2.o".to_string(),
            "tests/data/compile_commands/file2.cc".to_string(),
        ]
    );
}

#[test]
fn file_list_is_file_path_in_arguments() {
    let database = FileListDatabase::new(&[], vec![]);

    // Not present in arguments
    assert!(!database.is_file_path_in_arguments());
}

#[test]
fn file_list_get_all_compile_commands_empty() {
    let database = FileListDatabase::new(&[], vec![]);
    // Result is empty
    assert!(database.get_all_compile_commands().is_empty());
}

#[test]
fn file_list_get_all_compile_commands() {
    let root_dir_path = "/project/tests/data/main/file_list_proj";
    let arguments = vec!["arg1".to_string(), "arg2".to_string()];
    let database = FileListDatabase::new(
        &[format!("{}/main.cc", root_dir_path), format!("{}/header.h", root_dir_path)],
        arguments.clone(),
    );

    let compile_commands = database.get_all_compile_commands();
    // Result is not empty
    assert_eq!(compile_commands.len(), 2);

    // File #1
    // Check `filename` value
    assert_eq!(compile_commands[0].filename, format!("{}/header.h", root_dir_path));
    // Check `arguments` value
    assert_eq!(*compile_commands[0].arguments, arguments);

    // File #2
    // Check `filename` value
    assert_eq!(compile_commands[1].filename, format!("{}/main.cc", root_dir_path));
    // Check `arguments` value
    assert_eq!(*compile_commands[1].arguments, arguments);
}

#[test]
fn file_list_is_a_sorted_set() {
    let database = FileListDatabase::new(
        &texts(&["/b.cc", "/a.cc", "/b.cc", "/c/d.cc", "/a.cc", "/a", "/B.cc"]),
        texts(&["-O2"]),
    );
    let names: Vec<String> =
        database.get_all_compile_commands().into_iter().map(|cmd| cmd.filename).collect();
    assert_eq!(names, texts(&["/B.cc", "/a", "/a.cc", "/b.cc", "/c/d.cc"]));
}

#[test]
fn manual_arguments_put_include_directories_first() {
    assert_eq!(
        generate_manual_arguments(&texts(&["include", "/usr/inc"]), &texts(&["DEF_TEST", "N=1"])),
        texts(&["-Iinclude", "-I/usr/inc", "-DDEF_TEST", "-DN=1"])
    );
    assert_eq!(generate_manual_arguments(&[], &texts(&["X"])), texts(&["-DX"]));
    assert_eq!(generate_manual_arguments(&texts(&[""]), &[]), texts(&["-I"]));
    assert!(generate_manual_arguments(&[], &[]).is_empty());
}

#[test]
fn manual_configuration_gives_a_file_list() {
    let sources = texts(&["/src/main.cc", "/src/a.cc", "/src/main.cc"]);
    let includes = texts(&["inc"]);
    let definitions = texts(&["DEF_TEST"]);
    let database = generate_compilation_database(ProjectConfiguration::Manual {
        source_paths: &sources,
        include_directories: &includes,
        compile_definitions: &definitions,
    });
    assert!(!database.is_file_path_in_arguments());
    let commands = database.get_all_compile_commands();
    assert_eq!(commands.len(), 2);
    assert_eq!(commands[0].filename, "/src/a.cc");
    assert_eq!(commands[1].filename, "/src/main.cc");
    assert_eq!(*commands[0].arguments, texts(&["-Iinc", "-DDEF_TEST"]));
    assert_eq!(*commands[1].arguments, texts(&["-Iinc", "-DDEF_TEST"]));
}

#[test]
fn compilation_database_configuration_keeps_the_commands() {
    let database = generate_compilation_database(ProjectConfiguration::CompilationDatabase {
        compile_commands: recorded_commands(),
    });
    assert!(database.is_file_path_in_arguments());
    let commands = database.get_all_compile_commands();
    assert_eq!(commands.len(), 2);
    assert_eq!(commands[1].filename, "/project/tests/data/compile_commands/file2.cc");
    assert_eq!(commands[0].arguments.len(), 8);
    assert_eq!(commands[0].duplicate().filename, commands[0].filename);
}

fn object(directory: &str, file: &str) -> CommandObject {
    CommandObject {
        directory: directory.to_string(),
        file: file.to_string(),
        arguments: None,
        command: Some("cc -c".to_string()),
        output: None,
    }
}

#[test]
fn relative_files_are_joined_to_their_directory() {
    let objects = vec![
        object("/build", "src/main.cc"),
        object("/build", "/abs/file.cc"),
        object("/build/", "util.cc"),
    ];
    let expected: Vec<String> = vec![
        std::path::Path::new("/build").join("src/main.cc").to_str().unwrap().to_string(),
        "/abs/file.cc".to_string(),
        std::path::Path::new("/build/").join("util.cc").to_str().unwrap().to_string(),
    ];
    assert_eq!(get_file_paths_from_compile_database(&objects), expected);
    assert_eq!(expected[0], "/build/src/main.cc");
    assert_eq!(expected[2], "/build/util.cc");
    assert!(get_file_paths_from_compile_database(&vec![]).is_empty());
}

#[test]
fn resolve_file_path_follows_the_absolute_flag() {
    let entry = object("/build", "main.cc");
    assert_eq!(resolve_file_path(&entry, true), "main.cc");
    assert_eq!(
        resolve_file_path(&entry, false),
        std::path::Path::new("/build").join("main.cc").to_str().unwrap()
    );
}

#[test]
fn options_default_to_a_minimum_size_of_four() {
    let mut options = CpplumberOptions {
        binary_file_path: "a.out".to_string(),
        include_directories: vec![],
        compile_definitions: vec![],
        project_file_path: None,
        suppressions_list: None,
        ignore_multiple_locations: false,
        report_system_headers: false,
        ignore_string_literals: false,
        ignore_struct_names: false,
        minimum_leak_size: None,
        json_output: false,
        source_path_globs: vec![],
    };
    assert_eq!(options.effective_minimum_leak_size(), 4);
    assert!(options.ignores_system_headers());
    assert!(!options.uses_compilation_database());
    options.minimum_leak_size = Some(0);
    options.report_system_headers = true;
    options.project_file_path = Some("compile_commands.json".to_string());
    assert_eq!(options.effective_minimum_leak_size(), 0);
    assert!(!options.ignores_system_headers());
    assert!(options.uses_compilation_database());
}

//! The compile commands of a project: which source files are compiled, and
//! with which arguments.

pub mod compile_commands;
pub mod file_list;

use crate::byte_order::{text_less, texts};
use crate::information_leak::leak_location::share;
pub use compile_commands::CompileCommandsDatabase;
pub use file_list::FileListDatabase;
use std::sync::Arc;
use vstd::prelude::*;

verus! {

/// How a project describes what it compiles.
pub enum ProjectConfiguration<'p> {
    /// By the compile commands that a compilation database holds
    CompilationDatabase { compile_commands: CompileCommands },
    /// By a list of source files, which are all compiled alike
    Manual {
        source_paths: &'p [String],
        include_directories: &'p [String],
        compile_definitions: &'p [String],
    },
}

/// A source file and the arguments it is compiled with.
#[derive(Debug)]
pub struct CompileCommand {
    pub filename: String,
    pub arguments: Arc<Vec<String>>,
}

pub type CompileCommands = Vec<CompileCommand>;

/// A compile command as plain values.
pub struct CompileCommandView {
    pub filename: Seq<char>,
    pub arguments: Seq<Seq<char>>,
}

impl View for CompileCommand {
    type V = CompileCommandView;

    open spec fn view(&self) -> CompileCommandView {
        CompileCommandView { filename: self.filename@, arguments: texts(self.arguments@) }
    }
}

/// Compile commands as plain values.
pub open spec fn command_views(commands: Seq<CompileCommand>) -> Seq<CompileCommandView> {
    Seq::new(commands.len(), |i: int| commands[i]@)
}

impl CompileCommand {
    /// Another compile command for the same file, which shares the arguments.
    pub fn duplicate(&self) -> (copy: CompileCommand)
        ensures
            copy@ == self@,
    {
        CompileCommand { filename: self.filename.clone(), arguments: share(&self.arguments) }
    }
}

pub trait CompilationDatabase {
    /// The compile commands stored in the database.
    spec fn commands(&self) -> Seq<CompileCommandView>;

    /// Whether the argument lists of the database name the source file.
    spec fn file_path_in_arguments(&self) -> bool;

    /// Indicates if the file path can be found in the argument list.
    fn is_file_path_in_arguments(&self) -> (found: bool)
        ensures
            found == self.file_path_in_arguments(),
    ;

    /// Returns all the compile commands stored in the database
    fn get_all_compile_commands(&self) -> (compile_commands: CompileCommands)
        ensures
            command_views(compile_commands@) == self.commands(),
    ;
}

/// The arguments that stand for include directories and preprocessor
/// definitions: `-I` in front of each directory, then `-D` in front of each
/// definition.
pub open spec fn manual_arguments(
    include_directories: Seq<Seq<char>>,
    compile_definitions: Seq<Seq<char>>,
) -> Seq<Seq<char>> {
    Seq::new(
        include_directories.len() + compile_definitions.len(),
        |i: int|
            if i < include_directories.len() {
                seq!['-', 'I'] + include_directories[i]
            } else {
                seq!['-', 'D'] + compile_definitions[i - include_directories.len()]
            },
    )
}

/// Whether one of `commands` is for the file `path`.
pub open spec fn has_command_for(commands: Seq<CompileCommandView>, path: Seq<char>) -> bool {
    exists|i: int| 0 <= i < commands.len() && (#[trigger] commands[i]).filename == path
}

/// Whether `commands` is what a list of source files stands for: one command
/// for each of the `source_paths`, whichever way the list repeats and orders
/// them, sorted by file name, and all with the same `arguments`.
pub open spec fn is_file_list(
    commands: Seq<CompileCommandView>,
    source_paths: Seq<Seq<char>>,
    arguments: Seq<Seq<char>>,
) -> bool {
    &&& forall|i: int| 0 <= i < commands.len() ==> (#[trigger] commands[i]).arguments == arguments
    &&& forall|i: int, j: int|
        0 <= i < j < commands.len() ==> text_less(
            (#[trigger] commands[i]).filename,
            (#[trigger] commands[j]).filename,
        )
    &&& forall|i: int|
        0 <= i < commands.len() ==> source_paths.contains((#[trigger] commands[i]).filename)
    &&& forall|k: int|
        0 <= k < source_paths.len() ==> has_command_for(commands, #[trigger] source_paths[k])
}

/// Builds the argument list of a project that is described by hand.
pub fn generate_manual_arguments(
    include_directories: &[String],
    compile_definitions: &[String],
) -> (arguments: Vec<String>)
    ensures
        texts(arguments@) == manual_arguments(
            texts(include_directories@),
            texts(compile_definitions@),
        ),
{
    // Generate `arguments` from the CLI arguments
    let mut arguments: Vec<String> = Vec::new();

    // Add include directories to the list of arguments
    let mut i: usize = 0;
    while i < include_directories.len()
        invariant
            i <= include_directories@.len(),
            arguments@.len() == i,
            forall|k: int|
                0 <= k < i ==> (#[trigger] arguments@[k])@ == seq!['-', 'I']
                    + include_directories@[k]@,
        decreases include_directories.len() - i,
    {
        let argument = String::from_str("-I").concat(include_directories[i].as_str());
        proof {
            reveal_strlit("-I");
        }
        arguments.push(argument);
        i += 1;
    }
    // Add preprocessor defitions to the list of arguments
    let mut j: usize = 0;
    while j < compile_definitions.len()
        invariant
            j <= compile_definitions@.len(),
            arguments@.len() == include_directories@.len() + j,
            forall|k: int|
                0 <= k < include_directories@.len() ==> (#[trigger] arguments@[k])@ == seq![
                    '-',
                    'I',
                ] + include_directories@[k]@,
            forall|k: int|
                0 <= k < j ==> (#[trigger] arguments@[include_directories@.len() + k])@ == seq![
                    '-',
                    'D',
                ] + compile_definitions@[k]@,
        decreases compile_definitions.len() - j,
    {
        let argument = String::from_str("-D").concat(compile_definitions[j].as_str());
        proof {
            reveal_strlit("-D");
        }
        arguments.push(argument);
        j += 1;
    }
    proof {
        let expected = manual_arguments(texts(include_directories@), texts(compile_definitions@));
        assert forall|k: int| 0 <= k < expected.len() implies texts(arguments@)[k]
            == expected[k] by {
            if k >= include_directories@.len() {
                let d = k - include_directories@.len();
                assert(arguments@[include_directories@.len() + d]@ == seq!['-', 'D']
                    + compile_definitions@[d]@);
            }
        }
    }
    arguments
}

/// The database of a project, of one kind or the other.
pub enum ProjectDatabase {
    /// The compile commands of a compilation database
    CompileCommands(CompileCommandsDatabase),
    /// A list of source files that are compiled alike
    FileList(FileListDatabase),
}

impl CompilationDatabase for ProjectDatabase {
    open spec fn commands(&self) -> Seq<CompileCommandView> {
        match self {
            ProjectDatabase::CompileCommands(database) => database.commands(),
            ProjectDatabase::FileList(database) => database.commands(),
        }
    }

    open spec fn file_path_in_arguments(&self) -> bool {
        self is CompileCommands
    }

    fn is_file_path_in_arguments(&self) -> (found: bool) {
        match self {
            ProjectDatabase::CompileCommands(database) => database.is_file_path_in_arguments(),
            ProjectDatabase::FileList(database) => database.is_file_path_in_arguments(),
        }
    }

    fn get_all_compile_commands(&self) -> (compile_commands: CompileCommands) {
        match self {
            ProjectDatabase::CompileCommands(database) => database.get_all_compile_commands(),
            ProjectDatabase::FileList(database) => database.get_all_compile_commands(),
        }
    }
}

/// Makes the database that a project configuration describes: the commands
/// of a compilation database as they are, or one command for each source
/// file, with `-I` and `-D` arguments for the include directories and the
/// preprocessor definitions.
pub fn generate_compilation_database<'p>(project_config: ProjectConfiguration<'p>) -> (database:
    ProjectDatabase)
    ensures
        project_config matches ProjectConfiguration::CompilationDatabase { compile_commands }
            ==> database.file_path_in_arguments() && database.commands() == command_views(
            compile_commands@,
        ),
        project_config matches ProjectConfiguration::Manual {
            source_paths,
            include_directories,
            compile_definitions,
        } ==> !database.file_path_in_arguments() && is_file_list(
            database.commands(),
            texts(source_paths@),
            manual_arguments(texts(include_directories@), texts(compile_definitions@)),
        ),
{
    match project_config {
        ProjectConfiguration::CompilationDatabase { compile_commands } => {
            // Take the compile commands of the database
            ProjectDatabase::CompileCommands(CompileCommandsDatabase::new(compile_commands))
        },
        ProjectConfiguration::Manual { source_paths, include_directories, compile_definitions } => {
            // Otherwise, make the arguments that the files share
            let arguments = generate_manual_arguments(include_directories, compile_definitions);
            ProjectDatabase::FileList(FileListDatabase::new(source_paths, arguments))
        },
    }
}

} // verus!

//! A database that holds the compile commands of a project as they were
//! recorded when the project was built.

use super::{command_views, CompilationDatabase, CompileCommandView, CompileCommands};
use vstd::prelude::*;

verus! {

pub struct CompileCommandsDatabase {
    compile_commands: CompileCommands,
}

impl CompileCommandsDatabase {
    /// A database that holds `compile_commands`.
    pub fn new(compile_commands: CompileCommands) -> (database: Self)
        ensures
            database.commands() == command_views(compile_commands@),
    {
        Self { compile_commands }
    }
}

impl CompilationDatabase for CompileCommandsDatabase {
    closed spec fn commands(&self) -> Seq<CompileCommandView> {
        command_views(self.compile_commands@)
    }

    open spec fn file_path_in_arguments(&self) -> bool {
        true
    }

    fn is_file_path_in_arguments(&self) -> (found: bool) {
        true
    }

    fn get_all_compile_commands(&self) -> (compile_commands: CompileCommands) {
        let mut compile_commands: CompileCommands = Vec::new();
        let mut i: usize = 0;
        while i < self.compile_commands.len()
            invariant
                i <= self.compile_commands@.len(),
                compile_commands@.len() == i,
                forall|k: int|
                    0 <= k < i ==> (#[trigger] compile_commands@[k])@ == self.compile_commands@[k]@,
            decreases self.compile_commands.len() - i,
        {
            compile_commands.push(self.compile_commands[i].duplicate());
            i += 1;
        }
        compile_commands
    }
}

} // verus!

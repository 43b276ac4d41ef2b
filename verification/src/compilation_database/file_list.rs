//! A database for a list of source files that are all compiled with the same
//! arguments.

use super::{
    has_command_for, is_file_list, CompilationDatabase, CompileCommand, CompileCommandView,
    CompileCommands,
};
use crate::byte_order::{
    compare_text, lemma_text_less_transitive, lemma_text_less_trichotomy, lemma_text_order_equal,
    text_less, texts, KeyOrder,
};
use crate::information_leak::leak_location::share;
use std::sync::Arc;
use vstd::prelude::*;

verus! {

/// Whether the texts strictly increase: they are sorted, and none of them
/// occurs twice.
pub open spec fn strictly_increasing(paths: Seq<Seq<char>>) -> bool {
    forall|i: int, j: int|
        0 <= i < j < paths.len() ==> text_less(#[trigger] paths[i], #[trigger] paths[j])
}

/// The commands of a file list: one for each path, all with `arguments`.
pub open spec fn file_list_commands(
    paths: Seq<Seq<char>>,
    arguments: Seq<Seq<char>>,
) -> Seq<CompileCommandView> {
    Seq::new(paths.len(), |i: int| CompileCommandView { filename: paths[i], arguments })
}

pub struct FileListDatabase {
    /// Set of file paths
    file_paths: Vec<String>,
    /// Shared arguments for all files
    arguments: Arc<Vec<String>>,
}

/// Puts `path` at its place in the sorted `paths`, unless it is there.
fn insert_path(paths: &mut Vec<String>, path: &String)
    requires
        strictly_increasing(texts(old(paths)@)),
    ensures
        strictly_increasing(texts(final(paths)@)),
        texts(final(paths)@).contains(path@),
        forall|p: Seq<char>|
            texts(final(paths)@).contains(p) <==> texts(old(paths)@).contains(p) || p == path@,
{
    let ghost before = texts(paths@);
    let mut pos: usize = 0;
    while pos < paths.len() && compare_text(paths[pos].as_str(), path.as_str()) == KeyOrder::Less
        invariant
            pos <= paths@.len(),
            before == texts(paths@),
            paths@ == old(paths)@,
            forall|i: int| 0 <= i < pos ==> text_less(#[trigger] before[i], path@),
        decreases paths.len() - pos,
    {
        pos += 1;
    }
    if pos < paths.len() {
        proof {
            lemma_text_order_equal(before[pos as int], path@);
            lemma_text_less_trichotomy(before[pos as int], path@);
        }
        if compare_text(paths[pos].as_str(), path.as_str()) == KeyOrder::Equal {
            return ;
        }
    }
    proof {
        assert forall|i: int| pos <= i < before.len() implies text_less(
            path@,
            #[trigger] before[i],
        ) by {
            if i > pos {
                lemma_text_less_transitive(path@, before[pos as int], before[i]);
            }
        }
    }
    paths.insert(pos, path.clone());
    proof {
        let after = texts(paths@);
        assert(after =~= before.insert(pos as int, path@));
        assert(after[pos as int] == path@);
        assert forall|p: Seq<char>| after.contains(p) <==> before.contains(p) || p == path@ by {
            if before.contains(p) {
                let i = choose|i: int| 0 <= i < before.len() && before[i] == p;
                if i < pos {
                    assert(after[i] == p);
                } else {
                    assert(after[i + 1] == p);
                }
            }
        }
    }
}

impl FileListDatabase {
    /// The file paths of the database, in order.
    pub closed spec fn paths(&self) -> Seq<Seq<char>> {
        texts(self.file_paths@)
    }

    /// The arguments that all the files are compiled with.
    pub closed spec fn shared_arguments(&self) -> Seq<Seq<char>> {
        texts(self.arguments@)
    }

    /// A database for `file_paths`, which are all compiled with `arguments`.
    /// The paths are kept as a sorted set: a path that is given twice is kept
    /// once.
    pub fn new(file_paths: &[String], arguments: Vec<String>) -> (database: Self)
        ensures
            database.shared_arguments() == texts(arguments@),
            strictly_increasing(database.paths()),
            forall|p: Seq<char>| database.paths().contains(p) <==> texts(file_paths@).contains(p),
            is_file_list(database.commands(), texts(file_paths@), texts(arguments@)),
    {
        let ghost given = texts(file_paths@);
        let mut sorted: Vec<String> = Vec::new();
        let mut i: usize = 0;
        while i < file_paths.len()
            invariant
                i <= file_paths@.len(),
                given == texts(file_paths@),
                strictly_increasing(texts(sorted@)),
                forall|p: Seq<char>|
                    texts(sorted@).contains(p) <==> given.take(i as int).contains(p),
            decreases file_paths.len() - i,
        {
            insert_path(&mut sorted, &file_paths[i]);
            proof {
                let path = file_paths@[i as int]@;
                assert forall|p: Seq<char>| texts(sorted@).contains(p) <==> given.take(
                    i + 1,
                ).contains(p) by {
                    let longer = given.take(i + 1);
                    if p == path {
                        assert(longer[i as int] == p);
                    }
                }
            }
            i += 1;
        }
        assert(given.take(i as int) =~= given);
        let database = Self { file_paths: sorted, arguments: Arc::new(arguments) };
        proof {
            let commands = database.commands();
            let paths = database.paths();
            assert forall|k: int| 0 <= k < given.len() implies has_command_for(
                commands,
                #[trigger] given[k],
            ) by {
                let p = given[k];
                assert(paths.contains(p));
                let m = choose|m: int| 0 <= m < paths.len() && paths[m] == p;
                assert(commands[m].filename == p);
            }
            assert forall|m: int| 0 <= m < commands.len() implies given.contains(
                (#[trigger] commands[m]).filename,
            ) by {
                assert(paths.contains(paths[m]));
            }
        }
        database
    }
}

impl CompilationDatabase for FileListDatabase {
    closed spec fn commands(&self) -> Seq<CompileCommandView> {
        file_list_commands(texts(self.file_paths@), texts(self.arguments@))
    }

    open spec fn file_path_in_arguments(&self) -> bool {
        false
    }

    fn is_file_path_in_arguments(&self) -> (found: bool) {
        false
    }

    fn get_all_compile_commands(&self) -> (compile_commands: CompileCommands) {
        let mut compile_commands: CompileCommands = Vec::new();
        let mut i: usize = 0;
        while i < self.file_paths.len()
            invariant
                i <= self.file_paths@.len(),
                compile_commands@.len() == i,
                forall|k: int|
                    0 <= k < i ==> (#[trigger] compile_commands@[k])@ == (CompileCommandView {
                        filename: self.file_paths@[k]@,
                        arguments: texts(self.arguments@),
                    }),
            decreases self.file_paths.len() - i,
        {
            compile_commands.push(
                CompileCommand {
                    filename: self.file_paths[i].clone(),
                    arguments: share(&self.arguments),
                },
            );
            i += 1;
        }
        compile_commands
    }
}

} // verus!

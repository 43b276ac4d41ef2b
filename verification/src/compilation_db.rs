//! The entries of a JSON compilation database, and the source files that
//! they name.

use crate::byte_order::texts;
use vstd::prelude::*;

verus! {

/// One entry of a compilation database.
#[derive(Debug)]
pub struct CommandObject {
    /// The working directory of the compilation
    pub directory: String,
    /// The source file, which may be relative to the directory
    pub file: String,
    /// The compile command as a list of arguments
    pub arguments: Option<Vec<String>>,
    /// The compile command as one text
    pub command: Option<String>,
    /// The name of the output of the compilation
    pub output: Option<String>,
}

/// Whether `path` is absolute: what `std::path::Path::is_absolute` answers,
/// by the path rules of the platform.
pub uninterp spec fn path_is_absolute(path: Seq<char>) -> bool;

/// The path `file` as seen from `directory`: what `std::path::Path::join`
/// returns, by the path rules of the platform.
pub uninterp spec fn path_joined(directory: Seq<char>, file: Seq<char>) -> Seq<char>;

/// Calls `std::path::Path::is_absolute`. Trusted: the answer depends on the
/// text of the path alone.
#[verifier::external_body]
fn is_absolute(path: &str) -> (absolute: bool)
    ensures
        absolute == path_is_absolute(path@),
{
    std::path::Path::new(path).is_absolute()
}

/// Calls `std::path::Path::join`. Trusted: the joined path depends on the
/// texts of the two paths alone.
#[verifier::external_body]
fn join(directory: &str, file: &str) -> (joined: String)
    ensures
        joined@ == path_joined(directory@, file@),
{
    std::path::Path::new(directory).join(file).to_string_lossy().into_owned()
}

/// The path of the file of an entry, given whether the entry names it by an
/// absolute path: the file itself, or the file as seen from the directory.
pub open spec fn resolved_file(object: CommandObject, file_is_absolute: bool) -> Seq<char> {
    if file_is_absolute {
        object.file@
    } else {
        path_joined(object.directory@, object.file@)
    }
}

/// The paths of the files of the entries.
pub open spec fn file_paths_of(command_objects: Seq<CommandObject>) -> Seq<Seq<char>> {
    Seq::new(
        command_objects.len(),
        |i: int| resolved_file(command_objects[i], path_is_absolute(command_objects[i].file@)),
    )
}

/// The path of the file of `object`: the file as it is named where
/// `file_is_absolute` says that its path is absolute, else the file joined to
/// the directory of the entry.
pub fn resolve_file_path(object: &CommandObject, file_is_absolute: bool) -> (path: String)
    ensures
        path@ == resolved_file(*object, file_is_absolute),
{
    if file_is_absolute {
        object.file.clone()
    } else {
        join(object.directory.as_str(), object.file.as_str())
    }
}

/// Transforms the entries of a compilation database to the paths of their
/// files: a file that is named by a relative path is joined to the directory
/// of its entry.
pub fn get_file_paths_from_compile_database(command_objects: &Vec<CommandObject>) -> (file_paths:
    Vec<String>)
    ensures
        texts(file_paths@) == file_paths_of(command_objects@),
{
    // Transform command objects to file paths
    let mut file_paths: Vec<String> = Vec::new();
    let mut i: usize = 0;
    while i < command_objects.len()
        invariant
            i <= command_objects@.len(),
            file_paths@.len() == i,
            forall|k: int|
                0 <= k < i ==> (#[trigger] file_paths@[k])@ == resolved_file(
                    command_objects@[k],
                    path_is_absolute(command_objects@[k].file@),
                ),
        decreases command_objects.len() - i,
    {
        let object = &command_objects[i];
        let file_is_absolute = is_absolute(object.file.as_str());
        file_paths.push(resolve_file_path(object, file_is_absolute));
        i += 1;
    }
    file_paths
}

} // verus!

//! What is kept out of the search: source files by glob patterns, artifacts
//! by their value.

use crate::byte_order::texts;
use crate::compilation_database::{command_views, CompileCommandView, CompileCommands};
use crate::extraction::potential_leak_views;
use crate::information_leak::potential_leak::{PotentialLeak, PotentialLeakView};
use vstd::prelude::*;

verus! {

/// A glob pattern compiled by the `glob` crate.
#[verifier::external_type_specification]
#[verifier::external_body]
pub struct ExPattern(glob::Pattern);

/// The text that a compiled pattern was made from: what `Pattern::as_str`
/// returns.
pub uninterp spec fn glob_pattern_text(pattern: glob::Pattern) -> Seq<char>;

/// Whether `glob::Pattern::new` accepts `text` as a pattern.
pub uninterp spec fn glob_is_valid(text: Seq<char>) -> bool;

/// Whether the pattern compiled from `pattern` matches `path`: what
/// `Pattern::matches` returns. The path separators that a pattern knows are
/// those of the platform.
pub uninterp spec fn glob_matches(pattern: Seq<char>, path: Seq<char>) -> bool;

/// Calls `glob::Pattern::new`. Trusted: whether a pattern comes back
/// depends on the text alone, and the pattern remembers the text it was
/// compiled from.
#[verifier::external_body]
fn compile_pattern(text: &str) -> (pattern: Option<glob::Pattern>)
    ensures
        pattern is Some <==> glob_is_valid(text@),
        pattern matches Some(compiled) ==> glob_pattern_text(compiled) == text@,
{
    glob::Pattern::new(text).ok()
}

/// Calls `glob::Pattern::matches`. Trusted: the answer depends on the text
/// of the pattern and on the path alone.
#[verifier::external_body]
fn pattern_matches(pattern: &glob::Pattern, path: &str) -> (matched: bool)
    ensures
        matched == glob_matches(glob_pattern_text(*pattern), path@),
{
    pattern.matches(path)
}

/// Calls `glob::Pattern::as_str`, which hands out the text that the pattern
/// was compiled from.
#[verifier::external_body]
fn pattern_text(pattern: &glob::Pattern) -> (text: &str)
    ensures
        text@ == glob_pattern_text(*pattern),
{
    pattern.as_str()
}

pub struct Suppressions {
    /// Patterns of the source files that are left out
    pub files: Vec<glob::Pattern>,
    /// Artifacts that are left out
    pub artifacts: Vec<String>,
}

/// The texts of compiled patterns.
pub open spec fn pattern_texts(patterns: Seq<glob::Pattern>) -> Seq<Seq<char>> {
    Seq::new(patterns.len(), |i: int| glob_pattern_text(patterns[i]))
}

/// Those of `texts` that are valid glob patterns, in their order.
pub open spec fn valid_patterns(texts: Seq<Seq<char>>) -> Seq<Seq<char>>
    decreases texts.len(),
{
    if texts.len() == 0 {
        Seq::empty()
    } else if glob_is_valid(texts.last()) {
        valid_patterns(texts.drop_last()).push(texts.last())
    } else {
        valid_patterns(texts.drop_last())
    }
}

/// Whether one of `patterns` matches `path`.
pub open spec fn matches_any(patterns: Seq<glob::Pattern>, path: Seq<char>) -> bool {
    exists|i: int|
        0 <= i < patterns.len() && glob_matches(glob_pattern_text(#[trigger] patterns[i]), path)
}

/// Whether the file `path` is left out.
pub open spec fn file_is_suppressed(suppressions: Option<Suppressions>, path: Seq<char>) -> bool {
    match suppressions {
        Some(suppressions) => matches_any(suppressions.files@, path),
        None => false,
    }
}

/// Whether the artifact `data` is left out.
pub open spec fn artifact_is_suppressed(suppressions: Option<Suppressions>, data: Seq<char>) -> bool {
    match suppressions {
        Some(suppressions) => texts(suppressions.artifacts@).contains(data),
        None => false,
    }
}

/// The compile commands whose file is not left out, in their order.
pub open spec fn commands_kept(
    commands: Seq<CompileCommandView>,
    suppressions: Option<Suppressions>,
) -> Seq<CompileCommandView>
    decreases commands.len(),
{
    if commands.len() == 0 {
        Seq::empty()
    } else if file_is_suppressed(suppressions, commands.last().filename) {
        commands_kept(commands.drop_last(), suppressions)
    } else {
        commands_kept(commands.drop_last(), suppressions).push(commands.last())
    }
}

/// The potential leaks that are not declared in a file that is left out, in
/// their order.
pub open spec fn leaks_kept_by_origin(
    leaks: Seq<PotentialLeakView>,
    suppressions: Option<Suppressions>,
) -> Seq<PotentialLeakView>
    decreases leaks.len(),
{
    if leaks.len() == 0 {
        Seq::empty()
    } else if file_is_suppressed(suppressions, leaks.last().declaration_metadata.file) {
        leaks_kept_by_origin(leaks.drop_last(), suppressions)
    } else {
        leaks_kept_by_origin(leaks.drop_last(), suppressions).push(leaks.last())
    }
}

/// The potential leaks whose data is not left out, in their order.
pub open spec fn leaks_kept_by_value(
    leaks: Seq<PotentialLeakView>,
    suppressions: Option<Suppressions>,
) -> Seq<PotentialLeakView>
    decreases leaks.len(),
{
    if leaks.len() == 0 {
        Seq::empty()
    } else if artifact_is_suppressed(suppressions, leaks.last().data) {
        leaks_kept_by_value(leaks.drop_last(), suppressions)
    } else {
        leaks_kept_by_value(leaks.drop_last(), suppressions).push(leaks.last())
    }
}

/// No potential leak that passes the filter by origin is declared in a file
/// that is left out.
pub proof fn lemma_kept_by_origin_not_suppressed(
    leaks: Seq<PotentialLeakView>,
    suppressions: Option<Suppressions>,
)
    ensures
        forall|i: int|
            0 <= i < leaks_kept_by_origin(leaks, suppressions).len() ==> !file_is_suppressed(
                suppressions,
                (#[trigger] leaks_kept_by_origin(leaks, suppressions)[i]).declaration_metadata.file,
            ),
    decreases leaks.len(),
{
    if leaks.len() > 0 {
        lemma_kept_by_origin_not_suppressed(leaks.drop_last(), suppressions);
    }
}

/// No potential leak that passes the filter by value has data that is left
/// out.
pub proof fn lemma_kept_by_value_not_suppressed(
    leaks: Seq<PotentialLeakView>,
    suppressions: Option<Suppressions>,
)
    ensures
        forall|i: int|
            0 <= i < leaks_kept_by_value(leaks, suppressions).len() ==> !artifact_is_suppressed(
                suppressions,
                (#[trigger] leaks_kept_by_value(leaks, suppressions)[i]).data,
            ),
    decreases leaks.len(),
{
    if leaks.len() > 0 {
        lemma_kept_by_value_not_suppressed(leaks.drop_last(), suppressions);
    }
}

impl Suppressions {
    /// Compiles the glob patterns of a suppressions list. A text that is no
    /// valid pattern is dropped.
    pub fn new(files: &Vec<String>, artifacts: Vec<String>) -> (suppressions: Self)
        ensures
            pattern_texts(suppressions.files@) == valid_patterns(texts(files@)),
            suppressions.artifacts == artifacts,
    {
        let ghost given = texts(files@);
        let mut compiled: Vec<glob::Pattern> = Vec::new();
        let mut i: usize = 0;
        while i < files.len()
            invariant
                i <= files@.len(),
                given == texts(files@),
                pattern_texts(compiled@) == valid_patterns(given.take(i as int)),
            decreases files.len() - i,
        {
            assert(given.take(i + 1).drop_last() =~= given.take(i as int));
            match compile_pattern(files[i].as_str()) {
                Some(pattern) => {
                    compiled.push(pattern);
                },
                None => {
                    // Not a glob pattern: it is ignored
                },
            }
            i += 1;
        }
        assert(given.take(i as int) =~= given);
        Suppressions { files: compiled, artifacts }
    }

    /// The texts of the file patterns.
    pub fn file_patterns(&self) -> (patterns: Vec<String>)
        ensures
            texts(patterns@) == pattern_texts(self.files@),
    {
        let mut patterns: Vec<String> = Vec::new();
        let mut i: usize = 0;
        while i < self.files.len()
            invariant
                i <= self.files@.len(),
                patterns@.len() == i,
                forall|k: int|
                    0 <= k < i ==> (#[trigger] patterns@[k])@ == glob_pattern_text(self.files@[k]),
            decreases self.files.len() - i,
        {
            patterns.push(pattern_text(&self.files[i]).to_owned());
            i += 1;
        }
        patterns
    }

    /// Whether one of the file patterns matches `path`.
    pub fn matches_file(&self, path: &str) -> (matched: bool)
        ensures
            matched == matches_any(self.files@, path@),
    {
        let mut i: usize = 0;
        while i < self.files.len()
            invariant
                i <= self.files@.len(),
                forall|k: int|
                    0 <= k < i ==> !glob_matches(
                        glob_pattern_text(#[trigger] self.files@[k]),
                        path@,
                    ),
            decreases self.files.len() - i,
        {
            if pattern_matches(&self.files[i], path) {
                return true;
            }
            i += 1;
        }
        false
    }

    /// Whether `data` is one of the artifacts that are left out.
    pub fn holds_artifact(&self, data: &String) -> (found: bool)
        ensures
            found == texts(self.artifacts@).contains(data@),
    {
        let mut i: usize = 0;
        while i < self.artifacts.len()
            invariant
                i <= self.artifacts@.len(),
                forall|k: int| 0 <= k < i ==> texts(self.artifacts@)[k] != data@,
            decreases self.artifacts.len() - i,
        {
            if self.artifacts[i] == *data {
                assert(texts(self.artifacts@)[i as int] == data@);
                return true;
            }
            i += 1;
        }
        false
    }
}

/// Whether the file `path` is left out by `suppressions`.
pub fn is_suppressed_file(suppressions: &Option<Suppressions>, path: &str) -> (suppressed: bool)
    ensures
        suppressed == file_is_suppressed(*suppressions, path@),
{
    match suppressions {
        Some(suppressions) => suppressions.matches_file(path),
        None => false,
    }
}

/// Whether the artifact `data` is left out by `suppressions`.
pub fn is_suppressed_artifact(suppressions: &Option<Suppressions>, data: &String) -> (suppressed:
    bool)
    ensures
        suppressed == artifact_is_suppressed(*suppressions, data@),
{
    match suppressions {
        Some(suppressions) => suppressions.holds_artifact(data),
        None => false,
    }
}

/// Drops the compile commands whose file matches one of the suppressed file
/// patterns.
pub fn filter_suppressed_files(compile_cmds: CompileCommands, suppressions: &Option<Suppressions>) -> (kept:
    CompileCommands)
    ensures
        command_views(kept@) == commands_kept(command_views(compile_cmds@), *suppressions),
{
    let ghost all = command_views(compile_cmds@);
    let ghost given = compile_cmds@;
    let mut kept: CompileCommands = Vec::new();
    for compile_cmd in it: compile_cmds
        invariant
            it.seq() == given,
            all == command_views(given),
            command_views(kept@) == commands_kept(all.take(it.index()), *suppressions),
    {
        assert(all.take(it.index() + 1).drop_last() =~= all.take(it.index()));
        if !is_suppressed_file(suppressions, compile_cmd.filename.as_str()) {
            kept.push(compile_cmd);
        }
    }
    assert(all.take(all.len() as int) =~= all);
    kept
}

/// Drops the potential leaks that are declared in a file that matches one of
/// the suppressed file patterns.
pub fn filter_suppressed_artifacts_by_origin(
    potential_leaks: Vec<PotentialLeak>,
    suppressions: &Option<Suppressions>,
) -> (kept: Vec<PotentialLeak>)
    ensures
        potential_leak_views(kept@) == leaks_kept_by_origin(
            potential_leak_views(potential_leaks@),
            *suppressions,
        ),
{
    let ghost all = potential_leak_views(potential_leaks@);
    let ghost given = potential_leaks@;
    let mut kept: Vec<PotentialLeak> = Vec::new();
    for leak in it: potential_leaks
        invariant
            it.seq() == given,
            all == potential_leak_views(given),
            potential_leak_views(kept@) == leaks_kept_by_origin(
                all.take(it.index()),
                *suppressions,
            ),
    {
        assert(all.take(it.index() + 1).drop_last() =~= all.take(it.index()));
        let suppressed = is_suppressed_file(suppressions, leak.declaration_metadata.file.as_str());
        if !suppressed {
            kept.push(leak);
        }
    }
    assert(all.take(all.len() as int) =~= all);
    kept
}

/// Drops the potential leaks whose data is one of the suppressed artifacts.
pub fn filter_suppressed_artifacts_by_value(
    potential_leaks: Vec<PotentialLeak>,
    suppressions: &Option<Suppressions>,
) -> (kept: Vec<PotentialLeak>)
    ensures
        potential_leak_views(kept@) == leaks_kept_by_value(
            potential_leak_views(potential_leaks@),
            *suppressions,
        ),
{
    let ghost all = potential_leak_views(potential_leaks@);
    let ghost given = potential_leaks@;
    let mut kept: Vec<PotentialLeak> = Vec::new();
    for leak in it: potential_leaks
        invariant
            it.seq() == given,
            all == potential_leak_views(given),
            potential_leak_views(kept@) == leaks_kept_by_value(all.take(it.index()), *suppressions),
    {
        assert(all.take(it.index() + 1).drop_last() =~= all.take(it.index()));
        let data: &String = &leak.data;
        let suppressed = is_suppressed_artifact(suppressions, data);
        if !suppressed {
            kept.push(leak);
        }
    }
    assert(all.take(all.len() as int) =~= all);
    kept
}

} // verus!

//! From the entities of translation units to the potential leaks that are
//! searched for in a binary.

use crate::compilation_database::CompileCommand;
use crate::information_leak::potential_leak::{leak_of_entity, PotentialLeak, PotentialLeakView};
use crate::information_leak::string_literal::{wide_char_mode_or_default, WideCharMode};
use crate::translation_unit::{
    gather_entities_by_kind, gathered, referents, Entity, EntityKind,
};
use vstd::prelude::*;

verus! {

/// The kinds of entities that are gathered: string literals unless they are
/// ignored, then the declarations of structs and of classes unless struct
/// names are ignored.
pub open spec fn wanted_kinds(ignore_string_literals: bool, ignore_struct_names: bool) -> Seq<
    EntityKind,
> {
    let literals = if ignore_string_literals {
        Seq::<EntityKind>::empty()
    } else {
        seq![EntityKind::StringLiteral]
    };
    let names = if ignore_struct_names {
        Seq::<EntityKind>::empty()
    } else {
        seq![EntityKind::StructDecl, EntityKind::ClassDecl]
    };
    literals + names
}

/// The potential leak that is kept for an entity: the one it stands for,
/// where it stands for one whose pattern has at least `minimum_leak_size`
/// bytes.
pub open spec fn kept_leak(entity: Entity, minimum_leak_size: int, mode: WideCharMode) -> Option<
    PotentialLeakView,
> {
    match leak_of_entity(entity, mode) {
        Ok(leak) => if leak.bytes.len() >= minimum_leak_size {
            Some(leak)
        } else {
            None
        },
        Err(_) => None,
    }
}

/// The potential leaks that are kept for `entities`, in their order.
pub open spec fn leaks_of_entities(
    entities: Seq<Entity>,
    minimum_leak_size: int,
    mode: WideCharMode,
) -> Seq<PotentialLeakView>
    decreases entities.len(),
{
    if entities.len() == 0 {
        Seq::empty()
    } else {
        let before = leaks_of_entities(entities.drop_last(), minimum_leak_size, mode);
        match kept_leak(entities.last(), minimum_leak_size, mode) {
            Some(leak) => before.push(leak),
            None => before,
        }
    }
}

/// The potential leaks of the translation unit below `root`.
pub open spec fn leaks_of_unit(
    root: Entity,
    ignore_system_headers: bool,
    ignore_string_literals: bool,
    ignore_struct_names: bool,
    minimum_leak_size: int,
    mode: WideCharMode,
) -> Seq<PotentialLeakView> {
    leaks_of_entities(
        gathered(
            root,
            wanted_kinds(ignore_string_literals, ignore_struct_names),
            ignore_system_headers,
        ),
        minimum_leak_size,
        mode,
    )
}

/// The potential leaks of several translation units, unit after unit.
pub open spec fn leaks_of_units(
    roots: Seq<Entity>,
    ignore_system_headers: bool,
    ignore_string_literals: bool,
    ignore_struct_names: bool,
    minimum_leak_size: int,
    mode: WideCharMode,
) -> Seq<PotentialLeakView>
    decreases roots.len(),
{
    if roots.len() == 0 {
        Seq::empty()
    } else {
        leaks_of_units(
            roots.drop_last(),
            ignore_system_headers,
            ignore_string_literals,
            ignore_struct_names,
            minimum_leak_size,
            mode,
        ) + leaks_of_unit(
            roots.last(),
            ignore_system_headers,
            ignore_string_literals,
            ignore_struct_names,
            minimum_leak_size,
            mode,
        )
    }
}

/// Potential leaks as plain values.
pub open spec fn potential_leak_views(leaks: Seq<PotentialLeak>) -> Seq<PotentialLeakView> {
    Seq::new(leaks.len(), |i: int| leaks[i]@)
}

/// Every potential leak that is kept for a list of entities has a pattern of
/// at least the minimum size.
pub proof fn lemma_kept_leaks_meet_minimum(
    entities: Seq<Entity>,
    minimum_leak_size: int,
    mode: WideCharMode,
)
    ensures
        forall|i: int|
            0 <= i < leaks_of_entities(entities, minimum_leak_size, mode).len() ==> (
            #[trigger] leaks_of_entities(entities, minimum_leak_size, mode)[i]).bytes.len()
                >= minimum_leak_size,
    decreases entities.len(),
{
    if entities.len() > 0 {
        lemma_kept_leaks_meet_minimum(entities.drop_last(), minimum_leak_size, mode);
    }
}

/// Every potential leak of a list of translation units has a pattern of at
/// least the minimum size.
pub proof fn lemma_extracted_leaks_meet_minimum(
    roots: Seq<Entity>,
    ignore_system_headers: bool,
    ignore_string_literals: bool,
    ignore_struct_names: bool,
    minimum_leak_size: int,
    mode: WideCharMode,
)
    ensures
        forall|i: int|
            0 <= i < leaks_of_units(
                roots,
                ignore_system_headers,
                ignore_string_literals,
                ignore_struct_names,
                minimum_leak_size,
                mode,
            ).len() ==> (#[trigger] leaks_of_units(
                roots,
                ignore_system_headers,
                ignore_string_literals,
                ignore_struct_names,
                minimum_leak_size,
                mode,
            )[i]).bytes.len() >= minimum_leak_size,
    decreases roots.len(),
{
    if roots.len() > 0 {
        lemma_extracted_leaks_meet_minimum(
            roots.drop_last(),
            ignore_system_headers,
            ignore_string_literals,
            ignore_struct_names,
            minimum_leak_size,
            mode,
        );
        lemma_kept_leaks_meet_minimum(
            gathered(
                roots.last(),
                wanted_kinds(ignore_string_literals, ignore_struct_names),
                ignore_system_headers,
            ),
            minimum_leak_size,
            mode,
        );
    }
}

/// The file that is handed to the parser beside the arguments of a compile
/// command: none, written as the empty path, where the arguments name the
/// file themselves, else the file of the command.
pub open spec fn parse_target_of(filename: Seq<char>, use_file_path_from_arguments: bool) -> Seq<
    char,
> {
    if use_file_path_from_arguments {
        Seq::empty()
    } else {
        filename
    }
}

/// The path to parse for a compile command. A parser that gets the file
/// path both in the arguments and as its target fails, so the target is empty
/// where the arguments hold the path.
pub fn parse_target(compile_cmd: &CompileCommand, use_file_path_from_arguments: bool) -> (file_path:
    String)
    ensures
        file_path@ == parse_target_of(compile_cmd.filename@, use_file_path_from_arguments),
{
    if use_file_path_from_arguments {
        String::new()
    } else {
        compile_cmd.filename.clone()
    }
}

/// The kinds of entities to gather, as the two flags ask.
pub fn entity_kind_filter(ignore_string_literals: bool, ignore_struct_names: bool) -> (filter: Vec<
    EntityKind,
>)
    ensures
        filter@ == wanted_kinds(ignore_string_literals, ignore_struct_names),
{
    let mut entity_kind_filter: Vec<EntityKind> = Vec::new();
    if !ignore_string_literals {
        entity_kind_filter.push(EntityKind::StringLiteral);
    }
    if !ignore_struct_names {
        entity_kind_filter.push(EntityKind::StructDecl);
        entity_kind_filter.push(EntityKind::ClassDecl);
    }
    entity_kind_filter
}

/// Converts entities to potential leaks. An entity that stands for none, and
/// one whose pattern is shorter than `minimum_leak_size`, is passed over.
pub fn potential_leaks_of_entities(
    entities: &Vec<&Entity>,
    minimum_leak_size: usize,
    wide_char_mode: Option<WideCharMode>,
) -> (leaks: Vec<PotentialLeak>)
    ensures
        potential_leak_views(leaks@) == leaks_of_entities(
            referents(entities@),
            minimum_leak_size as int,
            wide_char_mode_or_default(wide_char_mode),
        ),
        forall|i: int| 0 <= i < leaks@.len() ==> (#[trigger] leaks@[i])@.bytes.len() >= minimum_leak_size,
{
    let ghost mode = wide_char_mode_or_default(wide_char_mode);
    let ghost all = referents(entities@);
    let mut leaks: Vec<PotentialLeak> = Vec::new();
    let mut i: usize = 0;
    while i < entities.len()
        invariant
            i <= entities@.len(),
            all == referents(entities@),
            mode == wide_char_mode_or_default(wide_char_mode),
            potential_leak_views(leaks@) == leaks_of_entities(
                all.take(i as int),
                minimum_leak_size as int,
                mode,
            ),
            forall|k: int|
                0 <= k < leaks@.len() ==> (#[trigger] leaks@[k])@.bytes.len() >= minimum_leak_size,
        decreases entities.len() - i,
    {
        assert(all.take(i + 1).drop_last() =~= all.take(i as int));
        match PotentialLeak::try_from(entities[i], wide_char_mode) {
            Ok(potential_leak) => {
                if potential_leak.bytes.len() >= minimum_leak_size {
                    leaks.push(potential_leak);
                }
                // Otherwise the value is too small: it is ignored

            },
            Err(_) => {
                // The entity stands for no artifact: it is discarded
            },
        }
        i += 1;
    }
    assert(all.take(i as int) =~= all);
    leaks
}

/// Gathers the potential leaks of one translation unit.
pub fn extract_artifacts_from_translation_unit(
    root: &Entity,
    ignore_system_headers: bool,
    ignore_string_literals: bool,
    ignore_struct_names: bool,
    minimum_leak_size: usize,
    wide_char_mode: Option<WideCharMode>,
) -> (leaks: Vec<PotentialLeak>)
    ensures
        potential_leak_views(leaks@) == leaks_of_unit(
            *root,
            ignore_system_headers,
            ignore_string_literals,
            ignore_struct_names,
            minimum_leak_size as int,
            wide_char_mode_or_default(wide_char_mode),
        ),
        forall|i: int| 0 <= i < leaks@.len() ==> (#[trigger] leaks@[i])@.bytes.len() >= minimum_leak_size,
{
    // Setup filter
    let entity_kind_filter = entity_kind_filter(ignore_string_literals, ignore_struct_names);

    // Gather entities
    let entities = gather_entities_by_kind(
        root,
        entity_kind_filter.as_slice(),
        ignore_system_headers,
    );

    potential_leaks_of_entities(&entities, minimum_leak_size, wide_char_mode)
}

/// Gathers the potential leaks of every translation unit, unit after unit.
/// No leak that is handed back has a pattern shorter than
/// `minimum_leak_size`.
pub fn extract_artifacts_from_source_files(
    translation_units: &Vec<Entity>,
    ignore_system_headers: bool,
    ignore_string_literals: bool,
    ignore_struct_names: bool,
    minimum_leak_size: usize,
    wide_char_mode: Option<WideCharMode>,
) -> (leaks: Vec<PotentialLeak>)
    ensures
        potential_leak_views(leaks@) == leaks_of_units(
            translation_units@,
            ignore_system_headers,
            ignore_string_literals,
            ignore_struct_names,
            minimum_leak_size as int,
            wide_char_mode_or_default(wide_char_mode),
        ),
        forall|i: int| 0 <= i < leaks@.len() ==> (#[trigger] leaks@[i])@.bytes.len() >= minimum_leak_size,
{
    let ghost mode = wide_char_mode_or_default(wide_char_mode);
    let mut accum: Vec<PotentialLeak> = Vec::new();
    let mut i: usize = 0;
    while i < translation_units.len()
        invariant
            i <= translation_units@.len(),
            mode == wide_char_mode_or_default(wide_char_mode),
            potential_leak_views(accum@) == leaks_of_units(
                translation_units@.take(i as int),
                ignore_system_headers,
                ignore_string_literals,
                ignore_struct_names,
                minimum_leak_size as int,
                mode,
            ),
            forall|k: int|
                0 <= k < accum@.len() ==> (#[trigger] accum@[k])@.bytes.len() >= minimum_leak_size,
        decreases translation_units.len() - i,
    {
        assert(translation_units@.take(i + 1).drop_last() =~= translation_units@.take(i as int));
        let mut found = extract_artifacts_from_translation_unit(
            &translation_units[i],
            ignore_system_headers,
            ignore_string_literals,
            ignore_struct_names,
            minimum_leak_size,
            wide_char_mode,
        );
        accum.append(&mut found);
        i += 1;
    }
    assert(translation_units@.take(i as int) =~= translation_units@);
    accum
}

} // verus!

//! The entities of a parsed translation unit, as far as the search for
//! artifacts reads them, and the walk that gathers entities by kind.

use vstd::prelude::*;

verus! {

/// The kinds of entities that are told apart.
#[derive(Debug, Clone, Copy, PartialEq, Eq, Structural)]
pub enum EntityKind {
    /// A string literal
    StringLiteral,
    /// The declaration of a struct
    StructDecl,
    /// The declaration of a C++ class
    ClassDecl,
    /// Any other entity
    Other,
}

/// Where an entity stands in the source code.
#[derive(Debug)]
pub struct EntityLocation {
    /// Canonical path of the file, where the location lies in a file
    pub file: Option<String>,
    /// Line in that file, counted from 1
    pub line: u32,
}

/// An entity of a translation unit: a node of its syntax tree.
#[derive(Debug)]
pub struct Entity {
    /// Kind of the entity
    pub kind: EntityKind,
    /// Name of the entity as written in the source code, if it has one; of a
    /// string literal, the literal with its prefix and quotes
    pub display_name: Option<String>,
    /// Where the entity stands, if that is known
    pub location: Option<EntityLocation>,
    /// Whether the entity stands in a system header
    pub in_system_header: bool,
    /// The entities right below this one, in source order
    pub children: Vec<Entity>,
}

/// The entities that a walk through the tree below `root` gathers: `root`
/// itself where its kind is in `filter`, then what the walks through the
/// children gather, child after child.
pub open spec fn gathered(root: Entity, filter: Seq<EntityKind>, ignore_system_headers: bool) -> Seq<
    Entity,
>
    decreases root, 1int,
{
    let below = gathered_below(root.children@, filter, ignore_system_headers);
    if filter.contains(root.kind) {
        seq![root] + below
    } else {
        below
    }
}

/// The entities that the walks through `children` gather, child after
/// child. With `ignore_system_headers`, a child that stands in a system header
/// is passed over with all that is below it.
pub open spec fn gathered_below(
    children: Seq<Entity>,
    filter: Seq<EntityKind>,
    ignore_system_headers: bool,
) -> Seq<Entity>
    decreases children, 0int,
{
    if children.len() == 0 {
        Seq::empty()
    } else {
        let before = gathered_below(children.drop_last(), filter, ignore_system_headers);
        if ignore_system_headers && children.last().in_system_header {
            before
        } else {
            before + gathered(children.last(), filter, ignore_system_headers)
        }
    }
}

/// What a sequence of references refers to.
pub open spec fn referents(entities: Seq<&Entity>) -> Seq<Entity> {
    Seq::new(entities.len(), |i: int| *entities[i])
}

fn kind_is_among(kind: EntityKind, entity_kind_filter: &[EntityKind]) -> (found: bool)
    ensures
        found == entity_kind_filter@.contains(kind),
{
    let mut i: usize = 0;
    while i < entity_kind_filter.len()
        invariant
            i <= entity_kind_filter@.len(),
            forall|k: int| 0 <= k < i ==> entity_kind_filter@[k] != kind,
        decreases entity_kind_filter.len() - i,
    {
        if entity_kind_filter[i] == kind {
            return true;
        }
        i += 1;
    }
    false
}

/// Gathers, depth first, the entities of the tree below `root_entity` whose
/// kind is in `entity_kind_filter`.
pub fn gather_entities_by_kind<'a>(
    root_entity: &'a Entity,
    entity_kind_filter: &[EntityKind],
    ignore_system_headers: bool,
) -> (entities: Vec<&'a Entity>)
    ensures
        referents(entities@) == gathered(*root_entity, entity_kind_filter@, ignore_system_headers),
{
    gather_entities_by_kind_rec(root_entity, entity_kind_filter, ignore_system_headers)
}

/// Gathers the entities of the wanted kinds: the root first, then those
/// below each child that is not ignored.
pub fn gather_entities_by_kind_rec<'a>(
    root_entity: &'a Entity,
    entity_kind_filter: &[EntityKind],
    ignore_system_headers: bool,
) -> (entities: Vec<&'a Entity>)
    ensures
        referents(entities@) == gathered(*root_entity, entity_kind_filter@, ignore_system_headers),
    decreases root_entity,
{
    let mut entities: Vec<&'a Entity> = Vec::new();

    // Check the if entity's kind is one we're looking for
    if kind_is_among(root_entity.kind, entity_kind_filter) {
        entities.push(root_entity);
    }
    let ghost own = referents(entities@);

    let mut i: usize = 0;
    while i < root_entity.children.len()
        invariant
            i <= root_entity.children@.len(),
            referents(entities@) == own + gathered_below(
                root_entity.children@.take(i as int),
                entity_kind_filter@,
                ignore_system_headers,
            ),
        decreases root_entity.children.len() - i,
    {
        let child = &root_entity.children[i];
        let ghost before = referents(entities@);
        assert(root_entity.children@.take(i + 1).drop_last() =~= root_entity.children@.take(
            i as int,
        ));
        // Ignore entity if requested
        if !(ignore_system_headers && child.in_system_header) {
            let mut entities_sub = gather_entities_by_kind_rec(
                child,
                entity_kind_filter,
                ignore_system_headers,
            );
            let ghost sub = referents(entities_sub@);
            entities.append(&mut entities_sub);
            assert(referents(entities@) =~= before + sub);
        }
        i += 1;
    }
    assert(root_entity.children@.take(i as int) =~= root_entity.children@);
    entities
}

} // verus!

//! A sample schema's store, written out by hand, and a session with it.

use crate::index_store::IndexStore;
use vstd::prelude::*;

verus! {

/// A position. It carries no data of its own.
#[derive(Debug, Clone, Copy, PartialEq, Eq, Structural)]
pub struct PositionComponent;

/// A colour, by its red, green and blue parts.
#[derive(Debug, Clone, Copy, PartialEq, Eq, Structural)]
pub struct ColorComponent {
    pub r: u8,
    pub g: u8,
    pub b: u8,
}

/// An entry of some ledger.
#[derive(Debug, Clone, Copy, PartialEq, Eq, Structural)]
pub struct EntryComponent {
    pub data: usize,
}

pub type ColorIndex = IndexStore<ColorComponent>;

pub type PositionIndex = IndexStore<PositionComponent>;

pub type EntryIndex = IndexStore<EntryComponent>;

/// The aggregate store of the schema
///
/// ```text
/// components:
///   Color
///   Position/Positions <- Range
///   Entry/Entries
/// ```
///
/// written out by hand: one index store for each component, under the
/// snake-case spelling of its plural.
#[derive(Debug, Clone)]
pub struct ECS {
    pub colors: ColorIndex,
    pub positions: PositionIndex,
    pub entries: EntryIndex,
}

impl ECS {
    /// An aggregate whose stores are all empty.
    pub fn new() -> (ecs: ECS)
        ensures
            ecs.colors@ == Map::<Seq<char>, ColorComponent>::empty(),
            ecs.positions@ == Map::<Seq<char>, PositionComponent>::empty(),
            ecs.entries@ == Map::<Seq<char>, EntryComponent>::empty(),
    {
        ECS { colors: IndexStore::new(), positions: IndexStore::new(), entries: IndexStore::new() }
    }
}

/// The colours that [`sample_store`] ends with.
pub open spec fn spec_sample_colors() -> Map<Seq<char>, ColorComponent> {
    Map::<Seq<char>, ColorComponent>::empty().insert(
        "red"@,
        ColorComponent { r: 128, g: 0, b: 0 },
    ).insert("blue"@, ColorComponent { r: 0, g: 0, b: 255 })
}

/// The entries that [`sample_store`] ends with.
pub open spec fn spec_sample_entries() -> Map<Seq<char>, EntryComponent> {
    Map::<Seq<char>, EntryComponent>::empty().insert("e1"@, EntryComponent { data: 12340912 })
}

/// A small session with an aggregate store. White is stored and all colours
/// are removed again; red, blue and a darker red are stored, so that the
/// second red replaces the first; two entries are stored and the second is
/// removed.
pub fn sample_store() -> (ecs: ECS)
    ensures
        ecs.colors@ == spec_sample_colors(),
        ecs.positions@ == Map::<Seq<char>, PositionComponent>::empty(),
        ecs.entries@ == spec_sample_entries(),
{
    let mut ecs = ECS::new();
    ecs.colors.update(String::from_str("white"), ColorComponent { r: 255, g: 255, b: 255 });
    ecs.colors.remove_all();

    ecs.colors.update(String::from_str("red"), ColorComponent { r: 255, g: 0, b: 0 });
    ecs.colors.update(String::from_str("blue"), ColorComponent { r: 0, g: 0, b: 255 });
    ecs.colors.update(String::from_str("red"), ColorComponent { r: 128, g: 0, b: 0 });

    ecs.entries.update(String::from_str("e1"), EntryComponent { data: 12340912 });
    ecs.entries.update(String::from_str("e2"), EntryComponent { data: 20958129 });
    ecs.entries.remove(&String::from_str("e2"));

    proof {
        reveal_strlit("red");
        reveal_strlit("blue");
        reveal_strlit("e1");
        reveal_strlit("e2");
        assert("red"@.len() != "blue"@.len());
        assert("e1"@[1] != "e2"@[1]);
    }
    ecs
}

} // verus!

//! One component of a schema, the names derived from it, and what it adds
//! to the synthesis plan.

use crate::plan::{
    FieldDecl, FieldInit, IndexDecl, SpecFieldDecl, SpecFieldInit, SpecFragment, SpecIndexDecl,
    SynthesisFragment,
};
use crate::utils::string_utils::{snake_case, spec_snake_case};
use vstd::prelude::*;

verus! {

/// A name in its two spellings: as written, and in snake case.
#[derive(Debug, Clone, PartialEq, Eq)]
pub struct IdentPair {
    pub snake: String,
    pub camel: String,
}

/// The mathematical value of an [`IdentPair`].
pub struct SpecIdentPair {
    pub snake: Seq<char>,
    pub camel: Seq<char>,
}

impl View for IdentPair {
    type V = SpecIdentPair;

    open spec fn view(&self) -> SpecIdentPair {
        SpecIdentPair { snake: self.snake@, camel: self.camel@ }
    }
}

/// The pair that belongs to `name`.
pub open spec fn spec_ident_pair(name: Seq<char>) -> SpecIdentPair {
    SpecIdentPair { snake: spec_snake_case(name), camel: name }
}

impl IdentPair {
    /// The two spellings of `name`.
    pub fn new(name: &String) -> (pair: IdentPair)
        ensures
            pair@ == spec_ident_pair(name@),
    {
        IdentPair { snake: snake_case(name), camel: name.clone() }
    }
}

/// The names that are derived from a component's name and plural.
#[derive(Debug, Clone, PartialEq, Eq)]
pub struct ComponentBuilderIdents {
    pub name: IdentPair,
    pub plural: IdentPair,
    pub index: IdentPair,
    pub find: IdentPair,
    pub find_all: IdentPair,
    pub remove: IdentPair,
    pub remove_all: IdentPair,
    pub update: IdentPair,
}

/// The mathematical value of a [`ComponentBuilderIdents`].
pub struct SpecIdents {
    pub name: SpecIdentPair,
    pub plural: SpecIdentPair,
    pub index: SpecIdentPair,
    pub find: SpecIdentPair,
    pub find_all: SpecIdentPair,
    pub remove: SpecIdentPair,
    pub remove_all: SpecIdentPair,
    pub update: SpecIdentPair,
}

impl View for ComponentBuilderIdents {
    type V = SpecIdents;

    open spec fn view(&self) -> SpecIdents {
        SpecIdents {
            name: self.name@,
            plural: self.plural@,
            index: self.index@,
            find: self.find@,
            find_all: self.find_all@,
            remove: self.remove@,
            remove_all: self.remove_all@,
            update: self.update@,
        }
    }
}

/// The derived names of a component called `name`, with plural `plural`.
pub open spec fn spec_idents(name: Seq<char>, plural: Seq<char>) -> SpecIdents {
    SpecIdents {
        name: spec_ident_pair(name + "Component"@),
        plural: spec_ident_pair(plural),
        index: spec_ident_pair(name + "Index"@),
        find: spec_ident_pair("find_"@ + name),
        find_all: spec_ident_pair("find_all_"@ + plural),
        remove: spec_ident_pair("remove_"@ + name),
        remove_all: spec_ident_pair("remove_all_"@ + plural),
        update: spec_ident_pair("update_"@ + name),
    }
}

/// One component kind of a schema.
#[derive(Debug, Clone, PartialEq, Eq)]
pub struct ComponentBuilder {
    pub name: String,
    pub plural: String,
    pub indices: Vec<String>,
    pub idents: ComponentBuilderIdents,
}

/// The mathematical value of a [`ComponentBuilder`].
pub struct SpecComponent {
    pub name: Seq<char>,
    pub plural: Seq<char>,
    pub indices: Seq<Seq<char>>,
    pub idents: SpecIdents,
}

/// The character sequences of a list of strings, in order.
pub open spec fn spec_names(names: Seq<String>) -> Seq<Seq<char>> {
    names.map_values(|s: String| s@)
}

impl View for ComponentBuilder {
    type V = SpecComponent;

    open spec fn view(&self) -> SpecComponent {
        SpecComponent {
            name: self.name@,
            plural: self.plural@,
            indices: spec_names(self.indices@),
            idents: self.idents@,
        }
    }
}

/// The component that a schema line with these three parts declares.
pub open spec fn spec_component(
    name: Seq<char>,
    plural: Seq<char>,
    indices: Seq<Seq<char>>,
) -> SpecComponent {
    SpecComponent { name, plural, indices, idents: spec_idents(name, plural) }
}

/// The index store of a component: its type is named by `index`, its values
/// by `name`, and its operations by the snake-case spellings.
pub open spec fn spec_index_decl(c: SpecComponent) -> SpecIndexDecl {
    SpecIndexDecl {
        name: c.idents.index.camel,
        component: c.idents.name.camel,
        find: c.idents.find.snake,
        find_all: c.idents.find_all.snake,
        update: c.idents.update.snake,
        remove: c.idents.remove.snake,
        remove_all: c.idents.remove_all.snake,
    }
}

/// The field of the aggregate type that holds the index store of a
/// component: it is named by the plural in snake case.
pub open spec fn spec_field_decl(c: SpecComponent) -> SpecFieldDecl {
    SpecFieldDecl { name: c.idents.plural.snake, index_type: c.idents.index.camel }
}

/// The initializer of that field.
pub open spec fn spec_field_init(c: SpecComponent) -> SpecFieldInit {
    SpecFieldInit { name: c.idents.plural.snake, index_type: c.idents.index.camel }
}

/// What a component contributes to the plan.
pub open spec fn spec_fragment(c: SpecComponent) -> SpecFragment {
    SpecFragment { index: spec_index_decl(c), decl: spec_field_decl(c), init: spec_field_init(c) }
}

impl ComponentBuilder {
    /// The component with this name, plural and index names, and with the
    /// names that are derived from the first two.
    pub fn new(name: String, plural: String, indices: Vec<String>) -> (builder: ComponentBuilder)
        ensures
            builder@ == spec_component(name@, plural@, spec_names(indices@)),
    {
        let idents = ComponentBuilderIdents {
            name: IdentPair::new(&name.clone().concat("Component")),
            plural: IdentPair::new(&plural),
            index: IdentPair::new(&name.clone().concat("Index")),
            find: IdentPair::new(&String::from_str("find_").concat(name.as_str())),
            find_all: IdentPair::new(&String::from_str("find_all_").concat(plural.as_str())),
            remove: IdentPair::new(&String::from_str("remove_").concat(name.as_str())),
            remove_all: IdentPair::new(&String::from_str("remove_all_").concat(plural.as_str())),
            update: IdentPair::new(&String::from_str("update_").concat(name.as_str())),
        };
        ComponentBuilder { name, plural, indices, idents }
    }

    /// The three parts that this component adds to the plan.
    pub fn build_fragment(&self) -> (fragment: SynthesisFragment)
        ensures
            fragment@ == spec_fragment(self@),
    {
        SynthesisFragment {
            index: self.build_index(),
            decl: self.build_decl(),
            init: self.build_init(),
        }
    }

    /// The declaration of this component's index store, named by `idents`.
    pub fn build_index(&self) -> (decl: IndexDecl)
        ensures
            decl@ == spec_index_decl(self@),
    {
        IndexDecl {
            name: self.idents.index.camel.clone(),
            component: self.idents.name.camel.clone(),
            find: self.idents.find.snake.clone(),
            find_all: self.idents.find_all.snake.clone(),
            update: self.idents.update.snake.clone(),
            remove: self.idents.remove.snake.clone(),
            remove_all: self.idents.remove_all.snake.clone(),
        }
    }

    /// This component's field of the aggregate type.
    pub fn build_decl(&self) -> (decl: FieldDecl)
        ensures
            decl@ == spec_field_decl(self@),
    {
        FieldDecl {
            name: self.idents.plural.snake.clone(),
            index_type: self.idents.index.camel.clone(),
        }
    }

    /// The initializer of this component's field of the aggregate type.
    pub fn build_init(&self) -> (init: FieldInit)
        ensures
            init@ == spec_field_init(self@),
    {
        FieldInit {
            name: self.idents.plural.snake.clone(),
            index_type: self.idents.index.camel.clone(),
        }
    }
}

/// The index names of a component add nothing to the plan: two components
/// with the same name and plural contribute the same fragment.
pub proof fn lemma_fragment_ignores_indices(
    name: Seq<char>,
    plural: Seq<char>,
    indices: Seq<Seq<char>>,
    others: Seq<Seq<char>>,
)
    ensures
        spec_fragment(spec_component(name, plural, indices)) == spec_fragment(
            spec_component(name, plural, others),
        ),
{
}

} // verus!

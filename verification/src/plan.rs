//! The synthesis plan: the declarations that an emitter renders.

use vstd::prelude::*;

verus! {

/// The declaration of one index store: a type that maps string keys to the
/// values of one component kind, with its five named operations.
#[derive(Debug, Clone, PartialEq, Eq)]
pub struct IndexDecl {
    /// The name of the store type.
    pub name: String,
    /// The name of the type of the stored values.
    pub component: String,
    /// Looks one key up.
    pub find: String,
    /// Hands out every stored value.
    pub find_all: String,
    /// Inserts or replaces the value under a key.
    pub update: String,
    /// Deletes the entry under a key.
    pub remove: String,
    /// Deletes every entry.
    pub remove_all: String,
}

/// The mathematical value of a [`IndexDecl`].
pub struct SpecIndexDecl {
    pub name: Seq<char>,
    pub component: Seq<char>,
    pub find: Seq<char>,
    pub find_all: Seq<char>,
    pub update: Seq<char>,
    pub remove: Seq<char>,
    pub remove_all: Seq<char>,
}

impl View for IndexDecl {
    type V = SpecIndexDecl;

    open spec fn view(&self) -> SpecIndexDecl {
        SpecIndexDecl {
            name: self.name@,
            component: self.component@,
            find: self.find@,
            find_all: self.find_all@,
            update: self.update@,
            remove: self.remove@,
            remove_all: self.remove_all@,
        }
    }
}

/// One field of the aggregate type: its name and the index store it holds.
#[derive(Debug, Clone, PartialEq, Eq)]
pub struct FieldDecl {
    pub name: String,
    pub index_type: String,
}

/// The mathematical value of a [`FieldDecl`].
pub struct SpecFieldDecl {
    pub name: Seq<char>,
    pub index_type: Seq<char>,
}

impl View for FieldDecl {
    type V = SpecFieldDecl;

    open spec fn view(&self) -> SpecFieldDecl {
        SpecFieldDecl { name: self.name@, index_type: self.index_type@ }
    }
}

/// The initializer of one field of the aggregate: the field is set to a
/// fresh, empty store of the named index type.
#[derive(Debug, Clone, PartialEq, Eq)]
pub struct FieldInit {
    pub name: String,
    pub index_type: String,
}

/// The mathematical value of a [`FieldInit`].
pub struct SpecFieldInit {
    pub name: Seq<char>,
    pub index_type: Seq<char>,
}

impl View for FieldInit {
    type V = SpecFieldInit;

    open spec fn view(&self) -> SpecFieldInit {
        SpecFieldInit { name: self.name@, index_type: self.index_type@ }
    }
}

/// What one component contributes to the plan.
#[derive(Debug, Clone, PartialEq, Eq)]
pub struct SynthesisFragment {
    pub index: IndexDecl,
    pub decl: FieldDecl,
    pub init: FieldInit,
}

/// The mathematical value of a [`SynthesisFragment`].
pub struct SpecFragment {
    pub index: SpecIndexDecl,
    pub decl: SpecFieldDecl,
    pub init: SpecFieldInit,
}

impl View for SynthesisFragment {
    type V = SpecFragment;

    open spec fn view(&self) -> SpecFragment {
        SpecFragment { index: self.index@, decl: self.decl@, init: self.init@ }
    }
}

/// The aggregate type: one field for each component, in schema order.
#[derive(Debug, Clone, PartialEq, Eq)]
pub struct AggregateDecl {
    pub name: String,
    pub fields: Vec<FieldDecl>,
}

/// The mathematical value of a [`AggregateDecl`].
pub struct SpecAggregateDecl {
    pub name: Seq<char>,
    pub fields: Seq<SpecFieldDecl>,
}

impl View for AggregateDecl {
    type V = SpecAggregateDecl;

    open spec fn view(&self) -> SpecAggregateDecl {
        SpecAggregateDecl {
            name: self.name@,
            fields: self.fields@.map_values(|f: FieldDecl| f@),
        }
    }
}

/// The constructor of the aggregate type: one initializer for each
/// component, in schema order.
#[derive(Debug, Clone, PartialEq, Eq)]
pub struct ConstructorDecl {
    pub aggregate: String,
    pub inits: Vec<FieldInit>,
}

/// The mathematical value of a [`ConstructorDecl`].
pub struct SpecConstructorDecl {
    pub aggregate: Seq<char>,
    pub inits: Seq<SpecFieldInit>,
}

impl View for ConstructorDecl {
    type V = SpecConstructorDecl;

    open spec fn view(&self) -> SpecConstructorDecl {
        SpecConstructorDecl {
            aggregate: self.aggregate@,
            inits: self.inits@.map_values(|i: FieldInit| i@),
        }
    }
}

/// Everything to emit for one schema.
#[derive(Debug, Clone, PartialEq, Eq)]
pub struct SynthesisPlan {
    pub indices: Vec<IndexDecl>,
    pub aggregate: AggregateDecl,
    pub constructor: ConstructorDecl,
}

/// The mathematical value of a [`SynthesisPlan`].
pub struct SpecPlan {
    pub indices: Seq<SpecIndexDecl>,
    pub aggregate: SpecAggregateDecl,
    pub constructor: SpecConstructorDecl,
}

impl View for SynthesisPlan {
    type V = SpecPlan;

    open spec fn view(&self) -> SpecPlan {
        SpecPlan {
            indices: self.indices@.map_values(|d: IndexDecl| d@),
            aggregate: self.aggregate@,
            constructor: self.constructor@,
        }
    }
}

} // verus!

//! The components of a schema together, and the synthesis plan for them.

use crate::component_builder::{
    spec_field_decl, spec_field_init, spec_index_decl, ComponentBuilder, SpecComponent,
};
use crate::plan::{
    AggregateDecl, ConstructorDecl, FieldDecl, FieldInit, IndexDecl, SpecAggregateDecl,
    SpecConstructorDecl, SpecPlan, SynthesisPlan,
};
use vstd::prelude::*;

verus! {

/// The components of one schema, in the order in which it declares them.
#[derive(Debug, Clone, PartialEq, Eq)]
pub struct ECSBuilder {
    pub component_builders: Vec<ComponentBuilder>,
}

/// The values of a list of components, in order.
pub open spec fn spec_components(builders: Seq<ComponentBuilder>) -> Seq<SpecComponent> {
    builders.map_values(|b: ComponentBuilder| b@)
}

impl View for ECSBuilder {
    type V = Seq<SpecComponent>;

    open spec fn view(&self) -> Seq<SpecComponent> {
        spec_components(self.component_builders@)
    }
}

/// The plan for a list of components: their index stores, an aggregate type
/// named `ECS` with one field for each of them, and its constructor with one
/// initializer for each of them, all three in the order of the list.
pub open spec fn spec_plan(components: Seq<SpecComponent>) -> SpecPlan {
    SpecPlan {
        indices: components.map_values(|c: SpecComponent| spec_index_decl(c)),
        aggregate: SpecAggregateDecl {
            name: "ECS"@,
            fields: components.map_values(|c: SpecComponent| spec_field_decl(c)),
        },
        constructor: SpecConstructorDecl {
            aggregate: "ECS"@,
            inits: components.map_values(|c: SpecComponent| spec_field_init(c)),
        },
    }
}

impl ECSBuilder {
    /// The plan for these components: the fragments of each, in order.
    pub fn build(&self) -> (plan: SynthesisPlan)
        ensures
            plan@ == spec_plan(self@),
    {
        let mut indices: Vec<IndexDecl> = Vec::new();
        let mut fields: Vec<FieldDecl> = Vec::new();
        let mut inits: Vec<FieldInit> = Vec::new();
        let count = self.component_builders.len();
        for i in 0..count
            invariant
                count == self.component_builders@.len(),
                indices@.len() == i,
                fields@.len() == i,
                inits@.len() == i,
                forall|k: int| 0 <= k < i ==> (#[trigger] indices@[k])@ == spec_index_decl(self@[k]),
                forall|k: int| 0 <= k < i ==> (#[trigger] fields@[k])@ == spec_field_decl(self@[k]),
                forall|k: int| 0 <= k < i ==> (#[trigger] inits@[k])@ == spec_field_init(self@[k]),
        {
            let fragment = self.component_builders[i].build_fragment();
            indices.push(fragment.index);
            fields.push(fragment.decl);
            inits.push(fragment.init);
        }
        let plan = SynthesisPlan {
            indices,
            aggregate: AggregateDecl { name: String::from_str("ECS"), fields },
            constructor: ConstructorDecl { aggregate: String::from_str("ECS"), inits },
        };
        assert(plan@.indices =~= spec_plan(self@).indices);
        assert(plan@.aggregate.fields =~= spec_plan(self@).aggregate.fields);
        assert(plan@.constructor.inits =~= spec_plan(self@).constructor.inits);
        plan
    }
}

} // verus!

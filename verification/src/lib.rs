//! A small compiler for component stores. A schema names component kinds,
//! each with an optional plural and optional index names:
//!
//! ```text
//! components:
//!   Color
//!   Position/Positions <- Range
//! ```
//!
//! [`expand`] parses the tokens of a schema and builds the plan of a storage
//! module from them: one index store for each component, an aggregate type
//! with one field for each store, and its constructor. The plan is data; to
//! turn it into source text is left to the caller.
//!
//! Every function here is verified against a contract over the mathematical
//! values of its arguments, and the laws of the parser, of the name
//! derivation and of the index store are stated and proved as `proof`
//! functions beside them.

pub mod component_builder;
pub mod ecs_builder;
pub mod ecs_parser;
pub mod grammar;
pub mod index_store;
pub mod plan;
pub mod sample;
pub mod token;
pub mod utils;

use crate::component_builder::SpecComponent;
use crate::ecs_builder::{spec_plan, ECSBuilder};
use crate::ecs_parser::{spec_builder_result, spec_parse, ParseError};
use crate::grammar::{
    lemma_parse_accepts_schemas, lemma_parse_schema_tokens, spec_all_declared, spec_declared,
    spec_is_schema, spec_schema_tokens, Declaration,
};
use crate::plan::{SpecFieldDecl, SpecFieldInit, SpecIndexDecl, SpecPlan, SynthesisPlan};
use crate::token::{spec_tokens, SpecToken, Token, TokenCursor};
use crate::utils::result_utils::ResultUtils;
use crate::utils::string_utils::spec_snake_case;
use vstd::prelude::*;

verus! {

/// The components that a whole token stream declares, or the first error in it.
pub open spec fn spec_schema(tokens: Seq<SpecToken>) -> Result<Seq<SpecComponent>, ParseError> {
    spec_parse(tokens, 0).result
}

/// The plan for a whole token stream, or the first error in it.
pub open spec fn spec_expand(tokens: Seq<SpecToken>) -> Result<SpecPlan, ParseError> {
    match spec_schema(tokens) {
        Ok(components) => Ok(spec_plan(components)),
        Err(e) => Err(e),
    }
}

/// What a run of [`expand`] yields, as a value.
pub open spec fn spec_plan_result(r: Result<SynthesisPlan, ParseError>) -> Result<
    SpecPlan,
    ParseError,
> {
    match r {
        Ok(plan) => Ok(plan@),
        Err(e) => Err(e),
    }
}

/// Parses a token stream from its start. It yields the components of the
/// stream if the stream is a schema, and the first error in it otherwise.
pub fn parse(tokens: Vec<Token>) -> (r: Result<ECSBuilder, ParseError>)
    ensures
        spec_builder_result(r) == spec_schema(spec_tokens(tokens@)),
        r.is_ok() <==> spec_is_schema(spec_tokens(tokens@)),
{
    proof {
        lemma_parse_accepts_schemas(spec_tokens(tokens@));
    }
    let mut parser = TokenCursor::new(tokens);
    ecs_parser::parse(&mut parser)
}

/// The synthesis plan of a schema: all of it, or the first error and no plan.
pub fn expand(tokens: Vec<Token>) -> (r: Result<SynthesisPlan, ParseError>)
    ensures
        spec_plan_result(r) == spec_expand(spec_tokens(tokens@)),
        r.is_ok() <==> spec_is_schema(spec_tokens(tokens@)),
{
    let build = |ecs_builder: ECSBuilder| -> (built: Result<SynthesisPlan, ParseError>)
        ensures
            built matches Ok(plan) && plan@ == spec_plan(ecs_builder@),
        {
            let plan = ecs_builder.build();
            Ok(plan)
        };
    parse(tokens).flat_map(build)
}

/// The plan depends on the token stream alone: whatever two runs of
/// [`expand`] on one stream return, it is the same plan or the same error.
pub proof fn lemma_expand_deterministic(
    tokens: Seq<SpecToken>,
    first: Result<SynthesisPlan, ParseError>,
    second: Result<SynthesisPlan, ParseError>,
)
    requires
        spec_plan_result(first) == spec_expand(tokens),
        spec_plan_result(second) == spec_expand(tokens),
    ensures
        spec_plan_result(first) == spec_plan_result(second),
        first.is_ok() == second.is_ok(),
{
}

/// The plan of a well-formed schema has one index store, one field of the
/// aggregate and one initializer for each declaration, in the order of the
/// declarations, and each is named after its declaration: the store by the
/// name and `Index`, its values by the name and `Component`, the field by
/// the plural in snake case, and the five operations by their verb with the
/// name or the plural, in snake case.
pub proof fn lemma_expand_schema_tokens(ds: Seq<Declaration>)
    requires
        ds.len() > 0,
    ensures
        spec_expand(spec_schema_tokens(ds)) == Ok::<SpecPlan, ParseError>(
            spec_plan(spec_all_declared(ds)),
        ),
        spec_plan(spec_all_declared(ds)).indices.len() == ds.len(),
        spec_plan(spec_all_declared(ds)).aggregate.fields.len() == ds.len(),
        spec_plan(spec_all_declared(ds)).constructor.inits.len() == ds.len(),
        forall|i: int|
            0 <= i < ds.len() ==> #[trigger] spec_plan(spec_all_declared(ds)).indices[i] == (
            SpecIndexDecl {
                name: ds[i].name + "Index"@,
                component: ds[i].name + "Component"@,
                find: spec_snake_case("find_"@ + ds[i].name),
                find_all: spec_snake_case("find_all_"@ + spec_declared(ds[i]).plural),
                update: spec_snake_case("update_"@ + ds[i].name),
                remove: spec_snake_case("remove_"@ + ds[i].name),
                remove_all: spec_snake_case("remove_all_"@ + spec_declared(ds[i]).plural),
            }),
        forall|i: int|
            0 <= i < ds.len() ==> #[trigger] spec_plan(spec_all_declared(ds)).aggregate.fields[i]
                == (SpecFieldDecl {
                name: spec_snake_case(spec_declared(ds[i]).plural),
                index_type: ds[i].name + "Index"@,
            }),
        forall|i: int|
            0 <= i < ds.len() ==> #[trigger] spec_plan(spec_all_declared(ds)).constructor.inits[i]
                == (SpecFieldInit {
                name: spec_snake_case(spec_declared(ds[i]).plural),
                index_type: ds[i].name + "Index"@,
            }),
{
    lemma_parse_schema_tokens(ds);
}

} // verus!

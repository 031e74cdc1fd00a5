//! The schema grammar from the writer's side: declarations, the tokens that
//! spell them, and the laws that tie the parser to them.

use crate::component_builder::{spec_component, SpecComponent};
use crate::ecs_parser::{
    lemma_component_end, spec_default_plural, spec_ident_at, spec_parse, spec_parse_component,
    spec_parse_components, spec_parse_index_list, spec_parse_optional_indices,
    spec_parse_optional_plural, ParseError, Parsed,
};
use crate::token::{spec_holds_identifiers, spec_is_identifier, token_at, SpecToken};
use vstd::prelude::*;

verus! {

/// One component as a schema writes it down: its name, its plural if the
/// schema gives one, and its index names (none where the schema has no `<-`).
pub struct Declaration {
    pub name: Seq<char>,
    pub plural: Option<Seq<char>>,
    pub indices: Seq<Seq<char>>,
}

/// The component that a declaration stands for: without a plural of its
/// own it gets its name with an `s`.
pub open spec fn spec_declared(d: Declaration) -> SpecComponent {
    spec_component(
        d.name,
        match d.plural {
            Some(plural) => plural,
            None => spec_default_plural(d.name),
        },
        d.indices,
    )
}

/// The components that a list of declarations stands for, in the same order.
pub open spec fn spec_all_declared(ds: Seq<Declaration>) -> Seq<SpecComponent> {
    ds.map_values(|d: Declaration| spec_declared(d))
}

/// The tokens of an index list: the names with a comma between each two.
pub open spec fn spec_index_tokens(indices: Seq<Seq<char>>) -> Seq<SpecToken>
    decreases indices.len(),
{
    if indices.len() == 0 {
        seq![]
    } else if indices.len() == 1 {
        seq![SpecToken::Ident(indices[0])]
    } else {
        seq![SpecToken::Ident(indices[0]), SpecToken::Comma] + spec_index_tokens(
            indices.drop_first(),
        )
    }
}

/// The tokens of `/ plural`, where there is a plural.
pub open spec fn spec_plural_tokens(plural: Option<Seq<char>>) -> Seq<SpecToken> {
    match plural {
        Some(plural) => seq![SpecToken::Slash, SpecToken::Ident(plural)],
        None => seq![],
    }
}

/// The tokens of `<- a, b, ..`, where there are index names.
pub open spec fn spec_indices_tokens(indices: Seq<Seq<char>>) -> Seq<SpecToken> {
    if indices.len() == 0 {
        seq![]
    } else {
        seq![SpecToken::LArrow] + spec_index_tokens(indices)
    }
}

/// The tokens of one declaration: `Name [/ Plural] [<- Index, ..]`.
pub open spec fn spec_declaration_tokens(d: Declaration) -> Seq<SpecToken> {
    seq![SpecToken::Ident(d.name)] + spec_plural_tokens(d.plural) + spec_indices_tokens(d.indices)
}

/// The tokens of a list of declarations, one after the other.
pub open spec fn spec_declarations_tokens(ds: Seq<Declaration>) -> Seq<SpecToken>
    decreases ds.len(),
{
    if ds.len() == 0 {
        seq![]
    } else {
        spec_declaration_tokens(ds[0]) + spec_declarations_tokens(ds.drop_first())
    }
}

/// The tokens of a schema: the header `components :`, then the declarations.
pub open spec fn spec_schema_tokens(ds: Seq<Declaration>) -> Seq<SpecToken> {
    seq![SpecToken::Ident("components"@), SpecToken::Colon] + spec_declarations_tokens(ds)
}

/// `piece` stands in `tokens` from `pos` on.
pub open spec fn spec_stands_at(tokens: Seq<SpecToken>, pos: int, piece: Seq<SpecToken>) -> bool {
    &&& 0 <= pos
    &&& pos + piece.len() <= tokens.len()
    &&& tokens.subrange(pos, pos + piece.len()) == piece
}

/// What may follow a declaration: the start of the next one, or the end of input.
pub open spec fn spec_ends_declaration(next: Option<SpecToken>) -> bool {
    match next {
        None => true,
        Some(SpecToken::Ident(_)) => true,
        Some(_) => false,
    }
}

proof fn lemma_stands_at_token(tokens: Seq<SpecToken>, pos: int, piece: Seq<SpecToken>, k: int)
    requires
        spec_stands_at(tokens, pos, piece),
        0 <= k < piece.len(),
    ensures
        token_at(tokens, pos + k) == Some(piece[k]),
{
}

proof fn lemma_stands_at_split(
    tokens: Seq<SpecToken>,
    pos: int,
    front: Seq<SpecToken>,
    back: Seq<SpecToken>,
)
    requires
        spec_stands_at(tokens, pos, front + back),
    ensures
        spec_stands_at(tokens, pos, front),
        spec_stands_at(tokens, pos + front.len(), back),
{
    let whole = front + back;
    assert(tokens.subrange(pos, pos + front.len()) =~= front);
    assert(tokens.subrange(pos + front.len(), pos + front.len() + back.len()) =~= back) by {
        assert forall|k: int| 0 <= k < back.len() implies tokens[pos + front.len() + k]
            == back[k] by {
            lemma_stands_at_token(tokens, pos, whole, front.len() + k);
        }
    }
}

/// An index list that stands in the stream, with no comma behind it, parses
/// to its names and ends behind its last name.
pub proof fn lemma_parse_index_tokens(
    tokens: Seq<SpecToken>,
    pos: int,
    indices: Seq<Seq<char>>,
    after_comma: bool,
)
    requires
        indices.len() > 0,
        spec_stands_at(tokens, pos, spec_index_tokens(indices)),
        token_at(tokens, pos + spec_index_tokens(indices).len()) != Some(SpecToken::Comma),
    ensures
        spec_parse_index_list(tokens, pos, after_comma) == (Parsed {
            result: Ok(indices),
            end: pos + spec_index_tokens(indices).len(),
        }),
    decreases indices.len(),
{
    let piece = spec_index_tokens(indices);
    lemma_stands_at_token(tokens, pos, piece, 0);
    if indices.len() == 1 {
        assert(indices =~= seq![indices[0]]);
    } else {
        let rest = indices.drop_first();
        let front = seq![SpecToken::Ident(indices[0]), SpecToken::Comma];
        lemma_stands_at_token(tokens, pos, piece, 1);
        lemma_stands_at_split(tokens, pos, front, spec_index_tokens(rest));
        lemma_parse_index_tokens(tokens, pos + 2, rest, true);
        assert(seq![indices[0]] + rest =~= indices);
    }
}

/// A declaration that stands in the stream, followed by the next declaration
/// or by the end of input, parses to the component it stands for.
pub proof fn lemma_parse_declaration_tokens(tokens: Seq<SpecToken>, pos: int, d: Declaration)
    requires
        spec_stands_at(tokens, pos, spec_declaration_tokens(d)),
        spec_ends_declaration(token_at(tokens, pos + spec_declaration_tokens(d).len())),
    ensures
        spec_parse_component(tokens, pos) == (Parsed {
            result: Ok(spec_declared(d)),
            end: pos + spec_declaration_tokens(d).len(),
        }),
{
    let name = seq![SpecToken::Ident(d.name)];
    let plural = spec_plural_tokens(d.plural);
    let indices = spec_indices_tokens(d.indices);
    lemma_stands_at_split(tokens, pos, name + plural, indices);
    lemma_stands_at_split(tokens, pos, name, plural);
    lemma_stands_at_token(tokens, pos, name, 0);
    let after_plural = pos + 1 + plural.len();
    // Behind the plural part stands the arrow, where there are index names.
    if indices.len() > 0 {
        lemma_stands_at_token(tokens, after_plural, indices, 0);
    }
    if d.plural.is_some() {
        lemma_stands_at_token(tokens, pos + 1, plural, 0);
        lemma_stands_at_token(tokens, pos + 1, plural, 1);
    }
    if d.indices.len() > 0 {
        let list = spec_index_tokens(d.indices);
        lemma_stands_at_split(tokens, after_plural, seq![SpecToken::LArrow], list);
        lemma_parse_index_tokens(tokens, after_plural + 1, d.indices, false);
    } else {
        assert(d.indices =~= Seq::<Seq<char>>::empty());
    }
}

/// A list of declarations that fills the rest of the stream parses to the
/// components it stands for, one for each declaration and in their order.
pub proof fn lemma_parse_declarations_tokens(
    tokens: Seq<SpecToken>,
    pos: int,
    ds: Seq<Declaration>,
)
    requires
        ds.len() > 0,
        spec_stands_at(tokens, pos, spec_declarations_tokens(ds)),
        pos + spec_declarations_tokens(ds).len() == tokens.len(),
    ensures
        spec_parse_components(tokens, pos) == (Parsed {
            result: Ok(spec_all_declared(ds)),
            end: tokens.len() as int,
        }),
    decreases ds.len(),
{
    let first = spec_declaration_tokens(ds[0]);
    let rest = ds.drop_first();
    let others = spec_declarations_tokens(rest);
    lemma_stands_at_split(tokens, pos, first, others);
    let next = pos + first.len();
    if rest.len() == 0 {
        lemma_parse_declaration_tokens(tokens, pos, ds[0]);
        assert(spec_all_declared(ds) =~= seq![spec_declared(ds[0])]);
    } else {
        lemma_stands_at_token(tokens, next, others, 0);
        lemma_parse_declaration_tokens(tokens, pos, ds[0]);
        lemma_parse_declarations_tokens(tokens, next, rest);
        assert(seq![spec_declared(ds[0])] + spec_all_declared(rest) =~= spec_all_declared(ds));
    }
}

/// Every well-formed schema parses, and to one component for each
/// declaration, in the order of the declarations. A declaration without a
/// plural yields the name with an `s` as its plural.
pub proof fn lemma_parse_schema_tokens(ds: Seq<Declaration>)
    requires
        ds.len() > 0,
    ensures
        spec_parse(spec_schema_tokens(ds), 0) == (Parsed {
            result: Ok(spec_all_declared(ds)),
            end: spec_schema_tokens(ds).len() as int,
        }),
        spec_all_declared(ds).len() == ds.len(),
        forall|i: int|
            0 <= i < ds.len() ==> (#[trigger] spec_all_declared(ds)[i]).name == ds[i].name,
        forall|i: int|
            0 <= i < ds.len() && ds[i].plural.is_none() ==> (#[trigger] spec_all_declared(
                ds,
            )[i]).plural == ds[i].name.push('s'),
{
    let header = seq![SpecToken::Ident("components"@), SpecToken::Colon];
    let body = spec_declarations_tokens(ds);
    let tokens = spec_schema_tokens(ds);
    assert(tokens.subrange(0, tokens.len() as int) =~= tokens);
    lemma_stands_at_split(tokens, 0, header, body);
    lemma_stands_at_token(tokens, 0, header, 0);
    lemma_stands_at_token(tokens, 0, header, 1);
    lemma_parse_declarations_tokens(tokens, 2, ds);
}

proof fn lemma_stands_at_join(
    tokens: Seq<SpecToken>,
    pos: int,
    front: Seq<SpecToken>,
    back: Seq<SpecToken>,
)
    requires
        spec_stands_at(tokens, pos, front),
        spec_stands_at(tokens, pos + front.len(), back),
    ensures
        spec_stands_at(tokens, pos, front + back),
{
    let whole = front + back;
    assert(tokens.subrange(pos, pos + whole.len()) =~= whole);
}

proof fn lemma_stands_at_one(tokens: Seq<SpecToken>, pos: int, token: SpecToken)
    requires
        token_at(tokens, pos) == Some(token),
    ensures
        spec_stands_at(tokens, pos, seq![token]),
{
    assert(tokens.subrange(pos, pos + 1) =~= seq![token]);
}

/// Where an index list parses, the names it yields stand in the stream with
/// a comma between each two, and no comma follows the last.
pub proof fn lemma_index_list_is_spelled(
    tokens: Seq<SpecToken>,
    pos: int,
    after_comma: bool,
) -> (indices: Seq<Seq<char>>)
    requires
        0 <= pos <= tokens.len(),
        spec_parse_index_list(tokens, pos, after_comma).result.is_ok(),
    ensures
        indices.len() > 0,
        spec_parse_index_list(tokens, pos, after_comma).result == Ok::<
            Seq<Seq<char>>,
            ParseError,
        >(indices),
        spec_parse_index_list(tokens, pos, after_comma).end == pos + spec_index_tokens(
            indices,
        ).len(),
        spec_stands_at(tokens, pos, spec_index_tokens(indices)),
        token_at(tokens, pos + spec_index_tokens(indices).len()) != Some(SpecToken::Comma),
    decreases tokens.len() - pos,
{
    let name = spec_ident_at(tokens, pos)->Some_0;
    lemma_stands_at_one(tokens, pos, SpecToken::Ident(name));
    if token_at(tokens, pos + 1) == Some(SpecToken::Comma) {
        let rest = lemma_index_list_is_spelled(tokens, pos + 2, true);
        let indices = seq![name] + rest;
        assert(indices.drop_first() =~= rest);
        lemma_stands_at_one(tokens, pos + 1, SpecToken::Comma);
        lemma_stands_at_join(tokens, pos, seq![SpecToken::Ident(name)], seq![SpecToken::Comma]);
        assert(seq![SpecToken::Ident(name)] + seq![SpecToken::Comma] =~= seq![
            SpecToken::Ident(name),
            SpecToken::Comma,
        ]);
        lemma_stands_at_join(
            tokens,
            pos,
            seq![SpecToken::Ident(name), SpecToken::Comma],
            spec_index_tokens(rest),
        );
        indices
    } else {
        seq![name]
    }
}

/// Where a component parses, a declaration of it stands in the stream, and
/// the parse ends behind that declaration.
pub proof fn lemma_component_is_spelled(tokens: Seq<SpecToken>, pos: int) -> (d: Declaration)
    requires
        0 <= pos <= tokens.len(),
        spec_parse_component(tokens, pos).result.is_ok(),
    ensures
        spec_parse_component(tokens, pos).result == Ok::<SpecComponent, ParseError>(
            spec_declared(d),
        ),
        spec_parse_component(tokens, pos).end == pos + spec_declaration_tokens(d).len(),
        spec_stands_at(tokens, pos, spec_declaration_tokens(d)),
{
    let name = spec_ident_at(tokens, pos)->Some_0;
    let plural = spec_parse_optional_plural(tokens, pos + 1);
    let plural_or_none = plural.result->Ok_0;
    let indices = spec_parse_optional_indices(tokens, plural.end);
    let list = match indices.result->Ok_0 {
        Some(_) => lemma_index_list_is_spelled(tokens, plural.end + 1, false),
        None => Seq::empty(),
    };
    let d = Declaration { name, plural: plural_or_none, indices: list };
    let name_piece = seq![SpecToken::Ident(name)];
    let plural_piece = spec_plural_tokens(plural_or_none);
    let indices_piece = spec_indices_tokens(list);
    lemma_stands_at_one(tokens, pos, SpecToken::Ident(name));
    assert(spec_stands_at(tokens, pos + 1, plural_piece)) by {
        match plural_or_none {
            Some(p) => {
                lemma_stands_at_one(tokens, pos + 1, SpecToken::Slash);
                lemma_stands_at_one(tokens, pos + 2, SpecToken::Ident(p));
                lemma_stands_at_join(
                    tokens,
                    pos + 1,
                    seq![SpecToken::Slash],
                    seq![SpecToken::Ident(p)],
                );
                assert(seq![SpecToken::Slash] + seq![SpecToken::Ident(p)] =~= plural_piece);
            },
            None => {
                assert(tokens.subrange(pos + 1, pos + 1) =~= plural_piece);
            },
        }
    }
    assert(spec_stands_at(tokens, plural.end, indices_piece)) by {
        if list.len() > 0 {
            lemma_stands_at_one(tokens, plural.end, SpecToken::LArrow);
            lemma_stands_at_join(
                tokens,
                plural.end,
                seq![SpecToken::LArrow],
                spec_index_tokens(list),
            );
        } else {
            assert(tokens.subrange(plural.end, plural.end) =~= indices_piece);
        }
    }
    lemma_stands_at_join(tokens, pos, name_piece, plural_piece);
    lemma_stands_at_join(tokens, pos, name_piece + plural_piece, indices_piece);
    d
}

/// Where a list of components parses, declarations of them fill the stream
/// from the start of the parse to the end of input.
pub proof fn lemma_components_are_spelled(tokens: Seq<SpecToken>, pos: int) -> (ds: Seq<
    Declaration,
>)
    requires
        0 <= pos <= tokens.len(),
        spec_parse_components(tokens, pos).result.is_ok(),
    ensures
        ds.len() > 0,
        spec_parse_components(tokens, pos).result == Ok::<Seq<SpecComponent>, ParseError>(
            spec_all_declared(ds),
        ),
        spec_stands_at(tokens, pos, spec_declarations_tokens(ds)),
        pos + spec_declarations_tokens(ds).len() == tokens.len(),
    decreases tokens.len() - pos,
{
    let first = spec_parse_component(tokens, pos);
    lemma_component_end(tokens, pos);
    let d = lemma_component_is_spelled(tokens, pos);
    let piece = spec_declaration_tokens(d);
    match token_at(tokens, first.end) {
        Some(SpecToken::Ident(_)) => {
            let rest = lemma_components_are_spelled(tokens, first.end);
            let ds = seq![d] + rest;
            assert(ds.drop_first() =~= rest);
            assert(spec_all_declared(ds) =~= seq![spec_declared(d)] + spec_all_declared(rest));
            lemma_stands_at_join(tokens, pos, piece, spec_declarations_tokens(rest));
            ds
        },
        _ => {
            let ds = seq![d];
            assert(spec_all_declared(ds) =~= seq![spec_declared(d)]);
            assert(spec_declarations_tokens(ds.drop_first()) =~= Seq::<SpecToken>::empty());
            ds
        },
    }
}

/// A token stream is a schema: the header and one declaration or more.
pub open spec fn spec_is_schema(tokens: Seq<SpecToken>) -> bool {
    exists|ds: Seq<Declaration>| ds.len() > 0 && tokens == #[trigger] spec_schema_tokens(ds)
}

/// The parser accepts the schemas and nothing else: a parse from the start
/// of a stream succeeds if and only if the stream is the header and one
/// declaration or more.
pub proof fn lemma_parse_accepts_schemas(tokens: Seq<SpecToken>)
    ensures
        spec_parse(tokens, 0).result.is_ok() <==> spec_is_schema(tokens),
{
    if spec_parse(tokens, 0).result.is_ok() {
        let header = seq![SpecToken::Ident("components"@), SpecToken::Colon];
        lemma_stands_at_one(tokens, 0, SpecToken::Ident("components"@));
        lemma_stands_at_one(tokens, 1, SpecToken::Colon);
        lemma_stands_at_join(
            tokens,
            0,
            seq![SpecToken::Ident("components"@)],
            seq![SpecToken::Colon],
        );
        assert(seq![SpecToken::Ident("components"@)] + seq![SpecToken::Colon] =~= header);
        let ds = lemma_components_are_spelled(tokens, 2);
        lemma_stands_at_join(tokens, 0, header, spec_declarations_tokens(ds));
        assert(tokens == spec_schema_tokens(ds));
    }
    if spec_is_schema(tokens) {
        let ds = choose|ds: Seq<Declaration>|
            ds.len() > 0 && tokens == #[trigger] spec_schema_tokens(ds);
        lemma_parse_schema_tokens(ds);
    }
}

/// A parse that succeeds has consumed the whole stream.
pub proof fn lemma_parse_consumes_all(tokens: Seq<SpecToken>)
    requires
        spec_parse(tokens, 0).result.is_ok(),
    ensures
        spec_parse(tokens, 0).end == tokens.len(),
{
    lemma_parse_accepts_schemas(tokens);
    let ds = choose|ds: Seq<Declaration>|
        ds.len() > 0 && tokens == #[trigger] spec_schema_tokens(ds);
    lemma_parse_schema_tokens(ds);
}

/// Whether the name, the plural and the index names of a component are
/// identifiers.
pub open spec fn spec_named_by_identifiers(c: SpecComponent) -> bool {
    &&& spec_is_identifier(c.name)
    &&& spec_is_identifier(c.plural)
    &&& forall|i: int| 0 <= i < c.indices.len() ==> spec_is_identifier(#[trigger] c.indices[i])
}

proof fn lemma_index_list_identifiers(tokens: Seq<SpecToken>, pos: int, after_comma: bool)
    requires
        spec_holds_identifiers(tokens),
        0 <= pos <= tokens.len(),
    ensures
        spec_parse_index_list(tokens, pos, after_comma).result matches Ok(indices) ==> forall|
            i: int,
        | 0 <= i < indices.len() ==> spec_is_identifier(#[trigger] indices[i]),
    decreases tokens.len() - pos,
{
    if spec_ident_at(tokens, pos).is_some() && token_at(tokens, pos + 1) == Some(
        SpecToken::Comma,
    ) {
        lemma_index_list_identifiers(tokens, pos + 2, true);
    }
}

proof fn lemma_component_identifiers(tokens: Seq<SpecToken>, pos: int)
    requires
        spec_holds_identifiers(tokens),
        0 <= pos <= tokens.len(),
    ensures
        spec_parse_component(tokens, pos).result matches Ok(c) ==> spec_named_by_identifiers(c),
{
    if spec_ident_at(tokens, pos).is_some() {
        let plural = spec_parse_optional_plural(tokens, pos + 1);
        if plural.result.is_ok() && token_at(tokens, plural.end) == Some(SpecToken::LArrow) {
            lemma_index_list_identifiers(tokens, plural.end + 1, false);
        }
    }
}

proof fn lemma_components_identifiers(tokens: Seq<SpecToken>, pos: int)
    requires
        spec_holds_identifiers(tokens),
        0 <= pos <= tokens.len(),
    ensures
        spec_parse_components(tokens, pos).result matches Ok(components) ==> forall|i: int|
            0 <= i < components.len() ==> spec_named_by_identifiers(#[trigger] components[i]),
    decreases tokens.len() - pos,
{
    lemma_component_identifiers(tokens, pos);
    lemma_component_end(tokens, pos);
    let first = spec_parse_component(tokens, pos);
    if first.result.is_ok() {
        if let Some(SpecToken::Ident(_)) = token_at(tokens, first.end) {
            lemma_components_identifiers(tokens, first.end);
        }
    }
}

/// Where the identifier tokens of a stream hold identifiers, every
/// component that the stream declares has an identifier for its name, for
/// its plural and for each of its index names.
pub proof fn lemma_parsed_names_are_identifiers(tokens: Seq<SpecToken>)
    requires
        spec_holds_identifiers(tokens),
    ensures
        spec_parse(tokens, 0).result matches Ok(components) ==> forall|i: int|
            0 <= i < components.len() ==> spec_named_by_identifiers(#[trigger] components[i]),
{
    if spec_parse(tokens, 0).result.is_ok() {
        lemma_components_identifiers(tokens, 2);
    }
}

} // verus!

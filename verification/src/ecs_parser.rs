//! The schema parser: recursive descent with one token of lookahead. The
//! first error ends a parse, and nothing of a schema is handed out unless
//! all of it parses.

use crate::component_builder::{spec_component, spec_names, ComponentBuilder, SpecComponent};
use crate::ecs_builder::{spec_components, ECSBuilder};
use crate::token::{next_position, token_at, SpecToken, Token, TokenCursor};
use vstd::prelude::*;

verus! {

/// Why a token stream is no schema.
#[derive(Debug, Clone, Copy, PartialEq, Eq, Structural)]
pub enum ParseError {
    /// The stream does not start with the identifier `components`.
    MissingOrWrongHeader,
    /// The header is not followed by `:`.
    MissingHeaderColon,
    /// A component declaration does not start with an identifier.
    MalformedComponentName,
    /// No identifier follows a `/`.
    MissingPluralAfterSeparator,
    /// No identifier follows a `<-`.
    MalformedIndexList,
    /// No identifier follows a `,` in an index list.
    MissingIndexAfterComma,
    /// After a component comes a token that neither starts another component
    /// nor ends the input.
    UnexpectedTrailingToken,
}

impl ParseError {
    /// The text that goes with an error.
    pub open spec fn spec_message(self) -> Seq<char> {
        match self {
            ParseError::MissingOrWrongHeader => "Expected header to be `components:`"@,
            ParseError::MissingHeaderColon => "Expected header to be followed by a colon"@,
            ParseError::MalformedComponentName => "Failed to parse component name"@,
            ParseError::MissingPluralAfterSeparator => "Pluralization name not found after slash"@,
            ParseError::MalformedIndexList => "Failed to parse index name"@,
            ParseError::MissingIndexAfterComma => "Failed to parse index name"@,
            ParseError::UnexpectedTrailingToken => "Failed to parse list of components"@,
        }
    }

    /// The text that goes with this error.
    pub fn message(&self) -> (text: &'static str)
        ensures
            text@ == self.spec_message(),
    {
        match self {
            ParseError::MissingOrWrongHeader => "Expected header to be `components:`",
            ParseError::MissingHeaderColon => "Expected header to be followed by a colon",
            ParseError::MalformedComponentName => "Failed to parse component name",
            ParseError::MissingPluralAfterSeparator => "Pluralization name not found after slash",
            ParseError::MalformedIndexList => "Failed to parse index name",
            ParseError::MissingIndexAfterComma => "Failed to parse index name",
            ParseError::UnexpectedTrailingToken => "Failed to parse list of components",
        }
    }
}

/// The outcome of a parse that starts at some position: what it yields, and
/// the position at which it leaves the cursor.
pub struct Parsed<T> {
    pub result: Result<T, ParseError>,
    pub end: int,
}

/// The text of the identifier at `pos`, if an identifier is there.
pub open spec fn spec_ident_at(tokens: Seq<SpecToken>, pos: int) -> Option<Seq<char>> {
    match token_at(tokens, pos) {
        Some(SpecToken::Ident(text)) => Some(text),
        _ => None,
    }
}

/// `Header := Ident(="components") ":"`
pub open spec fn spec_parse_component_header(tokens: Seq<SpecToken>, pos: int) -> Parsed<()> {
    match spec_ident_at(tokens, pos) {
        Some(text) => if text == "components"@ {
            if token_at(tokens, pos + 1) == Some(SpecToken::Colon) {
                Parsed { result: Ok(()), end: pos + 2 }
            } else {
                Parsed { result: Err(ParseError::MissingHeaderColon), end: pos + 1 }
            }
        } else {
            Parsed { result: Err(ParseError::MissingOrWrongHeader), end: pos + 1 }
        },
        None => Parsed {
            result: Err(ParseError::MissingOrWrongHeader),
            end: next_position(tokens, pos),
        },
    }
}

/// `["/" Ident]`
pub open spec fn spec_parse_optional_plural(tokens: Seq<SpecToken>, pos: int) -> Parsed<
    Option<Seq<char>>,
> {
    if token_at(tokens, pos) == Some(SpecToken::Slash) {
        match spec_ident_at(tokens, pos + 1) {
            Some(plural) => Parsed { result: Ok(Some(plural)), end: pos + 2 },
            None => Parsed {
                result: Err(ParseError::MissingPluralAfterSeparator),
                end: next_position(tokens, pos + 1),
            },
        }
    } else {
        Parsed { result: Ok(None), end: pos }
    }
}

/// The error for a missing index name: one for the first name of a list,
/// another for a name after a comma.
pub open spec fn spec_missing_index(after_comma: bool) -> ParseError {
    if after_comma {
        ParseError::MissingIndexAfterComma
    } else {
        ParseError::MalformedIndexList
    }
}

/// `items` in front of what `rest` yields; an error of `rest` stays.
pub open spec fn spec_prepend<T>(items: Seq<T>, rest: Parsed<Seq<T>>) -> Parsed<Seq<T>> {
    match rest.result {
        Ok(more) => Parsed { result: Ok(items + more), end: rest.end },
        Err(e) => Parsed { result: Err(e), end: rest.end },
    }
}

/// `identList := Ident ("," Ident)*`
pub open spec fn spec_parse_index_list(
    tokens: Seq<SpecToken>,
    pos: int,
    after_comma: bool,
) -> Parsed<Seq<Seq<char>>>
    decreases tokens.len() - pos,
{
    match spec_ident_at(tokens, pos) {
        Some(name) => if token_at(tokens, pos + 1) == Some(SpecToken::Comma) {
            spec_prepend(seq![name], spec_parse_index_list(tokens, pos + 2, true))
        } else {
            Parsed { result: Ok(seq![name]), end: pos + 1 }
        },
        None => Parsed {
            result: Err(spec_missing_index(after_comma)),
            end: next_position(tokens, pos),
        },
    }
}

/// `["<-" identList]`
pub open spec fn spec_parse_optional_indices(tokens: Seq<SpecToken>, pos: int) -> Parsed<
    Option<Seq<Seq<char>>>,
> {
    if token_at(tokens, pos) == Some(SpecToken::LArrow) {
        let list = spec_parse_index_list(tokens, pos + 1, false);
        match list.result {
            Ok(indices) => Parsed { result: Ok(Some(indices)), end: list.end },
            Err(e) => Parsed { result: Err(e), end: list.end },
        }
    } else {
        Parsed { result: Ok(None), end: pos }
    }
}

/// The plural of a component that declares none: its name and an `s`.
pub open spec fn spec_default_plural(name: Seq<char>) -> Seq<char> {
    name.push('s')
}

/// `component := Ident ["/" Ident] ["<-" identList]`
pub open spec fn spec_parse_component(tokens: Seq<SpecToken>, pos: int) -> Parsed<SpecComponent> {
    match spec_ident_at(tokens, pos) {
        None => Parsed {
            result: Err(ParseError::MalformedComponentName),
            end: next_position(tokens, pos),
        },
        Some(name) => {
            let plural = spec_parse_optional_plural(tokens, pos + 1);
            match plural.result {
                Err(e) => Parsed { result: Err(e), end: plural.end },
                Ok(plural_or_none) => {
                    let indices = spec_parse_optional_indices(tokens, plural.end);
                    match indices.result {
                        Err(e) => Parsed { result: Err(e), end: indices.end },
                        Ok(indices_or_none) => Parsed {
                            result: Ok(
                                spec_component(
                                    name,
                                    match plural_or_none {
                                        Some(p) => p,
                                        None => spec_default_plural(name),
                                    },
                                    match indices_or_none {
                                        Some(l) => l,
                                        None => Seq::empty(),
                                    },
                                ),
                            ),
                            end: indices.end,
                        },
                    }
                },
            }
        },
    }
}

/// A parse that starts inside the stream ends inside it, and an index list
/// that parses has consumed at least one token.
pub proof fn lemma_index_list_end(tokens: Seq<SpecToken>, pos: int, after_comma: bool)
    requires
        0 <= pos <= tokens.len(),
    ensures
        pos <= spec_parse_index_list(tokens, pos, after_comma).end <= tokens.len(),
        spec_parse_index_list(tokens, pos, after_comma).result.is_ok() ==> pos
            < spec_parse_index_list(tokens, pos, after_comma).end,
    decreases tokens.len() - pos,
{
    if spec_ident_at(tokens, pos).is_some() && token_at(tokens, pos + 1) == Some(
        SpecToken::Comma,
    ) {
        lemma_index_list_end(tokens, pos + 2, true);
    }
}

/// A component parse that starts inside the stream ends inside it, and one
/// that succeeds has consumed at least one token.
pub proof fn lemma_component_end(tokens: Seq<SpecToken>, pos: int)
    requires
        0 <= pos <= tokens.len(),
    ensures
        pos <= spec_parse_component(tokens, pos).end <= tokens.len(),
        spec_parse_component(tokens, pos).result.is_ok() ==> pos < spec_parse_component(
            tokens,
            pos,
        ).end,
{
    if spec_ident_at(tokens, pos).is_some() {
        let plural = spec_parse_optional_plural(tokens, pos + 1);
        if plural.result.is_ok() && token_at(tokens, plural.end) == Some(SpecToken::LArrow) {
            lemma_index_list_end(tokens, plural.end + 1, false);
        }
    }
}

/// `component+`, up to the end of input.
pub open spec fn spec_parse_components(tokens: Seq<SpecToken>, pos: int) -> Parsed<
    Seq<SpecComponent>,
>
    decreases tokens.len() - pos,
{
    if 0 <= pos <= tokens.len() {
        let first = spec_parse_component(tokens, pos);
        match first.result {
            Err(e) => Parsed { result: Err(e), end: first.end },
            Ok(component) => match token_at(tokens, first.end) {
                Some(SpecToken::Ident(_)) => {
                    proof {
                        lemma_component_end(tokens, pos);
                    }
                    spec_prepend(seq![component], spec_parse_components(tokens, first.end))
                },
                None => Parsed { result: Ok(seq![component]), end: first.end },
                Some(_) => Parsed {
                    result: Err(ParseError::UnexpectedTrailingToken),
                    end: first.end,
                },
            },
        }
    } else {
        Parsed { result: Err(ParseError::MalformedComponentName), end: pos }
    }
}

/// `schema := Header component+`
pub open spec fn spec_parse(tokens: Seq<SpecToken>, pos: int) -> Parsed<Seq<SpecComponent>> {
    let header = spec_parse_component_header(tokens, pos);
    match header.result {
        Err(e) => Parsed { result: Err(e), end: header.end },
        Ok(_) => spec_parse_components(tokens, header.end),
    }
}

/// What an executable parse of a name yields, as a value.
pub open spec fn spec_name_result(r: Result<String, ParseError>) -> Result<Seq<char>, ParseError> {
    match r {
        Ok(name) => Ok(name@),
        Err(e) => Err(e),
    }
}

/// What an executable parse of an optional name yields, as a value.
pub open spec fn spec_optional_name_result(r: Result<Option<String>, ParseError>) -> Result<
    Option<Seq<char>>,
    ParseError,
> {
    match r {
        Ok(Some(name)) => Ok(Some(name@)),
        Ok(None) => Ok(None),
        Err(e) => Err(e),
    }
}

/// What an executable parse of a list of names yields, as a value.
pub open spec fn spec_names_result(r: Result<Vec<String>, ParseError>) -> Result<
    Seq<Seq<char>>,
    ParseError,
> {
    match r {
        Ok(names) => Ok(spec_names(names@)),
        Err(e) => Err(e),
    }
}

/// What an executable parse of an optional list of names yields, as a value.
pub open spec fn spec_optional_names_result(r: Result<Option<Vec<String>>, ParseError>) -> Result<
    Option<Seq<Seq<char>>>,
    ParseError,
> {
    match r {
        Ok(Some(names)) => Ok(Some(spec_names(names@))),
        Ok(None) => Ok(None),
        Err(e) => Err(e),
    }
}

/// What an executable parse of a component yields, as a value.
pub open spec fn spec_component_result(r: Result<ComponentBuilder, ParseError>) -> Result<
    SpecComponent,
    ParseError,
> {
    match r {
        Ok(builder) => Ok(builder@),
        Err(e) => Err(e),
    }
}

/// What an executable parse of a list of components yields, as a value.
pub open spec fn spec_components_result(r: Result<Vec<ComponentBuilder>, ParseError>) -> Result<
    Seq<SpecComponent>,
    ParseError,
> {
    match r {
        Ok(builders) => Ok(spec_components(builders@)),
        Err(e) => Err(e),
    }
}

/// What an executable parse of a schema yields, as a value.
pub open spec fn spec_builder_result(r: Result<ECSBuilder, ParseError>) -> Result<
    Seq<SpecComponent>,
    ParseError,
> {
    match r {
        Ok(builder) => Ok(builder@),
        Err(e) => Err(e),
    }
}

/// Parses a whole schema: the header, then one component after another up
/// to the end of input. The first error ends the parse.
pub fn parse(parser: &mut TokenCursor) -> (r: Result<ECSBuilder, ParseError>)
    ensures
        final(parser).tokens() == old(parser).tokens(),
        spec_builder_result(r) == spec_parse(old(parser).tokens(), old(parser).position()).result,
        final(parser).position() == spec_parse(old(parser).tokens(), old(parser).position()).end,
{
    match parse_component_header(parser) {
        Ok(_) => match parse_components(parser) {
            Ok(component_builders) => Ok(ECSBuilder { component_builders }),
            Err(e) => Err(e),
        },
        Err(e) => Err(e),
    }
}

/// Parses the header: the identifier `components`, then a colon.
pub fn parse_component_header(parser: &mut TokenCursor) -> (r: Result<(), ParseError>)
    ensures
        final(parser).tokens() == old(parser).tokens(),
        r == spec_parse_component_header(old(parser).tokens(), old(parser).position()).result,
        final(parser).position() == spec_parse_component_header(
            old(parser).tokens(),
            old(parser).position(),
        ).end,
{
    match parse_ident(parser) {
        Some(parsed_ident) => {
            if parsed_ident == String::from_str("components") {
                if parser.eat(&Token::Colon) {
                    Ok(())
                } else {
                    Err(ParseError::MissingHeaderColon)
                }
            } else {
                Err(ParseError::MissingOrWrongHeader)
            }
        },
        None => Err(ParseError::MissingOrWrongHeader),
    }
}

/// Parses one component after another up to the end of input; there must be
/// one at least. The first error ends the parse.
pub fn parse_components(parser: &mut TokenCursor) -> (r: Result<Vec<ComponentBuilder>, ParseError>)
    ensures
        final(parser).tokens() == old(parser).tokens(),
        spec_components_result(r) == spec_parse_components(
            old(parser).tokens(),
            old(parser).position(),
        ).result,
        final(parser).position() == spec_parse_components(
            old(parser).tokens(),
            old(parser).position(),
        ).end,
{
    let ghost tokens = parser.tokens();
    let ghost start = parser.position();
    let mut components: Vec<ComponentBuilder> = Vec::new();
    proof {
        parser.lemma_position_in_bounds();
    }
    loop
        invariant
            tokens == old(parser).tokens(),
            start == old(parser).position(),
            parser.tokens() == tokens,
            0 <= parser.position() <= tokens.len(),
            spec_parse_components(tokens, start) == spec_prepend(
                spec_components(components@),
                spec_parse_components(tokens, parser.position()),
            ),
        decreases tokens.len() - parser.position(),
    {
        let ghost here = parser.position();
        let ghost before = spec_components(components@);
        proof {
            lemma_component_end(tokens, here);
        }
        match parse_component(parser) {
            Ok(component) => {
                components.push(component);
            },
            Err(e) => {
                return Err(e);
            },
        }
        proof {
            let one = seq![spec_parse_component(tokens, here).result->Ok_0];
            assert(spec_components(components@) =~= before + one);
            assert forall|more: Seq<SpecComponent>| before + (one + more) =~= (before + one) + more by {}
        }
        match parser.peek() {
            Some(Token::Ident(_)) => {},
            None => {
                return Ok(components);
            },
            Some(_) => {
                return Err(ParseError::UnexpectedTrailingToken);
            },
        }
    }
}

/// Parses one component: its name, then the plural and the index names
/// where the schema gives them. A component without a plural gets its name
/// with an `s`, one without index names gets none.
pub fn parse_component(parser: &mut TokenCursor) -> (r: Result<ComponentBuilder, ParseError>)
    ensures
        final(parser).tokens() == old(parser).tokens(),
        spec_component_result(r) == spec_parse_component(
            old(parser).tokens(),
            old(parser).position(),
        ).result,
        final(parser).position() == spec_parse_component(
            old(parser).tokens(),
            old(parser).position(),
        ).end,
{
    let name = match parse_component_name(parser) {
        Ok(name) => name,
        Err(e) => {
            return Err(e);
        },
    };
    let plural = match parse_optional_plural(parser) {
        Ok(plural) => plural,
        Err(e) => {
            return Err(e);
        },
    };
    let indices = match parse_optional_indices(parser) {
        Ok(indices) => indices,
        Err(e) => {
            return Err(e);
        },
    };
    let plural_or_default = match plural {
        Some(plural) => plural,
        None => {
            proof {
                reveal_strlit("s");
                assert(name@ + "s"@ =~= spec_default_plural(name@));
            }
            name.clone().concat("s")
        },
    };
    let indices_or_default = match indices {
        Some(indices) => indices,
        None => Vec::new(),
    };
    assert(indices.is_none() ==> spec_names(indices_or_default@) =~= Seq::empty());
    Ok(ComponentBuilder::new(name, plural_or_default, indices_or_default))
}

/// Steps over one token, which has to be the name of a component.
pub fn parse_component_name(parser: &mut TokenCursor) -> (r: Result<String, ParseError>)
    ensures
        final(parser).tokens() == old(parser).tokens(),
        final(parser).position() == next_position(old(parser).tokens(), old(parser).position()),
        spec_name_result(r) == match spec_ident_at(old(parser).tokens(), old(parser).position()) {
            Some(name) => Ok::<Seq<char>, ParseError>(name),
            None => Err(ParseError::MalformedComponentName),
        },
{
    match parse_ident(parser) {
        Some(pass) => Ok(pass),
        None => Err(ParseError::MalformedComponentName),
    }
}

/// Steps over one token, and hands out its text if it is an identifier.
pub fn parse_ident(parser: &mut TokenCursor) -> (r: Option<String>)
    ensures
        final(parser).tokens() == old(parser).tokens(),
        final(parser).position() == next_position(old(parser).tokens(), old(parser).position()),
        match r {
            Some(text) => spec_ident_at(old(parser).tokens(), old(parser).position()) == Some(
                text@,
            ),
            None => spec_ident_at(old(parser).tokens(), old(parser).position()).is_none(),
        },
{
    let result = match parser.peek() {
        Some(Token::Ident(text)) => Some(text.clone()),
        _ => None,
    };
    parser.advance();
    result
}

/// Parses `/ Plural` where a slash is under the cursor, and nothing otherwise.
pub fn parse_optional_plural(parser: &mut TokenCursor) -> (r: Result<Option<String>, ParseError>)
    ensures
        final(parser).tokens() == old(parser).tokens(),
        spec_optional_name_result(r) == spec_parse_optional_plural(
            old(parser).tokens(),
            old(parser).position(),
        ).result,
        final(parser).position() == spec_parse_optional_plural(
            old(parser).tokens(),
            old(parser).position(),
        ).end,
{
    if !parser.eat(&Token::Slash) {
        return Ok(None);
    }
    match parse_ident(parser) {
        Some(plural) => Ok(Some(plural)),
        None => Err(ParseError::MissingPluralAfterSeparator),
    }
}

/// Parses `<- Index, ..` where an arrow is under the cursor, and nothing
/// otherwise.
pub fn parse_optional_indices(parser: &mut TokenCursor) -> (r: Result<
    Option<Vec<String>>,
    ParseError,
>)
    ensures
        final(parser).tokens() == old(parser).tokens(),
        spec_optional_names_result(r) == spec_parse_optional_indices(
            old(parser).tokens(),
            old(parser).position(),
        ).result,
        final(parser).position() == spec_parse_optional_indices(
            old(parser).tokens(),
            old(parser).position(),
        ).end,
{
    if !parser.eat(&Token::LArrow) {
        return Ok(None);
    }
    match parse_index_list(parser) {
        Ok(inner) => Ok(Some(inner)),
        Err(e) => Err(e),
    }
}

/// Parses index names with a comma between each two, as long as a comma
/// follows a name. The first error ends the parse.
pub fn parse_index_list(parser: &mut TokenCursor) -> (r: Result<Vec<String>, ParseError>)
    ensures
        final(parser).tokens() == old(parser).tokens(),
        spec_names_result(r) == spec_parse_index_list(
            old(parser).tokens(),
            old(parser).position(),
            false,
        ).result,
        final(parser).position() == spec_parse_index_list(
            old(parser).tokens(),
            old(parser).position(),
            false,
        ).end,
{
    let ghost tokens = parser.tokens();
    let ghost start = parser.position();
    let mut indices: Vec<String> = Vec::new();
    let mut after_comma = false;
    proof {
        parser.lemma_position_in_bounds();
    }
    loop
        invariant
            tokens == old(parser).tokens(),
            start == old(parser).position(),
            parser.tokens() == tokens,
            0 <= parser.position() <= tokens.len(),
            spec_parse_index_list(tokens, start, false) == spec_prepend(
                spec_names(indices@),
                spec_parse_index_list(tokens, parser.position(), after_comma),
            ),
        decreases tokens.len() - parser.position(),
    {
        let ghost before = spec_names(indices@);
        let ghost here = parser.position();
        match parse_index(parser, after_comma) {
            Ok(index) => {
                indices.push(index);
            },
            Err(e) => {
                return Err(e);
            },
        }
        proof {
            let one = seq![spec_ident_at(tokens, here)->Some_0];
            assert(spec_names(indices@) =~= before + one);
            assert forall|more: Seq<Seq<char>>| before + (one + more) =~= (before + one) + more by {}
        }
        if !parser.eat(&Token::Comma) {
            return Ok(indices);
        }
        after_comma = true;
    }
}

/// Parses one index name; `after_comma` tells the first name of a list from
/// the later ones, which fail with an error of their own.
pub fn parse_index(parser: &mut TokenCursor, after_comma: bool) -> (r: Result<String, ParseError>)
    ensures
        final(parser).tokens() == old(parser).tokens(),
        final(parser).position() == next_position(old(parser).tokens(), old(parser).position()),
        spec_name_result(r) == match spec_ident_at(old(parser).tokens(), old(parser).position()) {
            Some(name) => Ok::<Seq<char>, ParseError>(name),
            None => Err(spec_missing_index(after_comma)),
        },
{
    match parse_ident(parser) {
        Some(pass) => Ok(pass),
        None => if after_comma {
            Err(ParseError::MissingIndexAfterComma)
        } else {
            Err(ParseError::MalformedIndexList)
        },
    }
}

} // verus!

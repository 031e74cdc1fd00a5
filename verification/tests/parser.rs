use component_store::component_builder::ComponentBuilder;
use component_store::ecs_builder::ECSBuilder;
use component_store::ecs_parser::{
    parse, parse_component, parse_component_header, parse_components, parse_ident, parse_index,
    parse_index_list, parse_optional_indices, parse_optional_plural, ParseError,
};
use component_store::token::{Token, TokenCursor};

fn ident(text: &str) -> Token {
    Token::Ident(text.to_string())
}

fn header() -> Vec<Token> {
    vec![ident("components"), Token::Colon]
}

fn schema(body: Vec<Token>) -> Vec<Token> {
    let mut tokens = header();
    tokens.extend(body);
    tokens
}

fn parse_all(tokens: Vec<Token>) -> Result<ECSBuilder, ParseError> {
    let mut parser = TokenCursor::new(tokens);
    parse(&mut parser)
}

fn names(builder: &ECSBuilder) -> Vec<String> {
    builder.component_builders.iter().map(|c| c.name.clone()).collect()
}

#[test]
fn test_parse_color_and_position() {
    let tokens = schema(vec![
        ident("Color"),
        ident("Position"),
        Token::Slash,
        ident("Positions"),
        Token::LArrow,
        ident("Range"),
    ]);
    let builder = parse_all(tokens).unwrap();
    assert_eq!(builder.component_builders.len(), 2);
    let color = &builder.component_builders[0];
    assert_eq!(color.name, "Color");
    assert_eq!(color.plural, "Colors");
    assert_eq!(color.indices, Vec::<String>::new());
    let position = &builder.component_builders[1];
    assert_eq!(position.name, "Position");
    assert_eq!(position.plural, "Positions");
    assert_eq!(position.indices, vec!["Range".to_string()]);
}

#[test]
fn test_parse_keeps_declaration_order() {
    let tokens = schema(vec![ident("C"), ident("A"), ident("B"), ident("A")]);
    let builder = parse_all(tokens).unwrap();
    assert_eq!(names(&builder), vec!["C", "A", "B", "A"]);
}

#[test]
fn test_parse_default_plural_is_name_and_s() {
    let builder = parse_all(schema(vec![ident("Entry")])).unwrap();
    assert_eq!(builder.component_builders[0].plural, "Entrys");
}

#[test]
fn test_parse_explicit_plural() {
    let builder = parse_all(schema(vec![ident("Entry"), Token::Slash, ident("Entries")])).unwrap();
    assert_eq!(builder.component_builders.len(), 1);
    assert_eq!(builder.component_builders[0].name, "Entry");
    assert_eq!(builder.component_builders[0].plural, "Entries");
}

#[test]
fn test_parse_index_list_of_three() {
    let tokens = schema(vec![
        ident("Position"),
        Token::LArrow,
        ident("Range"),
        Token::Comma,
        ident("Cell"),
        Token::Comma,
        ident("Owner"),
        ident("Color"),
    ]);
    let builder = parse_all(tokens).unwrap();
    assert_eq!(names(&builder), vec!["Position", "Color"]);
    assert_eq!(
        builder.component_builders[0].indices,
        vec!["Range".to_string(), "Cell".to_string(), "Owner".to_string()]
    );
    assert_eq!(builder.component_builders[0].plural, "Positions");
}

#[test]
fn test_parse_equals_component_builder_new() {
    let tokens = schema(vec![
        ident("Position"),
        Token::Slash,
        ident("Positions"),
        Token::LArrow,
        ident("Range"),
    ]);
    let builder = parse_all(tokens).unwrap();
    let expected = ComponentBuilder::new(
        "Position".to_string(),
        "Positions".to_string(),
        vec!["Range".to_string()],
    );
    assert_eq!(builder.component_builders, vec![expected]);
}

#[test]
fn test_parse_header_without_colon() {
    assert_eq!(parse_all(vec![ident("components")]), Err(ParseError::MissingHeaderColon));
    assert_eq!(
        parse_all(vec![ident("components"), ident("Color")]),
        Err(ParseError::MissingHeaderColon)
    );
}

#[test]
fn test_parse_wrong_header() {
    assert_eq!(
        parse_all(vec![ident("component"), Token::Colon, ident("Color")]),
        Err(ParseError::MissingOrWrongHeader)
    );
    assert_eq!(
        parse_all(vec![Token::Colon, ident("Color")]),
        Err(ParseError::MissingOrWrongHeader)
    );
    assert_eq!(parse_all(vec![]), Err(ParseError::MissingOrWrongHeader));
}

#[test]
fn test_parse_no_component() {
    assert_eq!(parse_all(header()), Err(ParseError::MalformedComponentName));
    assert_eq!(
        parse_all(schema(vec![Token::Slash, ident("Colors")])),
        Err(ParseError::MalformedComponentName)
    );
}

#[test]
fn test_parse_slash_without_plural() {
    assert_eq!(
        parse_all(schema(vec![ident("Color"), Token::Slash])),
        Err(ParseError::MissingPluralAfterSeparator)
    );
    assert_eq!(
        parse_all(schema(vec![ident("Color"), Token::Slash, Token::LArrow, ident("Hue")])),
        Err(ParseError::MissingPluralAfterSeparator)
    );
}

#[test]
fn test_parse_arrow_without_index() {
    let outcome = parse_all(schema(vec![ident("Color"), Token::LArrow]));
    assert_eq!(outcome, Err(ParseError::MalformedIndexList));
    assert_eq!(outcome.unwrap_err().message(), "Failed to parse index name");
}

#[test]
fn test_parse_comma_without_index() {
    let body = vec![ident("Color"), Token::LArrow, ident("Hue"), Token::Comma];
    let outcome = parse_all(schema(body));
    assert_eq!(outcome, Err(ParseError::MissingIndexAfterComma));
    assert_eq!(outcome.unwrap_err().message(), "Failed to parse index name");
    let body = vec![ident("Color"), Token::LArrow, ident("Hue"), Token::Comma, Token::Comma];
    assert_eq!(parse_all(schema(body)), Err(ParseError::MissingIndexAfterComma));
}

#[test]
fn test_parse_trailing_token() {
    assert_eq!(
        parse_all(schema(vec![ident("Color"), Token::Other])),
        Err(ParseError::UnexpectedTrailingToken)
    );
    assert_eq!(
        parse_all(schema(vec![ident("Color"), Token::Colon])),
        Err(ParseError::UnexpectedTrailingToken)
    );
    assert_eq!(
        parse_all(schema(vec![ident("Color"), Token::Slash, ident("Colors"), Token::Slash])),
        Err(ParseError::UnexpectedTrailingToken)
    );
}

#[test]
fn test_parse_first_error_wins() {
    let body = vec![ident("Color"), Token::Slash, Token::Other, ident("Hue"), Token::LArrow];
    assert_eq!(parse_all(schema(body)), Err(ParseError::MissingPluralAfterSeparator));
    let body = vec![ident("Color"), Token::LArrow, Token::Comma, Token::Other];
    assert_eq!(parse_all(schema(body)), Err(ParseError::MalformedIndexList));
}

#[test]
fn test_error_messages() {
    assert_eq!(ParseError::MissingOrWrongHeader.message(), "Expected header to be `components:`");
    assert_eq!(
        ParseError::MissingHeaderColon.message(),
        "Expected header to be followed by a colon"
    );
    assert_eq!(ParseError::MalformedComponentName.message(), "Failed to parse component name");
    assert_eq!(
        ParseError::MissingPluralAfterSeparator.message(),
        "Pluralization name not found after slash"
    );
    assert_eq!(ParseError::MalformedIndexList.message(), "Failed to parse index name");
    assert_eq!(ParseError::MissingIndexAfterComma.message(), "Failed to parse index name");
    assert_eq!(
        ParseError::UnexpectedTrailingToken.message(),
        "Failed to parse list of components"
    );
}

#[test]
fn test_cursor_peek_advance_eat() {
    let mut cursor = TokenCursor::new(vec![ident("a"), Token::Comma]);
    assert_eq!(cursor.peek(), Some(&ident("a")));
    assert!(!cursor.at_end());
    assert!(!cursor.eat(&Token::Comma));
    assert_eq!(cursor.peek(), Some(&ident("a")));
    assert!(cursor.eat(&ident("a")));
    assert_eq!(cursor.peek(), Some(&Token::Comma));
    cursor.advance();
    assert_eq!(cursor.peek(), None);
    assert!(cursor.at_end());
    cursor.advance();
    assert!(cursor.at_end());
    assert!(!cursor.eat(&Token::Comma));
}

#[test]
fn test_token_same_as() {
    assert!(ident("a").same_as(&ident("a")));
    assert!(!ident("a").same_as(&ident("b")));
    assert!(!ident("a").same_as(&Token::Colon));
    assert!(Token::LArrow.same_as(&Token::LArrow));
    assert!(!Token::LArrow.same_as(&Token::Slash));
    assert!(Token::Other.same_as(&Token::Other));
}

#[test]
fn test_parse_ident_steps_over_any_token() {
    let mut cursor = TokenCursor::new(vec![Token::Colon, ident("x")]);
    assert_eq!(parse_ident(&mut cursor), None);
    assert_eq!(parse_ident(&mut cursor), Some("x".to_string()));
    assert_eq!(parse_ident(&mut cursor), None);
    assert!(cursor.at_end());
}

#[test]
fn test_parse_component_header_leaves_cursor_behind_colon() {
    let mut cursor = TokenCursor::new(schema(vec![ident("Color")]));
    assert_eq!(parse_component_header(&mut cursor), Ok(()));
    assert_eq!(cursor.peek(), Some(&ident("Color")));
}

#[test]
fn test_parse_optional_plural_cases() {
    let mut cursor = TokenCursor::new(vec![ident("x")]);
    assert_eq!(parse_optional_plural(&mut cursor), Ok(None));
    assert_eq!(cursor.peek(), Some(&ident("x")));
    let mut cursor = TokenCursor::new(vec![Token::Slash, ident("xs"), Token::Comma]);
    assert_eq!(parse_optional_plural(&mut cursor), Ok(Some("xs".to_string())));
    assert_eq!(cursor.peek(), Some(&Token::Comma));
    let mut cursor = TokenCursor::new(vec![Token::Slash, Token::Comma, ident("x")]);
    assert_eq!(parse_optional_plural(&mut cursor), Err(ParseError::MissingPluralAfterSeparator));
    assert_eq!(cursor.peek(), Some(&ident("x")));
}

#[test]
fn test_parse_optional_indices_cases() {
    let mut cursor = TokenCursor::new(vec![ident("x")]);
    assert_eq!(parse_optional_indices(&mut cursor), Ok(None));
    assert_eq!(cursor.peek(), Some(&ident("x")));
    let mut cursor = TokenCursor::new(vec![Token::LArrow, ident("a"), Token::Comma, ident("b")]);
    assert_eq!(
        parse_optional_indices(&mut cursor),
        Ok(Some(vec!["a".to_string(), "b".to_string()]))
    );
    assert!(cursor.at_end());
}

#[test]
fn test_parse_index_list_stops_without_comma() {
    let mut cursor = TokenCursor::new(vec![ident("a"), ident("b")]);
    assert_eq!(parse_index_list(&mut cursor), Ok(vec!["a".to_string()]));
    assert_eq!(cursor.peek(), Some(&ident("b")));
}

#[test]
fn test_parse_index_errors() {
    let mut cursor = TokenCursor::new(vec![Token::Other]);
    assert_eq!(parse_index(&mut cursor, false), Err(ParseError::MalformedIndexList));
    let mut cursor = TokenCursor::new(vec![Token::Other]);
    assert_eq!(parse_index(&mut cursor, true), Err(ParseError::MissingIndexAfterComma));
    let mut cursor = TokenCursor::new(vec![ident("a")]);
    assert_eq!(parse_index(&mut cursor, true), Ok("a".to_string()));
}

#[test]
fn test_parse_component_alone() {
    let mut cursor = TokenCursor::new(vec![ident("Color"), ident("Next")]);
    let color = parse_component(&mut cursor).unwrap();
    assert_eq!(color.name, "Color");
    assert_eq!(color.plural, "Colors");
    assert_eq!(cursor.peek(), Some(&ident("Next")));
}

#[test]
fn test_parse_components_without_header() {
    let mut cursor = TokenCursor::new(vec![ident("A"), ident("B")]);
    let components = parse_components(&mut cursor).unwrap();
    assert_eq!(components.len(), 2);
    assert!(cursor.at_end());
}

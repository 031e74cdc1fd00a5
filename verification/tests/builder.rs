use component_store::component_builder::{ComponentBuilder, IdentPair};
use component_store::ecs_builder::ECSBuilder;
use component_store::ecs_parser::ParseError;
use component_store::plan::{FieldDecl, FieldInit, IndexDecl};
use component_store::token::Token;
use component_store::{expand, parse};

fn ident(text: &str) -> Token {
    Token::Ident(text.to_string())
}

fn sample_schema() -> Vec<Token> {
    vec![
        ident("components"),
        Token::Colon,
        ident("Color"),
        ident("Position"),
        Token::Slash,
        ident("Positions"),
        Token::LArrow,
        ident("Range"),
    ]
}

#[test]
fn test_ident_pair_new() {
    let pair = IdentPair::new(&"find_all_Positions".to_string());
    assert_eq!(pair.camel, "find_all_Positions");
    assert_eq!(pair.snake, "find_all_positions");
    let pair = IdentPair::new(&"ColorComponent".to_string());
    assert_eq!(pair.camel, "ColorComponent");
    assert_eq!(pair.snake, "color_component");
}

#[test]
fn test_component_builder_new_derives_names() {
    let builder = ComponentBuilder::new(
        "Entry".to_string(),
        "Entries".to_string(),
        vec!["Owner".to_string()],
    );
    assert_eq!(builder.name, "Entry");
    assert_eq!(builder.plural, "Entries");
    assert_eq!(builder.indices, vec!["Owner".to_string()]);
    assert_eq!(builder.idents.name.camel, "EntryComponent");
    assert_eq!(builder.idents.name.snake, "entry_component");
    assert_eq!(builder.idents.plural.camel, "Entries");
    assert_eq!(builder.idents.plural.snake, "entries");
    assert_eq!(builder.idents.index.camel, "EntryIndex");
    assert_eq!(builder.idents.index.snake, "entry_index");
    assert_eq!(builder.idents.find.camel, "find_Entry");
    assert_eq!(builder.idents.find.snake, "find_entry");
    assert_eq!(builder.idents.find_all.camel, "find_all_Entries");
    assert_eq!(builder.idents.find_all.snake, "find_all_entries");
    assert_eq!(builder.idents.remove.camel, "remove_Entry");
    assert_eq!(builder.idents.remove.snake, "remove_entry");
    assert_eq!(builder.idents.remove_all.camel, "remove_all_Entries");
    assert_eq!(builder.idents.remove_all.snake, "remove_all_entries");
    assert_eq!(builder.idents.update.camel, "update_Entry");
    assert_eq!(builder.idents.update.snake, "update_entry");
}

#[test]
fn test_component_builder_two_word_name() {
    let builder =
        ComponentBuilder::new("RigidBody".to_string(), "RigidBodies".to_string(), vec![]);
    let index = builder.build_index();
    assert_eq!(index.name, "RigidBodyIndex");
    assert_eq!(index.component, "RigidBodyComponent");
    assert_eq!(index.find, "find_rigid_body");
    assert_eq!(index.find_all, "find_all_rigid_bodies");
    assert_eq!(index.update, "update_rigid_body");
    assert_eq!(index.remove, "remove_rigid_body");
    assert_eq!(index.remove_all, "remove_all_rigid_bodies");
    assert_eq!(builder.build_decl().name, "rigid_bodies");
}

#[test]
fn test_build_index_decl_init() {
    let builder = ComponentBuilder::new("Color".to_string(), "Colors".to_string(), vec![]);
    assert_eq!(
        builder.build_index(),
        IndexDecl {
            name: "ColorIndex".to_string(),
            component: "ColorComponent".to_string(),
            find: "find_color".to_string(),
            find_all: "find_all_colors".to_string(),
            update: "update_color".to_string(),
            remove: "remove_color".to_string(),
            remove_all: "remove_all_colors".to_string(),
        }
    );
    assert_eq!(
        builder.build_decl(),
        FieldDecl { name: "colors".to_string(), index_type: "ColorIndex".to_string() }
    );
    assert_eq!(
        builder.build_init(),
        FieldInit { name: "colors".to_string(), index_type: "ColorIndex".to_string() }
    );
    let fragment = builder.build_fragment();
    assert_eq!(fragment.index, builder.build_index());
    assert_eq!(fragment.decl, builder.build_decl());
    assert_eq!(fragment.init, builder.build_init());
}

#[test]
fn test_build_reads_the_idents() {
    let mut builder = ComponentBuilder::new("Color".to_string(), "Colors".to_string(), vec![]);
    builder.idents.plural.snake = "hues".to_string();
    builder.idents.index.camel = "HueIndex".to_string();
    assert_eq!(
        builder.build_decl(),
        FieldDecl { name: "hues".to_string(), index_type: "HueIndex".to_string() }
    );
}

#[test]
fn test_ecs_builder_build_of_nothing() {
    let plan = ECSBuilder { component_builders: vec![] }.build();
    assert!(plan.indices.is_empty());
    assert_eq!(plan.aggregate.name, "ECS");
    assert!(plan.aggregate.fields.is_empty());
    assert_eq!(plan.constructor.aggregate, "ECS");
    assert!(plan.constructor.inits.is_empty());
}

#[test]
fn test_expand_sample_schema() {
    let plan = expand(sample_schema()).unwrap();
    assert_eq!(plan.aggregate.name, "ECS");
    assert_eq!(plan.aggregate.fields.len(), 2);
    assert_eq!(
        plan.aggregate.fields,
        vec![
            FieldDecl { name: "colors".to_string(), index_type: "ColorIndex".to_string() },
            FieldDecl { name: "positions".to_string(), index_type: "PositionIndex".to_string() },
        ]
    );
    assert_eq!(plan.constructor.aggregate, "ECS");
    assert_eq!(
        plan.constructor.inits,
        vec![
            FieldInit { name: "colors".to_string(), index_type: "ColorIndex".to_string() },
            FieldInit { name: "positions".to_string(), index_type: "PositionIndex".to_string() },
        ]
    );
    assert_eq!(plan.indices.len(), 2);
    assert_eq!(plan.indices[0].name, "ColorIndex");
    assert_eq!(plan.indices[0].component, "ColorComponent");
    assert_eq!(plan.indices[1].name, "PositionIndex");
    assert_eq!(plan.indices[1].find_all, "find_all_positions");
    assert_eq!(plan.indices[1].remove, "remove_position");
}

#[test]
fn test_expand_twice_gives_the_same_plan() {
    let first = expand(sample_schema());
    let second = expand(sample_schema());
    assert!(first.is_ok());
    assert_eq!(first, second);
    let broken = vec![ident("components"), Token::Colon, ident("Color"), Token::Slash];
    let again = vec![ident("components"), Token::Colon, ident("Color"), Token::Slash];
    assert_eq!(expand(broken), expand(again));
}

#[test]
fn test_expand_gives_no_plan_on_error() {
    let mut tokens = sample_schema();
    tokens.push(Token::Colon);
    assert_eq!(expand(tokens), Err(ParseError::UnexpectedTrailingToken));
    let mut tokens = sample_schema();
    tokens.push(Token::Comma);
    assert_eq!(expand(tokens), Err(ParseError::MissingIndexAfterComma));
    assert_eq!(expand(vec![ident("components")]), Err(ParseError::MissingHeaderColon));
}

#[test]
fn test_expand_does_not_detect_collisions() {
    let tokens = vec![
        ident("components"),
        Token::Colon,
        ident("Color"),
        ident("Color"),
    ];
    let plan = expand(tokens).unwrap();
    assert_eq!(plan.aggregate.fields.len(), 2);
    assert_eq!(plan.aggregate.fields[0], plan.aggregate.fields[1]);
}

#[test]
fn test_parse_from_tokens_and_build() {
    let builder = parse(sample_schema()).unwrap();
    assert_eq!(builder.component_builders.len(), 2);
    assert_eq!(builder.build(), expand(sample_schema()).unwrap());
}

#[test]
fn test_secondary_indices_add_nothing_to_the_plan() {
    let with = ComponentBuilder::new("P".to_string(), "Ps".to_string(), vec!["R".to_string()]);
    let without = ComponentBuilder::new("P".to_string(), "Ps".to_string(), vec![]);
    assert_eq!(with.build_fragment(), without.build_fragment());
}

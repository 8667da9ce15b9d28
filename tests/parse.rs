use dsync::lexer::{lex, TokenKind};
use dsync::options::{GenerationConfig, GenerationConfigOpts, TableOptions};
use dsync::parser::{parse_schema, ParseErrorKind};
use dsync::pipeline::{generate_all, generate_code, missing_key, GenError};

fn config(default_impl: bool) -> GenerationConfig {
    GenerationConfig {
        connection_type: String::from("diesel::pg::Pg"),
        diesel_backend: String::from("diesel::pg::Pg"),
        options: GenerationConfigOpts {
            table_options: Vec::new(),
            default_table_options: TableOptions::new(),
            schema_path: String::from("crate::schema::"),
            model_path: String::from("crate::models::"),
            once_common_structs: false,
            once_connection_type: false,
            readonly_prefixes: Vec::new(),
            readonly_suffixes: Vec::new(),
            default_impl,
            advanced_queries: false,
        },
    }
}

#[test]
fn test_build_default_impl_fn() {
    const CONNECTION_TYPE: &'static str = "diesel::pg::Pg";
    let mut config = config(true);
    config.connection_type = String::from(CONNECTION_TYPE);
    let r = generate_code(
        r#"
    diesel::table! {
        clients (id) {
            id -> Int4,
            redirect_uri -> Text,
            created_at -> Timestamp
        }
    }"#,
        &config,
    )
    .expect("CONFIG wrong");
    println!("r = {:#?}", r);
    assert_eq!(r.len(), 1);
    let code = &r[0].generated_code;
    assert!(code.contains("impl Default for Clients {\n    fn default() -> Self {\n        Self {\n            id: 0,\n            redirect_uri: String::new(),\n            created_at: Default::default()\n        }\n    }\n}"));
    assert!(code.contains("impl Default for CreateClients {"));
}

#[test]
fn lexes_tokens() {
    let t = lex("a_1 -> Int4, // note\n#[sql_name = \"x y\"]");
    let kinds: Vec<TokenKind> = t.iter().map(|t| t.kind).collect();
    let texts: Vec<&str> = t.iter().map(|t| t.text.as_str()).collect();
    assert_eq!(texts, vec!["a_1", "-", ">", "Int4", ",", "#", "[", "sql_name", "=", "x y", "]"]);
    assert_eq!(kinds[0], TokenKind::Ident);
    assert_eq!(kinds[1], TokenKind::Punct);
    assert_eq!(kinds[9], TokenKind::Str);
    assert_eq!(t[3].offset, 7);
}

#[test]
fn parses_columns_and_types() {
    let src = r#"
// @generated automatically by Diesel CLI.
diesel::table! {
    use diesel::sql_types::*;

    /// The todos
    todos (id) {
        id -> Int4,
        text -> Text,
        done -> Nullable<Bool>,
        tags -> Array<Nullable<Text>>,
        #[sql_name = "type"]
        kind -> Varchar,
        counter -> Unsigned<Integer>,
        created_at -> diesel::sql_types::Timestamptz,
    }
}
"#;
    let tables = parse_schema(src).expect("parses");
    assert_eq!(tables.len(), 1);
    let t = &tables[0];
    assert_eq!(t.name, "todos");
    assert_eq!(t.struct_name, "Todos");
    assert_eq!(t.primary_key_columns, vec!["id".to_string()]);
    assert_eq!(t.columns.len(), 7);
    assert_eq!(t.columns[0].ty, "i32");
    assert_eq!(t.columns[1].ty, "String");
    assert!(t.columns[2].is_nullable);
    assert_eq!(t.columns[2].ty, "bool");
    assert!(t.columns[3].is_array && !t.columns[3].is_nullable);
    assert_eq!(t.columns[4].name, "kind");
    assert_eq!(t.columns[4].column_name, "type");
    assert!(t.columns[5].is_unsigned);
    assert_eq!(t.columns[6].ty, "chrono::DateTime<chrono::Utc>");
}

#[test]
fn parses_joinable_and_defaults() {
    let src = r#"
table! {
    users {
        id -> Int8,
        name -> Text,
    }
}
diesel::table! {
    user_posts (user_id, post_id) {
        user_id -> Int8,
        post_id -> Int8,
    }
}
diesel::joinable!(user_posts -> users (user_id));
diesel::allow_tables_to_appear_in_same_query!(users, user_posts);
"#;
    let tables = parse_schema(src).expect("parses");
    assert_eq!(tables.len(), 2);
    assert_eq!(tables[0].primary_key_columns, vec!["id".to_string()]);
    assert!(tables[0].foreign_keys.is_empty());
    assert_eq!(tables[1].struct_name, "UserPosts");
    assert_eq!(tables[1].primary_key_columns, vec!["user_id".to_string(), "post_id".to_string()]);
    assert_eq!(tables[1].foreign_keys, vec![("users".to_string(), "user_id".to_string())]);
}

#[test]
fn reports_unknown_type() {
    let src = "diesel::table! { t (id) { id -> Mystery, } }";
    let e = parse_schema(src).unwrap_err();
    assert_eq!(e.kind, ParseErrorKind::UnknownType);
    assert_eq!(e.offset, 32);
}

#[test]
fn reports_unterminated_block() {
    let src = "diesel::table! { t (id) { id -> Int4,";
    let e = parse_schema(src).unwrap_err();
    assert_eq!(e.kind, ParseErrorKind::Unterminated);
    assert_eq!(e.offset, src.chars().count());
}

#[test]
fn reports_bad_header() {
    let src = "diesel::table! { (id) { id -> Int4 } }";
    let e = parse_schema(src).unwrap_err();
    assert_eq!(e.kind, ParseErrorKind::ExpectedIdent);
    assert_eq!(e.offset, 17);
    let src2 = "diesel::table! { t (id { id -> Int4 } }";
    assert_eq!(parse_schema(src2).unwrap_err().kind, ParseErrorKind::ExpectedPunct(')'));
}

#[test]
fn zero_key_table_is_kept() {
    let src = "diesel::table! { logs () { line -> Text, } }";
    let tables = parse_schema(src).expect("parses");
    assert!(tables[0].primary_key_columns.is_empty());
    let r = generate_code(src, &config(false)).expect("generates");
    let code = &r[0].generated_code;
    assert!(code.contains("pub struct Logs {"));
    assert!(code.contains("fn create("));
    assert!(!code.contains("fn read("));
    assert!(!code.contains("fn delete("));
    assert!(code.contains("#[diesel(table_name=logs)]"));
}

#[test]
fn missing_key_column_is_an_error() {
    let src = "diesel::table! { t (key) { id -> Int4, } }";
    let tables = parse_schema(src).expect("parses");
    assert_eq!(missing_key(&tables[0]), Some(0));
    match generate_code(src, &config(false)) {
        Err(GenError::MissingKeyColumn { table, column }) => {
            assert_eq!(table, "t");
            assert_eq!(column, "key");
        }
        other => panic!("unexpected: {:?}", other),
    }
}

#[test]
fn whole_run_files() {
    let src = "diesel::table! { todos (id) { id -> Int4, text -> Text, } }";
    let files = generate_all(src, &config(false)).expect("generates");
    let paths: Vec<&str> = files.iter().map(|f| f.path.as_str()).collect();
    assert_eq!(paths, vec!["todos/generated.rs", "todos/mod.rs", "mod.rs"]);
    assert!(matches!(generate_all("table! { x", &config(false)), Err(GenError::Parse(_))));
}

#[test]
fn two_tables_on_one_path_conflict() {
    let src = "table! { todos (id) { id -> Int4, } } table! { Todos (id) { id -> Int4, } }";
    match generate_all(src, &config(false)) {
        Err(GenError::PathConflict { path }) => assert_eq!(path, "todos/generated.rs"),
        other => panic!("unexpected: {:?}", other),
    }
}

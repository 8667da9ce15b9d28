use dsync::cli::{MainOptions, StringTypeCli};
use dsync::code::{
    build_default_impl_fn, build_imports, default_for_type, generate_common_structs,
    generate_connection_type, generate_for_table, get_async, get_table_module_name,
};
use dsync::files::{classify, file_status, generate_files, FileChangeStatus, GeneratedFile};
use dsync::model::{ParsedColumnMacro, ParsedTableMacro, StructField, StructType};
use dsync::options::{BytesType, GenerationConfig, GenerationConfigOpts, StringType, TableOptions};
use dsync::pagination::{num_pages, PaginationResult};
use dsync::structs::Struct;

fn col(name: &str, ty: &str, nullable: bool) -> ParsedColumnMacro {
    ParsedColumnMacro {
        ty: ty.to_string(),
        name: name.to_string(),
        column_name: name.to_string(),
        is_nullable: nullable,
        is_unsigned: false,
        is_array: false,
    }
}

fn table(name: &str, struct_name: &str, pks: &[&str], columns: Vec<ParsedColumnMacro>) -> ParsedTableMacro {
    ParsedTableMacro {
        name: name.to_string(),
        struct_name: struct_name.to_string(),
        primary_key_columns: pks.iter().map(|s| s.to_string()).collect(),
        foreign_keys: Vec::new(),
        columns,
    }
}

fn todos() -> ParsedTableMacro {
    table(
        "todos",
        "Todos",
        &["id"],
        vec![col("id", "i32", false), col("text", "String", false), col("done", "bool", true)],
    )
}

fn config() -> GenerationConfig {
    GenerationConfig {
        connection_type: "diesel::pg::PgConnection".to_string(),
        diesel_backend: "diesel::pg::Pg".to_string(),
        options: GenerationConfigOpts {
            table_options: Vec::new(),
            default_table_options: TableOptions::new(),
            schema_path: "crate::schema::".to_string(),
            model_path: "crate::models::".to_string(),
            once_common_structs: false,
            once_connection_type: false,
            readonly_prefixes: Vec::new(),
            readonly_suffixes: Vec::new(),
            default_impl: false,
            advanced_queries: false,
        },
    }
}

#[test]
fn struct_type_names() {
    assert_eq!(StructType::Read.prefix(), "");
    assert_eq!(StructType::Update.prefix(), "Update");
    assert_eq!(StructType::Create.prefix(), "Create");
    assert_eq!(StructType::Create.suffix(), "");
    assert_eq!(StructType::Update.format("Todos"), "UpdateTodos");
    assert_eq!(StructType::Read.format("Todos"), "Todos");
}

#[test]
fn rust_type_of_fields() {
    let f = StructField {
        name: "tags".to_string(),
        column_name: "tags".to_string(),
        base_type: "String".to_string(),
        is_optional: true,
        is_vec: true,
    };
    assert_eq!(f.to_rust_type(), "Option<Vec<Option<String>>>");
    let g = StructField { is_optional: false, is_vec: false, ..f };
    assert_eq!(g.to_rust_type(), "String");
}

#[test]
fn unsigned_column_type() {
    let mut c = col("count", "i32", false);
    c.is_unsigned = true;
    let f = StructField::from_column(&c);
    assert_eq!(f.base_type, "u32");
}

#[test]
fn end_to_end_todos() {
    let t = todos();
    let cfg = config();
    let read = Struct::new(StructType::Read, &t, &cfg);
    let create = Struct::new(StructType::Create, &t, &cfg);
    let update = Struct::new(StructType::Update, &t, &cfg);
    assert!(read.code().contains("pub struct Todos {\n"));
    assert!(read.code().contains("    pub id: i32,\n    /// Field representing column `text`\n    pub text: String,\n    /// Field representing column `done`\n    pub done: Option<bool>,\n}"));
    assert_eq!(create.identifier, "CreateTodos");
    assert!(create.code().contains("    pub id: i32,\n    /// Field representing column `text`\n    pub text: String,\n    /// Field representing column `done`\n    pub done: Option<bool>,\n}"));
    assert!(!update.code().contains("pub id"));
    assert!(update.code().contains("    pub text: Option<String>,\n    /// Field representing column `done`\n    pub done: Option<Option<bool>>,\n}"));
    assert!(read.has_fields() && create.has_fields() && update.has_fields());
    let file = generate_for_table(&t, &cfg);
    assert!(file.starts_with("/* @generated and managed by dsync */\n\n#[allow(unused)]\nuse crate::diesel::*;\nuse crate::schema::*;\n\npub type ConnectionType = diesel::pg::PgConnection;\n\n"));
    assert!(file.contains("pub fn create(db: &mut ConnectionType, item: &CreateTodos)"));
    assert!(file.contains("pub fn read(db: &mut ConnectionType, param_id: i32)"));
    assert!(file.contains("todos.filter(id.eq(param_id)).first::<Self>(db)"));
    assert!(file.contains("identified by the primary key\n"));
}

#[test]
fn read_struct_full_text() {
    let t = todos();
    let cfg = config();
    let read = Struct::new(StructType::Read, &t, &cfg);
    let expected = "/// Struct representing a row in table `todos`\n#[derive(Debug, Clone, serde::Serialize, serde::Deserialize, diesel::Queryable, diesel::Selectable, PartialEq, diesel::Identifiable)]\n#[diesel(table_name=todos, primary_key(id))]\npub struct Todos {\n    /// Field representing column `id`\n    pub id: i32,\n    /// Field representing column `text`\n    pub text: String,\n    /// Field representing column `done`\n    pub done: Option<bool>,\n}\n";
    assert_eq!(read.code(), expected);
}

#[test]
fn autogenerated_columns_leave_create() {
    let t = table(
        "posts",
        "Posts",
        &["id"],
        vec![col("id", "i32", false), col("title", "String", false), col("created_at", "chrono::NaiveDateTime", false)],
    );
    let mut cfg = config();
    let mut o = TableOptions::new();
    o.autogenerated_columns = Some(vec!["id".to_string(), "created_at".to_string()]);
    cfg.options.default_table_options = o;
    let create = Struct::new(StructType::Create, &t, &cfg);
    assert!(create.code().contains("pub struct CreatePosts {\n    /// Field representing column `title`\n    pub title: String,\n}"));
    assert!(!create.code().contains("created_at"));
}

#[test]
fn borrowed_strings_in_create_and_update() {
    let t = table("todos", "Todos", &["text"], vec![col("text", "String", false), col("note", "String", true)]);
    let mut cfg = config();
    let mut o = TableOptions::new();
    o.create_str_type = Some(StringType::Str);
    o.update_str_type = Some(StringType::Cow);
    cfg.options.default_table_options = o;
    let create = Struct::new(StructType::Create, &t, &cfg);
    let update = Struct::new(StructType::Update, &t, &cfg);
    assert!(create.code().contains("pub struct CreateTodos<'a> {"));
    assert!(create.code().contains("pub note: Option<&'a str>,"));
    assert!(update.code().contains("pub struct UpdateTodos<'a> {"));
    assert!(update.code().contains("pub note: Option<Option<Cow<'a, str>>>,"));
    assert!(update.code().contains("diesel::AsChangeset, PartialEq, Default)]"));
}

#[test]
fn bytes_representation() {
    let t = table("blobs", "Blobs", &["id"], vec![col("id", "i32", false), col("data", "Vec<u8>", false)]);
    let mut cfg = config();
    let mut o = TableOptions::new();
    o.create_bytes_type = Some(BytesType::Slice);
    cfg.options.default_table_options = o;
    let create = Struct::new(StructType::Create, &t, &cfg);
    assert!(create.code().contains("pub data: &'a [u8],"));
    assert!(create.code().contains("pub struct CreateBlobs<'a> {"));
}

#[test]
fn readonly_prefix_table() {
    let t = table("view_todos", "ViewTodos", &["id"], vec![col("id", "i32", false), col("text", "String", false)]);
    let mut cfg = config();
    cfg.options.readonly_prefixes = vec!["view_".to_string()];
    cfg.options.advanced_queries = true;
    assert!(cfg.table("view_todos").get_readonly());
    assert!(!cfg.table("todos").get_readonly());
    let create = Struct::new(StructType::Create, &t, &cfg);
    let update = Struct::new(StructType::Update, &t, &cfg);
    assert!(!create.has_code() && !update.has_code());
    assert!(!create.has_fields());
    let file = generate_for_table(&t, &cfg);
    assert!(file.contains("pub struct ViewTodos {"));
    assert!(!file.contains("fn create("));
    assert!(!file.contains("fn update("));
    assert!(!file.contains("fn delete("));
    assert!(file.contains("fn read("));
    assert!(file.contains("fn paginate("));
}

#[test]
fn readonly_suffix_table() {
    let t = table("todos_view", "TodosView", &["id"], vec![col("id", "i32", false), col("text", "String", false)]);
    let mut cfg = config();
    cfg.options.readonly_suffixes = vec!["_view".to_string()];
    let file = generate_for_table(&t, &cfg);
    assert!(!file.contains("CreateTodosView"));
    assert!(!file.contains("UpdateTodosView"));
    assert!(file.contains("fn read("));
    assert!(!file.contains("fn delete("));
}

#[test]
fn two_column_primary_key() {
    let t = table(
        "memberships",
        "Memberships",
        &["user_id", "group_id"],
        vec![col("user_id", "i32", false), col("group_id", "i64", false), col("role", "String", false)],
    );
    let cfg = config();
    let file = generate_for_table(&t, &cfg);
    assert!(file.contains("pub fn read(db: &mut ConnectionType, param_user_id: i32, param_group_id: i64)"));
    assert!(file.contains("memberships.filter(user_id.eq(param_user_id)).filter(group_id.eq(param_group_id)).first::<Self>(db)"));
    assert!(file.contains("pub fn update(db: &mut ConnectionType, param_user_id: i32, param_group_id: i64, item: &UpdateMemberships)"));
    assert!(file.contains("diesel::delete(memberships.filter(user_id.eq(param_user_id)).filter(group_id.eq(param_group_id)))"));
    assert!(file.contains("identified by the primary keys\n"));
    assert!(!file.contains("identified by the primary key\n"));
}

#[test]
fn keys_only_table_has_no_update() {
    let t = table("tags", "Tags", &["a", "b"], vec![col("a", "i32", false), col("b", "i32", false)]);
    let cfg = config();
    let update = Struct::new(StructType::Update, &t, &cfg);
    assert!(!update.has_code());
    let file = generate_for_table(&t, &cfg);
    assert!(!file.contains("fn update("));
    assert!(file.contains("fn delete("));
}

#[test]
fn create_without_fields_inserts_defaults() {
    let t = table("ids", "Ids", &["id"], vec![col("id", "i32", false)]);
    let mut cfg = config();
    let mut o = TableOptions::new();
    o.autogenerated_columns = Some(vec!["id".to_string()]);
    cfg.options.default_table_options = o;
    let file = generate_for_table(&t, &cfg);
    assert!(file.contains("pub fn create(db: &mut ConnectionType) -> diesel::QueryResult<Self>"));
    assert!(file.contains(".default_values()"));
}

#[test]
fn async_functions() {
    let t = todos();
    let mut cfg = config();
    let mut o = TableOptions::new();
    o.use_async = Some(true);
    cfg.options.default_table_options = o;
    let (kw, aw) = get_async(&cfg.table("todos"));
    assert_eq!((kw, aw), (" async", ".await"));
    let file = generate_for_table(&t, &cfg);
    assert!(file.contains("use diesel_async::RunQueryDsl;"));
    assert!(file.contains("pub async fn create("));
    assert!(file.contains("pub async fn read("));
    assert!(file.contains("pub async fn update("));
    assert!(file.contains("pub async fn delete("));
    assert!(file.contains(".first::<Self>(db).await"));
    assert_eq!(get_async(&TableOptions::new()), ("", ""));
}

#[test]
fn table_override_falls_back_to_defaults() {
    let mut cfg = config();
    let mut d = TableOptions::new();
    d.serde = Some(false);
    d.autogenerated_columns = Some(vec!["created_at".to_string()]);
    cfg.options.default_table_options = d;
    let mut o = TableOptions::new();
    o.fns = Some(false);
    cfg.options.table_options = vec![("todos".to_string(), o)];
    let resolved = cfg.table("todos");
    assert!(!resolved.get_fns());
    assert!(!resolved.get_serde());
    assert_eq!(resolved.get_autogenerated_columns(), vec!["created_at".to_string()]);
    let other = cfg.table("users");
    assert!(other.get_fns());
    let file = generate_for_table(&todos(), &cfg);
    assert!(!file.contains("impl Todos"));
    assert!(!file.contains("serde::Serialize"));
}

#[test]
fn foreign_keys_imports_and_belongs_to() {
    let mut t = table("posts", "Posts", &["id"], vec![col("id", "i32", false), col("user_account_id", "i32", false)]);
    t.foreign_keys = vec![("user_accounts".to_string(), "user_account_id".to_string())];
    let cfg = config();
    let imports = build_imports(&t, &cfg);
    assert!(imports.contains("use crate::models::user_accounts::UserAccounts;"));
    let read = Struct::new(StructType::Read, &t, &cfg);
    assert!(read.code().contains("#[diesel(table_name=posts, primary_key(id), belongs_to(UserAccounts, foreign_key=user_account_id))]"));
    assert!(read.code().contains("diesel::Associations, diesel::Identifiable"));
    assert_eq!(get_table_module_name("UserAccounts"), "user_accounts");
}

#[test]
fn once_options_move_shared_code() {
    let t = todos();
    let mut cfg = config();
    cfg.options.once_connection_type = true;
    cfg.options.once_common_structs = true;
    let imports = build_imports(&t, &cfg);
    assert_eq!(imports, "#[allow(unused)]\nuse crate::diesel::*;\nuse crate::schema::*;\nuse crate::models::common::*;");
    let file = generate_for_table(&t, &cfg);
    assert!(!file.contains("pub struct PaginationResult"));
    let files = generate_files(&vec![t], &cfg);
    assert_eq!(files[0].path, "common.rs");
    assert!(files[0].content.contains("pub struct PaginationResult<T>"));
    assert!(files[0].content.contains("pub type ConnectionType = diesel::pg::PgConnection;"));
    assert_eq!(files[1].path, "todos/generated.rs");
    assert_eq!(files[2].path, "todos/mod.rs");
    assert_eq!(files[3].path, "mod.rs");
    assert_eq!(files[3].content, "pub mod common;\npub mod todos;\n");
}

#[test]
fn single_model_file_paths() {
    let mut cfg = config();
    let mut o = TableOptions::new();
    o.single_model_file = Some(true);
    cfg.options.default_table_options = o;
    let files = generate_files(&vec![todos()], &cfg);
    assert_eq!(files.len(), 2);
    assert_eq!(files[0].path, "todos.rs");
    assert_eq!(files[1].content, "pub mod todos;\n");
}

#[test]
fn common_structs_and_connection_type() {
    let s = generate_common_structs(&TableOptions::new());
    assert!(s.starts_with("/// Result of a `.paginate` function\n#[derive(Debug, serde::Serialize)]\npub struct PaginationResult<T> {"));
    let mut o = TableOptions::new();
    o.serde = Some(false);
    o.tsync = Some(true);
    let s2 = generate_common_structs(&o);
    assert!(s2.contains("#[tsync::tsync]\n#[derive(Debug, )]"));
    assert_eq!(generate_connection_type(&config()), "pub type ConnectionType = diesel::pg::PgConnection;");
}

#[test]
fn defaults_for_types() {
    assert_eq!(default_for_type("i32"), "0");
    assert_eq!(default_for_type("usize"), "0");
    assert_eq!(default_for_type("f64"), "0.0");
    assert_eq!(default_for_type("bool"), "false");
    assert_eq!(default_for_type("String"), "String::new()");
    assert_eq!(default_for_type("&str"), "\"\"");
    assert_eq!(default_for_type("Cow<str>"), "Cow::Owned(String::new())");
    assert_eq!(default_for_type("&'a str"), "\"\"");
    assert_eq!(default_for_type("Cow<'a, str>"), "Cow::Owned(String::new())");
    assert_eq!(default_for_type("Option<i32>"), "None");
    assert_eq!(default_for_type("chrono::NaiveDateTime"), "Default::default()");
}

#[test]
fn default_impl_block() {
    let t = table("todos", "Todos", &["id"], vec![col("id", "i32", false), col("note", "String", true)]);
    let opts = config().table("todos");
    let s = build_default_impl_fn("Todos", StructType::Read, &t, &opts);
    assert_eq!(
        s,
        "impl Default for Todos {\n    fn default() -> Self {\n        Self {\n            id: 0,\n            note: None\n        }\n    }\n}"
    );
}

#[test]
fn array_field_default_is_default_default() {
    let mut tags = col("tags", "i32", false);
    tags.is_array = true;
    let t = table("posts", "Posts", &["id"], vec![col("id", "i32", false), tags]);
    let opts = config().table("posts");
    let s = build_default_impl_fn("Posts", StructType::Read, &t, &opts);
    assert!(s.contains("            id: 0,\n            tags: Default::default()\n"));
}

#[test]
fn create_default_impl_follows_create_fields() {
    let t = table(
        "posts",
        "Posts",
        &["id"],
        vec![col("id", "i32", false), col("title", "String", false), col("body", "String", true)],
    );
    let mut cfg = config();
    let mut o = TableOptions::new();
    o.autogenerated_columns = Some(vec!["id".to_string()]);
    o.create_str_type = Some(StringType::Str);
    cfg.options.default_table_options = o;
    cfg.options.default_impl = true;
    let file = generate_for_table(&t, &cfg);
    assert!(file.contains(
        "impl Default for CreatePosts {\n    fn default() -> Self {\n        Self {\n            title: \"\",\n            body: None\n        }\n    }\n}"
    ));
    assert!(file.contains(
        "impl Default for Posts {\n    fn default() -> Self {\n        Self {\n            id: 0,\n            title: String::new(),\n            body: None\n        }\n    }\n}"
    ));
}

#[test]
fn lifetime_only_where_a_field_needs_it() {
    let t = table("counts", "Counts", &["id"], vec![col("id", "i32", false), col("n", "i64", false)]);
    let mut cfg = config();
    let mut o = TableOptions::new();
    o.create_str_type = Some(StringType::Str);
    o.update_bytes_type = Some(BytesType::Cow);
    cfg.options.default_table_options = o;
    let create = Struct::new(StructType::Create, &t, &cfg);
    let update = Struct::new(StructType::Update, &t, &cfg);
    assert!(create.code().contains("pub struct CreateCounts {\n"));
    assert!(update.code().contains("pub struct UpdateCounts {\n"));
    let t2 = table("blobs", "Blobs", &["id"], vec![col("id", "i32", false), col("data", "Vec<u8>", false)]);
    let update2 = Struct::new(StructType::Update, &t2, &cfg);
    assert!(update2.code().contains("pub struct UpdateBlobs<'a> {\n"));
    let create2 = Struct::new(StructType::Create, &t2, &cfg);
    assert!(create2.code().contains("pub struct CreateBlobs {\n"));
}

#[test]
fn unsigned_applies_to_integers_only() {
    let mut c = col("name", "String", false);
    c.is_unsigned = true;
    assert_eq!(StructField::from_column(&c).base_type, "String");
    let mut d = col("big", "i64", false);
    d.is_unsigned = true;
    assert_eq!(StructField::from_column(&d).base_type, "u64");
    let mut e = col("len", "isize", false);
    e.is_unsigned = true;
    assert_eq!(StructField::from_column(&e).base_type, "usize");
    let mut f = col("tiny", "i8", true);
    f.is_unsigned = true;
    assert_eq!(StructField::from_column(&f).to_rust_type(), "Option<u8>");
}

#[test]
fn file_statuses() {
    assert_eq!(file_status(&None, "a"), FileChangeStatus::Added);
    assert_eq!(file_status(&Some("a".to_string()), "a"), FileChangeStatus::Unchanged);
    assert_eq!(file_status(&Some("a".to_string()), "b"), FileChangeStatus::Modified);
    assert_eq!(FileChangeStatus::Modified.as_str(), "Modified");
}

#[test]
fn second_run_is_unchanged() {
    let cfg = config();
    let first = generate_files(&vec![todos()], &cfg);
    let priors: Vec<Option<String>> = first.iter().map(|f| Some(f.content.clone())).collect();
    let second = generate_files(&vec![todos()], &cfg);
    let (changes, count) = classify(&second, &priors);
    assert_eq!(count, 0);
    assert!(changes.iter().all(|c| c.status == FileChangeStatus::Unchanged));
    let none: Vec<Option<String>> = first.iter().map(|_| None).collect();
    let (added, n) = classify(&first, &none);
    assert_eq!(n, first.len());
    assert_eq!(added[0].status, FileChangeStatus::Added);
    let mut changed = priors.clone();
    changed[0] = Some("old".to_string());
    let files: Vec<GeneratedFile> = second;
    let (c2, n2) = classify(&files, &changed);
    assert_eq!(n2, 1);
    assert_eq!(c2[0].status, FileChangeStatus::Modified);
}

#[test]
fn pagination_pages() {
    assert_eq!(num_pages(10, 3), 4);
    assert_eq!(num_pages(9, 3), 3);
    assert_eq!(num_pages(0, 3), 0);
    let p = PaginationResult::new(vec![1, 2, 3], 10, -2, 0);
    assert_eq!(p.page, 0);
    assert_eq!(p.page_size, 1);
    assert_eq!(p.num_pages, 10);
    let q = PaginationResult::new(Vec::<u8>::new(), 9, 1, 3);
    assert_eq!((q.page, q.page_size, q.num_pages), (1, 3, 3));
}

#[test]
fn advanced_queries_filter() {
    let t = todos();
    let mut cfg = config();
    cfg.options.advanced_queries = true;
    let file = generate_for_table(&t, &cfg);
    assert!(file.contains("pub fn paginate(db: &mut ConnectionType, page: i64, page_size: i64, filter: TodosFilter)"));
    assert!(file.contains("num_pages: total_items / page_size + i64::from(total_items % page_size != 0)"));
    assert!(file.contains("NullableFilter::IsNull => query = query.filter(crate::schema::todos::done.is_null()),"));
    assert!(file.contains("NullableFilter::Equals(value) => query = query.filter(crate::schema::todos::done.eq(value)),"));
    assert!(file.contains("query = query.filter(crate::schema::todos::text.eq(filter_text));"));
    assert!(file.contains("pub enum NullableFilter<T> {"));
    assert!(file.contains("pub struct TodosFilter {\n    pub id: Option<i32>,\n    pub text: Option<String>,\n    pub done: NullableFilter<bool>,\n}"));
    assert!(file.contains("BoxedQuery<'a, diesel::pg::Pg>"));
}

#[test]
fn main_options_config() {
    let m = MainOptions {
        input: "schema.rs".to_string(),
        output: "models".to_string(),
        tsync: false,
        use_async: true,
        autogenerated_columns: Some(vec!["created_at".to_string()]),
        connection_type: "diesel::pg::PgConnection".to_string(),
        no_serde: true,
        schema_path: "crate::schema::".to_string(),
        model_path: "crate::models::".to_string(),
        no_crud: false,
        create_str: StringTypeCli::Str,
        update_str: StringTypeCli::String,
        single_model_file: false,
        once_common_structs: false,
        once_connection_type: true,
        readonly_prefixes: vec!["v_".to_string()],
        readonly_suffixes: Vec::new(),
        default_impl: false,
        advanced_queries: false,
        diesel_backend: "diesel::pg::Pg".to_string(),
    };
    let cfg = m.to_config();
    let o = cfg.table("todos");
    assert!(o.get_async());
    assert!(!o.get_serde());
    assert!(o.get_fns());
    assert_eq!(o.get_create_str_type(), StringType::Str);
    assert_eq!(o.get_create_str_type().as_str(), "&'a str");
    assert_eq!(o.get_update_str_type(), StringType::String);
    assert_eq!(o.get_autogenerated_columns(), vec!["created_at".to_string()]);
    assert!(cfg.table("v_todos").get_readonly());
    assert!(cfg.any_once_option());
    assert_eq!(StringType::from(StringTypeCli::Cow), StringType::Cow);
    assert_eq!(StringType::Cow.get_lifetime(), "'a");
    assert_eq!(BytesType::Cow.as_str(), "Cow<'a, [u8]>");
}

#[test]
fn default_impl_in_file() {
    let t = todos();
    let mut cfg = config();
    cfg.options.default_impl = true;
    let file = generate_for_table(&t, &cfg);
    assert!(file.contains("impl Default for CreateTodos {"));
    assert!(file.ends_with("impl Default for Todos {\n    fn default() -> Self {\n        Self {\n            id: 0,\n            text: String::new(),\n            done: None\n        }\n    }\n}\n"));
}

#[test]
fn queryable_by_name_derive() {
    let t = todos();
    let mut cfg = config();
    let mut o = TableOptions::new();
    o.queryable_by_name = Some(true);
    cfg.options.default_table_options = o;
    let read = Struct::new(StructType::Read, &t, &cfg);
    assert!(read.code().contains("diesel::Queryable, diesel::Selectable, diesel::QueryableByName, PartialEq, diesel::Identifiable)]"));
    let create = Struct::new(StructType::Create, &t, &cfg);
    assert!(!create.code().contains("QueryableByName"));
}

#[test]
fn pagination_largest_values() {
    assert_eq!(num_pages(i64::MAX, 1), i64::MAX);
    assert_eq!(num_pages(i64::MAX, 2), i64::MAX / 2 + 1);
    assert_eq!(num_pages(5, i64::MAX), 1);
}

#[test]
fn table_without_columns_has_no_structs() {
    let t = table("empty", "Empty", &[], Vec::new());
    let cfg = config();
    let read = Struct::new(StructType::Read, &t, &cfg);
    assert!(!read.has_code());
    assert_eq!(read.code(), "");
    let file = generate_for_table(&t, &cfg);
    assert!(!file.contains("pub struct Empty"));
    assert!(file.contains("impl Empty {"));
}

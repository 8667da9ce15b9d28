//! The fixed text of the generated code, with its holes as parameters: each
//! piece is a spec function and an executable function that provably builds
//! exactly that text.
use vstd::prelude::*;

verus! {

/// The `create` function that inserts a `Create*` struct.
pub open spec fn create_with_item_fn_text(tn: Seq<char>, sp: Seq<char>, ci: Seq<char>, kw: Seq<char>, aw: Seq<char>) -> Seq<char> {
    "\n    /// Insert a new row into `"@ + tn + "` with a given [`"@ + ci + "`]\n    pub"@ + kw + " fn create(db: &mut ConnectionType, item: &"@ + ci + ") -> diesel::QueryResult<Self> {\n        use "@ + sp + tn + "::dsl::*;\n\n        diesel::insert_into("@ + tn + ").values(item).get_result::<Self>(db)"@ + aw + "\n    }\n"@
}

/// The `create` function that inserts a `Create*` struct.
pub fn create_with_item_fn(tn: &str, sp: &str, ci: &str, kw: &str, aw: &str) -> (r: String)
    ensures
        r@ == create_with_item_fn_text(tn@, sp@, ci@, kw@, aw@),
{
    let mut s = String::from_str("\n    /// Insert a new row into `");
    s.append(tn);
    s.append("` with a given [`");
    s.append(ci);
    s.append("`]\n    pub");
    s.append(kw);
    s.append(" fn create(db: &mut ConnectionType, item: &");
    s.append(ci);
    s.append(") -> diesel::QueryResult<Self> {\n        use ");
    s.append(sp);
    s.append(tn);
    s.append("::dsl::*;\n\n        diesel::insert_into(");
    s.append(tn);
    s.append(").values(item).get_result::<Self>(db)");
    s.append(aw);
    s.append("\n    }\n");
    s
}

/// The `create` function that inserts a row of default values.
pub open spec fn create_default_fn_text(tn: Seq<char>, sp: Seq<char>, kw: Seq<char>, aw: Seq<char>) -> Seq<char> {
    "\n    /// Insert a new row into `"@ + tn + "` with all default values\n    pub"@ + kw + " fn create(db: &mut ConnectionType) -> diesel::QueryResult<Self> {\n        use "@ + sp + tn + "::dsl::*;\n\n        diesel::insert_into("@ + tn + ").default_values().get_result::<Self>(db)"@ + aw + "\n    }\n"@
}

/// The `create` function that inserts a row of default values.
pub fn create_default_fn(tn: &str, sp: &str, kw: &str, aw: &str) -> (r: String)
    ensures
        r@ == create_default_fn_text(tn@, sp@, kw@, aw@),
{
    let mut s = String::from_str("\n    /// Insert a new row into `");
    s.append(tn);
    s.append("` with all default values\n    pub");
    s.append(kw);
    s.append(" fn create(db: &mut ConnectionType) -> diesel::QueryResult<Self> {\n        use ");
    s.append(sp);
    s.append(tn);
    s.append("::dsl::*;\n\n        diesel::insert_into(");
    s.append(tn);
    s.append(").default_values().get_result::<Self>(db)");
    s.append(aw);
    s.append("\n    }\n");
    s
}

/// The `read` function, by primary key.
pub open spec fn read_fn_text(tn: Seq<char>, sp: Seq<char>, key: Seq<char>, params: Seq<char>, filters: Seq<char>, kw: Seq<char>, aw: Seq<char>) -> Seq<char> {
    "\n    /// Get a row from `"@ + tn + "`, identified by the primary "@ + key + "\n    pub"@ + kw + " fn read(db: &mut ConnectionType, "@ + params + ") -> diesel::QueryResult<Self> {\n        use "@ + sp + tn + "::dsl::*;\n\n        "@ + tn + "."@ + filters + ".first::<Self>(db)"@ + aw + "\n    }\n"@
}

/// The `read` function, by primary key.
pub fn read_fn(tn: &str, sp: &str, key: &str, params: &str, filters: &str, kw: &str, aw: &str) -> (r: String)
    ensures
        r@ == read_fn_text(tn@, sp@, key@, params@, filters@, kw@, aw@),
{
    let mut s = String::from_str("\n    /// Get a row from `");
    s.append(tn);
    s.append("`, identified by the primary ");
    s.append(key);
    s.append("\n    pub");
    s.append(kw);
    s.append(" fn read(db: &mut ConnectionType, ");
    s.append(params);
    s.append(") -> diesel::QueryResult<Self> {\n        use ");
    s.append(sp);
    s.append(tn);
    s.append("::dsl::*;\n\n        ");
    s.append(tn);
    s.append(".");
    s.append(filters);
    s.append(".first::<Self>(db)");
    s.append(aw);
    s.append("\n    }\n");
    s
}

/// The `paginate` function.
pub open spec fn paginate_fn_text(sn: Seq<char>, kw: Seq<char>, aw: Seq<char>) -> Seq<char> {
    "\n    /// Paginates through the table where page is a 0-based index (i.e. page 0 is the first page)\n    pub"@ + kw + " fn paginate(db: &mut ConnectionType, page: i64, page_size: i64, filter: "@ + sn + "Filter) -> diesel::QueryResult<PaginationResult<Self>> {\n        let page = page.max(0);\n        let page_size = page_size.max(1);\n        let total_items = Self::filter(filter.clone()).count().get_result(db)"@ + aw + "?;\n        let items = Self::filter(filter).limit(page_size).offset(page * page_size).load::<Self>(db)"@ + aw + "?;\n\n        Ok(PaginationResult {\n            items,\n            total_items,\n            page,\n            page_size,\n            /* ceiling division of integers */\n            num_pages: total_items / page_size + i64::from(total_items % page_size != 0)\n        })\n    }\n"@
}

/// The `paginate` function.
pub fn paginate_fn(sn: &str, kw: &str, aw: &str) -> (r: String)
    ensures
        r@ == paginate_fn_text(sn@, kw@, aw@),
{
    let mut s = String::from_str("\n    /// Paginates through the table where page is a 0-based index (i.e. page 0 is the first page)\n    pub");
    s.append(kw);
    s.append(" fn paginate(db: &mut ConnectionType, page: i64, page_size: i64, filter: ");
    s.append(sn);
    s.append("Filter) -> diesel::QueryResult<PaginationResult<Self>> {\n        let page = page.max(0);\n        let page_size = page_size.max(1);\n        let total_items = Self::filter(filter.clone()).count().get_result(db)");
    s.append(aw);
    s.append("?;\n        let items = Self::filter(filter).limit(page_size).offset(page * page_size).load::<Self>(db)");
    s.append(aw);
    s.append("?;\n\n        Ok(PaginationResult {\n            items,\n            total_items,\n            page,\n            page_size,\n            /* ceiling division of integers */\n            num_pages: total_items / page_size + i64::from(total_items % page_size != 0)\n        })\n    }\n");
    s
}

/// The filter step of a nullable column: unset, equal to a value, or null.
pub open spec fn nullable_filter_text(sp: Seq<char>, tn: Seq<char>, cn: Seq<char>) -> Seq<char> {
    "\n        match filter."@ + cn + " {\n            NullableFilter::Unspecified => {}\n            NullableFilter::Equals(value) => query = query.filter("@ + sp + tn + "::"@ + cn + ".eq(value)),\n            NullableFilter::IsNull => query = query.filter("@ + sp + tn + "::"@ + cn + ".is_null()),\n        }"@
}

/// The filter step of a nullable column: unset, equal to a value, or null.
pub fn nullable_filter(sp: &str, tn: &str, cn: &str) -> (r: String)
    ensures
        r@ == nullable_filter_text(sp@, tn@, cn@),
{
    let mut s = String::from_str("\n        match filter.");
    s.append(cn);
    s.append(" {\n            NullableFilter::Unspecified => {}\n            NullableFilter::Equals(value) => query = query.filter(");
    s.append(sp);
    s.append(tn);
    s.append("::");
    s.append(cn);
    s.append(".eq(value)),\n            NullableFilter::IsNull => query = query.filter(");
    s.append(sp);
    s.append(tn);
    s.append("::");
    s.append(cn);
    s.append(".is_null()),\n        }");
    s
}

/// The filter step of a column that is not nullable: unset or equal to a value.
pub open spec fn plain_filter_text(sp: Seq<char>, tn: Seq<char>, cn: Seq<char>) -> Seq<char> {
    "\n        if let Some(filter_"@ + cn + ") = filter."@ + cn + " {\n            query = query.filter("@ + sp + tn + "::"@ + cn + ".eq(filter_"@ + cn + "));\n        }"@
}

/// The filter step of a column that is not nullable: unset or equal to a value.
pub fn plain_filter(sp: &str, tn: &str, cn: &str) -> (r: String)
    ensures
        r@ == plain_filter_text(sp@, tn@, cn@),
{
    let mut s = String::from_str("\n        if let Some(filter_");
    s.append(cn);
    s.append(") = filter.");
    s.append(cn);
    s.append(" {\n            query = query.filter(");
    s.append(sp);
    s.append(tn);
    s.append("::");
    s.append(cn);
    s.append(".eq(filter_");
    s.append(cn);
    s.append("));\n        }");
    s
}

/// The `filter` function that builds a boxed query from a filter struct.
pub open spec fn filter_fn_text(sn: Seq<char>, sp: Seq<char>, tn: Seq<char>, backend: Seq<char>, filters: Seq<char>) -> Seq<char> {
    "\n    /// A utility function to help build custom search queries\n    ///\n    /// Example:\n    ///\n    /// ```\n    /// // create a filter for completed todos\n    /// let query = Todo::filter(TodoFilter {\n    ///     completed: Some(true),\n    ///     ..Default::default()\n    /// });\n    ///\n    /// // delete completed todos\n    /// diesel::delete(query).execute(db)?;\n    /// ```\n    pub fn filter<'a>(\n        filter: "@ + sn + "Filter,\n    ) -> "@ + sp + tn + "::BoxedQuery<'a, "@ + backend + "> {\n        let mut query = "@ + sp + tn + "::table.into_boxed();\n        "@ + filters + "\n\n        query\n    }\n"@
}

/// The `filter` function that builds a boxed query from a filter struct.
pub fn filter_fn(sn: &str, sp: &str, tn: &str, backend: &str, filters: &str) -> (r: String)
    ensures
        r@ == filter_fn_text(sn@, sp@, tn@, backend@, filters@),
{
    let mut s = String::from_str("\n    /// A utility function to help build custom search queries\n    ///\n    /// Example:\n    ///\n    /// ```\n    /// // create a filter for completed todos\n    /// let query = Todo::filter(TodoFilter {\n    ///     completed: Some(true),\n    ///     ..Default::default()\n    /// });\n    ///\n    /// // delete completed todos\n    /// diesel::delete(query).execute(db)?;\n    /// ```\n    pub fn filter<'a>(\n        filter: ");
    s.append(sn);
    s.append("Filter,\n    ) -> ");
    s.append(sp);
    s.append(tn);
    s.append("::BoxedQuery<'a, ");
    s.append(backend);
    s.append("> {\n        let mut query = ");
    s.append(sp);
    s.append(tn);
    s.append("::table.into_boxed();\n        ");
    s.append(filters);
    s.append("\n\n        query\n    }\n");
    s
}

/// The `update` function, by primary key.
pub open spec fn update_fn_text(tn: Seq<char>, sp: Seq<char>, key: Seq<char>, params: Seq<char>, filters: Seq<char>, ui: Seq<char>, kw: Seq<char>, aw: Seq<char>) -> Seq<char> {
    "\n    /// Update a row in `"@ + tn + "`, identified by the primary "@ + key + " with [`"@ + ui + "`]\n    pub"@ + kw + " fn update(db: &mut ConnectionType, "@ + params + ", item: &"@ + ui + ") -> diesel::QueryResult<Self> {\n        use "@ + sp + tn + "::dsl::*;\n\n        diesel::update("@ + tn + "."@ + filters + ").set(item).get_result(db)"@ + aw + "\n    }\n"@
}

/// The `update` function, by primary key.
pub fn update_fn(tn: &str, sp: &str, key: &str, params: &str, filters: &str, ui: &str, kw: &str, aw: &str) -> (r: String)
    ensures
        r@ == update_fn_text(tn@, sp@, key@, params@, filters@, ui@, kw@, aw@),
{
    let mut s = String::from_str("\n    /// Update a row in `");
    s.append(tn);
    s.append("`, identified by the primary ");
    s.append(key);
    s.append(" with [`");
    s.append(ui);
    s.append("`]\n    pub");
    s.append(kw);
    s.append(" fn update(db: &mut ConnectionType, ");
    s.append(params);
    s.append(", item: &");
    s.append(ui);
    s.append(") -> diesel::QueryResult<Self> {\n        use ");
    s.append(sp);
    s.append(tn);
    s.append("::dsl::*;\n\n        diesel::update(");
    s.append(tn);
    s.append(".");
    s.append(filters);
    s.append(").set(item).get_result(db)");
    s.append(aw);
    s.append("\n    }\n");
    s
}

/// The `delete` function, by primary key.
pub open spec fn delete_fn_text(tn: Seq<char>, sp: Seq<char>, key: Seq<char>, params: Seq<char>, filters: Seq<char>, kw: Seq<char>, aw: Seq<char>) -> Seq<char> {
    "\n    /// Delete a row in `"@ + tn + "`, identified by the primary "@ + key + "\n    pub"@ + kw + " fn delete(db: &mut ConnectionType, "@ + params + ") -> diesel::QueryResult<usize> {\n        use "@ + sp + tn + "::dsl::*;\n\n        diesel::delete("@ + tn + "."@ + filters + ").execute(db)"@ + aw + "\n    }\n"@
}

/// The `delete` function, by primary key.
pub fn delete_fn(tn: &str, sp: &str, key: &str, params: &str, filters: &str, kw: &str, aw: &str) -> (r: String)
    ensures
        r@ == delete_fn_text(tn@, sp@, key@, params@, filters@, kw@, aw@),
{
    let mut s = String::from_str("\n    /// Delete a row in `");
    s.append(tn);
    s.append("`, identified by the primary ");
    s.append(key);
    s.append("\n    pub");
    s.append(kw);
    s.append(" fn delete(db: &mut ConnectionType, ");
    s.append(params);
    s.append(") -> diesel::QueryResult<usize> {\n        use ");
    s.append(sp);
    s.append(tn);
    s.append("::dsl::*;\n\n        diesel::delete(");
    s.append(tn);
    s.append(".");
    s.append(filters);
    s.append(").execute(db)");
    s.append(aw);
    s.append("\n    }\n");
    s
}

/// The filter struct: for each column an `Option`, or a `NullableFilter` where the column is nullable.
pub open spec fn filter_struct_text(sn: Seq<char>, fields: Seq<char>) -> Seq<char> {
    "/// A filter on a nullable column: no filter, equal to a value, or null\n#[derive(Debug, Default, Clone)]\npub enum NullableFilter<T> {\n    /// The column is not filtered\n    #[default]\n    Unspecified,\n    /// The column equals the value\n    Equals(T),\n    /// The column is null\n    IsNull,\n}\n\n#[derive(Debug, Default, Clone)]\npub struct "@ + sn + "Filter {\n    "@ + fields + "\n}\n"@
}

/// The filter struct: for each column an `Option`, or a `NullableFilter` where the column is nullable.
pub fn filter_struct(sn: &str, fields: &str) -> (r: String)
    ensures
        r@ == filter_struct_text(sn@, fields@),
{
    let mut s = String::from_str("/// A filter on a nullable column: no filter, equal to a value, or null\n#[derive(Debug, Default, Clone)]\npub enum NullableFilter<T> {\n    /// The column is not filtered\n    #[default]\n    Unspecified,\n    /// The column equals the value\n    Equals(T),\n    /// The column is null\n    IsNull,\n}\n\n#[derive(Debug, Default, Clone)]\npub struct ");
    s.append(sn);
    s.append("Filter {\n    ");
    s.append(fields);
    s.append("\n}\n");
    s
}

/// The filter field of a column that is not nullable.
pub open spec fn filter_field_text(name: Seq<char>, ty: Seq<char>) -> Seq<char> {
    "pub "@ + name + ": Option<"@ + ty + ">,"@
}

/// The filter field of a column that is not nullable.
pub fn filter_field(name: &str, ty: &str) -> (r: String)
    ensures
        r@ == filter_field_text(name@, ty@),
{
    let mut s = String::from_str("pub ");
    s.append(name);
    s.append(": Option<");
    s.append(ty);
    s.append(">,");
    s
}

/// The filter field of a nullable column.
pub open spec fn nullable_filter_field_text(name: Seq<char>, ty: Seq<char>) -> Seq<char> {
    "pub "@ + name + ": NullableFilter<"@ + ty + ">,"@
}

/// The filter field of a nullable column.
pub fn nullable_filter_field(name: &str, ty: &str) -> (r: String)
    ensures
        r@ == nullable_filter_field_text(name@, ty@),
{
    let mut s = String::from_str("pub ");
    s.append(name);
    s.append(": NullableFilter<");
    s.append(ty);
    s.append(">,");
    s
}

/// The structs shared by all tables.
pub open spec fn common_structs_text(tsync: Seq<char>, serde: Seq<char>) -> Seq<char> {
    "/// Result of a `.paginate` function\n"@ + tsync + "#[derive(Debug, "@ + serde + ")]\npub struct PaginationResult<T> {\n    /// Resulting items that are from the current page\n    pub items: Vec<T>,\n    /// The count of total items there are\n    pub total_items: i64,\n    /// Current page, 0-based index\n    pub page: i64,\n    /// Size of a page\n    pub page_size: i64,\n    /// Number of total possible pages, given the `page_size` and `total_items`\n    pub num_pages: i64,\n}\n"@
}

/// The structs shared by all tables.
pub fn common_structs(tsync: &str, serde: &str) -> (r: String)
    ensures
        r@ == common_structs_text(tsync@, serde@),
{
    let mut s = String::from_str("/// Result of a `.paginate` function\n");
    s.append(tsync);
    s.append("#[derive(Debug, ");
    s.append(serde);
    s.append(")]\npub struct PaginationResult<T> {\n    /// Resulting items that are from the current page\n    pub items: Vec<T>,\n    /// The count of total items there are\n    pub total_items: i64,\n    /// Current page, 0-based index\n    pub page: i64,\n    /// Size of a page\n    pub page_size: i64,\n    /// Number of total possible pages, given the `page_size` and `total_items`\n    pub num_pages: i64,\n}\n");
    s
}

/// An `impl Default` block.
pub open spec fn default_impl_text(sn: Seq<char>, fields: Seq<char>) -> Seq<char> {
    "impl Default for "@ + sn + " {\n    fn default() -> Self {\n        Self {\n"@ + fields + "\n        }\n    }\n}"@
}

/// An `impl Default` block.
pub fn default_impl(sn: &str, fields: &str) -> (r: String)
    ensures
        r@ == default_impl_text(sn@, fields@),
{
    let mut s = String::from_str("impl Default for ");
    s.append(sn);
    s.append(" {\n    fn default() -> Self {\n        Self {\n");
    s.append(fields);
    s.append("\n        }\n    }\n}");
    s
}

/// One field of an `impl Default` block.
pub open spec fn default_field_text(name: Seq<char>, value: Seq<char>) -> Seq<char> {
    "            "@ + name + ": "@ + value
}

/// One field of an `impl Default` block.
pub fn default_field(name: &str, value: &str) -> (r: String)
    ensures
        r@ == default_field_text(name@, value@),
{
    let mut s = String::from_str("            ");
    s.append(name);
    s.append(": ");
    s.append(value);
    s
}

/// The import of the struct of a table that a foreign key points to.
pub open spec fn model_import_text(mp: Seq<char>, module: Seq<char>, sn: Seq<char>) -> Seq<char> {
    "use "@ + mp + module + "::"@ + sn + ";"@
}

/// The import of the struct of a table that a foreign key points to.
pub fn model_import(mp: &str, module: &str, sn: &str) -> (r: String)
    ensures
        r@ == model_import_text(mp@, module@, sn@),
{
    let mut s = String::from_str("use ");
    s.append(mp);
    s.append(module);
    s.append("::");
    s.append(sn);
    s.append(";");
    s
}

/// The `ConnectionType` alias.
pub open spec fn connection_type_alias_text(ct: Seq<char>) -> Seq<char> {
    "pub type ConnectionType = "@ + ct + ";"@
}

/// The `ConnectionType` alias.
pub fn connection_type_alias(ct: &str) -> (r: String)
    ensures
        r@ == connection_type_alias_text(ct@),
{
    let mut s = String::from_str("pub type ConnectionType = ");
    s.append(ct);
    s.append(";");
    s
}

/// One primary key parameter.
pub open spec fn key_param_text(name: Seq<char>, ty: Seq<char>) -> Seq<char> {
    "param_"@ + name + ": "@ + ty
}

/// One primary key parameter.
pub fn key_param(name: &str, ty: &str) -> (r: String)
    ensures
        r@ == key_param_text(name@, ty@),
{
    let mut s = String::from_str("param_");
    s.append(name);
    s.append(": ");
    s.append(ty);
    s
}

/// One primary key filter.
pub open spec fn key_filter_text(name: Seq<char>) -> Seq<char> {
    "filter("@ + name + ".eq(param_"@ + name + "))"@
}

/// One primary key filter.
pub fn key_filter(name: &str) -> (r: String)
    ensures
        r@ == key_filter_text(name@),
{
    let mut s = String::from_str("filter(");
    s.append(name);
    s.append(".eq(param_");
    s.append(name);
    s.append("))");
    s
}

/// A module declaration.
pub open spec fn mod_stmt_text(name: Seq<char>) -> Seq<char> {
    "pub mod "@ + name + ";"@
}

/// A module declaration.
pub fn mod_stmt(name: &str) -> (r: String)
    ensures
        r@ == mod_stmt_text(name@),
{
    let mut s = String::from_str("pub mod ");
    s.append(name);
    s.append(";");
    s
}

} // verus!

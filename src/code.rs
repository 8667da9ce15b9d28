//! The code generated for one table: imports, structs, the CRUD functions,
//! the `Default` impls, and the whole file.
use vstd::prelude::*;
use crate::model::{
    base_type_of, is_integer_name, is_integer_type, rust_type_of, rust_type_spec, ParsedColumnMacro, ParsedTableMacro, StructField, StructType,
};
use crate::naming::{pascal_of, snake_of, to_pascal_case, to_snake_case};
use crate::options::{GenerationConfig, OptionsView, TableOptions};
use crate::structs::{
    field_of, field_type, field_type_of, fields, fields_of, lemma_same_resolved, struct_code,
    struct_columns, tsync_attr_spec, Struct,
};
use crate::templates::{
    common_structs, common_structs_text, connection_type_alias, connection_type_alias_text,
    create_default_fn, create_default_fn_text, create_with_item_fn, create_with_item_fn_text,
    default_field, default_field_text, default_impl, default_impl_text, delete_fn,
    delete_fn_text, filter_field, filter_field_text, filter_fn, filter_fn_text, filter_struct,
    filter_struct_text, key_filter, key_filter_text, key_param, key_param_text, model_import,
    model_import_text, nullable_filter, nullable_filter_field, nullable_filter_field_text,
    nullable_filter_text, paginate_fn, paginate_fn_text,
    plain_filter, plain_filter_text, read_fn, read_fn_text, update_fn, update_fn_text,
};
use crate::text::{concat, concat_spec, join, join_spec, starts_with, str_eq, has_prefix, views};

verus! {

/// The first line of every generated file.
pub const FILE_SIGNATURE: &'static str = "/* @generated and managed by dsync */";

/// Some column is named `name`.
pub open spec fn has_column(cols: Seq<ParsedColumnMacro>, name: Seq<char>) -> bool {
    exists|i: int| 0 <= i < cols.len() && #[trigger] cols[i].name@ == name
}

/// Every primary key column names a column of the table.
pub open spec fn table_wf(t: ParsedTableMacro) -> bool {
    forall|k: int|
        0 <= k < t.primary_key_columns@.len() ==> has_column(t.columns@, #[trigger] t.primary_key_columns@[k]@)
}

/// `i` is the first column named `name`.
pub open spec fn first_named(cols: Seq<ParsedColumnMacro>, name: Seq<char>, i: int) -> bool {
    &&& 0 <= i < cols.len()
    &&& cols[i].name@ == name
    &&& forall|j: int| 0 <= j < i ==> cols[j].name@ != name
}

/// The first column named `name` (some column where none is).
pub open spec fn column_named(cols: Seq<ParsedColumnMacro>, name: Seq<char>) -> ParsedColumnMacro {
    let i = choose|i: int| first_named(cols, name, i);
    cols[i]
}

/// The primary key columns of a table, in key order.
pub open spec fn key_columns(t: ParsedTableMacro) -> Seq<ParsedColumnMacro> {
    t.primary_key_columns@.map_values(|k: String| column_named(t.columns@, k@))
}

/// The parameter list of the functions that take a primary key.
pub open spec fn key_params_spec(t: ParsedTableMacro) -> Seq<char> {
    join_spec(
        key_columns(t).map_values(|c: ParsedColumnMacro| key_param_text(c.name@, c.ty@)),
        ", "@,
    )
}

/// The filter chain that selects a row by its primary key.
pub open spec fn key_filters_spec(t: ParsedTableMacro) -> Seq<char> {
    join_spec(
        key_columns(t).map_values(|c: ParsedColumnMacro| key_filter_text(c.name@)),
        "."@,
    )
}

/// `key` for at most one primary key column, else `keys`.
pub open spec fn key_word(t: ParsedTableMacro) -> Seq<char> {
    if t.primary_key_columns@.len() <= 1 {
        "key"@
    } else {
        "keys"@
    }
}

pub open spec fn async_kw(o: OptionsView) -> Seq<char> {
    if o.use_async {
        " async"@
    } else {
        ""@
    }
}

pub open spec fn await_kw(o: OptionsView) -> Seq<char> {
    if o.use_async {
        ".await"@
    } else {
        ""@
    }
}

pub open spec fn serde_derive(o: OptionsView) -> Seq<char> {
    if o.serde {
        "serde::Serialize"@
    } else {
        ""@
    }
}

/// The structs shared by every table, under options `o`.
pub open spec fn common_structs_spec(o: OptionsView) -> Seq<char> {
    common_structs_text(tsync_attr_spec(o), serde_derive(o))
}

/// The filter steps of every column.
pub open spec fn column_filters_spec(t: ParsedTableMacro, sp: Seq<char>) -> Seq<char> {
    concat_spec(
        t.columns@.map_values(
            |c: ParsedColumnMacro|
                if c.is_nullable {
                    nullable_filter_text(sp, t.name@, c.name@)
                } else {
                    plain_filter_text(sp, t.name@, c.name@)
                },
        ),
    )
}

/// The filter field of a column.
pub open spec fn filter_field_of(c: ParsedColumnMacro) -> Seq<char> {
    let ty = rust_type_spec(base_type_of(c), c.is_array, false);
    if c.is_nullable {
        nullable_filter_field_text(c.name@, ty)
    } else {
        filter_field_text(c.name@, ty)
    }
}

/// The fields of the filter struct.
pub open spec fn filter_fields_spec(t: ParsedTableMacro) -> Seq<char> {
    join_spec(t.columns@.map_values(|c: ParsedColumnMacro| filter_field_of(c)), "\n    "@)
}

/// The `create` function: none for a read-only table; with a `Create*`
/// argument where that struct has fields, else inserting default values.
pub open spec fn create_part(
    t: ParsedTableMacro,
    cfg: GenerationConfig,
    o: OptionsView,
    create_ident: Seq<char>,
    create_fields: bool,
) -> Seq<char> {
    if o.readonly {
        ""@
    } else if create_fields {
        create_with_item_fn_text(t.name@, cfg.options.schema_path@, create_ident, async_kw(o), await_kw(o))
    } else {
        create_default_fn_text(t.name@, cfg.options.schema_path@, async_kw(o), await_kw(o))
    }
}

/// The `read` function; none for a table without a primary key.
pub open spec fn read_part(
    t: ParsedTableMacro,
    cfg: GenerationConfig,
    o: OptionsView,
) -> Seq<char> {
    if t.primary_key_columns@.len() == 0 {
        ""@
    } else {
        read_fn_text(
            t.name@,
            cfg.options.schema_path@,
            key_word(t),
            key_params_spec(t),
            key_filters_spec(t),
            async_kw(o),
            await_kw(o),
        )
    }
}

/// The `paginate` and `filter` functions, where enabled.
pub open spec fn query_part(
    t: ParsedTableMacro,
    cfg: GenerationConfig,
    o: OptionsView,
) -> Seq<char> {
    if cfg.options.advanced_queries {
        paginate_fn_text(t.struct_name@, async_kw(o), await_kw(o)) + filter_fn_text(
            t.struct_name@,
            cfg.options.schema_path@,
            t.name@,
            cfg.diesel_backend@,
            column_filters_spec(t, cfg.options.schema_path@),
        )
    } else {
        ""@
    }
}

/// The `update` function: only where the `Update*` struct has fields, the
/// table is not read-only and has a primary key.
pub open spec fn update_part(
    t: ParsedTableMacro,
    cfg: GenerationConfig,
    o: OptionsView,
    update_ident: Seq<char>,
    update_fields: bool,
) -> Seq<char> {
    if update_fields && !o.readonly && t.primary_key_columns@.len() > 0 {
        update_fn_text(
            t.name@,
            cfg.options.schema_path@,
            key_word(t),
            key_params_spec(t),
            key_filters_spec(t),
            update_ident,
            async_kw(o),
            await_kw(o),
        )
    } else {
        ""@
    }
}

/// The `delete` function: none for a read-only table or one without a
/// primary key.
pub open spec fn delete_part(
    t: ParsedTableMacro,
    cfg: GenerationConfig,
    o: OptionsView,
) -> Seq<char> {
    if o.readonly || t.primary_key_columns@.len() == 0 {
        ""@
    } else {
        delete_fn_text(
            t.name@,
            cfg.options.schema_path@,
            key_word(t),
            key_params_spec(t),
            key_filters_spec(t),
            async_kw(o),
            await_kw(o),
        )
    }
}

/// The filter struct, where enabled.
pub open spec fn filter_struct_part(t: ParsedTableMacro, cfg: GenerationConfig) -> Seq<char> {
    if cfg.options.advanced_queries {
        filter_struct_text(t.struct_name@, filter_fields_spec(t))
    } else {
        ""@
    }
}

/// The functions of a table, in their `impl` block, after the common
/// structs unless those go to a shared file.
pub open spec fn table_fns_spec(
    t: ParsedTableMacro,
    cfg: GenerationConfig,
    create_ident: Seq<char>,
    create_fields: bool,
    update_ident: Seq<char>,
    update_fields: bool,
) -> Seq<char> {
    let o = cfg.options_for(t.name@)@;
    (if !cfg.options.once_common_structs {
        common_structs_spec(o) + "\n"@
    } else {
        ""@
    }) + "impl "@ + t.struct_name@ + " {"@ + create_part(t, cfg, o, create_ident, create_fields)
        + read_part(t, cfg, o) + query_part(t, cfg, o) + update_part(t, cfg, o, update_ident, update_fields)
        + delete_part(t, cfg, o) + "}\n"@ + filter_struct_part(t, cfg)
}

/// The async and await keywords for a table: `(" async", ".await")` where
/// async is enabled, else empty.
pub fn get_async(table_options: &TableOptions) -> (r: (&'static str, &'static str))
    ensures
        r.0@ == async_kw(table_options@),
        r.1@ == await_kw(table_options@),
{
    if table_options.get_async() {
        (" async", ".await")
    } else {
        proof { reveal_strlit(""); }
        ("", "")
    }
}

/// The structs shared by all tables (the pagination result).
pub fn generate_common_structs(table_options: &TableOptions) -> (r: String)
    ensures
        r@ == common_structs_spec(table_options@),
{
    let tsync = if table_options.get_tsync() {
        "#[tsync::tsync]\n"
    } else {
        ""
    };
    let serde = if table_options.get_serde() {
        "serde::Serialize"
    } else {
        ""
    };
    common_structs(tsync, serde)
}

/// The `ConnectionType` alias.
pub fn generate_connection_type(config: &GenerationConfig) -> (r: String)
    ensures
        r@ == connection_type_alias_text(config.connection_type@),
{
    connection_type_alias(config.connection_type.as_str())
}

/// The index of the first column named `name`.
fn find_column(cols: &Vec<ParsedColumnMacro>, name: &str) -> (r: usize)
    requires
        has_column(cols@, name@),
    ensures
        first_named(cols@, name@, r as int),
{
    let mut i: usize = 0;
    while i < cols.len()
        invariant
            i <= cols@.len(),
            forall|j: int| 0 <= j < i ==> cols@[j].name@ != name@,
            has_column(cols@, name@),
        decreases cols@.len() - i,
    {
        if str_eq(cols[i].name.as_str(), name) {
            return i;
        }
        i = i + 1;
    }
    i
}

proof fn lemma_first_named_unique(cols: Seq<ParsedColumnMacro>, name: Seq<char>, i: int)
    requires
        first_named(cols, name, i),
    ensures
        column_named(cols, name) == cols[i],
{
    let j = choose|j: int| first_named(cols, name, j);
    assert(first_named(cols, name, j));
    if j < i {
        assert(cols[j].name@ != name);
    } else if i < j {
        assert(cols[i].name@ != name);
    }
}

/// The primary key parameters and filters of a table.
fn key_params_and_filters(t: &ParsedTableMacro) -> (r: (String, String))
    requires
        table_wf(*t),
    ensures
        r.0@ == key_params_spec(*t),
        r.1@ == key_filters_spec(*t),
{
    let mut params: Vec<String> = Vec::new();
    let mut filters: Vec<String> = Vec::new();
    let ghost kc = key_columns(*t);
    let mut k: usize = 0;
    while k < t.primary_key_columns.len()
        invariant
            table_wf(*t),
            kc == key_columns(*t),
            k <= t.primary_key_columns@.len(),
            views(params@) == kc.subrange(0, k as int).map_values(
                |c: ParsedColumnMacro| key_param_text(c.name@, c.ty@),
            ),
            views(filters@) == kc.subrange(0, k as int).map_values(
                |c: ParsedColumnMacro| key_filter_text(c.name@),
            ),
        decreases t.primary_key_columns@.len() - k,
    {
        let pk = &t.primary_key_columns[k];
        assert(has_column(t.columns@, t.primary_key_columns@[k as int]@));
        let i = find_column(&t.columns, pk.as_str());
        let c = &t.columns[i];
        proof {
            lemma_first_named_unique(t.columns@, pk@, i as int);
            assert(kc[k as int] == column_named(t.columns@, pk@));
        }
        let ghost p0 = params@;
        let ghost f0 = filters@;
        params.push(key_param(c.name.as_str(), c.ty.as_str()));
        filters.push(key_filter(c.name.as_str()));
        assert(views(params@) =~= views(p0).push(key_param_text(c.name@, c.ty@)));
        assert(views(filters@) =~= views(f0).push(key_filter_text(c.name@)));
        assert(kc.subrange(0, k + 1).map_values(|c: ParsedColumnMacro| key_param_text(c.name@, c.ty@))
            =~= kc.subrange(0, k as int).map_values(|c: ParsedColumnMacro| key_param_text(c.name@, c.ty@)).push(key_param_text(c.name@, c.ty@)));
        assert(kc.subrange(0, k + 1).map_values(|c: ParsedColumnMacro| key_filter_text(c.name@))
            =~= kc.subrange(0, k as int).map_values(|c: ParsedColumnMacro| key_filter_text(c.name@)).push(key_filter_text(c.name@)));
        k = k + 1;
    }
    assert(kc.subrange(0, kc.len() as int) =~= kc);
    (join(&params, ", "), join(&filters, "."))
}

/// The filter steps of every column.
fn column_filters(t: &ParsedTableMacro, sp: &str) -> (r: String)
    ensures
        r@ == column_filters_spec(*t, sp@),
{
    let mut parts: Vec<String> = Vec::new();
    let mut i: usize = 0;
    let ghost f = |c: ParsedColumnMacro|
        if c.is_nullable {
            nullable_filter_text(sp@, t.name@, c.name@)
        } else {
            plain_filter_text(sp@, t.name@, c.name@)
        };
    while i < t.columns.len()
        invariant
            i <= t.columns@.len(),
            f == (|c: ParsedColumnMacro|
                if c.is_nullable {
                    nullable_filter_text(sp@, t.name@, c.name@)
                } else {
                    plain_filter_text(sp@, t.name@, c.name@)
                }),
            views(parts@) == t.columns@.subrange(0, i as int).map_values(f),
        decreases t.columns@.len() - i,
    {
        let c = &t.columns[i];
        let step = if c.is_nullable {
            nullable_filter(sp, t.name.as_str(), c.name.as_str())
        } else {
            plain_filter(sp, t.name.as_str(), c.name.as_str())
        };
        let ghost p0 = parts@;
        parts.push(step);
        assert(views(parts@) =~= views(p0).push(f(t.columns@[i as int])));
        assert(t.columns@.subrange(0, i + 1).map_values(f) =~= t.columns@.subrange(0, i as int).map_values(f).push(f(t.columns@[i as int])));
        i = i + 1;
    }
    assert(t.columns@.subrange(0, t.columns@.len() as int) =~= t.columns@);
    concat(&parts)
}

/// The fields of the filter struct.
fn filter_fields(t: &ParsedTableMacro) -> (r: String)
    ensures
        r@ == filter_fields_spec(*t),
{
    let mut parts: Vec<String> = Vec::new();
    let mut i: usize = 0;
    let ghost f = |c: ParsedColumnMacro| filter_field_of(c);
    while i < t.columns.len()
        invariant
            i <= t.columns@.len(),
            f == (|c: ParsedColumnMacro| filter_field_of(c)),
            views(parts@) == t.columns@.subrange(0, i as int).map_values(f),
        decreases t.columns@.len() - i,
    {
        let sf = StructField::from_column(&t.columns[i]);
        let ty = rust_type_of(sf.base_type.as_str(), sf.is_vec, false);
        let field = if sf.is_optional {
            nullable_filter_field(sf.name.as_str(), ty.as_str())
        } else {
            filter_field(sf.name.as_str(), ty.as_str())
        };
        let ghost p0 = parts@;
        parts.push(field);
        assert(views(parts@) =~= views(p0).push(f(t.columns@[i as int])));
        assert(t.columns@.subrange(0, i + 1).map_values(f) =~= t.columns@.subrange(0, i as int).map_values(
            f,
        ).push(f(t.columns@[i as int])));
        i = i + 1;
    }
    assert(t.columns@.subrange(0, t.columns@.len() as int) =~= t.columns@);
    join(&parts, "\n    ")
}

/// All functions of a table (the inside of `impl StructName { .. }`, with
/// the block itself and what goes around it).
pub fn build_table_fns(
    table: &ParsedTableMacro,
    config: &GenerationConfig,
    create_struct: &Struct,
    update_struct: &Struct,
) -> (r: String)
    requires
        table_wf(*table),
    ensures
        r@ == table_fns_spec(
            *table,
            *config,
            create_struct.identifier@,
            create_struct.fields_present,
            update_struct.identifier@,
            update_struct.fields_present,
        ),
{
    let opts = config.table(table.name.as_str());
    proof {
        lemma_same_resolved(opts, config.options_for(table.name@));
    }
    let ghost o = opts@;
    let (params, filters) = key_params_and_filters(table);
    let (kw, aw) = get_async(&opts);
    let tn = table.name.as_str();
    let sp = config.options.schema_path.as_str();
    let is_readonly = opts.get_readonly();
    let key: &str = if table.primary_key_columns.len() <= 1 {
        "key"
    } else {
        "keys"
    };

    let mut buffer = if !config.options.once_common_structs {
        let mut c = generate_common_structs(&opts);
        c.append("\n");
        c
    } else {
        proof { reveal_strlit(""); }
        String::new()
    };
    buffer.append("impl ");
    buffer.append(table.struct_name.as_str());
    buffer.append(" {");

    let create = if is_readonly {
        String::from_str("")
    } else if create_struct.has_fields() {
        create_with_item_fn(tn, sp, create_struct.identifier.as_str(), kw, aw)
    } else {
        create_default_fn(tn, sp, kw, aw)
    };
    buffer.append(create.as_str());

    let has_key = table.primary_key_columns.len() > 0;
    let read = if has_key {
        read_fn(tn, sp, key, params.as_str(), filters.as_str(), kw, aw)
    } else {
        String::from_str("")
    };
    buffer.append(read.as_str());

    let queries = if config.options.advanced_queries {
        let mut q = paginate_fn(table.struct_name.as_str(), kw, aw);
        let steps = column_filters(table, sp);
        let f = filter_fn(table.struct_name.as_str(), sp, tn, config.diesel_backend.as_str(), steps.as_str());
        q.append(f.as_str());
        q
    } else {
        String::from_str("")
    };
    buffer.append(queries.as_str());

    let update = if update_struct.has_fields() && !is_readonly && has_key {
        update_fn(tn, sp, key, params.as_str(), filters.as_str(), update_struct.identifier.as_str(), kw, aw)
    } else {
        String::from_str("")
    };
    buffer.append(update.as_str());

    let delete = if is_readonly || !has_key {
        String::from_str("")
    } else {
        delete_fn(tn, sp, key, params.as_str(), filters.as_str(), kw, aw)
    };
    buffer.append(delete.as_str());
    buffer.append("}\n");

    let fs = if config.options.advanced_queries {
        let fields = filter_fields(table);
        filter_struct(table.struct_name.as_str(), fields.as_str())
    } else {
        String::from_str("")
    };
    buffer.append(fs.as_str());
    buffer
}

/// The name of the module that holds the generated code of a table.
pub fn get_table_module_name(table_name: &str) -> (r: String)
    ensures
        r@ == snake_of(table_name@),
{
    to_snake_case(table_name)
}

/// The imports of a table's file, one entry per line.
pub open spec fn imports_list(t: ParsedTableMacro, cfg: GenerationConfig) -> Seq<Seq<char>> {
    let o = cfg.options_for(t.name@)@;
    let mp = cfg.options.model_path@;
    seq!["#[allow(unused)]\nuse crate::diesel::*;"@] + t.foreign_keys@.map_values(
        |fk: (String, String)| model_import_text(mp, snake_of(fk.0@), pascal_of(fk.0@)),
    ) + (if o.use_async {
        seq!["use diesel_async::RunQueryDsl;"@]
    } else {
        Seq::empty()
    }) + seq!["use "@ + cfg.options.schema_path@ + "*;"@] + (if cfg.options.once_common_structs
        || cfg.options.once_connection_type {
        seq!["use "@ + mp + "common::*;"@]
    } else {
        Seq::empty()
    }) + (if o.fns && !cfg.options.once_connection_type {
        seq![""@, connection_type_alias_text(cfg.connection_type@)]
    } else {
        Seq::empty()
    })
}

/// The imports of a table's file.
pub open spec fn imports_spec(t: ParsedTableMacro, cfg: GenerationConfig) -> Seq<char> {
    join_spec(imports_list(t, cfg), "\n"@)
}

fn push_text(v: &mut Vec<String>, s: String)
    ensures
        views(final(v)@) == views(old(v)@).push(s@),
{
    let ghost t = s@;
    v.push(s);
    assert(views(final(v)@) =~= views(old(v)@).push(t));
}

/// All imports that the file of a table needs.
pub fn build_imports(table: &ParsedTableMacro, config: &GenerationConfig) -> (r: String)
    ensures
        r@ == imports_spec(*table, *config),
{
    let opts = config.table(table.name.as_str());
    proof {
        lemma_same_resolved(opts, config.options_for(table.name@));
    }
    let mp = config.options.model_path.as_str();
    let ghost f = |fk: (String, String)| model_import_text(mp@, snake_of(fk.0@), pascal_of(fk.0@));
    let mut v: Vec<String> = Vec::new();
    push_text(&mut v, String::from_str("#[allow(unused)]\nuse crate::diesel::*;"));
    let ghost head = views(v@);
    let mut i: usize = 0;
    while i < table.foreign_keys.len()
        invariant
            i <= table.foreign_keys@.len(),
            f == (|fk: (String, String)| model_import_text(mp@, snake_of(fk.0@), pascal_of(fk.0@))),
            views(v@) == head + table.foreign_keys@.subrange(0, i as int).map_values(f),
        decreases table.foreign_keys@.len() - i,
    {
        let fk = &table.foreign_keys[i];
        let module = get_table_module_name(fk.0.as_str());
        let sn = to_pascal_case(fk.0.as_str());
        push_text(&mut v, model_import(mp, module.as_str(), sn.as_str()));
        assert(table.foreign_keys@.subrange(0, i + 1).map_values(f) =~= table.foreign_keys@.subrange(0, i as int).map_values(f).push(f(table.foreign_keys@[i as int])));
        i = i + 1;
    }
    assert(table.foreign_keys@.subrange(0, table.foreign_keys@.len() as int) =~= table.foreign_keys@);
    let ghost with_fks = views(v@);
    if opts.get_async() {
        push_text(&mut v, String::from_str("use diesel_async::RunQueryDsl;"));
    }
    let ghost with_async = views(v@);
    let mut schema = String::from_str("use ");
    schema.append(config.options.schema_path.as_str());
    schema.append("*;");
    push_text(&mut v, schema);
    let ghost with_schema = views(v@);
    if config.any_once_option() {
        let mut common = String::from_str("use ");
        common.append(mp);
        common.append("common::*;");
        push_text(&mut v, common);
    }
    let ghost with_common = views(v@);
    if opts.get_fns() && !config.options.once_connection_type {
        push_text(&mut v, String::from_str(""));
        push_text(&mut v, generate_connection_type(config));
    }
    assert(views(v@) =~= imports_list(*table, *config));
    join(&v, "\n")
}

/// The default value written for a field of type `t`.
pub open spec fn default_for_type_spec(t: Seq<char>) -> Seq<char> {
    if is_integer_type(t) {
        "0"@
    } else if t == "f32"@ || t == "f64"@ {
        "0.0"@
    } else if t == "bool"@ {
        "false"@
    } else if t == "String"@ {
        "String::new()"@
    } else if t == "&str"@ || t == "&'static str"@ {
        "\"\""@
    } else if t == "&'a str"@ {
        "\"\""@
    } else if t == "Cow<str>"@ || t == "Cow<'a, str>"@ {
        "Cow::Owned(String::new())"@
    } else if has_prefix(t, "Option<"@) {
        "None"@
    } else {
        "Default::default()"@
    }
}

/// The default value written for a field of type `typ`.
pub fn default_for_type(typ: &str) -> (r: &'static str)
    ensures
        r@ == default_for_type_spec(typ@),
{
    if is_integer_name(typ) {
        "0"
    } else if str_eq(typ, "f32") || str_eq(typ, "f64") {
        "0.0"
    } else if str_eq(typ, "bool") {
        "false"
    } else if str_eq(typ, "String") {
        "String::new()"
    } else if str_eq(typ, "&str") || str_eq(typ, "&'static str") {
        "\"\""
    } else if str_eq(typ, "&'a str") {
        "\"\""
    } else if str_eq(typ, "Cow<str>") || str_eq(typ, "Cow<'a, str>") {
        "Cow::Owned(String::new())"
    } else if starts_with(typ, "Option<") {
        "None"
    } else {
        "Default::default()"
    }
}

/// The default value of the field for column `c` in a struct of type `ty`:
/// the default of the field's own type, as the struct declares it (after the
/// unsigned, array, nullable and string or bytes representation rules). This
/// is deliberate: a non-nullable array column of `i32` is a `Vec<Option<i32>>`
/// field and gets `Default::default()`, not the `0` of its element type, and
/// a `&'a str` field gets `""`, so that the block is well typed.
pub open spec fn field_default(c: ParsedColumnMacro, ty: StructType, o: OptionsView) -> Seq<char> {
    default_for_type_spec(field_type(c, ty, o))
}

/// The `impl Default` block of the struct of type `ty` of a table: one
/// line per field of that struct.
pub open spec fn default_impl_spec(
    struct_name: Seq<char>,
    ty: StructType,
    t: ParsedTableMacro,
    o: OptionsView,
) -> Seq<char> {
    default_impl_text(
        struct_name,
        join_spec(
            struct_columns(t, ty, o).map_values(
                |c: ParsedColumnMacro| default_field_text(c.name@, field_default(c, ty, o)),
            ),
            ",\n"@,
        ),
    )
}

/// The `impl Default` block of the struct of type `ty` of a table, named
/// `struct_name`.
pub fn build_default_impl_fn(
    struct_name: &str,
    ty: StructType,
    table: &ParsedTableMacro,
    opts: &TableOptions,
) -> (r: String)
    ensures
        r@ == default_impl_spec(struct_name@, ty, *table, opts@),
{
    let fs = fields(ty, table, opts);
    let ghost cs = struct_columns(*table, ty, opts@);
    let ghost f = |c: ParsedColumnMacro| default_field_text(c.name@, field_default(c, ty, opts@));
    let mut v: Vec<String> = Vec::new();
    let mut i: usize = 0;
    while i < fs.len()
        invariant
            i <= fs@.len(),
            cs == struct_columns(*table, ty, opts@),
            fields_of(fs@, cs),
            f == (|c: ParsedColumnMacro| default_field_text(c.name@, field_default(c, ty, opts@))),
            views(v@) == cs.subrange(0, i as int).map_values(f),
        decreases fs@.len() - i,
    {
        assert(field_of(fs@[i as int], cs[i as int]));
        let ft = field_type_of(&fs[i], ty, opts);
        let value = default_for_type(ft.as_str());
        push_text(&mut v, default_field(fs[i].name.as_str(), value));
        assert(cs.subrange(0, i + 1).map_values(f) =~= cs.subrange(0, i as int).map_values(f).push(
            f(cs[i as int]),
        ));
        i = i + 1;
    }
    assert(cs.subrange(0, cs.len() as int) =~= cs);
    let body = join(&v, ",\n");
    default_impl(struct_name, body.as_str())
}

pub open spec fn or_empty(s: Option<Seq<char>>) -> Seq<char> {
    match s {
        Some(x) => x,
        None => Seq::empty(),
    }
}

/// The whole generated file of a table.
pub open spec fn file_spec(t: ParsedTableMacro, cfg: GenerationConfig) -> Seq<char> {
    let o = cfg.options_for(t.name@)@;
    let create = struct_code(StructType::Create, t, cfg);
    let update = struct_code(StructType::Update, t, cfg);
    let sn = t.struct_name@;
    FILE_SIGNATURE@ + "\n\n"@ + imports_spec(t, cfg) + "\n\n"@
        + or_empty(struct_code(StructType::Read, t, cfg)) + (if create is Some {
        "\n"@ + or_empty(create) + (if cfg.options.default_impl {
            "\n"@ + default_impl_spec(StructType::Create.format_spec(sn), StructType::Create, t, o)
        } else {
            ""@
        }) + "\n"@
    } else {
        ""@
    }) + (if update is Some {
        "\n"@ + or_empty(update)
    } else {
        ""@
    }) + (if o.fns {
        "\n"@ + table_fns_spec(
            t,
            cfg,
            StructType::Create.format_spec(sn),
            create is Some,
            StructType::Update.format_spec(sn),
            update is Some,
        )
    } else {
        ""@
    }) + (if cfg.options.default_impl {
        "\n"@ + default_impl_spec(sn, StructType::Read, t, o) + "\n"@
    } else {
        ""@
    })
}

/// The whole generated file of a table: signature, imports, the `Read`,
/// `Create*` and `Update*` structs that exist, the functions where enabled,
/// and the `Default` impls where enabled.
pub fn generate_for_table(table: &ParsedTableMacro, config: &GenerationConfig) -> (r: String)
    requires
        table_wf(*table),
    ensures
        r@ == file_spec(*table, *config),
{
    let opts = config.table(table.name.as_str());
    proof {
        lemma_same_resolved(opts, config.options_for(table.name@));
    }
    let mut ret = String::from_str(FILE_SIGNATURE);
    ret.append("\n\n");
    let imports = build_imports(table, config);
    ret.append(imports.as_str());
    ret.append("\n\n");
    let read_struct = Struct::new(StructType::Read, table, config);
    ret.append(read_struct.code());

    let create_struct = Struct::new(StructType::Create, table, config);
    let create_section = if create_struct.has_code() {
        let mut c = String::from_str("\n");
        c.append(create_struct.code());
        let default_section = if config.options.default_impl {
            let mut d = String::from_str("\n");
            let name = StructType::Create.format(table.struct_name.as_str());
            let body = build_default_impl_fn(name.as_str(), StructType::Create, table, &opts);
            d.append(body.as_str());
            d
        } else {
            String::from_str("")
        };
        c.append(default_section.as_str());
        c.append("\n");
        c
    } else {
        String::from_str("")
    };
    ret.append(create_section.as_str());

    let update_struct = Struct::new(StructType::Update, table, config);
    let update_section = if update_struct.has_code() {
        let mut u = String::from_str("\n");
        u.append(update_struct.code());
        u
    } else {
        String::from_str("")
    };
    ret.append(update_section.as_str());

    let fns_section = if opts.get_fns() {
        let mut f = String::from_str("\n");
        let fns = build_table_fns(table, config, &create_struct, &update_struct);
        f.append(fns.as_str());
        f
    } else {
        String::from_str("")
    };
    ret.append(fns_section.as_str());

    let default_section = if config.options.default_impl {
        let mut d = String::from_str("\n");
        let body = build_default_impl_fn(table.struct_name.as_str(), StructType::Read, table, &opts);
        d.append(body.as_str());
        d.append("\n");
        d
    } else {
        String::from_str("")
    };
    ret.append(default_section.as_str());
    ret
}

} // verus!

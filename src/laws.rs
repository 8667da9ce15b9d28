//! Properties that hold of every table and every configuration, proved over
//! the spec functions that the generator's contracts use.
use vstd::prelude::*;
use crate::code::{
    async_kw, await_kw, create_part, delete_part, first_named, has_column, key_columns, key_filters_spec,
    file_spec, key_params_spec, key_word, or_empty, query_part, read_part, table_fns_spec, table_wf,
    update_part,
};
use crate::files::{changed_count, files_spec, status_spec, FileChangeStatus};
use crate::model::{is_integer_type, unsigned_of, ParsedColumnMacro, ParsedTableMacro, StructType};
use crate::options::{BytesType, GenerationConfig, OptionsView, StringType};
use crate::structs::{
    field_decl_line, field_lines, field_type, keeps, lemma_field_lines_len, selected, struct_code,
    struct_columns, struct_doc, struct_head, struct_text,
};
use crate::templates::{
    delete_fn_text, key_filter_text, key_param_text, paginate_fn_text, read_fn_text, update_fn_text,
};
use crate::text::{
    lemma_occurs_self, has_prefix, join_spec, lemma_occurs_between, lemma_occurs_in_join, lemma_occurs_trans, lemma_occurs_left, lemma_occurs_right, occurs_in,
    seq_has,
};

verus! {

proof fn lemma_selected_members(
    cols: Seq<ParsedColumnMacro>,
    ty: StructType,
    pks: Seq<Seq<char>>,
    autogen: Seq<Seq<char>>,
)
    ensures
        forall|c: ParsedColumnMacro|
            #[trigger] selected(cols, ty, pks, autogen).contains(c) <==> (cols.contains(c) && keeps(
                c,
                ty,
                pks,
                autogen,
            )),
    decreases cols.len(),
{
    if cols.len() > 0 {
        let init = cols.drop_last();
        lemma_selected_members(init, ty, pks, autogen);
        assert(cols =~= init.push(cols.last()));
        assert forall|c: ParsedColumnMacro|
            #[trigger] selected(cols, ty, pks, autogen).contains(c) <==> (cols.contains(c) && keeps(
                c,
                ty,
                pks,
                autogen,
            )) by {
            let rest = selected(init, ty, pks, autogen);
            if cols.contains(c) && keeps(c, ty, pks, autogen) {
                let i = choose|i: int| 0 <= i < cols.len() && cols[i] == c;
                if i < cols.len() - 1 {
                    assert(init[i] == c);
                    assert(rest.contains(c));
                    let k = choose|k: int| 0 <= k < rest.len() && rest[k] == c;
                    if keeps(cols.last(), ty, pks, autogen) {
                        assert(rest.push(cols.last())[k] == c);
                    }
                } else {
                    assert(rest.push(cols.last())[rest.len() as int] == c);
                }
            }
            if selected(cols, ty, pks, autogen).contains(c) {
                let k = choose|k: int|
                    0 <= k < selected(cols, ty, pks, autogen).len() && selected(
                        cols,
                        ty,
                        pks,
                        autogen,
                    )[k] == c;
                if k < rest.len() {
                    assert(rest[k] == c);
                    assert(rest.contains(c));
                    let i = choose|i: int| 0 <= i < init.len() && init[i] == c;
                    assert(cols[i] == c);
                } else {
                    assert(c == cols.last());
                    assert(cols[cols.len() - 1] == c);
                }
            }
        }
    }
}

/// The `Create*` struct of a table holds exactly the table's columns that
/// are not autogenerated, and no other.
pub proof fn lemma_create_fields_exclude_autogenerated(t: ParsedTableMacro, o: OptionsView)
    ensures
        forall|c: ParsedColumnMacro|
            #[trigger] struct_columns(t, StructType::Create, o).contains(c) <==> (t.columns@.contains(c)
                && !seq_has(o.autogen, c.name@)),
{
    lemma_selected_members(t.columns@, StructType::Create, t.pk_names(), o.autogen);
}

/// The `Update*` struct of a table holds exactly the table's columns that
/// are not in its primary key.
pub proof fn lemma_update_fields_exclude_keys(t: ParsedTableMacro, o: OptionsView)
    ensures
        forall|c: ParsedColumnMacro|
            #[trigger] struct_columns(t, StructType::Update, o).contains(c) <==> (t.columns@.contains(c)
                && !seq_has(t.pk_names(), c.name@)),
{
    lemma_selected_members(t.columns@, StructType::Update, t.pk_names(), o.autogen);
}

/// Where `Update*` structs keep owned strings and bytes, the type of each
/// of their fields is the type of the same field in the `Read` struct
/// wrapped in exactly one more `Option`, nullable columns included.
pub proof fn lemma_update_type_wraps_read_type(c: ParsedColumnMacro, o: OptionsView)
    requires
        o.update_str == StringType::String,
        o.update_bytes == BytesType::Vec,
    ensures
        field_type(c, StructType::Update, o) == "Option<"@ + field_type(c, StructType::Read, o) + ">"@,
{
    reveal_strlit("String");
    reveal_strlit("Vec<u8>");
}

proof fn lemma_all_unchanged_count(s: Seq<FileChangeStatus>)
    requires
        forall|i: int| 0 <= i < s.len() ==> s[i] == FileChangeStatus::Unchanged,
    ensures
        changed_count(s) == 0,
    decreases s.len(),
{
    if s.len() > 0 {
        lemma_all_unchanged_count(s.drop_last());
    }
}

/// Generating twice from the same tables and configuration gives the same
/// files, so a second run over the files of the first finds every file
/// `Unchanged` and counts no change.
pub proof fn lemma_second_run_unchanged(ts: Seq<ParsedTableMacro>, cfg: GenerationConfig)
    ensures
        forall|i: int|
            0 <= i < files_spec(ts, cfg).len() ==> status_spec(
                Some(#[trigger] files_spec(ts, cfg)[i].1),
                files_spec(ts, cfg)[i].1,
            ) == FileChangeStatus::Unchanged,
        changed_count(
            files_spec(ts, cfg).map_values(
                |f: (Seq<char>, Seq<char>)| status_spec(Some(f.1), f.1),
            ),
        ) == 0,
{
    let s = files_spec(ts, cfg).map_values(|f: (Seq<char>, Seq<char>)| status_spec(Some(f.1), f.1));
    lemma_all_unchanged_count(s);
}

proof fn lemma_read_selects_all(
    cols: Seq<ParsedColumnMacro>,
    pks: Seq<Seq<char>>,
    autogen: Seq<Seq<char>>,
)
    ensures
        selected(cols, StructType::Read, pks, autogen) == cols,
    decreases cols.len(),
{
    if cols.len() > 0 {
        lemma_read_selects_all(cols.drop_last(), pks, autogen);
        assert(cols.drop_last().push(cols.last()) =~= cols);
    }
}

/// A table whose name matches a read-only prefix or suffix gets no
/// `Create*` or `Update*` struct and no `create`, `update` or `delete`
/// function, but a `Read` struct (where it has a column), the `read`
/// function (where it has a primary key), and `paginate` where the advanced
/// queries are enabled.
pub proof fn lemma_readonly_table(
    t: ParsedTableMacro,
    cfg: GenerationConfig,
    create_ident: Seq<char>,
    create_fields: bool,
    update_ident: Seq<char>,
    update_fields: bool,
)
    requires
        cfg.readonly_name(t.name@),
    ensures
        struct_code(StructType::Create, t, cfg) is None,
        struct_code(StructType::Update, t, cfg) is None,
        t.columns@.len() > 0 ==> struct_code(StructType::Read, t, cfg) is Some,
        create_part(t, cfg, cfg.options_for(t.name@)@, create_ident, create_fields) == ""@,
        update_part(t, cfg, cfg.options_for(t.name@)@, update_ident, update_fields) == ""@,
        delete_part(t, cfg, cfg.options_for(t.name@)@) == ""@,
        t.primary_key_columns@.len() > 0 ==> read_part(t, cfg, cfg.options_for(t.name@)@).len() > 0,
        cfg.options.advanced_queries ==> has_prefix(
            query_part(t, cfg, cfg.options_for(t.name@)@),
            paginate_fn_text(
                t.struct_name@,
                async_kw(cfg.options_for(t.name@)@),
                await_kw(cfg.options_for(t.name@)@),
            ),
        ),
{
    let o = cfg.options_for(t.name@)@;
    assert(o.readonly);
    lemma_read_selects_all(t.columns@, t.pk_names(), o.autogen);
    reveal_strlit("\n    /// Get a row from `");
    let p = paginate_fn_text(t.struct_name@, async_kw(o), await_kw(o));
    if cfg.options.advanced_queries {
        let q = query_part(t, cfg, o);
        assert(q.subrange(0, p.len() as int) =~= p);
    }
}

proof fn lemma_first_exists(cols: Seq<ParsedColumnMacro>, name: Seq<char>, i: int)
    requires
        0 <= i < cols.len(),
        cols[i].name@ == name,
    ensures
        exists|j: int| first_named(cols, name, j),
    decreases i,
{
    if exists|j: int| 0 <= j < i && cols[j].name@ == name {
        let j = choose|j: int| 0 <= j < i && cols[j].name@ == name;
        lemma_first_exists(cols, name, j);
    } else {
        assert(first_named(cols, name, i));
    }
}

proof fn lemma_key_column_named(t: ParsedTableMacro, k: int)
    requires
        table_wf(t),
        0 <= k < t.primary_key_columns@.len(),
    ensures
        key_columns(t)[k].name@ == t.primary_key_columns@[k]@,
{
    let name = t.primary_key_columns@[k]@;
    assert(has_column(t.columns@, name));
    let i = choose|i: int| 0 <= i < t.columns@.len() && #[trigger] t.columns@[i].name@ == name;
    lemma_first_exists(t.columns@, name, i);
}

/// With a primary key of two columns, the `read`, `update` and `delete`
/// functions take a parameter for each key column, select the row with one
/// equality filter per key column chained (both must hold), and their
/// documentation says "keys".
pub proof fn lemma_two_column_key(t: ParsedTableMacro, cfg: GenerationConfig)
    requires
        table_wf(t),
        t.primary_key_columns@.len() == 2,
    ensures
        key_word(t) == "keys"@,
        key_columns(t)[0].name@ == t.primary_key_columns@[0]@,
        key_columns(t)[1].name@ == t.primary_key_columns@[1]@,
        key_params_spec(t) == key_param_text(key_columns(t)[0].name@, key_columns(t)[0].ty@) + ", "@
            + key_param_text(key_columns(t)[1].name@, key_columns(t)[1].ty@),
        key_filters_spec(t) == key_filter_text(key_columns(t)[0].name@) + "."@ + key_filter_text(
            key_columns(t)[1].name@,
        ),
        read_part(t, cfg, cfg.options_for(t.name@)@) == read_fn_text(
            t.name@,
            cfg.options.schema_path@,
            "keys"@,
            key_params_spec(t),
            key_filters_spec(t),
            async_kw(cfg.options_for(t.name@)@),
            await_kw(cfg.options_for(t.name@)@),
        ),
{
    lemma_key_column_named(t, 0);
    lemma_key_column_named(t, 1);
    let kc = key_columns(t);
    let ps = kc.map_values(|c: ParsedColumnMacro| key_param_text(c.name@, c.ty@));
    let fs = kc.map_values(|c: ParsedColumnMacro| key_filter_text(c.name@));
    assert(ps.drop_last().drop_last().len() == 0);
    assert(ps.drop_last().len() == 1);
    assert(fs.drop_last().len() == 1);
    assert(ps.drop_last()[0] == ps[0]);
    assert(fs.drop_last()[0] == fs[0]);
    assert(join_spec(ps.drop_last(), ", "@) == ps[0]);
    assert(join_spec(fs.drop_last(), "."@) == fs[0]);
    assert(join_spec(ps, ", "@) == join_spec(ps.drop_last(), ", "@) + ", "@ + ps.last());
    assert(join_spec(fs, "."@) == join_spec(fs.drop_last(), "."@) + "."@ + fs.last());
    assert(ps[0] == key_param_text(kc[0].name@, kc[0].ty@));
    assert(ps.last() == key_param_text(kc[1].name@, kc[1].ty@));
    assert(fs[0] == key_filter_text(kc[0].name@));
    assert(fs.last() == key_filter_text(kc[1].name@));
}


/// The text of a struct declares each of its fields, as
/// `    pub name: Type,`.
pub proof fn lemma_struct_declares_fields(ty: StructType, t: ParsedTableMacro, o: OptionsView, i: int)
    requires
        0 <= i < struct_columns(t, ty, o).len(),
    ensures
        occurs_in(struct_text(ty, t, o), field_decl_line(struct_columns(t, ty, o)[i], ty, o)),
        field_decl_line(struct_columns(t, ty, o)[i], ty, o) == "    pub "@ + struct_columns(t, ty, o)[i].name@
            + ": "@ + field_type(struct_columns(t, ty, o)[i], ty, o) + ","@,
{
    let cs = struct_columns(t, ty, o);
    let lines = field_lines(cs, ty, o);
    let line = field_decl_line(cs[i], ty, o);
    lemma_field_lines_len(cs, ty, o);
    assert(lines[2 * i + 1] == line);
    lemma_occurs_in_join(lines, "\n"@, 2 * i + 1);
    lemma_occurs_right(struct_head(ty, t, o), join_spec(lines, "\n"@), line);
    lemma_occurs_left(struct_head(ty, t, o) + join_spec(lines, "\n"@), "\n}\n"@, line);
}

/// Under the resolved options of a table that is not read-only, the
/// `Create*` struct is generated exactly where some column is not
/// autogenerated, and its text declares each such column, and only those
/// are its fields.
pub proof fn lemma_create_struct_text(t: ParsedTableMacro, cfg: GenerationConfig, i: int)
    requires
        !cfg.options_for(t.name@)@.readonly,
        0 <= i < struct_columns(t, StructType::Create, cfg.options_for(t.name@)@).len(),
    ensures
        struct_code(StructType::Create, t, cfg) is Some,
        occurs_in(
            struct_code(StructType::Create, t, cfg)->Some_0,
            "    pub "@ + struct_columns(t, StructType::Create, cfg.options_for(t.name@)@)[i].name@ + ": "@
                + field_type(
                struct_columns(t, StructType::Create, cfg.options_for(t.name@)@)[i],
                StructType::Create,
                cfg.options_for(t.name@)@,
            ) + ","@,
        ),
        !seq_has(cfg.options_for(t.name@)@.autogen, struct_columns(t, StructType::Create, cfg.options_for(t.name@)@)[i].name@),
{
    let o = cfg.options_for(t.name@)@;
    lemma_struct_declares_fields(StructType::Create, t, o, i);
    lemma_create_fields_exclude_autogenerated(t, o);
    assert(struct_columns(t, StructType::Create, o).contains(struct_columns(t, StructType::Create, o)[i]));
}

/// Where `Update*` structs keep owned strings and bytes, the text of the
/// `Update*` struct of a table that is not read-only declares each of its
/// fields as `Option<R>`, where the `Read` struct's text declares the same
/// field with type `R`.
pub proof fn lemma_update_struct_text(t: ParsedTableMacro, cfg: GenerationConfig, i: int)
    requires
        !cfg.options_for(t.name@)@.readonly,
        cfg.options_for(t.name@)@.update_str == StringType::String,
        cfg.options_for(t.name@)@.update_bytes == BytesType::Vec,
        0 <= i < struct_columns(t, StructType::Update, cfg.options_for(t.name@)@).len(),
    ensures
        struct_code(StructType::Update, t, cfg) is Some,
        struct_code(StructType::Read, t, cfg) is Some,
        occurs_in(
            struct_code(StructType::Update, t, cfg)->Some_0,
            "    pub "@ + struct_columns(t, StructType::Update, cfg.options_for(t.name@)@)[i].name@ + ": "@
                + "Option<"@ + field_type(
                struct_columns(t, StructType::Update, cfg.options_for(t.name@)@)[i],
                StructType::Read,
                cfg.options_for(t.name@)@,
            ) + ">"@ + ","@,
        ),
        occurs_in(
            struct_code(StructType::Read, t, cfg)->Some_0,
            "    pub "@ + struct_columns(t, StructType::Update, cfg.options_for(t.name@)@)[i].name@ + ": "@
                + field_type(
                struct_columns(t, StructType::Update, cfg.options_for(t.name@)@)[i],
                StructType::Read,
                cfg.options_for(t.name@)@,
            ) + ","@,
        ),
{
    let o = cfg.options_for(t.name@)@;
    let c = struct_columns(t, StructType::Update, o)[i];
    lemma_struct_declares_fields(StructType::Update, t, o, i);
    lemma_update_type_wraps_read_type(c, o);
    assert("    pub "@ + c.name@ + ": "@ + ("Option<"@ + field_type(c, StructType::Read, o) + ">"@) + ","@
        =~= "    pub "@ + c.name@ + ": "@ + "Option<"@ + field_type(c, StructType::Read, o) + ">"@ + ","@);
    lemma_update_fields_exclude_keys(t, o);
    assert(struct_columns(t, StructType::Update, o).contains(c));
    assert(t.columns@.contains(c));
    let j = choose|j: int| 0 <= j < t.columns@.len() && t.columns@[j] == c;
    lemma_read_selects_all(t.columns@, t.pk_names(), o.autogen);
    lemma_struct_declares_fields(StructType::Read, t, o, j);
}


proof fn lemma_read_pieces(tn: Seq<char>, sp: Seq<char>, key: Seq<char>, params: Seq<char>, filters: Seq<char>, kw: Seq<char>, aw: Seq<char>)
    ensures
        occurs_in(read_fn_text(tn, sp, key, params, filters, kw, aw), " fn read(db: &mut ConnectionType, "@ + params + ") -> diesel::QueryResult<Self> {\n        use "@),
        occurs_in(read_fn_text(tn, sp, key, params, filters, kw, aw), tn + "."@ + filters + ".first::<Self>(db)"@),
        occurs_in(read_fn_text(tn, sp, key, params, filters, kw, aw), "`, identified by the primary "@ + key + "\n    pub"@),
{
    let rp = read_fn_text(tn, sp, key, params, filters, kw, aw);
    let pre = "\n    /// Get a row from `"@ + tn + "`, identified by the primary "@ + key + "\n    pub"@ + kw;
    let sig = " fn read(db: &mut ConnectionType, "@ + params + ") -> diesel::QueryResult<Self> {\n        use "@;
    let mid = sp + tn + "::dsl::*;\n\n        "@;
    let sel = tn + "."@ + filters + ".first::<Self>(db)"@;
    let end = aw + "\n    }\n"@;
    assert(rp =~= pre + sig + (mid + sel + end));
    lemma_occurs_between(pre, sig, mid + sel + end);
    assert(rp =~= (pre + sig + mid) + sel + end);
    lemma_occurs_between(pre + sig + mid, sel, end);
    let doc = "`, identified by the primary "@ + key + "\n    pub"@;
    let after = kw + sig + mid + sel + end;
    assert(rp =~= "\n    /// Get a row from `"@ + tn + doc + after);
    lemma_occurs_between("\n    /// Get a row from `"@ + tn, doc, after);
}

proof fn lemma_update_pieces(tn: Seq<char>, sp: Seq<char>, key: Seq<char>, params: Seq<char>, filters: Seq<char>, ui: Seq<char>, kw: Seq<char>, aw: Seq<char>)
    ensures
        occurs_in(update_fn_text(tn, sp, key, params, filters, ui, kw, aw), " fn update(db: &mut ConnectionType, "@ + params + ", item: &"@),
        occurs_in(update_fn_text(tn, sp, key, params, filters, ui, kw, aw), tn + "::dsl::*;\n\n        diesel::update("@ + tn + "."@ + filters + ").set(item).get_result(db)"@),
        occurs_in(update_fn_text(tn, sp, key, params, filters, ui, kw, aw), "`, identified by the primary "@ + key + " with [`"@),
{
    let up = update_fn_text(tn, sp, key, params, filters, ui, kw, aw);
    let pre = "\n    /// Update a row in `"@ + tn + "`, identified by the primary "@ + key + " with [`"@ + ui + "`]\n    pub"@ + kw;
    let sig = " fn update(db: &mut ConnectionType, "@ + params + ", item: &"@;
    let mid = ui + ") -> diesel::QueryResult<Self> {\n        use "@ + sp;
    let sel = tn + "::dsl::*;\n\n        diesel::update("@ + tn + "."@ + filters + ").set(item).get_result(db)"@;
    let end = aw + "\n    }\n"@;
    assert(up =~= pre + sig + (mid + sel + end));
    lemma_occurs_between(pre, sig, mid + sel + end);
    assert(up =~= (pre + sig + mid) + sel + end);
    lemma_occurs_between(pre + sig + mid, sel, end);
    let doc = "`, identified by the primary "@ + key + " with [`"@;
    let after = ui + "`]\n    pub"@ + kw + sig + mid + sel + end;
    assert(up =~= "\n    /// Update a row in `"@ + tn + doc + after);
    lemma_occurs_between("\n    /// Update a row in `"@ + tn, doc, after);
}

proof fn lemma_delete_pieces(tn: Seq<char>, sp: Seq<char>, key: Seq<char>, params: Seq<char>, filters: Seq<char>, kw: Seq<char>, aw: Seq<char>)
    ensures
        occurs_in(delete_fn_text(tn, sp, key, params, filters, kw, aw), " fn delete(db: &mut ConnectionType, "@ + params + ") -> diesel::QueryResult<usize> {\n        use "@),
        occurs_in(delete_fn_text(tn, sp, key, params, filters, kw, aw), tn + "::dsl::*;\n\n        diesel::delete("@ + tn + "."@ + filters + ").execute(db)"@),
        occurs_in(delete_fn_text(tn, sp, key, params, filters, kw, aw), "`, identified by the primary "@ + key + "\n    pub"@),
{
    let dp = delete_fn_text(tn, sp, key, params, filters, kw, aw);
    let pre = "\n    /// Delete a row in `"@ + tn + "`, identified by the primary "@ + key + "\n    pub"@ + kw;
    let sig = " fn delete(db: &mut ConnectionType, "@ + params + ") -> diesel::QueryResult<usize> {\n        use "@;
    let mid = sp;
    let sel = tn + "::dsl::*;\n\n        diesel::delete("@ + tn + "."@ + filters + ").execute(db)"@;
    let end = aw + "\n    }\n"@;
    assert(dp =~= pre + sig + (mid + sel + end));
    lemma_occurs_between(pre, sig, mid + sel + end);
    assert(dp =~= (pre + sig + mid) + sel + end);
    lemma_occurs_between(pre + sig + mid, sel, end);
    let doc = "`, identified by the primary "@ + key + "\n    pub"@;
    let after = kw + sig + mid + sel + end;
    assert(dp =~= "\n    /// Delete a row in `"@ + tn + doc + after);
    lemma_occurs_between("\n    /// Delete a row in `"@ + tn, doc, after);
}

proof fn lemma_fn_parts(head: Seq<char>, rp: Seq<char>, qp: Seq<char>, up: Seq<char>, dp: Seq<char>, tail: Seq<char>)
    ensures
        occurs_in(head + rp + qp + up + dp + tail, rp),
        occurs_in(head + rp + qp + up + dp + tail, up),
        occurs_in(head + rp + qp + up + dp + tail, dp),
{
    let whole = head + rp + qp + up + dp + tail;
    assert(whole =~= head + rp + (qp + up + dp + tail));
    lemma_occurs_between(head, rp, qp + up + dp + tail);
    assert(whole =~= (head + rp + qp) + up + (dp + tail));
    lemma_occurs_between(head + rp + qp, up, dp + tail);
    lemma_occurs_between(head + rp + qp + up, dp, tail);
}

/// The `read`, `update` and `delete` functions of a table with a primary
/// key take the key parameters after the connection, select the row with
/// the chained key filters, and say in their doc comment "primary key" or
/// "primary keys" as [`key_word`] gives it ("keys" for two or more key
/// columns); each stands in the table's functions where it is generated.
pub proof fn lemma_key_functions_text(
    t: ParsedTableMacro,
    cfg: GenerationConfig,
    create_ident: Seq<char>,
    create_fields: bool,
    update_ident: Seq<char>,
    update_fields: bool,
)
    requires
        t.primary_key_columns@.len() > 0,
    ensures
        occurs_in(
            table_fns_spec(t, cfg, create_ident, create_fields, update_ident, update_fields),
            " fn read(db: &mut ConnectionType, "@ + key_params_spec(t) + ") -> diesel::QueryResult<Self> {\n        use "@,
        ),
        occurs_in(
            table_fns_spec(t, cfg, create_ident, create_fields, update_ident, update_fields),
            t.name@ + "."@ + key_filters_spec(t) + ".first::<Self>(db)"@,
        ),
        occurs_in(
            table_fns_spec(t, cfg, create_ident, create_fields, update_ident, update_fields),
            "`, identified by the primary "@ + key_word(t) + "\n    pub"@,
        ),
        update_fields && !cfg.options_for(t.name@)@.readonly ==> occurs_in(
            table_fns_spec(t, cfg, create_ident, create_fields, update_ident, update_fields),
            "`, identified by the primary "@ + key_word(t) + " with [`"@,
        ),
        update_fields && !cfg.options_for(t.name@)@.readonly ==> occurs_in(
            table_fns_spec(t, cfg, create_ident, create_fields, update_ident, update_fields),
            " fn update(db: &mut ConnectionType, "@ + key_params_spec(t) + ", item: &"@,
        ),
        update_fields && !cfg.options_for(t.name@)@.readonly ==> occurs_in(
            table_fns_spec(t, cfg, create_ident, create_fields, update_ident, update_fields),
            t.name@ + "::dsl::*;\n\n        diesel::update("@ + t.name@ + "."@ + key_filters_spec(t) + ").set(item).get_result(db)"@,
        ),
        !cfg.options_for(t.name@)@.readonly ==> occurs_in(
            table_fns_spec(t, cfg, create_ident, create_fields, update_ident, update_fields),
            " fn delete(db: &mut ConnectionType, "@ + key_params_spec(t) + ") -> diesel::QueryResult<usize> {\n        use "@,
        ),
        !cfg.options_for(t.name@)@.readonly ==> occurs_in(
            table_fns_spec(t, cfg, create_ident, create_fields, update_ident, update_fields),
            t.name@ + "::dsl::*;\n\n        diesel::delete("@ + t.name@ + "."@ + key_filters_spec(t) + ").execute(db)"@,
        ),
{
    let o = cfg.options_for(t.name@)@;
    let whole = table_fns_spec(t, cfg, create_ident, create_fields, update_ident, update_fields);
    let head = (if !cfg.options.once_common_structs {
        crate::code::common_structs_spec(o) + "\n"@
    } else {
        ""@
    }) + "impl "@ + t.struct_name@ + " {"@ + create_part(t, cfg, o, create_ident, create_fields);
    let rp = read_part(t, cfg, o);
    let up = update_part(t, cfg, o, update_ident, update_fields);
    let dp = delete_part(t, cfg, o);
    let tail = "}\n"@ + crate::code::filter_struct_part(t, cfg);
    let qp = query_part(t, cfg, o);
    assert(whole == head + rp + qp + up + dp + "}\n"@ + crate::code::filter_struct_part(t, cfg));
    assert(whole =~= head + rp + qp + up + dp + tail);
    lemma_fn_parts(head, rp, qp, up, dp, tail);
    let (tn, sp, key, params, filters, kw, aw) = (
        t.name@,
        cfg.options.schema_path@,
        key_word(t),
        key_params_spec(t),
        key_filters_spec(t),
        async_kw(o),
        await_kw(o),
    );
    lemma_read_pieces(tn, sp, key, params, filters, kw, aw);
    lemma_occurs_trans(whole, rp, " fn read(db: &mut ConnectionType, "@ + params + ") -> diesel::QueryResult<Self> {\n        use "@);
    lemma_occurs_trans(whole, rp, tn + "."@ + filters + ".first::<Self>(db)"@);
    lemma_occurs_trans(whole, rp, "`, identified by the primary "@ + key + "\n    pub"@);
    if update_fields && !o.readonly {
        lemma_update_pieces(tn, sp, key, params, filters, update_ident, kw, aw);
        lemma_occurs_trans(whole, up, " fn update(db: &mut ConnectionType, "@ + params + ", item: &"@);
        lemma_occurs_trans(whole, up, "`, identified by the primary "@ + key + " with [`"@);
        lemma_occurs_trans(whole, up, tn + "::dsl::*;\n\n        diesel::update("@ + tn + "."@ + filters + ").set(item).get_result(db)"@);
    }
    if !o.readonly {
        lemma_delete_pieces(tn, sp, key, params, filters, kw, aw);
        lemma_occurs_trans(whole, dp, " fn delete(db: &mut ConnectionType, "@ + params + ") -> diesel::QueryResult<usize> {\n        use "@);
        lemma_occurs_trans(whole, dp, tn + "::dsl::*;\n\n        diesel::delete("@ + tn + "."@ + filters + ").execute(db)"@);
    }
}


proof fn lemma_file_parts(a: Seq<char>, r: Seq<char>, c: Seq<char>, u: Seq<char>, f: Seq<char>, d: Seq<char>)
    ensures
        occurs_in(a + r + c + u + f + d, r),
        occurs_in(a + r + c + u + f + d, f),
{
    let whole = a + r + c + u + f + d;
    assert(whole =~= a + r + (c + u + f + d));
    lemma_occurs_between(a, r, c + u + f + d);
    lemma_occurs_between(a + r + c + u, f, d);
}

/// The file of a table holds its `Read` struct and, where functions are
/// generated, its functions.
pub proof fn lemma_file_holds_read_struct_and_fns(t: ParsedTableMacro, cfg: GenerationConfig)
    ensures
        occurs_in(file_spec(t, cfg), or_empty(struct_code(StructType::Read, t, cfg))),
        cfg.options_for(t.name@)@.fns ==> occurs_in(
            file_spec(t, cfg),
            table_fns_spec(
                t,
                cfg,
                StructType::Create.format_spec(t.struct_name@),
                struct_code(StructType::Create, t, cfg) is Some,
                StructType::Update.format_spec(t.struct_name@),
                struct_code(StructType::Update, t, cfg) is Some,
            ),
        ),
{
    let o = cfg.options_for(t.name@)@;
    let create = struct_code(StructType::Create, t, cfg);
    let update = struct_code(StructType::Update, t, cfg);
    let sn = t.struct_name@;
    let a = crate::code::FILE_SIGNATURE@ + "\n\n"@ + crate::code::imports_spec(t, cfg) + "\n\n"@;
    let r = or_empty(struct_code(StructType::Read, t, cfg));
    let c = if create is Some {
        "\n"@ + or_empty(create) + (if cfg.options.default_impl {
            "\n"@ + crate::code::default_impl_spec(StructType::Create.format_spec(sn), StructType::Create, t, o)
        } else {
            ""@
        }) + "\n"@
    } else {
        ""@
    };
    let u = if update is Some {
        "\n"@ + or_empty(update)
    } else {
        ""@
    };
    let fns = table_fns_spec(
        t,
        cfg,
        StructType::Create.format_spec(sn),
        create is Some,
        StructType::Update.format_spec(sn),
        update is Some,
    );
    let f = if o.fns {
        "\n"@ + fns
    } else {
        ""@
    };
    let d = if cfg.options.default_impl {
        "\n"@ + crate::code::default_impl_spec(sn, StructType::Read, t, o) + "\n"@
    } else {
        ""@
    };
    assert(file_spec(t, cfg) == a + r + c + u + f + d);
    lemma_file_parts(a, r, c, u, f, d);
    if o.fns {
        lemma_occurs_self(fns);
        lemma_occurs_right("\n"@, fns, fns);
        lemma_occurs_trans(file_spec(t, cfg), f, fns);
    }
}

/// The `Read` struct's text holds the line that opens the struct,
/// `pub struct Name {`.
pub proof fn lemma_read_struct_header(t: ParsedTableMacro, o: OptionsView)
    ensures
        occurs_in(struct_text(StructType::Read, t, o), ")]\npub struct "@ + t.struct_name@ + " {\n"@),
{
    reveal_strlit("");
    let ty = StructType::Read;
    let cs = struct_columns(t, ty, o);
    let pre = struct_doc(ty, t) + "\n"@ + crate::structs::tsync_attr_spec(o) + crate::structs::derive_attr_spec(t, ty, o)
        + "\n#[diesel(table_name="@ + t.name@ + crate::structs::diesel_args(ty, t);
    let line = ")]\npub struct "@ + t.struct_name@ + " {\n"@;
    let body = join_spec(field_lines(cs, ty, o), "\n"@) + "\n}\n"@;
    assert(ty.format_spec(t.struct_name@) =~= t.struct_name@);
    assert(crate::structs::lifetimes_spec(ty, o, cs) =~= Seq::<char>::empty());
    assert(struct_head(ty, t, o) =~= pre + line);
    assert(struct_text(ty, t, o) =~= pre + line + body);
    lemma_occurs_between(pre, line, body);
}

/// A table that a read-only prefix or suffix matches, with a column and a
/// primary key, has a file that declares its `Read` struct and, where
/// functions are generated, holds its `read` function; it has no `Create*`
/// or `Update*` struct and no `create`, `update` or `delete` function.
pub proof fn lemma_readonly_file(t: ParsedTableMacro, cfg: GenerationConfig)
    requires
        cfg.readonly_name(t.name@),
        t.columns@.len() > 0,
        t.primary_key_columns@.len() > 0,
    ensures
        struct_code(StructType::Create, t, cfg) is None,
        struct_code(StructType::Update, t, cfg) is None,
        occurs_in(file_spec(t, cfg), ")]\npub struct "@ + t.struct_name@ + " {\n"@),
        cfg.options_for(t.name@)@.fns ==> occurs_in(
            file_spec(t, cfg),
            " fn read(db: &mut ConnectionType, "@ + key_params_spec(t) + ") -> diesel::QueryResult<Self> {\n        use "@,
        ),
{
    let o = cfg.options_for(t.name@)@;
    let sn = t.struct_name@;
    lemma_readonly_table(t, cfg, StructType::Create.format_spec(sn), false, StructType::Update.format_spec(sn), false);
    lemma_file_holds_read_struct_and_fns(t, cfg);
    lemma_read_struct_header(t, o);
    lemma_occurs_trans(file_spec(t, cfg), or_empty(struct_code(StructType::Read, t, cfg)), ")]\npub struct "@ + sn + " {\n"@);
    if o.fns {
        let fns = table_fns_spec(t, cfg, StructType::Create.format_spec(sn), false, StructType::Update.format_spec(sn), false);
        lemma_key_functions_text(t, cfg, StructType::Create.format_spec(sn), false, StructType::Update.format_spec(sn), false);
        lemma_occurs_trans(file_spec(t, cfg), fns, " fn read(db: &mut ConnectionType, "@ + key_params_spec(t) + ") -> diesel::QueryResult<Self> {\n        use "@);
    }
}

proof fn lemma_regroup(l: Seq<char>, a: Seq<char>, sep: Seq<char>, b: Seq<char>, r: Seq<char>)
    ensures
        l + (a + sep + b) + r == l + a + sep + b + r,
{
    assert(l + (a + sep + b) + r =~= l + a + sep + b + r);
}

/// With a primary key of two columns `a` and `b`, where functions are
/// generated, the file holds `read` with the parameters
/// `param_a: Ta, param_b: Tb` and the selection
/// `table.filter(a.eq(param_a)).filter(b.eq(param_b))`, and its doc comment
/// says "primary keys"; the same holds of `update` and `delete` wherever
/// they are generated.
pub proof fn lemma_two_column_key_file(t: ParsedTableMacro, cfg: GenerationConfig)
    requires
        table_wf(t),
        t.primary_key_columns@.len() == 2,
        cfg.options_for(t.name@)@.fns,
    ensures
        occurs_in(
            file_spec(t, cfg),
            " fn read(db: &mut ConnectionType, "@ + key_param_text(key_columns(t)[0].name@, key_columns(t)[0].ty@)
                + ", "@ + key_param_text(key_columns(t)[1].name@, key_columns(t)[1].ty@)
                + ") -> diesel::QueryResult<Self> {\n        use "@,
        ),
        occurs_in(
            file_spec(t, cfg),
            t.name@ + "."@ + key_filter_text(key_columns(t)[0].name@) + "."@ + key_filter_text(key_columns(t)[1].name@)
                + ".first::<Self>(db)"@,
        ),
        occurs_in(file_spec(t, cfg), "`, identified by the primary "@ + "keys"@ + "\n    pub"@),
        key_columns(t)[0].name@ == t.primary_key_columns@[0]@,
        key_columns(t)[1].name@ == t.primary_key_columns@[1]@,
{
    let sn = t.struct_name@;
    let ci = StructType::Create.format_spec(sn);
    let ui = StructType::Update.format_spec(sn);
    let cf = struct_code(StructType::Create, t, cfg) is Some;
    let uf = struct_code(StructType::Update, t, cfg) is Some;
    lemma_two_column_key(t, cfg);
    lemma_key_functions_text(t, cfg, ci, cf, ui, uf);
    lemma_file_holds_read_struct_and_fns(t, cfg);
    let fns = table_fns_spec(t, cfg, ci, cf, ui, uf);
    let p0 = key_param_text(key_columns(t)[0].name@, key_columns(t)[0].ty@);
    let p1 = key_param_text(key_columns(t)[1].name@, key_columns(t)[1].ty@);
    let f0 = key_filter_text(key_columns(t)[0].name@);
    let f1 = key_filter_text(key_columns(t)[1].name@);
    let sig = " fn read(db: &mut ConnectionType, "@ + key_params_spec(t) + ") -> diesel::QueryResult<Self> {\n        use "@;
    let sel = t.name@ + "."@ + key_filters_spec(t) + ".first::<Self>(db)"@;
    lemma_regroup(" fn read(db: &mut ConnectionType, "@, p0, ", "@, p1, ") -> diesel::QueryResult<Self> {\n        use "@);
    lemma_regroup(t.name@ + "."@, f0, "."@, f1, ".first::<Self>(db)"@);
    lemma_occurs_trans(file_spec(t, cfg), fns, sig);
    lemma_occurs_trans(file_spec(t, cfg), fns, sel);
    lemma_occurs_trans(file_spec(t, cfg), fns, "`, identified by the primary "@ + key_word(t) + "\n    pub"@);
}


/// Each signed integer type becomes the unsigned type of the same width.
pub proof fn lemma_unsigned_same_width()
    ensures
        unsigned_of("i8"@) == "u8"@,
        unsigned_of("i16"@) == "u16"@,
        unsigned_of("i32"@) == "u32"@,
        unsigned_of("i64"@) == "u64"@,
        unsigned_of("i128"@) == "u128"@,
        unsigned_of("isize"@) == "usize"@,
        forall|t: Seq<char>| is_integer_type(t) ==> is_integer_type(#[trigger] unsigned_of(t)),
{
    reveal_strlit("i8");
    reveal_strlit("u8");
    reveal_strlit("i16");
    reveal_strlit("u16");
    reveal_strlit("i32");
    reveal_strlit("u32");
    reveal_strlit("i64");
    reveal_strlit("u64");
    reveal_strlit("i128");
    reveal_strlit("u128");
    reveal_strlit("isize");
    reveal_strlit("usize");
    assert(unsigned_of("i8"@) =~= "u8"@);
    assert(unsigned_of("i16"@) =~= "u16"@);
    assert(unsigned_of("i32"@) =~= "u32"@);
    assert(unsigned_of("i64"@) =~= "u64"@);
    assert(unsigned_of("i128"@) =~= "u128"@);
    assert(unsigned_of("isize"@) =~= "usize"@);
    assert(unsigned_of("u8"@) =~= "u8"@);
    assert(unsigned_of("u16"@) =~= "u16"@);
    assert(unsigned_of("u32"@) =~= "u32"@);
    assert(unsigned_of("u64"@) =~= "u64"@);
    assert(unsigned_of("u128"@) =~= "u128"@);
    assert(unsigned_of("usize"@) =~= "usize"@);
}

} // verus!

//! The `Read`, `Create*` and `Update*` structs of a table: which columns each
//! holds, the type of each field, the derives, and the rendered text.
use vstd::prelude::*;
use crate::model::{
    base_type_of, rust_type_of, rust_type_spec, ParsedColumnMacro, ParsedTableMacro,
    StructField, StructType,
};
use crate::naming::{pascal_of, to_pascal_case};
use crate::options::{GenerationConfig, OptionsView, TableOptions};
use crate::text::{contains_str, join, join_spec, seq_has, str_eq, views};

verus! {

/// Whether a struct of type `ty` holds column `c`: `Read` holds every column,
/// `Update*` every column but the primary key, `Create*` every column that
/// is not autogenerated.
pub open spec fn keeps(
    c: ParsedColumnMacro,
    ty: StructType,
    pks: Seq<Seq<char>>,
    autogen: Seq<Seq<char>>,
) -> bool {
    match ty {
        StructType::Read => true,
        StructType::Update => !seq_has(pks, c.name@),
        StructType::Create => !seq_has(autogen, c.name@),
    }
}

/// The columns that a struct of type `ty` holds, in table order.
pub open spec fn selected(
    cols: Seq<ParsedColumnMacro>,
    ty: StructType,
    pks: Seq<Seq<char>>,
    autogen: Seq<Seq<char>>,
) -> Seq<ParsedColumnMacro>
    decreases cols.len(),
{
    if cols.len() == 0 {
        Seq::empty()
    } else {
        let rest = selected(cols.drop_last(), ty, pks, autogen);
        if keeps(cols.last(), ty, pks, autogen) {
            rest.push(cols.last())
        } else {
            rest
        }
    }
}

/// The columns of a struct of type `ty` for a table under options `o`.
pub open spec fn struct_columns(
    t: ParsedTableMacro,
    ty: StructType,
    o: OptionsView,
) -> Seq<ParsedColumnMacro> {
    selected(t.columns@, ty, t.pk_names(), o.autogen)
}

/// `f` is the field made from column `c`.
pub open spec fn field_of(f: StructField, c: ParsedColumnMacro) -> bool {
    &&& f.name@ == c.name@
    &&& f.column_name@ == c.column_name@
    &&& f.base_type@ == base_type_of(c)
    &&& f.is_optional == c.is_nullable
    &&& f.is_vec == c.is_array
}

pub open spec fn fields_of(fs: Seq<StructField>, cs: Seq<ParsedColumnMacro>) -> bool {
    fs.len() == cs.len() && forall|i: int| 0 <= i < fs.len() ==> field_of(#[trigger] fs[i], cs[i])
}

/// The base type after the configured string or bytes representation is
/// put in place (only in `Create*` and `Update*` structs).
pub open spec fn substituted(base: Seq<char>, ty: StructType, o: OptionsView) -> Seq<char> {
    if base == "String"@ {
        match ty {
            StructType::Read => base,
            StructType::Update => o.update_str.text(),
            StructType::Create => o.create_str.text(),
        }
    } else if base == "Vec<u8>"@ {
        match ty {
            StructType::Read => base,
            StructType::Update => o.update_bytes.text(),
            StructType::Create => o.create_bytes.text(),
        }
    } else {
        base
    }
}

/// The type of the field for column `c` in a struct of type `ty`; in an
/// `Update*` struct always wrapped in one more `Option`.
pub open spec fn field_type(c: ParsedColumnMacro, ty: StructType, o: OptionsView) -> Seq<char> {
    let t = rust_type_spec(substituted(base_type_of(c), ty, o), c.is_array, c.is_nullable);
    if ty == StructType::Update {
        "Option<"@ + t + ">"@
    } else {
        t
    }
}

pub open spec fn field_doc_line(c: ParsedColumnMacro) -> Seq<char> {
    "    /// Field representing column `"@ + c.column_name@ + "`"@
}

pub open spec fn field_decl_line(
    c: ParsedColumnMacro,
    ty: StructType,
    o: OptionsView,
) -> Seq<char> {
    "    pub "@ + c.name@ + ": "@ + field_type(c, ty, o) + ","@
}

/// Two lines per field: its doc comment and its declaration.
pub open spec fn field_lines(
    cs: Seq<ParsedColumnMacro>,
    ty: StructType,
    o: OptionsView,
) -> Seq<Seq<char>>
    decreases cs.len(),
{
    if cs.len() == 0 {
        Seq::empty()
    } else {
        field_lines(cs.drop_last(), ty, o).push(field_doc_line(cs.last())).push(
            field_decl_line(cs.last(), ty, o),
        )
    }
}

/// The derives of a struct, in order.
pub open spec fn derive_list(
    ty: StructType,
    serde: bool,
    by_name: bool,
    has_fk: bool,
    has_pk: bool,
    update_all_pk: bool,
) -> Seq<Seq<char>> {
    let common = seq!["Debug"@, "Clone"@] + if serde {
        seq!["serde::Serialize"@, "serde::Deserialize"@]
    } else {
        Seq::empty()
    };
    common + match ty {
        StructType::Read => seq!["diesel::Queryable"@, "diesel::Selectable"@] + (if by_name {
            seq!["diesel::QueryableByName"@]
        } else {
            Seq::empty()
        }) + seq!["PartialEq"@] + if has_fk {
            seq!["diesel::Associations"@, "diesel::Identifiable"@]
        } else if has_pk {
            seq!["diesel::Identifiable"@]
        } else {
            Seq::empty()
        },
        StructType::Update => if !update_all_pk {
            seq!["diesel::AsChangeset"@, "PartialEq"@, "Default"@]
        } else {
            seq!["Default"@]
        },
        StructType::Create => seq!["diesel::Insertable"@],
    }
}

/// Every column of `cs` is a primary key column.
pub open spec fn all_pk(cs: Seq<ParsedColumnMacro>, pks: Seq<Seq<char>>) -> bool {
    forall|i: int| 0 <= i < cs.len() ==> seq_has(pks, #[trigger] cs[i].name@)
}

pub open spec fn derive_attr_spec(
    t: ParsedTableMacro,
    ty: StructType,
    o: OptionsView,
) -> Seq<char> {
    "#[derive("@ + join_spec(
        derive_list(
            ty,
            o.serde,
            o.queryable_by_name,
            t.foreign_keys@.len() > 0,
            t.primary_key_columns@.len() > 0,
            all_pk(struct_columns(t, StructType::Update, o), t.pk_names()),
        ),
        ", "@,
    ) + ")]"@
}

pub open spec fn tsync_attr_spec(o: OptionsView) -> Seq<char> {
    if o.tsync {
        "#[tsync::tsync]\n"@
    } else {
        ""@
    }
}

/// The longer of two lifetimes, the second where they are equally long.
pub open spec fn longer(a: Seq<char>, b: Seq<char>) -> Seq<char> {
    if a.len() > b.len() {
        a
    } else {
        b
    }
}

/// Some column of `cs` has base type `b`.
pub open spec fn has_base(cs: Seq<ParsedColumnMacro>, b: Seq<char>) -> bool {
    exists|i: int| 0 <= i < cs.len() && base_type_of(#[trigger] cs[i]) == b
}

/// The lifetime that a representation needs in a struct with columns `cs`:
/// only where some column has the base type `b` that it replaces.
pub open spec fn needed(cs: Seq<ParsedColumnMacro>, b: Seq<char>, lifetime: Seq<char>) -> Seq<char> {
    if has_base(cs, b) {
        lifetime
    } else {
        ""@
    }
}

/// The generic parameter list of a struct of type `ty` with columns `cs`:
/// the longest lifetime that the string and bytes representations of its
/// fields need, none where no field needs one.
pub open spec fn lifetimes_spec(ty: StructType, o: OptionsView, cs: Seq<ParsedColumnMacro>) -> Seq<char> {
    let l = match ty {
        StructType::Read => ""@,
        StructType::Update => longer(
            needed(cs, "String"@, o.update_str.lifetime()),
            needed(cs, "Vec<u8>"@, o.update_bytes.lifetime()),
        ),
        StructType::Create => longer(
            needed(cs, "String"@, o.create_str.lifetime()),
            needed(cs, "Vec<u8>"@, o.create_bytes.lifetime()),
        ),
    };
    if l.len() == 0 {
        ""@
    } else {
        "<"@ + l + ">"@
    }
}

pub open spec fn belongs_item(fk: (String, String)) -> Seq<char> {
    ", belongs_to("@ + pascal_of(fk.0@) + ", foreign_key="@ + fk.1@ + ")"@
}

pub open spec fn belongs_items(fks: Seq<(String, String)>) -> Seq<Seq<char>> {
    fks.map_values(|fk: (String, String)| belongs_item(fk))
}

pub open spec fn struct_doc(ty: StructType, t: ParsedTableMacro) -> Seq<char> {
    match ty {
        StructType::Read => "/// Struct representing a row in table `"@ + t.name@ + "`"@,
        StructType::Update => "/// Update Struct for a row in table `"@ + t.name@ + "` for [`"@
            + t.struct_name@ + "`]"@,
        StructType::Create => "/// Create Struct for a row in table `"@ + t.name@ + "` for [`"@
            + t.struct_name@ + "`]"@,
    }
}

/// The `#[diesel(..)]` arguments after the table name: the primary key
/// (where there is one) and the associations of the `Read` struct.
pub open spec fn diesel_args(ty: StructType, t: ParsedTableMacro) -> Seq<char> {
    if ty == StructType::Read {
        (if t.primary_key_columns@.len() > 0 {
            ", primary_key("@ + join_spec(t.pk_names(), ","@) + ")"@
        } else {
            ""@
        }) + join_spec(
            belongs_items(t.foreign_keys@),
            " "@,
        )
    } else {
        ""@
    }
}

/// The text of a struct with at least one field.
pub open spec fn struct_text(ty: StructType, t: ParsedTableMacro, o: OptionsView) -> Seq<char> {
    struct_head(ty, t, o) + join_spec(field_lines(struct_columns(t, ty, o), ty, o), "\n"@) + "\n}\n"@
}

/// The text of a struct up to its first field: doc comment, attributes
/// and the `pub struct Name<..> {` line.
pub open spec fn struct_head(ty: StructType, t: ParsedTableMacro, o: OptionsView) -> Seq<char> {
    struct_doc(ty, t) + "\n"@ + tsync_attr_spec(o) + derive_attr_spec(t, ty, o)
        + "\n#[diesel(table_name="@ + t.name@ + diesel_args(ty, t) + ")]\npub struct "@
        + ty.format_spec(t.struct_name@) + lifetimes_spec(ty, o, struct_columns(t, ty, o)) + " {\n"@
}

/// The struct of type `ty` for table `t` under options `o`: none for
/// `Create*` and `Update*` of a read-only table, none where it would have no
/// field.
pub open spec fn struct_code_with(
    ty: StructType,
    t: ParsedTableMacro,
    o: OptionsView,
) -> Option<Seq<char>> {
    if o.readonly && ty != StructType::Read {
        None
    } else if struct_columns(t, ty, o).len() == 0 {
        None
    } else {
        Some(struct_text(ty, t, o))
    }
}

/// The struct of type `ty` for table `t` under configuration `cfg`.
pub open spec fn struct_code(
    ty: StructType,
    t: ParsedTableMacro,
    cfg: GenerationConfig,
) -> Option<Seq<char>> {
    struct_code_with(ty, t, cfg.options_for(t.name@)@)
}

pub open spec fn opt_view(s: Option<String>) -> Option<Seq<char>> {
    match s {
        Some(x) => Some(x@),
        None => None,
    }
}

/// Options that are the same resolve to the same values.
pub proof fn lemma_same_resolved(a: TableOptions, b: TableOptions)
    requires
        a.same(b),
    ensures
        a@ == b@,
{
}

/// A generated struct of a table.
#[derive(Debug)]
pub struct Struct {
    /// Struct name (like `UpdateTodos`)
    pub identifier: String,
    /// Type of the struct
    pub ty: StructType,
    /// The generated code, none where the struct is not generated
    pub rendered_code: Option<String>,
    /// Whether the struct has fields (and so is generated)
    pub fields_present: bool,
}

/// The fields of the struct of type `ty`.
pub fn fields(ty: StructType, t: &ParsedTableMacro, o: &TableOptions) -> (r: Vec<StructField>)
    ensures
        fields_of(r@, struct_columns(*t, ty, o@)),
{
    let autogen = o.get_autogenerated_columns();
    let mut out: Vec<StructField> = Vec::new();
    let mut i: usize = 0;
    while i < t.columns.len()
        invariant
            i <= t.columns@.len(),
            views(autogen@) == o@.autogen,
            fields_of(out@, selected(t.columns@.subrange(0, i as int), ty, t.pk_names(), o@.autogen)),
        decreases t.columns@.len() - i,
    {
        let ghost pre = t.columns@.subrange(0, i as int);
        let ghost next = t.columns@.subrange(0, i + 1);
        assert(next.drop_last() =~= pre);
        let c = &t.columns[i];
        let keep = match ty {
            StructType::Read => true,
            StructType::Update => !contains_str(&t.primary_key_columns, c.name.as_str()),
            StructType::Create => !contains_str(&autogen, c.name.as_str()),
        };
        if keep {
            out.push(StructField::from_column(c));
        }
        i = i + 1;
    }
    assert(t.columns@.subrange(0, t.columns@.len() as int) =~= t.columns@);
    out
}

fn push_lit(v: &mut Vec<String>, s: &str)
    ensures
        views(final(v)@) == views(old(v)@).push(s@),
{
    v.push(String::from_str(s));
    assert(views(final(v)@) =~= views(old(v)@).push(s@));
}

/// Whether every field of the `Update*` struct is a primary key column.
fn update_all_pk(t: &ParsedTableMacro, o: &TableOptions) -> (r: bool)
    ensures
        r == all_pk(struct_columns(*t, StructType::Update, o@), t.pk_names()),
{
    let fs = fields(StructType::Update, t, o);
    let ghost cs = struct_columns(*t, StructType::Update, o@);
    let mut i: usize = 0;
    while i < fs.len()
        invariant
            cs == struct_columns(*t, StructType::Update, o@),
            fields_of(fs@, cs),
            i <= fs@.len(),
            forall|j: int| 0 <= j < i ==> seq_has(t.pk_names(), #[trigger] cs[j].name@),
        decreases fs@.len() - i,
    {
        if !contains_str(&t.primary_key_columns, fs[i].name.as_str()) {
            assert(field_of(fs@[i as int], cs[i as int]));
            assert(!seq_has(t.pk_names(), cs[i as int].name@));
            assert(!all_pk(cs, t.pk_names()));
            return false;
        }
        assert(field_of(fs@[i as int], cs[i as int]));
        i = i + 1;
    }
    true
}

/// The `#[derive(..)]` attribute of the struct.
fn attr_derive(ty: StructType, t: &ParsedTableMacro, o: &TableOptions) -> (r: String)
    ensures
        r@ == derive_attr_spec(*t, ty, o@),
{
    let mut d: Vec<String> = Vec::new();
    push_lit(&mut d, "Debug");
    push_lit(&mut d, "Clone");
    if o.get_serde() {
        push_lit(&mut d, "serde::Serialize");
        push_lit(&mut d, "serde::Deserialize");
    }
    match ty {
        StructType::Read => {
            push_lit(&mut d, "diesel::Queryable");
            push_lit(&mut d, "diesel::Selectable");
            if o.get_queryable_by_name() {
                push_lit(&mut d, "diesel::QueryableByName");
            }
            push_lit(&mut d, "PartialEq");
            if t.foreign_keys.len() > 0 {
                push_lit(&mut d, "diesel::Associations");
                push_lit(&mut d, "diesel::Identifiable");
            } else if t.primary_key_columns.len() > 0 {
                push_lit(&mut d, "diesel::Identifiable");
            }
        },
        StructType::Update => {
            if !update_all_pk(t, o) {
                push_lit(&mut d, "diesel::AsChangeset");
                push_lit(&mut d, "PartialEq");
            }
            push_lit(&mut d, "Default");
        },
        StructType::Create => {
            push_lit(&mut d, "diesel::Insertable");
        },
    }
    let ghost expected = derive_list(
        ty,
        o@.serde,
        o@.queryable_by_name,
        t.foreign_keys@.len() > 0,
        t.primary_key_columns@.len() > 0,
        all_pk(struct_columns(*t, StructType::Update, o@), t.pk_names()),
    );
    assert(views(d@) =~= expected);
    let mut s = String::from_str("#[derive(");
    let inner = join(&d, ", ");
    s.append(inner.as_str());
    s.append(")]");
    s
}

/// The `#[tsync::tsync]` attribute where enabled.
fn attr_tsync(o: &TableOptions) -> (r: &'static str)
    ensures
        r@ == tsync_attr_spec(o@),
{
    if o.get_tsync() {
        "#[tsync::tsync]\n"
    } else {
        ""
    }
}

/// Whether some field has base type `b`.
fn uses_base(fs: &Vec<StructField>, Ghost(cs): Ghost<Seq<ParsedColumnMacro>>, b: &str) -> (r: bool)
    requires
        fields_of(fs@, cs),
    ensures
        r == has_base(cs, b@),
{
    let mut i: usize = 0;
    while i < fs.len()
        invariant
            fields_of(fs@, cs),
            i <= fs@.len(),
            forall|j: int| 0 <= j < i ==> base_type_of(#[trigger] cs[j]) != b@,
        decreases fs@.len() - i,
    {
        assert(field_of(fs@[i as int], cs[i as int]));
        if str_eq(fs[i].base_type.as_str(), b) {
            return true;
        }
        i = i + 1;
    }
    false
}

/// The lifetime `l` where `used`, else none.
fn lifetime_if(used: bool, l: &'static str) -> (r: &'static str)
    ensures
        r@ == (if used { l@ } else { ""@ }),
{
    if used {
        l
    } else {
        ""
    }
}

fn lifetimes(ty: StructType, t: &ParsedTableMacro, o: &TableOptions) -> (r: String)
    ensures
        r@ == lifetimes_spec(ty, o@, struct_columns(*t, ty, o@)),
{
    let fs = fields(ty, t, o);
    let ghost cs = struct_columns(*t, ty, o@);
    let strings = uses_base(&fs, Ghost(cs), "String");
    let bytes = uses_base(&fs, Ghost(cs), "Vec<u8>");
    let l: &str = match ty {
        StructType::Read => "",
        StructType::Update => {
            let a = lifetime_if(strings, o.get_update_str_type().get_lifetime());
            let b = lifetime_if(bytes, o.get_update_bytes_type().get_lifetime());
            if a.unicode_len() > b.unicode_len() { a } else { b }
        },
        StructType::Create => {
            let a = lifetime_if(strings, o.get_create_str_type().get_lifetime());
            let b = lifetime_if(bytes, o.get_create_bytes_type().get_lifetime());
            if a.unicode_len() > b.unicode_len() { a } else { b }
        },
    };
    if l.unicode_len() == 0 {
        proof { reveal_strlit(""); }
        String::new()
    } else {
        let mut s = String::from_str("<");
        s.append(l);
        s.append(">");
        s
    }
}

/// The `, belongs_to(..)` arguments, one per foreign key.
fn belongs_to(t: &ParsedTableMacro) -> (r: String)
    ensures
        r@ == join_spec(belongs_items(t.foreign_keys@), " "@),
{
    let mut items: Vec<String> = Vec::new();
    let mut i: usize = 0;
    while i < t.foreign_keys.len()
        invariant
            i <= t.foreign_keys@.len(),
            views(items@) == belongs_items(t.foreign_keys@.subrange(0, i as int)),
        decreases t.foreign_keys@.len() - i,
    {
        let fk = &t.foreign_keys[i];
        let mut s = String::from_str(", belongs_to(");
        let p = to_pascal_case(fk.0.as_str());
        s.append(p.as_str());
        s.append(", foreign_key=");
        s.append(fk.1.as_str());
        s.append(")");
        let ghost before = items@;
        items.push(s);
        assert(views(items@) =~= views(before).push(belongs_item(t.foreign_keys@[i as int])));
        assert(belongs_items(t.foreign_keys@.subrange(0, i + 1)) =~= belongs_items(
            t.foreign_keys@.subrange(0, i as int),
        ).push(belongs_item(t.foreign_keys@[i as int])));
        i = i + 1;
    }
    assert(t.foreign_keys@.subrange(0, t.foreign_keys@.len() as int) =~= t.foreign_keys@);
    join(&items, " ")
}

/// The base type with the configured representation put in place.
fn substitute(base: &str, ty: StructType, o: &TableOptions) -> (r: String)
    ensures
        r@ == substituted(base@, ty, o@),
{
    if str_eq(base, "String") {
        match ty {
            StructType::Read => String::from_str(base),
            StructType::Update => String::from_str(o.get_update_str_type().as_str()),
            StructType::Create => String::from_str(o.get_create_str_type().as_str()),
        }
    } else if str_eq(base, "Vec<u8>") {
        match ty {
            StructType::Read => String::from_str(base),
            StructType::Update => String::from_str(o.get_update_bytes_type().as_str()),
            StructType::Create => String::from_str(o.get_create_bytes_type().as_str()),
        }
    } else {
        String::from_str(base)
    }
}

/// The type of field `f` in a struct of type `ty`.
pub fn field_type_of(f: &StructField, ty: StructType, o: &TableOptions) -> (r: String)
    ensures
        forall|c: ParsedColumnMacro| field_of(*f, c) ==> r@ == field_type(c, ty, o@),
{
    let sub = substitute(f.base_type.as_str(), ty, o);
    let inner = rust_type_of(sub.as_str(), f.is_vec, f.is_optional);
    if ty == StructType::Update {
        let mut w = String::from_str("Option<");
        w.append(inner.as_str());
        w.append(">");
        w
    } else {
        inner
    }
}

/// The two lines of each field.
fn lines(ty: StructType, t: &ParsedTableMacro, o: &TableOptions) -> (r: Vec<String>)
    ensures
        views(r@) == field_lines(struct_columns(*t, ty, o@), ty, o@),
{
    let fs = fields(ty, t, o);
    let ghost cs = struct_columns(*t, ty, o@);
    let mut out: Vec<String> = Vec::new();
    let mut i: usize = 0;
    while i < fs.len()
        invariant
            cs == struct_columns(*t, ty, o@),
            fields_of(fs@, cs),
            i <= fs@.len(),
            views(out@) == field_lines(cs.subrange(0, i as int), ty, o@),
        decreases fs@.len() - i,
    {
        let f = &fs[i];
        let ghost c = cs[i as int];
        assert(field_of(fs@[i as int], c));
        assert(cs.subrange(0, i + 1).drop_last() =~= cs.subrange(0, i as int));
        let mut doc = String::from_str("    /// Field representing column `");
        doc.append(f.column_name.as_str());
        doc.append("`");
        let ft = field_type_of(f, ty, o);
        let mut decl = String::from_str("    pub ");
        decl.append(f.name.as_str());
        decl.append(": ");
        decl.append(ft.as_str());
        decl.append(",");
        out.push(doc);
        out.push(decl);
        assert(views(out@) =~= field_lines(cs.subrange(0, i + 1), ty, o@));
        i = i + 1;
    }
    assert(cs.subrange(0, cs.len() as int) =~= cs);
    out
}

fn doc_comment(ty: StructType, t: &ParsedTableMacro) -> (r: String)
    ensures
        r@ == struct_doc(ty, *t),
{
    match ty {
        StructType::Read => {
            let mut s = String::from_str("/// Struct representing a row in table `");
            s.append(t.name.as_str());
            s.append("`");
            s
        },
        StructType::Update => {
            let mut s = String::from_str("/// Update Struct for a row in table `");
            s.append(t.name.as_str());
            s.append("` for [`");
            s.append(t.struct_name.as_str());
            s.append("`]");
            s
        },
        StructType::Create => {
            let mut s = String::from_str("/// Create Struct for a row in table `");
            s.append(t.name.as_str());
            s.append("` for [`");
            s.append(t.struct_name.as_str());
            s.append("`]");
            s
        },
    }
}

fn diesel_arguments(ty: StructType, t: &ParsedTableMacro) -> (r: String)
    ensures
        r@ == diesel_args(ty, *t),
{
    if ty == StructType::Read {
        let mut s = if t.primary_key_columns.len() > 0 {
            let mut k = String::from_str(", primary_key(");
            let pk = join(&t.primary_key_columns, ",");
            k.append(pk.as_str());
            k.append(")");
            k
        } else {
            String::from_str("")
        };
        let b = belongs_to(t);
        s.append(b.as_str());
        s
    } else {
        String::from_str("")
    }
}

/// The text of the struct of type `ty`, or none where it is not generated.
fn render(ty: StructType, t: &ParsedTableMacro, o: &TableOptions) -> (r: Option<String>)
    ensures
        opt_view(r) == struct_code_with(ty, *t, o@),
{
    if o.get_readonly() && ty != StructType::Read {
        return None;
    }
    let ls = lines(ty, t, o);
    if ls.len() == 0 {
        assert(struct_columns(*t, ty, o@).len() == 0) by {
            lemma_field_lines_len(struct_columns(*t, ty, o@), ty, o@);
        }
        return None;
    }
    proof {
        lemma_field_lines_len(struct_columns(*t, ty, o@), ty, o@);
    }
    let mut s = doc_comment(ty, t);
    s.append("\n");
    s.append(attr_tsync(o));
    let d = attr_derive(ty, t, o);
    s.append(d.as_str());
    s.append("\n#[diesel(table_name=");
    s.append(t.name.as_str());
    let args = diesel_arguments(ty, t);
    s.append(args.as_str());
    s.append(")]\npub struct ");
    let name = ty.format(t.struct_name.as_str());
    s.append(name.as_str());
    let l = lifetimes(ty, t, o);
    s.append(l.as_str());
    s.append(" {\n");
    assert(s@ == struct_head(ty, *t, o@));
    let body = join(&ls, "\n");
    s.append(body.as_str());
    s.append("\n}\n");
    Some(s)
}

/// A struct has two lines per field; line `2 * i + 1` declares field `i`.
pub proof fn lemma_field_lines_len(cs: Seq<ParsedColumnMacro>, ty: StructType, o: OptionsView)
    ensures
        field_lines(cs, ty, o).len() == 2 * cs.len(),
        forall|i: int| 0 <= i < cs.len() ==> #[trigger] field_lines(cs, ty, o)[2 * i + 1] == field_decl_line(cs[i], ty, o),
    decreases cs.len(),
{
    if cs.len() > 0 {
        lemma_field_lines_len(cs.drop_last(), ty, o);
    }
}

impl Struct {
    /// The struct of type `ty` for `table`, rendered under the options that
    /// `config` resolves for the table.
    pub fn new(ty: StructType, table: &ParsedTableMacro, config: &GenerationConfig) -> (r: Struct)
        ensures
            r.identifier@ == ty.format_spec(table.struct_name@),
            r.ty == ty,
            opt_view(r.rendered_code) == struct_code(ty, *table, *config),
            r.fields_present == struct_code(ty, *table, *config) is Some,
    {
        let opts = config.table(table.name.as_str());
        proof {
            lemma_same_resolved(opts, config.options_for(table.name@));
        }
        let code = render(ty, table, &opts);
        let present = code.is_some();
        Struct {
            identifier: ty.format(table.struct_name.as_str()),
            ty,
            rendered_code: code,
            fields_present: present,
        }
    }

    /// Whether the struct is generated.
    pub fn has_code(&self) -> (r: bool)
        ensures
            r == self.rendered_code is Some,
    {
        self.rendered_code.is_some()
    }

    /// The generated code, or an empty string.
    pub fn code(&self) -> (r: &str)
        ensures
            r@ == match self.rendered_code {
                Some(s) => s@,
                None => Seq::empty(),
            },
    {
        match &self.rendered_code {
            Some(s) => s.as_str(),
            None => {
                proof { reveal_strlit(""); }
                ""
            },
        }
    }

    /// Whether the struct has any field.
    pub fn has_fields(&self) -> (r: bool)
        ensures
            r == self.fields_present,
    {
        self.fields_present
    }
}

} // verus!

//! From schema text to generated files: parse, check that every primary
//! key names a column, and generate.
use vstd::prelude::*;
use crate::code::{file_spec, generate_for_table, has_column, table_wf};
use crate::files::{files_spec, files_view, generate_files, GeneratedFile};
use crate::model::ParsedTableMacro;
use crate::options::GenerationConfig;
use crate::parser::{
    parse_schema, parse_schema_spec, table_macro_view, ParseError, ParseErrorKind, SchemaTable,
};
use crate::text::str_eq;

verus! {

/// Why no code was generated.
#[derive(Debug)]
pub enum GenError {
    /// The schema text does not parse
    Parse(ParseError),
    /// A primary key names a column that the table does not have
    MissingKeyColumn { table: String, column: String },
    /// Two generated files would have the same path
    PathConflict { path: String },
}

/// No two files have the same path.
pub open spec fn distinct_paths(v: Seq<GeneratedFile>) -> bool {
    forall|i: int, j: int| 0 <= i < j < v.len() ==> (#[trigger] v[i]).path@ != (#[trigger] v[j]).path@
}

/// A path that two of the files share, if any.
pub fn find_conflict(v: &Vec<GeneratedFile>) -> (r: Option<usize>)
    ensures
        match r {
            Some(i) => i < v@.len() && exists|j: int| 0 <= j < v@.len() && j != i && #[trigger] v@[j].path@ == v@[i as int].path@,
            None => distinct_paths(v@),
        },
{
    let mut i: usize = 0;
    while i < v.len()
        invariant
            i <= v@.len(),
            forall|a: int, b: int| 0 <= a < i && a < b < v@.len() ==> (#[trigger] v@[a]).path@ != (#[trigger] v@[b]).path@,
        decreases v@.len() - i,
    {
        let mut j: usize = i + 1;
        while j < v.len()
            invariant
                i < v@.len(),
                i + 1 <= j <= v@.len(),
                forall|a: int, b: int| 0 <= a < i && a < b < v@.len() ==> (#[trigger] v@[a]).path@ != (#[trigger] v@[b]).path@,
                forall|b: int| i < b < j ==> v@[i as int].path@ != (#[trigger] v@[b]).path@,
            decreases v@.len() - j,
        {
            if str_eq(v[i].path.as_str(), v[j].path.as_str()) {
                assert(v@[j as int].path@ == v@[i as int].path@);
                return Some(i);
            }
            j = j + 1;
        }
        i = i + 1;
    }
    None
}

/// The first primary key name of `t` that names no column of it.
pub fn missing_key(t: &ParsedTableMacro) -> (r: Option<usize>)
    ensures
        match r {
            Some(k) => k < t.primary_key_columns@.len() && !has_column(t.columns@, t.primary_key_columns@[k as int]@),
            None => table_wf(*t),
        },
{
    let mut k: usize = 0;
    while k < t.primary_key_columns.len()
        invariant
            k <= t.primary_key_columns@.len(),
            forall|j: int| 0 <= j < k ==> has_column(t.columns@, #[trigger] t.primary_key_columns@[j]@),
        decreases t.primary_key_columns@.len() - k,
    {
        let name = t.primary_key_columns[k].as_str();
        let mut i: usize = 0;
        let mut found = false;
        while i < t.columns.len() && !found
            invariant
                i <= t.columns@.len(),
                name@ == t.primary_key_columns@[k as int]@,
                found ==> has_column(t.columns@, name@),
                !found ==> forall|j: int| 0 <= j < i ==> t.columns@[j].name@ != name@,
            decreases t.columns@.len() - i,
        {
            if str_eq(t.columns[i].name.as_str(), name) {
                found = true;
                assert(t.columns@[i as int].name@ == name@);
            }
            i = i + 1;
        }
        if !found {
            return Some(k);
        }
        k = k + 1;
    }
    None
}

/// A table and the code generated for it.
#[derive(Debug)]
pub struct GeneratedTable {
    pub table: ParsedTableMacro,
    pub generated_code: String,
}

pub open spec fn all_wf(v: Seq<ParsedTableMacro>) -> bool {
    forall|i: int| 0 <= i < v.len() ==> table_wf(#[trigger] v[i])
}

/// The index of the first table whose key names a missing column.
fn first_missing(v: &Vec<ParsedTableMacro>) -> (r: Option<(usize, usize)>)
    ensures
        match r {
            Some((i, k)) => i < v@.len() && k < v@[i as int].primary_key_columns@.len()
                && !has_column(v@[i as int].columns@, v@[i as int].primary_key_columns@[k as int]@),
            None => all_wf(v@),
        },
{
    let mut i: usize = 0;
    while i < v.len()
        invariant
            i <= v@.len(),
            forall|j: int| 0 <= j < i ==> table_wf(#[trigger] v@[j]),
        decreases v@.len() - i,
    {
        match missing_key(&v[i]) {
            Some(k) => { return Some((i, k)); },
            None => {},
        }
        i = i + 1;
    }
    None
}

/// The schema text parses, and its table `table` has a primary key column
/// `column` that names none of its columns.
pub open spec fn missing_in(s: Seq<char>, table: Seq<char>, column: Seq<char>) -> bool {
    parse_schema_spec(s) is Ok && exists|t: SchemaTable|
        #[trigger] parse_schema_spec(s)->Ok_0.contains(t) && t.name == table && t.pks.contains(column)
            && forall|c: int| 0 <= c < t.columns.len() ==> t.columns[c].name != column
}

/// The parsed tables of a schema text, or why not: the parse error, or a
/// primary key that names no column.
pub open spec fn checked_tables(s: Seq<char>, v: Seq<ParsedTableMacro>) -> bool {
    parse_schema_spec(s) == Ok::<Seq<SchemaTable>, (ParseErrorKind, int)>(
        v.map_values(|t: ParsedTableMacro| table_macro_view(t)),
    ) && all_wf(v)
}

/// The error for primary key `k` of table `i`, which names no column.
fn missing_key_error(schema: &str, tables: &Vec<ParsedTableMacro>, i: usize, k: usize) -> (r: GenError)
    requires
        parse_schema_spec(schema@) == Ok::<Seq<SchemaTable>, (ParseErrorKind, int)>(
            tables@.map_values(|t: ParsedTableMacro| table_macro_view(t)),
        ),
        i < tables@.len(),
        k < tables@[i as int].primary_key_columns@.len(),
        !has_column(tables@[i as int].columns@, tables@[i as int].primary_key_columns@[k as int]@),
    ensures
        match r {
            GenError::MissingKeyColumn { table, column } => missing_in(schema@, table@, column@),
            _ => false,
        },
{
    let ghost parsed = tables@.map_values(|t: ParsedTableMacro| table_macro_view(t));
    let t = &tables[i];
    let table = t.name.clone();
    let column = t.primary_key_columns[k].clone();
    proof {
        let tv = table_macro_view(tables@[i as int]);
        assert(parsed[i as int] == tv);
        assert(tv.pks[k as int] == column@);
        assert(tv.pks.contains(column@));
        assert forall|c: int| 0 <= c < tv.columns.len() implies tv.columns[c].name != column@ by {
            assert(tv.columns[c].name == t.columns@[c].name@);
        }
        assert(parsed.contains(tv));
        assert(tv.name == table@);
        assert(parse_schema_spec(schema@)->Ok_0 == parsed);
        assert(parse_schema_spec(schema@)->Ok_0.contains(tv));
    }
    GenError::MissingKeyColumn { table, column }
}

/// The code of every table of a schema text, in order: one generated file
/// each. Fails where the text does not parse, or where a primary key names
/// a column that its table does not have.
pub fn generate_code(
    schema: &str,
    config: &GenerationConfig,
) -> (r: Result<Vec<GeneratedTable>, GenError>)
    requires
        schema@.len() < usize::MAX,
    ensures
        match r {
            Ok(v) => checked_tables(schema@, v@.map_values(|g: GeneratedTable| g.table))
                && forall|i: int| 0 <= i < v@.len() ==> (#[trigger] v@[i]).generated_code@ == file_spec(v@[i].table, *config),
            Err(GenError::Parse(e)) => parse_schema_spec(schema@) == Err::<Seq<SchemaTable>, (ParseErrorKind, int)>(
                (e.kind, e.offset as int),
            ),
            Err(GenError::MissingKeyColumn { table, column }) => missing_in(schema@, table@, column@),
            Err(GenError::PathConflict { .. }) => false,
        },
{
    let tables = match parse_schema(schema) {
        Err(e) => { return Err(GenError::Parse(e)); },
        Ok(v) => v,
    };
    match first_missing(&tables) {
        Some((i, k)) => {
            return Err(missing_key_error(schema, &tables, i, k));
        },
        None => {},
    }
    let ghost orig = tables@;
    let mut rest = tables;
    let mut out: Vec<GeneratedTable> = Vec::new();
    let n = rest.len();
    let mut k: usize = 0;
    while k < n
        invariant
            n == orig.len(),
            k <= n,
            all_wf(orig),
            rest@ == orig.subrange(k as int, n as int),
            out@.len() == k,
            forall|j: int| 0 <= j < k ==> (#[trigger] out@[j]).table == orig[j]
                && out@[j].generated_code@ == file_spec(orig[j], *config),
        decreases n - k,
    {
        let t = rest.remove(0);
        assert(t == orig[k as int]);
        assert(table_wf(orig[k as int]));
        let code = generate_for_table(&t, config);
        out.push(GeneratedTable { table: t, generated_code: code });
        assert(rest@ =~= orig.subrange(k + 1, n as int));
        k = k + 1;
    }
    assert(out@.map_values(|g: GeneratedTable| g.table) =~= orig);
    Ok(out)
}

/// Every file of a run over a schema text (see [`generate_files`]), or why
/// there is none: the text does not parse, a primary key names no column,
/// or two tables would write to the same path.
pub fn generate_all(
    schema: &str,
    config: &GenerationConfig,
) -> (r: Result<Vec<GeneratedFile>, GenError>)
    requires
        schema@.len() < usize::MAX,
    ensures
        match r {
            Ok(v) => distinct_paths(v@) && exists|ts: Seq<ParsedTableMacro>| #[trigger] checked_tables(schema@, ts) && files_view(v@) == files_spec(ts, *config),
            Err(GenError::Parse(e)) => parse_schema_spec(schema@) == Err::<Seq<SchemaTable>, (ParseErrorKind, int)>(
                (e.kind, e.offset as int),
            ),
            Err(GenError::MissingKeyColumn { table, column }) => missing_in(schema@, table@, column@),
            Err(GenError::PathConflict { path }) => exists|ts: Seq<ParsedTableMacro>, i: int, j: int|
                #[trigger] checked_tables(schema@, ts) && 0 <= i < j < files_spec(ts, *config).len()
                    && (#[trigger] files_spec(ts, *config)[i]).0 == path@ && (#[trigger] files_spec(ts, *config)[j]).0 == path@,
        },
{
    let tables = match parse_schema(schema) {
        Err(e) => { return Err(GenError::Parse(e)); },
        Ok(v) => v,
    };
    match first_missing(&tables) {
        Some((i, k)) => {
            return Err(missing_key_error(schema, &tables, i, k));
        },
        None => {},
    }
    let files = generate_files(&tables, config);
    assert(checked_tables(schema@, tables@));
    match find_conflict(&files) {
        Some(i) => {
            let path = files[i].path.clone();
            proof {
                let j = choose|j: int| 0 <= j < files@.len() && j != i && #[trigger] files@[j].path@ == files@[i as int].path@;
                let fs = files_spec(tables@, *config);
                assert(fs[i as int] == files_view(files@)[i as int]);
                assert(fs[j] == files_view(files@)[j]);
                if j < i {
                    assert(checked_tables(schema@, tables@) && 0 <= j < i < fs.len() && fs[j].0 == path@ && fs[i as int].0 == path@);
                } else {
                    assert(checked_tables(schema@, tables@) && 0 <= i < j < fs.len() && fs[i as int].0 == path@ && fs[j].0 == path@);
                }
            }
            Err(GenError::PathConflict { path })
        },
        None => Ok(files),
    }
}

} // verus!

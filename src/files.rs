//! The files of a run: which paths get which content, and how each compares
//! with what was on disk before.
use vstd::prelude::*;
use crate::code::{
    FILE_SIGNATURE,
    common_structs_spec, file_spec, generate_common_structs, generate_connection_type,
    generate_for_table, get_table_module_name, table_wf,
};
use crate::model::ParsedTableMacro;
use crate::naming::snake_of;
use crate::options::GenerationConfig;
use crate::structs::lemma_same_resolved;
use crate::templates::{connection_type_alias_text, mod_stmt, mod_stmt_text};
use crate::text::{str_eq, join_spec, views};

verus! {

/// How a generated file compares with the file that was there before.
#[derive(Debug, Clone, Copy, PartialEq, Eq, Structural)]
pub enum FileChangeStatus {
    /// No file was there
    Added,
    /// A file with other content was there
    Modified,
    /// A file with the same content was there
    Unchanged,
}

impl FileChangeStatus {
    /// The status as a word.
    pub fn as_str(&self) -> (r: &'static str)
        ensures
            r@ == match self {
                FileChangeStatus::Added => "Added"@,
                FileChangeStatus::Modified => "Modified"@,
                FileChangeStatus::Unchanged => "Unchanged"@,
            },
    {
        match self {
            FileChangeStatus::Added => "Added",
            FileChangeStatus::Modified => "Modified",
            FileChangeStatus::Unchanged => "Unchanged",
        }
    }
}

/// A file path and its status.
#[derive(Debug)]
pub struct FileChange {
    pub file: String,
    pub status: FileChangeStatus,
}

/// A file that a run writes: its path below the output directory and its content.
#[derive(Debug)]
pub struct GeneratedFile {
    pub path: String,
    pub content: String,
}

/// The status of a file with content `fresh`, where `prior` is what was on disk.
pub open spec fn status_spec(prior: Option<Seq<char>>, fresh: Seq<char>) -> FileChangeStatus {
    match prior {
        None => FileChangeStatus::Added,
        Some(p) => if p == fresh {
            FileChangeStatus::Unchanged
        } else {
            FileChangeStatus::Modified
        },
    }
}

pub open spec fn prior_view(p: Option<String>) -> Option<Seq<char>> {
    match p {
        Some(s) => Some(s@),
        None => None,
    }
}

/// `Added` where nothing was there, `Unchanged` where the same text was
/// there, else `Modified`.
pub fn file_status(prior: &Option<String>, fresh: &str) -> (r: FileChangeStatus)
    ensures
        r == status_spec(prior_view(*prior), fresh@),
{
    match prior {
        None => FileChangeStatus::Added,
        Some(p) => if str_eq(p.as_str(), fresh) {
            FileChangeStatus::Unchanged
        } else {
            FileChangeStatus::Modified
        },
    }
}

/// How many of the statuses are not `Unchanged`.
pub open spec fn changed_count(s: Seq<FileChangeStatus>) -> nat
    decreases s.len(),
{
    if s.len() == 0 {
        0
    } else {
        changed_count(s.drop_last()) + if s.last() == FileChangeStatus::Unchanged {
            0nat
        } else {
            1nat
        }
    }
}

pub open spec fn statuses(c: Seq<FileChange>) -> Seq<FileChangeStatus> {
    c.map_values(|f: FileChange| f.status)
}

proof fn lemma_changed_count_bound(s: Seq<FileChangeStatus>)
    ensures
        changed_count(s) <= s.len(),
    decreases s.len(),
{
    if s.len() > 0 {
        lemma_changed_count_bound(s.drop_last());
    }
}

/// The status of each file against the prior content at its path (`None`
/// where no file was there), and how many files are not `Unchanged`.
pub fn classify(
    files: &Vec<GeneratedFile>,
    priors: &Vec<Option<String>>,
) -> (r: (Vec<FileChange>, usize))
    requires
        files@.len() == priors@.len(),
    ensures
        r.0@.len() == files@.len(),
        forall|i: int| 0 <= i < files@.len() ==> (#[trigger] r.0@[i]).file@ == files@[i].path@
            && r.0@[i].status == status_spec(prior_view(priors@[i]), files@[i].content@),
        r.1 == changed_count(statuses(r.0@)),
{
    let mut out: Vec<FileChange> = Vec::new();
    let mut count: usize = 0;
    let mut i: usize = 0;
    while i < files.len()
        invariant
            files@.len() == priors@.len(),
            i <= files@.len(),
            out@.len() == i,
            forall|j: int| 0 <= j < i ==> (#[trigger] out@[j]).file@ == files@[j].path@
                && out@[j].status == status_spec(prior_view(priors@[j]), files@[j].content@),
            count == changed_count(statuses(out@)),
        decreases files@.len() - i,
    {
        let st = file_status(&priors[i], files[i].content.as_str());
        let ghost before = out@;
        proof {
            lemma_changed_count_bound(statuses(before));
        }
        out.push(FileChange { file: files[i].path.clone(), status: st });
        assert(statuses(out@).drop_last() =~= statuses(before));
        if st != FileChangeStatus::Unchanged {
            count = count + 1;
        }
        i = i + 1;
    }
    (out, count)
}

/// The content of the shared `common.rs`.
pub open spec fn common_file_spec(cfg: GenerationConfig) -> Seq<char> {
    FILE_SIGNATURE@ + "\n"@ + (if cfg.options.once_common_structs {
        common_structs_spec(cfg.options.default_table_options@)
    } else {
        ""@
    }) + (if cfg.options.once_connection_type {
        "\n"@ + connection_type_alias_text(cfg.connection_type@) + "\n"@
    } else {
        ""@
    })
}

/// The `mod.rs` of a table's directory.
pub open spec fn table_mod_spec() -> Seq<char> {
    "pub use generated::*;\npub mod generated;\n"@
}

/// The files of one table: `<module>.rs` in single-file mode, else
/// `<module>/generated.rs` and `<module>/mod.rs`.
pub open spec fn table_files_spec(
    t: ParsedTableMacro,
    cfg: GenerationConfig,
) -> Seq<(Seq<char>, Seq<char>)> {
    let m = snake_of(t.name@);
    if cfg.options_for(t.name@)@.single_model_file {
        seq![(m + ".rs"@, file_spec(t, cfg))]
    } else {
        seq![(m + "/generated.rs"@, file_spec(t, cfg)), (m + "/mod.rs"@, table_mod_spec())]
    }
}

pub open spec fn tables_files_spec(
    ts: Seq<ParsedTableMacro>,
    cfg: GenerationConfig,
) -> Seq<(Seq<char>, Seq<char>)>
    decreases ts.len(),
{
    if ts.len() == 0 {
        Seq::empty()
    } else {
        tables_files_spec(ts.drop_last(), cfg) + table_files_spec(ts.last(), cfg)
    }
}

/// The module declarations of the models' `mod.rs`.
pub open spec fn models_mod_spec(ts: Seq<ParsedTableMacro>, cfg: GenerationConfig) -> Seq<char> {
    let common = if cfg.options.once_common_structs || cfg.options.once_connection_type {
        seq!["pub mod common;"@]
    } else {
        Seq::empty()
    };
    join_spec(
        common + ts.map_values(|t: ParsedTableMacro| mod_stmt_text(snake_of(t.name@))),
        "\n"@,
    ) + "\n"@
}

/// Every file of a run, in order: `common.rs` where anything is shared, the
/// files of each table, and the models' `mod.rs`.
pub open spec fn files_spec(
    ts: Seq<ParsedTableMacro>,
    cfg: GenerationConfig,
) -> Seq<(Seq<char>, Seq<char>)> {
    (if cfg.options.once_common_structs || cfg.options.once_connection_type {
        seq![("common.rs"@, common_file_spec(cfg))]
    } else {
        Seq::empty()
    }) + tables_files_spec(ts, cfg) + seq![("mod.rs"@, models_mod_spec(ts, cfg))]
}

pub open spec fn files_view(v: Seq<GeneratedFile>) -> Seq<(Seq<char>, Seq<char>)> {
    v.map_values(|f: GeneratedFile| (f.path@, f.content@))
}

fn gfile(path: String, content: String) -> (r: GeneratedFile)
    ensures
        r.path@ == path@,
        r.content@ == content@,
{
    GeneratedFile { path, content }
}

fn push_file(v: &mut Vec<GeneratedFile>, f: GeneratedFile)
    ensures
        files_view(final(v)@) == files_view(old(v)@).push((f.path@, f.content@)),
{
    let ghost e = (f.path@, f.content@);
    v.push(f);
    assert(files_view(final(v)@) =~= files_view(old(v)@).push(e));
}

/// The content of the shared `common.rs`.
pub fn generate_common_file(config: &GenerationConfig) -> (r: String)
    ensures
        r@ == common_file_spec(*config),
{
    let mut s = String::from_str(FILE_SIGNATURE);
    s.append("\n");
    let structs = if config.options.once_common_structs {
        generate_common_structs(&config.options.default_table_options)
    } else {
        String::from_str("")
    };
    s.append(structs.as_str());
    let conn = if config.options.once_connection_type {
        let mut c = String::from_str("\n");
        let alias = generate_connection_type(config);
        c.append(alias.as_str());
        c.append("\n");
        c
    } else {
        String::from_str("")
    };
    s.append(conn.as_str());
    s
}

/// Every file of a run over `tables`, with its path below the output
/// directory and its full content.
pub fn generate_files(
    tables: &Vec<ParsedTableMacro>,
    config: &GenerationConfig,
) -> (r: Vec<GeneratedFile>)
    requires
        forall|i: int| 0 <= i < tables@.len() ==> table_wf(#[trigger] tables@[i]),
    ensures
        files_view(r@) == files_spec(tables@, *config),
{
    let mut out: Vec<GeneratedFile> = Vec::new();
    let mut mods: Vec<String> = Vec::new();
    let any_once = config.any_once_option();
    if any_once {
        push_file(&mut out, gfile(String::from_str("common.rs"), generate_common_file(config)));
        mods.push(String::from_str("pub mod common;"));
    }
    let ghost head = files_view(out@);
    let ghost mhead = views(mods@);
    assert(mhead =~= (if any_once { seq!["pub mod common;"@] } else { Seq::<Seq<char>>::empty() }));
    let ghost f = |t: ParsedTableMacro| mod_stmt_text(snake_of(t.name@));
    let mut i: usize = 0;
    while i < tables.len()
        invariant
            i <= tables@.len(),
            forall|k: int| 0 <= k < tables@.len() ==> table_wf(#[trigger] tables@[k]),
            f == (|t: ParsedTableMacro| mod_stmt_text(snake_of(t.name@))),
            files_view(out@) == head + tables_files_spec(tables@.subrange(0, i as int), *config),
            views(mods@) == mhead + tables@.subrange(0, i as int).map_values(f),
        decreases tables@.len() - i,
    {
        let t = &tables[i];
        assert(tables@.subrange(0, i + 1).drop_last() =~= tables@.subrange(0, i as int));
        assert(table_wf(tables@[i as int]));
        let opts = config.table(t.name.as_str());
        proof {
            lemma_same_resolved(opts, config.options_for(t.name@));
        }
        let module = get_table_module_name(t.name.as_str());
        let code = generate_for_table(t, config);
        let ghost before = files_view(out@);
        if opts.get_single_model_file() {
            let mut p = module.clone();
            p.append(".rs");
            push_file(&mut out, gfile(p, code));
        } else {
            let mut p = module.clone();
            p.append("/generated.rs");
            push_file(&mut out, gfile(p, code));
            let mut m = module.clone();
            m.append("/mod.rs");
            push_file(&mut out, gfile(m, String::from_str("pub use generated::*;\npub mod generated;\n")));
        }
        assert(files_view(out@) =~= head + tables_files_spec(tables@.subrange(0, i + 1), *config));
        let ghost mbefore = views(mods@);
        mods.push(mod_stmt(module.as_str()));
        assert(views(mods@) =~= mbefore.push(f(tables@[i as int])));
        assert(tables@.subrange(0, i + 1).map_values(f) =~= tables@.subrange(0, i as int).map_values(f).push(f(tables@[i as int])));
        i = i + 1;
    }
    assert(tables@.subrange(0, tables@.len() as int) =~= tables@);
    let mut mod_rs = crate::text::join(&mods, "\n");
    mod_rs.append("\n");
    push_file(&mut out, gfile(String::from_str("mod.rs"), mod_rs));
    out
}

} // verus!

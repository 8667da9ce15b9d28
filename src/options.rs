//! Generation options: per-table options with overrides and their resolution
//! against the defaults of a [`GenerationConfig`].
use vstd::prelude::*;
use crate::text::{
    any_prefix, any_starts, any_ends, any_suffix, str_eq, views,
};

verus! {

/// Representation of string columns in `Create*` and `Update*` structs.
#[derive(Debug, Clone, Copy, PartialEq, Eq, Structural)]
pub enum StringType {
    /// Owned `String`
    String,
    /// Borrowed `&'a str`
    Str,
    /// Copy-on-write `Cow<'a, str>`
    Cow,
}

impl StringType {
    pub open spec fn text(&self) -> Seq<char> {
        match self {
            StringType::String => "String"@,
            StringType::Str => "&'a str"@,
            StringType::Cow => "Cow<'a, str>"@,
        }
    }

    pub open spec fn lifetime(&self) -> Seq<char> {
        match self {
            StringType::String => ""@,
            StringType::Str => "'a"@,
            StringType::Cow => "'a"@,
        }
    }

    /// The Rust type written for this representation.
    pub fn as_str(&self) -> (r: &'static str)
        ensures
            r@ == self.text(),
    {
        match self {
            StringType::String => "String",
            StringType::Str => "&'a str",
            StringType::Cow => "Cow<'a, str>",
        }
    }

    /// The lifetime the struct needs for this representation, empty if none.
    pub fn get_lifetime(&self) -> (r: &'static str)
        ensures
            r@ == self.lifetime(),
    {
        match self {
            StringType::String => "",
            StringType::Str => "'a",
            StringType::Cow => "'a",
        }
    }
}

/// Representation of binary columns in `Create*` and `Update*` structs.
#[derive(Debug, Clone, Copy, PartialEq, Eq, Structural)]
pub enum BytesType {
    /// Owned `Vec<u8>`
    Vec,
    /// Borrowed `&'a [u8]`
    Slice,
    /// Copy-on-write `Cow<'a, [u8]>`
    Cow,
}

impl BytesType {
    pub open spec fn text(&self) -> Seq<char> {
        match self {
            BytesType::Vec => "Vec<u8>"@,
            BytesType::Slice => "&'a [u8]"@,
            BytesType::Cow => "Cow<'a, [u8]>"@,
        }
    }

    pub open spec fn lifetime(&self) -> Seq<char> {
        match self {
            BytesType::Vec => ""@,
            BytesType::Slice => "'a"@,
            BytesType::Cow => "'a"@,
        }
    }

    /// The Rust type written for this representation.
    pub fn as_str(&self) -> (r: &'static str)
        ensures
            r@ == self.text(),
    {
        match self {
            BytesType::Vec => "Vec<u8>",
            BytesType::Slice => "&'a [u8]",
            BytesType::Cow => "Cow<'a, [u8]>",
        }
    }

    /// The lifetime the struct needs for this representation, empty if none.
    pub fn get_lifetime(&self) -> (r: &'static str)
        ensures
            r@ == self.lifetime(),
    {
        match self {
            BytesType::Vec => "",
            BytesType::Slice => "'a",
            BytesType::Cow => "'a",
        }
    }
}

pub open spec fn flag_or(a: Option<bool>, d: bool) -> bool {
    match a {
        Some(b) => b,
        None => d,
    }
}

pub open spec fn first_some<T>(a: Option<T>, b: Option<T>) -> Option<T> {
    match a {
        Some(x) => Some(x),
        None => b,
    }
}

pub open spec fn opt_views(a: Option<Vec<String>>) -> Option<Seq<Seq<char>>> {
    match a {
        Some(v) => Some(views(v@)),
        None => None,
    }
}

/// A copy of `v` with the same strings.
pub fn clone_strings(v: &Vec<String>) -> (r: Vec<String>)
    ensures
        r@ == v@,
{
    let mut out: Vec<String> = Vec::new();
    let mut i: usize = 0;
    while i < v.len()
        invariant
            i <= v@.len(),
            out@ == v@.subrange(0, i as int),
        decreases v@.len() - i,
    {
        out.push(v[i].clone());
        assert(out@ =~= v@.subrange(0, i + 1));
        i = i + 1;
    }
    assert(out@ =~= v@);
    out
}

fn clone_opt_strings(v: &Option<Vec<String>>) -> (r: Option<Vec<String>>)
    ensures
        opt_views(r) == opt_views(*v),
{
    match v {
        Some(x) => Some(clone_strings(x)),
        None => None,
    }
}

/// The resolved values of a table's options: each unset field replaced by
/// its built-in default.
pub ghost struct OptionsView {
    pub autogen: Seq<Seq<char>>,
    pub tsync: bool,
    pub use_async: bool,
    pub serde: bool,
    pub fns: bool,
    pub single_model_file: bool,
    pub queryable_by_name: bool,
    pub readonly: bool,
    pub create_str: StringType,
    pub update_str: StringType,
    pub create_bytes: BytesType,
    pub update_bytes: BytesType,
}

/// Options of one table. Every field left `None` falls back to the default
/// options of the configuration, and then to the built-in default that the
/// getters name.
#[derive(Debug)]
pub struct TableOptions {
    /// Column names whose values the database assigns; they are left out of `Create*`
    pub autogenerated_columns: Option<Vec<String>>,
    /// Add the `#[tsync::tsync]` attribute (default: off)
    pub tsync: Option<bool>,
    /// Generate `async` functions (default: off)
    pub use_async: Option<bool>,
    /// Derive serde's traits (default: on)
    pub serde: Option<bool>,
    /// Generate the CRUD functions (default: on)
    pub fns: Option<bool>,
    /// Write one `<table>.rs` instead of a directory (default: off)
    pub single_model_file: Option<bool>,
    /// Derive `diesel::QueryableByName` on the `Read` struct (default: off)
    pub queryable_by_name: Option<bool>,
    /// Generate only what reads (default: off)
    pub read_only: Option<bool>,
    pub create_str_type: Option<StringType>,
    pub update_str_type: Option<StringType>,
    pub create_bytes_type: Option<BytesType>,
    pub update_bytes_type: Option<BytesType>,
}

impl View for TableOptions {
    type V = OptionsView;

    open spec fn view(&self) -> OptionsView {
        OptionsView {
            autogen: self.autogen(),
            tsync: self.tsync_on(),
            use_async: self.async_on(),
            serde: self.serde_on(),
            fns: self.fns_on(),
            single_model_file: self.single_file_on(),
            queryable_by_name: flag_or(self.queryable_by_name, false),
            readonly: self.readonly_on(),
            create_str: self.create_str(),
            update_str: self.update_str(),
            create_bytes: self.create_bytes(),
            update_bytes: self.update_bytes(),
        }
    }
}

impl TableOptions {
    pub open spec fn autogen(&self) -> Seq<Seq<char>> {
        match self.autogenerated_columns {
            Some(v) => views(v@),
            None => Seq::empty(),
        }
    }

    pub open spec fn tsync_on(&self) -> bool {
        flag_or(self.tsync, false)
    }

    pub open spec fn async_on(&self) -> bool {
        flag_or(self.use_async, false)
    }

    pub open spec fn serde_on(&self) -> bool {
        flag_or(self.serde, true)
    }

    pub open spec fn fns_on(&self) -> bool {
        flag_or(self.fns, true)
    }

    pub open spec fn single_file_on(&self) -> bool {
        flag_or(self.single_model_file, false)
    }

    pub open spec fn readonly_on(&self) -> bool {
        flag_or(self.read_only, false)
    }

    pub open spec fn create_str(&self) -> StringType {
        match self.create_str_type {
            Some(t) => t,
            None => StringType::String,
        }
    }

    pub open spec fn update_str(&self) -> StringType {
        match self.update_str_type {
            Some(t) => t,
            None => StringType::String,
        }
    }

    pub open spec fn create_bytes(&self) -> BytesType {
        match self.create_bytes_type {
            Some(t) => t,
            None => BytesType::Vec,
        }
    }

    pub open spec fn update_bytes(&self) -> BytesType {
        match self.update_bytes_type {
            Some(t) => t,
            None => BytesType::Vec,
        }
    }

    /// Same options: equal fields, autogenerated columns compared by text.
    pub open spec fn same(&self, o: TableOptions) -> bool {
        &&& opt_views(self.autogenerated_columns) == opt_views(o.autogenerated_columns)
        &&& self.tsync == o.tsync
        &&& self.use_async == o.use_async
        &&& self.serde == o.serde
        &&& self.fns == o.fns
        &&& self.single_model_file == o.single_model_file
        &&& self.queryable_by_name == o.queryable_by_name
        &&& self.read_only == o.read_only
        &&& self.create_str_type == o.create_str_type
        &&& self.update_str_type == o.update_str_type
        &&& self.create_bytes_type == o.create_bytes_type
        &&& self.update_bytes_type == o.update_bytes_type
    }

    /// Each field of `self`, or the one of `d` where `self` leaves it unset.
    pub open spec fn with_defaults(self, d: TableOptions) -> TableOptions {
        TableOptions {
            autogenerated_columns: first_some(self.autogenerated_columns, d.autogenerated_columns),
            tsync: first_some(self.tsync, d.tsync),
            use_async: first_some(self.use_async, d.use_async),
            serde: first_some(self.serde, d.serde),
            fns: first_some(self.fns, d.fns),
            single_model_file: first_some(self.single_model_file, d.single_model_file),
            queryable_by_name: first_some(self.queryable_by_name, d.queryable_by_name),
            read_only: first_some(self.read_only, d.read_only),
            create_str_type: first_some(self.create_str_type, d.create_str_type),
            update_str_type: first_some(self.update_str_type, d.update_str_type),
            create_bytes_type: first_some(self.create_bytes_type, d.create_bytes_type),
            update_bytes_type: first_some(self.update_bytes_type, d.update_bytes_type),
        }
    }

    /// Options with every field unset.
    pub fn new() -> (r: TableOptions)
        ensures
            r.autogenerated_columns is None,
            r.tsync is None,
            r.use_async is None,
            r.serde is None,
            r.fns is None,
            r.single_model_file is None,
            r.queryable_by_name is None,
            r.read_only is None,
            r.create_str_type is None,
            r.update_str_type is None,
            r.create_bytes_type is None,
            r.update_bytes_type is None,
    {
        TableOptions {
            autogenerated_columns: None,
            tsync: None,
            use_async: None,
            serde: None,
            fns: None,
            single_model_file: None,
            queryable_by_name: None,
            read_only: None,
            create_str_type: None,
            update_str_type: None,
            create_bytes_type: None,
            update_bytes_type: None,
        }
    }

    /// A copy of these options.
    pub fn duplicate(&self) -> (r: TableOptions)
        ensures
            r.same(*self),
    {
        TableOptions {
            autogenerated_columns: clone_opt_strings(&self.autogenerated_columns),
            tsync: self.tsync,
            use_async: self.use_async,
            serde: self.serde,
            fns: self.fns,
            single_model_file: self.single_model_file,
            queryable_by_name: self.queryable_by_name,
            read_only: self.read_only,
            create_str_type: self.create_str_type,
            update_str_type: self.update_str_type,
            create_bytes_type: self.create_bytes_type,
            update_bytes_type: self.update_bytes_type,
        }
    }

    /// Fill every unset field from `defaults`.
    pub fn apply_defaults(&self, defaults: &TableOptions) -> (r: TableOptions)
        ensures
            r.same(self.with_defaults(*defaults)),
    {
        let ac = if self.autogenerated_columns.is_some() {
            clone_opt_strings(&self.autogenerated_columns)
        } else {
            clone_opt_strings(&defaults.autogenerated_columns)
        };
        TableOptions {
            autogenerated_columns: ac,
            tsync: if self.tsync.is_some() { self.tsync } else { defaults.tsync },
            use_async: if self.use_async.is_some() { self.use_async } else { defaults.use_async },
            serde: if self.serde.is_some() { self.serde } else { defaults.serde },
            fns: if self.fns.is_some() { self.fns } else { defaults.fns },
            single_model_file: if self.single_model_file.is_some() {
                self.single_model_file
            } else {
                defaults.single_model_file
            },
            queryable_by_name: if self.queryable_by_name.is_some() {
                self.queryable_by_name
            } else {
                defaults.queryable_by_name
            },
            read_only: if self.read_only.is_some() { self.read_only } else { defaults.read_only },
            create_str_type: if self.create_str_type.is_some() {
                self.create_str_type
            } else {
                defaults.create_str_type
            },
            update_str_type: if self.update_str_type.is_some() {
                self.update_str_type
            } else {
                defaults.update_str_type
            },
            create_bytes_type: if self.create_bytes_type.is_some() {
                self.create_bytes_type
            } else {
                defaults.create_bytes_type
            },
            update_bytes_type: if self.update_bytes_type.is_some() {
                self.update_bytes_type
            } else {
                defaults.update_bytes_type
            },
        }
    }

    /// The resolved `autogenerated_columns` option.
    pub fn get_autogenerated_columns(&self) -> (r: Vec<String>)
        ensures
            views(r@) == self.autogen(),
    {
        match &self.autogenerated_columns {
            Some(v) => clone_strings(v),
            None => Vec::new(),
        }
    }

    /// The resolved `tsync` option.
    pub fn get_tsync(&self) -> (r: bool)
        ensures
            r == self.tsync_on(),
    {
        match self.tsync {
            Some(b) => b,
            None => false,
        }
    }

    /// The resolved `async` option.
    pub fn get_async(&self) -> (r: bool)
        ensures
            r == self.async_on(),
    {
        match self.use_async {
            Some(b) => b,
            None => false,
        }
    }

    /// The resolved `serde` option.
    pub fn get_serde(&self) -> (r: bool)
        ensures
            r == self.serde_on(),
    {
        match self.serde {
            Some(b) => b,
            None => true,
        }
    }

    /// The resolved `fns` option.
    pub fn get_fns(&self) -> (r: bool)
        ensures
            r == self.fns_on(),
    {
        match self.fns {
            Some(b) => b,
            None => true,
        }
    }

    /// The resolved `single_model_file` option.
    pub fn get_single_model_file(&self) -> (r: bool)
        ensures
            r == self.single_file_on(),
    {
        match self.single_model_file {
            Some(b) => b,
            None => false,
        }
    }

    /// The resolved `queryable_by_name` option.
    pub fn get_queryable_by_name(&self) -> (r: bool)
        ensures
            r == self@.queryable_by_name,
    {
        match self.queryable_by_name {
            Some(b) => b,
            None => false,
        }
    }

    /// The resolved `readonly` option.
    pub fn get_readonly(&self) -> (r: bool)
        ensures
            r == self.readonly_on(),
    {
        match self.read_only {
            Some(b) => b,
            None => false,
        }
    }

    /// The resolved `create_str_type` option.
    pub fn get_create_str_type(&self) -> (r: StringType)
        ensures
            r == self.create_str(),
    {
        match self.create_str_type {
            Some(t) => t,
            None => StringType::String,
        }
    }

    /// The resolved `update_str_type` option.
    pub fn get_update_str_type(&self) -> (r: StringType)
        ensures
            r == self.update_str(),
    {
        match self.update_str_type {
            Some(t) => t,
            None => StringType::String,
        }
    }

    /// The resolved `create_bytes_type` option.
    pub fn get_create_bytes_type(&self) -> (r: BytesType)
        ensures
            r == self.create_bytes(),
    {
        match self.create_bytes_type {
            Some(t) => t,
            None => BytesType::Vec,
        }
    }

    /// The resolved `update_bytes_type` option.
    pub fn get_update_bytes_type(&self) -> (r: BytesType)
        ensures
            r == self.update_bytes(),
    {
        match self.update_bytes_type {
            Some(t) => t,
            None => BytesType::Vec,
        }
    }
}

/// Options that hold for the whole run.
pub struct GenerationConfigOpts {
    /// Overrides keyed by table name. Names need not be unique: the first
    /// entry for a name counts and later ones are never read
    pub table_options: Vec<(String, TableOptions)>,
    /// Options of every table, where no override sets a field
    pub default_table_options: TableOptions,
    /// Path of the schema module, with a trailing `::`
    pub schema_path: String,
    /// Path of the models module, with a trailing `::`
    pub model_path: String,
    /// Emit the common structs once, in `common.rs`
    pub once_common_structs: bool,
    /// Emit the connection type once, in `common.rs`
    pub once_connection_type: bool,
    /// A table whose name starts with one of these is read-only
    pub readonly_prefixes: Vec<String>,
    /// A table whose name ends with one of these is read-only
    pub readonly_suffixes: Vec<String>,
    /// Emit `impl Default` for the `Read` and `Create*` structs
    pub default_impl: bool,
    /// Emit `paginate`, `filter` and the filter struct
    pub advanced_queries: bool,
}

/// Everything the generator is configured with.
pub struct GenerationConfig {
    /// Rust type of a connection, written into `ConnectionType`
    pub connection_type: String,
    /// Diesel backend type named by the `filter` helper
    pub diesel_backend: String,
    pub options: GenerationConfigOpts,
}

/// The options of the first entry named `name`, if any.
pub open spec fn find_override(
    v: Seq<(String, TableOptions)>,
    name: Seq<char>,
) -> Option<TableOptions>
    decreases v.len(),
{
    if v.len() == 0 {
        None
    } else if v[0].0@ == name {
        Some(v[0].1)
    } else {
        find_override(v.subrange(1, v.len() as int), name)
    }
}

impl GenerationConfig {
    /// Whether the table name makes the table read-only.
    pub open spec fn readonly_name(&self, name: Seq<char>) -> bool {
        any_prefix(views(self.options.readonly_prefixes@), name)
            || any_suffix(views(self.options.readonly_suffixes@), name)
    }

    /// The options given for the table before the defaults are applied.
    pub open spec fn given_for(&self, name: Seq<char>) -> TableOptions {
        match find_override(self.options.table_options@, name) {
            Some(o) => o,
            None => self.options.default_table_options,
        }
    }

    /// The resolved options of table `name`.
    pub open spec fn options_for(&self, name: Seq<char>) -> TableOptions {
        let given = self.given_for(name);
        let marked = if self.readonly_name(name) {
            TableOptions { read_only: Some(true), ..given }
        } else {
            given
        };
        marked.with_defaults(self.options.default_table_options)
    }

    fn find_table_options(&self, name: &str) -> (r: Option<usize>)
        ensures
            match r {
                Some(i) => i < self.options.table_options@.len()
                    && find_override(self.options.table_options@, name@)
                        == Some(self.options.table_options@[i as int].1),
                None => find_override(self.options.table_options@, name@) is None,
            },
    {
        let ghost v = self.options.table_options@;
        let n = self.options.table_options.len();
        let mut i: usize = 0;
        assert(v.subrange(0, n as int) =~= v);
        while i < n
            invariant
                n == v.len(),
                v == self.options.table_options@,
                i <= n,
                find_override(v, name@) == find_override(v.subrange(i as int, n as int), name@),
            decreases n - i,
        {
            let ghost rest = v.subrange(i as int, n as int);
            assert(rest[0] == v[i as int]);
            assert(rest.subrange(1, rest.len() as int) =~= v.subrange(i + 1, n as int));
            if str_eq(self.options.table_options[i].0.as_str(), name) {
                return Some(i);
            }
            i = i + 1;
        }
        None
    }

    /// The resolved options of table `name`: its override, or else the
    /// default options; marked read-only where a configured prefix or suffix
    /// matches the name; with every field still unset taken from the defaults.
    pub fn table(&self, name: &str) -> (r: TableOptions)
        ensures
            r.same(self.options_for(name@)),
    {
        let found = self.find_table_options(name);
        let given = match found {
            Some(i) => self.options.table_options[i].1.duplicate(),
            None => self.options.default_table_options.duplicate(),
        };
        let marked = if any_starts(&self.options.readonly_prefixes, name)
            || any_ends(&self.options.readonly_suffixes, name) {
            TableOptions { read_only: Some(true), ..given }
        } else {
            given
        };
        marked.apply_defaults(&self.options.default_table_options)
    }

    /// Whether anything goes to the shared `common.rs`.
    pub fn any_once_option(&self) -> (r: bool)
        ensures
            r == (self.options.once_common_structs || self.options.once_connection_type),
    {
        self.options.once_common_structs || self.options.once_connection_type
    }
}

} // verus!

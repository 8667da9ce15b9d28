//! The command line options of the generator, as plain values, and the
//! configuration they stand for.
use vstd::prelude::*;
use crate::options::{clone_strings, GenerationConfig, GenerationConfigOpts, StringType, TableOptions};
use crate::text::views;

verus! {

/// The string representation chosen on the command line.
#[derive(Debug, Clone, Copy, PartialEq, Eq, Structural)]
pub enum StringTypeCli {
    /// Use `String`
    String,
    /// Use `&str`
    Str,
    /// Use `Cow<str>`
    Cow,
}

pub open spec fn string_type_of(v: StringTypeCli) -> StringType {
    match v {
        StringTypeCli::String => StringType::String,
        StringTypeCli::Str => StringType::Str,
        StringTypeCli::Cow => StringType::Cow,
    }
}

impl From<StringTypeCli> for StringType {
    fn from(value: StringTypeCli) -> (r: StringType) {
        match value {
            StringTypeCli::String => StringType::String,
            StringTypeCli::Str => StringType::Str,
            StringTypeCli::Cow => StringType::Cow,
        }
    }
}

impl vstd::std_specs::convert::FromSpecImpl<StringTypeCli> for StringType {
    open spec fn obeys_from_spec() -> bool {
        true
    }

    open spec fn from_spec(v: StringTypeCli) -> StringType {
        string_type_of(v)
    }
}

/// The options of a run of the generator.
#[derive(Debug)]
pub struct MainOptions {
    /// Input diesel schema file
    pub input: String,
    /// Output directory of the models
    pub output: String,
    /// Add the `#[tsync::tsync]` attribute to all structs
    pub tsync: bool,
    /// Generate `async` functions for `diesel_async`
    pub use_async: bool,
    /// Columns that the database fills in but that are not primary keys
    pub autogenerated_columns: Option<Vec<String>>,
    /// Rust type of a connection
    pub connection_type: String,
    /// Do not derive serde's traits
    pub no_serde: bool,
    /// Path of the schema module
    pub schema_path: String,
    /// Path of the models module
    pub model_path: String,
    /// Do not generate the CRUD functions
    pub no_crud: bool,
    /// String type of `Create*` structs
    pub create_str: StringTypeCli,
    /// String type of `Update*` structs
    pub update_str: StringTypeCli,
    /// One file per table instead of a directory
    pub single_model_file: bool,
    /// Generate the common structs once, in `common.rs`
    pub once_common_structs: bool,
    /// Generate the connection type once, in `common.rs`
    pub once_connection_type: bool,
    /// A table whose name starts with one of these is read-only
    pub readonly_prefixes: Vec<String>,
    /// A table whose name ends with one of these is read-only
    pub readonly_suffixes: Vec<String>,
    /// Generate `impl Default` blocks
    pub default_impl: bool,
    /// Generate `paginate`, `filter` and the filter struct
    pub advanced_queries: bool,
    /// Diesel backend named by the `filter` function
    pub diesel_backend: String,
}

pub open spec fn set_if(b: bool, v: bool) -> Option<bool> {
    if b {
        Some(v)
    } else {
        None
    }
}

impl MainOptions {
    /// `o` is the default table options these options stand for.
    pub open spec fn defaults_match(&self, o: TableOptions) -> bool {
        &&& o.autogenerated_columns is Some
        &&& views(o.autogenerated_columns->Some_0@) == match self.autogenerated_columns {
            Some(v) => views(v@),
            None => Seq::empty(),
        }
        &&& o.create_str_type == Some(string_type_of(self.create_str))
        &&& o.update_str_type == Some(string_type_of(self.update_str))
        &&& o.tsync == set_if(self.tsync, true)
        &&& o.use_async == set_if(self.use_async, true)
        &&& o.serde == set_if(self.no_serde, false)
        &&& o.fns == set_if(self.no_crud, false)
        &&& o.single_model_file == set_if(self.single_model_file, true)
        &&& o.read_only is None
        &&& o.queryable_by_name is None
        &&& o.create_bytes_type is None
        &&& o.update_bytes_type is None
    }

    /// The default table options these options stand for.
    pub fn table_defaults(&self) -> (r: TableOptions)
        ensures
            self.defaults_match(r),
    {
        let cols = match &self.autogenerated_columns {
            Some(v) => clone_strings(v),
            None => Vec::new(),
        };
        assert(views(cols@) =~= match self.autogenerated_columns {
            Some(v) => views(v@),
            None => Seq::empty(),
        });
        let mut o = TableOptions::new();
        o.autogenerated_columns = Some(cols);
        let cs = StringType::from(self.create_str);
        assert(cs == string_type_of(self.create_str));
        o.create_str_type = Some(cs);
        o.update_str_type = Some(StringType::from(self.update_str));
        if self.tsync {
            o.tsync = Some(true);
        }
        if self.use_async {
            o.use_async = Some(true);
        }
        if self.no_serde {
            o.serde = Some(false);
        }
        if self.no_crud {
            o.fns = Some(false);
        }
        if self.single_model_file {
            o.single_model_file = Some(true);
        }
        o
    }

    /// The configuration these options stand for: their table defaults, no
    /// per-table override, and the global settings as given.
    pub fn to_config(&self) -> (r: GenerationConfig)
        ensures
            self.defaults_match(r.options.default_table_options),
            r.options.table_options@.len() == 0,
            r.connection_type@ == self.connection_type@,
            r.diesel_backend@ == self.diesel_backend@,
            r.options.schema_path@ == self.schema_path@,
            r.options.model_path@ == self.model_path@,
            r.options.once_common_structs == self.once_common_structs,
            r.options.once_connection_type == self.once_connection_type,
            r.options.readonly_prefixes@ == self.readonly_prefixes@,
            r.options.readonly_suffixes@ == self.readonly_suffixes@,
            r.options.default_impl == self.default_impl,
            r.options.advanced_queries == self.advanced_queries,
    {
        let d = self.table_defaults();
        GenerationConfig {
            connection_type: self.connection_type.clone(),
            diesel_backend: self.diesel_backend.clone(),
            options: GenerationConfigOpts {
                table_options: Vec::new(),
                default_table_options: d,
                schema_path: self.schema_path.clone(),
                model_path: self.model_path.clone(),
                once_common_structs: self.once_common_structs,
                once_connection_type: self.once_connection_type,
                readonly_prefixes: clone_strings(&self.readonly_prefixes),
                readonly_suffixes: clone_strings(&self.readonly_suffixes),
                default_impl: self.default_impl,
                advanced_queries: self.advanced_queries,
            },
        }
    }
}

} // verus!

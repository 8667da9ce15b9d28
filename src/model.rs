//! The parsed schema: tables and their columns, and the fields that a
//! generated struct holds for a column.
use vstd::prelude::*;
use crate::text::{str_eq, views};

verus! {

/// One column of a `diesel::table!` block.
#[derive(Debug)]
pub struct ParsedColumnMacro {
    /// Rust type of the column, without `Option` or `Vec` (like `i32` or `String`)
    pub ty: String,
    /// Field name in Rust
    pub name: String,
    /// Column name in the database
    pub column_name: String,
    pub is_nullable: bool,
    pub is_unsigned: bool,
    pub is_array: bool,
}

/// One `diesel::table!` block.
#[derive(Debug)]
pub struct ParsedTableMacro {
    /// Table name
    pub name: String,
    /// Name of the generated `Read` struct
    pub struct_name: String,
    /// Primary key column names, in order
    pub primary_key_columns: Vec<String>,
    /// Foreign keys: (target table, local join column)
    pub foreign_keys: Vec<(String, String)>,
    pub columns: Vec<ParsedColumnMacro>,
}

impl ParsedTableMacro {
    pub open spec fn pk_names(&self) -> Seq<Seq<char>> {
        views(self.primary_key_columns@)
    }

    /// The primary key column names.
    pub fn primary_key_column_names(&self) -> (r: Vec<String>)
        ensures
            r@ == self.primary_key_columns@,
    {
        crate::options::clone_strings(&self.primary_key_columns)
    }
}

/// The three shapes of struct generated for a table.
#[derive(Debug, Clone, Copy, PartialEq, Eq, Structural)]
pub enum StructType {
    /// The `Read` struct: every column
    Read,
    /// The `Update*` struct: every column but the primary key, each wrapped in `Option`
    Update,
    /// The `Create*` struct: every column that is not autogenerated
    Create,
}

impl StructType {
    pub open spec fn prefix_spec(&self) -> Seq<char> {
        match self {
            StructType::Read => ""@,
            StructType::Update => "Update"@,
            StructType::Create => "Create"@,
        }
    }

    pub open spec fn suffix_spec(&self) -> Seq<char> {
        ""@
    }

    pub open spec fn format_spec(&self, name: Seq<char>) -> Seq<char> {
        self.prefix_spec() + name + self.suffix_spec()
    }

    /// Prefix of the struct name, like `Update` in `UpdateTodos`.
    pub fn prefix(&self) -> (r: &'static str)
        ensures
            r@ == self.prefix_spec(),
    {
        match self {
            StructType::Read => "",
            StructType::Update => "Update",
            StructType::Create => "Create",
        }
    }

    /// Suffix of the struct name.
    pub fn suffix(&self) -> (r: &'static str)
        ensures
            r@ == self.suffix_spec(),
    {
        ""
    }

    /// The struct name for a base name, like `UpdateTodos` for `Todos`.
    pub fn format(&self, name: &str) -> (r: String)
        ensures
            r@ == self.format_spec(name@),
    {
        let mut s = String::from_str(self.prefix());
        s.append(name);
        s.append(self.suffix());
        s
    }
}

/// The unsigned counterpart of a signed integer type of the same width:
/// the leading `i` becomes `u` (`i32` gives `u32`, `isize` gives `usize`);
/// a type that does not start with `i` is kept.
pub open spec fn unsigned_of(s: Seq<char>) -> Seq<char> {
    if s.len() > 0 && s[0] == 'i' {
        seq!['u'] + s.subrange(1, s.len() as int)
    } else {
        s
    }
}

/// Whether `t` names a Rust integer type.
pub open spec fn is_integer_type(t: Seq<char>) -> bool {
    t == "i8"@ || t == "u8"@ || t == "i16"@ || t == "u16"@ || t == "i32"@ || t == "u32"@
        || t == "i64"@ || t == "u64"@ || t == "i128"@ || t == "u128"@ || t == "isize"@
        || t == "usize"@
}

/// Whether `t` names a Rust integer type.
pub fn is_integer_name(t: &str) -> (r: bool)
    ensures
        r == is_integer_type(t@),
{
    str_eq(t, "i8") || str_eq(t, "u8") || str_eq(t, "i16") || str_eq(t, "u16") || str_eq(t, "i32")
        || str_eq(t, "u32") || str_eq(t, "i64") || str_eq(t, "u64") || str_eq(t, "i128")
        || str_eq(t, "u128") || str_eq(t, "isize") || str_eq(t, "usize")
}

/// The unsigned counterpart of an integer type name.
fn unsigned_name(s: &str) -> (r: String)
    ensures
        r@ == unsigned_of(s@),
{
    let n = s.unicode_len();
    if n > 0 && s.get_char(0) == 'i' {
        let mut out = String::from_str("u");
        proof {
            reveal_strlit("u");
        }
        out.append(s.substring_char(1, n));
        out
    } else {
        String::from_str(s)
    }
}

/// A field of a generated struct.
#[derive(Debug)]
pub struct StructField {
    /// Name of the field
    pub name: String,
    /// Column name in the database
    pub column_name: String,
    /// Base Rust type, like `String` or `i32` or `u32`
    pub base_type: String,
    /// The field is an `Option`
    pub is_optional: bool,
    /// The field is a `Vec`
    pub is_vec: bool,
}

/// The base type of a column: its type, made unsigned where it is an
/// integer type marked unsigned (`i32` becomes `u32`); any other type is
/// kept as it is.
pub open spec fn base_type_of(c: ParsedColumnMacro) -> Seq<char> {
    if c.is_unsigned && is_integer_type(c.ty@) {
        unsigned_of(c.ty@)
    } else {
        c.ty@
    }
}

/// The Rust type of a field: an array wraps as `Vec<Option<_>>`, then a
/// nullable one as `Option<_>`.
pub open spec fn rust_type_spec(base: Seq<char>, is_vec: bool, is_optional: bool) -> Seq<char> {
    let t = if is_vec {
        "Vec<Option<"@ + base + ">>"@
    } else {
        base
    };
    if is_optional {
        "Option<"@ + t + ">"@
    } else {
        t
    }
}

impl StructField {
    /// The field for a column.
    pub fn from_column(c: &ParsedColumnMacro) -> (r: StructField)
        ensures
            r.name@ == c.name@,
            r.column_name@ == c.column_name@,
            r.base_type@ == base_type_of(*c),
            r.is_optional == c.is_nullable,
            r.is_vec == c.is_array,
    {
        let base_type = if c.is_unsigned && is_integer_name(c.ty.as_str()) {
            unsigned_name(c.ty.as_str())
        } else {
            c.ty.clone()
        };
        StructField {
            name: c.name.clone(),
            column_name: c.column_name.clone(),
            base_type,
            is_optional: c.is_nullable,
            is_vec: c.is_array,
        }
    }

    /// The Rust type of the field, like `Option<String>`.
    pub fn to_rust_type(&self) -> (r: String)
        ensures
            r@ == rust_type_spec(self.base_type@, self.is_vec, self.is_optional),
    {
        rust_type_of(self.base_type.as_str(), self.is_vec, self.is_optional)
    }
}

/// The Rust type for a base type: arrays as `Vec<Option<_>>`, then nullable
/// ones as `Option<_>`.
pub fn rust_type_of(base: &str, is_vec: bool, is_optional: bool) -> (r: String)
    ensures
        r@ == rust_type_spec(base@, is_vec, is_optional),
{
    let t = if is_vec {
        let mut v = String::from_str("Vec<Option<");
        v.append(base);
        v.append(">>");
        v
    } else {
        String::from_str(base)
    };
    if is_optional {
        let mut o = String::from_str("Option<");
        o.append(t.as_str());
        o.append(">");
        o
    } else {
        t
    }
}

} // verus!

//! Parsing `diesel::table!` and `diesel::joinable!` blocks of a diesel
//! schema into tables.
use vstd::prelude::*;
use crate::lexer::{lex, lex_spec, tokens_view, Token, TokenKind, TokenView};
use crate::model::{ParsedColumnMacro, ParsedTableMacro};
use crate::naming::{pascal_of, to_pascal_case};
use crate::text::str_eq;

verus! {

/// What went wrong while parsing.
#[derive(Debug, Clone, Copy, PartialEq, Eq, Structural)]
pub enum ParseErrorKind {
    /// An identifier was expected
    ExpectedIdent,
    /// This punctuation character was expected
    ExpectedPunct(char),
    /// A SQL type name that has no Rust type
    UnknownType,
    /// The text ended inside a block or an attribute
    Unterminated,
}

/// A parse error and the character offset where it was found.
#[derive(Debug, Clone, Copy, PartialEq, Eq, Structural)]
pub struct ParseError {
    pub kind: ParseErrorKind,
    pub offset: usize,
}

/// A parse error at a token index.
pub type PErr = (ParseErrorKind, int);

pub ghost struct TypeSpec {
    pub base: Seq<char>,
    pub nullable: bool,
    pub array: bool,
    pub unsigned: bool,
}

pub ghost struct ColumnSpec {
    pub name: Seq<char>,
    pub column_name: Seq<char>,
    pub ty: Seq<char>,
    pub nullable: bool,
    pub unsigned: bool,
    pub array: bool,
}

pub ghost struct TableSpec {
    pub name: Seq<char>,
    pub pks: Seq<Seq<char>>,
    pub columns: Seq<ColumnSpec>,
}

/// A `joinable!` line: child table, parent table, join column.
pub type JoinSpec = (Seq<char>, Seq<char>, Seq<char>);

pub open spec fn ident_at(ts: Seq<TokenView>, p: int) -> bool {
    0 <= p < ts.len() && ts[p].0 == TokenKind::Ident
}

pub open spec fn word_at(ts: Seq<TokenView>, p: int, w: Seq<char>) -> bool {
    ident_at(ts, p) && ts[p].1 == w
}

pub open spec fn punct_at(ts: Seq<TokenView>, p: int, c: char) -> bool {
    0 <= p < ts.len() && ts[p].0 == TokenKind::Punct && ts[p].1 == seq![c]
}

pub open spec fn str_at(ts: Seq<TokenView>, p: int) -> bool {
    0 <= p < ts.len() && ts[p].0 == TokenKind::Str
}

fn is_ident(ts: &Vec<Token>, p: usize) -> (r: bool)
    ensures
        r == ident_at(tokens_view(ts@), p as int),
{
    p < ts.len() && ts[p].kind == TokenKind::Ident
}

fn is_word(ts: &Vec<Token>, p: usize, w: &str) -> (r: bool)
    ensures
        r == word_at(tokens_view(ts@), p as int, w@),
{
    p < ts.len() && ts[p].kind == TokenKind::Ident && str_eq(ts[p].text.as_str(), w)
}

fn is_punct(ts: &Vec<Token>, p: usize, c: char) -> (r: bool)
    ensures
        r == punct_at(tokens_view(ts@), p as int, c),
{
    if p < ts.len() && ts[p].kind == TokenKind::Punct && ts[p].text.as_str().unicode_len() == 1 {
        let d = ts[p].text.as_str().get_char(0);
        if d == c {
            assert(ts@[p as int].text@ =~= seq![c]);
            true
        } else {
            assert(ts@[p as int].text@[0] != seq![c][0]);
            false
        }
    } else {
        false
    }
}

fn is_str(ts: &Vec<Token>, p: usize) -> (r: bool)
    ensures
        r == str_at(tokens_view(ts@), p as int),
{
    p < ts.len() && ts[p].kind == TokenKind::Str
}

fn text_of(ts: &Vec<Token>, p: usize) -> (r: String)
    requires
        p < ts@.len(),
    ensures
        r@ == tokens_view(ts@)[p as int].1,
{
    ts[p].text.clone()
}

/// The Rust type of a diesel SQL type name, if the name is known.
pub open spec fn rust_type_for(t: Seq<char>) -> Option<Seq<char>> {
    if t == "Int2"@ || t == "SmallInt"@ || t == "Smallint"@ || t == "SmallSerial"@ {
        Some("i16"@)
    } else if t == "Int4"@ || t == "Integer"@ || t == "Int"@ || t == "Serial"@ {
        Some("i32"@)
    } else if t == "Int8"@ || t == "BigInt"@ || t == "Bigint"@ || t == "BigSerial"@ {
        Some("i64"@)
    } else if t == "TinyInt"@ || t == "Tinyint"@ {
        Some("i8"@)
    } else if t == "Oid"@ {
        Some("u32"@)
    } else if t == "Numeric"@ || t == "Decimal"@ {
        Some("bigdecimal::BigDecimal"@)
    } else if t == "Text"@
        || t == "Varchar"@
        || t == "VarChar"@
        || t == "Char"@
        || t == "Bpchar"@
        || t == "Citext"@
        || t == "TinyText"@
        || t == "MediumText"@
        || t == "LongText"@ {
        Some("String"@)
    } else if t == "Bytea"@
        || t == "Binary"@
        || t == "Varbinary"@
        || t == "Blob"@
        || t == "TinyBlob"@
        || t == "MediumBlob"@
        || t == "LongBlob"@
        || t == "Bit"@ {
        Some("Vec<u8>"@)
    } else if t == "Bool"@ || t == "Boolean"@ {
        Some("bool"@)
    } else if t == "Float4"@ || t == "Float"@ || t == "Real"@ {
        Some("f32"@)
    } else if t == "Float8"@ || t == "Double"@ {
        Some("f64"@)
    } else if t == "Json"@ || t == "Jsonb"@ {
        Some("serde_json::Value"@)
    } else if t == "Date"@ {
        Some("chrono::NaiveDate"@)
    } else if t == "Time"@ {
        Some("chrono::NaiveTime"@)
    } else if t == "Timestamp"@ || t == "Datetime"@ {
        Some("chrono::NaiveDateTime"@)
    } else if t == "Timestamptz"@ {
        Some("chrono::DateTime<chrono::Utc>"@)
    } else if t == "Uuid"@ {
        Some("uuid::Uuid"@)
    } else if t == "Interval"@ {
        Some("diesel::pg::data_types::PgInterval"@)
    } else if t == "Inet"@ || t == "Cidr"@ {
        Some("ipnetwork::IpNetwork"@)
    } else {
        None
    }
}

/// The Rust type of a diesel SQL type name, if the name is known.
pub fn map_sql_type(t: &str) -> (r: Option<&'static str>)
    ensures
        match r {
            Some(s) => rust_type_for(t@) == Some(s@),
            None => rust_type_for(t@) is None,
        },
{
    if str_eq(t, "Int2")
        || str_eq(t, "SmallInt")
        || str_eq(t, "Smallint")
        || str_eq(t, "SmallSerial") {
        Some("i16")
    } else if str_eq(t, "Int4") || str_eq(t, "Integer") || str_eq(t, "Int") || str_eq(t, "Serial") {
        Some("i32")
    } else if str_eq(t, "Int8")
        || str_eq(t, "BigInt")
        || str_eq(t, "Bigint")
        || str_eq(t, "BigSerial") {
        Some("i64")
    } else if str_eq(t, "TinyInt") || str_eq(t, "Tinyint") {
        Some("i8")
    } else if str_eq(t, "Oid") {
        Some("u32")
    } else if str_eq(t, "Numeric") || str_eq(t, "Decimal") {
        Some("bigdecimal::BigDecimal")
    } else if str_eq(t, "Text")
        || str_eq(t, "Varchar")
        || str_eq(t, "VarChar")
        || str_eq(t, "Char")
        || str_eq(t, "Bpchar")
        || str_eq(t, "Citext")
        || str_eq(t, "TinyText")
        || str_eq(t, "MediumText")
        || str_eq(t, "LongText") {
        Some("String")
    } else if str_eq(t, "Bytea")
        || str_eq(t, "Binary")
        || str_eq(t, "Varbinary")
        || str_eq(t, "Blob")
        || str_eq(t, "TinyBlob")
        || str_eq(t, "MediumBlob")
        || str_eq(t, "LongBlob")
        || str_eq(t, "Bit") {
        Some("Vec<u8>")
    } else if str_eq(t, "Bool") || str_eq(t, "Boolean") {
        Some("bool")
    } else if str_eq(t, "Float4") || str_eq(t, "Float") || str_eq(t, "Real") {
        Some("f32")
    } else if str_eq(t, "Float8") || str_eq(t, "Double") {
        Some("f64")
    } else if str_eq(t, "Json") || str_eq(t, "Jsonb") {
        Some("serde_json::Value")
    } else if str_eq(t, "Date") {
        Some("chrono::NaiveDate")
    } else if str_eq(t, "Time") {
        Some("chrono::NaiveTime")
    } else if str_eq(t, "Timestamp") || str_eq(t, "Datetime") {
        Some("chrono::NaiveDateTime")
    } else if str_eq(t, "Timestamptz") {
        Some("chrono::DateTime<chrono::Utc>")
    } else if str_eq(t, "Uuid") {
        Some("uuid::Uuid")
    } else if str_eq(t, "Interval") {
        Some("diesel::pg::data_types::PgInterval")
    } else if str_eq(t, "Inet") || str_eq(t, "Cidr") {
        Some("ipnetwork::IpNetwork")
    } else {
        None
    }
}


/// Where a path `a::b::c` that starts at `p` has its last segment.
pub open spec fn path_last(ts: Seq<TokenView>, p: int) -> int
    decreases ts.len() - p,
{
    if p >= 0 && punct_at(ts, p + 1, ':') && punct_at(ts, p + 2, ':') && ident_at(ts, p + 3) {
        path_last(ts, p + 3)
    } else {
        p
    }
}

pub open spec fn is_wrapper(w: Seq<char>) -> bool {
    w == "Nullable"@ || w == "Array"@ || w == "Unsigned"@
}

/// A type with a `Nullable`, `Array` or `Unsigned` wrapper around `t`.
pub open spec fn wrap_type(w: Seq<char>, t: TypeSpec) -> TypeSpec {
    if w == "Nullable"@ {
        TypeSpec { nullable: true, ..t }
    } else if w == "Array"@ {
        TypeSpec { nullable: false, array: true, ..t }
    } else {
        TypeSpec { unsigned: true, ..t }
    }
}

/// The column type that starts at token `p`, and where it ends.
pub open spec fn parse_type_spec(ts: Seq<TokenView>, p: int) -> Result<(TypeSpec, int), PErr>
    decreases ts.len() - p,
{
    if !ident_at(ts, p) {
        Err((ParseErrorKind::ExpectedIdent, p))
    } else if is_wrapper(ts[p].1) {
        if !punct_at(ts, p + 1, '<') {
            Err((ParseErrorKind::ExpectedPunct('<'), p + 1))
        } else {
            match parse_type_spec(ts, p + 2) {
                Err(e) => Err(e),
                Ok((t, q)) => if punct_at(ts, q, '>') {
                    Ok((wrap_type(ts[p].1, t), q + 1))
                } else {
                    Err((ParseErrorKind::ExpectedPunct('>'), q))
                },
            }
        }
    } else {
        let l = path_last(ts, p);
        match rust_type_for(ts[l].1) {
            Some(r) => Ok((TypeSpec { base: r, nullable: false, array: false, unsigned: false }, l + 1)),
            None => Err((ParseErrorKind::UnknownType, l)),
        }
    }
}

/// A column type.
pub struct SqlType {
    pub base: String,
    pub nullable: bool,
    pub array: bool,
    pub unsigned: bool,
}

pub open spec fn type_view(t: SqlType) -> TypeSpec {
    TypeSpec { base: t.base@, nullable: t.nullable, array: t.array, unsigned: t.unsigned }
}

pub open spec fn err_view(e: (ParseErrorKind, usize)) -> PErr {
    (e.0, e.1 as int)
}

pub open spec fn type_res(
    r: Result<(SqlType, usize), (ParseErrorKind, usize)>,
) -> Result<(TypeSpec, int), PErr> {
    match r {
        Ok((t, q)) => Ok((type_view(t), q as int)),
        Err(e) => Err(err_view(e)),
    }
}

fn find_path_last(ts: &Vec<Token>, p: usize) -> (r: usize)
    requires
        p < ts@.len(),
        ts@.len() < usize::MAX,
    ensures
        r as int == path_last(tokens_view(ts@), p as int),
        r < ts@.len(),
    decreases ts@.len() - p,
{
    if ts.len() >= 3 && p < ts.len() - 3 && is_punct(ts, p + 1, ':') && is_punct(ts, p + 2, ':') && is_ident(ts, p + 3) {
        find_path_last(ts, p + 3)
    } else {
        p
    }
}

/// The column type that starts at token `p`, and where it ends.
pub fn parse_type(
    ts: &Vec<Token>,
    p: usize,
) -> (r: Result<(SqlType, usize), (ParseErrorKind, usize)>)
    requires
        ts@.len() < usize::MAX,
    ensures
        type_res(r) == parse_type_spec(tokens_view(ts@), p as int),
        r is Ok ==> r->Ok_0.1 <= ts@.len(),
    decreases ts@.len() - p,
{
    if !is_ident(ts, p) {
        return Err((ParseErrorKind::ExpectedIdent, p));
    }
    let w = ts[p].text.as_str();
    if str_eq(w, "Nullable") || str_eq(w, "Array") || str_eq(w, "Unsigned") {
        if !is_punct(ts, p + 1, '<') {
            return Err((ParseErrorKind::ExpectedPunct('<'), p + 1));
        }
        match parse_type(ts, p + 2) {
            Err(e) => Err(e),
            Ok((t, q)) => {
                if is_punct(ts, q, '>') {
                    let t2 = if str_eq(w, "Nullable") {
                        SqlType { nullable: true, ..t }
                    } else if str_eq(w, "Array") {
                        SqlType { nullable: false, array: true, ..t }
                    } else {
                        SqlType { unsigned: true, ..t }
                    };
                    Ok((t2, q + 1))
                } else {
                    Err((ParseErrorKind::ExpectedPunct('>'), q))
                }
            },
        }
    } else {
        let l = find_path_last(ts, p);
        match map_sql_type(ts[l].text.as_str()) {
            Some(r) => {
                let t = SqlType { base: String::from_str(r), nullable: false, array: false, unsigned: false };
                Ok((t, l + 1))
            },
            None => Err((ParseErrorKind::UnknownType, l)),
        }
    }
}


/// The first `]` at or after token `i`, or the end.
pub open spec fn close_bracket(ts: Seq<TokenView>, i: int) -> int
    decreases ts.len() - i,
{
    if i < 0 || i >= ts.len() {
        ts.len() as int
    } else if punct_at(ts, i, ']') {
        i
    } else {
        close_bracket(ts, i + 1)
    }
}

/// The attributes `#[..]` that start at token `p`: the name that a
/// `#[sql_name = ".."]` among them gives, and where they end.
pub open spec fn parse_attrs_spec(
    ts: Seq<TokenView>,
    p: int,
) -> Result<(Option<Seq<char>>, int), PErr>
    decreases ts.len() - p,
{
    if p >= 0 && punct_at(ts, p, '#') && punct_at(ts, p + 1, '[') {
        let q = close_bracket(ts, p + 2);
        if q >= ts.len() || q + 1 <= p {
            Err((ParseErrorKind::Unterminated, p))
        } else {
            let this = if word_at(ts, p + 2, "sql_name"@) && punct_at(ts, p + 3, '=') && str_at(ts, p + 4) && q == p + 5 {
                Some(ts[p + 4].1)
            } else {
                None
            };
            match parse_attrs_spec(ts, q + 1) {
                Err(e) => Err(e),
                Ok((rest, r)) => Ok((if this is Some { this } else { rest }, r)),
            }
        }
    } else {
        Ok((None, p))
    }
}

fn find_close_bracket(ts: &Vec<Token>, i: usize) -> (r: usize)
    ensures
        r as int == close_bracket(tokens_view(ts@), i as int),
        r <= ts@.len(),
    decreases ts@.len() - i,
{
    if i >= ts.len() {
        ts.len()
    } else if is_punct(ts, i, ']') {
        i
    } else {
        find_close_bracket(ts, i + 1)
    }
}

pub open spec fn attrs_res(
    r: Result<(Option<String>, usize), (ParseErrorKind, usize)>,
) -> Result<(Option<Seq<char>>, int), PErr> {
    match r {
        Ok((Some(n), q)) => Ok((Some(n@), q as int)),
        Ok((None, q)) => Ok((None, q as int)),
        Err(e) => Err(err_view(e)),
    }
}

/// The attributes that start at token `p`, and where they end.
pub fn parse_attrs(
    ts: &Vec<Token>,
    p: usize,
) -> (r: Result<(Option<String>, usize), (ParseErrorKind, usize)>)
    requires
        ts@.len() < usize::MAX,
        p <= ts@.len(),
    ensures
        attrs_res(r) == parse_attrs_spec(tokens_view(ts@), p as int),
        r is Ok ==> r->Ok_0.1 <= ts@.len(),
    decreases ts@.len() - p,
{
    if is_punct(ts, p, '#') && is_punct(ts, p + 1, '[') {
        let q = find_close_bracket(ts, p + 2);
        if q >= ts.len() || q + 1 <= p {
            return Err((ParseErrorKind::Unterminated, p));
        }
        let this = if is_word(ts, p + 2, "sql_name") && is_punct(ts, p + 3, '=') && is_str(ts, p + 4) && q == p + 5 {
            Some(text_of(ts, p + 4))
        } else {
            None
        };
        match parse_attrs(ts, q + 1) {
            Err(e) => Err(e),
            Ok((rest, r)) => Ok((if this.is_some() { this } else { rest }, r)),
        }
    } else {
        Ok((None, p))
    }
}

/// The column declaration `name -> Type,` that starts at token `p` (after
/// its attributes), and where it ends; the comma may be left out before `}`.
pub open spec fn parse_column_spec(ts: Seq<TokenView>, p: int) -> Result<(ColumnSpec, int), PErr> {
    match parse_attrs_spec(ts, p) {
        Err(e) => Err(e),
        Ok((sql, p1)) => if !ident_at(ts, p1) {
            Err((ParseErrorKind::ExpectedIdent, p1))
        } else if !punct_at(ts, p1 + 1, '-') {
            Err((ParseErrorKind::ExpectedPunct('-'), p1 + 1))
        } else if !punct_at(ts, p1 + 2, '>') {
            Err((ParseErrorKind::ExpectedPunct('>'), p1 + 2))
        } else {
            match parse_type_spec(ts, p1 + 3) {
                Err(e) => Err(e),
                Ok((t, p2)) => {
                    let c = ColumnSpec {
                        name: ts[p1].1,
                        column_name: match sql {
                            Some(n) => n,
                            None => ts[p1].1,
                        },
                        ty: t.base,
                        nullable: t.nullable,
                        unsigned: t.unsigned,
                        array: t.array,
                    };
                    if punct_at(ts, p2, ',') {
                        Ok((c, p2 + 1))
                    } else if punct_at(ts, p2, '}') {
                        Ok((c, p2))
                    } else {
                        Err((ParseErrorKind::ExpectedPunct(','), p2))
                    }
                },
            }
        },
    }
}

pub open spec fn column_view(c: ParsedColumnMacro) -> ColumnSpec {
    ColumnSpec {
        name: c.name@,
        column_name: c.column_name@,
        ty: c.ty@,
        nullable: c.is_nullable,
        unsigned: c.is_unsigned,
        array: c.is_array,
    }
}

pub open spec fn columns_view(v: Seq<ParsedColumnMacro>) -> Seq<ColumnSpec> {
    v.map_values(|c: ParsedColumnMacro| column_view(c))
}

pub open spec fn column_res(
    r: Result<(ParsedColumnMacro, usize), (ParseErrorKind, usize)>,
) -> Result<(ColumnSpec, int), PErr> {
    match r {
        Ok((c, q)) => Ok((column_view(c), q as int)),
        Err(e) => Err(err_view(e)),
    }
}

/// The column declaration that starts at token `p`, and where it ends.
pub fn parse_column(
    ts: &Vec<Token>,
    p: usize,
) -> (r: Result<(ParsedColumnMacro, usize), (ParseErrorKind, usize)>)
    requires
        ts@.len() < usize::MAX,
        p <= ts@.len(),
    ensures
        column_res(r) == parse_column_spec(tokens_view(ts@), p as int),
        r is Ok ==> r->Ok_0.1 <= ts@.len(),
{
    let (sql, p1) = match parse_attrs(ts, p) {
        Err(e) => { return Err(e); },
        Ok(x) => x,
    };
    if !is_ident(ts, p1) {
        return Err((ParseErrorKind::ExpectedIdent, p1));
    }
    if !is_punct(ts, p1 + 1, '-') {
        return Err((ParseErrorKind::ExpectedPunct('-'), p1 + 1));
    }
    if !is_punct(ts, p1 + 2, '>') {
        return Err((ParseErrorKind::ExpectedPunct('>'), p1 + 2));
    }
    let (t, p2) = match parse_type(ts, p1 + 3) {
        Err(e) => { return Err(e); },
        Ok(x) => x,
    };
    let name = text_of(ts, p1);
    let column_name = match sql {
        Some(n) => n,
        None => text_of(ts, p1),
    };
    let c = ParsedColumnMacro {
        ty: t.base,
        name,
        column_name,
        is_nullable: t.nullable,
        is_unsigned: t.unsigned,
        is_array: t.array,
    };
    if is_punct(ts, p2, ',') {
        Ok((c, p2 + 1))
    } else if is_punct(ts, p2, '}') {
        Ok((c, p2))
    } else {
        Err((ParseErrorKind::ExpectedPunct(','), p2))
    }
}

/// The column declarations from token `p` up to and including the closing `}`.
pub open spec fn parse_columns_spec(
    ts: Seq<TokenView>,
    p: int,
) -> Result<(Seq<ColumnSpec>, int), PErr>
    decreases ts.len() - p,
{
    if p < 0 || p >= ts.len() {
        Err((ParseErrorKind::Unterminated, p))
    } else if punct_at(ts, p, '}') {
        Ok((Seq::empty(), p + 1))
    } else {
        match parse_column_spec(ts, p) {
            Err(e) => Err(e),
            Ok((c, q)) => if q <= p {
                Err((ParseErrorKind::Unterminated, p))
            } else {
                match parse_columns_spec(ts, q) {
                    Err(e) => Err(e),
                    Ok((rest, r)) => Ok((seq![c] + rest, r)),
                }
            },
        }
    }
}

pub open spec fn columns_res(
    r: Result<(Vec<ParsedColumnMacro>, usize), (ParseErrorKind, usize)>,
) -> Result<(Seq<ColumnSpec>, int), PErr> {
    match r {
        Ok((v, q)) => Ok((columns_view(v@), q as int)),
        Err(e) => Err(err_view(e)),
    }
}

/// The column declarations from token `p` up to and including the closing `}`.
pub fn parse_columns(
    ts: &Vec<Token>,
    p: usize,
) -> (r: Result<(Vec<ParsedColumnMacro>, usize), (ParseErrorKind, usize)>)
    requires
        ts@.len() < usize::MAX,
    ensures
        columns_res(r) == parse_columns_spec(tokens_view(ts@), p as int),
        r is Ok ==> r->Ok_0.1 <= ts@.len(),
    decreases ts@.len() - p,
{
    if p >= ts.len() {
        return Err((ParseErrorKind::Unterminated, p));
    }
    if is_punct(ts, p, '}') {
        let v: Vec<ParsedColumnMacro> = Vec::new();
        assert(columns_view(v@) =~= Seq::<ColumnSpec>::empty());
        return Ok((v, p + 1));
    }
    match parse_column(ts, p) {
        Err(e) => Err(e),
        Ok((c, q)) => {
            if q <= p {
                return Err((ParseErrorKind::Unterminated, p));
            }
            match parse_columns(ts, q) {
                Err(e) => Err(e),
                Ok((rest, r)) => {
                    let ghost cv = column_view(c);
                    let ghost rv = columns_view(rest@);
                    let mut v = rest;
                    v.insert(0, c);
                    assert(columns_view(v@) =~= seq![cv] + rv);
                    Ok((v, r))
                },
            }
        },
    }
}


/// The primary key names from token `p` (after the `(`) up to and
/// including the closing `)`.
pub open spec fn parse_keys_spec(ts: Seq<TokenView>, p: int) -> Result<(Seq<Seq<char>>, int), PErr>
    decreases ts.len() - p,
{
    if punct_at(ts, p, ')') {
        Ok((Seq::empty(), p + 1))
    } else if !ident_at(ts, p) {
        Err((ParseErrorKind::ExpectedIdent, p))
    } else if punct_at(ts, p + 1, ',') {
        match parse_keys_spec(ts, p + 2) {
            Err(e) => Err(e),
            Ok((rest, r)) => Ok((seq![ts[p].1] + rest, r)),
        }
    } else if punct_at(ts, p + 1, ')') {
        Ok((seq![ts[p].1], p + 2))
    } else {
        Err((ParseErrorKind::ExpectedPunct(')'), p + 1))
    }
}

pub open spec fn strings_view(v: Seq<String>) -> Seq<Seq<char>> {
    v.map_values(|s: String| s@)
}

pub open spec fn keys_res(
    r: Result<(Vec<String>, usize), (ParseErrorKind, usize)>,
) -> Result<(Seq<Seq<char>>, int), PErr> {
    match r {
        Ok((v, q)) => Ok((strings_view(v@), q as int)),
        Err(e) => Err(err_view(e)),
    }
}

/// The primary key names from token `p` up to and including the closing `)`.
pub fn parse_keys(
    ts: &Vec<Token>,
    p: usize,
) -> (r: Result<(Vec<String>, usize), (ParseErrorKind, usize)>)
    requires
        ts@.len() < usize::MAX,
    ensures
        keys_res(r) == parse_keys_spec(tokens_view(ts@), p as int),
        r is Ok ==> r->Ok_0.1 <= ts@.len(),
    decreases ts@.len() - p,
{
    if is_punct(ts, p, ')') {
        let v: Vec<String> = Vec::new();
        assert(strings_view(v@) =~= Seq::<Seq<char>>::empty());
        return Ok((v, p + 1));
    }
    if !is_ident(ts, p) {
        return Err((ParseErrorKind::ExpectedIdent, p));
    }
    let name = text_of(ts, p);
    if is_punct(ts, p + 1, ',') {
        match parse_keys(ts, p + 2) {
            Err(e) => Err(e),
            Ok((rest, r)) => {
                let ghost rv = strings_view(rest@);
                let ghost nv = name@;
                let mut v = rest;
                v.insert(0, name);
                assert(strings_view(v@) =~= seq![nv] + rv);
                Ok((v, r))
            },
        }
    } else if is_punct(ts, p + 1, ')') {
        let ghost nv = name@;
        let v = vec![name];
        assert(strings_view(v@) =~= seq![nv]);
        Ok((v, p + 2))
    } else {
        Err((ParseErrorKind::ExpectedPunct(')'), p + 1))
    }
}

/// The first `c` at or after token `i`, or the end.
pub open spec fn find_punct_spec(ts: Seq<TokenView>, i: int, c: char) -> int
    decreases ts.len() - i,
{
    if i < 0 || i >= ts.len() {
        ts.len() as int
    } else if punct_at(ts, i, c) {
        i
    } else {
        find_punct_spec(ts, i + 1, c)
    }
}

fn find_punct(ts: &Vec<Token>, i: usize, c: char) -> (r: usize)
    ensures
        r as int == find_punct_spec(tokens_view(ts@), i as int, c),
        r <= ts@.len(),
    decreases ts@.len() - i,
{
    if i >= ts.len() {
        ts.len()
    } else if is_punct(ts, i, c) {
        i
    } else {
        find_punct(ts, i + 1, c)
    }
}

/// Past the `use ..;` items that start at token `p`.
pub open spec fn skip_uses_spec(ts: Seq<TokenView>, p: int) -> Result<int, PErr>
    decreases ts.len() - p,
{
    if word_at(ts, p, "use"@) {
        let q = find_punct_spec(ts, p + 1, ';');
        if q >= ts.len() || q + 1 <= p {
            Err((ParseErrorKind::Unterminated, p))
        } else {
            skip_uses_spec(ts, q + 1)
        }
    } else {
        Ok(p)
    }
}

fn skip_uses(ts: &Vec<Token>, p: usize) -> (r: Result<usize, (ParseErrorKind, usize)>)
    requires
        ts@.len() < usize::MAX,
    ensures
        match r {
            Ok(q) => skip_uses_spec(tokens_view(ts@), p as int) == Ok::<int, PErr>(q as int),
            Err(e) => skip_uses_spec(tokens_view(ts@), p as int) == Err::<int, PErr>(err_view(e)),
        },
        r is Ok && p <= ts@.len() ==> r->Ok_0 <= ts@.len(),
    decreases ts@.len() - p,
{
    if is_word(ts, p, "use") {
        let q = find_punct(ts, p + 1, ';');
        if q >= ts.len() || q + 1 <= p {
            return Err((ParseErrorKind::Unterminated, p));
        }
        skip_uses(ts, q + 1)
    } else {
        Ok(p)
    }
}

/// The inside of a `table!` block, from token `p` (after its `{`) up to
/// and including its closing `}`. Without a key list the key is `id`.
pub open spec fn parse_table_spec(ts: Seq<TokenView>, p: int) -> Result<(TableSpec, int), PErr> {
    match skip_uses_spec(ts, p) {
        Err(e) => Err(e),
        Ok(p1) => match parse_attrs_spec(ts, p1) {
            Err(e) => Err(e),
            Ok((_, p2)) => if !ident_at(ts, p2) {
                Err((ParseErrorKind::ExpectedIdent, p2))
            } else {
                let qualified = punct_at(ts, p2 + 1, '.') && ident_at(ts, p2 + 2);
                let name = if qualified { ts[p2 + 2].1 } else { ts[p2].1 };
                let p3 = if qualified { p2 + 3 } else { p2 + 1 };
                let keys = if punct_at(ts, p3, '(') {
                    parse_keys_spec(ts, p3 + 1)
                } else {
                    Ok((seq!["id"@], p3))
                };
                match keys {
                    Err(e) => Err(e),
                    Ok((pks, p4)) => if !punct_at(ts, p4, '{') {
                        Err((ParseErrorKind::ExpectedPunct('{'), p4))
                    } else {
                        match parse_columns_spec(ts, p4 + 1) {
                            Err(e) => Err(e),
                            Ok((cols, p5)) => if !punct_at(ts, p5, '}') {
                                Err((ParseErrorKind::ExpectedPunct('}'), p5))
                            } else {
                                Ok((TableSpec { name, pks, columns: cols }, p5 + 1))
                            },
                        }
                    },
                }
            },
        },
    }
}

/// A table as the parser sees it.
pub struct ParsedTable {
    pub name: String,
    pub pks: Vec<String>,
    pub columns: Vec<ParsedColumnMacro>,
}

pub open spec fn parsed_view(t: ParsedTable) -> TableSpec {
    TableSpec { name: t.name@, pks: strings_view(t.pks@), columns: columns_view(t.columns@) }
}

pub open spec fn table_res(
    r: Result<(ParsedTable, usize), (ParseErrorKind, usize)>,
) -> Result<(TableSpec, int), PErr> {
    match r {
        Ok((t, q)) => Ok((parsed_view(t), q as int)),
        Err(e) => Err(err_view(e)),
    }
}

/// The inside of a `table!` block from token `p`, and where it ends.
pub fn parse_table(
    ts: &Vec<Token>,
    p: usize,
) -> (r: Result<(ParsedTable, usize), (ParseErrorKind, usize)>)
    requires
        ts@.len() < usize::MAX,
        p <= ts@.len(),
    ensures
        table_res(r) == parse_table_spec(tokens_view(ts@), p as int),
        r is Ok ==> r->Ok_0.1 <= ts@.len(),
{
    let p1 = match skip_uses(ts, p) {
        Err(e) => { return Err(e); },
        Ok(q) => q,
    };
    let p2 = match parse_attrs(ts, p1) {
        Err(e) => { return Err(e); },
        Ok((_, q)) => q,
    };
    if !is_ident(ts, p2) {
        return Err((ParseErrorKind::ExpectedIdent, p2));
    }
    let qualified = is_punct(ts, p2 + 1, '.') && is_ident(ts, p2 + 2);
    let name = if qualified { text_of(ts, p2 + 2) } else { text_of(ts, p2) };
    let p3 = if qualified { p2 + 3 } else { p2 + 1 };
    let (pks, p4) = if is_punct(ts, p3, '(') {
        match parse_keys(ts, p3 + 1) {
            Err(e) => { return Err(e); },
            Ok(x) => x,
        }
    } else {
        let v = vec![String::from_str("id")];
        assert(strings_view(v@) =~= seq!["id"@]);
        (v, p3)
    };
    if !is_punct(ts, p4, '{') {
        return Err((ParseErrorKind::ExpectedPunct('{'), p4));
    }
    let (cols, p5) = match parse_columns(ts, p4 + 1) {
        Err(e) => { return Err(e); },
        Ok(x) => x,
    };
    if !is_punct(ts, p5, '}') {
        return Err((ParseErrorKind::ExpectedPunct('}'), p5));
    }
    Ok((ParsedTable { name, pks, columns: cols }, p5 + 1))
}


/// Where the arguments of macro `w` start, if a call `w!` or `diesel::w!`
/// starts at token `p`; else -1.
pub open spec fn macro_after(ts: Seq<TokenView>, p: int, w: Seq<char>) -> int {
    if word_at(ts, p, w) && punct_at(ts, p + 1, '!') {
        p + 2
    } else if word_at(ts, p, "diesel"@) && punct_at(ts, p + 1, ':') && punct_at(ts, p + 2, ':')
        && word_at(ts, p + 3, w) && punct_at(ts, p + 4, '!') {
        p + 5
    } else {
        -1
    }
}

fn find_macro(ts: &Vec<Token>, p: usize, w: &str) -> (r: Option<usize>)
    requires
        ts@.len() < usize::MAX,
    ensures
        match r {
            Some(q) => q as int == macro_after(tokens_view(ts@), p as int, w@) && q <= ts@.len(),
            None => macro_after(tokens_view(ts@), p as int, w@) == -1,
        },
{
    if is_word(ts, p, w) && is_punct(ts, p + 1, '!') {
        Some(p + 2)
    } else if is_word(ts, p, "diesel") && is_punct(ts, p + 1, ':') && is_punct(ts, p + 2, ':')
        && is_word(ts, p + 3, w) && is_punct(ts, p + 4, '!') {
        Some(p + 5)
    } else {
        None
    }
}

/// The arguments `(child -> parent (column))` of a `joinable!` call from
/// token `p`, and where they end (past an optional `;`).
pub open spec fn parse_joinable_spec(ts: Seq<TokenView>, p: int) -> Result<(JoinSpec, int), PErr> {
    if !punct_at(ts, p, '(') {
        Err((ParseErrorKind::ExpectedPunct('('), p))
    } else if !ident_at(ts, p + 1) {
        Err((ParseErrorKind::ExpectedIdent, p + 1))
    } else if !punct_at(ts, p + 2, '-') {
        Err((ParseErrorKind::ExpectedPunct('-'), p + 2))
    } else if !punct_at(ts, p + 3, '>') {
        Err((ParseErrorKind::ExpectedPunct('>'), p + 3))
    } else if !ident_at(ts, p + 4) {
        Err((ParseErrorKind::ExpectedIdent, p + 4))
    } else if !punct_at(ts, p + 5, '(') {
        Err((ParseErrorKind::ExpectedPunct('('), p + 5))
    } else if !ident_at(ts, p + 6) {
        Err((ParseErrorKind::ExpectedIdent, p + 6))
    } else if !punct_at(ts, p + 7, ')') {
        Err((ParseErrorKind::ExpectedPunct(')'), p + 7))
    } else if !punct_at(ts, p + 8, ')') {
        Err((ParseErrorKind::ExpectedPunct(')'), p + 8))
    } else {
        Ok((
            (ts[p + 1].1, ts[p + 4].1, ts[p + 6].1),
            if punct_at(ts, p + 9, ';') { p + 10 } else { p + 9 },
        ))
    }
}

/// A `joinable!` line.
pub struct Join {
    pub child: String,
    pub parent: String,
    pub column: String,
}

pub open spec fn join_view(j: Join) -> JoinSpec {
    (j.child@, j.parent@, j.column@)
}

fn parse_joinable(ts: &Vec<Token>, p: usize) -> (r: Result<(Join, usize), (ParseErrorKind, usize)>)
    requires
        ts@.len() < usize::MAX,
        p <= ts@.len(),
    ensures
        match r {
            Ok((j, q)) => parse_joinable_spec(tokens_view(ts@), p as int) == Ok::<(JoinSpec, int), PErr>((join_view(j), q as int)) && q <= ts@.len(),
            Err(e) => parse_joinable_spec(tokens_view(ts@), p as int) == Err::<(JoinSpec, int), PErr>(err_view(e)),
        },
{
    if !is_punct(ts, p, '(') {
        return Err((ParseErrorKind::ExpectedPunct('('), p));
    }
    if !is_ident(ts, p + 1) {
        return Err((ParseErrorKind::ExpectedIdent, p + 1));
    }
    if !is_punct(ts, p + 2, '-') {
        return Err((ParseErrorKind::ExpectedPunct('-'), p + 2));
    }
    if !is_punct(ts, p + 3, '>') {
        return Err((ParseErrorKind::ExpectedPunct('>'), p + 3));
    }
    if !is_ident(ts, p + 4) {
        return Err((ParseErrorKind::ExpectedIdent, p + 4));
    }
    if !is_punct(ts, p + 5, '(') {
        return Err((ParseErrorKind::ExpectedPunct('('), p + 5));
    }
    if !is_ident(ts, p + 6) {
        return Err((ParseErrorKind::ExpectedIdent, p + 6));
    }
    if !is_punct(ts, p + 7, ')') {
        return Err((ParseErrorKind::ExpectedPunct(')'), p + 7));
    }
    if !is_punct(ts, p + 8, ')') {
        return Err((ParseErrorKind::ExpectedPunct(')'), p + 8));
    }
    let j = Join { child: text_of(ts, p + 1), parent: text_of(ts, p + 4), column: text_of(ts, p + 6) };
    let end = if is_punct(ts, p + 9, ';') { p + 10 } else { p + 9 };
    Ok((j, end))
}

/// The `table!` blocks and `joinable!` lines from token `p` on, in order;
/// any other token is passed over.
pub open spec fn parse_items_spec(
    ts: Seq<TokenView>,
    p: int,
) -> Result<(Seq<TableSpec>, Seq<JoinSpec>), PErr>
    decreases ts.len() - p,
{
    if p < 0 || p >= ts.len() {
        Ok((Seq::empty(), Seq::empty()))
    } else if macro_after(ts, p, "table"@) >= 0 {
        let t = macro_after(ts, p, "table"@);
        if !punct_at(ts, t, '{') {
            Err((ParseErrorKind::ExpectedPunct('{'), t))
        } else {
            match parse_table_spec(ts, t + 1) {
                Err(e) => Err(e),
                Ok((tb, q)) => if q <= p {
                    Err((ParseErrorKind::Unterminated, p))
                } else {
                    match parse_items_spec(ts, q) {
                        Err(e) => Err(e),
                        Ok((a, b)) => Ok((seq![tb] + a, b)),
                    }
                },
            }
        }
    } else if macro_after(ts, p, "joinable"@) >= 0 {
        match parse_joinable_spec(ts, macro_after(ts, p, "joinable"@)) {
            Err(e) => Err(e),
            Ok((j, q)) => if q <= p {
                Err((ParseErrorKind::Unterminated, p))
            } else {
                match parse_items_spec(ts, q) {
                    Err(e) => Err(e),
                    Ok((a, b)) => Ok((a, seq![j] + b)),
                }
            },
        }
    } else {
        parse_items_spec(ts, p + 1)
    }
}

pub open spec fn items_res(
    r: Result<(Vec<ParsedTable>, Vec<Join>), (ParseErrorKind, usize)>,
) -> Result<(Seq<TableSpec>, Seq<JoinSpec>), PErr> {
    match r {
        Ok((a, b)) => Ok((a@.map_values(|t: ParsedTable| parsed_view(t)), b@.map_values(|j: Join| join_view(j)))),
        Err(e) => Err(err_view(e)),
    }
}

/// The `table!` blocks and `joinable!` lines from token `p` on.
pub fn parse_items(
    ts: &Vec<Token>,
    p: usize,
) -> (r: Result<(Vec<ParsedTable>, Vec<Join>), (ParseErrorKind, usize)>)
    requires
        ts@.len() < usize::MAX,
    ensures
        items_res(r) == parse_items_spec(tokens_view(ts@), p as int),
    decreases ts@.len() - p,
{
    if p >= ts.len() {
        let a: Vec<ParsedTable> = Vec::new();
        let b: Vec<Join> = Vec::new();
        assert(a@.map_values(|t: ParsedTable| parsed_view(t)) =~= Seq::<TableSpec>::empty());
        assert(b@.map_values(|j: Join| join_view(j)) =~= Seq::<JoinSpec>::empty());
        return Ok((a, b));
    }
    match find_macro(ts, p, "table") {
        Some(t) => {
            if !is_punct(ts, t, '{') {
                return Err((ParseErrorKind::ExpectedPunct('{'), t));
            }
            match parse_table(ts, t + 1) {
                Err(e) => Err(e),
                Ok((tb, q)) => {
                    if q <= p {
                        return Err((ParseErrorKind::Unterminated, p));
                    }
                    match parse_items(ts, q) {
                        Err(e) => Err(e),
                        Ok((a, b)) => {
                            let ghost tv = parsed_view(tb);
                            let ghost av = a@.map_values(|t: ParsedTable| parsed_view(t));
                            let mut a2 = a;
                            a2.insert(0, tb);
                            assert(a2@.map_values(|t: ParsedTable| parsed_view(t)) =~= seq![tv] + av);
                            Ok((a2, b))
                        },
                    }
                },
            }
        },
        None => match find_macro(ts, p, "joinable") {
            Some(j) => match parse_joinable(ts, j) {
                Err(e) => Err(e),
                Ok((jn, q)) => {
                    if q <= p {
                        return Err((ParseErrorKind::Unterminated, p));
                    }
                    match parse_items(ts, q) {
                        Err(e) => Err(e),
                        Ok((a, b)) => {
                            let ghost jv = join_view(jn);
                            let ghost bv = b@.map_values(|j: Join| join_view(j));
                            let mut b2 = b;
                            b2.insert(0, jn);
                            assert(b2@.map_values(|j: Join| join_view(j)) =~= seq![jv] + bv);
                            Ok((a, b2))
                        },
                    }
                },
            },
            None => parse_items(ts, p + 1),
        },
    }
}


/// The foreign keys of table `name`: (parent table, join column) of each
/// `joinable!` line whose child it is, in order.
pub open spec fn fks_for(joins: Seq<JoinSpec>, name: Seq<char>) -> Seq<(Seq<char>, Seq<char>)>
    decreases joins.len(),
{
    if joins.len() == 0 {
        Seq::empty()
    } else {
        fks_for(joins.drop_last(), name) + if joins.last().0 == name {
            seq![(joins.last().1, joins.last().2)]
        } else {
            Seq::empty()
        }
    }
}

/// A parsed table with its struct name and foreign keys.
pub ghost struct SchemaTable {
    pub name: Seq<char>,
    pub struct_name: Seq<char>,
    pub pks: Seq<Seq<char>>,
    pub fks: Seq<(Seq<char>, Seq<char>)>,
    pub columns: Seq<ColumnSpec>,
}

pub open spec fn complete_table(t: TableSpec, joins: Seq<JoinSpec>) -> SchemaTable {
    SchemaTable {
        name: t.name,
        struct_name: pascal_of(t.name),
        pks: t.pks,
        fks: fks_for(joins, t.name),
        columns: t.columns,
    }
}

pub open spec fn fks_view(v: Seq<(String, String)>) -> Seq<(Seq<char>, Seq<char>)> {
    v.map_values(|fk: (String, String)| (fk.0@, fk.1@))
}

pub open spec fn table_macro_view(t: ParsedTableMacro) -> SchemaTable {
    SchemaTable {
        name: t.name@,
        struct_name: t.struct_name@,
        pks: strings_view(t.primary_key_columns@),
        fks: fks_view(t.foreign_keys@),
        columns: columns_view(t.columns@),
    }
}

/// The offset of the token at index `i`, or the end of the text.
pub open spec fn offset_of(s: Seq<char>, ts: Seq<TokenView>, i: int) -> int {
    if 0 <= i < ts.len() {
        ts[i].2
    } else {
        s.len() as int
    }
}

/// The tables of a schema text, or the first error and its offset.
pub open spec fn parse_schema_spec(
    s: Seq<char>,
) -> Result<Seq<SchemaTable>, (ParseErrorKind, int)> {
    let ts = lex_spec(s);
    match parse_items_spec(ts, 0) {
        Err((k, i)) => Err((k, offset_of(s, ts, i))),
        Ok((tables, joins)) => Ok(tables.map_values(|t: TableSpec| complete_table(t, joins))),
    }
}

fn foreign_keys_of(joins: &Vec<Join>, name: &str) -> (r: Vec<(String, String)>)
    ensures
        fks_view(r@) == fks_for(joins@.map_values(|j: Join| join_view(j)), name@),
{
    let ghost jv = joins@.map_values(|j: Join| join_view(j));
    let mut out: Vec<(String, String)> = Vec::new();
    let mut i: usize = 0;
    while i < joins.len()
        invariant
            jv == joins@.map_values(|j: Join| join_view(j)),
            i <= joins@.len(),
            fks_view(out@) == fks_for(jv.subrange(0, i as int), name@),
        decreases joins@.len() - i,
    {
        assert(jv.subrange(0, i + 1).drop_last() =~= jv.subrange(0, i as int));
        assert(jv.subrange(0, i + 1).last() == join_view(joins@[i as int]));
        let ghost before = fks_view(out@);
        if str_eq(joins[i].child.as_str(), name) {
            out.push((joins[i].parent.clone(), joins[i].column.clone()));
            assert(fks_view(out@) =~= before + seq![(joins@[i as int].parent@, joins@[i as int].column@)]);
        } else {
            assert(before + Seq::<(Seq<char>, Seq<char>)>::empty() =~= before);
        }
        i = i + 1;
    }
    assert(jv.subrange(0, joins@.len() as int) =~= jv);
    out
}

/// The tables of the `table!` blocks of a diesel schema, in order, each
/// with the foreign keys that its `joinable!` lines give and a struct name
/// in PascalCase; or the first error, at the offset where it was found.
///
/// The struct name is the table name in PascalCase as it stands; it is not
/// singularized (`todos` gives `Todos`), so plural table names give plural
/// struct names.
pub fn parse_schema(s: &str) -> (r: Result<Vec<ParsedTableMacro>, ParseError>)
    requires
        s@.len() < usize::MAX,
    ensures
        match r {
            Ok(v) => parse_schema_spec(s@) == Ok::<Seq<SchemaTable>, (ParseErrorKind, int)>(
                v@.map_values(|t: ParsedTableMacro| table_macro_view(t)),
            ),
            Err(e) => parse_schema_spec(s@) == Err::<Seq<SchemaTable>, (ParseErrorKind, int)>(
                (e.kind, e.offset as int),
            ),
        },
{
    let ts = lex(s);
    let ghost tv = tokens_view(ts@);
    match parse_items(&ts, 0) {
        Err((kind, at)) => {
            let offset = if at < ts.len() {
                ts[at].offset
            } else {
                s.unicode_len()
            };
            Err(ParseError { kind, offset })
        },
        Ok((tables, joins)) => {
            let ghost orig = tables@;
            let ghost jv = joins@.map_values(|j: Join| join_view(j));
            let ghost want = orig.map_values(|t: ParsedTable| parsed_view(t)).map_values(
                |t: TableSpec| complete_table(t, jv),
            );
            let mut rest = tables;
            let mut out: Vec<ParsedTableMacro> = Vec::new();
            let n = rest.len();
            let mut k: usize = 0;
            while k < n
                invariant
                    n == orig.len(),
                    k <= n,
                    rest@ == orig.subrange(k as int, n as int),
                    jv == joins@.map_values(|j: Join| join_view(j)),
                    want == orig.map_values(|t: ParsedTable| parsed_view(t)).map_values(
                        |t: TableSpec| complete_table(t, jv),
                    ),
                    out@.map_values(|t: ParsedTableMacro| table_macro_view(t)) == want.subrange(0, k as int),
                decreases n - k,
            {
                let t = rest.remove(0);
                assert(t == orig[k as int]);
                let fks = foreign_keys_of(&joins, t.name.as_str());
                let struct_name = to_pascal_case(t.name.as_str());
                let full = ParsedTableMacro {
                    name: t.name,
                    struct_name,
                    primary_key_columns: t.pks,
                    foreign_keys: fks,
                    columns: t.columns,
                };
                let ghost before = out@.map_values(|t: ParsedTableMacro| table_macro_view(t));
                out.push(full);
                assert(table_macro_view(full) == want[k as int]);
                assert(out@.map_values(|t: ParsedTableMacro| table_macro_view(t)) =~= before.push(want[k as int]));
                assert(want.subrange(0, k + 1) =~= want.subrange(0, k as int).push(want[k as int]));
                assert(rest@ =~= orig.subrange(k + 1, n as int));
                k = k + 1;
            }
            assert(want.subrange(0, n as int) =~= want);
            assert(want =~= orig.map_values(|t: ParsedTable| parsed_view(t)).map_values(|t: TableSpec| complete_table(t, jv)));
            Ok(out)
        },
    }
}

} // verus!

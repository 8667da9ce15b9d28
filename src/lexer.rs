//! Splitting schema source text into tokens: identifiers, string literals
//! and single punctuation characters; whitespace and `//` comments are
//! dropped.
use vstd::prelude::*;

verus! {

#[derive(Debug, Clone, Copy, PartialEq, Eq, Structural)]
pub enum TokenKind {
    /// Letters, digits and `_`
    Ident,
    /// A character that is neither whitespace nor part of an identifier
    Punct,
    /// A string literal; its text is what stands between the quotes
    Str,
}

/// A token and the character offset where it starts.
#[derive(Debug)]
pub struct Token {
    pub kind: TokenKind,
    pub text: String,
    pub offset: usize,
}

/// A token as a value: kind, text, offset.
pub type TokenView = (TokenKind, Seq<char>, int);

pub open spec fn tokens_view(v: Seq<Token>) -> Seq<TokenView> {
    v.map_values(|t: Token| (t.kind, t.text@, t.offset as int))
}

/// Where the lexer stands between two characters.
#[derive(Debug, Clone, Copy, PartialEq, Eq, Structural)]
pub enum LexMode {
    /// Between tokens
    Normal,
    /// Inside a `//` comment
    Comment,
    /// Inside an identifier that started at the given offset
    Ident(usize),
    /// Inside a string literal whose quote stands at the given offset
    Str(usize),
}

pub open spec fn is_space(c: char) -> bool {
    c == ' ' || c == '\t' || c == '\n' || c == '\r'
}

pub open spec fn is_ident_char(c: char) -> bool {
    ('a' <= c && c <= 'z') || ('A' <= c && c <= 'Z') || ('0' <= c && c <= '9') || c == '_'
}

/// The tokens from offset `i` on, where the lexer is in mode `m` before `s[i]`.
pub open spec fn lex_from(s: Seq<char>, i: int, m: LexMode) -> Seq<TokenView>
    decreases s.len() - i, 1int,
{
    if i < 0 || i >= s.len() {
        match m {
            LexMode::Ident(st) => if 0 <= st && st <= s.len() {
                seq![(TokenKind::Ident, s.subrange(st as int, s.len() as int), st as int)]
            } else {
                Seq::empty()
            },
            LexMode::Str(st) => if 0 <= st && st < s.len() {
                seq![(TokenKind::Str, s.subrange(st + 1, s.len() as int), st as int)]
            } else {
                Seq::empty()
            },
            _ => Seq::empty(),
        }
    } else {
        match m {
            LexMode::Normal => lex_normal(s, i),
            LexMode::Comment => if s[i] == '\n' {
                lex_from(s, i + 1, LexMode::Normal)
            } else {
                lex_from(s, i + 1, LexMode::Comment)
            },
            LexMode::Ident(st) => if is_ident_char(s[i]) {
                lex_from(s, i + 1, LexMode::Ident(st))
            } else if 0 <= st && st <= i {
                seq![(TokenKind::Ident, s.subrange(st as int, i), st as int)] + lex_normal(s, i)
            } else {
                lex_normal(s, i)
            },
            LexMode::Str(st) => if s[i] == '"' && 0 <= st && st < i {
                seq![(TokenKind::Str, s.subrange(st + 1, i), st as int)] + lex_from(s, i + 1, LexMode::Normal)
            } else if s[i] == '"' {
                lex_from(s, i + 1, LexMode::Normal)
            } else {
                lex_from(s, i + 1, LexMode::Str(st))
            },
        }
    }
}

/// The tokens from offset `i` on, where `s[i]` starts after a token.
pub open spec fn lex_normal(s: Seq<char>, i: int) -> Seq<TokenView>
    decreases s.len() - i, 0int,
{
    if i < 0 || i >= s.len() {
        Seq::empty()
    } else if is_space(s[i]) {
        lex_from(s, i + 1, LexMode::Normal)
    } else if s[i] == '/' && i + 1 < s.len() && s[i + 1] == '/' {
        lex_from(s, i + 1, LexMode::Comment)
    } else if is_ident_char(s[i]) {
        if i <= usize::MAX {
            lex_from(s, i + 1, LexMode::Ident(i as usize))
        } else {
            Seq::empty()
        }
    } else if s[i] == '"' {
        if i <= usize::MAX {
            lex_from(s, i + 1, LexMode::Str(i as usize))
        } else {
            Seq::empty()
        }
    } else {
        seq![(TokenKind::Punct, s.subrange(i, i + 1), i)] + lex_from(s, i + 1, LexMode::Normal)
    }
}

/// The tokens of a text.
pub open spec fn lex_spec(s: Seq<char>) -> Seq<TokenView> {
    lex_from(s, 0, LexMode::Normal)
}

fn space(c: char) -> (r: bool)
    ensures
        r == is_space(c),
{
    c == ' ' || c == '\t' || c == '\n' || c == '\r'
}

fn ident_char(c: char) -> (r: bool)
    ensures
        r == is_ident_char(c),
{
    ('a' <= c && c <= 'z') || ('A' <= c && c <= 'Z') || ('0' <= c && c <= '9') || c == '_'
}

fn token(kind: TokenKind, s: &str, from: usize, to: usize, offset: usize) -> (r: Token)
    requires
        from <= to <= s@.len(),
    ensures
        r.kind == kind,
        r.text@ == s@.subrange(from as int, to as int),
        r.offset == offset,
{
    Token { kind, text: String::from_str(s.substring_char(from, to)), offset }
}

fn push_token(v: &mut Vec<Token>, t: Token)
    ensures
        tokens_view(final(v)@) == tokens_view(old(v)@).push((t.kind, t.text@, t.offset as int)),
{
    let ghost e = (t.kind, t.text@, t.offset as int);
    v.push(t);
    assert(tokens_view(final(v)@) =~= tokens_view(old(v)@).push(e));
}

/// What the lexer does with `s[i]` between tokens: the mode after it, and
/// the punctuation token it makes, if any.
fn normal_step(s: &str, n: usize, i: usize, out: &mut Vec<Token>) -> (m: LexMode)
    requires
        n == s@.len(),
        i < n,
    ensures
        tokens_view(old(out)@) + lex_normal(s@, i as int) == tokens_view(final(out)@) + lex_from(
            s@,
            i + 1,
            m,
        ),
        match m {
            LexMode::Ident(st) => st == i,
            LexMode::Str(st) => st == i,
            _ => true,
        },
{
    let c = s.get_char(i);
    if space(c) {
        LexMode::Normal
    } else if c == '/' && i + 1 < n && s.get_char(i + 1) == '/' {
        LexMode::Comment
    } else if ident_char(c) {
        LexMode::Ident(i)
    } else if c == '"' {
        LexMode::Str(i)
    } else {
        let ghost before = tokens_view(out@);
        push_token(out, token(TokenKind::Punct, s, i, i + 1, i));
        let ghost rest = lex_from(s@, i + 1, LexMode::Normal);
        assert(before + (seq![(TokenKind::Punct, s@.subrange(i as int, i + 1), i as int)] + rest)
            =~= before.push((TokenKind::Punct, s@.subrange(i as int, i + 1), i as int)) + rest);
        LexMode::Normal
    }
}

/// The tokens of `s`.
pub fn lex(s: &str) -> (r: Vec<Token>)
    ensures
        tokens_view(r@) == lex_spec(s@),
        r@.len() <= s@.len(),
{
    let n = s.unicode_len();
    let mut out: Vec<Token> = Vec::new();
    let mut mode = LexMode::Normal;
    let mut i: usize = 0;
    while i < n
        invariant
            n == s@.len(),
            i <= n,
            match mode {
                LexMode::Ident(st) => st <= i,
                LexMode::Str(st) => st < i,
                _ => true,
            },
            lex_spec(s@) == tokens_view(out@) + lex_from(s@, i as int, mode),
        decreases n - i,
    {
        let c = s.get_char(i);
        let ghost before = tokens_view(out@);
        match mode {
            LexMode::Normal => {
                mode = normal_step(s, n, i, &mut out);
            },
            LexMode::Comment => {
                if c == '\n' {
                    mode = LexMode::Normal;
                }
            },
            LexMode::Ident(st) => {
                if !ident_char(c) {
                    push_token(&mut out, token(TokenKind::Ident, s, st, i, st));
                    let ghost t = (TokenKind::Ident, s@.subrange(st as int, i as int), st as int);
                    let ghost mid = tokens_view(out@);
                    mode = normal_step(s, n, i, &mut out);
                    assert(before + (seq![t] + lex_normal(s@, i as int)) =~= mid + lex_normal(s@, i as int));
                }
            },
            LexMode::Str(st) => {
                if c == '"' {
                    push_token(&mut out, token(TokenKind::Str, s, st + 1, i, st));
                    let ghost t = (TokenKind::Str, s@.subrange(st + 1, i as int), st as int);
                    assert(before + (seq![t] + lex_from(s@, i + 1, LexMode::Normal)) =~= tokens_view(out@) + lex_from(s@, i + 1, LexMode::Normal));
                    mode = LexMode::Normal;
                }
            },
        }
        i = i + 1;
    }
    match mode {
        LexMode::Ident(st) => {
            let ghost before = tokens_view(out@);
            push_token(&mut out, token(TokenKind::Ident, s, st, n, st));
            assert(tokens_view(out@) =~= before + lex_from(s@, n as int, mode));
        },
        LexMode::Str(st) => {
            let ghost before = tokens_view(out@);
            push_token(&mut out, token(TokenKind::Str, s, st + 1, n, st));
            assert(tokens_view(out@) =~= before + lex_from(s@, n as int, mode));
        },
        _ => {
            assert(tokens_view(out@) =~= tokens_view(out@) + lex_from(s@, n as int, mode));
        },
    }
    proof {
        lemma_lex_len(s@);
    }
    out
}


/// Bound on the tokens from offset `i` on: one per remaining character, and
/// one more for a token still open.
pub open spec fn lex_bound(s: Seq<char>, i: int, m: LexMode) -> int {
    match m {
        LexMode::Ident(_) => s.len() - i + 1,
        LexMode::Str(_) => s.len() - i + 1,
        _ => s.len() - i,
    }
}

proof fn lemma_lex_from_len(s: Seq<char>, i: int, m: LexMode)
    requires
        0 <= i <= s.len(),
    ensures
        lex_from(s, i, m).len() <= lex_bound(s, i, m),
    decreases s.len() - i, 1int,
{
    if i < s.len() {
        match m {
            LexMode::Normal => lemma_lex_normal_len(s, i),
            LexMode::Comment => {
                lemma_lex_from_len(s, i + 1, LexMode::Normal);
                lemma_lex_from_len(s, i + 1, LexMode::Comment);
            },
            LexMode::Ident(st) => {
                lemma_lex_from_len(s, i + 1, LexMode::Ident(st));
                lemma_lex_normal_len(s, i);
            },
            LexMode::Str(st) => {
                lemma_lex_from_len(s, i + 1, LexMode::Normal);
                lemma_lex_from_len(s, i + 1, LexMode::Str(st));
            },
        }
    }
}

proof fn lemma_lex_normal_len(s: Seq<char>, i: int)
    requires
        0 <= i <= s.len(),
    ensures
        lex_normal(s, i).len() <= s.len() - i,
    decreases s.len() - i, 0int,
{
    if i < s.len() {
        lemma_lex_from_len(s, i + 1, LexMode::Normal);
        lemma_lex_from_len(s, i + 1, LexMode::Comment);
        if i <= usize::MAX {
            lemma_lex_from_len(s, i + 1, LexMode::Ident(i as usize));
            lemma_lex_from_len(s, i + 1, LexMode::Str(i as usize));
        }
    }
}

/// A text has at most one token per character.
pub proof fn lemma_lex_len(s: Seq<char>)
    ensures
        lex_spec(s).len() <= s.len(),
{
    lemma_lex_from_len(s, 0, LexMode::Normal);
}

} // verus!

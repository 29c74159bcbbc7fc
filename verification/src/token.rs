//! Tokens produced by the scanner: kind, lexeme, optional literal value,
//! and the source position they came from. Tokens are immutable once made.

use vstd::prelude::*;

verus! {

/// Every distinct token shape the language knows.
#[derive(Clone, Copy, Debug, PartialEq, Eq, Structural)]
pub enum TokenKind {
    LeftParen,
    RightParen,
    LeftBrace,
    RightBrace,
    LeftBracket,
    RightBracket,
    Comma,
    Dot,
    Semicolon,
    Colon,
    Plus,
    Minus,
    Star,
    Slash,
    Bang,
    BangEqual,
    Equal,
    EqualEqual,
    Greater,
    GreaterEqual,
    Less,
    LessEqual,
    Identifier,
    Str,
    Number,
    And,
    Or,
    Class,
    Else,
    False,
    Fn,
    If,
    Nil,
    Print,
    Return,
    Super,
    Slf,
    Let,
    True,
    While,
    Export,
    Use,
    Buffer,
    Pipeline,
    Render,
    Eof,
}

/// A literal value carried by a `Number` or `Str` token.
#[derive(Clone, Debug)]
pub enum Lit {
    Num(i64),
    Text(String),
}

/// One token of the source text. `line` and `col` are 1-based; `col` points
/// at the token's first character.
#[derive(Clone, Debug)]
pub struct Token {
    pub kind: TokenKind,
    pub lexeme: String,
    pub lit: Option<Lit>,
    pub line: usize,
    pub col: usize,
}

/// Whether two literal payloads carry the same value.
pub open spec fn lit_like(a: Option<Lit>, b: Option<Lit>) -> bool {
    match (a, b) {
        (None, None) => true,
        (Some(Lit::Num(x)), Some(Lit::Num(y))) => x == y,
        (Some(Lit::Text(x)), Some(Lit::Text(y))) => x@ == y@,
        _ => false,
    }
}

/// Whether two tokens carry the same kind, lexeme text, literal and
/// position: the sense in which a copied token stands for the original.
pub open spec fn tok_like(a: Token, b: Token) -> bool {
    a.kind == b.kind && a.lexeme@ == b.lexeme@ && lit_like(a.lit, b.lit) && a.line == b.line
        && a.col == b.col
}

impl Token {
    /// An explicit copy, equal to the original in kind, lexeme text,
    /// literal and position.
    pub fn duplicate(&self) -> (r: Token)
        ensures
            tok_like(r, *self),
    {
        Token {
            kind: self.kind,
            lexeme: self.lexeme.clone(),
            lit: match &self.lit {
                None => None,
                Some(Lit::Num(n)) => Some(Lit::Num(*n)),
                Some(Lit::Text(s)) => Some(Lit::Text(s.clone())),
            },
            line: self.line,
            col: self.col,
        }
    }

    pub fn new(
        kind: TokenKind,
        lexeme: String,
        lit: Option<Lit>,
        line: usize,
        col: usize,
    ) -> (r: Token)
        ensures
            r.kind == kind,
            r.lexeme == lexeme,
            r.lit == lit,
            r.line == line,
            r.col == col,
    {
        Token { kind, lexeme, lit, line, col }
    }

    /// A token fabricated by the interpreter itself (for the synthetic
    /// `self` and `super` bindings); it carries no meaningful position.
    pub fn synthetic(kind: TokenKind, lexeme: String) -> (r: Token)
        ensures
            r.kind == kind,
            r.lexeme == lexeme,
            r.lit is None,
            r.line == 0,
            r.col == 0,
    {
        Token { kind, lexeme, lit: None, line: 0, col: 0 }
    }

    pub fn get_type(&self) -> (r: TokenKind)
        ensures
            r == self.kind,
    {
        self.kind
    }

    pub fn get_lexeme(&self) -> (r: &String)
        ensures
            r == self.lexeme,
    {
        &self.lexeme
    }

    pub fn get_lit(&self) -> (r: &Option<Lit>)
        ensures
            r == self.lit,
    {
        &self.lit
    }

    pub fn get_line(&self) -> (r: usize)
        ensures
            r == self.line,
    {
        self.line
    }

    pub fn get_pos_in_line(&self) -> (r: usize)
        ensures
            r == self.col,
    {
        self.col
    }
}

} // verus!

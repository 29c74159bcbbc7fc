//! The scanner: source text to an ordered token stream terminated by an
//! end-of-file token.
//!
//! The language's alphabet is ASCII; any byte beyond it is reported as an
//! invalid character. On an invalid character or an unterminated string
//! the scanner records a lexical error with line and column and keeps
//! scanning, so one pass can report several errors; scanning fails with
//! the aggregated list when any were recorded.

use vstd::prelude::*;

use crate::error::{LexError, LexErrorKind};
use crate::token::{Lit, Token, TokenKind};
use crate::util::str_eqx;

verus! {

/// The token kind of an identifier-shaped lexeme: the keyword's kind, or
/// `Identifier` for everything else.
pub open spec fn keyword_kind(s: Seq<char>) -> TokenKind {
    if s == "and"@ {
        TokenKind::And
    } else if s == "or"@ {
        TokenKind::Or
    } else if s == "class"@ {
        TokenKind::Class
    } else if s == "else"@ {
        TokenKind::Else
    } else if s == "false"@ {
        TokenKind::False
    } else if s == "fn"@ {
        TokenKind::Fn
    } else if s == "if"@ {
        TokenKind::If
    } else if s == "nil"@ {
        TokenKind::Nil
    } else if s == "print"@ {
        TokenKind::Print
    } else if s == "return"@ {
        TokenKind::Return
    } else if s == "super"@ {
        TokenKind::Super
    } else if s == "self"@ {
        TokenKind::Slf
    } else if s == "let"@ {
        TokenKind::Let
    } else if s == "true"@ {
        TokenKind::True
    } else if s == "while"@ {
        TokenKind::While
    } else if s == "export"@ {
        TokenKind::Export
    } else if s == "use"@ {
        TokenKind::Use
    } else if s == "buffer"@ {
        TokenKind::Buffer
    } else if s == "pipeline"@ {
        TokenKind::Pipeline
    } else if s == "render"@ {
        TokenKind::Render
    } else {
        TokenKind::Identifier
    }
}

/// Classifies an identifier-shaped lexeme.
pub fn keyword_or_ident(lex: &str) -> (k: TokenKind)
    ensures
        k == keyword_kind(lex@),
{
    if str_eqx(lex, "and") {
        TokenKind::And
    } else if str_eqx(lex, "or") {
        TokenKind::Or
    } else if str_eqx(lex, "class") {
        TokenKind::Class
    } else if str_eqx(lex, "else") {
        TokenKind::Else
    } else if str_eqx(lex, "false") {
        TokenKind::False
    } else if str_eqx(lex, "fn") {
        TokenKind::Fn
    } else if str_eqx(lex, "if") {
        TokenKind::If
    } else if str_eqx(lex, "nil") {
        TokenKind::Nil
    } else if str_eqx(lex, "print") {
        TokenKind::Print
    } else if str_eqx(lex, "return") {
        TokenKind::Return
    } else if str_eqx(lex, "super") {
        TokenKind::Super
    } else if str_eqx(lex, "self") {
        TokenKind::Slf
    } else if str_eqx(lex, "let") {
        TokenKind::Let
    } else if str_eqx(lex, "true") {
        TokenKind::True
    } else if str_eqx(lex, "while") {
        TokenKind::While
    } else if str_eqx(lex, "export") {
        TokenKind::Export
    } else if str_eqx(lex, "use") {
        TokenKind::Use
    } else if str_eqx(lex, "buffer") {
        TokenKind::Buffer
    } else if str_eqx(lex, "pipeline") {
        TokenKind::Pipeline
    } else if str_eqx(lex, "render") {
        TokenKind::Render
    } else {
        TokenKind::Identifier
    }
}

/// The numeric value of a run of decimal digit characters.
pub open spec fn digits_value(ds: Seq<char>) -> int
    decreases ds.len(),
{
    if ds.len() == 0 {
        0
    } else {
        digits_value(ds.drop_last()) * 10 + (ds.last() as u32 - 48)
    }
}

/// Whether `b` is an ASCII decimal digit.
pub open spec fn is_digit_byte(b: u8) -> bool {
    48 <= b <= 57
}

/// Whether `b` starts or continues an identifier.
pub open spec fn is_ident_start_byte(b: u8) -> bool {
    (65 <= b <= 90) || (97 <= b <= 122) || b == 95
}

pub open spec fn is_ident_byte(b: u8) -> bool {
    is_ident_start_byte(b) || is_digit_byte(b)
}

fn byte_is_digit(b: u8) -> (r: bool)
    ensures
        r == is_digit_byte(b),
{
    48 <= b && b <= 57
}

fn byte_is_ident_start(b: u8) -> (r: bool)
    ensures
        r == is_ident_start_byte(b),
{
    (65 <= b && b <= 90) || (97 <= b && b <= 122) || b == 95
}

fn byte_is_ident(b: u8) -> (r: bool)
    ensures
        r == is_ident_byte(b),
{
    byte_is_ident_start(b) || byte_is_digit(b)
}

/// Saturating increment, used for source positions so position arithmetic
/// can never overflow.
fn bump(x: usize, by: usize) -> (r: usize)
    ensures
        r == if x + by <= usize::MAX { x + by } else { usize::MAX as int },
{
    if x <= usize::MAX - by {
        x + by
    } else {
        usize::MAX
    }
}

/// A character the scanner consumes without producing anything: blank
/// space and line structure.
pub open spec fn skippable_char(c: char) -> bool {
    c == ' ' || c == '\t' || c == '\r' || c == '\n'
}

/// Every token the scanner may hand the parser is well formed: a number
/// token carries exactly the numeric value its digits spell, a string
/// token carries its (unescaped) text, and no other token carries a
/// literal.
pub open spec fn token_wf(t: Token) -> bool {
    match t.kind {
        TokenKind::Number => t.lit matches Some(Lit::Num(n)) && n == digits_value(t.lexeme@) && n
            >= 0,
        TokenKind::Str => t.lit matches Some(Lit::Text(_)),
        TokenKind::Identifier | TokenKind::And | TokenKind::Or | TokenKind::Class
            | TokenKind::Else | TokenKind::False | TokenKind::Fn | TokenKind::If | TokenKind::Nil
            | TokenKind::Print | TokenKind::Return | TokenKind::Super | TokenKind::Slf
            | TokenKind::Let | TokenKind::True | TokenKind::While | TokenKind::Export
            | TokenKind::Use | TokenKind::Buffer | TokenKind::Pipeline | TokenKind::Render => t.lit
            is None && t.kind == keyword_kind(t.lexeme@),
        _ => t.lit is None,
    }
}

/// Scans the whole source once. `Ok` holds the token stream, which always
/// ends with (exactly one) end-of-file token and in which every token is
/// well formed; `Err` holds every lexical error found, in source order,
/// and is returned exactly when at least one was found.
pub fn scan_tokens(source: &str) -> (r: Result<Vec<Token>, Vec<LexError>>)
    ensures
        match r {
            Ok(tokens) => {
                &&& tokens@.len() >= 1
                &&& tokens@.last().kind == TokenKind::Eof
                &&& forall|t: int|
                    0 <= t < tokens@.len() - 1 ==> #[trigger] tokens@[t].kind != TokenKind::Eof
                &&& forall|t: int| 0 <= t < tokens@.len() ==> token_wf(#[trigger] tokens@[t])
                &&& forall|t: int|
                    0 <= t < tokens@.len() - 1 ==> (#[trigger] tokens@[t].lexeme@).len() > 0
                &&& (source@.len() > 0 && !skippable_char(source@[0]) && source@[0] != '/')
                    ==> tokens@.len() >= 2
            },
            Err(errors) => errors@.len() >= 1,
        },
{
    let mut errors: Vec<LexError> = Vec::new();
    let mut tokens: Vec<Token> = Vec::new();
    if !source.is_ascii() {
        errors.push(LexError { kind: LexErrorKind::InvalidCharacter, line: 0, col: 0 });
        return Err(errors);
    }
    let n = source.unicode_len();
    let mut i: usize = 0;
    let mut line: usize = 1;
    let mut col: usize = 1;
    while i < n
        invariant
            source.is_ascii(),
            n == source@.len(),
            i <= n,
            forall|t: int| 0 <= t < tokens@.len() ==> #[trigger] tokens@[t].kind != TokenKind::Eof,
            forall|t: int| 0 <= t < tokens@.len() ==> token_wf(#[trigger] tokens@[t]),
            forall|t: int| 0 <= t < tokens@.len() ==> (#[trigger] tokens@[t].lexeme@).len() > 0,
            (i > 0 && n > 0 && !skippable_char(source@[0]) && source@[0] != '/' && errors@.len()
                == 0) ==> tokens@.len() >= 1,
        decreases n - i,
    {
        let b = source.get_ascii(i);
        let tok_line = line;
        let tok_col = col;
        if b == 10 {
            // newline
            i = i + 1;
            line = bump(line, 1);
            col = 1;
        } else if b == 32 || b == 9 || b == 13 {
            // space, tab, carriage return
            i = i + 1;
            col = bump(col, 1);
        } else if b == 47 && i + 1 < n && source.get_ascii(i + 1) == 47 {
            // a // comment: discard to the end of the line
            let comment_start = i;
            i = i + 2;
            col = bump(col, 2);
            while i < n && source.get_ascii(i) != 10
                invariant
                    source.is_ascii(),
                    n == source@.len(),
                    comment_start < i <= n,
                decreases n - i,
            {
                i = i + 1;
            }
            // the newline itself (if any) is handled by the outer loop
        } else if byte_is_digit(b) {
            let start = i;
            let mut value: i64 = (b - 48) as i64;
            let mut too_large = false;
            i = i + 1;
            proof {
                assert(source@.subrange(start as int, i as int) =~= seq![source@[start as int]]);
                assert(source@.subrange(start as int, i as int).drop_last() =~= Seq::<
                    char,
                >::empty());
                assert('\0' <= source@[start as int] <= '\u{7f}');
                assert(digits_value(Seq::<char>::empty()) == 0);
                assert(digits_value(seq![source@[start as int]]) == source@[start as int] as u32
                    - 48);
            }
            while i < n && byte_is_digit(source.get_ascii(i))
                invariant
                    source.is_ascii(),
                    n == source@.len(),
                    start < i <= n,
                    value >= 0,
                    !too_large ==> value == digits_value(
                        source@.subrange(start as int, i as int),
                    ),
                decreases n - i,
            {
                let d = (source.get_ascii(i) - 48) as i64;
                let ghost prefix = source@.subrange(start as int, i as int);
                match value.checked_mul(10) {
                    None => {
                        too_large = true;
                    },
                    Some(v10) => {
                        match v10.checked_add(d) {
                            None => {
                                too_large = true;
                            },
                            Some(v) => {
                                if !too_large {
                                    value = v;
                                }
                            },
                        }
                    },
                }
                proof {
                    assert('\0' <= source@[i as int] <= '\u{7f}');
                }
                i = i + 1;
                proof {
                    assert(source@.subrange(start as int, i as int).drop_last() =~= prefix);
                    assert(source@.subrange(start as int, i as int).last() == source@[i - 1]);
                }
            }
            col = bump(col, i - start);
            if too_large {
                errors.push(
                    LexError { kind: LexErrorKind::NumberTooLarge, line: tok_line, col: tok_col },
                );
            } else {
                let lexeme = source.substring_ascii(start, i).to_owned();
                tokens.push(
                    Token::new(
                        TokenKind::Number,
                        lexeme,
                        Some(Lit::Num(value)),
                        tok_line,
                        tok_col,
                    ),
                );
            }
        } else if byte_is_ident_start(b) {
            let start = i;
            i = i + 1;
            while i < n && byte_is_ident(source.get_ascii(i))
                invariant
                    source.is_ascii(),
                    n == source@.len(),
                    start < i <= n,
                decreases n - i,
            {
                i = i + 1;
            }
            col = bump(col, i - start);
            let lexeme = source.substring_ascii(start, i).to_owned();
            let kind = keyword_or_ident(lexeme.as_str());
            tokens.push(Token::new(kind, lexeme, None, tok_line, tok_col));
        } else if b == 34 {
            // a string literal
            let mut content: String = String::new();
            let mut j = i + 1;
            let mut closed = false;
            let mut bad_escape = false;
            while j < n && !closed
                invariant
                    source.is_ascii(),
                    n == source@.len(),
                    i < j <= n,
                decreases n - j,
            {
                let cb = source.get_ascii(j);
                if cb == 34 {
                    closed = true;
                    j = j + 1;
                } else if cb == 92 && j + 1 < n {
                    // an escape: \n \t \r \" \\
                    let eb = source.get_ascii(j + 1);
                    if eb == 110 {
                        content.append("\n");
                    } else if eb == 116 {
                        content.append("\t");
                    } else if eb == 114 {
                        content.append("\r");
                    } else if eb == 34 {
                        content.append("\"");
                    } else if eb == 92 {
                        content.append("\\");
                    } else {
                        bad_escape = true;
                    }
                    j = j + 2;
                } else {
                    content.append(source.substring_ascii(j, j + 1));
                    j = j + 1;
                }
            }
            // a string may span lines: walk the consumed span so the next
            // token's line and column are right
            let mut k = i;
            while k < j
                invariant
                    source.is_ascii(),
                    n == source@.len(),
                    i <= k <= j <= n,
                decreases j - k,
            {
                if source.get_ascii(k) == 10 {
                    line = bump(line, 1);
                    col = 1;
                } else {
                    col = bump(col, 1);
                }
                k = k + 1;
            }
            if !closed {
                errors.push(
                    LexError {
                        kind: LexErrorKind::UnterminatedString,
                        line: tok_line,
                        col: tok_col,
                    },
                );
                i = j;
            } else {
                if bad_escape {
                    errors.push(
                        LexError {
                            kind: LexErrorKind::InvalidEscape,
                            line: tok_line,
                            col: tok_col,
                        },
                    );
                } else {
                    let lexeme = if j <= n {
                        source.substring_ascii(i, j).to_owned()
                    } else {
                        String::new()
                    };
                    tokens.push(
                        Token::new(
                            TokenKind::Str,
                            lexeme,
                            Some(Lit::Text(content)),
                            tok_line,
                            tok_col,
                        ),
                    );
                }
                i = j;
            }
        } else {
            // operators and punctuation
            let mut kind: Option<TokenKind> = None;
            let mut two = false;
            if b == 40 {
                kind = Some(TokenKind::LeftParen);
            } else if b == 41 {
                kind = Some(TokenKind::RightParen);
            } else if b == 123 {
                kind = Some(TokenKind::LeftBrace);
            } else if b == 125 {
                kind = Some(TokenKind::RightBrace);
            } else if b == 91 {
                kind = Some(TokenKind::LeftBracket);
            } else if b == 93 {
                kind = Some(TokenKind::RightBracket);
            } else if b == 44 {
                kind = Some(TokenKind::Comma);
            } else if b == 46 {
                kind = Some(TokenKind::Dot);
            } else if b == 59 {
                kind = Some(TokenKind::Semicolon);
            } else if b == 58 {
                kind = Some(TokenKind::Colon);
            } else if b == 43 {
                kind = Some(TokenKind::Plus);
            } else if b == 45 {
                kind = Some(TokenKind::Minus);
            } else if b == 42 {
                kind = Some(TokenKind::Star);
            } else if b == 47 {
                kind = Some(TokenKind::Slash);
            } else if b == 33 {
                if i + 1 < n && source.get_ascii(i + 1) == 61 {
                    kind = Some(TokenKind::BangEqual);
                    two = true;
                } else {
                    kind = Some(TokenKind::Bang);
                }
            } else if b == 61 {
                if i + 1 < n && source.get_ascii(i + 1) == 61 {
                    kind = Some(TokenKind::EqualEqual);
                    two = true;
                } else {
                    kind = Some(TokenKind::Equal);
                }
            } else if b == 62 {
                if i + 1 < n && source.get_ascii(i + 1) == 61 {
                    kind = Some(TokenKind::GreaterEqual);
                    two = true;
                } else {
                    kind = Some(TokenKind::Greater);
                }
            } else if b == 60 {
                if i + 1 < n && source.get_ascii(i + 1) == 61 {
                    kind = Some(TokenKind::LessEqual);
                    two = true;
                } else {
                    kind = Some(TokenKind::Less);
                }
            }
            match kind {
                Some(k) => {
                    let end = if two {
                        i + 2
                    } else {
                        i + 1
                    };
                    let lexeme = source.substring_ascii(i, end).to_owned();
                    tokens.push(Token::new(k, lexeme, None, tok_line, tok_col));
                    i = end;
                    col = bump(col, if two { 2 } else { 1 });
                },
                None => {
                    errors.push(
                        LexError {
                            kind: LexErrorKind::InvalidCharacter,
                            line: tok_line,
                            col: tok_col,
                        },
                    );
                    i = i + 1;
                    col = bump(col, 1);
                },
            }
        }
    }
    tokens.push(Token::new(TokenKind::Eof, String::new(), None, line, col));
    if errors.len() == 0 {
        Ok(tokens)
    } else {
        Err(errors)
    }
}

} // verus!

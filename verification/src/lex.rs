//! Tokens of the restricted module-description language, and the lexer
//! that produces them: identifiers, double-quoted string literals, the
//! bracket pair, the paren pair, commas and `=`, with `#` comments and
//! whitespace skipped.

use vstd::prelude::*;
use vstd::string::StrSliceExecFns;
use vstd::string::StringExecFns;
use crate::errors::ConfigError;

verus! {

/// One token of the restricted language.
#[derive(Debug, PartialEq, Eq)]
pub enum Token {
    Ident(String),
    StrLit(String),
    LParen,
    RParen,
    LBracket,
    RBracket,
    Comma,
    Assign,
}

/// The mathematical model of a token.
pub enum TokenV {
    Ident(Seq<char>),
    StrLit(Seq<char>),
    LParen,
    RParen,
    LBracket,
    RBracket,
    Comma,
    Assign,
}

impl View for Token {
    type V = TokenV;

    open spec fn view(&self) -> TokenV {
        match self {
            Token::Ident(s) => TokenV::Ident(s@),
            Token::StrLit(s) => TokenV::StrLit(s@),
            Token::LParen => TokenV::LParen,
            Token::RParen => TokenV::RParen,
            Token::LBracket => TokenV::LBracket,
            Token::RBracket => TokenV::RBracket,
            Token::Comma => TokenV::Comma,
            Token::Assign => TokenV::Assign,
        }
    }
}

impl DeepView for Token {
    type V = TokenV;

    open spec fn deep_view(&self) -> TokenV {
        self.view()
    }
}

/// Whitespace between tokens.
pub open spec fn spec_is_ws(c: char) -> bool {
    c == ' ' || c == '\t' || c == '\r' || c == '\n'
}

/// A character that may start an identifier.
pub open spec fn spec_is_ident_start(c: char) -> bool {
    ('a' <= c && c <= 'z') || ('A' <= c && c <= 'Z') || c == '_'
}

/// A character that may continue an identifier.
pub open spec fn spec_is_ident_char(c: char) -> bool {
    spec_is_ident_start(c) || ('0' <= c && c <= '9')
}

/// A character allowed inside a string literal.  The language has no
/// escape sequences: the quote, the backslash and the line break are out.
pub open spec fn spec_is_str_char(c: char) -> bool {
    c != '"' && c != '\n' && c != '\\'
}

/// The position just past the current comment line.
pub open spec fn spec_skip_line(s: Seq<char>, pos: int) -> int
    decreases s.len() - pos,
    when 0 <= pos <= s.len()
{
    if pos >= s.len() {
        s.len() as int
    } else if s[pos] == '\n' {
        pos + 1
    } else {
        spec_skip_line(s, pos + 1)
    }
}

pub proof fn lemma_skip_line_bounds(s: Seq<char>, pos: int)
    requires
        0 <= pos <= s.len(),
    ensures
        pos <= spec_skip_line(s, pos) <= s.len(),
        pos < s.len() ==> spec_skip_line(s, pos) > pos,
    decreases s.len() - pos,
{
    if pos < s.len() && s[pos] != '\n' {
        lemma_skip_line_bounds(s, pos + 1);
    }
}

/// The position of the next token: whitespace and `#` comments skipped.
pub open spec fn spec_skip_trivia(s: Seq<char>, pos: int) -> int
    decreases s.len() - pos,
    when 0 <= pos <= s.len()
{
    if pos >= s.len() {
        pos
    } else if spec_is_ws(s[pos]) {
        spec_skip_trivia(s, pos + 1)
    } else if s[pos] == '#' {
        proof {
            lemma_skip_line_bounds(s, pos + 1);
        }
        spec_skip_trivia(s, spec_skip_line(s, pos + 1))
    } else {
        pos
    }
}

pub proof fn lemma_skip_trivia_bounds(s: Seq<char>, pos: int)
    requires
        0 <= pos <= s.len(),
    ensures
        pos <= spec_skip_trivia(s, pos) <= s.len(),
    decreases s.len() - pos,
{
    if pos < s.len() {
        if spec_is_ws(s[pos]) {
            lemma_skip_trivia_bounds(s, pos + 1);
        } else if s[pos] == '#' {
            lemma_skip_line_bounds(s, pos + 1);
            lemma_skip_trivia_bounds(s, spec_skip_line(s, pos + 1));
        }
    }
}

/// The first position at or past `pos` that cannot continue an
/// identifier.
pub open spec fn spec_scan_ident_end(s: Seq<char>, pos: int) -> int
    decreases s.len() - pos,
    when 0 <= pos <= s.len()
{
    if pos >= s.len() {
        pos
    } else if spec_is_ident_char(s[pos]) {
        spec_scan_ident_end(s, pos + 1)
    } else {
        pos
    }
}

pub proof fn lemma_scan_ident_end_bounds(s: Seq<char>, pos: int)
    requires
        0 <= pos <= s.len(),
    ensures
        pos <= spec_scan_ident_end(s, pos) <= s.len(),
    decreases s.len() - pos,
{
    if pos < s.len() && spec_is_ident_char(s[pos]) {
        lemma_scan_ident_end_bounds(s, pos + 1);
    }
}

/// The position of the closing quote of a string literal whose body
/// starts at `pos`, or nothing if the literal never closes or holds a
/// character the language keeps out.
pub open spec fn spec_scan_str_end(s: Seq<char>, pos: int) -> Option<int>
    decreases s.len() - pos,
    when 0 <= pos <= s.len()
{
    if pos >= s.len() {
        None
    } else if s[pos] == '"' {
        Some(pos)
    } else if spec_is_str_char(s[pos]) {
        spec_scan_str_end(s, pos + 1)
    } else {
        None
    }
}

pub proof fn lemma_scan_str_end_bounds(s: Seq<char>, pos: int)
    requires
        0 <= pos <= s.len(),
    ensures
        spec_scan_str_end(s, pos) matches Some(e) ==> pos <= e < s.len(),
    decreases s.len() - pos,
{
    if pos < s.len() && s[pos] != '"' && spec_is_str_char(s[pos]) {
        lemma_scan_str_end_bounds(s, pos + 1);
    }
}

/// Prepends a token to a lexing result.
pub open spec fn spec_lex_cons(t: TokenV, rest: Result<Seq<TokenV>, ()>) -> Result<
    Seq<TokenV>,
    (),
> {
    match rest {
        Ok(ts) => Ok(seq![t] + ts),
        Err(e) => Err(e),
    }
}

/// The tokens of the source from `pos` on, or a failure when a character
/// fits no token.
pub open spec fn spec_lex_from(s: Seq<char>, pos: int) -> Result<Seq<TokenV>, ()>
    decreases s.len() - pos,
    when 0 <= pos <= s.len()
{
    proof {
        lemma_skip_trivia_bounds(s, pos);
    }
    let p = spec_skip_trivia(s, pos);
    if p >= s.len() {
        Ok(Seq::empty())
    } else {
        let c = s[p];
        if c == '(' {
            spec_lex_cons(TokenV::LParen, spec_lex_from(s, p + 1))
        } else if c == ')' {
            spec_lex_cons(TokenV::RParen, spec_lex_from(s, p + 1))
        } else if c == '[' {
            spec_lex_cons(TokenV::LBracket, spec_lex_from(s, p + 1))
        } else if c == ']' {
            spec_lex_cons(TokenV::RBracket, spec_lex_from(s, p + 1))
        } else if c == ',' {
            spec_lex_cons(TokenV::Comma, spec_lex_from(s, p + 1))
        } else if c == '=' {
            spec_lex_cons(TokenV::Assign, spec_lex_from(s, p + 1))
        } else if c == '"' {
            match spec_scan_str_end(s, p + 1) {
                None => Err(()),
                Some(e) => {
                    proof {
                        lemma_scan_str_end_bounds(s, p + 1);
                    }
                    spec_lex_cons(
                        TokenV::StrLit(s.subrange(p + 1, e)),
                        spec_lex_from(s, e + 1),
                    )
                },
            }
        } else if spec_is_ident_start(c) {
            proof {
                lemma_scan_ident_end_bounds(s, p + 1);
            }
            let e = spec_scan_ident_end(s, p + 1);
            spec_lex_cons(TokenV::Ident(s.subrange(p, e)), spec_lex_from(s, e))
        } else {
            Err(())
        }
    }
}

/// The tokens of the whole source.
pub open spec fn spec_lex(s: Seq<char>) -> Result<Seq<TokenV>, ()> {
    spec_lex_from(s, 0)
}

fn ws_char(c: char) -> (r: bool)
    ensures
        r == spec_is_ws(c),
{
    c == ' ' || c == '\t' || c == '\r' || c == '\n'
}

fn ident_start_char(c: char) -> (r: bool)
    ensures
        r == spec_is_ident_start(c),
{
    ('a' <= c && c <= 'z') || ('A' <= c && c <= 'Z') || c == '_'
}

fn ident_char(c: char) -> (r: bool)
    ensures
        r == spec_is_ident_char(c),
{
    ident_start_char(c) || ('0' <= c && c <= '9')
}

fn str_char(c: char) -> (r: bool)
    ensures
        r == spec_is_str_char(c),
{
    c != '"' && c != '\n' && c != '\\'
}

/// The characters of the string, one slot each.
fn str_chars(s: &str) -> (v: Vec<char>)
    ensures
        v@ == s@,
{
    let n = s.unicode_len();
    let mut v: Vec<char> = Vec::new();
    let mut i: usize = 0;
    while i < n
        invariant
            i <= n,
            n == s@.len(),
            v@ =~= s@.subrange(0, i as int),
        decreases n - i,
    {
        v.push(s.get_char(i));
        proof {
            assert(v@ =~= s@.subrange(0, i + 1));
        }
        i += 1;
    }
    proof {
        assert(s@.subrange(0, n as int) =~= s@);
    }
    v
}

fn skip_line(v: &Vec<char>, pos: usize) -> (r: usize)
    requires
        pos <= v.len(),
    ensures
        r == spec_skip_line(v@, pos as int),
        pos <= r <= v.len(),
    decreases v.len() - pos,
{
    if pos >= v.len() {
        v.len()
    } else if v[pos] == '\n' {
        pos + 1
    } else {
        skip_line(v, pos + 1)
    }
}

fn skip_trivia(v: &Vec<char>, pos: usize) -> (r: usize)
    requires
        pos <= v.len(),
    ensures
        r == spec_skip_trivia(v@, pos as int),
        pos <= r <= v.len(),
    decreases v.len() - pos,
{
    if pos >= v.len() {
        pos
    } else if ws_char(v[pos]) {
        skip_trivia(v, pos + 1)
    } else if v[pos] == '#' {
        let q = skip_line(v, pos + 1);
        skip_trivia(v, q)
    } else {
        pos
    }
}

fn scan_ident_end(v: &Vec<char>, pos: usize) -> (r: usize)
    requires
        pos <= v.len(),
    ensures
        r == spec_scan_ident_end(v@, pos as int),
        pos <= r <= v.len(),
    decreases v.len() - pos,
{
    if pos >= v.len() {
        pos
    } else if ident_char(v[pos]) {
        scan_ident_end(v, pos + 1)
    } else {
        pos
    }
}

fn scan_str_end(v: &Vec<char>, pos: usize) -> (r: Option<usize>)
    requires
        pos <= v.len(),
    ensures
        match r {
            Some(e) => spec_scan_str_end(v@, pos as int) == Some(e as int) && pos <= e
                < v.len(),
            None => spec_scan_str_end(v@, pos as int) is None,
        },
    decreases v.len() - pos,
{
    if pos >= v.len() {
        None
    } else if v[pos] == '"' {
        Some(pos)
    } else if str_char(v[pos]) {
        scan_str_end(v, pos + 1)
    } else {
        None
    }
}

fn lex_cons(t: Token, rest: Result<Vec<Token>, ConfigError>) -> (r: Result<
    Vec<Token>,
    ConfigError,
>)
    ensures
        match r {
            Ok(ts2) => rest matches Ok(ts) && ts2.deep_view() == seq![t@] + ts.deep_view(),
            Err(e) => rest == Err::<Vec<Token>, _>(e),
        },
{
    match rest {
        Ok(mut ts) => {
            let ghost old_ts = ts.deep_view();
            ts.insert(0, t);
            proof {
                assert(ts.deep_view() =~= seq![ts@[0].deep_view()] + old_ts);
            }
            Ok(ts)
        },
        Err(e) => Err(e),
    }
}

fn lex_from(s: &str, v: &Vec<char>, pos: usize) -> (r: Result<Vec<Token>, ConfigError>)
    requires
        v@ == s@,
        pos <= v.len(),
    ensures
        match r {
            Ok(ts) => spec_lex_from(s@, pos as int) == Ok::<_, ()>(ts.deep_view()),
            Err(e) => e == ConfigError::Parse && spec_lex_from(s@, pos as int) is Err,
        },
    decreases v.len() - pos,
{
    let p = skip_trivia(v, pos);
    if p >= v.len() {
        let r: Vec<Token> = Vec::new();
        proof {
            assert(r.deep_view() =~= Seq::<TokenV>::empty());
        }
        return Ok(r);
    }
    let c = v[p];
    if c == '(' {
        lex_cons(Token::LParen, lex_from(s, v, p + 1))
    } else if c == ')' {
        lex_cons(Token::RParen, lex_from(s, v, p + 1))
    } else if c == '[' {
        lex_cons(Token::LBracket, lex_from(s, v, p + 1))
    } else if c == ']' {
        lex_cons(Token::RBracket, lex_from(s, v, p + 1))
    } else if c == ',' {
        lex_cons(Token::Comma, lex_from(s, v, p + 1))
    } else if c == '=' {
        lex_cons(Token::Assign, lex_from(s, v, p + 1))
    } else if c == '"' {
        match scan_str_end(v, p + 1) {
            None => Err(ConfigError::Parse),
            Some(e) => {
                let text = String::from_str(s.substring_char(p + 1, e));
                lex_cons(Token::StrLit(text), lex_from(s, v, e + 1))
            },
        }
    } else if ident_start_char(c) {
        let e = scan_ident_end(v, p + 1);
        let text = String::from_str(s.substring_char(p, e));
        lex_cons(Token::Ident(text), lex_from(s, v, e))
    } else {
        Err(ConfigError::Parse)
    }
}

/// Splits the source into its tokens; a character that fits no token is
/// a parse failure.
pub fn lex(s: &str) -> (r: Result<Vec<Token>, ConfigError>)
    ensures
        match r {
            Ok(ts) => spec_lex(s@) == Ok::<_, ()>(ts.deep_view()),
            Err(e) => e == ConfigError::Parse && spec_lex(s@) is Err,
        },
{
    let v = str_chars(s);
    lex_from(s, &v, 0)
}

} // verus!

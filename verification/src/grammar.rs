//! Lexical grammar of HPM-DL.
//!
//! The surface syntax is recognized in two stages. This module holds the
//! first: classification of the source text into tokens (identifiers,
//! numeric literals, string literals, punctuation), with whitespace and
//! `//` line comments insignificant anywhere between two tokens. The
//! functions `sp_*` define the lexical grammar mathematically over
//! `Seq<char>`; the executable scanner is proved to return exactly what
//! they describe. A token records only its kind and its character span in
//! the source, so the same token value serves both levels.

use vstd::prelude::*;

verus! {

/// Entry point of grammar recognition: turns source text into the token
/// stream that the parser consumes.
pub struct HpmDlParser;

/// The kind of a token.
#[derive(Debug, Clone, Copy, PartialEq, Eq, Structural)]
pub enum TokKind {
    /// A run of letters, digits and underscores starting with a letter or
    /// an underscore. Keywords are identifiers classified by the parser.
    Ident,
    /// A run of decimal digits.
    IntLit,
    /// A decimal literal with a fractional part or an exponent.
    FloatLit,
    /// A double-quoted string; the span includes both quotes.
    StrLit,
    Colon,
    Comma,
    LBrace,
    RBrace,
    LParen,
    RParen,
    LBrack,
    RBrack,
    Equals,
    Plus,
    Minus,
    Star,
    Slash,
    /// The centered dot (inner product).
    CenterDot,
    /// The circled times sign (tensor product).
    TensorProd,
    /// The dagger sign (conjugate transpose).
    DaggerMark,
}

/// A token: its kind and its half-open character span `lo..hi` in the
/// source. Token values carry no text; the parser reads spans back from
/// the source where it needs names or literals.
#[derive(Debug, Clone, Copy, PartialEq, Eq, Structural)]
pub struct Token {
    pub kind: TokKind,
    pub lo: usize,
    pub hi: usize,
}

/// The tokens lie in source order after position `i`, without overlap.
pub open spec fn tokens_spaced(ts: Seq<Token>, i: int) -> bool {
    &&& (ts.len() > 0 ==> i <= ts[0].lo)
    &&& forall|k: int| 0 <= k < ts.len() - 1 ==> (#[trigger] ts[k].hi) <= ts[k + 1].lo
}

/// A token span is sound for a source of length `n`: nonempty, in bounds,
/// and a string literal always spans at least its two quotes.
pub open spec fn wf_token(t: Token, n: int) -> bool {
    &&& t.lo < t.hi <= n
    &&& (t.kind == TokKind::StrLit ==> t.lo + 2 <= t.hi)
}

/// All token spans are sound for a source of length `n`.
pub open spec fn wf_tokens(ts: Seq<Token>, n: int) -> bool {
    forall|k: int| 0 <= k < ts.len() ==> wf_token(#[trigger] ts[k], n)
}

/// Insignificant whitespace of the surface syntax.
pub open spec fn is_ws_char(c: char) -> bool {
    c == ' ' || c == '\t' || c == '\n' || c == '\r'
}

/// A decimal digit.
pub open spec fn is_digit_char(c: char) -> bool {
    48 <= c as u32 <= 57
}

/// A character that may start an identifier: a letter or an underscore.
pub open spec fn is_ident_start_char(c: char) -> bool {
    (65 <= c as u32 <= 90) || (97 <= c as u32 <= 122) || c as u32 == 95
}

/// A character that may continue an identifier.
pub open spec fn is_ident_char(c: char) -> bool {
    is_ident_start_char(c) || is_digit_char(c)
}

/// Position of the line break (or the end of the source) that closes a
/// comment starting before `i`.
pub open spec fn sp_skip_line(s: Seq<char>, i: int) -> int
    decreases s.len() - i,
{
    if !(0 <= i < s.len()) {
        i
    } else if s[i] == '\n' {
        i
    } else {
        sp_skip_line(s, i + 1)
    }
}

/// First position at or after `i` that holds neither whitespace nor a
/// `//` line comment.
pub open spec fn sp_skip_ws(s: Seq<char>, i: int) -> int
    decreases s.len() - i,
{
    if !(0 <= i < s.len()) {
        i
    } else if is_ws_char(s[i]) {
        sp_skip_ws(s, i + 1)
    } else if s[i] == '/' && i + 1 < s.len() && s[i + 1] == '/' {
        let j = sp_skip_line(s, i + 2);
        if i < j && j <= s.len() {
            sp_skip_ws(s, j)
        } else {
            j
        }
    } else {
        i
    }
}

/// End of the digit run starting at `i`.
pub open spec fn sp_scan_digits(s: Seq<char>, i: int) -> int
    decreases s.len() - i,
{
    if 0 <= i < s.len() && is_digit_char(s[i]) {
        sp_scan_digits(s, i + 1)
    } else {
        i
    }
}

/// End of the identifier run starting at `i`.
pub open spec fn sp_scan_ident(s: Seq<char>, i: int) -> int
    decreases s.len() - i,
{
    if 0 <= i < s.len() && is_ident_char(s[i]) {
        sp_scan_ident(s, i + 1)
    } else {
        i
    }
}

/// End of an exponent part (`e` or `E`, an optional sign, then at least
/// one digit) starting at `i`; `i` itself when none is present.
pub open spec fn sp_try_exponent(s: Seq<char>, i: int) -> int {
    if 0 <= i < s.len() && (s[i] == 'e' || s[i] == 'E') {
        let k = if i + 1 < s.len() && (s[i + 1] == '+' || s[i + 1] == '-') {
            i + 2
        } else {
            i + 1
        };
        let d = sp_scan_digits(s, k);
        if d > k {
            d
        } else {
            i
        }
    } else {
        i
    }
}

/// End and kind of the numeric literal starting at `i` (a digit, or a dot
/// directly followed by a digit). Integer literals are plain digit runs;
/// a fractional part or an exponent makes the literal a float.
pub open spec fn sp_scan_number(s: Seq<char>, i: int) -> (int, TokKind) {
    if 0 <= i < s.len() && is_digit_char(s[i]) {
        let d1 = sp_scan_digits(s, i);
        if 0 <= d1 < s.len() && s[d1] == '.' {
            let d2 = sp_scan_digits(s, d1 + 1);
            (sp_try_exponent(s, d2), TokKind::FloatLit)
        } else {
            let e = sp_try_exponent(s, d1);
            if e > d1 {
                (e, TokKind::FloatLit)
            } else {
                (d1, TokKind::IntLit)
            }
        }
    } else {
        let d2 = sp_scan_digits(s, i + 1);
        (sp_try_exponent(s, d2), TokKind::FloatLit)
    }
}

/// Position just after the closing quote of a string literal whose body
/// starts at `i`; `None` when the literal is unterminated.
pub open spec fn sp_scan_string(s: Seq<char>, i: int) -> Option<int>
    decreases s.len() - i,
{
    if !(0 <= i < s.len()) {
        None
    } else if s[i] == '"' {
        Some(i + 1)
    } else {
        sp_scan_string(s, i + 1)
    }
}

/// The single-character punctuation tokens.
pub open spec fn sp_punct_kind(c: char) -> Option<TokKind> {
    if c == ':' {
        Some(TokKind::Colon)
    } else if c == ',' {
        Some(TokKind::Comma)
    } else if c == '{' {
        Some(TokKind::LBrace)
    } else if c == '}' {
        Some(TokKind::RBrace)
    } else if c == '(' {
        Some(TokKind::LParen)
    } else if c == ')' {
        Some(TokKind::RParen)
    } else if c == '[' {
        Some(TokKind::LBrack)
    } else if c == ']' {
        Some(TokKind::RBrack)
    } else if c == '=' {
        Some(TokKind::Equals)
    } else if c == '+' {
        Some(TokKind::Plus)
    } else if c == '-' {
        Some(TokKind::Minus)
    } else if c == '*' {
        Some(TokKind::Star)
    } else if c == '/' {
        Some(TokKind::Slash)
    } else if c as u32 == 183 {
        // centered dot
        Some(TokKind::CenterDot)
    } else if c as u32 == 8855 {
        // circled times
        Some(TokKind::TensorProd)
    } else if c as u32 == 8224 {
        // dagger
        Some(TokKind::DaggerMark)
    } else {
        None
    }
}

/// The token starting at position `i` (not whitespace, not the end), or
/// the position of the offending character.
pub open spec fn sp_scan_token(s: Seq<char>, i: int) -> Result<Token, int> {
    if !(0 <= i < s.len()) {
        Err(i)
    } else {
        let c = s[i];
        match sp_punct_kind(c) {
            Some(kind) => Ok(Token { kind, lo: i as usize, hi: (i + 1) as usize }),
            None => {
                if c == '"' {
                    match sp_scan_string(s, i + 1) {
                        Some(k) => {
                            if i + 2 <= k <= s.len() {
                                Ok(Token { kind: TokKind::StrLit, lo: i as usize, hi: k as usize })
                            } else {
                                Err(i)
                            }
                        },
                        None => Err(i),
                    }
                } else if is_digit_char(c) || (c == '.' && i + 1 < s.len() && is_digit_char(
                    s[i + 1],
                )) {
                    let (e, kind) = sp_scan_number(s, i);
                    if i < e <= s.len() {
                        Ok(Token { kind, lo: i as usize, hi: e as usize })
                    } else {
                        Err(i)
                    }
                } else if is_ident_start_char(c) {
                    let e = sp_scan_ident(s, i);
                    if i < e <= s.len() {
                        Ok(Token { kind: TokKind::Ident, lo: i as usize, hi: e as usize })
                    } else {
                        Err(i)
                    }
                } else {
                    Err(i)
                }
            },
        }
    }
}

/// The token stream of the source from position `i` on, or the position
/// of the first character that no token can start with.
pub open spec fn sp_lex_from(s: Seq<char>, i: int) -> Result<Seq<Token>, int>
    decreases s.len() - i,
{
    let j = sp_skip_ws(s, i);
    if !(i <= j <= s.len()) {
        Err(i)
    } else if j == s.len() {
        Ok(Seq::empty())
    } else {
        match sp_scan_token(s, j) {
            Err(p) => Err(p),
            Ok(tok) => {
                if j < tok.hi <= s.len() {
                    match sp_lex_from(s, tok.hi as int) {
                        Ok(rest) => Ok(seq![tok] + rest),
                        Err(p) => Err(p),
                    }
                } else {
                    Err(j)
                }
            },
        }
    }
}

/// The token stream of the whole source, or the position of the first
/// character at which lexing fails.
pub open spec fn sp_lex(s: Seq<char>) -> Result<Seq<Token>, int> {
    sp_lex_from(s, 0)
}

fn is_ws(c: char) -> (r: bool)
    ensures
        r == is_ws_char(c),
{
    c == ' ' || c == '\t' || c == '\n' || c == '\r'
}

fn is_digit(c: char) -> (r: bool)
    ensures
        r == is_digit_char(c),
{
    (c as u32) >= 48 && (c as u32) <= 57
}

fn is_ident_start(c: char) -> (r: bool)
    ensures
        r == is_ident_start_char(c),
{
    ((c as u32) >= 65 && (c as u32) <= 90) || ((c as u32) >= 97 && (c as u32) <= 122) || (c as u32)
        == 95
}

fn is_ident_cont(c: char) -> (r: bool)
    ensures
        r == is_ident_char(c),
{
    is_ident_start(c) || is_digit(c)
}

fn skip_line(s: &Vec<char>, i: usize) -> (r: usize)
    requires
        i <= s@.len(),
    ensures
        r as int == sp_skip_line(s@, i as int),
        i <= r <= s@.len(),
    decreases s@.len() - i,
{
    if i < s.len() && s[i] != '\n' {
        skip_line(s, i + 1)
    } else {
        i
    }
}

fn skip_ws(s: &Vec<char>, i: usize) -> (r: usize)
    requires
        i <= s@.len(),
    ensures
        r as int == sp_skip_ws(s@, i as int),
        i <= r <= s@.len(),
    decreases s@.len() - i,
{
    let n = s.len();
    if i < n && is_ws(s[i]) {
        skip_ws(s, i + 1)
    } else if i < n && s[i] == '/' && i + 1 < n && s[i + 1] == '/' {
        let j = skip_line(s, i + 2);
        skip_ws(s, j)
    } else {
        i
    }
}

fn scan_digits(s: &Vec<char>, i: usize) -> (r: usize)
    requires
        i <= s@.len(),
    ensures
        r as int == sp_scan_digits(s@, i as int),
        i <= r <= s@.len(),
    decreases s@.len() - i,
{
    if i < s.len() && is_digit(s[i]) {
        scan_digits(s, i + 1)
    } else {
        i
    }
}

fn scan_ident(s: &Vec<char>, i: usize) -> (r: usize)
    requires
        i <= s@.len(),
    ensures
        r as int == sp_scan_ident(s@, i as int),
        i <= r <= s@.len(),
    decreases s@.len() - i,
{
    if i < s.len() && is_ident_cont(s[i]) {
        scan_ident(s, i + 1)
    } else {
        i
    }
}

fn try_exponent(s: &Vec<char>, i: usize) -> (r: usize)
    requires
        i <= s@.len(),
    ensures
        r as int == sp_try_exponent(s@, i as int),
        i <= r <= s@.len(),
{
    if i < s.len() && (s[i] == 'e' || s[i] == 'E') {
        let k = if i + 1 < s.len() && (s[i + 1] == '+' || s[i + 1] == '-') {
            i + 2
        } else {
            i + 1
        };
        let d = scan_digits(s, k);
        if d > k {
            d
        } else {
            i
        }
    } else {
        i
    }
}

fn scan_number(s: &Vec<char>, i: usize) -> (r: (usize, TokKind))
    requires
        i < s@.len(),
    ensures
        (r.0 as int, r.1) == sp_scan_number(s@, i as int),
        i <= r.0 <= s@.len(),
{
    if is_digit(s[i]) {
        let d1 = scan_digits(s, i);
        if d1 < s.len() && s[d1] == '.' {
            let d2 = scan_digits(s, d1 + 1);
            (try_exponent(s, d2), TokKind::FloatLit)
        } else {
            let e = try_exponent(s, d1);
            if e > d1 {
                (e, TokKind::FloatLit)
            } else {
                (d1, TokKind::IntLit)
            }
        }
    } else {
        let n = s.len();
        assert(i < n);
        let d2 = scan_digits(s, i + 1);
        (try_exponent(s, d2), TokKind::FloatLit)
    }
}

fn scan_string(s: &Vec<char>, i: usize) -> (r: Option<usize>)
    requires
        i <= s@.len(),
    ensures
        match r {
            Some(k) => sp_scan_string(s@, i as int) == Some(k as int) && i < k <= s@.len(),
            None => sp_scan_string(s@, i as int) is None,
        },
    decreases s@.len() - i,
{
    if i >= s.len() {
        None
    } else if s[i] == '"' {
        Some(i + 1)
    } else {
        scan_string(s, i + 1)
    }
}

fn punct_kind(c: char) -> (r: Option<TokKind>)
    ensures
        r == sp_punct_kind(c),
{
    if c == ':' {
        Some(TokKind::Colon)
    } else if c == ',' {
        Some(TokKind::Comma)
    } else if c == '{' {
        Some(TokKind::LBrace)
    } else if c == '}' {
        Some(TokKind::RBrace)
    } else if c == '(' {
        Some(TokKind::LParen)
    } else if c == ')' {
        Some(TokKind::RParen)
    } else if c == '[' {
        Some(TokKind::LBrack)
    } else if c == ']' {
        Some(TokKind::RBrack)
    } else if c == '=' {
        Some(TokKind::Equals)
    } else if c == '+' {
        Some(TokKind::Plus)
    } else if c == '-' {
        Some(TokKind::Minus)
    } else if c == '*' {
        Some(TokKind::Star)
    } else if c == '/' {
        Some(TokKind::Slash)
    } else if c as u32 == 183 {
        Some(TokKind::CenterDot)
    } else if c as u32 == 8855 {
        Some(TokKind::TensorProd)
    } else if c as u32 == 8224 {
        Some(TokKind::DaggerMark)
    } else {
        None
    }
}

fn scan_token(s: &Vec<char>, i: usize) -> (r: Result<Token, usize>)
    requires
        i < s@.len(),
    ensures
        match r {
            Ok(tok) => sp_scan_token(s@, i as int) == Ok::<Token, int>(tok) && tok.lo == i
                && i < tok.hi && wf_token(tok, s@.len() as int),
            Err(p) => sp_scan_token(s@, i as int) == Err::<Token, int>(p as int),
        },
{
    let n = s.len();
    let c = s[i];
    match punct_kind(c) {
        Some(kind) => Ok(Token { kind, lo: i, hi: i + 1 }),
        None => {
            if c == '"' {
                match scan_string(s, i + 1) {
                    Some(k) => Ok(Token { kind: TokKind::StrLit, lo: i, hi: k }),
                    None => Err(i),
                }
            } else if is_digit(c) || (c == '.' && i + 1 < n && is_digit(s[i + 1])) {
                let (e, kind) = scan_number(s, i);
                if i < e {
                    Ok(Token { kind, lo: i, hi: e })
                } else {
                    Err(i)
                }
            } else if is_ident_start(c) {
                let e = scan_ident(s, i);
                if i < e {
                    Ok(Token { kind: TokKind::Ident, lo: i, hi: e })
                } else {
                    Err(i)
                }
            } else {
                Err(i)
            }
        },
    }
}

fn lex_from(s: &Vec<char>, i: usize) -> (r: Result<Vec<Token>, usize>)
    requires
        i <= s@.len(),
    ensures
        match r {
            Ok(toks) => sp_lex_from(s@, i as int) == Ok::<Seq<Token>, int>(toks@) && wf_tokens(
                toks@,
                s@.len() as int,
            ) && tokens_spaced(toks@, i as int),
            Err(p) => sp_lex_from(s@, i as int) == Err::<Seq<Token>, int>(p as int),
        },
    decreases s@.len() - i,
{
    let j = skip_ws(s, i);
    if j == s.len() {
        let toks: Vec<Token> = Vec::new();
        assert(toks@ =~= Seq::<Token>::empty());
        Ok(toks)
    } else {
        match scan_token(s, j) {
            Err(p) => Err(p),
            Ok(tok) => {
                match lex_from(s, tok.hi) {
                    Ok(rest) => {
                        let ghost rest_view = rest@;
                        let mut toks = rest;
                        toks.insert(0, tok);
                        assert(toks@ =~= seq![tok] + rest_view);
                        Ok(toks)
                    },
                    Err(p) => Err(p),
                }
            },
        }
    }
}

impl HpmDlParser {
    /// Tokenizes a whole source text, or reports the position of the
    /// first character at which no token can start (an unknown character
    /// or an unterminated string literal).
    pub fn tokenize(s: &Vec<char>) -> (r: Result<Vec<Token>, usize>)
        ensures
            match r {
                Ok(toks) => sp_lex(s@) == Ok::<Seq<Token>, int>(toks@) && wf_tokens(
                    toks@,
                    s@.len() as int,
                ) && tokens_spaced(toks@, 0),
                Err(p) => sp_lex(s@) == Err::<Seq<Token>, int>(p as int),
            },
    {
        lex_from(s, 0)
    }
}

} // verus!

//! Parser for HPM-DL: token stream to typed AST.
//!
//! The functions `sp_parse_*` define the structural grammar mathematically
//! over the source characters and the token stream; the executable parser
//! is proved to return exactly what they describe. Expressions follow four
//! precedence tiers (additive, multiplicative, unary prefix, primary),
//! each a left-associative fold; the recognizer of each tier mirrors its
//! mathematical counterpart one branch for one branch.

use vstd::prelude::*;
use vstd::string::StrSliceExecFns;
use vstd::string::StringExecFns;

use crate::ast::{
    Axiom, AxiomMetadata, BinaryOp, Constraint, ConstraintType, Expression, HomologyGenerator,
    InitialState, MatrixSpec, Numeral, Operator, OperatorSpec, OperatorType, Program, SafetyLevel,
    SpecAxiom, SpecAxiomMetadata, SpecConstraint, SpecExpr, SpecHomologyGenerator,
    SpecInitialState, SpecMatrixSpec, SpecOperator, SpecOperatorSpec, SpecProgram, SpecStateSpec,
    SpecTensorNetworkSpec, SpecTopologyConstraint, SpecTruncationSpec, StateRepresentation,
    StateSpec, TensorNetworkSpec, TensorNetworkType, TopologyConstraint, TruncationMethod,
    TruncationSpec, UnaryOp, expr_view, exprs_view,
};
use crate::grammar::{
    HpmDlParser, TokKind, Token, is_digit_char, is_ws_char, sp_lex, sp_lex_from, sp_skip_ws,
    wf_token, wf_tokens,
};

verus! {

broadcast use vstd::std_specs::vec::axiom_spec_len;

/// A fatal syntax error: `pos` is the character offset at which lexing
/// failed, or the start of the statement that could not be parsed, or the
/// length of the source when more input was required.
#[derive(Debug, Clone, Copy, PartialEq, Eq, Structural)]
pub struct SyntaxError {
    pub pos: usize,
}

/// The character span of a token.
pub open spec fn tok_text(s: Seq<char>, tok: Token) -> Seq<char> {
    s.subrange(tok.lo as int, tok.hi as int)
}

/// Token `i` exists and has kind `k`.
pub open spec fn sp_at(t: Seq<Token>, i: int, k: TokKind) -> bool {
    0 <= i < t.len() && t[i].kind == k
}

/// Token `i` exists and is the identifier `kw`.
pub open spec fn sp_kw_at(s: Seq<char>, t: Seq<Token>, i: int, kw: Seq<char>) -> bool {
    sp_at(t, i, TokKind::Ident) && tok_text(s, t[i]) == kw
}

/// Tokens appear in source order, without overlap.
pub open spec fn tokens_ordered(t: Seq<Token>) -> bool {
    forall|k: int| 0 <= k < t.len() - 1 ==> (#[trigger] t[k].hi) <= t[k + 1].lo
}

/// The well-formedness the parser relies on: every token span is sound
/// for the source and the spans appear in order.
pub open spec fn wf_stream(s: Seq<char>, t: Seq<Token>) -> bool {
    wf_tokens(t, s.len() as int) && tokens_ordered(t)
}

/// In a well-formed stream, the start of token `k` never lies after the
/// end of a later token `l`.
proof fn lemma_span_order(s: Seq<char>, t: Seq<Token>, k: int, l: int)
    requires
        wf_stream(s, t),
        0 <= k <= l < t.len(),
    ensures
        t[k].lo < t[l].hi,
    decreases l - k,
{
    if k < l {
        lemma_span_order(s, t, k, l - 1);
    }
}

/// Relies on `String::push`: appends exactly one character.
#[verifier::external_body]
fn push_char(s: &mut String, c: char)
    ensures
        final (s)@ == old(s)@.push(c),
{
    s.push(c);
}

/// Copies the span `lo..hi` of the source into an owned string.
fn span_string(src: &Vec<char>, lo: usize, hi: usize) -> (r: String)
    requires
        lo <= hi <= src@.len(),
    ensures
        r@ == src@.subrange(lo as int, hi as int),
{
    let mut out = String::new();
    let mut k = lo;
    while k < hi
        invariant
            lo <= k <= hi <= src@.len(),
            out@ == src@.subrange(lo as int, k as int),
        decreases hi - k,
    {
        push_char(&mut out, src[k]);
        proof {
            assert(src@.subrange(lo as int, (k + 1) as int) =~= src@.subrange(
                lo as int,
                k as int,
            ).push(src@[k as int]));
        }
        k = k + 1;
    }
    out
}

/// Copies a token's text into an owned string.
fn tok_string(src: &Vec<char>, tok: Token) -> (r: String)
    requires
        wf_token(tok, src@.len() as int),
    ensures
        r@ == tok_text(src@, tok),
{
    span_string(src, tok.lo, tok.hi)
}

/// Whether the token's text equals the given keyword.
fn tok_text_eq(src: &Vec<char>, tok: Token, kw: &str) -> (r: bool)
    requires
        wf_token(tok, src@.len() as int),
    ensures
        r == (tok_text(src@, tok) == kw@),
{
    let n = kw.unicode_len();
    if n != tok.hi - tok.lo {
        proof {
            assert(tok_text(src@, tok).len() != kw@.len());
        }
        return false;
    }
    let mut k: usize = 0;
    while k < n
        invariant
            0 <= k <= n,
            n == kw@.len(),
            tok.lo + n == tok.hi <= src@.len(),
            forall|m: int| 0 <= m < k ==> src@[tok.lo + m] == kw@[m],
        decreases n - k,
    {
        if src[tok.lo + k] != kw.get_char(k) {
            proof {
                assert(tok_text(src@, tok)[k as int] != kw@[k as int]);
            }
            return false;
        }
        k = k + 1;
    }
    proof {
        assert(tok_text(src@, tok) =~= kw@);
    }
    true
}

/// Token `i` exists and has kind `k`.
fn at(t: &Vec<Token>, i: usize, k: TokKind) -> (r: bool)
    ensures
        r == sp_at(t@, i as int, k),
{
    i < t.len() && t[i].kind == k
}

/// Token `i` exists and is the identifier `kw`.
fn kw_at(src: &Vec<char>, t: &Vec<Token>, i: usize, kw: &str) -> (r: bool)
    requires
        wf_tokens(t@, src@.len() as int),
    ensures
        r == sp_kw_at(src@, t@, i as int, kw@),
{
    at(t, i, TokKind::Ident) && tok_text_eq(src, t[i], kw)
}

/// The numeric value of a digit sequence, most significant digit first.
pub open spec fn sp_digits_nat(text: Seq<char>) -> nat
    decreases text.len(),
{
    if text.len() == 0 {
        0
    } else {
        sp_digits_nat(text.drop_last()) * 10 + (text.last() as u32 - 48) as nat
    }
}

/// All characters are decimal digits.
pub open spec fn sp_all_digits(text: Seq<char>) -> bool {
    forall|k: int| 0 <= k < text.len() ==> is_digit_char(#[trigger] text[k])
}

/// The machine-word value of a decimal literal: `None` when the text is
/// not a plain digit run or its value does not fit in `usize`.
pub open spec fn sp_int_value(text: Seq<char>) -> Option<usize> {
    if sp_all_digits(text) && sp_digits_nat(text) <= usize::MAX {
        Some(sp_digits_nat(text) as usize)
    } else {
        None
    }
}

/// The value reading, with the leniency of the surface syntax: a literal
/// that does not fit becomes zero.
pub open spec fn sp_int_value_or_zero(text: Seq<char>) -> usize {
    match sp_int_value(text) {
        Some(v) => v,
        None => 0,
    }
}

/// A digit run is worth at least any of its prefixes.
proof fn lemma_digits_prefix_le(text: Seq<char>, k: int)
    requires
        0 <= k <= text.len(),
    ensures
        sp_digits_nat(text.subrange(0, k)) <= sp_digits_nat(text),
    decreases text.len() - k,
{
    if k == text.len() {
        assert(text.subrange(0, k) =~= text);
    } else {
        lemma_digits_prefix_le(text, k + 1);
        let p1 = text.subrange(0, k + 1);
        assert(p1.drop_last() =~= text.subrange(0, k));
        assert(sp_digits_nat(text.subrange(0, k)) <= sp_digits_nat(p1));
    }
}

/// Reads the value of a digit token; `None` when it does not fit in
/// `usize` (or a non-digit character appears in the span).
fn int_value(src: &Vec<char>, tok: Token) -> (r: Option<usize>)
    requires
        wf_token(tok, src@.len() as int),
    ensures
        r == sp_int_value(tok_text(src@, tok)),
{
    let ghost text = tok_text(src@, tok);
    let mut acc: usize = 0;
    let mut k = tok.lo;
    while k < tok.hi
        invariant
            tok.lo <= k <= tok.hi <= src@.len(),
            text == tok_text(src@, tok),
            sp_all_digits(text.subrange(0, k - tok.lo)),
            acc == sp_digits_nat(text.subrange(0, k - tok.lo)),
        decreases tok.hi - k,
    {
        let c = src[k];
        let ghost prefix = text.subrange(0, k - tok.lo);
        let ghost prefix1 = text.subrange(0, k + 1 - tok.lo);
        proof {
            assert(prefix1.drop_last() =~= prefix);
            assert(prefix1.last() == c);
        }
        if !((c as u32) >= 48 && (c as u32) <= 57) {
            proof {
                assert(text[k - tok.lo] == c);
                assert(!sp_all_digits(text));
            }
            return None;
        }
        let d = (c as u32 - 48) as usize;
        if acc > (usize::MAX - d) / 10 {
            proof {
                assert(acc * 10 + d > usize::MAX) by (nonlinear_arith)
                    requires
                        acc > (usize::MAX - d) / 10,
                        d <= 9,
                ;
                lemma_digits_prefix_le(text, k + 1 - tok.lo);
                if sp_all_digits(text) {
                    assert(sp_digits_nat(text) >= sp_digits_nat(prefix1));
                }
            }
            return None;
        }
        acc = acc * 10 + d;
        k = k + 1;
    }
    proof {
        assert(text.subrange(0, tok.hi - tok.lo) =~= text);
    }
    Some(acc)
}

/// Reads the value of a digit token with the surface leniency: zero when
/// the literal does not fit.
fn int_value_or_zero(src: &Vec<char>, tok: Token) -> (r: usize)
    requires
        wf_token(tok, src@.len() as int),
    ensures
        r == sp_int_value_or_zero(tok_text(src@, tok)),
{
    match int_value(src, tok) {
        Some(v) => v,
        None => 0,
    }
}

// ---------------------------------------------------------------------
// Expression grammar: four precedence tiers, each a left-associative
// fold over the next-higher tier.
// ---------------------------------------------------------------------

/// The additive operator at token `i`, if any.
pub open spec fn sp_add_op(t: Seq<Token>, i: int) -> Option<BinaryOp> {
    if sp_at(t, i, TokKind::Plus) {
        Some(BinaryOp::Add)
    } else if sp_at(t, i, TokKind::Minus) {
        Some(BinaryOp::Sub)
    } else {
        None
    }
}

/// The multiplicative operator at token `i`, if any. `*` and `/` are the
/// arithmetic forms; the centered dot and `dot` name the inner product;
/// the circled times, `otimes`, `tensor` and `x` name the tensor product.
pub open spec fn sp_mul_op(s: Seq<char>, t: Seq<Token>, i: int) -> Option<BinaryOp> {
    if sp_at(t, i, TokKind::Star) {
        Some(BinaryOp::Mul)
    } else if sp_at(t, i, TokKind::Slash) {
        Some(BinaryOp::Div)
    } else if sp_at(t, i, TokKind::CenterDot) || sp_kw_at(s, t, i, "dot"@) {
        Some(BinaryOp::Dot)
    } else if sp_at(t, i, TokKind::TensorProd) || sp_kw_at(s, t, i, "otimes"@) || sp_kw_at(
        s,
        t,
        i,
        "tensor"@,
    ) || sp_kw_at(s, t, i, "x"@) {
        Some(BinaryOp::Cross)
    } else {
        None
    }
}

/// The unary prefix operator at token `i`, if any.
pub open spec fn sp_unary_op(s: Seq<char>, t: Seq<Token>, i: int) -> Option<UnaryOp> {
    if sp_at(t, i, TokKind::Minus) {
        Some(UnaryOp::Neg)
    } else if sp_at(t, i, TokKind::DaggerMark) || sp_kw_at(s, t, i, "dagger"@) || sp_kw_at(
        s,
        t,
        i,
        "conj"@,
    ) {
        Some(UnaryOp::Conjugate)
    } else if sp_kw_at(s, t, i, "T"@) || sp_kw_at(s, t, i, "transpose"@) {
        Some(UnaryOp::Transpose)
    } else if sp_kw_at(s, t, i, "trace"@) {
        Some(UnaryOp::Trace)
    } else {
        None
    }
}

/// An expression starting at token `i`: the additive tier.
pub open spec fn sp_parse_expr(s: Seq<char>, t: Seq<Token>, i: int) -> Option<(int, SpecExpr)>
    decreases t.len() - i, 8int,
{
    if !(0 <= i <= t.len()) {
        None
    } else {
        sp_parse_add(s, t, i)
    }
}

/// The additive tier: a multiplicative operand folded with `+`/`-` pairs.
pub open spec fn sp_parse_add(s: Seq<char>, t: Seq<Token>, i: int) -> Option<(int, SpecExpr)>
    decreases t.len() - i, 7int,
{
    if !(0 <= i <= t.len()) {
        None
    } else {
        match sp_parse_mul(s, t, i) {
            None => None,
            Some((j, e)) => {
                if i <= j <= t.len() {
                    Some(sp_add_tail(s, t, j, e))
                } else {
                    None
                }
            },
        }
    }
}

/// Folds `(additive-op, multiplicative-operand)` pairs into a left-leaning
/// tree; stops (consuming nothing further) at the first token that does
/// not continue the tier.
pub open spec fn sp_add_tail(s: Seq<char>, t: Seq<Token>, i: int, acc: SpecExpr) -> (int, SpecExpr)
    decreases t.len() - i, 6int,
{
    if !(0 <= i <= t.len()) {
        (i, acc)
    } else {
        match sp_add_op(t, i) {
            None => (i, acc),
            Some(op) => match sp_parse_mul(s, t, i + 1) {
                None => (i, acc),
                Some((j, rhs)) => {
                    if i < j <= t.len() {
                        sp_add_tail(s, t, j, SpecExpr::bin(op, acc, rhs))
                    } else {
                        (i, acc)
                    }
                },
            },
        }
    }
}

/// The multiplicative tier: a unary operand folded with multiplicative
/// operator pairs.
pub open spec fn sp_parse_mul(s: Seq<char>, t: Seq<Token>, i: int) -> Option<(int, SpecExpr)>
    decreases t.len() - i, 5int,
{
    if !(0 <= i <= t.len()) {
        None
    } else {
        match sp_parse_unary(s, t, i) {
            None => None,
            Some((j, e)) => {
                if i <= j <= t.len() {
                    Some(sp_mul_tail(s, t, j, e))
                } else {
                    None
                }
            },
        }
    }
}

/// Folds `(multiplicative-op, unary-operand)` pairs, as [`sp_add_tail`].
pub open spec fn sp_mul_tail(s: Seq<char>, t: Seq<Token>, i: int, acc: SpecExpr) -> (int, SpecExpr)
    decreases t.len() - i, 4int,
{
    if !(0 <= i <= t.len()) {
        (i, acc)
    } else {
        match sp_mul_op(s, t, i) {
            None => (i, acc),
            Some(op) => match sp_parse_unary(s, t, i + 1) {
                None => (i, acc),
                Some((j, rhs)) => {
                    if i < j <= t.len() {
                        sp_mul_tail(s, t, j, SpecExpr::bin(op, acc, rhs))
                    } else {
                        (i, acc)
                    }
                },
            },
        }
    }
}

/// The unary tier: zero or more prefix operators before a primary. The
/// operator textually closest to the operand applies first.
pub open spec fn sp_parse_unary(s: Seq<char>, t: Seq<Token>, i: int) -> Option<(int, SpecExpr)>
    decreases t.len() - i, 3int,
{
    if !(0 <= i <= t.len()) {
        None
    } else {
        match sp_unary_op(s, t, i) {
            Some(op) => match sp_parse_unary(s, t, i + 1) {
                Some((j, e)) => Some((j, SpecExpr::un(op, e))),
                None => None,
            },
            None => sp_parse_primary(s, t, i),
        }
    }
}

/// The primary tier: a numeric literal, a function call, an identifier,
/// or a parenthesized sub-expression.
pub open spec fn sp_parse_primary(s: Seq<char>, t: Seq<Token>, i: int) -> Option<(int, SpecExpr)>
    decreases t.len() - i, 2int,
{
    if !(0 <= i < t.len()) {
        None
    } else if t[i].kind == TokKind::IntLit || t[i].kind == TokKind::FloatLit {
        Some((i + 1, SpecExpr::Constant(tok_text(s, t[i]))))
    } else if t[i].kind == TokKind::Ident {
        if sp_at(t, i + 1, TokKind::LParen) {
            if sp_at(t, i + 2, TokKind::RParen) {
                Some((i + 3, SpecExpr::FunctionCall { name: tok_text(s, t[i]), args: Seq::empty() }))
            } else {
                match sp_parse_args(s, t, i + 2) {
                    None => None,
                    Some((j, args)) => {
                        if sp_at(t, j, TokKind::RParen) {
                            Some((j + 1, SpecExpr::FunctionCall { name: tok_text(s, t[i]), args }))
                        } else {
                            None
                        }
                    },
                }
            }
        } else {
            Some((i + 1, SpecExpr::Variable(tok_text(s, t[i]))))
        }
    } else if t[i].kind == TokKind::LParen {
        match sp_parse_expr(s, t, i + 1) {
            None => None,
            Some((j, e)) => {
                if sp_at(t, j, TokKind::RParen) {
                    Some((j + 1, e))
                } else {
                    None
                }
            },
        }
    } else {
        None
    }
}

/// A comma-separated, non-empty argument list.
pub open spec fn sp_parse_args(s: Seq<char>, t: Seq<Token>, i: int) -> Option<(int, Seq<SpecExpr>)>
    decreases t.len() - i, 9int,
{
    if !(0 <= i <= t.len()) {
        None
    } else {
        match sp_parse_expr(s, t, i) {
            None => None,
            Some((j, e)) => {
                if sp_at(t, j, TokKind::Comma) {
                    if i < j + 1 <= t.len() {
                        match sp_parse_args(s, t, j + 1) {
                            None => None,
                            Some((k, rest)) => Some((k, seq![e] + rest)),
                        }
                    } else {
                        None
                    }
                } else {
                    Some((j, seq![e]))
                }
            },
        }
    }
}

// ---------------------------------------------------------------------
// Executable expression parser.
// ---------------------------------------------------------------------

fn add_op(t: &Vec<Token>, i: usize) -> (r: Option<BinaryOp>)
    ensures
        r == sp_add_op(t@, i as int),
{
    if at(t, i, TokKind::Plus) {
        Some(BinaryOp::Add)
    } else if at(t, i, TokKind::Minus) {
        Some(BinaryOp::Sub)
    } else {
        None
    }
}

fn mul_op(src: &Vec<char>, t: &Vec<Token>, i: usize) -> (r: Option<BinaryOp>)
    requires
        wf_tokens(t@, src@.len() as int),
    ensures
        r == sp_mul_op(src@, t@, i as int),
{
    if at(t, i, TokKind::Star) {
        Some(BinaryOp::Mul)
    } else if at(t, i, TokKind::Slash) {
        Some(BinaryOp::Div)
    } else if at(t, i, TokKind::CenterDot) || kw_at(src, t, i, "dot") {
        Some(BinaryOp::Dot)
    } else if at(t, i, TokKind::TensorProd) || kw_at(src, t, i, "otimes") || kw_at(
        src,
        t,
        i,
        "tensor",
    ) || kw_at(src, t, i, "x") {
        Some(BinaryOp::Cross)
    } else {
        None
    }
}

fn unary_op(src: &Vec<char>, t: &Vec<Token>, i: usize) -> (r: Option<UnaryOp>)
    requires
        wf_tokens(t@, src@.len() as int),
    ensures
        r == sp_unary_op(src@, t@, i as int),
{
    if at(t, i, TokKind::Minus) {
        Some(UnaryOp::Neg)
    } else if at(t, i, TokKind::DaggerMark) || kw_at(src, t, i, "dagger") || kw_at(
        src,
        t,
        i,
        "conj",
    ) {
        Some(UnaryOp::Conjugate)
    } else if kw_at(src, t, i, "T") || kw_at(src, t, i, "transpose") {
        Some(UnaryOp::Transpose)
    } else if kw_at(src, t, i, "trace") {
        Some(UnaryOp::Trace)
    } else {
        None
    }
}

pub(crate) fn parse_expr(src: &Vec<char>, t: &Vec<Token>, i: usize) -> (r: Option<(
    usize,
    Expression,
)>)
    requires
        wf_stream(src@, t@),
        i <= t.len(),
    ensures
        match r {
            Some((j, e)) => sp_parse_expr(src@, t@, i as int) == Some((j as int, expr_view(e)))
                && i < j <= t@.len(),
            None => sp_parse_expr(src@, t@, i as int) is None,
        },
    decreases t@.len() - i, 8int,
{
    parse_add(src, t, i)
}

fn parse_add(src: &Vec<char>, t: &Vec<Token>, i: usize) -> (r: Option<(usize, Expression)>)
    requires
        wf_stream(src@, t@),
        i <= t.len(),
    ensures
        match r {
            Some((j, e)) => sp_parse_add(src@, t@, i as int) == Some((j as int, expr_view(e)))
                && i < j <= t@.len(),
            None => sp_parse_add(src@, t@, i as int) is None,
        },
    decreases t@.len() - i, 7int,
{
    match parse_mul(src, t, i) {
        None => None,
        Some((j, e)) => Some(parse_add_tail(src, t, j, e)),
    }
}

fn parse_add_tail(src: &Vec<char>, t: &Vec<Token>, i: usize, acc: Expression) -> (r: (
    usize,
    Expression,
))
    requires
        wf_stream(src@, t@),
        i <= t.len(),
    ensures
        ({
            let (j, e) = r;
            sp_add_tail(src@, t@, i as int, expr_view(acc)) == (j as int, expr_view(e)) && i <= j
                <= t@.len()
        }),
    decreases t@.len() - i, 6int,
{
    match add_op(t, i) {
        None => (i, acc),
        Some(op) => match parse_mul(src, t, i + 1) {
            None => (i, acc),
            Some((j, rhs)) => {
                let node = Expression::BinaryOp { op, left: Box::new(acc), right: Box::new(rhs) };
                parse_add_tail(src, t, j, node)
            },
        },
    }
}

fn parse_mul(src: &Vec<char>, t: &Vec<Token>, i: usize) -> (r: Option<(usize, Expression)>)
    requires
        wf_stream(src@, t@),
        i <= t.len(),
    ensures
        match r {
            Some((j, e)) => sp_parse_mul(src@, t@, i as int) == Some((j as int, expr_view(e)))
                && i < j <= t@.len(),
            None => sp_parse_mul(src@, t@, i as int) is None,
        },
    decreases t@.len() - i, 5int,
{
    match parse_unary(src, t, i) {
        None => None,
        Some((j, e)) => Some(parse_mul_tail(src, t, j, e)),
    }
}

fn parse_mul_tail(src: &Vec<char>, t: &Vec<Token>, i: usize, acc: Expression) -> (r: (
    usize,
    Expression,
))
    requires
        wf_stream(src@, t@),
        i <= t.len(),
    ensures
        ({
            let (j, e) = r;
            sp_mul_tail(src@, t@, i as int, expr_view(acc)) == (j as int, expr_view(e)) && i <= j
                <= t@.len()
        }),
    decreases t@.len() - i, 4int,
{
    match mul_op(src, t, i) {
        None => (i, acc),
        Some(op) => match parse_unary(src, t, i + 1) {
            None => (i, acc),
            Some((j, rhs)) => {
                let node = Expression::BinaryOp { op, left: Box::new(acc), right: Box::new(rhs) };
                parse_mul_tail(src, t, j, node)
            },
        },
    }
}

fn parse_unary(src: &Vec<char>, t: &Vec<Token>, i: usize) -> (r: Option<(usize, Expression)>)
    requires
        wf_stream(src@, t@),
        i <= t.len(),
    ensures
        match r {
            Some((j, e)) => sp_parse_unary(src@, t@, i as int) == Some((j as int, expr_view(e)))
                && i < j <= t@.len(),
            None => sp_parse_unary(src@, t@, i as int) is None,
        },
    decreases t@.len() - i, 3int,
{
    match unary_op(src, t, i) {
        Some(op) => match parse_unary(src, t, i + 1) {
            Some((j, e)) => Some((j, Expression::UnaryOp { op, expr: Box::new(e) })),
            None => None,
        },
        None => parse_primary(src, t, i),
    }
}

fn parse_primary(src: &Vec<char>, t: &Vec<Token>, i: usize) -> (r: Option<(usize, Expression)>)
    requires
        wf_stream(src@, t@),
        i <= t.len(),
    ensures
        match r {
            Some((j, e)) => sp_parse_primary(src@, t@, i as int) == Some((j as int, expr_view(e)))
                && i < j <= t@.len(),
            None => sp_parse_primary(src@, t@, i as int) is None,
        },
    decreases t@.len() - i, 2int,
{
    if i >= t.len() {
        return None;
    }
    let tok = t[i];
    if tok.kind == TokKind::IntLit || tok.kind == TokKind::FloatLit {
        let text = tok_string(src, tok);
        Some((i + 1, Expression::Constant(Numeral { text })))
    } else if tok.kind == TokKind::Ident {
        if at(t, i + 1, TokKind::LParen) {
            if at(t, i + 2, TokKind::RParen) {
                let name = tok_string(src, tok);
                let e = Expression::FunctionCall { name, args: Vec::new() };
                proof {
                    assert(expr_view(e)->FunctionCall_args =~= exprs_view(Seq::<
                        Expression,
                    >::empty()));
                    assert(exprs_view(Seq::<Expression>::empty()) =~= Seq::<SpecExpr>::empty());
                }
                Some((i + 3, e))
            } else {
                match parse_args(src, t, i + 2) {
                    None => None,
                    Some((j, args)) => {
                        if at(t, j, TokKind::RParen) {
                            let name = tok_string(src, tok);
                            Some((j + 1, Expression::FunctionCall { name, args }))
                        } else {
                            None
                        }
                    },
                }
            }
        } else {
            let name = tok_string(src, tok);
            Some((i + 1, Expression::Variable(name)))
        }
    } else if tok.kind == TokKind::LParen {
        match parse_expr(src, t, i + 1) {
            None => None,
            Some((j, e)) => {
                if at(t, j, TokKind::RParen) {
                    Some((j + 1, e))
                } else {
                    None
                }
            },
        }
    } else {
        None
    }
}

fn parse_args(src: &Vec<char>, t: &Vec<Token>, i: usize) -> (r: Option<(usize, Vec<Expression>)>)
    requires
        wf_stream(src@, t@),
        i <= t.len(),
    ensures
        match r {
            Some((j, args)) => sp_parse_args(src@, t@, i as int) == Some(
                (j as int, exprs_view(args@)),
            ) && i < j <= t@.len(),
            None => sp_parse_args(src@, t@, i as int) is None,
        },
    decreases t@.len() - i, 9int,
{
    match parse_expr(src, t, i) {
        None => None,
        Some((j, e)) => {
            if at(t, j, TokKind::Comma) {
                match parse_args(src, t, j + 1) {
                    None => None,
                    Some((k, rest)) => {
                        let ghost rest_view = rest@;
                        let mut args = rest;
                        args.insert(0, e);
                        proof {
                            assert(args@ =~= seq![e] + rest_view);
                            assert((seq![e] + rest_view).drop_first() =~= rest_view);
                            assert((seq![e] + rest_view)[0] == e);
                            assert(exprs_view(seq![e] + rest_view) =~= seq![expr_view(e)]
                                + exprs_view(rest_view));
                        }
                        Some((k, args))
                    },
                }
            } else {
                let mut args: Vec<Expression> = Vec::new();
                args.push(e);
                proof {
                    assert(args@[0] == e);
                    assert(args@.drop_first() =~= Seq::<Expression>::empty());
                    assert(exprs_view(Seq::<Expression>::empty()) =~= Seq::<SpecExpr>::empty());
                    assert(exprs_view(args@) =~= seq![expr_view(e)]);
                }
                Some((j, args))
            }
        },
    }
}

// ---------------------------------------------------------------------
// Statement grammar: axiom, operator, state, constraint.
// ---------------------------------------------------------------------

/// One item of an operator body.
pub enum SpecOpItem {
    Matrix(SpecMatrixSpec),
    Tensor(SpecTensorNetworkSpec),
    Kernel(Seq<char>),
}

/// The elements contributed by one integer token of a bracketed list:
/// a value that does not fit in `usize` is skipped.
pub open spec fn sp_int_elem(text: Seq<char>) -> Seq<usize> {
    match sp_int_value(text) {
        Some(v) => seq![v],
        None => Seq::empty(),
    }
}

/// Remaining `, INT` pairs of a bracketed integer list.
pub open spec fn sp_int_list_tail(s: Seq<char>, t: Seq<Token>, i: int, acc: Seq<usize>) -> (
    int,
    Seq<usize>,
)
    decreases t.len() - i,
{
    if sp_at(t, i, TokKind::Comma) && sp_at(t, i + 1, TokKind::IntLit) {
        sp_int_list_tail(s, t, i + 2, acc + sp_int_elem(tok_text(s, t[i + 1])))
    } else {
        (i, acc)
    }
}

/// A bracketed, non-empty integer list `[ INT (, INT)* ]`.
pub open spec fn sp_parse_int_list(s: Seq<char>, t: Seq<Token>, i: int) -> Option<(
    int,
    Seq<usize>,
)> {
    if sp_at(t, i, TokKind::LBrack) && sp_at(t, i + 1, TokKind::IntLit) {
        let (j, elems) = sp_int_list_tail(s, t, i + 2, sp_int_elem(tok_text(s, t[i + 1])));
        if sp_at(t, j, TokKind::RBrack) {
            Some((j + 1, elems))
        } else {
            None
        }
    } else {
        None
    }
}

/// Remaining `, IDENT` pairs of a tag list.
pub open spec fn sp_ident_list_tail(s: Seq<char>, t: Seq<Token>, i: int, acc: Seq<Seq<char>>) -> (
    int,
    Seq<Seq<char>>,
)
    decreases t.len() - i,
{
    if sp_at(t, i, TokKind::Comma) && sp_at(t, i + 1, TokKind::Ident) {
        sp_ident_list_tail(s, t, i + 2, acc.push(tok_text(s, t[i + 1])))
    } else {
        (i, acc)
    }
}

/// An optional `tags [ IDENT (, IDENT)* ]` suffix; consumes nothing when
/// absent or malformed.
pub open spec fn sp_parse_tags_opt(s: Seq<char>, t: Seq<Token>, i: int) -> (int, Seq<Seq<char>>) {
    if sp_kw_at(s, t, i, "tags"@) && sp_at(t, i + 1, TokKind::LBrack) && sp_at(
        t,
        i + 2,
        TokKind::Ident,
    ) {
        let (j, ids) = sp_ident_list_tail(s, t, i + 3, seq![tok_text(s, t[i + 2])]);
        if sp_at(t, j, TokKind::RBrack) {
            (j + 1, ids)
        } else {
            (i, Seq::empty())
        }
    } else {
        (i, Seq::empty())
    }
}

/// An optional `safety LEVEL` suffix; the level defaults to `Safe` when
/// the suffix is absent.
pub open spec fn sp_parse_safety_opt(s: Seq<char>, t: Seq<Token>, i: int) -> (int, SafetyLevel) {
    if sp_kw_at(s, t, i, "safety"@) {
        if sp_kw_at(s, t, i + 1, "safe"@) {
            (i + 2, SafetyLevel::Safe)
        } else if sp_kw_at(s, t, i + 1, "requires_human_force"@) {
            (i + 2, SafetyLevel::RequiresHumanForce)
        } else if sp_kw_at(s, t, i + 1, "dangerous"@) {
            (i + 2, SafetyLevel::Dangerous)
        } else {
            (i, SafetyLevel::Safe)
        }
    } else {
        (i, SafetyLevel::Safe)
    }
}

/// `axiom NAME : EXPR [tags [..]] [safety LEVEL]`, with `i` at the
/// keyword.
pub open spec fn sp_parse_axiom(s: Seq<char>, t: Seq<Token>, i: int) -> Option<(int, SpecAxiom)> {
    if sp_at(t, i + 1, TokKind::Ident) && sp_at(t, i + 2, TokKind::Colon) {
        match sp_parse_expr(s, t, i + 3) {
            None => None,
            Some((j, e)) => {
                let (j1, tags) = sp_parse_tags_opt(s, t, j);
                let (j2, level) = sp_parse_safety_opt(s, t, j1);
                Some(
                    (
                        j2,
                        SpecAxiom {
                            name: tok_text(s, t[i + 1]),
                            expression: e,
                            metadata: SpecAxiomMetadata {
                                description: None,
                                tags,
                                safety_level: level,
                            },
                        },
                    ),
                )
            },
        }
    } else {
        None
    }
}

/// The constraint kind named by token `i`, if any.
pub open spec fn sp_constraint_kind(s: Seq<char>, t: Seq<Token>, i: int) -> Option<
    ConstraintType,
> {
    if sp_kw_at(s, t, i, "entropy_bound"@) {
        Some(ConstraintType::EntropyBound)
    } else if sp_kw_at(s, t, i, "stability_threshold"@) {
        Some(ConstraintType::StabilityThreshold)
    } else if sp_kw_at(s, t, i, "topology_surgery_threshold"@) {
        Some(ConstraintType::TopologySurgeryThreshold)
    } else if sp_kw_at(s, t, i, "human_force_gate"@) {
        Some(ConstraintType::HumanForceGate)
    } else {
        None
    }
}

/// `constraint NAME : KIND EXPR`, with `i` at the keyword.
pub open spec fn sp_parse_constraint(s: Seq<char>, t: Seq<Token>, i: int) -> Option<(
    int,
    SpecConstraint,
)> {
    if sp_at(t, i + 1, TokKind::Ident) && sp_at(t, i + 2, TokKind::Colon) {
        match sp_constraint_kind(s, t, i + 3) {
            None => None,
            Some(kind) => match sp_parse_expr(s, t, i + 4) {
                None => None,
                Some((j, e)) => Some(
                    (
                        j,
                        SpecConstraint {
                            name: tok_text(s, t[i + 1]),
                            expression: e,
                            constraint_type: kind,
                        },
                    ),
                ),
            },
        }
    } else {
        None
    }
}

/// The operator kind named by token `i`, if any.
pub open spec fn sp_operator_kind(s: Seq<char>, t: Seq<Token>, i: int) -> Option<OperatorType> {
    if sp_kw_at(s, t, i, "hamiltonian"@) {
        Some(OperatorType::Hamiltonian)
    } else if sp_kw_at(s, t, i, "dissipative"@) {
        Some(OperatorType::Dissipative)
    } else if sp_kw_at(s, t, i, "topological_mutation"@) {
        Some(OperatorType::TopologicalMutation)
    } else if sp_kw_at(s, t, i, "entropy_flow"@) {
        Some(OperatorType::EntropyFlow)
    } else {
        None
    }
}

/// Remaining `, NUMBER` pairs of a matrix row.
pub open spec fn sp_num_tail(s: Seq<char>, t: Seq<Token>, i: int, acc: Seq<Seq<char>>) -> (
    int,
    Seq<Seq<char>>,
)
    decreases t.len() - i,
{
    if sp_at(t, i, TokKind::Comma) && (sp_at(t, i + 1, TokKind::IntLit) || sp_at(
        t,
        i + 1,
        TokKind::FloatLit,
    )) {
        sp_num_tail(s, t, i + 2, acc.push(tok_text(s, t[i + 1])))
    } else {
        (i, acc)
    }
}

/// One matrix row `[ NUMBER (, NUMBER)* ]`.
pub open spec fn sp_parse_row(s: Seq<char>, t: Seq<Token>, i: int) -> Option<(
    int,
    Seq<Seq<char>>,
)> {
    if sp_at(t, i, TokKind::LBrack) && (sp_at(t, i + 1, TokKind::IntLit) || sp_at(
        t,
        i + 1,
        TokKind::FloatLit,
    )) {
        let (j, nums) = sp_num_tail(s, t, i + 2, seq![tok_text(s, t[i + 1])]);
        if sp_at(t, j, TokKind::RBrack) {
            Some((j + 1, nums))
        } else {
            None
        }
    } else {
        None
    }
}

/// Remaining `, ROW` pairs of a matrix literal, flattened row-major.
pub open spec fn sp_rows_tail(s: Seq<char>, t: Seq<Token>, i: int, acc: Seq<Seq<char>>) -> Option<
    (int, Seq<Seq<char>>),
>
    decreases t.len() - i,
{
    if sp_at(t, i, TokKind::Comma) {
        match sp_parse_row(s, t, i + 1) {
            None => None,
            Some((j, nums)) => {
                if i < j <= t.len() {
                    sp_rows_tail(s, t, j, acc + nums)
                } else {
                    None
                }
            },
        }
    } else if sp_at(t, i, TokKind::RBrack) {
        Some((i + 1, acc))
    } else {
        None
    }
}

/// A matrix literal `[ ROW (, ROW)* ]`, flattened row-major.
pub open spec fn sp_parse_matrix_lit(s: Seq<char>, t: Seq<Token>, i: int) -> Option<(
    int,
    Seq<Seq<char>>,
)> {
    if sp_at(t, i, TokKind::LBrack) {
        match sp_parse_row(s, t, i + 1) {
            None => None,
            Some((j, nums)) => sp_rows_tail(s, t, j, nums),
        }
    } else {
        None
    }
}

/// `matrix ( ROWS , COLS , STORAGE ) = LITERAL`, with `i` at the keyword.
pub open spec fn sp_parse_matrix(s: Seq<char>, t: Seq<Token>, i: int) -> Option<(
    int,
    SpecMatrixSpec,
)> {
    if sp_at(t, i + 1, TokKind::LParen) && sp_at(t, i + 2, TokKind::IntLit) && sp_at(
        t,
        i + 3,
        TokKind::Comma,
    ) && sp_at(t, i + 4, TokKind::IntLit) && sp_at(t, i + 5, TokKind::Comma) && (sp_kw_at(
        s,
        t,
        i + 6,
        "dense"@,
    ) || sp_kw_at(s, t, i + 6, "sparse"@)) && sp_at(t, i + 7, TokKind::RParen) && sp_at(
        t,
        i + 8,
        TokKind::Equals,
    ) {
        match sp_parse_matrix_lit(s, t, i + 9) {
            None => None,
            Some((j, data)) => Some(
                (
                    j,
                    SpecMatrixSpec {
                        rows: sp_int_value_or_zero(tok_text(s, t[i + 2])),
                        cols: sp_int_value_or_zero(tok_text(s, t[i + 4])),
                        sparse: tok_text(s, t[i + 6]) == "sparse"@,
                        data: Some(data),
                    },
                ),
            ),
        }
    } else {
        None
    }
}

/// The tensor-network kind named by token `i`, if any.
pub open spec fn sp_net_kind(s: Seq<char>, t: Seq<Token>, i: int) -> Option<TensorNetworkType> {
    if sp_kw_at(s, t, i, "mps"@) {
        Some(TensorNetworkType::MPS)
    } else if sp_kw_at(s, t, i, "peps"@) {
        Some(TensorNetworkType::PEPS)
    } else if sp_kw_at(s, t, i, "mera"@) {
        Some(TensorNetworkType::MERA)
    } else {
        None
    }
}

/// The truncation method named by token `i`, if any.
pub open spec fn sp_trunc_method(s: Seq<char>, t: Seq<Token>, i: int) -> Option<
    TruncationMethod,
> {
    if sp_kw_at(s, t, i, "svd"@) {
        Some(TruncationMethod::SVD)
    } else if sp_kw_at(s, t, i, "qr"@) {
        Some(TruncationMethod::QR)
    } else if sp_kw_at(s, t, i, "rg"@) {
        Some(TruncationMethod::RG)
    } else {
        None
    }
}

/// `trunc ( METHOD , INT , FLOAT )`, with `i` at the keyword. The maximum
/// bond dimension reads as zero when it does not fit in `usize`; the
/// tolerance keeps its source text.
pub open spec fn sp_parse_trunc(s: Seq<char>, t: Seq<Token>, i: int) -> Option<(
    int,
    SpecTruncationSpec,
)> {
    if sp_at(t, i + 1, TokKind::LParen) && sp_trunc_method(s, t, i + 2) is Some && sp_at(
        t,
        i + 3,
        TokKind::Comma,
    ) && sp_at(t, i + 4, TokKind::IntLit) && sp_at(t, i + 5, TokKind::Comma) && sp_at(
        t,
        i + 6,
        TokKind::FloatLit,
    ) && sp_at(t, i + 7, TokKind::RParen) {
        Some(
            (
                i + 8,
                SpecTruncationSpec {
                    method: sp_trunc_method(s, t, i + 2)->Some_0,
                    max_bond_dim: sp_int_value_or_zero(tok_text(s, t[i + 4])),
                    tolerance: tok_text(s, t[i + 6]),
                },
            ),
        )
    } else {
        None
    }
}

/// `tensor_net ( KIND , [DIMS] [, TRUNC] )`, with `i` at the keyword.
pub open spec fn sp_parse_tensor_net(s: Seq<char>, t: Seq<Token>, i: int) -> Option<(
    int,
    SpecTensorNetworkSpec,
)> {
    if sp_at(t, i + 1, TokKind::LParen) && sp_net_kind(s, t, i + 2) is Some && sp_at(
        t,
        i + 3,
        TokKind::Comma,
    ) {
        let kind = sp_net_kind(s, t, i + 2)->Some_0;
        match sp_parse_int_list(s, t, i + 4) {
            None => None,
            Some((j, dims)) => {
                if sp_at(t, j, TokKind::Comma) && sp_kw_at(s, t, j + 1, "trunc"@) {
                    match sp_parse_trunc(s, t, j + 1) {
                        None => None,
                        Some((k, tr)) => {
                            if sp_at(t, k, TokKind::RParen) {
                                Some(
                                    (
                                        k + 1,
                                        SpecTensorNetworkSpec {
                                            network_type: kind,
                                            bond_dimensions: dims,
                                            truncation: Some(tr),
                                        },
                                    ),
                                )
                            } else {
                                None
                            }
                        },
                    }
                } else if sp_at(t, j, TokKind::RParen) {
                    Some(
                        (
                            j + 1,
                            SpecTensorNetworkSpec {
                                network_type: kind,
                                bond_dimensions: dims,
                                truncation: None,
                            },
                        ),
                    )
                } else {
                    None
                }
            },
        }
    } else {
        None
    }
}

/// The text body of a string literal token (without its quotes).
pub open spec fn sp_str_body(s: Seq<char>, tok: Token) -> Seq<char> {
    s.subrange(tok.lo + 1, tok.hi - 1)
}

/// One item of an operator body, with `i` at its leading keyword.
pub open spec fn sp_parse_op_item(s: Seq<char>, t: Seq<Token>, i: int) -> Option<(
    int,
    SpecOpItem,
)> {
    if sp_kw_at(s, t, i, "matrix"@) {
        match sp_parse_matrix(s, t, i) {
            None => None,
            Some((j, m)) => Some((j, SpecOpItem::Matrix(m))),
        }
    } else if sp_kw_at(s, t, i, "tensor_net"@) {
        match sp_parse_tensor_net(s, t, i) {
            None => None,
            Some((j, tn)) => Some((j, SpecOpItem::Tensor(tn))),
        }
    } else if sp_kw_at(s, t, i, "cuda_kernel"@) {
        if sp_at(t, i + 1, TokKind::LParen) && sp_at(t, i + 2, TokKind::StrLit) && sp_at(
            t,
            i + 3,
            TokKind::RParen,
        ) {
            Some((i + 4, SpecOpItem::Kernel(sp_str_body(s, t[i + 2]))))
        } else {
            None
        }
    } else {
        None
    }
}

/// The fields of an operator body after folding in one more item: when a
/// kind repeats, the last item seen wins.
pub open spec fn sp_fold_item(
    acc: (Option<SpecMatrixSpec>, Option<SpecTensorNetworkSpec>, Option<Seq<char>>),
    item: SpecOpItem,
) -> (Option<SpecMatrixSpec>, Option<SpecTensorNetworkSpec>, Option<Seq<char>>) {
    match item {
        SpecOpItem::Matrix(m) => (Some(m), acc.1, acc.2),
        SpecOpItem::Tensor(tn) => (acc.0, Some(tn), acc.2),
        SpecOpItem::Kernel(k) => (acc.0, acc.1, Some(k)),
    }
}

/// The comma-separated items of an operator body, ending at the closing
/// brace; a trailing comma is allowed.
pub open spec fn sp_op_items(
    s: Seq<char>,
    t: Seq<Token>,
    i: int,
    acc: (Option<SpecMatrixSpec>, Option<SpecTensorNetworkSpec>, Option<Seq<char>>),
) -> Option<(int, (Option<SpecMatrixSpec>, Option<SpecTensorNetworkSpec>, Option<Seq<char>>))>
    decreases t.len() - i,
{
    match sp_parse_op_item(s, t, i) {
        None => None,
        Some((j, item)) => {
            let acc1 = sp_fold_item(acc, item);
            if sp_at(t, j, TokKind::Comma) {
                if sp_at(t, j + 1, TokKind::RBrace) {
                    Some((j + 2, acc1))
                } else if i < j + 1 <= t.len() {
                    sp_op_items(s, t, j + 1, acc1)
                } else {
                    None
                }
            } else if sp_at(t, j, TokKind::RBrace) {
                Some((j + 1, acc1))
            } else {
                None
            }
        },
    }
}

/// An operator body `{ [ITEM (, ITEM)* [,]] }`, with `i` at the opening
/// brace.
pub open spec fn sp_parse_op_body(s: Seq<char>, t: Seq<Token>, i: int) -> Option<(
    int,
    (Option<SpecMatrixSpec>, Option<SpecTensorNetworkSpec>, Option<Seq<char>>),
)> {
    if sp_at(t, i + 1, TokKind::RBrace) {
        Some((i + 2, (None, None, None)))
    } else {
        sp_op_items(s, t, i + 1, (None, None, None))
    }
}

/// `operator NAME : KIND [{ ITEMS }]`, with `i` at the keyword. The raw
/// source text of the whole declaration is kept alongside the structured
/// fields.
pub open spec fn sp_parse_operator(s: Seq<char>, t: Seq<Token>, i: int) -> Option<(
    int,
    SpecOperator,
)> {
    if sp_at(t, i + 1, TokKind::Ident) && sp_at(t, i + 2, TokKind::Colon) && sp_operator_kind(
        s,
        t,
        i + 3,
    ) is Some {
        let kind = sp_operator_kind(s, t, i + 3)->Some_0;
        if sp_at(t, i + 4, TokKind::LBrace) {
            match sp_parse_op_body(s, t, i + 4) {
                None => None,
                Some((j, (m, tn, gk))) => Some(
                    (
                        j,
                        SpecOperator {
                            name: tok_text(s, t[i + 1]),
                            operator_type: kind,
                            spec: SpecOperatorSpec {
                                matrix_representation: m,
                                tensor_network: tn,
                                gpu_kernel: gk,
                                raw: Some(s.subrange(t[i].lo as int, t[j - 1].hi as int)),
                            },
                        },
                    ),
                ),
            }
        } else {
            Some(
                (
                    i + 4,
                    SpecOperator {
                        name: tok_text(s, t[i + 1]),
                        operator_type: kind,
                        spec: SpecOperatorSpec {
                            matrix_representation: None,
                            tensor_network: None,
                            gpu_kernel: None,
                            raw: Some(s.subrange(t[i].lo as int, t[i + 3].hi as int)),
                        },
                    },
                ),
            )
        }
    } else {
        None
    }
}

/// The state representation named by token `i`, if any.
pub open spec fn sp_state_repr(s: Seq<char>, t: Seq<Token>, i: int) -> Option<
    StateRepresentation,
> {
    if sp_kw_at(s, t, i, "mps"@) {
        Some(StateRepresentation::MPS)
    } else if sp_kw_at(s, t, i, "peps"@) {
        Some(StateRepresentation::PEPS)
    } else if sp_kw_at(s, t, i, "dense"@) {
        Some(StateRepresentation::Dense)
    } else if sp_kw_at(s, t, i, "sparse"@) {
        Some(StateRepresentation::Sparse)
    } else {
        None
    }
}

/// An optional `hamiltonian = NAME` suffix. The reference is kept as an
/// operator spec that names its target, with the raw text of the suffix.
pub open spec fn sp_parse_h0_opt(s: Seq<char>, t: Seq<Token>, i: int) -> (
    int,
    Option<SpecOperatorSpec>,
) {
    if sp_kw_at(s, t, i, "hamiltonian"@) && sp_at(t, i + 1, TokKind::Equals) && sp_at(
        t,
        i + 2,
        TokKind::Ident,
    ) {
        (
            i + 3,
            Some(
                SpecOperatorSpec {
                    matrix_representation: None,
                    tensor_network: None,
                    gpu_kernel: Some(tok_text(s, t[i + 2])),
                    raw: Some(s.subrange(t[i].lo as int, t[i + 2].hi as int)),
                },
            ),
        )
    } else {
        (i, None)
    }
}

/// `( dim = INT , repr = STRING )`, with `i` at the opening parenthesis.
pub open spec fn sp_parse_generator(s: Seq<char>, t: Seq<Token>, i: int) -> Option<(
    int,
    SpecHomologyGenerator,
)> {
    if sp_at(t, i, TokKind::LParen) && sp_kw_at(s, t, i + 1, "dim"@) && sp_at(
        t,
        i + 2,
        TokKind::Equals,
    ) && sp_at(t, i + 3, TokKind::IntLit) && sp_at(t, i + 4, TokKind::Comma) && sp_kw_at(
        s,
        t,
        i + 5,
        "repr"@,
    ) && sp_at(t, i + 6, TokKind::Equals) && sp_at(t, i + 7, TokKind::StrLit) && sp_at(
        t,
        i + 8,
        TokKind::RParen,
    ) {
        Some(
            (
                i + 9,
                SpecHomologyGenerator {
                    dimension: sp_int_value_or_zero(tok_text(s, t[i + 3])),
                    representation: sp_str_body(s, t[i + 7]),
                },
            ),
        )
    } else {
        None
    }
}

/// Remaining `, GENERATOR` pairs of a generator list.
pub open spec fn sp_gen_tail(
    s: Seq<char>,
    t: Seq<Token>,
    i: int,
    acc: Seq<SpecHomologyGenerator>,
) -> Option<(int, Seq<SpecHomologyGenerator>)>
    decreases t.len() - i,
{
    if sp_at(t, i, TokKind::Comma) {
        match sp_parse_generator(s, t, i + 1) {
            None => None,
            Some((j, g)) => {
                if i < j <= t.len() {
                    sp_gen_tail(s, t, j, acc.push(g))
                } else {
                    None
                }
            },
        }
    } else {
        Some((i, acc))
    }
}

/// One topology item: `betti = [..]` or `generators = [..]`.
pub open spec fn sp_parse_topo_item(s: Seq<char>, t: Seq<Token>, i: int) -> Option<(
    int,
    SpecTopologyConstraint,
)> {
    if sp_kw_at(s, t, i, "betti"@) && sp_at(t, i + 1, TokKind::Equals) {
        match sp_parse_int_list(s, t, i + 2) {
            None => None,
            Some((j, nums)) => Some(
                (
                    j,
                    SpecTopologyConstraint {
                        betti_numbers: Some(nums),
                        homology_generators: None,
                    },
                ),
            ),
        }
    } else if sp_kw_at(s, t, i, "generators"@) && sp_at(t, i + 1, TokKind::Equals) && sp_at(
        t,
        i + 2,
        TokKind::LBrack,
    ) {
        match sp_parse_generator(s, t, i + 3) {
            None => None,
            Some((j, g)) => match sp_gen_tail(s, t, j, seq![g]) {
                None => None,
                Some((k, gens)) => {
                    if sp_at(t, k, TokKind::RBrack) {
                        Some(
                            (
                                k + 1,
                                SpecTopologyConstraint {
                                    betti_numbers: None,
                                    homology_generators: Some(gens),
                                },
                            ),
                        )
                    } else {
                        None
                    }
                },
            },
        }
    } else {
        None
    }
}

/// The comma-separated items of a topology block, ending at the closing
/// brace; a trailing comma is allowed.
pub open spec fn sp_topo_items(
    s: Seq<char>,
    t: Seq<Token>,
    i: int,
    acc: Seq<SpecTopologyConstraint>,
) -> Option<(int, Seq<SpecTopologyConstraint>)>
    decreases t.len() - i,
{
    match sp_parse_topo_item(s, t, i) {
        None => None,
        Some((j, c)) => {
            let acc1 = acc.push(c);
            if sp_at(t, j, TokKind::Comma) {
                if sp_at(t, j + 1, TokKind::RBrace) {
                    Some((j + 2, acc1))
                } else if i < j + 1 <= t.len() {
                    sp_topo_items(s, t, j + 1, acc1)
                } else {
                    None
                }
            } else if sp_at(t, j, TokKind::RBrace) {
                Some((j + 1, acc1))
            } else {
                None
            }
        },
    }
}

/// An optional `topology { .. }` suffix; consumes nothing when absent or
/// malformed.
pub open spec fn sp_parse_topo_opt(s: Seq<char>, t: Seq<Token>, i: int) -> (
    int,
    Seq<SpecTopologyConstraint>,
) {
    if sp_kw_at(s, t, i, "topology"@) && sp_at(t, i + 1, TokKind::LBrace) {
        if sp_at(t, i + 2, TokKind::RBrace) {
            (i + 3, Seq::empty())
        } else {
            match sp_topo_items(s, t, i + 2, Seq::empty()) {
                None => (i, Seq::empty()),
                Some((j, items)) => (j, items),
            }
        }
    } else {
        (i, Seq::empty())
    }
}

/// `state NAME : REPR [DIMS] [hamiltonian = NAME] [topology { .. }]`,
/// with `i` at the keyword. The state's own name is read but not kept,
/// as the data model stores none.
pub open spec fn sp_parse_state(s: Seq<char>, t: Seq<Token>, i: int) -> Option<(
    int,
    SpecInitialState,
)> {
    if sp_at(t, i + 1, TokKind::Ident) && sp_at(t, i + 2, TokKind::Colon) && sp_state_repr(
        s,
        t,
        i + 3,
    ) is Some {
        let repr = sp_state_repr(s, t, i + 3)->Some_0;
        match sp_parse_int_list(s, t, i + 4) {
            None => None,
            Some((j, dims)) => {
                let (j1, h_0) = sp_parse_h0_opt(s, t, j);
                let (j2, topo) = sp_parse_topo_opt(s, t, j1);
                Some(
                    (
                        j2,
                        SpecInitialState {
                            psi_0: SpecStateSpec { representation: repr, dimensions: dims },
                            h_0,
                            topology_constraints: topo,
                        },
                    ),
                )
            },
        }
    } else {
        None
    }
}

/// The statements of the program from token `i` on, folded into `acc`;
/// on failure, the index of the token at which no statement could be
/// recognized.
pub open spec fn sp_parse_stmts(s: Seq<char>, t: Seq<Token>, i: int, acc: SpecProgram) -> Result<
    SpecProgram,
    int,
>
    decreases t.len() - i,
{
    if !(0 <= i <= t.len()) {
        Err(i)
    } else if i == t.len() {
        Ok(acc)
    } else if sp_kw_at(s, t, i, "axiom"@) {
        match sp_parse_axiom(s, t, i) {
            None => Err(i),
            Some((j, ax)) => {
                if i < j <= t.len() {
                    sp_parse_stmts(s, t, j, SpecProgram { axioms: acc.axioms.push(ax), ..acc })
                } else {
                    Err(i)
                }
            },
        }
    } else if sp_kw_at(s, t, i, "operator"@) {
        match sp_parse_operator(s, t, i) {
            None => Err(i),
            Some((j, op)) => {
                if i < j <= t.len() {
                    sp_parse_stmts(
                        s,
                        t,
                        j,
                        SpecProgram { operators: acc.operators.push(op), ..acc },
                    )
                } else {
                    Err(i)
                }
            },
        }
    } else if sp_kw_at(s, t, i, "state"@) {
        match sp_parse_state(s, t, i) {
            None => Err(i),
            Some((j, st)) => {
                if i < j <= t.len() {
                    sp_parse_stmts(s, t, j, SpecProgram { initial_state: Some(st), ..acc })
                } else {
                    Err(i)
                }
            },
        }
    } else if sp_kw_at(s, t, i, "constraint"@) {
        match sp_parse_constraint(s, t, i) {
            None => Err(i),
            Some((j, c)) => {
                if i < j <= t.len() {
                    sp_parse_stmts(
                        s,
                        t,
                        j,
                        SpecProgram { constraints: acc.constraints.push(c), ..acc },
                    )
                } else {
                    Err(i)
                }
            },
        }
    } else {
        Err(i)
    }
}

/// The program recognized from a token stream: at least one statement,
/// and nothing after the last one. On failure, the index of the
/// offending token.
pub open spec fn sp_parse_program(s: Seq<char>, t: Seq<Token>) -> Result<SpecProgram, int> {
    if t.len() == 0 {
        Err(0)
    } else {
        sp_parse_stmts(s, t, 0, SpecProgram::empty())
    }
}


/// Skipping whitespace in an all-whitespace source reaches its end.
proof fn lemma_skip_ws_blank(src: Seq<char>, i: int)
    requires
        forall|k: int| 0 <= k < src.len() ==> is_ws_char(#[trigger] src[k]),
        0 <= i <= src.len(),
    ensures
        sp_skip_ws(src, i) == src.len(),
    decreases src.len() - i,
{
    if i < src.len() {
        lemma_skip_ws_blank(src, i + 1);
    }
}

/// Law: an empty or whitespace-only source is rejected with a syntax
/// error — a program holds at least one statement — and, like every
/// input, it is rejected by returning an error, never by panicking.
pub proof fn lemma_blank_source_rejected(src: Seq<char>)
    requires
        forall|k: int| 0 <= k < src.len() ==> is_ws_char(#[trigger] src[k]),
    ensures
        sp_program(src) is Err,
{
    lemma_skip_ws_blank(src, 0);
    assert(sp_lex_from(src, 0) == Ok::<Seq<Token>, int>(Seq::empty()));
}

/// What `parse` returns on a given source: the program, or the character
/// position of the failure. An empty or blank source fails (a program
/// holds at least one statement); the position of a statement-level
/// failure is the start of the offending token, or the end of the source
/// when more input was required.
pub open spec fn sp_program(src: Seq<char>) -> Result<SpecProgram, int> {
    match sp_lex(src) {
        Err(p) => Err(p),
        Ok(t) => match sp_parse_program(src, t) {
            Ok(p) => Ok(p),
            Err(k) => Err(
                if 0 <= k < t.len() {
                    t[k].lo as int
                } else {
                    src.len() as int
                },
            ),
        },
    }
}

// ---------------------------------------------------------------------
// Executable statement parser.
// ---------------------------------------------------------------------

/// One item of an operator body.
enum OpItem {
    Matrix(MatrixSpec),
    Tensor(TensorNetworkSpec),
    Kernel(String),
}

/// The mathematical value of an operator-body item.
spec fn op_item_view(it: OpItem) -> SpecOpItem {
    match it {
        OpItem::Matrix(m) => SpecOpItem::Matrix(m.deep_view()),
        OpItem::Tensor(tn) => SpecOpItem::Tensor(tn.deep_view()),
        OpItem::Kernel(k) => SpecOpItem::Kernel(k@),
    }
}

/// Pushing onto a vector pushes the element's view onto the deep view.
pub(crate) proof fn lemma_deep_view_push<T: DeepView>(v: Vec<T>, w: Vec<T>, x: T)
    requires
        w@ == v@.push(x),
    ensures
        w.deep_view() =~= v.deep_view().push(x.deep_view()),
{
    assert forall|k: int| 0 <= k < w@.len() implies w.deep_view()[k] == v.deep_view().push(
        x.deep_view(),
    )[k] by {
        if k < v@.len() {
            assert(w@[k] == v@[k]);
        } else {
            assert(w@[k] == x);
        }
    }
}

/// Copies the body of a string literal (without its quotes) into an
/// owned string.
fn str_body_string(src: &Vec<char>, tok: Token) -> (r: String)
    requires
        wf_token(tok, src@.len() as int),
        tok.kind == TokKind::StrLit,
    ensures
        r@ == sp_str_body(src@, tok),
{
    span_string(src, tok.lo + 1, tok.hi - 1)
}

fn int_list_tail(src: &Vec<char>, t: &Vec<Token>, i: usize, acc: Vec<usize>) -> (r: (
    usize,
    Vec<usize>,
))
    requires
        wf_stream(src@, t@),
        i <= t.len(),
    ensures
        ({
            let (j, l) = r;
            sp_int_list_tail(src@, t@, i as int, acc@) == (j as int, l@) && i <= j <= t@.len()
        }),
    decreases t@.len() - i,
{
    if at(t, i, TokKind::Comma) && at(t, i + 1, TokKind::IntLit) {
        let ghost acc0 = acc@;
        let mut acc = acc;
        match int_value(src, t[i + 1]) {
            Some(v) => {
                acc.push(v);
                proof {
                    assert(acc@ =~= acc0 + sp_int_elem(tok_text(src@, t@[i + 1])));
                }
            },
            None => {
                proof {
                    assert(acc@ =~= acc0 + sp_int_elem(tok_text(src@, t@[i + 1])));
                }
            },
        }
        int_list_tail(src, t, i + 2, acc)
    } else {
        (i, acc)
    }
}

fn parse_int_list(src: &Vec<char>, t: &Vec<Token>, i: usize) -> (r: Option<(usize, Vec<usize>)>)
    requires
        wf_stream(src@, t@),
        i <= t.len(),
    ensures
        match r {
            Some((j, l)) => sp_parse_int_list(src@, t@, i as int) == Some((j as int, l@)) && i < j
                <= t@.len(),
            None => sp_parse_int_list(src@, t@, i as int) is None,
        },
{
    if at(t, i, TokKind::LBrack) && at(t, i + 1, TokKind::IntLit) {
        let mut first: Vec<usize> = Vec::new();
        match int_value(src, t[i + 1]) {
            Some(v) => {
                first.push(v);
                proof {
                    assert(first@ =~= sp_int_elem(tok_text(src@, t@[i + 1])));
                }
            },
            None => {
                proof {
                    assert(first@ =~= sp_int_elem(tok_text(src@, t@[i + 1])));
                }
            },
        }
        let (j, elems) = int_list_tail(src, t, i + 2, first);
        if at(t, j, TokKind::RBrack) {
            Some((j + 1, elems))
        } else {
            None
        }
    } else {
        None
    }
}

fn ident_list_tail(src: &Vec<char>, t: &Vec<Token>, i: usize, acc: Vec<String>) -> (r: (
    usize,
    Vec<String>,
))
    requires
        wf_stream(src@, t@),
        i <= t.len(),
    ensures
        ({
            let (j, l) = r;
            sp_ident_list_tail(src@, t@, i as int, acc.deep_view()) == (j as int, l.deep_view())
                && i <= j <= t@.len()
        }),
    decreases t@.len() - i,
{
    if at(t, i, TokKind::Comma) && at(t, i + 1, TokKind::Ident) {
        let ghost acc0 = acc;
        let mut acc = acc;
        let name = tok_string(src, t[i + 1]);
        acc.push(name);
        proof {
            lemma_deep_view_push(acc0, acc, name);
        }
        ident_list_tail(src, t, i + 2, acc)
    } else {
        (i, acc)
    }
}

fn parse_tags_opt(src: &Vec<char>, t: &Vec<Token>, i: usize) -> (r: (usize, Vec<String>))
    requires
        wf_stream(src@, t@),
        i <= t.len(),
    ensures
        ({
            let (j, tags) = r;
            sp_parse_tags_opt(src@, t@, i as int) == (j as int, tags.deep_view()) && i <= j
                <= t@.len()
        }),
{
    if kw_at(src, t, i, "tags") && at(t, i + 1, TokKind::LBrack) && at(t, i + 2, TokKind::Ident) {
        let mut first: Vec<String> = Vec::new();
        let name = tok_string(src, t[i + 2]);
        let ghost first0 = first;
        first.push(name);
        proof {
            lemma_deep_view_push(first0, first, name);
            assert(first.deep_view() =~= seq![tok_text(src@, t@[i + 2])]);
        }
        let (j, ids) = ident_list_tail(src, t, i + 3, first);
        if at(t, j, TokKind::RBrack) {
            (j + 1, ids)
        } else {
            let empty: Vec<String> = Vec::new();
            proof {
                assert(empty.deep_view() =~= Seq::<Seq<char>>::empty());
            }
            (i, empty)
        }
    } else {
        let empty: Vec<String> = Vec::new();
        proof {
            assert(empty.deep_view() =~= Seq::<Seq<char>>::empty());
        }
        (i, empty)
    }
}

fn parse_safety_opt(src: &Vec<char>, t: &Vec<Token>, i: usize) -> (r: (usize, SafetyLevel))
    requires
        wf_stream(src@, t@),
        i <= t.len(),
    ensures
        ({
            let (j, level) = r;
            sp_parse_safety_opt(src@, t@, i as int) == (j as int, level) && i <= j <= t@.len()
        }),
{
    if kw_at(src, t, i, "safety") {
        if kw_at(src, t, i + 1, "safe") {
            (i + 2, SafetyLevel::Safe)
        } else if kw_at(src, t, i + 1, "requires_human_force") {
            (i + 2, SafetyLevel::RequiresHumanForce)
        } else if kw_at(src, t, i + 1, "dangerous") {
            (i + 2, SafetyLevel::Dangerous)
        } else {
            (i, SafetyLevel::Safe)
        }
    } else {
        (i, SafetyLevel::Safe)
    }
}

fn parse_axiom(src: &Vec<char>, t: &Vec<Token>, i: usize) -> (r: Option<(usize, Axiom)>)
    requires
        wf_stream(src@, t@),
        i < t.len(),
    ensures
        match r {
            Some((j, ax)) => sp_parse_axiom(src@, t@, i as int) == Some((j as int, ax.deep_view()))
                && i < j <= t@.len(),
            None => sp_parse_axiom(src@, t@, i as int) is None,
        },
{
    if at(t, i + 1, TokKind::Ident) && at(t, i + 2, TokKind::Colon) {
        match parse_expr(src, t, i + 3) {
            None => None,
            Some((j, e)) => {
                let (j1, tags) = parse_tags_opt(src, t, j);
                let (j2, level) = parse_safety_opt(src, t, j1);
                let name = tok_string(src, t[i + 1]);
                let ax = Axiom {
                    name,
                    expression: e,
                    metadata: AxiomMetadata { description: None, tags, safety_level: level },
                };
                Some((j2, ax))
            },
        }
    } else {
        None
    }
}

fn constraint_kind(src: &Vec<char>, t: &Vec<Token>, i: usize) -> (r: Option<ConstraintType>)
    requires
        wf_tokens(t@, src@.len() as int),
    ensures
        r == sp_constraint_kind(src@, t@, i as int),
{
    if kw_at(src, t, i, "entropy_bound") {
        Some(ConstraintType::EntropyBound)
    } else if kw_at(src, t, i, "stability_threshold") {
        Some(ConstraintType::StabilityThreshold)
    } else if kw_at(src, t, i, "topology_surgery_threshold") {
        Some(ConstraintType::TopologySurgeryThreshold)
    } else if kw_at(src, t, i, "human_force_gate") {
        Some(ConstraintType::HumanForceGate)
    } else {
        None
    }
}

fn parse_constraint(src: &Vec<char>, t: &Vec<Token>, i: usize) -> (r: Option<(usize, Constraint)>)
    requires
        wf_stream(src@, t@),
        i < t.len(),
    ensures
        match r {
            Some((j, c)) => sp_parse_constraint(src@, t@, i as int) == Some(
                (j as int, c.deep_view()),
            ) && i < j <= t@.len(),
            None => sp_parse_constraint(src@, t@, i as int) is None,
        },
{
    if at(t, i + 1, TokKind::Ident) && at(t, i + 2, TokKind::Colon) {
        match constraint_kind(src, t, i + 3) {
            None => None,
            Some(kind) => match parse_expr(src, t, i + 4) {
                None => None,
                Some((j, e)) => {
                    let name = tok_string(src, t[i + 1]);
                    Some((j, Constraint { name, expression: e, constraint_type: kind }))
                },
            },
        }
    } else {
        None
    }
}

fn operator_kind(src: &Vec<char>, t: &Vec<Token>, i: usize) -> (r: Option<OperatorType>)
    requires
        wf_tokens(t@, src@.len() as int),
    ensures
        r == sp_operator_kind(src@, t@, i as int),
{
    if kw_at(src, t, i, "hamiltonian") {
        Some(OperatorType::Hamiltonian)
    } else if kw_at(src, t, i, "dissipative") {
        Some(OperatorType::Dissipative)
    } else if kw_at(src, t, i, "topological_mutation") {
        Some(OperatorType::TopologicalMutation)
    } else if kw_at(src, t, i, "entropy_flow") {
        Some(OperatorType::EntropyFlow)
    } else {
        None
    }
}

fn num_tail(src: &Vec<char>, t: &Vec<Token>, i: usize, acc: Vec<Numeral>) -> (r: (
    usize,
    Vec<Numeral>,
))
    requires
        wf_stream(src@, t@),
        i <= t.len(),
    ensures
        ({
            let (j, l) = r;
            sp_num_tail(src@, t@, i as int, acc.deep_view()) == (j as int, l.deep_view()) && i <= j
                <= t@.len()
        }),
    decreases t@.len() - i,
{
    if at(t, i, TokKind::Comma) && (at(t, i + 1, TokKind::IntLit) || at(
        t,
        i + 1,
        TokKind::FloatLit,
    )) {
        let ghost acc0 = acc;
        let mut acc = acc;
        let text = tok_string(src, t[i + 1]);
        let num = Numeral { text };
        acc.push(num);
        proof {
            lemma_deep_view_push(acc0, acc, num);
        }
        num_tail(src, t, i + 2, acc)
    } else {
        (i, acc)
    }
}

fn parse_row(src: &Vec<char>, t: &Vec<Token>, i: usize) -> (r: Option<(usize, Vec<Numeral>)>)
    requires
        wf_stream(src@, t@),
        i <= t.len(),
    ensures
        match r {
            Some((j, nums)) => sp_parse_row(src@, t@, i as int) == Some(
                (j as int, nums.deep_view()),
            ) && i < j <= t@.len(),
            None => sp_parse_row(src@, t@, i as int) is None,
        },
{
    if at(t, i, TokKind::LBrack) && (at(t, i + 1, TokKind::IntLit) || at(
        t,
        i + 1,
        TokKind::FloatLit,
    )) {
        let mut first: Vec<Numeral> = Vec::new();
        let ghost first0 = first;
        let text = tok_string(src, t[i + 1]);
        let num = Numeral { text };
        first.push(num);
        proof {
            lemma_deep_view_push(first0, first, num);
            assert(first.deep_view() =~= seq![tok_text(src@, t@[i + 1])]);
        }
        let (j, nums) = num_tail(src, t, i + 2, first);
        if at(t, j, TokKind::RBrack) {
            Some((j + 1, nums))
        } else {
            None
        }
    } else {
        None
    }
}

fn rows_tail(src: &Vec<char>, t: &Vec<Token>, i: usize, acc: Vec<Numeral>) -> (r: Option<(
    usize,
    Vec<Numeral>,
)>)
    requires
        wf_stream(src@, t@),
        i <= t.len(),
    ensures
        match r {
            Some((j, l)) => sp_rows_tail(src@, t@, i as int, acc.deep_view()) == Some(
                (j as int, l.deep_view()),
            ) && i < j <= t@.len(),
            None => sp_rows_tail(src@, t@, i as int, acc.deep_view()) is None,
        },
    decreases t@.len() - i,
{
    if at(t, i, TokKind::Comma) {
        match parse_row(src, t, i + 1) {
            None => None,
            Some((j, nums)) => {
                let ghost acc0 = acc;
                let ghost numsv = nums.deep_view();
                let ghost nums0 = nums@;
                let mut acc = acc;
                let mut nums = nums;
                let ghost n0 = acc@.len() as int;
                acc.append(&mut nums);
                proof {
                    assert(acc.deep_view() =~= acc0.deep_view() + numsv) by {
                        assert(acc@ =~= acc0@ + nums0);
                        assert forall|k: int| 0 <= k < acc@.len() implies acc.deep_view()[k] == (
                        acc0.deep_view() + numsv)[k] by {
                            if k < n0 {
                                assert(acc@[k] == acc0@[k]);
                            } else {
                                assert(acc@[k] == nums0[k - n0]);
                            }
                        }
                    }
                }
                rows_tail(src, t, j, acc)
            },
        }
    } else if at(t, i, TokKind::RBrack) {
        Some((i + 1, acc))
    } else {
        None
    }
}

fn parse_matrix_lit(src: &Vec<char>, t: &Vec<Token>, i: usize) -> (r: Option<(
    usize,
    Vec<Numeral>,
)>)
    requires
        wf_stream(src@, t@),
        i <= t.len(),
    ensures
        match r {
            Some((j, data)) => sp_parse_matrix_lit(src@, t@, i as int) == Some(
                (j as int, data.deep_view()),
            ) && i < j <= t@.len(),
            None => sp_parse_matrix_lit(src@, t@, i as int) is None,
        },
{
    if at(t, i, TokKind::LBrack) {
        match parse_row(src, t, i + 1) {
            None => None,
            Some((j, nums)) => rows_tail(src, t, j, nums),
        }
    } else {
        None
    }
}

fn parse_matrix(src: &Vec<char>, t: &Vec<Token>, i: usize) -> (r: Option<(usize, MatrixSpec)>)
    requires
        wf_stream(src@, t@),
        i < t.len(),
    ensures
        match r {
            Some((j, m)) => sp_parse_matrix(src@, t@, i as int) == Some((j as int, m.deep_view()))
                && i < j <= t@.len(),
            None => sp_parse_matrix(src@, t@, i as int) is None,
        },
{
    if at(t, i + 1, TokKind::LParen) && at(t, i + 2, TokKind::IntLit) && at(t, i + 3, TokKind::Comma)
        && at(t, i + 4, TokKind::IntLit) && at(t, i + 5, TokKind::Comma) && (kw_at(
        src,
        t,
        i + 6,
        "dense",
    ) || kw_at(src, t, i + 6, "sparse")) && at(t, i + 7, TokKind::RParen) && at(
        t,
        i + 8,
        TokKind::Equals,
    ) {
        match parse_matrix_lit(src, t, i + 9) {
            None => None,
            Some((j, data)) => {
                let rows = int_value_or_zero(src, t[i + 2]);
                let cols = int_value_or_zero(src, t[i + 4]);
                let sparse = tok_text_eq(src, t[i + 6], "sparse");
                Some((j, MatrixSpec { rows, cols, sparse, data: Some(data) }))
            },
        }
    } else {
        None
    }
}

fn net_kind(src: &Vec<char>, t: &Vec<Token>, i: usize) -> (r: Option<TensorNetworkType>)
    requires
        wf_tokens(t@, src@.len() as int),
    ensures
        r == sp_net_kind(src@, t@, i as int),
{
    if kw_at(src, t, i, "mps") {
        Some(TensorNetworkType::MPS)
    } else if kw_at(src, t, i, "peps") {
        Some(TensorNetworkType::PEPS)
    } else if kw_at(src, t, i, "mera") {
        Some(TensorNetworkType::MERA)
    } else {
        None
    }
}

fn trunc_method(src: &Vec<char>, t: &Vec<Token>, i: usize) -> (r: Option<TruncationMethod>)
    requires
        wf_tokens(t@, src@.len() as int),
    ensures
        r == sp_trunc_method(src@, t@, i as int),
{
    if kw_at(src, t, i, "svd") {
        Some(TruncationMethod::SVD)
    } else if kw_at(src, t, i, "qr") {
        Some(TruncationMethod::QR)
    } else if kw_at(src, t, i, "rg") {
        Some(TruncationMethod::RG)
    } else {
        None
    }
}

fn parse_trunc(src: &Vec<char>, t: &Vec<Token>, i: usize) -> (r: Option<(usize, TruncationSpec)>)
    requires
        wf_stream(src@, t@),
        i < t.len(),
    ensures
        match r {
            Some((j, tr)) => sp_parse_trunc(src@, t@, i as int) == Some((j as int, tr.deep_view()))
                && i < j <= t@.len(),
            None => sp_parse_trunc(src@, t@, i as int) is None,
        },
{
    if at(t, i + 1, TokKind::LParen) {
        match trunc_method(src, t, i + 2) {
            None => None,
            Some(method) => {
                if at(t, i + 3, TokKind::Comma) && at(t, i + 4, TokKind::IntLit) && at(
                    t,
                    i + 5,
                    TokKind::Comma,
                ) && at(t, i + 6, TokKind::FloatLit) && at(t, i + 7, TokKind::RParen) {
                    let max_bond_dim = int_value_or_zero(src, t[i + 4]);
                    let text = tok_string(src, t[i + 6]);
                    Some(
                        (
                            i + 8,
                            TruncationSpec { method, max_bond_dim, tolerance: Numeral { text } },
                        ),
                    )
                } else {
                    None
                }
            },
        }
    } else {
        None
    }
}

fn parse_tensor_net(src: &Vec<char>, t: &Vec<Token>, i: usize) -> (r: Option<(
    usize,
    TensorNetworkSpec,
)>)
    requires
        wf_stream(src@, t@),
        i < t.len(),
    ensures
        match r {
            Some((j, tn)) => sp_parse_tensor_net(src@, t@, i as int) == Some(
                (j as int, tn.deep_view()),
            ) && i < j <= t@.len(),
            None => sp_parse_tensor_net(src@, t@, i as int) is None,
        },
{
    if at(t, i + 1, TokKind::LParen) {
        match net_kind(src, t, i + 2) {
            None => None,
            Some(kind) => {
                if at(t, i + 3, TokKind::Comma) {
                    match parse_int_list(src, t, i + 4) {
                        None => None,
                        Some((j, dims)) => {
                            if at(t, j, TokKind::Comma) && kw_at(src, t, j + 1, "trunc") {
                                match parse_trunc(src, t, j + 1) {
                                    None => None,
                                    Some((k, tr)) => {
                                        if at(t, k, TokKind::RParen) {
                                            Some(
                                                (
                                                    k + 1,
                                                    TensorNetworkSpec {
                                                        network_type: kind,
                                                        bond_dimensions: dims,
                                                        truncation: Some(tr),
                                                    },
                                                ),
                                            )
                                        } else {
                                            None
                                        }
                                    },
                                }
                            } else if at(t, j, TokKind::RParen) {
                                Some(
                                    (
                                        j + 1,
                                        TensorNetworkSpec {
                                            network_type: kind,
                                            bond_dimensions: dims,
                                            truncation: None,
                                        },
                                    ),
                                )
                            } else {
                                None
                            }
                        },
                    }
                } else {
                    None
                }
            },
        }
    } else {
        None
    }
}

fn parse_op_item(src: &Vec<char>, t: &Vec<Token>, i: usize) -> (r: Option<(usize, OpItem)>)
    requires
        wf_stream(src@, t@),
        i <= t.len(),
    ensures
        match r {
            Some((j, it)) => sp_parse_op_item(src@, t@, i as int) == Some(
                (j as int, op_item_view(it)),
            ) && i < j <= t@.len(),
            None => sp_parse_op_item(src@, t@, i as int) is None,
        },
{
    if kw_at(src, t, i, "matrix") {
        match parse_matrix(src, t, i) {
            None => None,
            Some((j, m)) => Some((j, OpItem::Matrix(m))),
        }
    } else if kw_at(src, t, i, "tensor_net") {
        match parse_tensor_net(src, t, i) {
            None => None,
            Some((j, tn)) => Some((j, OpItem::Tensor(tn))),
        }
    } else if kw_at(src, t, i, "cuda_kernel") {
        if at(t, i + 1, TokKind::LParen) && at(t, i + 2, TokKind::StrLit) && at(
            t,
            i + 3,
            TokKind::RParen,
        ) {
            let body = str_body_string(src, t[i + 2]);
            Some((i + 4, OpItem::Kernel(body)))
        } else {
            None
        }
    } else {
        None
    }
}

fn op_items(
    src: &Vec<char>,
    t: &Vec<Token>,
    i: usize,
    m: Option<MatrixSpec>,
    tn: Option<TensorNetworkSpec>,
    gk: Option<String>,
) -> (r: Option<(usize, (Option<MatrixSpec>, Option<TensorNetworkSpec>, Option<String>))>)
    requires
        wf_stream(src@, t@),
        i <= t.len(),
    ensures
        match r {
            Some((j, acc)) => sp_op_items(
                src@,
                t@,
                i as int,
                (m.deep_view(), tn.deep_view(), gk.deep_view()),
            ) == Some((j as int, (acc.0.deep_view(), acc.1.deep_view(), acc.2.deep_view()))) && i
                < j <= t@.len(),
            None => sp_op_items(
                src@,
                t@,
                i as int,
                (m.deep_view(), tn.deep_view(), gk.deep_view()),
            ) is None,
        },
    decreases t@.len() - i,
{
    match parse_op_item(src, t, i) {
        None => None,
        Some((j, item)) => {
            let (m1, tn1, gk1) = match item {
                OpItem::Matrix(mm) => (Some(mm), tn, gk),
                OpItem::Tensor(tt) => (m, Some(tt), gk),
                OpItem::Kernel(kk) => (m, tn, Some(kk)),
            };
            if at(t, j, TokKind::Comma) {
                if at(t, j + 1, TokKind::RBrace) {
                    Some((j + 2, (m1, tn1, gk1)))
                } else {
                    op_items(src, t, j + 1, m1, tn1, gk1)
                }
            } else if at(t, j, TokKind::RBrace) {
                Some((j + 1, (m1, tn1, gk1)))
            } else {
                None
            }
        },
    }
}

fn parse_op_body(src: &Vec<char>, t: &Vec<Token>, i: usize) -> (r: Option<(
    usize,
    (Option<MatrixSpec>, Option<TensorNetworkSpec>, Option<String>),
)>)
    requires
        wf_stream(src@, t@),
        i < t.len(),
    ensures
        match r {
            Some((j, acc)) => sp_parse_op_body(src@, t@, i as int) == Some(
                (j as int, (acc.0.deep_view(), acc.1.deep_view(), acc.2.deep_view())),
            ) && i < j <= t@.len(),
            None => sp_parse_op_body(src@, t@, i as int) is None,
        },
{
    if at(t, i + 1, TokKind::RBrace) {
        Some((i + 2, (None, None, None)))
    } else {
        op_items(src, t, i + 1, None, None, None)
    }
}

fn parse_operator(src: &Vec<char>, t: &Vec<Token>, i: usize) -> (r: Option<(usize, Operator)>)
    requires
        wf_stream(src@, t@),
        i < t.len(),
    ensures
        match r {
            Some((j, op)) => sp_parse_operator(src@, t@, i as int) == Some(
                (j as int, op.deep_view()),
            ) && i < j <= t@.len(),
            None => sp_parse_operator(src@, t@, i as int) is None,
        },
{
    if at(t, i + 1, TokKind::Ident) && at(t, i + 2, TokKind::Colon) {
        match operator_kind(src, t, i + 3) {
            None => None,
            Some(kind) => {
                if at(t, i + 4, TokKind::LBrace) {
                    match parse_op_body(src, t, i + 4) {
                        None => None,
                        Some((j, (m, tn, gk))) => {
                            proof {
                                lemma_span_order(src@, t@, i as int, j - 1);
                            }
                            let raw = span_string(src, t[i].lo, t[j - 1].hi);
                            let name = tok_string(src, t[i + 1]);
                            Some(
                                (
                                    j,
                                    Operator {
                                        name,
                                        operator_type: kind,
                                        spec: OperatorSpec {
                                            matrix_representation: m,
                                            tensor_network: tn,
                                            gpu_kernel: gk,
                                            raw: Some(raw),
                                        },
                                    },
                                ),
                            )
                        },
                    }
                } else {
                    proof {
                        lemma_span_order(src@, t@, i as int, i + 3);
                    }
                    let raw = span_string(src, t[i].lo, t[i + 3].hi);
                    let name = tok_string(src, t[i + 1]);
                    Some(
                        (
                            i + 4,
                            Operator {
                                name,
                                operator_type: kind,
                                spec: OperatorSpec {
                                    matrix_representation: None,
                                    tensor_network: None,
                                    gpu_kernel: None,
                                    raw: Some(raw),
                                },
                            },
                        ),
                    )
                }
            },
        }
    } else {
        None
    }
}

fn state_repr(src: &Vec<char>, t: &Vec<Token>, i: usize) -> (r: Option<StateRepresentation>)
    requires
        wf_tokens(t@, src@.len() as int),
    ensures
        r == sp_state_repr(src@, t@, i as int),
{
    if kw_at(src, t, i, "mps") {
        Some(StateRepresentation::MPS)
    } else if kw_at(src, t, i, "peps") {
        Some(StateRepresentation::PEPS)
    } else if kw_at(src, t, i, "dense") {
        Some(StateRepresentation::Dense)
    } else if kw_at(src, t, i, "sparse") {
        Some(StateRepresentation::Sparse)
    } else {
        None
    }
}

fn parse_h0_opt(src: &Vec<char>, t: &Vec<Token>, i: usize) -> (r: (usize, Option<OperatorSpec>))
    requires
        wf_stream(src@, t@),
        i <= t.len(),
    ensures
        ({
            let (j, h) = r;
            sp_parse_h0_opt(src@, t@, i as int) == (j as int, h.deep_view()) && i <= j <= t@.len()
        }),
{
    if kw_at(src, t, i, "hamiltonian") && at(t, i + 1, TokKind::Equals) && at(
        t,
        i + 2,
        TokKind::Ident,
    ) {
        proof {
            lemma_span_order(src@, t@, i as int, i + 2);
        }
        let raw = span_string(src, t[i].lo, t[i + 2].hi);
        let name = tok_string(src, t[i + 2]);
        (
            i + 3,
            Some(
                OperatorSpec {
                    matrix_representation: None,
                    tensor_network: None,
                    gpu_kernel: Some(name),
                    raw: Some(raw),
                },
            ),
        )
    } else {
        (i, None)
    }
}

fn parse_generator(src: &Vec<char>, t: &Vec<Token>, i: usize) -> (r: Option<(
    usize,
    HomologyGenerator,
)>)
    requires
        wf_stream(src@, t@),
        i <= t.len(),
    ensures
        match r {
            Some((j, g)) => sp_parse_generator(src@, t@, i as int) == Some(
                (j as int, g.deep_view()),
            ) && i < j <= t@.len(),
            None => sp_parse_generator(src@, t@, i as int) is None,
        },
{
    if at(t, i, TokKind::LParen) && kw_at(src, t, i + 1, "dim") && at(t, i + 2, TokKind::Equals)
        && at(t, i + 3, TokKind::IntLit) && at(t, i + 4, TokKind::Comma) && kw_at(
        src,
        t,
        i + 5,
        "repr",
    ) && at(t, i + 6, TokKind::Equals) && at(t, i + 7, TokKind::StrLit) && at(
        t,
        i + 8,
        TokKind::RParen,
    ) {
        let dimension = int_value_or_zero(src, t[i + 3]);
        let representation = str_body_string(src, t[i + 7]);
        Some((i + 9, HomologyGenerator { dimension, representation }))
    } else {
        None
    }
}

fn gen_tail(src: &Vec<char>, t: &Vec<Token>, i: usize, acc: Vec<HomologyGenerator>) -> (r: Option<
    (usize, Vec<HomologyGenerator>),
>)
    requires
        wf_stream(src@, t@),
        i <= t.len(),
    ensures
        match r {
            Some((j, l)) => sp_gen_tail(src@, t@, i as int, acc.deep_view()) == Some(
                (j as int, l.deep_view()),
            ) && i <= j <= t@.len(),
            None => sp_gen_tail(src@, t@, i as int, acc.deep_view()) is None,
        },
    decreases t@.len() - i,
{
    if at(t, i, TokKind::Comma) {
        match parse_generator(src, t, i + 1) {
            None => None,
            Some((j, g)) => {
                let ghost acc0 = acc;
                let mut acc = acc;
                acc.push(g);
                proof {
                    lemma_deep_view_push(acc0, acc, g);
                }
                gen_tail(src, t, j, acc)
            },
        }
    } else {
        Some((i, acc))
    }
}

fn parse_topo_item(src: &Vec<char>, t: &Vec<Token>, i: usize) -> (r: Option<(
    usize,
    TopologyConstraint,
)>)
    requires
        wf_stream(src@, t@),
        i <= t.len(),
    ensures
        match r {
            Some((j, c)) => sp_parse_topo_item(src@, t@, i as int) == Some(
                (j as int, c.deep_view()),
            ) && i < j <= t@.len(),
            None => sp_parse_topo_item(src@, t@, i as int) is None,
        },
{
    if kw_at(src, t, i, "betti") && at(t, i + 1, TokKind::Equals) {
        match parse_int_list(src, t, i + 2) {
            None => None,
            Some((j, nums)) => Some(
                (
                    j,
                    TopologyConstraint {
                        betti_numbers: Some(nums),
                        homology_generators: None,
                    },
                ),
            ),
        }
    } else if kw_at(src, t, i, "generators") && at(t, i + 1, TokKind::Equals) && at(
        t,
        i + 2,
        TokKind::LBrack,
    ) {
        match parse_generator(src, t, i + 3) {
            None => None,
            Some((j, g)) => {
                let mut first: Vec<HomologyGenerator> = Vec::new();
                let ghost first0 = first;
                first.push(g);
                proof {
                    lemma_deep_view_push(first0, first, g);
                    assert(first.deep_view() =~= seq![g.deep_view()]);
                }
                match gen_tail(src, t, j, first) {
                    None => None,
                    Some((k, gens)) => {
                        if at(t, k, TokKind::RBrack) {
                            Some(
                                (
                                    k + 1,
                                    TopologyConstraint {
                                        betti_numbers: None,
                                        homology_generators: Some(gens),
                                    },
                                ),
                            )
                        } else {
                            None
                        }
                    },
                }
            },
        }
    } else {
        None
    }
}

fn topo_items(src: &Vec<char>, t: &Vec<Token>, i: usize, acc: Vec<TopologyConstraint>) -> (r:
    Option<(usize, Vec<TopologyConstraint>)>)
    requires
        wf_stream(src@, t@),
        i <= t.len(),
    ensures
        match r {
            Some((j, l)) => sp_topo_items(src@, t@, i as int, acc.deep_view()) == Some(
                (j as int, l.deep_view()),
            ) && i < j <= t@.len(),
            None => sp_topo_items(src@, t@, i as int, acc.deep_view()) is None,
        },
    decreases t@.len() - i,
{
    match parse_topo_item(src, t, i) {
        None => None,
        Some((j, c)) => {
            let ghost acc0 = acc;
            let mut acc = acc;
            acc.push(c);
            proof {
                lemma_deep_view_push(acc0, acc, c);
            }
            if at(t, j, TokKind::Comma) {
                if at(t, j + 1, TokKind::RBrace) {
                    Some((j + 2, acc))
                } else {
                    topo_items(src, t, j + 1, acc)
                }
            } else if at(t, j, TokKind::RBrace) {
                Some((j + 1, acc))
            } else {
                None
            }
        },
    }
}

fn parse_topo_opt(src: &Vec<char>, t: &Vec<Token>, i: usize) -> (r: (
    usize,
    Vec<TopologyConstraint>,
))
    requires
        wf_stream(src@, t@),
        i <= t.len(),
    ensures
        ({
            let (j, l) = r;
            sp_parse_topo_opt(src@, t@, i as int) == (j as int, l.deep_view()) && i <= j
                <= t@.len()
        }),
{
    if kw_at(src, t, i, "topology") && at(t, i + 1, TokKind::LBrace) {
        if at(t, i + 2, TokKind::RBrace) {
            let empty: Vec<TopologyConstraint> = Vec::new();
            proof {
                assert(empty.deep_view() =~= Seq::<SpecTopologyConstraint>::empty());
            }
            (i + 3, empty)
        } else {
            let start: Vec<TopologyConstraint> = Vec::new();
            proof {
                assert(start.deep_view() =~= Seq::<SpecTopologyConstraint>::empty());
            }
            match topo_items(src, t, i + 2, start) {
                None => {
                    let empty: Vec<TopologyConstraint> = Vec::new();
                    proof {
                        assert(empty.deep_view() =~= Seq::<SpecTopologyConstraint>::empty());
                    }
                    (i, empty)
                },
                Some((j, items)) => (j, items),
            }
        }
    } else {
        let empty: Vec<TopologyConstraint> = Vec::new();
        proof {
            assert(empty.deep_view() =~= Seq::<SpecTopologyConstraint>::empty());
        }
        (i, empty)
    }
}

fn parse_state(src: &Vec<char>, t: &Vec<Token>, i: usize) -> (r: Option<(usize, InitialState)>)
    requires
        wf_stream(src@, t@),
        i < t.len(),
    ensures
        match r {
            Some((j, st)) => sp_parse_state(src@, t@, i as int) == Some((j as int, st.deep_view()))
                && i < j <= t@.len(),
            None => sp_parse_state(src@, t@, i as int) is None,
        },
{
    if at(t, i + 1, TokKind::Ident) && at(t, i + 2, TokKind::Colon) {
        match state_repr(src, t, i + 3) {
            None => None,
            Some(repr) => {
                match parse_int_list(src, t, i + 4) {
                    None => None,
                    Some((j, dims)) => {
                        let (j1, h_0) = parse_h0_opt(src, t, j);
                        let (j2, topo) = parse_topo_opt(src, t, j1);
                        Some(
                            (
                                j2,
                                InitialState {
                                    psi_0: StateSpec { representation: repr, dimensions: dims },
                                    h_0,
                                    topology_constraints: topo,
                                },
                            ),
                        )
                    },
                }
            },
        }
    } else {
        None
    }
}

fn parse_stmts(src: &Vec<char>, t: &Vec<Token>, i: usize, acc: Program) -> (r: Result<
    Program,
    usize,
>)
    requires
        wf_stream(src@, t@),
        i <= t.len(),
    ensures
        match r {
            Ok(p) => sp_parse_stmts(src@, t@, i as int, acc.deep_view()) == Ok::<SpecProgram, int>(
                p.deep_view(),
            ),
            Err(k) => sp_parse_stmts(src@, t@, i as int, acc.deep_view()) == Err::<
                SpecProgram,
                int,
            >(k as int),
        },
    decreases t@.len() - i,
{
    let ghost acc0 = acc.deep_view();
    if i == t.len() {
        Ok(acc)
    } else if kw_at(src, t, i, "axiom") {
        match parse_axiom(src, t, i) {
            None => Err(i),
            Some((j, ax)) => {
                let ghost axioms0 = acc.axioms;
                let ghost av = ax.deep_view();
                let mut acc = acc;
                acc.axioms.push(ax);
                proof {
                    lemma_deep_view_push(axioms0, acc.axioms, ax);
                    assert(acc.deep_view() == SpecProgram { axioms: acc0.axioms.push(av), ..acc0 });
                }
                parse_stmts(src, t, j, acc)
            },
        }
    } else if kw_at(src, t, i, "operator") {
        match parse_operator(src, t, i) {
            None => Err(i),
            Some((j, op)) => {
                let ghost operators0 = acc.operators;
                let ghost ov = op.deep_view();
                let mut acc = acc;
                acc.operators.push(op);
                proof {
                    lemma_deep_view_push(operators0, acc.operators, op);
                    assert(acc.deep_view() == SpecProgram {
                        operators: acc0.operators.push(ov),
                        ..acc0
                    });
                }
                parse_stmts(src, t, j, acc)
            },
        }
    } else if kw_at(src, t, i, "state") {
        match parse_state(src, t, i) {
            None => Err(i),
            Some((j, st)) => {
                let ghost sv = st.deep_view();
                let mut acc = acc;
                acc.initial_state = Some(st);
                proof {
                    assert(acc.deep_view() == SpecProgram { initial_state: Some(sv), ..acc0 });
                }
                parse_stmts(src, t, j, acc)
            },
        }
    } else if kw_at(src, t, i, "constraint") {
        match parse_constraint(src, t, i) {
            None => Err(i),
            Some((j, c)) => {
                let ghost constraints0 = acc.constraints;
                let ghost cv = c.deep_view();
                let mut acc = acc;
                acc.constraints.push(c);
                proof {
                    lemma_deep_view_push(constraints0, acc.constraints, c);
                    assert(acc.deep_view() == SpecProgram {
                        constraints: acc0.constraints.push(cv),
                        ..acc0
                    });
                }
                parse_stmts(src, t, j, acc)
            },
        }
    } else {
        Err(i)
    }
}

/// Copies the characters of a source text into a vector.
fn chars_vec(s: &str) -> (v: Vec<char>)
    ensures
        v@ == s@,
{
    let n = s.unicode_len();
    let mut v: Vec<char> = Vec::new();
    let mut i: usize = 0;
    while i < n
        invariant
            0 <= i <= n,
            n == s@.len(),
            v@ =~= s@.subrange(0, i as int),
        decreases n - i,
    {
        v.push(s.get_char(i));
        proof {
            assert(v@ =~= s@.subrange(0, (i + 1) as int));
        }
        i = i + 1;
    }
    proof {
        assert(s@.subrange(0, n as int) =~= s@);
    }
    v
}

/// Parses HPM-DL source text into a program.
///
/// The result is exactly what the mathematical grammar [`sp_program`]
/// derives from the text: the same source always yields the same program.
/// An empty or whitespace-only source is a syntax error; failure is
/// all-or-nothing, and no partial program is ever returned.
pub fn parse(source: &str) -> (r: Result<Program, SyntaxError>)
    ensures
        match sp_program(source@) {
            Ok(p) => r is Ok && r->Ok_0.deep_view() == p,
            Err(pos) => r is Err && r->Err_0.pos as int == pos,
        },
{
    let chars = chars_vec(source);
    match HpmDlParser::tokenize(&chars) {
        Err(p) => Err(SyntaxError { pos: p }),
        Ok(toks) => {
            proof {
                assert(tokens_ordered(toks@));
            }
            if toks.len() == 0 {
                return Err(SyntaxError { pos: chars.len() });
            }
            let empty = Program {
                axioms: Vec::new(),
                operators: Vec::new(),
                initial_state: None,
                constraints: Vec::new(),
            };
            proof {
                assert(empty.deep_view().axioms =~= SpecProgram::empty().axioms);
                assert(empty.deep_view().operators =~= SpecProgram::empty().operators);
                assert(empty.deep_view().constraints =~= SpecProgram::empty().constraints);
                assert(empty.deep_view() == SpecProgram::empty());
            }
            match parse_stmts(&chars, &toks, 0, empty) {
                Ok(p) => Ok(p),
                Err(k) => {
                    if k < toks.len() {
                        Err(SyntaxError { pos: toks[k].lo })
                    } else {
                        Err(SyntaxError { pos: chars.len() })
                    }
                },
            }
        },
    }
}

} // verus!

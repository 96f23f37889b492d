//! A recursive-descent parser for the syntax without type annotations.
//!
//! ```text
//! file        := expr*
//! expr        := function | loop | conditional | return | assignment | operation
//! function    := "def" ident "(" (ident ("," ident)*)? ")" body
//! loop        := "while" "(" expr ")" body
//! conditional := "if" "(" expr ")" body "else" body
//! body        := "{" expr* "}"
//! return      := "return" expr
//! assignment  := ident "=" expr
//! operation   := ("+" | "-") term | term (("+" | "-" | "*" | "<" | ">") term)?
//! term        := literal | ident "(" (expr ("," expr)*)? ")" | ident | "(" expr ")"
//! literal     := digit+ | "true" | "false"
//! ```
//! A body of exactly one expression is that expression; any other body is a block.
use vstd::prelude::*;

use crate::untyped::{
    Assignment, BinaryExpr, BinaryOp, Call, Conditional, Expr, ExprKind, Function, Identifier,
    LiteralKind, Loop, Parameter, Return, UnaryExpr, UnaryOp,
};
use crate::scan::{
    advanced, char_at, chars_of, digit_at, expect, ident_start_at, parse_int, scan_ident, skip_space, word_at,
    ParseError,
};

verus! {

/// An identifier that starts at `pos`, and the position after it.
fn parse_ident(src: &str, cs: &Vec<char>, pos: usize) -> (r: Result<(Identifier, usize), ParseError>)
    requires
        cs@ == src@,
        cs@.len() < usize::MAX,
        pos <= cs@.len(),
    ensures
        r is Ok ==> advanced(cs@, pos, r->Ok_0.1) && r->Ok_0.0.name@ == cs@.subrange(
            pos as int,
            r->Ok_0.1 as int,
        ),
{
    if !ident_start_at(cs, pos) {
        return Err(ParseError { position: pos });
    }
    let end = scan_ident(cs, pos);
    let name = src.substring_char(pos, end).to_owned();
    Ok((Identifier { name }, end))
}

/// A term: a literal, a call, an identifier, or an expression in parentheses.
fn parse_term(src: &str, cs: &Vec<char>, pos: usize) -> (r: Result<(Expr, usize), ParseError>)
    requires
        cs@ == src@,
        cs@.len() < usize::MAX,
        pos <= cs@.len(),
    ensures
        r is Ok ==> advanced(cs@, pos, r->Ok_0.1),
    decreases cs@.len() - pos, 3nat,
{
    let p = skip_space(cs, pos);
    if char_at(cs, p, '(') {
        let (inner, q) = parse_expr(src, cs, p + 1)?;
        let q = expect(cs, q, ')')?;
        return Ok((inner, q));
    }
    if digit_at(cs, p) {
        let (value, q) = parse_int(cs, p)?;
        return Ok(
            (
                Expr { kind: ExprKind::Literal(LiteralKind::Int(value)) },
                q,
            ),
        );
    }
    if word_at(cs, p, "true") {
        proof {
            reveal_strlit("true");
        }
        return Ok(
            (
                Expr { kind: ExprKind::Literal(LiteralKind::Bool(true)) },
                p + 4,
            ),
        );
    }
    if word_at(cs, p, "false") {
        proof {
            reveal_strlit("false");
        }
        return Ok(
            (
                Expr { kind: ExprKind::Literal(LiteralKind::Bool(false)) },
                p + 5,
            ),
        );
    }
    let (ident, q) = parse_ident(src, cs, p)?;
    let after = skip_space(cs, q);
    if char_at(cs, after, '(') {
        let (args, end) = parse_list(src, cs, after + 1)?;
        return Ok((Expr { kind: ExprKind::Call(Call { ident, args }) }, end));
    }
    Ok((Expr { kind: ExprKind::Identifier(ident) }, q))
}

/// A comma-separated list of expressions closed by `)`, starting after the `(`.
fn parse_list(src: &str, cs: &Vec<char>, pos: usize) -> (r: Result<(Vec<Expr>, usize), ParseError>)
    requires
        cs@ == src@,
        cs@.len() < usize::MAX,
        pos <= cs@.len(),
    ensures
        r is Ok ==> advanced(cs@, pos, r->Ok_0.1),
    decreases cs@.len() - pos, 6nat,
{
    let mut items: Vec<Expr> = Vec::new();
    let p = skip_space(cs, pos);
    if char_at(cs, p, ')') {
        return Ok((items, p + 1));
    }
    let mut p = pos;
    loop
        invariant
            cs@ == src@,
            cs@.len() < usize::MAX,
            pos <= p <= cs@.len(),
            items@.len() > 0 ==> pos < p,
        decreases cs@.len() - p,
    {
        let (item, q) = parse_expr(src, cs, p)?;
        items.push(item);
        let q = skip_space(cs, q);
        if char_at(cs, q, ',') {
            p = q + 1;
        } else if char_at(cs, q, ')') {
            return Ok((items, q + 1));
        } else {
            return Err(ParseError { position: q });
        }
    }
}

/// A sequence of expressions closed by `}`, starting after the `{`.
fn parse_body(src: &str, cs: &Vec<char>, pos: usize) -> (r: Result<(Vec<Expr>, usize), ParseError>)
    requires
        cs@ == src@,
        cs@.len() < usize::MAX,
        pos <= cs@.len(),
    ensures
        r is Ok ==> advanced(cs@, pos, r->Ok_0.1),
    decreases cs@.len() - pos, 6nat,
{
    let mut items: Vec<Expr> = Vec::new();
    let mut p = pos;
    loop
        invariant
            cs@ == src@,
            cs@.len() < usize::MAX,
            pos <= p <= cs@.len(),
        decreases cs@.len() - p,
    {
        let q = skip_space(cs, p);
        if char_at(cs, q, '}') {
            return Ok((items, q + 1));
        }
        let (item, q) = parse_expr(src, cs, q)?;
        items.push(item);
        p = q;
    }
}

/// A body in braces, as one expression: the expression itself when there is exactly
/// one, a block otherwise.
fn parse_body_expr(src: &str, cs: &Vec<char>, pos: usize) -> (r: Result<(Expr, usize), ParseError>)
    requires
        cs@ == src@,
        cs@.len() < usize::MAX,
        pos <= cs@.len(),
    ensures
        r is Ok ==> advanced(cs@, pos, r->Ok_0.1),
    decreases cs@.len() - pos, 7nat,
{
    let p = expect(cs, pos, '{')?;
    let (mut body, end) = parse_body(src, cs, p)?;
    if body.len() == 1 {
        Ok((body.pop().unwrap(), end))
    } else {
        Ok((Expr { kind: ExprKind::Block(body) }, end))
    }
}

/// The rest of a function definition, after `def`.
fn parse_function(src: &str, cs: &Vec<char>, pos: usize) -> (r: Result<(Expr, usize), ParseError>)
    requires
        cs@ == src@,
        cs@.len() < usize::MAX,
        pos <= cs@.len(),
    ensures
        r is Ok ==> advanced(cs@, pos, r->Ok_0.1),
    decreases cs@.len() - pos, 8nat,
{
    let p = skip_space(cs, pos);
    let (ident, p) = parse_ident(src, cs, p)?;
    let mut p = expect(cs, p, '(')?;
    let mut params: Vec<Parameter> = Vec::new();
    let q = skip_space(cs, p);
    if char_at(cs, q, ')') {
        p = q + 1;
    } else {
        loop
            invariant
                cs@ == src@,
                cs@.len() < usize::MAX,
                pos < p <= cs@.len(),
            decreases cs@.len() - p,
        {
            let q = skip_space(cs, p);
            let (name, q) = parse_ident(src, cs, q)?;
            params.push(Parameter { ident: name });
            let q = skip_space(cs, q);
            if char_at(cs, q, ',') {
                p = q + 1;
            } else if char_at(cs, q, ')') {
                p = q + 1;
                break ;
            } else {
                return Err(ParseError { position: q });
            }
        }
    }
    let (body, end) = parse_body_expr(src, cs, p)?;
    let e = Expr { kind: ExprKind::Function(Function { ident, params, body: Box::new(body) }) };
    Ok((e, end))
}

/// The rest of a loop, after `while`.
fn parse_loop(src: &str, cs: &Vec<char>, pos: usize) -> (r: Result<(Expr, usize), ParseError>)
    requires
        cs@ == src@,
        cs@.len() < usize::MAX,
        pos <= cs@.len(),
    ensures
        r is Ok ==> advanced(cs@, pos, r->Ok_0.1),
    decreases cs@.len() - pos, 8nat,
{
    let p = expect(cs, pos, '(')?;
    let (cond, p) = parse_expr(src, cs, p)?;
    let p = expect(cs, p, ')')?;
    let (body, end) = parse_body_expr(src, cs, p)?;
    let e = Expr { kind: ExprKind::Loop(Loop { cond: Box::new(cond), body: Box::new(body) }) };
    Ok((e, end))
}

/// The rest of a conditional, after `if`.
fn parse_conditional(src: &str, cs: &Vec<char>, pos: usize) -> (r: Result<(Expr, usize), ParseError>)
    requires
        cs@ == src@,
        cs@.len() < usize::MAX,
        pos <= cs@.len(),
    ensures
        r is Ok ==> advanced(cs@, pos, r->Ok_0.1),
    decreases cs@.len() - pos, 8nat,
{
    let p = expect(cs, pos, '(')?;
    let (cond, p) = parse_expr(src, cs, p)?;
    let p = expect(cs, p, ')')?;
    let (on_true, p) = parse_body_expr(src, cs, p)?;
    let p = skip_space(cs, p);
    if !word_at(cs, p, "else") {
        return Err(ParseError { position: p });
    }
    proof {
        reveal_strlit("else");
    }
    let (on_false, end) = parse_body_expr(src, cs, p + 4)?;
    let e = Expr {
        kind: ExprKind::Conditional(
            Conditional {
                cond: Box::new(cond),
                on_true: Box::new(on_true),
                on_false: Box::new(on_false),
            },
        ),
    };
    Ok((e, end))
}

/// A binary operator at `pos`, if there is one.
fn binary_op_at(cs: &Vec<char>, pos: usize) -> (r: Option<BinaryOp>)
    ensures
        r is Some ==> pos < cs@.len(),
{
    if pos >= cs.len() {
        return None;
    }
    let c = cs[pos];
    if c == '+' {
        Some(BinaryOp::Add)
    } else if c == '-' {
        Some(BinaryOp::Sub)
    } else if c == '*' {
        Some(BinaryOp::Mul)
    } else if c == '<' {
        Some(BinaryOp::LessThan)
    } else if c == '>' {
        Some(BinaryOp::GreaterThan)
    } else {
        None
    }
}

/// A unary operation, or a term with at most one binary operator after it.
fn parse_operation(src: &str, cs: &Vec<char>, pos: usize) -> (r: Result<(Expr, usize), ParseError>)
    requires
        cs@ == src@,
        cs@.len() < usize::MAX,
        pos <= cs@.len(),
    ensures
        r is Ok ==> advanced(cs@, pos, r->Ok_0.1),
    decreases cs@.len() - pos, 4nat,
{
    let p = skip_space(cs, pos);
    if char_at(cs, p, '+') || char_at(cs, p, '-') {
        let op = if char_at(cs, p, '+') {
            UnaryOp::Plus
        } else {
            UnaryOp::Minus
        };
        let (child, end) = parse_term(src, cs, p + 1)?;
        let e = Expr {
            kind: ExprKind::UnaryExpr(UnaryExpr { op, child: Box::new(child) })
        };
        return Ok((e, end));
    }
    let (lhs, q) = parse_term(src, cs, p)?;
    let o = skip_space(cs, q);
    match binary_op_at(cs, o) {
        Some(op) => match parse_term(src, cs, o + 1) {
            Ok((rhs, end)) => {
                let e = Expr {
                    kind: ExprKind::BinaryExpr(
                        BinaryExpr { op, lhs: Box::new(lhs), rhs: Box::new(rhs) },
                    )
                };
                Ok((e, end))
            },
            Err(_) => Ok((lhs, q)),
        },
        None => Ok((lhs, q)),
    }
}

/// One expression starting at `pos` (after any whitespace), and the position after it.
fn parse_expr(src: &str, cs: &Vec<char>, pos: usize) -> (r: Result<(Expr, usize), ParseError>)
    requires
        cs@ == src@,
        cs@.len() < usize::MAX,
        pos <= cs@.len(),
    ensures
        r is Ok ==> advanced(cs@, pos, r->Ok_0.1),
    decreases cs@.len() - pos, 5nat,
{
    let p = skip_space(cs, pos);
    proof {
        reveal_strlit("def");
        reveal_strlit("while");
        reveal_strlit("if");
        reveal_strlit("return");
    }
    if word_at(cs, p, "def") {
        return parse_function(src, cs, p + 3);
    }
    if word_at(cs, p, "while") {
        return parse_loop(src, cs, p + 5);
    }
    if word_at(cs, p, "if") {
        return parse_conditional(src, cs, p + 2);
    }
    if word_at(cs, p, "return") {
        let (value, end) = parse_expr(src, cs, p + 6)?;
        let e = Expr {
            kind: ExprKind::Return(Return { value: Box::new(value) })
        };
        return Ok((e, end));
    }
    if ident_start_at(cs, p) {
        let q = scan_ident(cs, p);
        let eq = skip_space(cs, q);
        if char_at(cs, eq, '=') && !char_at(cs, eq + 1, '=') {
            let (ident, _) = parse_ident(src, cs, p)?;
            let (value, end) = parse_expr(src, cs, eq + 1)?;
            let e = Expr {
                kind: ExprKind::Assignment(Assignment { ident, value: Box::new(value) })
            };
            return Ok((e, end));
        }
    }
    parse_operation(src, cs, p)
}

/// Parses a program into its top-level expressions.
pub fn parse(source: &str) -> (r: Result<Vec<Expr>, ParseError>)
{
    let cs = chars_of(source);
    if cs.len() == usize::MAX {
        return Err(ParseError { position: cs.len() });
    }
    let mut exprs: Vec<Expr> = Vec::new();
    let mut p: usize = 0;
    loop
        invariant
            cs@ == source@,
            cs@.len() < usize::MAX,
            p <= cs@.len(),
        decreases cs@.len() - p,
    {
        let q = skip_space(&cs, p);
        if q == cs.len() {
            return Ok(exprs);
        }
        let (e, q) = parse_expr(source, &cs, q)?;
        exprs.push(e);
        p = q;
    }
}

} // verus!

//! A recursive-descent parser for the annotated surface syntax.
//!
//! ```text
//! file        := expr*
//! expr        := function | loop | conditional | return | assignment | operation
//! function    := "def" ident "(" (param ("," param)*)? ")" ("->" type)? "{" expr* "}"
//! param       := ident (":" type)?
//! type        := "int" | "bool"
//! loop        := "while" "(" expr ")" "{" expr* "}"
//! conditional := "if" "(" expr ")" "{" expr "}" "else" "{" expr "}"
//! return      := "return" expr
//! assignment  := ident "=" expr
//! operation   := ("+" | "-") term | term (("+" | "-" | "*" | "<" | ">") term)?
//! term        := literal | ident "(" (expr ("," expr)*)? ")" | ident | "(" expr ")"
//! literal     := digit+ | "true" | "false"
//! ```
//! Omitted annotations are `Unknown`.
use vstd::prelude::*;

use crate::ast::{
    all_annotated_by_syntax, annotated_by_syntax, Assignment, BinaryExpr, BinaryOp, Call,
    Conditional, Expr, ExprKind, Function, Identifier, LiteralKind, Loop, Parameter, Return,
    UnaryExpr, UnaryOp,
};
use crate::scan::{
    advanced, char_at, chars_of, digit_at, expect, ident_start_at, parse_int, scan_ident, skip_space, word_at,
    ParseError,
};
use crate::types::{ScalarKind, Ty, Type};

verus! {

/// An identifier that starts at `pos`, and the position after it.
fn parse_ident(src: &str, cs: &Vec<char>, pos: usize) -> (r: Result<(Identifier, usize), ParseError>)
    requires
        cs@ == src@,
        cs@.len() < usize::MAX,
        pos <= cs@.len(),
    ensures
        r is Ok ==> advanced(cs@, pos, r->Ok_0.1) && r->Ok_0.0@ == cs@.subrange(
            pos as int,
            r->Ok_0.1 as int,
        ),
{
    if !ident_start_at(cs, pos) {
        return Err(ParseError { position: pos });
    }
    let end = scan_ident(cs, pos);
    let name = src.substring_char(pos, end).to_owned();
    Ok((Identifier { name }, end))
}

/// The type named at `pos` (`int` or `bool`), and the position after it.
fn parse_type(cs: &Vec<char>, pos: usize) -> (r: Result<(Type, usize), ParseError>)
    requires
        cs@.len() < usize::MAX,
        pos <= cs@.len(),
    ensures
        r is Ok ==> advanced(cs@, pos, r->Ok_0.1),
        r is Ok ==> r->Ok_0.0@ == Ty::Scalar(ScalarKind::Int) || r->Ok_0.0@ == Ty::Scalar(
            ScalarKind::Bool,
        ),
{
    let p = skip_space(cs, pos);
    if word_at(cs, p, "int") {
        proof {
            reveal_strlit("int");
        }
        Ok((Type::Scalar(ScalarKind::Int), p + 3))
    } else if word_at(cs, p, "bool") {
        proof {
            reveal_strlit("bool");
        }
        Ok((Type::Scalar(ScalarKind::Bool), p + 4))
    } else {
        Err(ParseError { position: p })
    }
}

/// A term: a literal, a call, an identifier, or an expression in parentheses.
fn parse_term(src: &str, cs: &Vec<char>, pos: usize) -> (r: Result<(Expr, usize), ParseError>)
    requires
        cs@ == src@,
        cs@.len() < usize::MAX,
        pos <= cs@.len(),
    ensures
        r is Ok ==> advanced(cs@, pos, r->Ok_0.1) && annotated_by_syntax(r->Ok_0.0),
    decreases cs@.len() - pos, 3nat,
{
    let p = skip_space(cs, pos);
    if char_at(cs, p, '(') {
        let (inner, q) = parse_expr(src, cs, p + 1)?;
        let q = expect(cs, q, ')')?;
        return Ok((inner, q));
    }
    if digit_at(cs, p) {
        let (value, q) = parse_int(cs, p)?;
        return Ok(
            (
                Expr {
                    kind: ExprKind::Literal(LiteralKind::Int(value)),
                    ty: Type::Scalar(ScalarKind::Int),
                },
                q,
            ),
        );
    }
    if word_at(cs, p, "true") {
        proof {
            reveal_strlit("true");
        }
        return Ok(
            (
                Expr {
                    kind: ExprKind::Literal(LiteralKind::Bool(true)),
                    ty: Type::Scalar(ScalarKind::Bool),
                },
                p + 4,
            ),
        );
    }
    if word_at(cs, p, "false") {
        proof {
            reveal_strlit("false");
        }
        return Ok(
            (
                Expr {
                    kind: ExprKind::Literal(LiteralKind::Bool(false)),
                    ty: Type::Scalar(ScalarKind::Bool),
                },
                p + 5,
            ),
        );
    }
    let (ident, q) = parse_ident(src, cs, p)?;
    let after = skip_space(cs, q);
    if char_at(cs, after, '(') {
        let (args, end) = parse_list(src, cs, after + 1)?;
        return Ok((Expr { kind: ExprKind::Call(Call { ident, args }), ty: Type::Unknown }, end));
    }
    Ok((Expr { kind: ExprKind::Identifier(ident), ty: Type::Unknown }, q))
}

/// A comma-separated list of expressions closed by `)`, starting after the `(`.
fn parse_list(src: &str, cs: &Vec<char>, pos: usize) -> (r: Result<(Vec<Expr>, usize), ParseError>)
    requires
        cs@ == src@,
        cs@.len() < usize::MAX,
        pos <= cs@.len(),
    ensures
        r is Ok ==> advanced(cs@, pos, r->Ok_0.1) && all_annotated_by_syntax(r->Ok_0.0),
    decreases cs@.len() - pos, 6nat,
{
    let mut items: Vec<Expr> = Vec::new();
    let p = skip_space(cs, pos);
    if char_at(cs, p, ')') {
        return Ok((items, p + 1));
    }
    let mut p = pos;
    loop
        invariant
            cs@ == src@,
            cs@.len() < usize::MAX,
            pos <= p <= cs@.len(),
            items@.len() > 0 ==> pos < p,
            forall|i: int| 0 <= i < items@.len() ==> annotated_by_syntax(#[trigger] items@[i]),
        decreases cs@.len() - p,
    {
        let (item, q) = parse_expr(src, cs, p)?;
        items.push(item);
        let q = skip_space(cs, q);
        if char_at(cs, q, ',') {
            p = q + 1;
        } else if char_at(cs, q, ')') {
            return Ok((items, q + 1));
        } else {
            return Err(ParseError { position: q });
        }
    }
}

/// A sequence of expressions closed by `}`, starting after the `{`.
fn parse_body(src: &str, cs: &Vec<char>, pos: usize) -> (r: Result<(Vec<Expr>, usize), ParseError>)
    requires
        cs@ == src@,
        cs@.len() < usize::MAX,
        pos <= cs@.len(),
    ensures
        r is Ok ==> advanced(cs@, pos, r->Ok_0.1) && all_annotated_by_syntax(r->Ok_0.0),
    decreases cs@.len() - pos, 6nat,
{
    let mut items: Vec<Expr> = Vec::new();
    let mut p = pos;
    loop
        invariant
            cs@ == src@,
            cs@.len() < usize::MAX,
            pos <= p <= cs@.len(),
            forall|i: int| 0 <= i < items@.len() ==> annotated_by_syntax(#[trigger] items@[i]),
        decreases cs@.len() - p,
    {
        let q = skip_space(cs, p);
        if char_at(cs, q, '}') {
            return Ok((items, q + 1));
        }
        let (item, q) = parse_expr(src, cs, q)?;
        items.push(item);
        p = q;
    }
}

/// The rest of a function definition, after `def`.
fn parse_function(src: &str, cs: &Vec<char>, pos: usize) -> (r: Result<(Expr, usize), ParseError>)
    requires
        cs@ == src@,
        cs@.len() < usize::MAX,
        pos <= cs@.len(),
    ensures
        r is Ok ==> advanced(cs@, pos, r->Ok_0.1) && annotated_by_syntax(r->Ok_0.0),
    decreases cs@.len() - pos, 7nat,
{
    let p = skip_space(cs, pos);
    let (ident, p) = parse_ident(src, cs, p)?;
    let mut p = expect(cs, p, '(')?;
    let mut params: Vec<Parameter> = Vec::new();
    let mut types: Vec<Type> = Vec::new();
    let q = skip_space(cs, p);
    if char_at(cs, q, ')') {
        p = q + 1;
    } else {
        loop
            invariant
                cs@ == src@,
                cs@.len() < usize::MAX,
                pos < p <= cs@.len(),
                params@.len() == types@.len(),
                forall|i: int| 0 <= i < params@.len() ==> (#[trigger] params@[i]).ty@ == types@[i]@,
            decreases cs@.len() - p,
        {
            let q = skip_space(cs, p);
            let (name, q) = parse_ident(src, cs, q)?;
            let r = skip_space(cs, q);
            let (ty, q) = if char_at(cs, r, ':') {
                parse_type(cs, r + 1)?
            } else {
                (Type::Unknown, q)
            };
            types.push(ty.clone());
            params.push(Parameter { ident: name, ty });
            let q = skip_space(cs, q);
            if char_at(cs, q, ',') {
                p = q + 1;
            } else if char_at(cs, q, ')') {
                p = q + 1;
                break ;
            } else {
                return Err(ParseError { position: q });
            }
        }
    }
    let q = skip_space(cs, p);
    let (ret, p) = if char_at(cs, q, '-') && char_at(cs, q + 1, '>') {
        parse_type(cs, q + 2)?
    } else {
        (Type::Unknown, p)
    };
    let p = expect(cs, p, '{')?;
    let (body, end) = parse_body(src, cs, p)?;
    let ty = Type::Function(types, Box::new(ret));
    let e = Expr {
        kind: ExprKind::Function(Function { ident, params, body: Box::new(body) }),
        ty,
    };
    assert(annotated_by_syntax(e));
    Ok((e, end))
}

/// The rest of a loop, after `while`.
fn parse_loop(src: &str, cs: &Vec<char>, pos: usize) -> (r: Result<(Expr, usize), ParseError>)
    requires
        cs@ == src@,
        cs@.len() < usize::MAX,
        pos <= cs@.len(),
    ensures
        r is Ok ==> advanced(cs@, pos, r->Ok_0.1) && annotated_by_syntax(r->Ok_0.0),
    decreases cs@.len() - pos, 7nat,
{
    let p = expect(cs, pos, '(')?;
    let (cond, p) = parse_expr(src, cs, p)?;
    let p = expect(cs, p, ')')?;
    let p = expect(cs, p, '{')?;
    let (body, end) = parse_body(src, cs, p)?;
    let e = Expr {
        kind: ExprKind::Loop(Loop { cond: Box::new(cond), body: Box::new(body) }),
        ty: Type::Unit,
    };
    Ok((e, end))
}

/// One expression in braces.
fn parse_branch(src: &str, cs: &Vec<char>, pos: usize) -> (r: Result<(Expr, usize), ParseError>)
    requires
        cs@ == src@,
        cs@.len() < usize::MAX,
        pos <= cs@.len(),
    ensures
        r is Ok ==> advanced(cs@, pos, r->Ok_0.1) && annotated_by_syntax(r->Ok_0.0),
    decreases cs@.len() - pos, 7nat,
{
    let p = expect(cs, pos, '{')?;
    let (e, p) = parse_expr(src, cs, p)?;
    let p = expect(cs, p, '}')?;
    Ok((e, p))
}

/// The rest of a conditional, after `if`.
fn parse_conditional(src: &str, cs: &Vec<char>, pos: usize) -> (r: Result<(Expr, usize), ParseError>)
    requires
        cs@ == src@,
        cs@.len() < usize::MAX,
        pos <= cs@.len(),
    ensures
        r is Ok ==> advanced(cs@, pos, r->Ok_0.1) && annotated_by_syntax(r->Ok_0.0),
    decreases cs@.len() - pos, 8nat,
{
    let p = expect(cs, pos, '(')?;
    let (cond, p) = parse_expr(src, cs, p)?;
    let p = expect(cs, p, ')')?;
    let (on_true, p) = parse_branch(src, cs, p)?;
    let p = skip_space(cs, p);
    if !word_at(cs, p, "else") {
        return Err(ParseError { position: p });
    }
    proof {
        reveal_strlit("else");
    }
    let (on_false, end) = parse_branch(src, cs, p + 4)?;
    let e = Expr {
        kind: ExprKind::Conditional(
            Conditional {
                cond: Box::new(cond),
                on_true: Box::new(on_true),
                on_false: Box::new(on_false),
            },
        ),
        ty: Type::Unknown,
    };
    Ok((e, end))
}

/// A binary operator at `pos`, if there is one.
fn binary_op_at(cs: &Vec<char>, pos: usize) -> (r: Option<BinaryOp>)
    ensures
        r is Some ==> pos < cs@.len(),
{
    if pos >= cs.len() {
        return None;
    }
    let c = cs[pos];
    if c == '+' {
        Some(BinaryOp::Add)
    } else if c == '-' {
        Some(BinaryOp::Sub)
    } else if c == '*' {
        Some(BinaryOp::Mul)
    } else if c == '<' {
        Some(BinaryOp::LessThan)
    } else if c == '>' {
        Some(BinaryOp::GreaterThan)
    } else {
        None
    }
}

/// A unary operation, or a term with at most one binary operator after it.
fn parse_operation(src: &str, cs: &Vec<char>, pos: usize) -> (r: Result<(Expr, usize), ParseError>)
    requires
        cs@ == src@,
        cs@.len() < usize::MAX,
        pos <= cs@.len(),
    ensures
        r is Ok ==> advanced(cs@, pos, r->Ok_0.1) && annotated_by_syntax(r->Ok_0.0),
    decreases cs@.len() - pos, 4nat,
{
    let p = skip_space(cs, pos);
    if char_at(cs, p, '+') || char_at(cs, p, '-') {
        let op = if char_at(cs, p, '+') {
            UnaryOp::Plus
        } else {
            UnaryOp::Minus
        };
        let (child, end) = parse_term(src, cs, p + 1)?;
        let e = Expr {
            kind: ExprKind::UnaryExpr(UnaryExpr { op, child: Box::new(child) }),
            ty: Type::Unknown,
        };
        return Ok((e, end));
    }
    let (lhs, q) = parse_term(src, cs, p)?;
    let o = skip_space(cs, q);
    match binary_op_at(cs, o) {
        Some(op) => match parse_term(src, cs, o + 1) {
            Ok((rhs, end)) => {
                let e = Expr {
                    kind: ExprKind::BinaryExpr(
                        BinaryExpr { op, lhs: Box::new(lhs), rhs: Box::new(rhs) },
                    ),
                    ty: Type::Unknown,
                };
                Ok((e, end))
            },
            Err(_) => Ok((lhs, q)),
        },
        None => Ok((lhs, q)),
    }
}

/// One expression starting at `pos` (after any whitespace), and the position after it.
fn parse_expr(src: &str, cs: &Vec<char>, pos: usize) -> (r: Result<(Expr, usize), ParseError>)
    requires
        cs@ == src@,
        cs@.len() < usize::MAX,
        pos <= cs@.len(),
    ensures
        r is Ok ==> advanced(cs@, pos, r->Ok_0.1) && annotated_by_syntax(r->Ok_0.0),
    decreases cs@.len() - pos, 5nat,
{
    let p = skip_space(cs, pos);
    proof {
        reveal_strlit("def");
        reveal_strlit("while");
        reveal_strlit("if");
        reveal_strlit("return");
    }
    if word_at(cs, p, "def") {
        return parse_function(src, cs, p + 3);
    }
    if word_at(cs, p, "while") {
        return parse_loop(src, cs, p + 5);
    }
    if word_at(cs, p, "if") {
        return parse_conditional(src, cs, p + 2);
    }
    if word_at(cs, p, "return") {
        let (value, end) = parse_expr(src, cs, p + 6)?;
        let e = Expr {
            kind: ExprKind::Return(Return { value: Box::new(value) }),
            ty: Type::Unknown,
        };
        return Ok((e, end));
    }
    if ident_start_at(cs, p) {
        let q = scan_ident(cs, p);
        let eq = skip_space(cs, q);
        if char_at(cs, eq, '=') && !char_at(cs, eq + 1, '=') {
            let (ident, _) = parse_ident(src, cs, p)?;
            let (value, end) = parse_expr(src, cs, eq + 1)?;
            let e = Expr {
                kind: ExprKind::Assignment(Assignment { ident, value: Box::new(value) }),
                ty: Type::Unknown,
            };
            return Ok((e, end));
        }
    }
    parse_operation(src, cs, p)
}

/// Parses a program into its top-level expressions, each annotated only where its
/// syntax fixes a type.
pub fn parse(source: &str) -> (r: Result<Vec<Expr>, ParseError>)
    ensures
        r is Ok ==> all_annotated_by_syntax(r->Ok_0),
{
    let cs = chars_of(source);
    if cs.len() == usize::MAX {
        return Err(ParseError { position: cs.len() });
    }
    let mut exprs: Vec<Expr> = Vec::new();
    let mut p: usize = 0;
    loop
        invariant
            cs@ == source@,
            cs@.len() < usize::MAX,
            p <= cs@.len(),
            forall|i: int| 0 <= i < exprs@.len() ==> annotated_by_syntax(#[trigger] exprs@[i]),
        decreases cs@.len() - p,
    {
        let q = skip_space(&cs, p);
        if q == cs.len() {
            return Ok(exprs);
        }
        let (e, q) = parse_expr(source, &cs, q)?;
        exprs.push(e);
        p = q;
    }
}

} // verus!

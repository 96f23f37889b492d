//! A recursive-descent parser for the surface language.
//!
//! ```text
//! program     := stmt*
//! stmt        := "def" ident "(" (ident ("," ident)*)? ")" block
//!              | "return" expr | ident "=" expr | expr
//! block       := "{" stmt* "}"
//! expr        := "if" "(" expr ")" block "else" block | "while" "(" expr ")" block | comparison
//! comparison  := additive (("<=" | ">=" | "==" | "!=" | "<" | ">") additive)*
//! additive    := term (("+" | "-") term)*
//! term        := unary (("*" | "/" | "%") unary)*
//! unary       := ("-" | "!") unary | call
//! call        := primary ("(" (expr ("," expr)*)? ")")*
//! primary     := digit+ | "true" | "false" | ident | "(" expr ")" | block
//! ```
//! Whitespace separates tokens, and `#` starts a comment that runs to the end of the line.
use vstd::prelude::*;

use crate::scan::{
    advanced, char_at, chars_of, digit_at, ident_start_at, parse_int, scan_ident, space_at,
    word_at, ParseError,
};
use crate::surface::{BinaryOp, Expr, Program, Stmt, UnaryOp};

verus! {

/// The first position at or after `pos` that holds neither whitespace nor a comment.
fn skip_blank(cs: &Vec<char>, pos: usize) -> (r: usize)
    requires
        cs@.len() < usize::MAX,
        pos <= cs@.len(),
    ensures
        pos <= r <= cs@.len(),
{
    let mut p = pos;
    while p < cs.len()
        invariant
            cs@.len() < usize::MAX,
            pos <= p <= cs@.len(),
        decreases cs@.len() - p,
    {
        if space_at(cs, p) {
            p += 1;
        } else if char_at(cs, p, '#') {
            p += 1;
            let ghost after_mark = p;
            while p < cs.len() && !char_at(cs, p, '\n')
                invariant
                    pos <= after_mark <= p <= cs@.len(),
                decreases cs@.len() - p,
            {
                p += 1;
            }
        } else {
            return p;
        }
    }
    p
}

/// Skips blanks, then expects `c`; returns the position after it.
fn expect_char(cs: &Vec<char>, pos: usize, c: char) -> (r: Result<usize, ParseError>)
    requires
        cs@.len() < usize::MAX,
        pos <= cs@.len(),
    ensures
        r is Ok ==> advanced(cs@, pos, r->Ok_0),
{
    let p = skip_blank(cs, pos);
    if char_at(cs, p, c) {
        Ok(p + 1)
    } else {
        Err(ParseError { position: p })
    }
}

/// A name starting at `pos`, and the position after it.
fn parse_name(src: &str, cs: &Vec<char>, pos: usize) -> (r: Result<(String, usize), ParseError>)
    requires
        cs@ == src@,
        cs@.len() < usize::MAX,
        pos <= cs@.len(),
    ensures
        r is Ok ==> advanced(cs@, pos, r->Ok_0.1) && r->Ok_0.0@ == cs@.subrange(
            pos as int,
            r->Ok_0.1 as int,
        ),
{
    if !ident_start_at(cs, pos) {
        return Err(ParseError { position: pos });
    }
    let end = scan_ident(cs, pos);
    Ok((src.substring_char(pos, end).to_owned(), end))
}

/// Statements up to the closing `}`, starting after the `{`.
fn parse_block(src: &str, cs: &Vec<char>, pos: usize) -> (r: Result<(Vec<Stmt>, usize), ParseError>)
    requires
        cs@ == src@,
        cs@.len() < usize::MAX,
        pos <= cs@.len(),
    ensures
        r is Ok ==> advanced(cs@, pos, r->Ok_0.1),
    decreases cs@.len() - pos, 13nat,
{
    let mut stmts: Vec<Stmt> = Vec::new();
    let mut p = pos;
    loop
        invariant
            cs@ == src@,
            cs@.len() < usize::MAX,
            pos <= p <= cs@.len(),
        decreases cs@.len() - p,
    {
        let q = skip_blank(cs, p);
        if char_at(cs, q, '}') {
            return Ok((stmts, q + 1));
        }
        let (s, q) = parse_stmt(src, cs, q)?;
        stmts.push(s);
        p = q;
    }
}

/// Call arguments up to the closing `)`, starting after the `(`.
fn parse_args(src: &str, cs: &Vec<char>, pos: usize) -> (r: Result<(Vec<Expr>, usize), ParseError>)
    requires
        cs@ == src@,
        cs@.len() < usize::MAX,
        pos <= cs@.len(),
    ensures
        r is Ok ==> advanced(cs@, pos, r->Ok_0.1),
    decreases cs@.len() - pos, 13nat,
{
    let mut args: Vec<Expr> = Vec::new();
    let p = skip_blank(cs, pos);
    if char_at(cs, p, ')') {
        return Ok((args, p + 1));
    }
    let mut p = pos;
    loop
        invariant
            cs@ == src@,
            cs@.len() < usize::MAX,
            pos <= p <= cs@.len(),
        decreases cs@.len() - p,
    {
        let (a, q) = parse_expr(src, cs, p)?;
        args.push(a);
        let q = skip_blank(cs, q);
        if char_at(cs, q, ',') {
            p = q + 1;
        } else if char_at(cs, q, ')') {
            return Ok((args, q + 1));
        } else {
            return Err(ParseError { position: q });
        }
    }
}

/// A literal, a name, a parenthesized expression or a block.
fn parse_primary(src: &str, cs: &Vec<char>, pos: usize) -> (r: Result<(Expr, usize), ParseError>)
    requires
        cs@ == src@,
        cs@.len() < usize::MAX,
        pos <= cs@.len(),
    ensures
        r is Ok ==> advanced(cs@, pos, r->Ok_0.1),
    decreases cs@.len() - pos, 0nat,
{
    let p = skip_blank(cs, pos);
    if char_at(cs, p, '(') {
        let (e, q) = parse_expr(src, cs, p + 1)?;
        let q = expect_char(cs, q, ')')?;
        return Ok((e, q));
    }
    if char_at(cs, p, '{') {
        let (stmts, q) = parse_block(src, cs, p + 1)?;
        return Ok((Expr::Block(stmts), q));
    }
    if digit_at(cs, p) {
        let (n, q) = parse_int(cs, p)?;
        return Ok((Expr::Int(n), q));
    }
    proof {
        reveal_strlit("true");
        reveal_strlit("false");
    }
    if word_at(cs, p, "true") {
        return Ok((Expr::Bool(true), p + 4));
    }
    if word_at(cs, p, "false") {
        return Ok((Expr::Bool(false), p + 5));
    }
    let (name, q) = parse_name(src, cs, p)?;
    Ok((Expr::Var(name), q))
}

/// A primary expression followed by any number of argument lists.
fn parse_call(src: &str, cs: &Vec<char>, pos: usize) -> (r: Result<(Expr, usize), ParseError>)
    requires
        cs@ == src@,
        cs@.len() < usize::MAX,
        pos <= cs@.len(),
    ensures
        r is Ok ==> advanced(cs@, pos, r->Ok_0.1),
    decreases cs@.len() - pos, 1nat,
{
    let (mut e, mut p) = parse_primary(src, cs, pos)?;
    loop
        invariant
            cs@ == src@,
            cs@.len() < usize::MAX,
            pos < p <= cs@.len(),
        decreases cs@.len() - p,
    {
        let q = skip_blank(cs, p);
        if !char_at(cs, q, '(') {
            return Ok((e, p));
        }
        let (args, q) = parse_args(src, cs, q + 1)?;
        match e {
            Expr::Var(name) => {
                e = Expr::Call { name, args };
            },
            _ => {
                return Err(ParseError { position: p });
            },
        }
        p = q;
    }
}

/// A unary operation, or a call.
fn parse_unary(src: &str, cs: &Vec<char>, pos: usize) -> (r: Result<(Expr, usize), ParseError>)
    requires
        cs@ == src@,
        cs@.len() < usize::MAX,
        pos <= cs@.len(),
    ensures
        r is Ok ==> advanced(cs@, pos, r->Ok_0.1),
    decreases cs@.len() - pos, 2nat,
{
    let p = skip_blank(cs, pos);
    let op = if char_at(cs, p, '-') {
        Some(UnaryOp::Neg)
    } else if char_at(cs, p, '!') && !char_at(cs, p + 1, '=') {
        Some(UnaryOp::Not)
    } else {
        None
    };
    match op {
        Some(op) => {
            let (e, q) = parse_unary(src, cs, p + 1)?;
            Ok((Expr::Unary { op, expr: Box::new(e) }, q))
        },
        None => parse_call(src, cs, p),
    }
}

/// The operator of one level of precedence at `pos`, if any, and its length.
fn operator_at(cs: &Vec<char>, pos: usize, level: u8) -> (r: Option<(BinaryOp, usize)>)
    requires
        cs@.len() < usize::MAX,
        pos <= cs@.len(),
    ensures
        r is Some ==> 1 <= r.unwrap().1 <= 2 && pos + r.unwrap().1 <= cs@.len(),
{
    if level == 0 {
        if char_at(cs, pos, '*') {
            return Some((BinaryOp::Mul, 1));
        } else if char_at(cs, pos, '/') {
            return Some((BinaryOp::Div, 1));
        } else if char_at(cs, pos, '%') {
            return Some((BinaryOp::Mod, 1));
        }
    } else if level == 1 {
        if char_at(cs, pos, '+') {
            return Some((BinaryOp::Add, 1));
        } else if char_at(cs, pos, '-') {
            return Some((BinaryOp::Sub, 1));
        }
    } else {
        let eq_next = char_at(cs, pos + 1, '=');
        if char_at(cs, pos, '<') {
            return if eq_next {
                Some((BinaryOp::Le, 2))
            } else {
                Some((BinaryOp::Lt, 1))
            };
        } else if char_at(cs, pos, '>') {
            return if eq_next {
                Some((BinaryOp::Ge, 2))
            } else {
                Some((BinaryOp::Gt, 1))
            };
        } else if char_at(cs, pos, '=') && eq_next {
            return Some((BinaryOp::Eq, 2));
        } else if char_at(cs, pos, '!') && eq_next {
            return Some((BinaryOp::Ne, 2));
        }
    }
    None
}

/// Operands of one level of precedence joined by its operators, left to right.
/// Level 0 joins unary expressions by `*`, `/`, `%`; level 1 joins level 0 by `+`, `-`;
/// level 2 joins level 1 by the comparisons.
fn parse_level(src: &str, cs: &Vec<char>, pos: usize, level: u8) -> (r: Result<(Expr, usize), ParseError>)
    requires
        cs@ == src@,
        cs@.len() < usize::MAX,
        pos <= cs@.len(),
        level <= 2,
    ensures
        r is Ok ==> advanced(cs@, pos, r->Ok_0.1),
    decreases cs@.len() - pos, 3nat + level as nat,
{
    let (mut left, mut p) = if level == 0 {
        parse_unary(src, cs, pos)?
    } else {
        parse_level(src, cs, pos, level - 1)?
    };
    loop
        invariant
            cs@ == src@,
            cs@.len() < usize::MAX,
            pos < p <= cs@.len(),
            level <= 2,
        decreases cs@.len() - p,
    {
        let q = skip_blank(cs, p);
        match operator_at(cs, q, level) {
            None => return Ok((left, p)),
            Some((op, width)) => {
                let (right, end) = if level == 0 {
                    parse_unary(src, cs, q + width)?
                } else {
                    parse_level(src, cs, q + width, level - 1)?
                };
                left = Expr::Binary { op, left: Box::new(left), right: Box::new(right) };
                p = end;
            },
        }
    }
}

/// An expression: a conditional, a loop, or a comparison.
fn parse_expr(src: &str, cs: &Vec<char>, pos: usize) -> (r: Result<(Expr, usize), ParseError>)
    requires
        cs@ == src@,
        cs@.len() < usize::MAX,
        pos <= cs@.len(),
    ensures
        r is Ok ==> advanced(cs@, pos, r->Ok_0.1),
    decreases cs@.len() - pos, 11nat,
{
    let p = skip_blank(cs, pos);
    proof {
        reveal_strlit("if");
        reveal_strlit("while");
        reveal_strlit("else");
    }
    if word_at(cs, p, "if") {
        let q = expect_char(cs, p + 2, '(')?;
        let (cond, q) = parse_expr(src, cs, q)?;
        let q = expect_char(cs, q, ')')?;
        let q = expect_char(cs, q, '{')?;
        let (then_branch, q) = parse_block(src, cs, q)?;
        let q = skip_blank(cs, q);
        if !word_at(cs, q, "else") {
            return Err(ParseError { position: q });
        }
        let q = expect_char(cs, q + 4, '{')?;
        let (else_branch, q) = parse_block(src, cs, q)?;
        return Ok((Expr::If { cond: Box::new(cond), then_branch, else_branch }, q));
    }
    if word_at(cs, p, "while") {
        let q = expect_char(cs, p + 5, '(')?;
        let (cond, q) = parse_expr(src, cs, q)?;
        let q = expect_char(cs, q, ')')?;
        let q = expect_char(cs, q, '{')?;
        let (body, q) = parse_block(src, cs, q)?;
        return Ok((Expr::While { cond: Box::new(cond), body }, q));
    }
    parse_level(src, cs, p, 2)
}

/// A statement: a function definition, a return, an assignment or an expression.
fn parse_stmt(src: &str, cs: &Vec<char>, pos: usize) -> (r: Result<(Stmt, usize), ParseError>)
    requires
        cs@ == src@,
        cs@.len() < usize::MAX,
        pos <= cs@.len(),
    ensures
        r is Ok ==> advanced(cs@, pos, r->Ok_0.1),
    decreases cs@.len() - pos, 12nat,
{
    let p = skip_blank(cs, pos);
    proof {
        reveal_strlit("def");
        reveal_strlit("return");
    }
    if word_at(cs, p, "def") {
        let q = skip_blank(cs, p + 3);
        let (name, q) = parse_name(src, cs, q)?;
        let q = expect_char(cs, q, '(')?;
        let mut params: Vec<String> = Vec::new();
        let r = skip_blank(cs, q);
        let mut q = q;
        if char_at(cs, r, ')') {
            q = r + 1;
        } else {
            loop
                invariant
                    cs@ == src@,
                    cs@.len() < usize::MAX,
                    p < q <= cs@.len(),
                decreases cs@.len() - q,
            {
                let r = skip_blank(cs, q);
                let (param, r) = parse_name(src, cs, r)?;
                params.push(param);
                let r = skip_blank(cs, r);
                if char_at(cs, r, ',') {
                    q = r + 1;
                } else if char_at(cs, r, ')') {
                    q = r + 1;
                    break ;
                } else {
                    return Err(ParseError { position: r });
                }
            }
        }
        let q = expect_char(cs, q, '{')?;
        let (body, q) = parse_block(src, cs, q)?;
        return Ok((Stmt::Function { name, params, body }, q));
    }
    if word_at(cs, p, "return") {
        let (e, q) = parse_expr(src, cs, p + 6)?;
        return Ok((Stmt::Return(e), q));
    }
    if ident_start_at(cs, p) {
        let end = scan_ident(cs, p);
        let eq = skip_blank(cs, end);
        if char_at(cs, eq, '=') && !char_at(cs, eq + 1, '=') {
            let (name, _) = parse_name(src, cs, p)?;
            let (value, q) = parse_expr(src, cs, eq + 1)?;
            return Ok((Stmt::Assignment { name, value }, q));
        }
    }
    let (e, q) = parse_expr(src, cs, p)?;
    Ok((Stmt::Expr(e), q))
}

/// Parses a program of the surface language into its statements.
pub fn parse(source: &str) -> (r: Result<Program, ParseError>) {
    let cs = chars_of(source);
    if cs.len() == usize::MAX {
        return Err(ParseError { position: cs.len() });
    }
    let mut program: Vec<Stmt> = Vec::new();
    let mut p: usize = 0;
    loop
        invariant
            cs@ == source@,
            cs@.len() < usize::MAX,
            p <= cs@.len(),
        decreases cs@.len() - p,
    {
        let q = skip_blank(&cs, p);
        if q == cs.len() {
            return Ok(program);
        }
        let (s, q) = parse_stmt(source, &cs, q)?;
        program.push(s);
        p = q;
    }
}

} // verus!

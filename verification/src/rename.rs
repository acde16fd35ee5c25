//! Renaming a free identifier inside a default method body.
//!
//! The rewrite of a default body replaces every free occurrence of the
//! receiver identifier with a fresh internal name. Renaming is a tree
//! traversal, not a textual replacement: an occurrence bound by a shadowing
//! `let` of the same name is left alone, and so is every statement that
//! follows such a binding in its block.

use vstd::prelude::*;

use crate::ast::{Block, Expr, Stmt};
use crate::ast::{
    block_v, expr_v, exprs_v, lemma_exprs_v, lemma_stmts_v, stmt_v, stmts_v, BlockV, ExprV, StmtV,
};
use crate::dup::{dup_expr, dup_stmt};

verus! {

broadcast use vstd::std_specs::vec::axiom_vec_index_decreases, vstd::seq::axiom_seq_index_decreases;

// ---------------------------------------------------------------------------
// The renaming, on ghost trees
// ---------------------------------------------------------------------------

pub open spec fn rename_expr(e: ExprV, from: Seq<char>, to: Seq<char>) -> ExprV
    decreases e, 0int,
{
    match e {
        ExprV::Var(s) => if s == from {
            ExprV::Var(to)
        } else {
            ExprV::Var(s)
        },
        ExprV::Lit(s) => ExprV::Lit(s),
        ExprV::Field { base, name } => ExprV::Field {
            base: Box::new(rename_expr(*base, from, to)),
            name,
        },
        ExprV::Call { callee, args } => ExprV::Call {
            callee,
            args: rename_exprs(args, 0, from, to),
        },
        ExprV::MethodCall { recv, method, args } => ExprV::MethodCall {
            recv: Box::new(rename_expr(*recv, from, to)),
            method,
            args: rename_exprs(args, 0, from, to),
        },
        ExprV::QualCall { qualifier, trait_path, method, args } => ExprV::QualCall {
            qualifier,
            trait_path,
            method,
            args: rename_exprs(args, 0, from, to),
        },
        ExprV::Await(inner) => ExprV::Await(Box::new(rename_expr(*inner, from, to))),
        ExprV::Block(b) => ExprV::Block(rename_block(b, from, to)),
        ExprV::AsyncMove(b) => ExprV::AsyncMove(rename_block(b, from, to)),
    }
}

pub open spec fn rename_exprs(es: Seq<ExprV>, i: int, from: Seq<char>, to: Seq<char>) -> Seq<ExprV>
    decreases es, es.len() - i,
{
    if i < 0 || i >= es.len() {
        Seq::empty()
    } else {
        seq![rename_expr(es[i], from, to)] + rename_exprs(es, i + 1, from, to)
    }
}

/// Rename the statements of one block from position `i` on. A `let` that
/// rebinds `from` shadows it: the statements after it are left untouched.
pub open spec fn rename_stmts(ss: Seq<StmtV>, i: int, from: Seq<char>, to: Seq<char>) -> Seq<StmtV>
    decreases ss, ss.len() - i,
{
    if i < 0 || i >= ss.len() {
        Seq::empty()
    } else {
        match ss[i] {
            StmtV::Let { name, init } => {
                let renamed = StmtV::Let { name, init: rename_expr(init, from, to) };
                if name == from {
                    seq![renamed] + ss.subrange(i + 1, ss.len() as int)
                } else {
                    seq![renamed] + rename_stmts(ss, i + 1, from, to)
                }
            },
            StmtV::Expr(e) => seq![StmtV::Expr(rename_expr(e, from, to))] + rename_stmts(
                ss,
                i + 1,
                from,
                to,
            ),
        }
    }
}

pub open spec fn rename_block(b: BlockV, from: Seq<char>, to: Seq<char>) -> BlockV
    decreases b, 0int,
{
    BlockV { stmts: rename_stmts(b.stmts, 0, from, to) }
}

// ---------------------------------------------------------------------------
// Free occurrence of an identifier
// ---------------------------------------------------------------------------

pub open spec fn free_in_expr(e: ExprV, x: Seq<char>) -> bool
    decreases e, 0int,
{
    match e {
        ExprV::Var(s) => s == x,
        ExprV::Lit(_) => false,
        ExprV::Field { base, name } => free_in_expr(*base, x),
        ExprV::Call { callee, args } => free_in_exprs(args, 0, x),
        ExprV::MethodCall { recv, method, args } => free_in_expr(*recv, x) || free_in_exprs(
            args,
            0,
            x,
        ),
        ExprV::QualCall { qualifier, trait_path, method, args } => free_in_exprs(args, 0, x),
        ExprV::Await(inner) => free_in_expr(*inner, x),
        ExprV::Block(b) => free_in_block(b, x),
        ExprV::AsyncMove(b) => free_in_block(b, x),
    }
}

pub open spec fn free_in_exprs(es: Seq<ExprV>, i: int, x: Seq<char>) -> bool
    decreases es, es.len() - i,
{
    if i < 0 || i >= es.len() {
        false
    } else {
        free_in_expr(es[i], x) || free_in_exprs(es, i + 1, x)
    }
}

/// Whether `x` occurs free in the statements of a block from position `i`
/// on. A `let` that rebinds `x` shadows it for the rest of the block.
pub open spec fn free_in_stmts(ss: Seq<StmtV>, i: int, x: Seq<char>) -> bool
    decreases ss, ss.len() - i,
{
    if i < 0 || i >= ss.len() {
        false
    } else {
        match ss[i] {
            StmtV::Let { name, init } => free_in_expr(init, x) || (name != x && free_in_stmts(
                ss,
                i + 1,
                x,
            )),
            StmtV::Expr(e) => free_in_expr(e, x) || free_in_stmts(ss, i + 1, x),
        }
    }
}

pub open spec fn free_in_block(b: BlockV, x: Seq<char>) -> bool
    decreases b, 0int,
{
    free_in_stmts(b.stmts, 0, x)
}

// ---------------------------------------------------------------------------
// The renaming, executable
// ---------------------------------------------------------------------------

pub fn rename_expr_exec(e: &Expr, from: &String, to: &String) -> (r: Expr)
    ensures
        expr_v(r) == rename_expr(expr_v(*e), from@, to@),
    decreases *e, 1int,
{
    match e {
        Expr::Var(s) => if *s == *from {
            Expr::Var(to.clone())
        } else {
            Expr::Var(s.clone())
        },
        Expr::Lit(s) => Expr::Lit(s.clone()),
        Expr::Field { base, name } => Expr::Field {
            base: Box::new(rename_expr_exec(base, from, to)),
            name: name.clone(),
        },
        Expr::Call { callee, args } => Expr::Call {
            callee: callee.clone(),
            args: rename_exprs_exec(args, from, to),
        },
        Expr::MethodCall { recv, method, args } => Expr::MethodCall {
            recv: Box::new(rename_expr_exec(recv, from, to)),
            method: method.clone(),
            args: rename_exprs_exec(args, from, to),
        },
        Expr::QualCall { qualifier, trait_path, method, args } => Expr::QualCall {
            qualifier: qualifier.clone(),
            trait_path: trait_path.clone(),
            method: method.clone(),
            args: rename_exprs_exec(args, from, to),
        },
        Expr::Await(inner) => Expr::Await(Box::new(rename_expr_exec(inner, from, to))),
        Expr::Block(b) => Expr::Block(rename_block_exec(b, from, to)),
        Expr::AsyncMove(b) => Expr::AsyncMove(rename_block_exec(b, from, to)),
    }
}

/// The ghost renaming of an argument list, element by element.
proof fn lemma_rename_exprs(es: Seq<ExprV>, i: int, from: Seq<char>, to: Seq<char>)
    requires
        0 <= i <= es.len(),
    ensures
        rename_exprs(es, i, from, to).len() == es.len() - i,
        forall|j: int|
            0 <= j < es.len() - i ==> rename_exprs(es, i, from, to)[j] == rename_expr(
                es[i + j],
                from,
                to,
            ),
    decreases es.len() - i,
{
    if i < es.len() {
        lemma_rename_exprs(es, i + 1, from, to);
    }
}

pub fn rename_exprs_exec(es: &Vec<Expr>, from: &String, to: &String) -> (r: Vec<Expr>)
    ensures
        exprs_v(r, 0) == rename_exprs(exprs_v(*es, 0), 0, from@, to@),
    decreases *es, 0int,
{
    let mut out: Vec<Expr> = Vec::new();
    let n = es.len();
    for j in 0..n
        invariant
            n == es.len(),
            out.len() == j,
            forall|k: int|
                0 <= k < j ==> expr_v(out[k]) == rename_expr(expr_v(es[k]), from@, to@),
        decreases n - j,
    {
        out.push(rename_expr_exec(&es[j], from, to));
    }
    proof {
        lemma_exprs_v(out, 0);
        lemma_exprs_v(*es, 0);
        lemma_rename_exprs(exprs_v(*es, 0), 0, from@, to@);
        assert(exprs_v(out, 0) =~= rename_exprs(exprs_v(*es, 0), 0, from@, to@));
    }
    out
}

/// Copy the statements of a block unchanged, from position `j` on.
fn dup_stmts_from(ss: &Vec<Stmt>, j: usize) -> (r: Vec<Stmt>)
    requires
        j <= ss.len(),
    ensures
        stmts_v(r, 0) == stmts_v(*ss, j as int),
{
    let mut out: Vec<Stmt> = Vec::new();
    let n = ss.len();
    for k in j..n
        invariant
            n == ss.len(),
            j <= k <= n,
            out.len() == k - j,
            forall|q: int| 0 <= q < k - j ==> stmt_v(out[q]) == stmt_v(ss[j + q]),
    {
        out.push(dup_stmt(&ss[k]));
    }
    proof {
        lemma_stmts_v(out, 0);
        lemma_stmts_v(*ss, j as int);
        assert(stmts_v(out, 0) =~= stmts_v(*ss, j as int));
    }
    out
}

pub fn rename_stmts_exec(ss: &Vec<Stmt>, j: usize, from: &String, to: &String) -> (r: Vec<Stmt>)
    requires
        j <= ss.len(),
    ensures
        stmts_v(r, 0) == rename_stmts(stmts_v(*ss, 0), j as int, from@, to@),
    decreases *ss, ss.len() - j,
{
    proof {
        lemma_stmts_v(*ss, 0);
    }
    let ghost sv = stmts_v(*ss, 0);
    if j >= ss.len() {
        let out: Vec<Stmt> = Vec::new();
        proof {
            assert(stmts_v(out, 0) =~= rename_stmts(sv, j as int, from@, to@));
        }
        out
    } else {
        match &ss[j] {
            Stmt::Let { name, init } => {
                let renamed = Stmt::Let {
                    name: name.clone(),
                    init: rename_expr_exec(init, from, to),
                };
                let mut rest: Vec<Stmt> = if *name == *from {
                    dup_stmts_from(ss, j + 1)
                } else {
                    rename_stmts_exec(ss, j + 1, from, to)
                };
                let ghost rest0 = rest;
                let ghost renamed0 = renamed;
                let mut out: Vec<Stmt> = Vec::new();
                out.push(renamed);
                out.append(&mut rest);
                proof {
                    assert(out@ =~= seq![renamed0] + rest0@);
                    lemma_stmts_v(out, 0);
                    lemma_stmts_v(rest0, 0);
                    assert(sv[j as int] == stmt_v(ss[j as int]));
                    if name@ == from@ {
                        lemma_stmts_v(*ss, (j + 1) as int);
                        assert(stmts_v(*ss, (j + 1) as int) =~= sv.subrange(
                            j + 1,
                            sv.len() as int,
                        ));
                    }
                    assert(stmts_v(out, 0) =~= rename_stmts(sv, j as int, from@, to@));
                }
                out
            },
            Stmt::Expr(e) => {
                let renamed = Stmt::Expr(rename_expr_exec(e, from, to));
                let mut rest = rename_stmts_exec(ss, j + 1, from, to);
                let ghost rest0 = rest;
                let ghost renamed0 = renamed;
                let mut out: Vec<Stmt> = Vec::new();
                out.push(renamed);
                out.append(&mut rest);
                proof {
                    assert(out@ =~= seq![renamed0] + rest0@);
                    lemma_stmts_v(out, 0);
                    lemma_stmts_v(rest0, 0);
                    assert(sv[j as int] == stmt_v(ss[j as int]));
                    assert(stmts_v(out, 0) =~= rename_stmts(sv, j as int, from@, to@));
                }
                out
            },
        }
    }
}

pub fn rename_block_exec(b: &Block, from: &String, to: &String) -> (r: Block)
    ensures
        block_v(r) == rename_block(block_v(*b), from@, to@),
    decreases *b, 2int,
{
    Block { stmts: rename_stmts_exec(&b.stmts, 0, from, to) }
}

// ---------------------------------------------------------------------------
// Laws of the renaming
// ---------------------------------------------------------------------------

/// A free occurrence in a suffix does not depend on what stands before it.
proof fn lemma_free_in_exprs_shift(pre: Seq<ExprV>, rest: Seq<ExprV>, k: int, x: Seq<char>)
    requires
        0 <= k <= rest.len(),
    ensures
        free_in_exprs(pre + rest, pre.len() + k, x) == free_in_exprs(rest, k, x),
    decreases rest.len() - k,
{
    if k < rest.len() {
        lemma_free_in_exprs_shift(pre, rest, k + 1, x);
        assert((pre + rest)[pre.len() + k] == rest[k]);
    }
}

/// A free occurrence in a suffix does not depend on what stands before it.
proof fn lemma_free_in_stmts_shift(pre: Seq<StmtV>, rest: Seq<StmtV>, k: int, x: Seq<char>)
    requires
        0 <= k <= rest.len(),
    ensures
        free_in_stmts(pre + rest, pre.len() + k, x) == free_in_stmts(rest, k, x),
    decreases rest.len() - k,
{
    if k < rest.len() {
        lemma_free_in_stmts_shift(pre, rest, k + 1, x);
        assert((pre + rest)[pre.len() + k] == rest[k]);
    }
}

proof fn lemma_removes_free_expr(e: ExprV, from: Seq<char>, to: Seq<char>)
    requires
        from != to,
    ensures
        !free_in_expr(rename_expr(e, from, to), from),
    decreases e, 1int,
{
    reveal_with_fuel(rename_expr, 3);
    reveal_with_fuel(free_in_expr, 3);
    match e {
        ExprV::Var(s) => {},
        ExprV::Lit(_) => {},
        ExprV::Field { base, name } => lemma_removes_free_expr(*base, from, to),
        ExprV::Call { callee, args } => lemma_removes_free_exprs(args, 0, from, to),
        ExprV::MethodCall { recv, method, args } => {
            lemma_removes_free_expr(*recv, from, to);
            lemma_removes_free_exprs(args, 0, from, to);
        },
        ExprV::QualCall { qualifier, trait_path, method, args } => {
            lemma_removes_free_exprs(args, 0, from, to);
        },
        ExprV::Await(inner) => lemma_removes_free_expr(*inner, from, to),
        ExprV::Block(b) => lemma_removes_free_stmts(b.stmts, 0, from, to),
        ExprV::AsyncMove(b) => lemma_removes_free_stmts(b.stmts, 0, from, to),
    }
}

proof fn lemma_removes_free_exprs(es: Seq<ExprV>, i: int, from: Seq<char>, to: Seq<char>)
    requires
        from != to,
        0 <= i <= es.len(),
    ensures
        !free_in_exprs(rename_exprs(es, i, from, to), 0, from),
    decreases es, es.len() - i,
{
    if i < es.len() {
        lemma_removes_free_expr(es[i], from, to);
        lemma_removes_free_exprs(es, i + 1, from, to);
        let hd = seq![rename_expr(es[i], from, to)];
        let tl = rename_exprs(es, i + 1, from, to);
        lemma_free_in_exprs_shift(hd, tl, 0, from);
        assert((hd + tl)[0] == hd[0]);
    }
}

proof fn lemma_removes_free_stmts(ss: Seq<StmtV>, i: int, from: Seq<char>, to: Seq<char>)
    requires
        from != to,
        0 <= i <= ss.len(),
    ensures
        !free_in_stmts(rename_stmts(ss, i, from, to), 0, from),
    decreases ss, ss.len() - i,
{
    if i < ss.len() {
        match ss[i] {
            StmtV::Let { name, init } => {
                lemma_removes_free_expr(init, from, to);
                let hd = seq![StmtV::Let { name, init: rename_expr(init, from, to) }];
                if name == from {
                    let tl = ss.subrange(i + 1, ss.len() as int);
                    assert((hd + tl)[0] == hd[0]);
                } else {
                    lemma_removes_free_stmts(ss, i + 1, from, to);
                    let tl = rename_stmts(ss, i + 1, from, to);
                    lemma_free_in_stmts_shift(hd, tl, 0, from);
                    assert((hd + tl)[0] == hd[0]);
                }
            },
            StmtV::Expr(e) => {
                lemma_removes_free_expr(e, from, to);
                lemma_removes_free_stmts(ss, i + 1, from, to);
                let hd = seq![StmtV::Expr(rename_expr(e, from, to))];
                let tl = rename_stmts(ss, i + 1, from, to);
                lemma_free_in_stmts_shift(hd, tl, 0, from);
                assert((hd + tl)[0] == hd[0]);
            },
        }
    }
}

/// After the renaming, the old identifier no longer occurs free anywhere in
/// the body.
pub proof fn lemma_rename_removes_free(b: BlockV, from: Seq<char>, to: Seq<char>)
    requires
        from != to,
    ensures
        !free_in_block(rename_block(b, from, to), from),
{
    lemma_removes_free_stmts(b.stmts, 0, from, to);
}

proof fn lemma_untouched_expr(e: ExprV, from: Seq<char>, to: Seq<char>)
    requires
        !free_in_expr(e, from),
    ensures
        rename_expr(e, from, to) == e,
    decreases e, 1int,
{
    reveal_with_fuel(rename_expr, 3);
    reveal_with_fuel(free_in_expr, 3);
    match e {
        ExprV::Var(s) => {},
        ExprV::Lit(_) => {},
        ExprV::Field { base, name } => lemma_untouched_expr(*base, from, to),
        ExprV::Call { callee, args } => {
            lemma_untouched_exprs(args, 0, from, to);
            assert(args.subrange(0, args.len() as int) =~= args);
        },
        ExprV::MethodCall { recv, method, args } => {
            lemma_untouched_expr(*recv, from, to);
            lemma_untouched_exprs(args, 0, from, to);
            assert(args.subrange(0, args.len() as int) =~= args);
        },
        ExprV::QualCall { qualifier, trait_path, method, args } => {
            lemma_untouched_exprs(args, 0, from, to);
            assert(args.subrange(0, args.len() as int) =~= args);
        },
        ExprV::Await(inner) => lemma_untouched_expr(*inner, from, to),
        ExprV::Block(b) => {
            lemma_untouched_stmts(b.stmts, 0, from, to);
            assert(b.stmts.subrange(0, b.stmts.len() as int) =~= b.stmts);
        },
        ExprV::AsyncMove(b) => {
            lemma_untouched_stmts(b.stmts, 0, from, to);
            assert(b.stmts.subrange(0, b.stmts.len() as int) =~= b.stmts);
        },
    }
}

proof fn lemma_untouched_exprs(es: Seq<ExprV>, i: int, from: Seq<char>, to: Seq<char>)
    requires
        0 <= i <= es.len(),
        !free_in_exprs(es, i, from),
    ensures
        rename_exprs(es, i, from, to) == es.subrange(i, es.len() as int),
    decreases es, es.len() - i,
{
    if i < es.len() {
        lemma_untouched_expr(es[i], from, to);
        lemma_untouched_exprs(es, i + 1, from, to);
        assert(rename_exprs(es, i, from, to) =~= es.subrange(i, es.len() as int));
    } else {
        assert(rename_exprs(es, i, from, to) =~= es.subrange(i, es.len() as int));
    }
}

proof fn lemma_untouched_stmts(ss: Seq<StmtV>, i: int, from: Seq<char>, to: Seq<char>)
    requires
        0 <= i <= ss.len(),
        !free_in_stmts(ss, i, from),
    ensures
        rename_stmts(ss, i, from, to) == ss.subrange(i, ss.len() as int),
    decreases ss, ss.len() - i,
{
    if i < ss.len() {
        match ss[i] {
            StmtV::Let { name, init } => {
                lemma_untouched_expr(init, from, to);
                if name == from {
                    assert(rename_stmts(ss, i, from, to) =~= ss.subrange(i, ss.len() as int));
                } else {
                    lemma_untouched_stmts(ss, i + 1, from, to);
                    assert(rename_stmts(ss, i, from, to) =~= ss.subrange(i, ss.len() as int));
                }
            },
            StmtV::Expr(e) => {
                lemma_untouched_expr(e, from, to);
                lemma_untouched_stmts(ss, i + 1, from, to);
                assert(rename_stmts(ss, i, from, to) =~= ss.subrange(i, ss.len() as int));
            },
        }
    }
}

/// A body in which the identifier does not occur free — every occurrence
/// being bound by a shadowing `let` — is left exactly as it was.
pub proof fn lemma_rename_leaves_shadowed(b: BlockV, from: Seq<char>, to: Seq<char>)
    requires
        !free_in_block(b, from),
    ensures
        rename_block(b, from, to) == b,
{
    lemma_untouched_stmts(b.stmts, 0, from, to);
    assert(b.stmts.subrange(0, b.stmts.len() as int) =~= b.stmts);
}

} // verus!

//! Verified deep copies of the syntax tree.
//!
//! The transformation leaves parts of a declaration unchanged while the
//! caller keeps the original; these functions produce a copy whose ghost
//! mirror is exactly that of the source.

use vstd::prelude::*;

use crate::ast::{
    Block, Bound, Expr, GenericParam, MethodBody, MethodSig, Param, Pat, RetType, SelfKind, Stmt,
    TraitDecl, TraitItem, WherePred,
};
use crate::ast::{
    block_v, body_v, bound_v, bounds_v, bounds_v_from, decl_v, expr_v, exprs_v, gp_v, gps_v,
    item_v, items_v, lemma_bounds_v, lemma_exprs_v, lemma_stmts_v, opt_str_v, param_v, params_v,
    pat_v, pred_v, preds_v, ret_v, self_v, sig_v, stmt_v, stmts_v,
};

verus! {

broadcast use vstd::std_specs::vec::axiom_vec_index_decreases;

pub fn dup_opt_str(o: &Option<String>) -> (r: Option<String>)
    ensures
        opt_str_v(r) == opt_str_v(*o),
{
    match o {
        Some(s) => Some(s.clone()),
        None => None,
    }
}

pub fn dup_gp(p: &GenericParam) -> (r: GenericParam)
    ensures
        gp_v(r) == gp_v(*p),
{
    GenericParam { kind: p.kind, name: p.name.clone(), suffix: p.suffix.clone() }
}

pub fn dup_gps(ps: &Vec<GenericParam>) -> (r: Vec<GenericParam>)
    ensures
        gps_v(r) == gps_v(*ps),
{
    let mut out: Vec<GenericParam> = Vec::new();
    let n = ps.len();
    for j in 0..n
        invariant
            n == ps.len(),
            out.len() == j,
            forall|k: int| 0 <= k < j ==> gp_v(out[k]) == gp_v(ps[k]),
    {
        out.push(dup_gp(&ps[j]));
    }
    proof {
        assert(gps_v(out) =~= gps_v(*ps));
    }
    out
}

pub fn dup_ret(t: &RetType) -> (r: RetType)
    ensures
        ret_v(r) == ret_v(*t),
    decreases *t, 1int,
{
    match t {
        RetType::Default => RetType::Default,
        RetType::Plain(s) => RetType::Plain(s.clone()),
        RetType::Opaque(bs) => RetType::Opaque(dup_bounds(bs)),
    }
}

pub fn dup_bound(b: &Bound) -> (r: Bound)
    ensures
        bound_v(r) == bound_v(*b),
    decreases *b, 1int,
{
    match b {
        Bound::Named(s) => Bound::Named(s.clone()),
        Bound::Future(t) => Bound::Future(Box::new(dup_ret(t))),
    }
}

pub fn dup_bounds(bs: &Vec<Bound>) -> (r: Vec<Bound>)
    ensures
        bounds_v(r) == bounds_v(*bs),
    decreases *bs, 0int,
{
    let mut out: Vec<Bound> = Vec::new();
    let n = bs.len();
    for j in 0..n
        invariant
            n == bs.len(),
            out.len() == j,
            forall|k: int| 0 <= k < j ==> bound_v(out[k]) == bound_v(bs[k]),
        decreases n - j,
    {
        out.push(dup_bound(&bs[j]));
    }
    proof {
        lemma_bounds_v(out, 0);
        lemma_bounds_v(*bs, 0);
        assert(bounds_v(out) =~= bounds_v(*bs));
    }
    out
}

/// A copy of `a` followed by a copy of `b`: the appended bound list of the
/// item transformer and the variant synthesizer.
pub fn append_bounds(a: &Vec<Bound>, b: &Vec<Bound>) -> (r: Vec<Bound>)
    ensures
        bounds_v(r) == bounds_v(*a) + bounds_v(*b),
{
    let mut out = dup_bounds(a);
    let mut more = dup_bounds(b);
    let ghost out0 = out;
    let ghost more0 = more;
    out.append(&mut more);
    proof {
        lemma_bounds_v(out, 0);
        lemma_bounds_v(out0, 0);
        lemma_bounds_v(more0, 0);
        lemma_bounds_v(*a, 0);
        lemma_bounds_v(*b, 0);
        assert(bounds_v(out) =~= bounds_v(*a) + bounds_v(*b));
    }
    out
}

pub fn dup_self(r0: &SelfKind) -> (r: SelfKind)
    ensures
        self_v(r) == self_v(*r0),
{
    match r0 {
        SelfKind::Value { mutable } => SelfKind::Value { mutable: *mutable },
        SelfKind::Ref { lifetime } => SelfKind::Ref { lifetime: dup_opt_str(lifetime) },
        SelfKind::RefMut { lifetime } => SelfKind::RefMut { lifetime: dup_opt_str(lifetime) },
    }
}

pub fn dup_pat(p: &Pat) -> (r: Pat)
    ensures
        pat_v(r) == pat_v(*p),
{
    match p {
        Pat::Ident(s) => Pat::Ident(s.clone()),
        Pat::Other(s) => Pat::Other(s.clone()),
    }
}

pub fn dup_param(p: &Param) -> (r: Param)
    ensures
        param_v(r) == param_v(*p),
{
    Param { pat: dup_pat(&p.pat), ty: p.ty.clone() }
}

pub fn dup_params(ps: &Vec<Param>) -> (r: Vec<Param>)
    ensures
        params_v(r) == params_v(*ps),
{
    let mut out: Vec<Param> = Vec::new();
    let n = ps.len();
    for j in 0..n
        invariant
            n == ps.len(),
            out.len() == j,
            forall|k: int| 0 <= k < j ==> param_v(out[k]) == param_v(ps[k]),
    {
        out.push(dup_param(&ps[j]));
    }
    proof {
        assert(params_v(out) =~= params_v(*ps));
    }
    out
}

pub fn dup_pred(p: &WherePred) -> (r: WherePred)
    ensures
        pred_v(r) == pred_v(*p),
{
    match p {
        WherePred::Verbatim(s) => WherePred::Verbatim(s.clone()),
        WherePred::RefSelf { lifetime, bounds } => WherePred::RefSelf {
            lifetime: lifetime.clone(),
            bounds: dup_bounds(bounds),
        },
        WherePred::SharedRef { param, bounds } => WherePred::SharedRef {
            param: param.clone(),
            bounds: dup_bounds(bounds),
        },
    }
}

pub fn dup_preds(ps: &Vec<WherePred>) -> (r: Vec<WherePred>)
    ensures
        preds_v(r) == preds_v(*ps),
{
    let mut out: Vec<WherePred> = Vec::new();
    let n = ps.len();
    for j in 0..n
        invariant
            n == ps.len(),
            out.len() == j,
            forall|k: int| 0 <= k < j ==> pred_v(out[k]) == pred_v(ps[k]),
    {
        out.push(dup_pred(&ps[j]));
    }
    proof {
        assert(preds_v(out) =~= preds_v(*ps));
    }
    out
}

pub fn dup_expr(e: &Expr) -> (r: Expr)
    ensures
        expr_v(r) == expr_v(*e),
    decreases *e, 1int,
{
    match e {
        Expr::Var(s) => Expr::Var(s.clone()),
        Expr::Lit(s) => Expr::Lit(s.clone()),
        Expr::Field { base, name } => Expr::Field {
            base: Box::new(dup_expr(base)),
            name: name.clone(),
        },
        Expr::Call { callee, args } => Expr::Call {
            callee: callee.clone(),
            args: dup_exprs(args),
        },
        Expr::MethodCall { recv, method, args } => Expr::MethodCall {
            recv: Box::new(dup_expr(recv)),
            method: method.clone(),
            args: dup_exprs(args),
        },
        Expr::QualCall { qualifier, trait_path, method, args } => Expr::QualCall {
            qualifier: qualifier.clone(),
            trait_path: trait_path.clone(),
            method: method.clone(),
            args: dup_exprs(args),
        },
        Expr::Await(inner) => Expr::Await(Box::new(dup_expr(inner))),
        Expr::Block(b) => Expr::Block(dup_block(b)),
        Expr::AsyncMove(b) => Expr::AsyncMove(dup_block(b)),
    }
}

pub fn dup_exprs(es: &Vec<Expr>) -> (r: Vec<Expr>)
    ensures
        exprs_v(r, 0) == exprs_v(*es, 0),
    decreases *es, 0int,
{
    let mut out: Vec<Expr> = Vec::new();
    let n = es.len();
    for j in 0..n
        invariant
            n == es.len(),
            out.len() == j,
            forall|k: int| 0 <= k < j ==> expr_v(out[k]) == expr_v(es[k]),
        decreases n - j,
    {
        out.push(dup_expr(&es[j]));
    }
    proof {
        lemma_exprs_v(out, 0);
        lemma_exprs_v(*es, 0);
        assert(exprs_v(out, 0) =~= exprs_v(*es, 0));
    }
    out
}

pub fn dup_stmt(s: &Stmt) -> (r: Stmt)
    ensures
        stmt_v(r) == stmt_v(*s),
    decreases *s, 1int,
{
    match s {
        Stmt::Let { name, init } => Stmt::Let { name: name.clone(), init: dup_expr(init) },
        Stmt::Expr(e) => Stmt::Expr(dup_expr(e)),
    }
}

pub fn dup_stmts(ss: &Vec<Stmt>) -> (r: Vec<Stmt>)
    ensures
        stmts_v(r, 0) == stmts_v(*ss, 0),
    decreases *ss, 0int,
{
    let mut out: Vec<Stmt> = Vec::new();
    let n = ss.len();
    for j in 0..n
        invariant
            n == ss.len(),
            out.len() == j,
            forall|k: int| 0 <= k < j ==> stmt_v(out[k]) == stmt_v(ss[k]),
        decreases n - j,
    {
        out.push(dup_stmt(&ss[j]));
    }
    proof {
        lemma_stmts_v(out, 0);
        lemma_stmts_v(*ss, 0);
        assert(stmts_v(out, 0) =~= stmts_v(*ss, 0));
    }
    out
}

pub fn dup_block(b: &Block) -> (r: Block)
    ensures
        block_v(r) == block_v(*b),
    decreases *b, 1int,
{
    Block { stmts: dup_stmts(&b.stmts) }
}

pub fn dup_body(b: &MethodBody) -> (r: MethodBody)
    ensures
        body_v(r) == body_v(*b),
{
    match b {
        MethodBody::Structured(bl) => MethodBody::Structured(dup_block(bl)),
        MethodBody::Verbatim(s) => MethodBody::Verbatim(s.clone()),
    }
}

pub fn dup_sig(s: &MethodSig) -> (r: MethodSig)
    ensures
        sig_v(r) == sig_v(*s),
{
    MethodSig {
        name: s.name.clone(),
        generics: dup_gps(&s.generics),
        receiver: match &s.receiver {
            Some(r0) => Some(dup_self(r0)),
            None => None,
        },
        params: dup_params(&s.params),
        output: dup_ret(&s.output),
        is_async: s.is_async,
        where_clause: dup_preds(&s.where_clause),
    }
}

pub fn dup_item(it: &TraitItem) -> (r: TraitItem)
    ensures
        item_v(r) == item_v(*it),
{
    match it {
        TraitItem::Const { name, ty, default } => TraitItem::Const {
            name: name.clone(),
            ty: ty.clone(),
            default: dup_opt_str(default),
        },
        TraitItem::AssocType { name, generics, bounds, where_clause, default } => {
            TraitItem::AssocType {
                name: name.clone(),
                generics: dup_gps(generics),
                bounds: dup_bounds(bounds),
                where_clause: dup_preds(where_clause),
                default: dup_opt_str(default),
            }
        },
        TraitItem::Method { sig, default } => TraitItem::Method {
            sig: dup_sig(sig),
            default: match default {
                Some(b) => Some(dup_body(b)),
                None => None,
            },
        },
        TraitItem::Other { text } => TraitItem::Other { text: text.clone() },
    }
}

pub fn dup_items(its: &Vec<TraitItem>) -> (r: Vec<TraitItem>)
    ensures
        items_v(r) == items_v(*its),
{
    let mut out: Vec<TraitItem> = Vec::new();
    let n = its.len();
    for j in 0..n
        invariant
            n == its.len(),
            out.len() == j,
            forall|k: int| 0 <= k < j ==> item_v(out[k]) == item_v(its[k]),
    {
        out.push(dup_item(&its[j]));
    }
    proof {
        assert(items_v(out) =~= items_v(*its));
    }
    out
}

pub fn dup_decl(t: &TraitDecl) -> (r: TraitDecl)
    ensures
        decl_v(r) == decl_v(*t),
{
    TraitDecl {
        name: t.name.clone(),
        generics: dup_gps(&t.generics),
        supertraits: dup_bounds(&t.supertraits),
        where_clause: dup_preds(&t.where_clause),
        items: dup_items(&t.items),
    }
}

} // verus!

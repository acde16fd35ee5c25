//! The item transformer.
//!
//! For each trait item, exactly one rule applies, in this precedence:
//! an asynchronous method loses its marker and returns an opaque type
//! bounded by a future with the original output type plus the requested
//! bounds; a method already returning an opaque type has the requested
//! bounds appended to it; every other item passes through unchanged.
//! A default body of an asynchronous method is rewritten so that every
//! parameter, the receiver included, is captured by value into a nested
//! `async move` block, with the receiver identifier renamed to a fresh
//! internal name; such a method with a shared-reference receiver also gets
//! a fresh receiver lifetime and a where-clause predicate that the
//! referenced receiver type satisfies the requested bounds.

use vstd::prelude::*;

use crate::ast::{
    Block, Bound, Expr, GenericParam, GpKind, MethodBody, MethodSig, Pat, RetType, SelfKind, Stmt,
    SyntaxError, TraitItem, WherePred,
};
use crate::ast::{
    block_v, bounds_v, item_v, lemma_bounds_v, lemma_stmts_v, params_v, preds_v, ret_v, sig_v,
    stmt_v, stmts_v, BlockV, BoundV, ExprV, GenericParamV, MethodBodyV, MethodSigV, ParamV, PatV,
    RetTypeV, SelfKindV, StmtV, TraitItemV, WherePredV,
};
use crate::dup::{append_bounds, dup_body, dup_bounds, dup_gp, dup_item, dup_ret, dup_sig};
use crate::rename::{rename_block, rename_block_exec};

verus! {

broadcast use vstd::std_specs::vec::axiom_vec_index_decreases;

// ---------------------------------------------------------------------------
// Reserved names
// ---------------------------------------------------------------------------

/// The receiver identifier.
pub open spec fn self_name() -> Seq<char> {
    "self"@
}

/// The fresh internal name the receiver is renamed to inside a rewritten
/// default body.
pub open spec fn inner_self_name() -> Seq<char> {
    "__self"@
}

/// The fresh lifetime bound to the receiver of a default-bodied
/// asynchronous method.
pub open spec fn receiver_lt_name() -> Seq<char> {
    "the_self_lt"@
}

// ---------------------------------------------------------------------------
// The transformation, on ghost trees
// ---------------------------------------------------------------------------

/// The receiver-bound injection. It fires only for a receiver taken by
/// shared reference: a fresh lifetime parameter is put first among the
/// method's generics, the receiver is rebound to it, and a predicate that
/// the referenced receiver type satisfies the requested bounds is appended
/// to the method's where-clause. A by-value or mutable-reference receiver
/// is deliberately left alone.
pub open spec fn inject_receiver_v(sig: MethodSigV, bounds: Seq<BoundV>) -> MethodSigV {
    match sig.receiver {
        Some(SelfKindV::Ref { lifetime }) => MethodSigV {
            generics: seq![
                GenericParamV {
                    kind: GpKind::Lifetime,
                    name: receiver_lt_name(),
                    suffix: Seq::<char>::empty(),
                },
            ] + sig.generics,
            receiver: Some(SelfKindV::Ref { lifetime: Some(receiver_lt_name()) }),
            where_clause: sig.where_clause.push(
                WherePredV::RefSelf { lifetime: receiver_lt_name(), bounds },
            ),
            ..sig
        },
        _ => sig,
    }
}

/// The position of the first method parameter that is not a plain
/// identifier binding, or -1 when every parameter is one.
pub open spec fn first_non_ident_v(params: Seq<ParamV>, i: int) -> int
    decreases params.len() - i,
{
    if i < 0 || i >= params.len() {
        -1
    } else if !(params[i].pat is Ident) {
        i
    } else {
        first_non_ident_v(params, i + 1)
    }
}

/// The by-value captures of the identifier-bound parameters, in order.
pub open spec fn param_captures_v(params: Seq<ParamV>, i: int) -> Seq<StmtV>
    decreases params.len() - i,
{
    if i < 0 || i >= params.len() {
        Seq::empty()
    } else {
        let rest = param_captures_v(params, i + 1);
        match params[i].pat {
            PatV::Ident(x) => seq![StmtV::Let { name: x, init: ExprV::Var(x) }] + rest,
            PatV::Other(_) => rest,
        }
    }
}

/// The full capture list: the receiver, when there is one, captured under
/// the fresh internal name, then every parameter captured under its own.
pub open spec fn capture_stmts_v(has_receiver: bool, params: Seq<ParamV>) -> Seq<StmtV> {
    (if has_receiver {
        seq![StmtV::Let { name: inner_self_name(), init: ExprV::Var(self_name()) }]
    } else {
        Seq::<StmtV>::empty()
    }) + param_captures_v(params, 0)
}

/// The rewritten default body: one `async move` block that captures every
/// parameter by value and then runs the original body with the receiver
/// identifier renamed to the fresh internal name.
pub open spec fn rewrite_body_v(sig: MethodSigV, body: BlockV) -> BlockV {
    BlockV {
        stmts: seq![
            StmtV::Expr(
                ExprV::AsyncMove(
                    BlockV {
                        stmts: capture_stmts_v(sig.receiver is Some, sig.params) + seq![
                            StmtV::Expr(
                                ExprV::Block(rename_block(body, self_name(), inner_self_name())),
                            ),
                        ],
                    },
                ),
            ),
        ],
    }
}

/// The signature of the de-sugared asynchronous method: the marker is
/// stripped and the return type becomes an opaque type bounded by a future
/// with the original output type plus the requested bounds; with a default
/// body present, the receiver bound is injected first.
pub open spec fn async_sig_v(sig: MethodSigV, bounds: Seq<BoundV>, has_default: bool) -> MethodSigV {
    let sig1 = if has_default {
        inject_receiver_v(sig, bounds)
    } else {
        sig
    };
    MethodSigV {
        is_async: false,
        output: RetTypeV::Opaque(seq![BoundV::Future(Box::new(sig.output))] + bounds),
        ..sig1
    }
}

/// The transformation of one trait item, by the rule precedence above.
/// A default body of an asynchronous method must be structured — the
/// rewrite has to see into it to capture and rename — so one that only
/// arrived verbatim is reported, before any parameter-pattern failure.
pub open spec fn transform_item_v(it: TraitItemV, idx: usize, bounds: Seq<BoundV>) -> Result<
    TraitItemV,
    SyntaxError,
> {
    match it {
        TraitItemV::Method { sig, default } => {
            if sig.is_async {
                if default matches Some(MethodBodyV::Verbatim(_)) {
                    Err(SyntaxError::UnsupportedBody { item: idx })
                } else if default is Some && first_non_ident_v(sig.params, 0) >= 0 {
                    Err(
                        SyntaxError::UnsupportedPattern {
                            item: idx,
                            param: first_non_ident_v(sig.params, 0) as usize,
                        },
                    )
                } else {
                    Ok(
                        TraitItemV::Method {
                            sig: async_sig_v(sig, bounds, default is Some),
                            default: match default {
                                Some(MethodBodyV::Structured(b)) => Some(
                                    MethodBodyV::Structured(rewrite_body_v(sig, b)),
                                ),
                                _ => None,
                            },
                        },
                    )
                }
            } else {
                match sig.output {
                    RetTypeV::Opaque(bs) => Ok(
                        TraitItemV::Method {
                            sig: MethodSigV { output: RetTypeV::Opaque(bs + bounds), ..sig },
                            default,
                        },
                    ),
                    _ => Ok(it),
                }
            }
        },
        _ => Ok(it),
    }
}

/// The ghost mirror of a transformation result.
pub open spec fn item_result_v(r: Result<TraitItem, SyntaxError>) -> Result<
    TraitItemV,
    SyntaxError,
> {
    match r {
        Ok(t) => Ok(item_v(t)),
        Err(e) => Err(e),
    }
}

// ---------------------------------------------------------------------------
// The transformation, executable
// ---------------------------------------------------------------------------

/// Skipping identifier-bound parameters does not move the first offender.
proof fn lemma_first_skip(params: Seq<ParamV>, i: int)
    requires
        0 <= i <= params.len(),
        forall|k: int| 0 <= k < i ==> params[k].pat is Ident,
    ensures
        first_non_ident_v(params, 0) == first_non_ident_v(params, i),
    decreases i,
{
    if i > 0 {
        lemma_first_skip(params, i - 1);
    }
}

/// The position of the first parameter that is not a plain identifier
/// binding, if any.
pub fn first_non_ident(ps: &Vec<crate::ast::Param>) -> (r: Option<usize>)
    ensures
        match r {
            Some(k) => first_non_ident_v(params_v(*ps), 0) == k as int,
            None => first_non_ident_v(params_v(*ps), 0) == -1int,
        },
{
    let n = ps.len();
    for j in 0..n
        invariant
            n == ps.len(),
            forall|k: int| 0 <= k < j ==> params_v(*ps)[k].pat is Ident,
    {
        match &ps[j].pat {
            Pat::Ident(_) => {},
            Pat::Other(_) => {
                proof {
                    lemma_first_skip(params_v(*ps), j as int);
                }
                return Some(j);
            },
        }
    }
    proof {
        lemma_first_skip(params_v(*ps), n as int);
    }
    None
}

fn param_captures(ps: &Vec<crate::ast::Param>, j: usize) -> (r: Vec<Stmt>)
    requires
        j <= ps.len(),
    ensures
        stmts_v(r, 0) == param_captures_v(params_v(*ps), j as int),
    decreases ps.len() - j,
{
    if j >= ps.len() {
        let out: Vec<Stmt> = Vec::new();
        proof {
            assert(stmts_v(out, 0) =~= param_captures_v(params_v(*ps), j as int));
        }
        out
    } else {
        let mut rest = param_captures(ps, j + 1);
        match &ps[j].pat {
            Pat::Ident(x) => {
                let cap = Stmt::Let { name: x.clone(), init: Expr::Var(x.clone()) };
                let ghost cap0 = cap;
                let ghost rest0 = rest;
                let mut out: Vec<Stmt> = Vec::new();
                out.push(cap);
                out.append(&mut rest);
                proof {
                    assert(out@ =~= seq![cap0] + rest0@);
                    lemma_stmts_v(out, 0);
                    lemma_stmts_v(rest0, 0);
                    assert(params_v(*ps)[j as int].pat is Ident);
                    assert(stmts_v(out, 0) =~= param_captures_v(params_v(*ps), j as int));
                }
                out
            },
            Pat::Other(_) => {
                proof {
                    assert(!(params_v(*ps)[j as int].pat is Ident));
                }
                rest
            },
        }
    }
}

/// The rewritten default body of an asynchronous method: captures every
/// parameter (receiver included) by value into an `async move` block and
/// renames the receiver identifier inside the original body.
pub fn rewrite_default_body(sig: &MethodSig, body: &Block) -> (r: Block)
    ensures
        block_v(r) == rewrite_body_v(sig_v(*sig), block_v(*body)),
{
    let from = String::from_str("self");
    let to = String::from_str("__self");
    let renamed = rename_block_exec(body, &from, &to);
    let mut inner: Vec<Stmt> = Vec::new();
    if sig.receiver.is_some() {
        inner.push(
            Stmt::Let {
                name: String::from_str("__self"),
                init: Expr::Var(String::from_str("self")),
            },
        );
    }
    let mut caps = param_captures(&sig.params, 0);
    let ghost inner0 = inner;
    let ghost caps0 = caps;
    inner.append(&mut caps);
    let tail = Stmt::Expr(Expr::Block(renamed));
    let ghost tail0 = tail;
    inner.push(tail);
    proof {
        assert(inner@ =~= inner0@ + caps0@ + seq![tail0]);
        lemma_stmts_v(inner, 0);
        lemma_stmts_v(inner0, 0);
        lemma_stmts_v(caps0, 0);
        assert(stmts_v(inner, 0) =~= capture_stmts_v(
            sig_v(*sig).receiver is Some,
            sig_v(*sig).params,
        ) + seq![StmtV::Expr(ExprV::Block(rename_block(block_v(*body), self_name(),
        inner_self_name())))]);
    }
    let outer_stmt = Stmt::Expr(Expr::AsyncMove(Block { stmts: inner }));
    let ghost outer0 = outer_stmt;
    let mut outer: Vec<Stmt> = Vec::new();
    outer.push(outer_stmt);
    let r = Block { stmts: outer };
    proof {
        lemma_stmts_v(r.stmts, 0);
        assert(stmts_v(r.stmts, 0) =~= seq![stmt_v(outer0)]);
        assert(block_v(r) =~= rewrite_body_v(sig_v(*sig), block_v(*body)));
    }
    r
}

/// The receiver-bound injection on an executable signature; it mutates the
/// signature exactly as `inject_receiver_v` describes.
pub fn add_receiver_bounds(sig: &mut MethodSig, bounds: &Vec<Bound>)
    ensures
        sig_v(*final(sig)) == inject_receiver_v(sig_v(*old(sig)), bounds_v(*bounds)),
{
    let is_shared_ref = match &sig.receiver {
        Some(SelfKind::Ref { .. }) => true,
        _ => false,
    };
    if !is_shared_ref {
        return ;
    }
    let lt = String::from_str("the_self_lt");
    let mut new_generics: Vec<GenericParam> = Vec::new();
    new_generics.push(GenericParam { kind: GpKind::Lifetime, name: lt.clone(), suffix: String::new() });
    let n = sig.generics.len();
    for j in 0..n
        invariant
            n == sig.generics.len(),
            new_generics.len() == j + 1,
            crate::ast::gp_v(new_generics[0]) == (GenericParamV {
                kind: GpKind::Lifetime,
                name: receiver_lt_name(),
                suffix: Seq::<char>::empty(),
            }),
            forall|k: int|
                0 <= k < j ==> crate::ast::gp_v(new_generics[k + 1]) == crate::ast::gp_v(
                    sig.generics[k],
                ),
    {
        new_generics.push(dup_gp(&sig.generics[j]));
    }
    let ghost old_sig = *sig;
    sig.generics = new_generics;
    sig.receiver = Some(SelfKind::Ref { lifetime: Some(lt.clone()) });
    sig.where_clause.push(WherePred::RefSelf { lifetime: lt, bounds: dup_bounds(bounds) });
    proof {
        assert(crate::ast::gps_v(sig.generics) =~= seq![
            GenericParamV {
                kind: GpKind::Lifetime,
                name: receiver_lt_name(),
                suffix: Seq::<char>::empty(),
            },
        ] + crate::ast::gps_v(old(sig).generics));
        assert(preds_v(sig.where_clause) =~= preds_v(old(sig).where_clause).push(
            WherePredV::RefSelf { lifetime: receiver_lt_name(), bounds: bounds_v(*bounds) },
        ));
        assert(sig_v(*sig) =~= inject_receiver_v(sig_v(*old(sig)), bounds_v(*bounds)));
    }
}

/// The item transformer: applies exactly one of the three rules to one
/// trait item, or reports why the default-body rewrite cannot proceed: a
/// body that only arrived verbatim, or a parameter it cannot capture.
pub fn transform_item(it: &TraitItem, idx: usize, bounds: &Vec<Bound>) -> (r: Result<
    TraitItem,
    SyntaxError,
>)
    ensures
        item_result_v(r) == transform_item_v(item_v(*it), idx, bounds_v(*bounds)),
{
    match it {
        TraitItem::Method { sig, default } => {
            if sig.is_async {
                if matches!(default, Some(MethodBody::Verbatim(_))) {
                    return Err(SyntaxError::UnsupportedBody { item: idx });
                }
                let bad: Option<usize> = if default.is_some() {
                    first_non_ident(&sig.params)
                } else {
                    None
                };
                match bad {
                    Some(k) => Err(SyntaxError::UnsupportedPattern { item: idx, param: k }),
                    None => {
                        let mut fut: Vec<Bound> = Vec::new();
                        fut.push(Bound::Future(Box::new(dup_ret(&sig.output))));
                        let obounds = append_bounds(&fut, bounds);
                        proof {
                            lemma_bounds_v(fut, 0);
                            assert(bounds_v(fut) =~= seq![
                                BoundV::Future(Box::new(ret_v(sig.output))),
                            ]);
                        }
                        let mut new_sig = dup_sig(sig);
                        if default.is_some() {
                            add_receiver_bounds(&mut new_sig, bounds);
                        }
                        new_sig.is_async = false;
                        new_sig.output = RetType::Opaque(obounds);
                        let new_default = match default {
                            Some(MethodBody::Structured(b)) => Some(
                                MethodBody::Structured(rewrite_default_body(sig, b)),
                            ),
                            _ => None,
                        };
                        let out = TraitItem::Method { sig: new_sig, default: new_default };
                        proof {
                            assert(sig_v(out->Method_sig) =~= async_sig_v(
                                sig_v(*sig),
                                bounds_v(*bounds),
                                default is Some,
                            ));
                        }
                        Ok(out)
                    },
                }
            } else {
                match &sig.output {
                    RetType::Opaque(bs) => {
                        let appended = append_bounds(bs, bounds);
                        let mut new_sig = dup_sig(sig);
                        new_sig.output = RetType::Opaque(appended);
                        let new_default = match default {
                            Some(b) => Some(dup_body(b)),
                            None => None,
                        };
                        let out = TraitItem::Method { sig: new_sig, default: new_default };
                        proof {
                            assert(sig_v(out->Method_sig) =~= (MethodSigV {
                                output: RetTypeV::Opaque(
                                    sig_v(*sig).output->Opaque_0 + bounds_v(*bounds),
                                ),
                                ..sig_v(*sig)
                            }));
                        }
                        Ok(out)
                    },
                    _ => Ok(dup_item(it)),
                }
            }
        },
        _ => Ok(dup_item(it)),
    }
}

} // verus!

//! The blanket implementation synthesizer.
//!
//! It emits an implementation of the original trait for every type that
//! implements the variant trait: the original generics plus one
//! implementing-type parameter, the original where-clause — extended, when
//! any original item has a default body, with the predicate that every
//! shared reference to the implementing type satisfies the requested bounds
//! — and one forwarding item per original item. A method forwards by a
//! qualified call of the variant trait's method of the same name with the
//! receiver and the parameters in order, awaited when the original method
//! was asynchronous.

use vstd::prelude::*;

use crate::ast::{
    Block, BlanketImpl, Expr, GenericParam, GpKind, ImplItem, Param, Stmt, SyntaxError, TraitDecl,
    TraitItem, VariantSpec, WherePred,
};
use crate::ast::{
    blanket_v, block_v, bounds_v, decl_v, exprs_v, impl_item_v, impl_items_v, item_v, items_v,
    lemma_exprs_v, lemma_stmts_v, params_v, preds_v, sig_v, spec_of_v, stmts_v, BlanketImplV, BlockV,
    BoundV, ExprV, GenericParamV, ImplItemV, MethodSigV, ParamV, PatV, StmtV, TraitDeclV,
    TraitItemV, VariantSpecV, WherePredV,
};
use crate::dup::{dup_bounds, dup_gps, dup_preds, dup_sig};
use crate::transform::{first_non_ident, first_non_ident_v, self_name};

verus! {

broadcast use vstd::std_specs::vec::axiom_vec_index_decreases;

/// The name of the implementing-type parameter of the blanket
/// implementation.
pub open spec fn impl_param_name() -> Seq<char> {
    "TraitVariantBlanketType"@
}

/// The qualifier of the forwarding calls.
pub open spec fn self_qualifier() -> Seq<char> {
    "Self"@
}

/// Whether some item of the original trait carries a default body.
pub open spec fn has_default_v(items: Seq<TraitItemV>) -> bool {
    exists|i: int|
        0 <= i < items.len() && #[trigger] items[i] is Method && items[i]->Method_default is Some
}

/// The forwarded arguments of the identifier-bound parameters, in order.
pub open spec fn param_args_v(params: Seq<ParamV>, i: int) -> Seq<ExprV>
    decreases params.len() - i,
{
    if i < 0 || i >= params.len() {
        Seq::empty()
    } else {
        let rest = param_args_v(params, i + 1);
        match params[i].pat {
            PatV::Ident(x) => seq![ExprV::Var(x)] + rest,
            PatV::Other(_) => rest,
        }
    }
}

/// The full forwarded argument list: the receiver, when there is one,
/// forwarded as `self`, then every parameter.
pub open spec fn forward_args_v(sig: MethodSigV) -> Seq<ExprV> {
    (if sig.receiver is Some {
        seq![ExprV::Var(self_name())]
    } else {
        Seq::<ExprV>::empty()
    }) + param_args_v(sig.params, 0)
}

/// The forwarding body: one qualified call of the variant trait's method of
/// the same name, awaited when the method is asynchronous.
pub open spec fn forward_body_v(variant: Seq<char>, sig: MethodSigV) -> BlockV {
    let call = ExprV::QualCall {
        qualifier: self_qualifier(),
        trait_path: variant,
        method: sig.name,
        args: forward_args_v(sig),
    };
    BlockV {
        stmts: seq![
            StmtV::Expr(
                if sig.is_async {
                    ExprV::Await(Box::new(call))
                } else {
                    call
                },
            ),
        ],
    }
}

/// The forwarding implementation of one original item, or the failure the
/// item provokes: an item that is not a constant, an associated type or a
/// method is unsupported, and a method parameter that is not a plain
/// identifier binding cannot be forwarded.
pub open spec fn blanket_item_v(it: TraitItemV, idx: usize, variant: Seq<char>) -> Result<
    ImplItemV,
    SyntaxError,
> {
    match it {
        TraitItemV::Const { name, ty, default } => Ok(ImplItemV::Const { name, ty }),
        TraitItemV::AssocType { name, generics, bounds, where_clause, default } => Ok(
            ImplItemV::AssocType { name, generics, where_clause },
        ),
        TraitItemV::Method { sig, default } => {
            if first_non_ident_v(sig.params, 0) >= 0 {
                Err(
                    SyntaxError::UnsupportedPattern {
                        item: idx,
                        param: first_non_ident_v(sig.params, 0) as usize,
                    },
                )
            } else {
                Ok(ImplItemV::Method { sig, body: forward_body_v(variant, sig) })
            }
        },
        TraitItemV::Other { text } => Err(SyntaxError::UnsupportedItem { item: idx }),
    }
}

/// The forwarding items, in the original order, skipping rejected ones.
pub open spec fn blanket_items_v(items: Seq<TraitItemV>, variant: Seq<char>, i: int) -> Seq<
    ImplItemV,
>
    decreases items.len() - i,
{
    if i < 0 || i >= items.len() {
        Seq::empty()
    } else {
        let rest = blanket_items_v(items, variant, i + 1);
        match blanket_item_v(items[i], i as usize, variant) {
            Ok(t) => seq![t] + rest,
            Err(_) => rest,
        }
    }
}

/// Every failure the blanket synthesizer reports, in item order.
pub open spec fn blanket_errors_v(items: Seq<TraitItemV>, variant: Seq<char>, i: int) -> Seq<
    SyntaxError,
>
    decreases items.len() - i,
{
    if i < 0 || i >= items.len() {
        Seq::empty()
    } else {
        let rest = blanket_errors_v(items, variant, i + 1);
        match blanket_item_v(items[i], i as usize, variant) {
            Ok(_) => rest,
            Err(e) => seq![e] + rest,
        }
    }
}

/// The failure one item provokes in the shape check that both entry points
/// run: an item that is not a constant, an associated type or a method is
/// unsupported, and a method parameter that is not a plain identifier
/// binding is rejected.
pub open spec fn shape_error_v(it: TraitItemV, idx: usize) -> Option<SyntaxError> {
    match it {
        TraitItemV::Const { name, ty, default } => None,
        TraitItemV::AssocType { name, generics, bounds, where_clause, default } => None,
        TraitItemV::Method { sig, default } => {
            if first_non_ident_v(sig.params, 0) >= 0 {
                Some(
                    SyntaxError::UnsupportedPattern {
                        item: idx,
                        param: first_non_ident_v(sig.params, 0) as usize,
                    },
                )
            } else {
                None
            }
        },
        TraitItemV::Other { text } => Some(SyntaxError::UnsupportedItem { item: idx }),
    }
}

/// Every shape failure, in item order.
pub open spec fn shape_errors_v(items: Seq<TraitItemV>, i: int) -> Seq<SyntaxError>
    decreases items.len() - i,
{
    if i < 0 || i >= items.len() {
        Seq::empty()
    } else {
        let rest = shape_errors_v(items, i + 1);
        match shape_error_v(items[i], i as usize) {
            Some(e) => seq![e] + rest,
            None => rest,
        }
    }
}

/// The blanket synthesizer fails on exactly the shape failures.
pub proof fn lemma_blanket_errors_are_shape_errors(
    items: Seq<TraitItemV>,
    variant: Seq<char>,
    i: int,
)
    ensures
        blanket_errors_v(items, variant, i) == shape_errors_v(items, i),
    decreases items.len() - i,
{
    if 0 <= i < items.len() {
        lemma_blanket_errors_are_shape_errors(items, variant, i + 1);
    }
}

/// The shape failures of every item, in item order.
pub fn item_shape_errors(items: &Vec<TraitItem>) -> (r: Vec<SyntaxError>)
    ensures
        r@ == shape_errors_v(items_v(*items), 0),
{
    let ghost iv = items_v(*items);
    let mut errs: Vec<SyntaxError> = Vec::new();
    let n = items.len();
    for j in 0..n
        invariant
            n == items.len(),
            iv == items_v(*items),
            shape_errors_v(iv, 0) == errs@ + shape_errors_v(iv, j as int),
    {
        let ghost errs0 = errs@;
        let found: Option<SyntaxError> = match &items[j] {
            TraitItem::Method { sig, default } => {
                match first_non_ident(&sig.params) {
                    Some(k) => Some(SyntaxError::UnsupportedPattern { item: j, param: k }),
                    None => None,
                }
            },
            TraitItem::Other { text } => Some(SyntaxError::UnsupportedItem { item: j }),
            _ => None,
        };
        proof {
            assert(iv[j as int] == item_v(items[j as int]));
        }
        match found {
            Some(e) => {
                errs.push(e);
                proof {
                    assert(shape_error_v(iv[j as int], j) == Some(e));
                    assert(errs@ + shape_errors_v(iv, j + 1) =~= errs0 + (seq![e]
                        + shape_errors_v(iv, j + 1)));
                }
            },
            None => {
                proof {
                    assert(shape_error_v(iv[j as int], j) is None);
                }
            },
        }
    }
    proof {
        assert(shape_errors_v(iv, n as int) =~= Seq::<SyntaxError>::empty());
    }
    errs
}

/// The synthesized blanket implementation.
pub open spec fn blanket_impl_v(vs: VariantSpecV, tr: TraitDeclV) -> BlanketImplV {
    BlanketImplV {
        generics: tr.generics.push(
            GenericParamV {
                kind: GpKind::Type,
                name: impl_param_name(),
                suffix: Seq::<char>::empty(),
            },
        ),
        impl_param: impl_param_name(),
        orig_trait: tr.name,
        variant_trait: vs.name,
        where_clause: tr.where_clause + (if has_default_v(tr.items) {
            seq![WherePredV::SharedRef { param: impl_param_name(), bounds: vs.bounds }]
        } else {
            Seq::<WherePredV>::empty()
        }),
        items: blanket_items_v(tr.items, vs.name, 0),
    }
}

/// Whether some item of the trait carries a default method body.
pub fn has_default(tr: &TraitDecl) -> (r: bool)
    ensures
        r == has_default_v(items_v(tr.items)),
{
    let n = tr.items.len();
    for j in 0..n
        invariant
            n == tr.items.len(),
            forall|k: int|
                0 <= k < j ==> !(#[trigger] items_v(tr.items)[k] is Method
                    && items_v(tr.items)[k]->Method_default is Some),
    {
        match &tr.items[j] {
            TraitItem::Method { sig, default } => {
                if default.is_some() {
                    proof {
                        assert(items_v(tr.items)[j as int] is Method);
                    }
                    return true;
                }
            },
            _ => {},
        }
    }
    false
}

fn param_args(ps: &Vec<Param>, j: usize) -> (r: Vec<Expr>)
    requires
        j <= ps.len(),
    ensures
        exprs_v(r, 0) == param_args_v(params_v(*ps), j as int),
    decreases ps.len() - j,
{
    if j >= ps.len() {
        let out: Vec<Expr> = Vec::new();
        proof {
            assert(exprs_v(out, 0) =~= param_args_v(params_v(*ps), j as int));
        }
        out
    } else {
        let mut rest = param_args(ps, j + 1);
        match &ps[j].pat {
            crate::ast::Pat::Ident(x) => {
                let arg = Expr::Var(x.clone());
                let ghost arg0 = arg;
                let ghost rest0 = rest;
                let mut out: Vec<Expr> = Vec::new();
                out.push(arg);
                out.append(&mut rest);
                proof {
                    assert(out@ =~= seq![arg0] + rest0@);
                    lemma_exprs_v(out, 0);
                    lemma_exprs_v(rest0, 0);
                    assert(params_v(*ps)[j as int].pat is Ident);
                    assert(exprs_v(out, 0) =~= param_args_v(params_v(*ps), j as int));
                }
                out
            },
            crate::ast::Pat::Other(_) => {
                proof {
                    assert(!(params_v(*ps)[j as int].pat is Ident));
                }
                rest
            },
        }
    }
}

/// The forwarding implementation of one original item.
pub fn blanket_item(it: &TraitItem, idx: usize, variant: &String) -> (r: Result<
    ImplItem,
    SyntaxError,
>)
    ensures
        match r {
            Ok(t) => blanket_item_v(item_v(*it), idx, variant@) == Ok::<ImplItemV, SyntaxError>(
                impl_item_v(t),
            ),
            Err(e) => blanket_item_v(item_v(*it), idx, variant@) == Err::<ImplItemV, SyntaxError>(
                e,
            ),
        },
{
    match it {
        TraitItem::Const { name, ty, default } => Ok(
            ImplItem::Const { name: name.clone(), ty: ty.clone() },
        ),
        TraitItem::AssocType { name, generics, bounds, where_clause, default } => Ok(
            ImplItem::AssocType {
                name: name.clone(),
                generics: dup_gps(generics),
                where_clause: dup_preds(where_clause),
            },
        ),
        TraitItem::Method { sig, default } => {
            match first_non_ident(&sig.params) {
                Some(k) => Err(SyntaxError::UnsupportedPattern { item: idx, param: k }),
                None => {
                    let mut args: Vec<Expr> = Vec::new();
                    if sig.receiver.is_some() {
                        args.push(Expr::Var(String::from_str("self")));
                    }
                    let ghost args0 = args;
                    let mut rest = param_args(&sig.params, 0);
                    let ghost rest0 = rest;
                    args.append(&mut rest);
                    proof {
                        lemma_exprs_v(args, 0);
                        lemma_exprs_v(args0, 0);
                        lemma_exprs_v(rest0, 0);
                        assert(exprs_v(args, 0) =~= forward_args_v(sig_v(*sig)));
                    }
                    let call = Expr::QualCall {
                        qualifier: String::from_str("Self"),
                        trait_path: variant.clone(),
                        method: sig.name.clone(),
                        args,
                    };
                    let ghost callv = ExprV::QualCall {
                        qualifier: self_qualifier(),
                        trait_path: variant@,
                        method: sig_v(*sig).name,
                        args: forward_args_v(sig_v(*sig)),
                    };
                    proof {
                        assert(crate::ast::expr_v(call) == callv);
                    }
                    let stmt = Stmt::Expr(
                        if sig.is_async {
                            Expr::Await(Box::new(call))
                        } else {
                            call
                        },
                    );
                    let ghost stmt0 = stmt;
                    proof {
                        assert(crate::ast::stmt_v(stmt0) == StmtV::Expr(
                            if sig_v(*sig).is_async {
                                ExprV::Await(Box::new(callv))
                            } else {
                                callv
                            },
                        ));
                    }
                    let mut stmts: Vec<Stmt> = Vec::new();
                    stmts.push(stmt);
                    let body = Block { stmts };
                    proof {
                        assert(body.stmts@ =~= seq![stmt0]);
                        lemma_stmts_v(body.stmts, 0);
                        assert(block_v(body).stmts =~= forward_body_v(variant@, sig_v(*sig)).stmts);
                        assert(block_v(body) =~= forward_body_v(variant@, sig_v(*sig)));
                    }
                    Ok(ImplItem::Method { sig: dup_sig(sig), body })
                },
            }
        },
        TraitItem::Other { text } => Err(SyntaxError::UnsupportedItem { item: idx }),
    }
}

/// Builds the blanket implementation, or the list of every failure it
/// reports.
pub fn mk_blanket_impl(vs: &VariantSpec, tr: &TraitDecl) -> (r: Result<
    BlanketImpl,
    Vec<SyntaxError>,
>)
    ensures
        r is Ok <==> blanket_errors_v(items_v(tr.items), vs.name@, 0).len() == 0,
        r is Ok ==> blanket_v(r->Ok_0) == blanket_impl_v(spec_of_v(*vs), decl_v(*tr)),
        r is Err ==> r->Err_0@ == blanket_errors_v(items_v(tr.items), vs.name@, 0),
{
    let ghost iv = items_v(tr.items);
    let ghost vn = vs.name@;
    let mut new_items: Vec<ImplItem> = Vec::new();
    let mut errs: Vec<SyntaxError> = Vec::new();
    let n = tr.items.len();
    for j in 0..n
        invariant
            n == tr.items.len(),
            iv == items_v(tr.items),
            vn == vs.name@,
            blanket_items_v(iv, vn, 0) == impl_items_v(new_items) + blanket_items_v(
                iv,
                vn,
                j as int,
            ),
            blanket_errors_v(iv, vn, 0) == errs@ + blanket_errors_v(iv, vn, j as int),
    {
        let ghost items0 = impl_items_v(new_items);
        let ghost errs0 = errs@;
        match blanket_item(&tr.items[j], j, &vs.name) {
            Ok(t) => {
                let ghost tv = impl_item_v(t);
                new_items.push(t);
                proof {
                    assert(impl_items_v(new_items) =~= items0.push(tv));
                    assert(impl_items_v(new_items) + blanket_items_v(iv, vn, j + 1) =~= items0 + (
                    seq![tv] + blanket_items_v(iv, vn, j + 1)));
                }
            },
            Err(e) => {
                errs.push(e);
                proof {
                    assert(errs@ + blanket_errors_v(iv, vn, j + 1) =~= errs0 + (seq![e]
                        + blanket_errors_v(iv, vn, j + 1)));
                }
            },
        }
    }
    if errs.len() == 0 {
        proof {
            assert(errs@ =~= Seq::<SyntaxError>::empty());
            assert(blanket_items_v(iv, vn, 0) =~= impl_items_v(new_items));
            assert(blanket_errors_v(iv, vn, 0) =~= Seq::<SyntaxError>::empty());
        }
        let mut generics = dup_gps(&tr.generics);
        let ghost gen0 = generics;
        generics.push(
            GenericParam {
                kind: GpKind::Type,
                name: String::from_str("TraitVariantBlanketType"),
                suffix: String::new(),
            },
        );
        let mut where_clause = dup_preds(&tr.where_clause);
        let ghost wc0 = where_clause;
        if has_default(tr) {
            where_clause.push(
                WherePred::SharedRef {
                    param: String::from_str("TraitVariantBlanketType"),
                    bounds: dup_bounds(&vs.bounds),
                },
            );
        }
        let out = BlanketImpl {
            generics,
            impl_param: String::from_str("TraitVariantBlanketType"),
            orig_trait: tr.name.clone(),
            variant_trait: vs.name.clone(),
            where_clause,
            items: new_items,
        };
        proof {
            assert(crate::ast::gps_v(out.generics) =~= crate::ast::gps_v(gen0).push(
                GenericParamV {
                    kind: GpKind::Type,
                    name: impl_param_name(),
                    suffix: Seq::<char>::empty(),
                },
            ));
            assert(preds_v(out.where_clause) =~= preds_v(wc0) + (if has_default_v(iv) {
                seq![WherePredV::SharedRef { param: impl_param_name(), bounds: bounds_v(vs.bounds) }]
            } else {
                Seq::<WherePredV>::empty()
            }));
            assert(blanket_v(out) =~= blanket_impl_v(spec_of_v(*vs), decl_v(*tr)));
        }
        Ok(out)
    } else {
        Err(errs)
    }
}

} // verus!

//! The stated laws of the transformation.
//!
//! Each proof function here states one property of the synthesizers over
//! their ghost definitions, so that a reader sees it written down rather
//! than having to derive it from the definitions.

use vstd::prelude::*;

use crate::ast::{
    BlockV, BoundV, GenericParamV, GpKind, MethodBodyV, MethodSigV, RetTypeV, SelfKindV,
    TraitDeclV, TraitItemV, VariantSpecV, WherePredV,
};
use crate::blanket::{
    blanket_impl_v, blanket_item_v, forward_args_v, forward_body_v, has_default_v, impl_param_name,
    self_qualifier,
};
use crate::transform::{
    first_non_ident_v, rewrite_body_v, transform_item_v,
};
use crate::variant::{item_errors_v, variant_decl_v, variant_items_v};

verus! {

/// Items without an asynchronous marker and without an opaque return type
/// pass through the transformer one for one.
proof fn lemma_plain_items(items: Seq<TraitItemV>, bounds: Seq<BoundV>, i: int)
    requires
        0 <= i <= items.len(),
        forall|k: int|
            #![trigger items[k]]
            0 <= k < items.len() ==> !(items[k] is Method && (items[k]->Method_sig.is_async
                || items[k]->Method_sig.output is Opaque)),
    ensures
        variant_items_v(items, bounds, i) == items.subrange(i, items.len() as int),
        item_errors_v(items, bounds, i).len() == 0,
    decreases items.len() - i,
{
    if i < items.len() {
        lemma_plain_items(items, bounds, i + 1);
        assert(transform_item_v(items[i], i as usize, bounds) == Ok::<
            TraitItemV,
            crate::ast::SyntaxError,
        >(items[i]));
        assert(variant_items_v(items, bounds, i) =~= items.subrange(i, items.len() as int));
    } else {
        assert(variant_items_v(items, bounds, i) =~= items.subrange(i, items.len() as int));
    }
}

/// A trait with only non-asynchronous, non-opaque-returning items yields a
/// variant that is item for item identical to the original, and differs
/// from it only in its name and its extended supertrait list.
pub proof fn lemma_plain_trait_unchanged(vs: VariantSpecV, tr: TraitDeclV)
    requires
        forall|k: int|
            #![trigger tr.items[k]]
            0 <= k < tr.items.len() ==> !(tr.items[k] is Method && (tr.items[k]->Method_sig.is_async
                || tr.items[k]->Method_sig.output is Opaque)),
    ensures
        variant_decl_v(vs, tr).items == tr.items,
        variant_decl_v(vs, tr).name == vs.name,
        variant_decl_v(vs, tr).generics == tr.generics,
        variant_decl_v(vs, tr).where_clause == tr.where_clause,
        variant_decl_v(vs, tr).supertraits == tr.supertraits + vs.bounds,
        item_errors_v(tr.items, vs.bounds, 0).len() == 0,
{
    lemma_plain_items(tr.items, vs.bounds, 0);
    assert(tr.items.subrange(0, tr.items.len() as int) =~= tr.items);
}

/// An asynchronous method without a default body keeps every part of its
/// signature except the marker and the return type: the variant's method
/// returns exactly an opaque type bounded by a future with the original
/// output type followed by the requested bounds, and still has no body.
pub proof fn lemma_async_method_no_default(sig: MethodSigV, idx: usize, bounds: Seq<BoundV>)
    requires
        sig.is_async,
    ensures
        ({
            let r = transform_item_v(TraitItemV::Method { sig, default: None }, idx, bounds);
            &&& r is Ok
            &&& r->Ok_0 == TraitItemV::Method {
                sig: MethodSigV {
                    is_async: false,
                    output: RetTypeV::Opaque(
                        seq![BoundV::Future(Box::new(sig.output))] + bounds,
                    ),
                    ..sig
                },
                default: None,
            }
        }),
{
}

/// An asynchronous method with a default body and a mutable-reference
/// receiver gets no receiver-lifetime injection — its generics,
/// where-clause and receiver stay as they were — while its default body is
/// still rewritten with the value-capture pattern.
pub proof fn lemma_mut_receiver_no_injection(
    sig: MethodSigV,
    body: BlockV,
    idx: usize,
    bounds: Seq<BoundV>,
)
    requires
        sig.is_async,
        sig.receiver is Some,
        sig.receiver->0 is RefMut,
        first_non_ident_v(sig.params, 0) == -1,
    ensures
        ({
            let r = transform_item_v(
                TraitItemV::Method { sig, default: Some(MethodBodyV::Structured(body)) },
                idx,
                bounds,
            );
            &&& r is Ok
            &&& r->Ok_0 is Method
            &&& r->Ok_0->Method_sig.generics == sig.generics
            &&& r->Ok_0->Method_sig.where_clause == sig.where_clause
            &&& r->Ok_0->Method_sig.receiver == sig.receiver
            &&& r->Ok_0->Method_sig.is_async == false
            &&& r->Ok_0->Method_default == Some(
                MethodBodyV::Structured(rewrite_body_v(sig, body)),
            )
        }),
{
}

/// A non-asynchronous method that already returns an opaque type has the
/// requested bounds appended to that type's bound list; nothing else of the
/// method changes, its default body included.
pub proof fn lemma_opaque_return_gains_bounds(
    sig: MethodSigV,
    default: Option<MethodBodyV>,
    idx: usize,
    bounds: Seq<BoundV>,
)
    requires
        !sig.is_async,
        sig.output is Opaque,
    ensures
        ({
            let r = transform_item_v(TraitItemV::Method { sig, default }, idx, bounds);
            &&& r is Ok
            &&& r->Ok_0 == TraitItemV::Method {
                sig: MethodSigV {
                    output: RetTypeV::Opaque(sig.output->Opaque_0 + bounds),
                    ..sig
                },
                default,
            }
        }),
{
}

/// The item transformer succeeds on every item except an asynchronous
/// method whose default body it cannot rewrite: one that only arrived
/// verbatim, or one whose captures would need a parameter that is not a
/// plain identifier binding. The error list is empty exactly when no item
/// is of either shape.
pub proof fn lemma_transform_success_owed(items: Seq<TraitItemV>, bounds: Seq<BoundV>, i: int)
    requires
        0 <= i <= items.len(),
    ensures
        item_errors_v(items, bounds, i).len() == 0 <==> forall|k: int|
            #![trigger items[k]]
            i <= k < items.len() ==> !(items[k] is Method && items[k]->Method_sig.is_async && (
            items[k]->Method_default matches Some(MethodBodyV::Verbatim(_)) || (
            items[k]->Method_default is Some && first_non_ident_v(
                items[k]->Method_sig.params,
                0,
            ) >= 0))),
    decreases items.len() - i,
{
    if i < items.len() {
        lemma_transform_success_owed(items, bounds, i + 1);
    }
}

/// The blanket synthesizer succeeds on every item that is a constant, an
/// associated type, or a method whose parameters are all plain identifier
/// bindings: its error list is empty exactly when every item is of one of
/// those shapes.
pub proof fn lemma_blanket_success_owed(items: Seq<TraitItemV>, variant: Seq<char>, i: int)
    requires
        0 <= i <= items.len(),
    ensures
        crate::blanket::blanket_errors_v(items, variant, i).len() == 0 <==> forall|k: int|
            #![trigger items[k]]
            i <= k < items.len() ==> (items[k] is Const || items[k] is AssocType || (items[k]
                is Method && first_non_ident_v(items[k]->Method_sig.params, 0) == -1)),
    decreases items.len() - i,
{
    if i < items.len() {
        lemma_blanket_success_owed(items, variant, i + 1);
        assert(first_non_ident_v(items[i]->Method_sig.params, 0) >= -1) by {
            lemma_first_bound(items[i]->Method_sig.params, 0);
        }
    }
}

/// The first-offender position is never below -1.
proof fn lemma_first_bound(params: Seq<crate::ast::ParamV>, i: int)
    ensures
        first_non_ident_v(params, i) >= -1,
    decreases params.len() - i,
{
    if 0 <= i < params.len() && params[i].pat is Ident {
        lemma_first_bound(params, i + 1);
    }
}

/// The rewritten default body of an asynchronous method is one `async
/// move` block: first the value captures — the receiver under the fresh
/// internal name, then every identifier-bound parameter under its own —
/// and then the original body, inside which the receiver identifier no
/// longer occurs free: every use of the receiver goes through the
/// captured value.
pub proof fn lemma_rewritten_body_shape(sig: MethodSigV, body: BlockV)
    ensures
        ({
            let r = crate::transform::rewrite_body_v(sig, body);
            let renamed = crate::rename::rename_block(
                body,
                crate::transform::self_name(),
                crate::transform::inner_self_name(),
            );
            &&& r.stmts =~= seq![
                crate::ast::StmtV::Expr(
                    crate::ast::ExprV::AsyncMove(
                        crate::ast::BlockV {
                            stmts: crate::transform::capture_stmts_v(
                                sig.receiver is Some,
                                sig.params,
                            ) + seq![
                                crate::ast::StmtV::Expr(crate::ast::ExprV::Block(renamed)),
                            ],
                        },
                    ),
                ),
            ]
            &&& !crate::rename::free_in_block(renamed, crate::transform::self_name())
        }),
{
    assert(crate::transform::self_name() != crate::transform::inner_self_name()) by {
        reveal_strlit("self");
        reveal_strlit("__self");
        assert("self"@.len() == 4);
        assert("__self"@.len() == 6);
    }
    crate::rename::lemma_rename_removes_free(
        body,
        crate::transform::self_name(),
        crate::transform::inner_self_name(),
    );
}

/// The blanket implementation forwards a method under the same name: its
/// body is exactly one qualified call of the variant trait's method of the
/// same name, with the receiver and the identifier-bound parameters in
/// order, awaited exactly when the original method was asynchronous.
pub proof fn lemma_blanket_forwarding(
    sig: MethodSigV,
    default: Option<MethodBodyV>,
    idx: usize,
    variant: Seq<char>,
)
    requires
        first_non_ident_v(sig.params, 0) == -1,
    ensures
        ({
            let r = blanket_item_v(TraitItemV::Method { sig, default }, idx, variant);
            let call = crate::ast::ExprV::QualCall {
                qualifier: self_qualifier(),
                trait_path: variant,
                method: sig.name,
                args: forward_args_v(sig),
            };
            &&& r is Ok
            &&& r->Ok_0 is Method
            &&& r->Ok_0->Method_sig == sig
            &&& r->Ok_0->Method_body == forward_body_v(variant, sig)
            &&& forward_body_v(variant, sig).stmts =~= seq![
                crate::ast::StmtV::Expr(
                    if sig.is_async {
                        crate::ast::ExprV::Await(Box::new(call))
                    } else {
                        call
                    },
                ),
            ]
        }),
{
}

/// The shared-reference predicate stands in the blanket implementation's
/// where-clause exactly when some original item has a default body; without
/// one the where-clause is the original's, unchanged.
pub proof fn lemma_shared_ref_predicate_iff(vs: VariantSpecV, tr: TraitDeclV)
    requires
        forall|j: int|
            #![trigger tr.where_clause[j]]
            0 <= j < tr.where_clause.len() ==> !(tr.where_clause[j] is SharedRef),
    ensures
        has_default_v(tr.items) ==> blanket_impl_v(vs, tr).where_clause == tr.where_clause.push(
            WherePredV::SharedRef { param: impl_param_name(), bounds: vs.bounds },
        ),
        !has_default_v(tr.items) ==> blanket_impl_v(vs, tr).where_clause == tr.where_clause,
        has_default_v(tr.items) <==> exists|j: int|
            0 <= j < blanket_impl_v(vs, tr).where_clause.len() && (#[trigger] blanket_impl_v(
                vs,
                tr,
            ).where_clause[j]) is SharedRef,
{
    let b = blanket_impl_v(vs, tr);
    if has_default_v(tr.items) {
        assert(b.where_clause =~= tr.where_clause.push(
            WherePredV::SharedRef { param: impl_param_name(), bounds: vs.bounds },
        ));
        assert(b.where_clause[tr.where_clause.len() as int] is SharedRef);
    } else {
        assert(b.where_clause =~= tr.where_clause);
    }
}

/// The generic parameters of the original trait appear, in the same order,
/// on the variant trait and at the front of the blanket implementation's
/// parameter list, which ends with the implementing-type parameter.
pub proof fn lemma_generics_preserved(vs: VariantSpecV, tr: TraitDeclV)
    ensures
        variant_decl_v(vs, tr).generics == tr.generics,
        blanket_impl_v(vs, tr).generics.len() == tr.generics.len() + 1,
        forall|i: int|
            0 <= i < tr.generics.len() ==> #[trigger] blanket_impl_v(vs, tr).generics[i]
                == tr.generics[i],
        blanket_impl_v(vs, tr).generics.last() == (GenericParamV {
            kind: GpKind::Type,
            name: impl_param_name(),
            suffix: Seq::<char>::empty(),
        }),
{
}

} // verus!

//! The variant trait synthesizer.
//!
//! The variant trait is the original declaration with the requested name,
//! the requested bounds appended to its supertraits, and every item passed
//! through the item transformer, in the original order. Failures of the
//! transformer are collected, one per offending item, rather than stopping
//! at the first.

use vstd::prelude::*;

use crate::ast::{Bound, SyntaxError, TraitDecl, VariantSpec};
use crate::ast::{
    bounds_v, decl_v, item_v, items_v, lemma_bounds_v, spec_of_v, BoundV,
    TraitDeclV, TraitItemV, VariantSpecV,
};
use crate::blanket::{item_shape_errors, shape_errors_v};
use crate::dup::{append_bounds, dup_gps, dup_preds};
use crate::transform::{transform_item, transform_item_v};

verus! {

broadcast use vstd::std_specs::vec::axiom_vec_index_decreases;

/// The shareability bound of the single-bound shorthand.
pub open spec fn send_bound_v() -> BoundV {
    BoundV::Named("Send"@)
}

/// The transformed items, in the original order, skipping the ones the
/// transformer rejects.
pub open spec fn variant_items_v(items: Seq<TraitItemV>, bounds: Seq<BoundV>, i: int) -> Seq<
    TraitItemV,
>
    decreases items.len() - i,
{
    if i < 0 || i >= items.len() {
        Seq::empty()
    } else {
        let rest = variant_items_v(items, bounds, i + 1);
        match transform_item_v(items[i], i as usize, bounds) {
            Ok(t) => seq![t] + rest,
            Err(_) => rest,
        }
    }
}

/// Every failure of the item transformer, in item order.
pub open spec fn item_errors_v(items: Seq<TraitItemV>, bounds: Seq<BoundV>, i: int) -> Seq<
    SyntaxError,
>
    decreases items.len() - i,
{
    if i < 0 || i >= items.len() {
        Seq::empty()
    } else {
        let rest = item_errors_v(items, bounds, i + 1);
        match transform_item_v(items[i], i as usize, bounds) {
            Ok(_) => rest,
            Err(e) => seq![e] + rest,
        }
    }
}

/// The synthesized variant declaration: the requested name, the original
/// generics and where-clause, the supertraits extended with the requested
/// bounds, and the transformed items.
pub open spec fn variant_decl_v(vs: VariantSpecV, tr: TraitDeclV) -> TraitDeclV {
    TraitDeclV {
        name: vs.name,
        generics: tr.generics,
        supertraits: tr.supertraits + vs.bounds,
        where_clause: tr.where_clause,
        items: variant_items_v(tr.items, vs.bounds, 0),
    }
}

/// Builds the variant trait, or the list of every transformation failure.
pub fn mk_variant(vs: &VariantSpec, tr: &TraitDecl) -> (r: Result<TraitDecl, Vec<SyntaxError>>)
    ensures
        r is Ok <==> item_errors_v(items_v(tr.items), bounds_v(vs.bounds), 0).len() == 0,
        r is Ok ==> decl_v(r->Ok_0) == variant_decl_v(spec_of_v(*vs), decl_v(*tr)),
        r is Err ==> r->Err_0@ == item_errors_v(items_v(tr.items), bounds_v(vs.bounds), 0),
{
    let ghost iv = items_v(tr.items);
    let ghost bv = bounds_v(vs.bounds);
    let mut new_items: Vec<crate::ast::TraitItem> = Vec::new();
    let mut errs: Vec<SyntaxError> = Vec::new();
    let n = tr.items.len();
    for j in 0..n
        invariant
            n == tr.items.len(),
            iv == items_v(tr.items),
            bv == bounds_v(vs.bounds),
            variant_items_v(iv, bv, 0) == items_v(new_items) + variant_items_v(iv, bv, j as int),
            item_errors_v(iv, bv, 0) == errs@ + item_errors_v(iv, bv, j as int),
    {
        let ghost items0 = items_v(new_items);
        let ghost errs0 = errs@;
        match transform_item(&tr.items[j], j, &vs.bounds) {
            Ok(t) => {
                let ghost tv = item_v(t);
                new_items.push(t);
                proof {
                    assert(items_v(new_items) =~= items0.push(tv));
                    assert(items_v(new_items) + variant_items_v(iv, bv, j + 1) =~= items0 + (
                    seq![tv] + variant_items_v(iv, bv, j + 1)));
                }
            },
            Err(e) => {
                errs.push(e);
                proof {
                    assert(errs@ + item_errors_v(iv, bv, j + 1) =~= errs0 + (seq![e]
                        + item_errors_v(iv, bv, j + 1)));
                }
            },
        }
    }
    if errs.len() == 0 {
        proof {
            assert(errs@ =~= Seq::<SyntaxError>::empty());
            assert(variant_items_v(iv, bv, 0) =~= items_v(new_items));
            assert(item_errors_v(iv, bv, 0) =~= Seq::<SyntaxError>::empty());
        }
        let out = TraitDecl {
            name: vs.name.clone(),
            generics: dup_gps(&tr.generics),
            supertraits: append_bounds(&tr.supertraits, &vs.bounds),
            where_clause: dup_preds(&tr.where_clause),
            items: new_items,
        };
        proof {
            assert(decl_v(out) =~= variant_decl_v(spec_of_v(*vs), decl_v(*tr)));
        }
        Ok(out)
    } else {
        Err(errs)
    }
}

/// Every failure of the single-bound shorthand: the item transformer's,
/// then the shape check's — the same item-shape and parameter-pattern
/// checks the blanket synthesizer runs, though the shorthand emits no
/// blanket implementation.
pub open spec fn shorthand_errors_v(items: Seq<TraitItemV>) -> Seq<SyntaxError> {
    item_errors_v(items, seq![send_bound_v()], 0) + shape_errors_v(items, 0)
}

/// The single-bound shorthand: rewrite the trait in place, under its own
/// name, with the shareability bound as the one requested bound. Only the
/// rewritten trait is produced: no blanket implementation, no copy of the
/// original. It fails, one located error per offender, on everything either
/// entry point must reject: an unsupported item shape, a parameter pattern
/// that is not a plain identifier binding, and a default body the rewrite
/// cannot see into.
pub fn only_send(tr: &TraitDecl) -> (r: Result<TraitDecl, Vec<SyntaxError>>)
    ensures
        r is Ok <==> shorthand_errors_v(items_v(tr.items)).len() == 0,
        r is Ok ==> decl_v(r->Ok_0) == variant_decl_v(
            VariantSpecV { name: decl_v(*tr).name, bounds: seq![send_bound_v()] },
            decl_v(*tr),
        ),
        r is Err ==> r->Err_0@ == shorthand_errors_v(items_v(tr.items)),
{
    let mut bounds: Vec<Bound> = Vec::new();
    bounds.push(Bound::Named(String::from_str("Send")));
    let vs = VariantSpec { name: tr.name.clone(), bounds };
    proof {
        lemma_bounds_v(vs.bounds, 0);
        assert(bounds_v(vs.bounds) =~= seq![send_bound_v()]);
    }
    let mut shape = item_shape_errors(&tr.items);
    match mk_variant(&vs, tr) {
        Ok(d) => {
            if shape.len() == 0 {
                proof {
                    assert(shape@ =~= Seq::<SyntaxError>::empty());
                    assert(shorthand_errors_v(items_v(tr.items)) =~= Seq::<SyntaxError>::empty());
                }
                Ok(d)
            } else {
                proof {
                    assert(shape@ =~= shorthand_errors_v(items_v(tr.items)));
                }
                Err(shape)
            }
        },
        Err(mut es) => {
            es.append(&mut shape);
            proof {
                assert(es@ =~= shorthand_errors_v(items_v(tr.items)));
            }
            Err(es)
        },
    }
}

} // verus!

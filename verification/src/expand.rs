//! The variant generator: the full expansion of one annotated trait.
//!
//! The output holds the original declaration unchanged, the synthesized
//! variant trait and the blanket implementation, together with the marker
//! that silences the known false-positive lint about asynchronous trait
//! methods whenever the requested bounds include the shareability bound.

use vstd::prelude::*;

use crate::ast::{BlanketImpl, Bound, SyntaxError, TraitDecl, VariantSpec};
use crate::ast::{blanket_v, bounds_v, decl_v, lemma_bounds_v, spec_of_v, BoundV};
use crate::blanket::{blanket_errors_v, blanket_impl_v, mk_blanket_impl};
use crate::dup::dup_decl;
use crate::variant::{item_errors_v, mk_variant, send_bound_v, variant_decl_v};

verus! {

/// The full output of the variant generator.
#[derive(Debug, PartialEq, Eq)]
pub struct Expansion {
    /// The original trait, emitted unchanged.
    pub original: TraitDecl,
    /// Whether the lint-suppressing marker is attached to the original.
    pub suppress_lint: bool,
    /// The synthesized variant trait.
    pub variant: TraitDecl,
    /// The synthesized blanket implementation.
    pub blanket: BlanketImpl,
}

/// Whether the requested bounds include the shareability bound.
pub open spec fn wants_lint_marker_v(bounds: Seq<BoundV>) -> bool {
    exists|i: int| 0 <= i < bounds.len() && #[trigger] bounds[i] == send_bound_v()
}

pub fn wants_lint_marker(bounds: &Vec<Bound>) -> (r: bool)
    ensures
        r == wants_lint_marker_v(bounds_v(*bounds)),
{
    proof {
        lemma_bounds_v(*bounds, 0);
    }
    let send = String::from_str("Send");
    let n = bounds.len();
    for j in 0..n
        invariant
            n == bounds.len(),
            send@ == "Send"@,
            forall|k: int| 0 <= k < j ==> #[trigger] bounds_v(*bounds)[k] != send_bound_v(),
    {
        proof {
            lemma_bounds_v(*bounds, 0);
        }
        let hit = match &bounds[j] {
            Bound::Named(s) => *s == send,
            Bound::Future(_) => false,
        };
        if hit {
            proof {
                assert(bounds_v(*bounds)[j as int] == send_bound_v());
            }
            return true;
        }
    }
    false
}

/// Every failure of one expansion: the item transformer's, then the
/// blanket synthesizer's.
pub open spec fn expansion_errors_v(vs: crate::ast::VariantSpecV, tr: crate::ast::TraitDeclV) -> Seq<
    SyntaxError,
> {
    item_errors_v(tr.items, vs.bounds, 0) + blanket_errors_v(tr.items, vs.name, 0)
}

/// The variant generator: the original trait unchanged, the variant trait
/// and the blanket implementation, or every failure either synthesizer
/// reports.
pub fn make_variant(vs: &VariantSpec, tr: &TraitDecl) -> (r: Result<Expansion, Vec<SyntaxError>>)
    ensures
        r is Ok <==> expansion_errors_v(spec_of_v(*vs), decl_v(*tr)).len() == 0,
        r is Ok ==> decl_v(r->Ok_0.original) == decl_v(*tr),
        r is Ok ==> r->Ok_0.suppress_lint == wants_lint_marker_v(bounds_v(vs.bounds)),
        r is Ok ==> decl_v(r->Ok_0.variant) == variant_decl_v(spec_of_v(*vs), decl_v(*tr)),
        r is Ok ==> blanket_v(r->Ok_0.blanket) == blanket_impl_v(spec_of_v(*vs), decl_v(*tr)),
        r is Err ==> r->Err_0@ == expansion_errors_v(spec_of_v(*vs), decl_v(*tr)),
{
    let variant_res = mk_variant(vs, tr);
    let blanket_res = mk_blanket_impl(vs, tr);
    match (variant_res, blanket_res) {
        (Ok(variant), Ok(blanket)) => {
            proof {
                assert(expansion_errors_v(spec_of_v(*vs), decl_v(*tr)) =~= Seq::<
                    SyntaxError,
                >::empty());
            }
            Ok(
                Expansion {
                    original: dup_decl(tr),
                    suppress_lint: wants_lint_marker(&vs.bounds),
                    variant,
                    blanket,
                },
            )
        },
        (variant_res, blanket_res) => {
            let mut errs: Vec<SyntaxError> = match variant_res {
                Err(es) => es,
                Ok(_) => Vec::new(),
            };
            let mut more: Vec<SyntaxError> = match blanket_res {
                Err(es) => es,
                Ok(_) => Vec::new(),
            };
            errs.append(&mut more);
            proof {
                assert(errs@ =~= expansion_errors_v(spec_of_v(*vs), decl_v(*tr)));
            }
            Err(errs)
        },
    }
}

} // verus!

//! The declaration parser for the attribute argument.
//!
//! The argument of the variant generator has the shape
//! `identifier : bound (+ bound)*`. The tokens arrive already split; this
//! parser checks the shape and produces the requested variant name and
//! bound list, or points at the first offending token (the token count when
//! the argument ends too early).

use vstd::prelude::*;

use crate::ast::{Bound, SyntaxError, VariantSpec};
use crate::ast::{bounds_v, lemma_bounds_v, spec_of_v, BoundV, VariantSpecV};

verus! {

/// One token of the attribute argument: a path (of an identifier or a
/// bound), a colon, or a plus sign.
#[derive(Debug, PartialEq, Eq)]
pub enum AttrToken {
    Ident(String),
    Colon,
    Plus,
}

pub enum AttrTokenV {
    Ident(Seq<char>),
    Colon,
    Plus,
}

pub open spec fn attr_token_v(t: AttrToken) -> AttrTokenV {
    match t {
        AttrToken::Ident(s) => AttrTokenV::Ident(s@),
        AttrToken::Colon => AttrTokenV::Colon,
        AttrToken::Plus => AttrTokenV::Plus,
    }
}

pub open spec fn attr_tokens_v(ts: Vec<AttrToken>) -> Seq<AttrTokenV> {
    Seq::new(ts.len() as nat, |i: int| attr_token_v(ts[i]))
}

/// Scans the bound list from position `i` (which must name a bound):
/// -1 when `bound (+ bound)*` reaches the end, else the first offending
/// position (the length for an unexpected end).
pub open spec fn scan_bounds(ts: Seq<AttrTokenV>, i: int) -> int
    decreases ts.len() - i,
{
    if i >= ts.len() {
        ts.len() as int
    } else if !(ts[i] is Ident) {
        i
    } else if i + 1 >= ts.len() {
        -1
    } else if !(ts[i + 1] is Plus) {
        i + 1
    } else {
        scan_bounds(ts, i + 2)
    }
}

/// The first position at which the argument leaves the shape
/// `identifier : bound (+ bound)*`, or -1 when it matches.
pub open spec fn attr_err_pos(ts: Seq<AttrTokenV>) -> int {
    if ts.len() == 0 || !(ts[0] is Ident) {
        0
    } else if ts.len() == 1 || !(ts[1] is Colon) {
        1
    } else {
        scan_bounds(ts, 2)
    }
}

pub open spec fn attr_wf(ts: Seq<AttrTokenV>) -> bool {
    attr_err_pos(ts) == -1
}

/// The requested bounds: the paths at every other position from `i` on.
pub open spec fn bounds_from(ts: Seq<AttrTokenV>, i: int) -> Seq<BoundV>
    decreases ts.len() + 2 - i,
{
    if i >= ts.len() || !(ts[i] is Ident) {
        Seq::empty()
    } else {
        seq![BoundV::Named(ts[i]->Ident_0)] + bounds_from(ts, i + 2)
    }
}

/// Parses the attribute argument `identifier : bound (+ bound)*`.
pub fn parse_attr(toks: &Vec<AttrToken>) -> (r: Result<VariantSpec, SyntaxError>)
    ensures
        r is Ok <==> attr_wf(attr_tokens_v(*toks)),
        r is Ok ==> spec_of_v(r->Ok_0) == (VariantSpecV {
            name: attr_tokens_v(*toks)[0]->Ident_0,
            bounds: bounds_from(attr_tokens_v(*toks), 2),
        }),
        r is Err ==> r->Err_0 == (SyntaxError::MalformedAttribute {
            pos: attr_err_pos(attr_tokens_v(*toks)) as usize,
        }),
{
    let ghost tv = attr_tokens_v(*toks);
    let n = toks.len();
    if n == 0 {
        return Err(SyntaxError::MalformedAttribute { pos: 0 });
    }
    let name: String = match &toks[0] {
        AttrToken::Ident(s) => s.clone(),
        _ => {
            return Err(SyntaxError::MalformedAttribute { pos: 0 });
        },
    };
    if n == 1 {
        return Err(SyntaxError::MalformedAttribute { pos: 1 });
    }
    match &toks[1] {
        AttrToken::Colon => {},
        _ => {
            return Err(SyntaxError::MalformedAttribute { pos: 1 });
        },
    }
    let mut bounds: Vec<Bound> = Vec::new();
    let mut i: usize = 2;
    loop
        invariant
            tv == attr_tokens_v(*toks),
            n == toks.len(),
            n >= 2,
            2 <= i,
            i % 2 == 0,
            tv[0] is Ident,
            tv[1] is Colon,
            name@ == tv[0]->Ident_0,
            scan_bounds(tv, 2) == scan_bounds(tv, i as int),
            bounds_from(tv, 2) == bounds_v(bounds) + bounds_from(tv, i as int),
        decreases n + 2 - i,
    {
        let ghost bv0 = bounds_v(bounds);
        if i >= n {
            proof {
                assert(attr_err_pos(tv) == n as int);
            }
            return Err(SyntaxError::MalformedAttribute { pos: n });
        }
        let b: Bound = match &toks[i] {
            AttrToken::Ident(s) => Bound::Named(s.clone()),
            _ => {
                proof {
                    assert(attr_err_pos(tv) == i as int);
                }
                return Err(SyntaxError::MalformedAttribute { pos: i });
            },
        };
        let ghost b0 = b;
        let ghost bounds0 = bounds;
        bounds.push(b);
        proof {
            lemma_bounds_v(bounds, 0);
            lemma_bounds_v(bounds0, 0);
            assert(bounds_v(bounds) =~= bv0.push(crate::ast::bound_v(b0)));
            assert(bounds_v(bounds) + bounds_from(tv, i + 2) =~= bv0 + (seq![
                BoundV::Named(tv[i as int]->Ident_0),
            ] + bounds_from(tv, i + 2)));
        }
        if i + 1 >= n {
            proof {
                assert(scan_bounds(tv, i as int) == -1);
                assert(bounds_from(tv, i + 2) =~= Seq::<BoundV>::empty());
                assert(bounds_from(tv, 2) =~= bounds_v(bounds));
            }
            let out = VariantSpec { name, bounds };
            proof {
                assert(spec_of_v(out) =~= (VariantSpecV {
                    name: tv[0]->Ident_0,
                    bounds: bounds_from(tv, 2),
                }));
            }
            return Ok(out);
        }
        match &toks[i + 1] {
            AttrToken::Plus => {},
            _ => {
                proof {
                    assert(attr_err_pos(tv) == i + 1);
                }
                return Err(SyntaxError::MalformedAttribute { pos: i + 1 });
            },
        }
        i = i + 2;
    }
}

} // verus!

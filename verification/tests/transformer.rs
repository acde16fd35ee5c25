use trait_variant::ast::{
    Block, Bound, Expr, GenericParam, GpKind, ImplItem, MethodBody, MethodSig, Param, Pat,
    RetType, SelfKind, Stmt, SyntaxError, TraitDecl, TraitItem, VariantSpec, WherePred,
};
use trait_variant::attr::{parse_attr, AttrToken};
use trait_variant::blanket::{has_default, mk_blanket_impl};
use trait_variant::expand::{make_variant, wants_lint_marker};
use trait_variant::rename::rename_block_exec;
use trait_variant::transform::{add_receiver_bounds, first_non_ident, transform_item};
use trait_variant::variant::{mk_variant, only_send};

fn s(x: &str) -> String {
    x.to_string()
}

fn send_bounds() -> Vec<Bound> {
    vec![Bound::Named(s("Send"))]
}

fn plain_sig(name: &str) -> MethodSig {
    MethodSig {
        name: s(name),
        generics: vec![],
        receiver: Some(SelfKind::Ref { lifetime: None }),
        params: vec![],
        output: RetType::Plain(s("u32")),
        is_async: false,
        where_clause: vec![],
    }
}

fn async_make_sig() -> MethodSig {
    MethodSig {
        name: s("make"),
        generics: vec![],
        receiver: Some(SelfKind::Ref { lifetime: None }),
        params: vec![],
        output: RetType::Plain(s("i32")),
        is_async: true,
        where_clause: vec![],
    }
}

#[test]
fn variant_of_plain_trait_is_unchanged() {
    let tr = TraitDecl {
        name: s("Factory"),
        generics: vec![],
        supertraits: vec![Bound::Named(s("Clone"))],
        where_clause: vec![],
        items: vec![
            TraitItem::Const { name: s("LIMIT"), ty: s("usize"), default: None },
            TraitItem::Method { sig: plain_sig("call"), default: None },
        ],
    };
    let vs = VariantSpec { name: s("SendFactory"), bounds: send_bounds() };
    let got = mk_variant(&vs, &tr).unwrap();
    assert_eq!(got.name, s("SendFactory"));
    assert_eq!(got.supertraits, vec![Bound::Named(s("Clone")), Bound::Named(s("Send"))]);
    assert_eq!(got.items, tr.items);
    assert_eq!(got.generics, tr.generics);
    assert_eq!(got.where_clause, tr.where_clause);
}

#[test]
fn async_method_without_default_gets_future_bound() {
    let item = TraitItem::Method { sig: async_make_sig(), default: None };
    let got = transform_item(&item, 0, &send_bounds()).unwrap();
    let expected_sig = MethodSig {
        is_async: false,
        output: RetType::Opaque(vec![
            Bound::Future(Box::new(RetType::Plain(s("i32")))),
            Bound::Named(s("Send")),
        ]),
        ..async_make_sig()
    };
    assert_eq!(got, TraitItem::Method { sig: expected_sig, default: None });
}

#[test]
fn default_body_rewritten_with_value_capture() {
    // async fn process(&self, x: u32) { self.go(x) }
    let body = Block {
        stmts: vec![Stmt::Expr(Expr::MethodCall {
            recv: Box::new(Expr::Var(s("self"))),
            method: s("go"),
            args: vec![Expr::Var(s("x"))],
        })],
    };
    let sig = MethodSig {
        name: s("process"),
        generics: vec![],
        receiver: Some(SelfKind::Ref { lifetime: None }),
        params: vec![Param { pat: Pat::Ident(s("x")), ty: s("u32") }],
        output: RetType::Default,
        is_async: true,
        where_clause: vec![],
    };
    let item = TraitItem::Method { sig, default: Some(MethodBody::Structured(body)) };
    let got = transform_item(&item, 0, &send_bounds()).unwrap();
    let TraitItem::Method { sig: new_sig, default: new_default } = got else {
        panic!("expected a method");
    };
    // The receiver bound is injected: fresh lifetime first, receiver rebound,
    // predicate appended.
    assert_eq!(new_sig.generics[0].kind, GpKind::Lifetime);
    assert_eq!(new_sig.generics[0].name, s("the_self_lt"));
    assert_eq!(new_sig.receiver, Some(SelfKind::Ref { lifetime: Some(s("the_self_lt")) }));
    assert_eq!(
        new_sig.where_clause,
        vec![WherePred::RefSelf { lifetime: s("the_self_lt"), bounds: send_bounds() }]
    );
    assert!(!new_sig.is_async);
    assert_eq!(
        new_sig.output,
        RetType::Opaque(vec![
            Bound::Future(Box::new(RetType::Default)),
            Bound::Named(s("Send")),
        ])
    );
    // The body captures `self` under the fresh name, captures `x`, and runs
    // the renamed original body.
    let renamed = Block {
        stmts: vec![Stmt::Expr(Expr::MethodCall {
            recv: Box::new(Expr::Var(s("__self"))),
            method: s("go"),
            args: vec![Expr::Var(s("x"))],
        })],
    };
    let expected_body = Block {
        stmts: vec![Stmt::Expr(Expr::AsyncMove(Block {
            stmts: vec![
                Stmt::Let { name: s("__self"), init: Expr::Var(s("self")) },
                Stmt::Let { name: s("x"), init: Expr::Var(s("x")) },
                Stmt::Expr(Expr::Block(renamed)),
            ],
        }))],
    };
    assert_eq!(new_default, Some(MethodBody::Structured(expected_body)));
}

#[test]
fn rename_respects_shadowing() {
    // { let z = x; let x = x; let w = x; }
    let b = Block {
        stmts: vec![
            Stmt::Let { name: s("z"), init: Expr::Var(s("x")) },
            Stmt::Let { name: s("x"), init: Expr::Var(s("x")) },
            Stmt::Let { name: s("w"), init: Expr::Var(s("x")) },
        ],
    };
    let got = rename_block_exec(&b, &s("x"), &s("y"));
    // The first two initializers use the outer `x` and are renamed; the
    // shadowing `let x` keeps its name, and everything after it is left
    // alone.
    let expected = Block {
        stmts: vec![
            Stmt::Let { name: s("z"), init: Expr::Var(s("y")) },
            Stmt::Let { name: s("x"), init: Expr::Var(s("y")) },
            Stmt::Let { name: s("w"), init: Expr::Var(s("x")) },
        ],
    };
    assert_eq!(got, expected);
}

#[test]
fn blanket_forwards_methods() {
    let tr = TraitDecl {
        name: s("Factory"),
        generics: vec![],
        supertraits: vec![],
        where_clause: vec![],
        items: vec![
            TraitItem::Method { sig: async_make_sig(), default: None },
            TraitItem::Method { sig: plain_sig("call"), default: None },
        ],
    };
    let vs = VariantSpec { name: s("SendFactory"), bounds: send_bounds() };
    let got = mk_blanket_impl(&vs, &tr).unwrap();
    assert_eq!(got.orig_trait, s("Factory"));
    assert_eq!(got.variant_trait, s("SendFactory"));
    let forwarded = |name: &str| Expr::QualCall {
        qualifier: s("Self"),
        trait_path: s("SendFactory"),
        method: s(name),
        args: vec![Expr::Var(s("self"))],
    };
    // The asynchronous method's forwarding call gains a suspension point.
    assert_eq!(
        got.items[0],
        ImplItem::Method {
            sig: async_make_sig(),
            body: Block {
                stmts: vec![Stmt::Expr(Expr::Await(Box::new(forwarded("make"))))],
            },
        }
    );
    assert_eq!(
        got.items[1],
        ImplItem::Method {
            sig: plain_sig("call"),
            body: Block { stmts: vec![Stmt::Expr(forwarded("call"))] },
        }
    );
}

#[test]
fn shared_ref_predicate_iff_default_body() {
    let no_default = TraitDecl {
        name: s("A"),
        generics: vec![],
        supertraits: vec![],
        where_clause: vec![WherePred::Verbatim(s("Self: Sized"))],
        items: vec![TraitItem::Method { sig: plain_sig("call"), default: None }],
    };
    let vs = VariantSpec { name: s("SendA"), bounds: send_bounds() };
    assert!(!has_default(&no_default));
    let b1 = mk_blanket_impl(&vs, &no_default).unwrap();
    assert_eq!(b1.where_clause, vec![WherePred::Verbatim(s("Self: Sized"))]);

    let with_default = TraitDecl {
        items: vec![TraitItem::Method {
            sig: plain_sig("call"),
            default: Some(MethodBody::Structured(Block { stmts: vec![Stmt::Expr(Expr::Lit(s("0")))] })),
        }],
        ..no_default
    };
    assert!(has_default(&with_default));
    let b2 = mk_blanket_impl(&vs, &with_default).unwrap();
    assert_eq!(
        b2.where_clause,
        vec![
            WherePred::Verbatim(s("Self: Sized")),
            WherePred::SharedRef { param: s("TraitVariantBlanketType"), bounds: send_bounds() },
        ]
    );
}

#[test]
fn generics_order_preserved() {
    let gp = |kind: GpKind, name: &str, suffix: &str| GenericParam {
        kind,
        name: s(name),
        suffix: s(suffix),
    };
    let tr = TraitDecl {
        name: s("Store"),
        generics: vec![
            gp(GpKind::Lifetime, "a", ""),
            gp(GpKind::Type, "T", "Clone"),
            gp(GpKind::Const, "N", "usize"),
        ],
        supertraits: vec![],
        where_clause: vec![],
        items: vec![],
    };
    let vs = VariantSpec { name: s("SendStore"), bounds: send_bounds() };
    let variant = mk_variant(&vs, &tr).unwrap();
    assert_eq!(variant.generics, tr.generics);
    let blanket = mk_blanket_impl(&vs, &tr).unwrap();
    assert_eq!(blanket.generics.len(), 4);
    assert_eq!(&blanket.generics[..3], &tr.generics[..]);
    assert_eq!(blanket.generics[3].kind, GpKind::Type);
    assert_eq!(blanket.generics[3].name, s("TraitVariantBlanketType"));
}

#[test]
fn full_scenario_five_items() {
    // trait IntFactory {
    //     const NAME: &'static str;
    //     type Stream<'a> where Self: 'a;
    //     async fn make(&self) -> i32;
    //     fn stream(&self) -> impl Iterator<Item = i32>;
    //     fn call(&self) -> u32;
    // }
    let stream_sig = MethodSig {
        name: s("stream"),
        output: RetType::Opaque(vec![Bound::Named(s("Iterator<Item = i32>"))]),
        ..plain_sig("stream")
    };
    let tr = TraitDecl {
        name: s("IntFactory"),
        generics: vec![],
        supertraits: vec![],
        where_clause: vec![],
        items: vec![
            TraitItem::Const { name: s("NAME"), ty: s("&'static str"), default: None },
            assoc_stream_item(),
            TraitItem::Method { sig: async_make_sig(), default: None },
            TraitItem::Method { sig: stream_sig, default: None },
            TraitItem::Method { sig: plain_sig("call"), default: None },
        ],
    };
    let vs = VariantSpec { name: s("SendIntFactory"), bounds: send_bounds() };
    let exp = make_variant(&vs, &tr).unwrap();
    assert_eq!(exp.original, tr);
    assert!(exp.suppress_lint);
    let v = &exp.variant;
    assert_eq!(v.name, s("SendIntFactory"));
    assert_eq!(v.supertraits, send_bounds());
    assert_eq!(v.items.len(), 5);
    // The constant and the associated type pass through unchanged.
    assert_eq!(v.items[0], tr.items[0]);
    assert_eq!(v.items[1], tr.items[1]);
    // `make` now returns `impl Future<Output = i32> + Send` and lost its
    // marker.
    let TraitItem::Method { sig: make_sig, default: None } = &v.items[2] else {
        panic!("expected make");
    };
    assert!(!make_sig.is_async);
    assert_eq!(
        make_sig.output,
        RetType::Opaque(vec![
            Bound::Future(Box::new(RetType::Plain(s("i32")))),
            Bound::Named(s("Send")),
        ])
    );
    // `stream`'s opaque return gains `+ Send`.
    let TraitItem::Method { sig: stream_sig2, default: None } = &v.items[3] else {
        panic!("expected stream");
    };
    assert_eq!(
        stream_sig2.output,
        RetType::Opaque(vec![Bound::Named(s("Iterator<Item = i32>")), Bound::Named(s("Send"))])
    );
    // `call` is unchanged.
    assert_eq!(v.items[4], tr.items[4]);
    // The blanket implementation forwards all five, `make` with a suspension
    // point.
    assert_eq!(exp.blanket.items.len(), 5);
    let ImplItem::Method { body, .. } = &exp.blanket.items[2] else {
        panic!("expected forwarded make");
    };
    assert!(matches!(body.stmts[0], Stmt::Expr(Expr::Await(_))));
    let ImplItem::Method { body: call_body, .. } = &exp.blanket.items[4] else {
        panic!("expected forwarded call");
    };
    assert!(matches!(call_body.stmts[0], Stmt::Expr(Expr::QualCall { .. })));
}

fn assoc_stream_item() -> TraitItem {
    TraitItem::AssocType {
        name: s("Stream"),
        generics: vec![GenericParam { kind: GpKind::Lifetime, name: s("a"), suffix: s("") }],
        bounds: vec![],
        where_clause: vec![WherePred::Verbatim(s("Self: 'a"))],
        default: None,
    }
}

#[test]
fn defaulted_mut_receiver_no_injection() {
    // async fn defaulted_mut(&mut self) { self.0 }
    let body = Block {
        stmts: vec![Stmt::Expr(Expr::Field {
            base: Box::new(Expr::Var(s("self"))),
            name: s("0"),
        })],
    };
    let sig = MethodSig {
        name: s("defaulted_mut"),
        generics: vec![],
        receiver: Some(SelfKind::RefMut { lifetime: None }),
        params: vec![],
        output: RetType::Default,
        is_async: true,
        where_clause: vec![],
    };
    let item = TraitItem::Method { sig, default: Some(MethodBody::Structured(body)) };
    let got = transform_item(&item, 0, &send_bounds()).unwrap();
    let TraitItem::Method { sig: new_sig, default: Some(MethodBody::Structured(new_body)) } = got
    else {
        panic!("expected a defaulted method");
    };
    // No lifetime injection for a mutable receiver.
    assert!(new_sig.generics.is_empty());
    assert!(new_sig.where_clause.is_empty());
    assert_eq!(new_sig.receiver, Some(SelfKind::RefMut { lifetime: None }));
    // The body is still rewritten with value-capture semantics.
    let expected = Block {
        stmts: vec![Stmt::Expr(Expr::AsyncMove(Block {
            stmts: vec![
                Stmt::Let { name: s("__self"), init: Expr::Var(s("self")) },
                Stmt::Expr(Expr::Block(Block {
                    stmts: vec![Stmt::Expr(Expr::Field {
                        base: Box::new(Expr::Var(s("__self"))),
                        name: s("0"),
                    })],
                })),
            ],
        }))],
    };
    assert_eq!(new_body, expected);
}

#[test]
fn shorthand_rewrites_in_place() {
    let tr = TraitDecl {
        name: s("IntFactory"),
        generics: vec![],
        supertraits: vec![],
        where_clause: vec![],
        items: vec![
            TraitItem::Method { sig: async_make_sig(), default: None },
            TraitItem::Method { sig: plain_sig("call"), default: None },
        ],
    };
    let got = only_send(&tr).unwrap();
    // The output keeps the original identifier: it is a rewrite in place,
    // with nothing else emitted.
    assert_eq!(got.name, s("IntFactory"));
    assert_eq!(got.supertraits, send_bounds());
    assert_eq!(got.items.len(), 2);
    let TraitItem::Method { sig: make_sig, .. } = &got.items[0] else {
        panic!("expected make");
    };
    assert!(!make_sig.is_async);
    assert_eq!(got.items[1], TraitItem::Method { sig: plain_sig("call"), default: None });
}

#[test]
fn empty_trait_expands_to_empty_bodies() {
    let tr = TraitDecl {
        name: s("Nothing"),
        generics: vec![],
        supertraits: vec![],
        where_clause: vec![],
        items: vec![],
    };
    let vs = VariantSpec { name: s("SendNothing"), bounds: send_bounds() };
    let exp = make_variant(&vs, &tr).unwrap();
    assert_eq!(exp.variant.items, vec![]);
    assert_eq!(exp.blanket.items, vec![]);
    // No default body anywhere, so no shared-reference predicate.
    assert_eq!(exp.blanket.where_clause, vec![]);
}

#[test]
fn explicit_receiver_lifetime_is_rebound() {
    // async fn peek<'a>(&'a self) { self.look() } — the receiver's explicit
    // lifetime is replaced by the fresh one.
    let sig = MethodSig {
        name: s("peek"),
        generics: vec![GenericParam { kind: GpKind::Lifetime, name: s("a"), suffix: s("") }],
        receiver: Some(SelfKind::Ref { lifetime: Some(s("a")) }),
        params: vec![],
        output: RetType::Default,
        is_async: true,
        where_clause: vec![],
    };
    let body = Block {
        stmts: vec![Stmt::Expr(Expr::MethodCall {
            recv: Box::new(Expr::Var(s("self"))),
            method: s("look"),
            args: vec![],
        })],
    };
    let item = TraitItem::Method { sig, default: Some(MethodBody::Structured(body)) };
    let got = transform_item(&item, 0, &send_bounds()).unwrap();
    let TraitItem::Method { sig: new_sig, .. } = got else {
        panic!("expected a method");
    };
    assert_eq!(new_sig.receiver, Some(SelfKind::Ref { lifetime: Some(s("the_self_lt")) }));
    // The fresh lifetime parameter stands first, before the original one.
    assert_eq!(new_sig.generics.len(), 2);
    assert_eq!(new_sig.generics[0].name, s("the_self_lt"));
    assert_eq!(new_sig.generics[1].name, s("a"));
}

#[test]
fn shorthand_rejects_unsupported_shapes() {
    // An item that is not a constant, an associated type or a method fails
    // in the shorthand too, with a diagnostic at the item.
    let with_macro = TraitDecl {
        name: s("Odd"),
        generics: vec![],
        supertraits: vec![],
        where_clause: vec![],
        items: vec![
            TraitItem::Method { sig: plain_sig("call"), default: None },
            TraitItem::Other { text: s("macro_item!();") },
        ],
    };
    assert_eq!(
        only_send(&with_macro).unwrap_err(),
        vec![SyntaxError::UnsupportedItem { item: 1 }]
    );
    // So does a method parameter that is not a plain identifier binding,
    // even on a plain method without a default body.
    let destructuring = MethodSig {
        params: vec![Param { pat: Pat::Other(s("(a, b)")), ty: s("(u8, u8)") }],
        ..plain_sig("eat")
    };
    let with_pattern = TraitDecl {
        items: vec![TraitItem::Method { sig: destructuring, default: None }],
        ..with_macro
    };
    assert_eq!(
        only_send(&with_pattern).unwrap_err(),
        vec![SyntaxError::UnsupportedPattern { item: 0, param: 0 }]
    );
}

#[test]
fn verbatim_default_passes_through_on_plain_methods() {
    // A non-asynchronous method's default body is never rewritten, so it
    // may be carried verbatim and comes through unchanged.
    let helper = TraitItem::Method {
        sig: plain_sig("helper"),
        default: Some(MethodBody::Verbatim(s("{ 1 + 1 }"))),
    };
    let tr = TraitDecl {
        name: s("Calc"),
        generics: vec![],
        supertraits: vec![],
        where_clause: vec![],
        items: vec![
            TraitItem::Method {
                sig: plain_sig("helper"),
                default: Some(MethodBody::Verbatim(s("{ 1 + 1 }"))),
            },
            TraitItem::Method { sig: async_make_sig(), default: None },
        ],
    };
    let got = only_send(&tr).unwrap();
    assert_eq!(got.items[0], helper);
    let exp = make_variant(
        &VariantSpec { name: s("SendCalc"), bounds: send_bounds() },
        &tr,
    )
    .unwrap();
    assert_eq!(exp.variant.items[0], helper);
}

#[test]
fn async_verbatim_default_is_reported() {
    // The body rewrite must see into an asynchronous method's default
    // body; one that only arrived verbatim is reported at the item.
    let item = TraitItem::Method {
        sig: async_make_sig(),
        default: Some(MethodBody::Verbatim(s("{ self.go() }"))),
    };
    assert_eq!(
        transform_item(&item, 3, &send_bounds()).unwrap_err(),
        SyntaxError::UnsupportedBody { item: 3 }
    );
}

#[test]
fn lint_marker_iff_send_bound() {
    assert!(wants_lint_marker(&send_bounds()));
    assert!(!wants_lint_marker(&vec![Bound::Named(s("Sync"))]));
    assert!(!wants_lint_marker(&vec![]));
}

#[test]
fn first_non_ident_finds_first_offender() {
    let ps = vec![
        Param { pat: Pat::Ident(s("a")), ty: s("u8") },
        Param { pat: Pat::Other(s("(x, y)")), ty: s("(u8, u8)") },
        Param { pat: Pat::Other(s("_")), ty: s("u8") },
    ];
    assert_eq!(first_non_ident(&ps), Some(1));
    let ok = vec![Param { pat: Pat::Ident(s("a")), ty: s("u8") }];
    assert_eq!(first_non_ident(&ok), None);
}

#[test]
fn add_receiver_bounds_only_for_shared_receivers() {
    let mut sig = async_make_sig();
    add_receiver_bounds(&mut sig, &send_bounds());
    assert_eq!(sig.generics.len(), 1);
    assert_eq!(sig.generics[0].name, s("the_self_lt"));
    assert_eq!(sig.receiver, Some(SelfKind::Ref { lifetime: Some(s("the_self_lt")) }));
    assert_eq!(sig.where_clause.len(), 1);

    let mut by_value = MethodSig {
        receiver: Some(SelfKind::Value { mutable: false }),
        ..async_make_sig()
    };
    add_receiver_bounds(&mut by_value, &send_bounds());
    assert!(by_value.generics.is_empty());
    assert!(by_value.where_clause.is_empty());
    assert_eq!(by_value.receiver, Some(SelfKind::Value { mutable: false }));
}

#[test]
fn errors_accumulate_in_item_order() {
    let bad_method = MethodSig {
        name: s("eat"),
        generics: vec![],
        receiver: Some(SelfKind::Ref { lifetime: None }),
        params: vec![Param { pat: Pat::Other(s("(a, b)")), ty: s("(u8, u8)") }],
        output: RetType::Default,
        is_async: true,
        where_clause: vec![],
    };
    let tr = TraitDecl {
        name: s("Odd"),
        generics: vec![],
        supertraits: vec![],
        where_clause: vec![],
        items: vec![
            TraitItem::Other { text: s("macro_item!();") },
            TraitItem::Method {
                sig: bad_method,
                default: Some(MethodBody::Structured(Block { stmts: vec![] })),
            },
        ],
    };
    let vs = VariantSpec { name: s("SendOdd"), bounds: send_bounds() };
    let errs = make_variant(&vs, &tr).unwrap_err();
    // The item transformer reports the pattern it cannot capture; the
    // blanket synthesizer reports the unsupported item and the pattern it
    // cannot forward.
    assert_eq!(
        errs,
        vec![
            SyntaxError::UnsupportedPattern { item: 1, param: 0 },
            SyntaxError::UnsupportedItem { item: 0 },
            SyntaxError::UnsupportedPattern { item: 1, param: 0 },
        ]
    );
}

#[test]
fn parse_attr_accepts_bound_lists() {
    let toks = vec![
        AttrToken::Ident(s("SendIntFactory")),
        AttrToken::Colon,
        AttrToken::Ident(s("Send")),
    ];
    let got = parse_attr(&toks).unwrap();
    assert_eq!(got.name, s("SendIntFactory"));
    assert_eq!(got.bounds, send_bounds());

    let toks = vec![
        AttrToken::Ident(s("SendSyncFactory")),
        AttrToken::Colon,
        AttrToken::Ident(s("Send")),
        AttrToken::Plus,
        AttrToken::Ident(s("Sync")),
        AttrToken::Plus,
        AttrToken::Ident(s("'static")),
    ];
    let got = parse_attr(&toks).unwrap();
    assert_eq!(got.name, s("SendSyncFactory"));
    assert_eq!(
        got.bounds,
        vec![
            Bound::Named(s("Send")),
            Bound::Named(s("Sync")),
            Bound::Named(s("'static")),
        ]
    );
}

#[test]
fn parse_attr_rejects_malformed_arguments() {
    let err = |toks: &Vec<AttrToken>| parse_attr(toks).unwrap_err();
    // Empty argument: offending position 0.
    assert_eq!(err(&vec![]), SyntaxError::MalformedAttribute { pos: 0 });
    // No colon after the name.
    assert_eq!(
        err(&vec![AttrToken::Ident(s("A")), AttrToken::Plus]),
        SyntaxError::MalformedAttribute { pos: 1 }
    );
    // Missing bound after the colon: the argument ends too early.
    assert_eq!(
        err(&vec![AttrToken::Ident(s("A")), AttrToken::Colon]),
        SyntaxError::MalformedAttribute { pos: 2 }
    );
    // A plus where a bound is expected.
    assert_eq!(
        err(&vec![
            AttrToken::Ident(s("A")),
            AttrToken::Colon,
            AttrToken::Plus,
        ]),
        SyntaxError::MalformedAttribute { pos: 2 }
    );
    // A trailing plus: the argument ends too early.
    assert_eq!(
        err(&vec![
            AttrToken::Ident(s("A")),
            AttrToken::Colon,
            AttrToken::Ident(s("Send")),
            AttrToken::Plus,
        ]),
        SyntaxError::MalformedAttribute { pos: 4 }
    );
    // Two bounds without a plus between them.
    assert_eq!(
        err(&vec![
            AttrToken::Ident(s("A")),
            AttrToken::Colon,
            AttrToken::Ident(s("Send")),
            AttrToken::Ident(s("Sync")),
        ]),
        SyntaxError::MalformedAttribute { pos: 3 }
    );
}

//! The structured model of a trait declaration.
//!
//! Identifiers, type texts and bound paths are carried as strings; the parts
//! the transformation inspects (asynchronous markers, opaque return types,
//! receivers, default bodies) are structured. Every executable node has a
//! ghost mirror (`...V`) over `Seq<char>`, reached through the `*_v` view
//! functions, and the contracts of the transformation speak of those mirrors.

use vstd::prelude::*;

verus! {

broadcast use vstd::std_specs::vec::axiom_vec_index_decreases;

// ---------------------------------------------------------------------------
// Executable syntax tree
// ---------------------------------------------------------------------------

/// The kind of a generic parameter.
#[derive(PartialEq, Eq, Structural, Clone, Copy, Debug)]
pub enum GpKind {
    Lifetime,
    Type,
    Const,
}

/// One generic parameter: its kind, its bare name (no apostrophe for
/// lifetimes), and the verbatim remainder of its declaration (bounds and
/// default, possibly empty).
#[derive(Debug, PartialEq, Eq)]
pub struct GenericParam {
    pub kind: GpKind,
    pub name: String,
    pub suffix: String,
}

/// One bound of an opaque type, a supertrait list or a where-clause
/// predicate: a trait path carried verbatim, or the synthesized future bound
/// with its output type.
#[derive(Debug, PartialEq, Eq)]
pub enum Bound {
    Named(String),
    Future(Box<RetType>),
}

/// The return type of a method.
#[derive(Debug, PartialEq, Eq)]
pub enum RetType {
    /// No explicit return type (implicitly unit).
    Default,
    /// An explicit, non-opaque return type, carried verbatim.
    Plain(String),
    /// An opaque return type: `impl` followed by its bounds.
    Opaque(Vec<Bound>),
}

/// The receiver of a method.
#[derive(Debug, PartialEq, Eq)]
pub enum SelfKind {
    /// `self` or `mut self`.
    Value { mutable: bool },
    /// `&self` or `&'a self`.
    Ref { lifetime: Option<String> },
    /// `&mut self` or `&'a mut self`.
    RefMut { lifetime: Option<String> },
}

/// The pattern of one method parameter.
#[derive(Debug, PartialEq, Eq)]
pub enum Pat {
    /// A plain identifier binding.
    Ident(String),
    /// Any other pattern, carried verbatim; rejected where the
    /// transformation needs the identifier.
    Other(String),
}

/// One non-receiver method parameter.
#[derive(Debug, PartialEq, Eq)]
pub struct Param {
    pub pat: Pat,
    pub ty: String,
}

/// One where-clause predicate.
#[derive(Debug, PartialEq, Eq)]
pub enum WherePred {
    /// A predicate carried verbatim.
    Verbatim(String),
    /// The injected predicate `&'lt Self: bounds`.
    RefSelf { lifetime: String, bounds: Vec<Bound> },
    /// The blanket implementation's predicate that every shared reference to
    /// the implementing type parameter satisfies the bounds.
    SharedRef { param: String, bounds: Vec<Bound> },
}

// ---------------------------------------------------------------------------
// Expressions of default method bodies
// ---------------------------------------------------------------------------

/// An expression of a default method body.
#[derive(Debug, PartialEq, Eq)]
pub enum Expr {
    /// A use of an identifier (possibly the receiver identifier `self`).
    Var(String),
    /// A literal, carried verbatim.
    Lit(String),
    /// A field access.
    Field { base: Box<Expr>, name: String },
    /// A call of a path.
    Call { callee: String, args: Vec<Expr> },
    /// A method call.
    MethodCall { recv: Box<Expr>, method: String, args: Vec<Expr> },
    /// A qualified trait-method call `<P as Tr>::m(args)`.
    QualCall { qualifier: String, trait_path: String, method: String, args: Vec<Expr> },
    /// An await of a future.
    Await(Box<Expr>),
    /// A block expression.
    Block(Block),
    /// An `async move` block.
    AsyncMove(Block),
}

/// One statement of a block.
#[derive(Debug, PartialEq, Eq)]
pub enum Stmt {
    /// `let name = init;`
    Let { name: String, init: Expr },
    /// An expression statement (a trailing one is the block's value).
    Expr(Expr),
}

/// A block: an ordered list of statements.
#[derive(Debug, PartialEq, Eq)]
pub struct Block {
    pub stmts: Vec<Stmt>,
}

/// A default method body. Only the body of an asynchronous method is ever
/// rewritten, so only that one must arrive structured; the body of any
/// other method passes through unchanged and may be carried verbatim.
#[derive(Debug, PartialEq, Eq)]
pub enum MethodBody {
    /// A body the rewrite can see into.
    Structured(Block),
    /// A body carried as text, never rewritten.
    Verbatim(String),
}

// ---------------------------------------------------------------------------
// Items and declarations
// ---------------------------------------------------------------------------

/// The signature of a trait method.
#[derive(Debug, PartialEq, Eq)]
pub struct MethodSig {
    pub name: String,
    pub generics: Vec<GenericParam>,
    pub receiver: Option<SelfKind>,
    pub params: Vec<Param>,
    pub output: RetType,
    pub is_async: bool,
    pub where_clause: Vec<WherePred>,
}

/// One item of a trait declaration.
#[derive(Debug, PartialEq, Eq)]
pub enum TraitItem {
    /// An associated constant with its type and optional default value,
    /// both carried verbatim.
    Const { name: String, ty: String, default: Option<String> },
    /// An associated type with its generics, bounds, where-clause and
    /// optional default.
    AssocType {
        name: String,
        generics: Vec<GenericParam>,
        bounds: Vec<Bound>,
        where_clause: Vec<WherePred>,
        default: Option<String>,
    },
    /// A method with its signature and optional default body.
    Method { sig: MethodSig, default: Option<MethodBody> },
    /// Any other item shape, carried verbatim; unsupported by the blanket
    /// implementation synthesizer.
    Other { text: String },
}

/// A trait declaration.
#[derive(Debug, PartialEq, Eq)]
pub struct TraitDecl {
    pub name: String,
    pub generics: Vec<GenericParam>,
    pub supertraits: Vec<Bound>,
    pub where_clause: Vec<WherePred>,
    pub items: Vec<TraitItem>,
}

/// The requested variant: its name and the capability bounds to add.
#[derive(Debug, PartialEq, Eq)]
pub struct VariantSpec {
    pub name: String,
    pub bounds: Vec<Bound>,
}

/// One item of the synthesized blanket implementation. Every item forwards
/// to the variant trait's item of the same name.
#[derive(Debug, PartialEq, Eq)]
pub enum ImplItem {
    /// `const NAME: Ty = <Self as Variant>::NAME;`
    Const { name: String, ty: String },
    /// `type A<..> = <Self as Variant>::A<..>;`
    AssocType { name: String, generics: Vec<GenericParam>, where_clause: Vec<WherePred> },
    /// The original method's signature with a forwarding body.
    Method { sig: MethodSig, body: Block },
}

/// The synthesized blanket implementation of the original trait for every
/// implementer of the variant trait.
#[derive(Debug, PartialEq, Eq)]
pub struct BlanketImpl {
    /// The original trait's generic parameters followed by the
    /// implementing-type parameter.
    pub generics: Vec<GenericParam>,
    /// The name of the implementing-type parameter, bounded by the variant
    /// trait.
    pub impl_param: String,
    /// The name of the trait being implemented.
    pub orig_trait: String,
    /// The name of the variant trait forwarded to.
    pub variant_trait: String,
    /// The original where-clause, extended with the shared-reference
    /// predicate when some original item has a default body.
    pub where_clause: Vec<WherePred>,
    pub items: Vec<ImplItem>,
}

/// A failure of the transformation, located by token or item position.
#[derive(PartialEq, Eq, Structural, Clone, Copy, Debug)]
pub enum SyntaxError {
    /// The attribute argument does not match `identifier : bound (+ bound)*`;
    /// the offending token position (the token count for an unexpected end).
    MalformedAttribute { pos: usize },
    /// The trait item at this index is not a constant, an associated type or
    /// a method.
    UnsupportedItem { item: usize },
    /// The parameter at `param` of the method item at `item` is not a plain
    /// identifier binding.
    UnsupportedPattern { item: usize, param: usize },
    /// The asynchronous method at this index has a default body that only
    /// arrived verbatim, which the body rewrite cannot see into.
    UnsupportedBody { item: usize },
}

// ---------------------------------------------------------------------------
// Ghost mirrors
// ---------------------------------------------------------------------------

pub struct GenericParamV {
    pub kind: GpKind,
    pub name: Seq<char>,
    pub suffix: Seq<char>,
}

pub enum BoundV {
    Named(Seq<char>),
    Future(Box<RetTypeV>),
}

pub enum RetTypeV {
    Default,
    Plain(Seq<char>),
    Opaque(Seq<BoundV>),
}

pub enum SelfKindV {
    Value { mutable: bool },
    Ref { lifetime: Option<Seq<char>> },
    RefMut { lifetime: Option<Seq<char>> },
}

pub enum PatV {
    Ident(Seq<char>),
    Other(Seq<char>),
}

pub struct ParamV {
    pub pat: PatV,
    pub ty: Seq<char>,
}

pub enum WherePredV {
    Verbatim(Seq<char>),
    RefSelf { lifetime: Seq<char>, bounds: Seq<BoundV> },
    SharedRef { param: Seq<char>, bounds: Seq<BoundV> },
}

pub enum ExprV {
    Var(Seq<char>),
    Lit(Seq<char>),
    Field { base: Box<ExprV>, name: Seq<char> },
    Call { callee: Seq<char>, args: Seq<ExprV> },
    MethodCall { recv: Box<ExprV>, method: Seq<char>, args: Seq<ExprV> },
    QualCall { qualifier: Seq<char>, trait_path: Seq<char>, method: Seq<char>, args: Seq<ExprV> },
    Await(Box<ExprV>),
    Block(BlockV),
    AsyncMove(BlockV),
}

pub enum StmtV {
    Let { name: Seq<char>, init: ExprV },
    Expr(ExprV),
}

pub struct BlockV {
    pub stmts: Seq<StmtV>,
}

pub enum MethodBodyV {
    Structured(BlockV),
    Verbatim(Seq<char>),
}

pub struct MethodSigV {
    pub name: Seq<char>,
    pub generics: Seq<GenericParamV>,
    pub receiver: Option<SelfKindV>,
    pub params: Seq<ParamV>,
    pub output: RetTypeV,
    pub is_async: bool,
    pub where_clause: Seq<WherePredV>,
}

pub enum TraitItemV {
    Const { name: Seq<char>, ty: Seq<char>, default: Option<Seq<char>> },
    AssocType {
        name: Seq<char>,
        generics: Seq<GenericParamV>,
        bounds: Seq<BoundV>,
        where_clause: Seq<WherePredV>,
        default: Option<Seq<char>>,
    },
    Method { sig: MethodSigV, default: Option<MethodBodyV> },
    Other { text: Seq<char> },
}

pub struct TraitDeclV {
    pub name: Seq<char>,
    pub generics: Seq<GenericParamV>,
    pub supertraits: Seq<BoundV>,
    pub where_clause: Seq<WherePredV>,
    pub items: Seq<TraitItemV>,
}

pub struct VariantSpecV {
    pub name: Seq<char>,
    pub bounds: Seq<BoundV>,
}

pub enum ImplItemV {
    Const { name: Seq<char>, ty: Seq<char> },
    AssocType { name: Seq<char>, generics: Seq<GenericParamV>, where_clause: Seq<WherePredV> },
    Method { sig: MethodSigV, body: BlockV },
}

pub struct BlanketImplV {
    pub generics: Seq<GenericParamV>,
    pub impl_param: Seq<char>,
    pub orig_trait: Seq<char>,
    pub variant_trait: Seq<char>,
    pub where_clause: Seq<WherePredV>,
    pub items: Seq<ImplItemV>,
}

// ---------------------------------------------------------------------------
// View functions
// ---------------------------------------------------------------------------

pub open spec fn opt_str_v(o: Option<String>) -> Option<Seq<char>> {
    match o {
        Some(s) => Some(s@),
        None => None,
    }
}

pub open spec fn gp_v(p: GenericParam) -> GenericParamV {
    GenericParamV { kind: p.kind, name: p.name@, suffix: p.suffix@ }
}

pub open spec fn gps_v(ps: Vec<GenericParam>) -> Seq<GenericParamV> {
    Seq::new(ps.len() as nat, |i: int| gp_v(ps[i]))
}

pub open spec fn bound_v(b: Bound) -> BoundV
    decreases b, 0int,
{
    match b {
        Bound::Named(s) => BoundV::Named(s@),
        Bound::Future(t) => BoundV::Future(Box::new(ret_v(*t))),
    }
}

pub open spec fn bounds_v_from(bs: Vec<Bound>, i: int) -> Seq<BoundV>
    decreases bs, bs.len() - i,
{
    if i < 0 || i >= bs.len() {
        Seq::empty()
    } else {
        seq![bound_v(bs[i])] + bounds_v_from(bs, i + 1)
    }
}

pub open spec fn bounds_v(bs: Vec<Bound>) -> Seq<BoundV>
    decreases bs, bs.len() + 1,
{
    bounds_v_from(bs, 0)
}

pub open spec fn ret_v(t: RetType) -> RetTypeV
    decreases t, 0int,
{
    match t {
        RetType::Default => RetTypeV::Default,
        RetType::Plain(s) => RetTypeV::Plain(s@),
        RetType::Opaque(bs) => RetTypeV::Opaque(bounds_v(bs)),
    }
}

pub open spec fn self_v(r: SelfKind) -> SelfKindV {
    match r {
        SelfKind::Value { mutable } => SelfKindV::Value { mutable },
        SelfKind::Ref { lifetime } => SelfKindV::Ref { lifetime: opt_str_v(lifetime) },
        SelfKind::RefMut { lifetime } => SelfKindV::RefMut { lifetime: opt_str_v(lifetime) },
    }
}

pub open spec fn pat_v(p: Pat) -> PatV {
    match p {
        Pat::Ident(s) => PatV::Ident(s@),
        Pat::Other(s) => PatV::Other(s@),
    }
}

pub open spec fn param_v(p: Param) -> ParamV {
    ParamV { pat: pat_v(p.pat), ty: p.ty@ }
}

pub open spec fn params_v(ps: Vec<Param>) -> Seq<ParamV> {
    Seq::new(ps.len() as nat, |i: int| param_v(ps[i]))
}

pub open spec fn pred_v(p: WherePred) -> WherePredV {
    match p {
        WherePred::Verbatim(s) => WherePredV::Verbatim(s@),
        WherePred::RefSelf { lifetime, bounds } => WherePredV::RefSelf {
            lifetime: lifetime@,
            bounds: bounds_v(bounds),
        },
        WherePred::SharedRef { param, bounds } => WherePredV::SharedRef {
            param: param@,
            bounds: bounds_v(bounds),
        },
    }
}

pub open spec fn preds_v(ps: Vec<WherePred>) -> Seq<WherePredV> {
    Seq::new(ps.len() as nat, |i: int| pred_v(ps[i]))
}

pub open spec fn expr_v(e: Expr) -> ExprV
    decreases e, 0int,
{
    match e {
        Expr::Var(s) => ExprV::Var(s@),
        Expr::Lit(s) => ExprV::Lit(s@),
        Expr::Field { base, name } => ExprV::Field {
            base: Box::new(expr_v(*base)),
            name: name@,
        },
        Expr::Call { callee, args } => ExprV::Call {
            callee: callee@,
            args: exprs_v(args, 0),
        },
        Expr::MethodCall { recv, method, args } => ExprV::MethodCall {
            recv: Box::new(expr_v(*recv)),
            method: method@,
            args: exprs_v(args, 0),
        },
        Expr::QualCall { qualifier, trait_path, method, args } => ExprV::QualCall {
            qualifier: qualifier@,
            trait_path: trait_path@,
            method: method@,
            args: exprs_v(args, 0),
        },
        Expr::Await(inner) => ExprV::Await(Box::new(expr_v(*inner))),
        Expr::Block(b) => ExprV::Block(block_v(b)),
        Expr::AsyncMove(b) => ExprV::AsyncMove(block_v(b)),
    }
}

pub open spec fn exprs_v(es: Vec<Expr>, i: int) -> Seq<ExprV>
    decreases es, es.len() - i,
{
    if i < 0 || i >= es.len() {
        Seq::empty()
    } else {
        seq![expr_v(es[i])] + exprs_v(es, i + 1)
    }
}

pub open spec fn stmt_v(s: Stmt) -> StmtV
    decreases s, 0int,
{
    match s {
        Stmt::Let { name, init } => StmtV::Let { name: name@, init: expr_v(init) },
        Stmt::Expr(e) => StmtV::Expr(expr_v(e)),
    }
}

pub open spec fn stmts_v(ss: Vec<Stmt>, i: int) -> Seq<StmtV>
    decreases ss, ss.len() - i,
{
    if i < 0 || i >= ss.len() {
        Seq::empty()
    } else {
        seq![stmt_v(ss[i])] + stmts_v(ss, i + 1)
    }
}

pub open spec fn block_v(b: Block) -> BlockV
    decreases b, 0int,
{
    BlockV { stmts: stmts_v(b.stmts, 0) }
}

pub open spec fn body_v(b: MethodBody) -> MethodBodyV {
    match b {
        MethodBody::Structured(bl) => MethodBodyV::Structured(block_v(bl)),
        MethodBody::Verbatim(s) => MethodBodyV::Verbatim(s@),
    }
}

pub open spec fn sig_v(s: MethodSig) -> MethodSigV {
    MethodSigV {
        name: s.name@,
        generics: gps_v(s.generics),
        receiver: match s.receiver {
            Some(r) => Some(self_v(r)),
            None => None,
        },
        params: params_v(s.params),
        output: ret_v(s.output),
        is_async: s.is_async,
        where_clause: preds_v(s.where_clause),
    }
}

pub open spec fn item_v(it: TraitItem) -> TraitItemV {
    match it {
        TraitItem::Const { name, ty, default } => TraitItemV::Const {
            name: name@,
            ty: ty@,
            default: opt_str_v(default),
        },
        TraitItem::AssocType { name, generics, bounds, where_clause, default } => {
            TraitItemV::AssocType {
                name: name@,
                generics: gps_v(generics),
                bounds: bounds_v(bounds),
                where_clause: preds_v(where_clause),
                default: opt_str_v(default),
            }
        },
        TraitItem::Method { sig, default } => TraitItemV::Method {
            sig: sig_v(sig),
            default: match default {
                Some(b) => Some(body_v(b)),
                None => None,
            },
        },
        TraitItem::Other { text } => TraitItemV::Other { text: text@ },
    }
}

pub open spec fn items_v(its: Vec<TraitItem>) -> Seq<TraitItemV> {
    Seq::new(its.len() as nat, |i: int| item_v(its[i]))
}

pub open spec fn decl_v(t: TraitDecl) -> TraitDeclV {
    TraitDeclV {
        name: t.name@,
        generics: gps_v(t.generics),
        supertraits: bounds_v(t.supertraits),
        where_clause: preds_v(t.where_clause),
        items: items_v(t.items),
    }
}

pub open spec fn spec_of_v(s: VariantSpec) -> VariantSpecV {
    VariantSpecV { name: s.name@, bounds: bounds_v(s.bounds) }
}

pub open spec fn impl_item_v(it: ImplItem) -> ImplItemV {
    match it {
        ImplItem::Const { name, ty } => ImplItemV::Const { name: name@, ty: ty@ },
        ImplItem::AssocType { name, generics, where_clause } => ImplItemV::AssocType {
            name: name@,
            generics: gps_v(generics),
            where_clause: preds_v(where_clause),
        },
        ImplItem::Method { sig, body } => ImplItemV::Method {
            sig: sig_v(sig),
            body: block_v(body),
        },
    }
}

pub open spec fn impl_items_v(its: Vec<ImplItem>) -> Seq<ImplItemV> {
    Seq::new(its.len() as nat, |i: int| impl_item_v(its[i]))
}

pub open spec fn blanket_v(b: BlanketImpl) -> BlanketImplV {
    BlanketImplV {
        generics: gps_v(b.generics),
        impl_param: b.impl_param@,
        orig_trait: b.orig_trait@,
        variant_trait: b.variant_trait@,
        where_clause: preds_v(b.where_clause),
        items: impl_items_v(b.items),
    }
}

// ---------------------------------------------------------------------------
// Facts about the element-wise views of vectors
// ---------------------------------------------------------------------------

/// The tail-recursive view of a bound vector is its element-wise map.
pub proof fn lemma_bounds_v(bs: Vec<Bound>, i: int)
    requires
        0 <= i <= bs.len(),
    ensures
        bounds_v_from(bs, i).len() == bs.len() - i,
        forall|j: int| 0 <= j < bs.len() - i ==> bounds_v_from(bs, i)[j] == bound_v(bs[i + j]),
    decreases bs.len() - i,
{
    if i < bs.len() {
        lemma_bounds_v(bs, i + 1);
    }
}

/// The tail-recursive view of an expression vector is its element-wise map.
pub proof fn lemma_exprs_v(es: Vec<Expr>, i: int)
    requires
        0 <= i <= es.len(),
    ensures
        exprs_v(es, i).len() == es.len() - i,
        forall|j: int| 0 <= j < es.len() - i ==> exprs_v(es, i)[j] == expr_v(es[i + j]),
    decreases es.len() - i,
{
    if i < es.len() {
        lemma_exprs_v(es, i + 1);
    }
}

/// The tail-recursive view of a statement vector is its element-wise map.
pub proof fn lemma_stmts_v(ss: Vec<Stmt>, i: int)
    requires
        0 <= i <= ss.len(),
    ensures
        stmts_v(ss, i).len() == ss.len() - i,
        forall|j: int| 0 <= j < ss.len() - i ==> stmts_v(ss, i)[j] == stmt_v(ss[i + j]),
    decreases ss.len() - i,
{
    if i < ss.len() {
        lemma_stmts_v(ss, i + 1);
    }
}

} // verus!

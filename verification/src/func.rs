use vstd::prelude::*;

use crate::node::clone_bytes;

verus! {

// ---------------------------------------------------------------------------
// The signature vocabulary, exec and ghost
// ---------------------------------------------------------------------------

/// A parameter type, as far as the component lowering reads it.
#[derive(Debug)]
pub enum Ty {
    /// An opaque capability-bounded type: `impl` followed by these bounds.
    ImplTrait { bounds: Vec<u8> },
    /// `[elem; len]`.
    Array { elem: Box<Ty>, len: Vec<u8> },
    /// `(elem)`.
    Paren { elem: Box<Ty> },
    /// `*const elem` / `*mut elem`.
    Ptr { elem: Box<Ty>, is_const: bool, is_mut: bool },
    /// `&'a mut elem`.
    Reference { elem: Box<Ty>, lifetime: Option<Vec<u8>>, is_mut: bool },
    /// `[elem]`.
    Slice { elem: Box<Ty> },
    /// `(a, b, ...)`.
    Tuple { elems: Vec<Ty> },
    /// Any other type, kept as its source text.
    Path { src: Vec<u8> },
}

/// Ghost mirror of [`Ty`].
pub enum TyV {
    ImplTrait { bounds: Seq<u8> },
    Array { elem: Box<TyV>, len: Seq<u8> },
    Paren { elem: Box<TyV> },
    Ptr { elem: Box<TyV>, is_const: bool, is_mut: bool },
    Reference { elem: Box<TyV>, lifetime: Option<Seq<u8>>, is_mut: bool },
    Slice { elem: Box<TyV> },
    Tuple { elems: Seq<TyV> },
    Path { src: Seq<u8> },
}

/// The view of one type.
pub open spec fn ty_view(t: Ty) -> TyV
    decreases t,
{
    match t {
        Ty::ImplTrait { bounds } => TyV::ImplTrait { bounds: bounds@ },
        Ty::Array { elem, len } => TyV::Array { elem: Box::new(ty_view(*elem)), len: len@ },
        Ty::Paren { elem } => TyV::Paren { elem: Box::new(ty_view(*elem)) },
        Ty::Ptr { elem, is_const, is_mut } => TyV::Ptr {
            elem: Box::new(ty_view(*elem)),
            is_const,
            is_mut,
        },
        Ty::Reference { elem, lifetime, is_mut } => TyV::Reference {
            elem: Box::new(ty_view(*elem)),
            lifetime: match lifetime {
                Some(l) => Some(l@),
                None => None,
            },
            is_mut,
        },
        Ty::Slice { elem } => TyV::Slice { elem: Box::new(ty_view(*elem)) },
        Ty::Tuple { elems } => TyV::Tuple { elems: tys_view(elems@) },
        Ty::Path { src } => TyV::Path { src: src@ },
    }
}

/// The views of a list of types.
pub open spec fn tys_view(s: Seq<Ty>) -> Seq<TyV>
    decreases s,
{
    if s.len() == 0 {
        Seq::empty()
    } else {
        seq![ty_view(s[0])] + tys_view(s.drop_first())
    }
}

/// The kind of one declared generic parameter.
#[derive(Clone, Copy, PartialEq, Eq, Structural, Debug)]
pub enum GenParamKind {
    Lifetime,
    Type,
    Const,
}

/// One generic parameter of a signature: its kind, its identifier, and its
/// bounds as source text.
#[derive(Clone, PartialEq, Debug)]
pub struct GenParam {
    pub kind: GenParamKind,
    pub ident: Vec<u8>,
    pub bounds: Vec<u8>,
}

/// Ghost mirror of [`GenParam`].
pub struct GenParamV {
    pub kind: GenParamKind,
    pub ident: Seq<u8>,
    pub bounds: Seq<u8>,
}

impl View for GenParam {
    type V = GenParamV;

    open spec fn view(&self) -> GenParamV {
        GenParamV { kind: self.kind, ident: self.ident@, bounds: self.bounds@ }
    }
}

/// The views of a generic parameter list.
pub open spec fn gen_params_view(s: Seq<GenParam>) -> Seq<GenParamV> {
    s.map_values(|p: GenParam| p@)
}

/// A parameter binding pattern: a simple name, or anything else.
#[derive(Clone, PartialEq, Debug)]
pub enum Pat {
    Ident { name: Vec<u8> },
    Other { src: Vec<u8> },
}

/// One input of a function signature.
#[derive(Debug)]
pub enum FnArg {
    Receiver,
    Typed { pat: Pat, ty: Ty },
}

/// Ghost mirror of [`FnArg`].
pub enum FnArgV {
    Receiver,
    Typed { pat_is_ident: bool, pat_name: Seq<u8>, pat_src: Seq<u8>, ty: TyV },
}

/// The view of one input.
pub open spec fn fn_arg_view(a: FnArg) -> FnArgV {
    match a {
        FnArg::Receiver => FnArgV::Receiver,
        FnArg::Typed { pat, ty } => FnArgV::Typed {
            pat_is_ident: pat is Ident,
            pat_name: match pat {
                Pat::Ident { name } => name@,
                Pat::Other { src } => Seq::empty(),
            },
            pat_src: match pat {
                Pat::Ident { name } => name@,
                Pat::Other { src } => src@,
            },
            ty: ty_view(ty),
        },
    }
}

/// The views of an input list.
pub open spec fn fn_args_view(s: Seq<FnArg>) -> Seq<FnArgV>
    decreases s,
{
    if s.len() == 0 {
        Seq::empty()
    } else {
        seq![fn_arg_view(s[0])] + fn_args_view(s.drop_first())
    }
}

/// A function signature, as far as the component lowering reads it.
#[derive(Debug)]
pub struct Signature {
    pub constness: bool,
    pub asyncness: bool,
    pub unsafety: bool,
    pub abi: bool,
    pub ident: Vec<u8>,
    pub generics: Vec<GenParam>,
    pub inputs: Vec<FnArg>,
}

/// Ghost mirror of [`Signature`].
pub struct SignatureV {
    pub constness: bool,
    pub asyncness: bool,
    pub unsafety: bool,
    pub abi: bool,
    pub ident: Seq<u8>,
    pub generics: Seq<GenParamV>,
    pub inputs: Seq<FnArgV>,
}

impl View for Signature {
    type V = SignatureV;

    open spec fn view(&self) -> SignatureV {
        SignatureV {
            constness: self.constness,
            asyncness: self.asyncness,
            unsafety: self.unsafety,
            abi: self.abi,
            ident: self.ident@,
            generics: gen_params_view(self.generics@),
            inputs: fn_args_view(self.inputs@),
        }
    }
}

/// The arguments of the attribute: the visibility for the generated type,
/// and its name.
#[derive(Clone, PartialEq, Debug)]
pub struct ComponentAttrs {
    pub vis: Vec<u8>,
    pub name: Vec<u8>,
}

/// One synthesized field of the generated data type.
#[derive(Debug)]
pub struct Field {
    pub name: Vec<u8>,
    pub ty: Ty,
}

/// Ghost mirror of [`Field`].
pub struct FieldV {
    pub name: Seq<u8>,
    pub ty: TyV,
}

/// The view of one field.
pub open spec fn field_view(f: Field) -> FieldV {
    FieldV { name: f.name@, ty: ty_view(f.ty) }
}

/// The views of a field list.
pub open spec fn fields_view(s: Seq<Field>) -> Seq<FieldV>
    decreases s,
{
    if s.len() == 0 {
        Seq::empty()
    } else {
        seq![field_view(s[0])] + fields_view(s.drop_first())
    }
}

/// One diagnostic of the component-function lowering.
#[derive(Clone, PartialEq, Debug)]
pub enum FuncDiagnostic {
    /// "component function must not be const"
    ConstFunction,
    /// "component function must not be async"
    AsyncFunction,
    /// "component function must not be unsafe"
    UnsafeFunction,
    /// "component function must not have an abi"
    AbiFunction,
    /// "component function must not have self argument"
    ReceiverArgument,
    /// "couldn't parse function argument"
    UnsupportedPattern,
}

// ---------------------------------------------------------------------------
// Fresh identifiers with collision avoidance
// ---------------------------------------------------------------------------

/// Whether a type-kind generic parameter with this identifier is declared.
pub open spec fn type_ident_used(used: Seq<GenParamV>, ident: Seq<u8>) -> bool {
    exists|i: int| 0 <= i < used.len() && used[i].kind == GenParamKind::Type && used[i].ident
        == ident
}

/// The base identifier with `k` marker characters (`T`) appended.
pub open spec fn with_markers(base: Seq<u8>, k: nat) -> Seq<u8>
    decreases k,
{
    if k == 0 {
        base
    } else {
        with_markers(base, (k - 1) as nat).push(84u8)
    }
}

/// Whether `k` markers give the first identifier not yet declared.
pub open spec fn is_first_free(used: Seq<GenParamV>, base: Seq<u8>, k: nat) -> bool {
    &&& !type_ident_used(used, with_markers(base, k))
    &&& forall|j: nat| j < k ==> type_ident_used(used, #[trigger] with_markers(base, j))
}

/// The deterministic fresh identifier: the base with the least number of
/// markers appended that collides with no declared type parameter.
pub open spec fn fresh_ident(used: Seq<GenParamV>, base: Seq<u8>) -> Seq<u8> {
    let k = choose|k: nat| is_first_free(used, base, k);
    with_markers(base, k)
}

/// At most one marker count is first-free.
proof fn lemma_first_free_unique(used: Seq<GenParamV>, base: Seq<u8>, k1: nat, k2: nat)
    requires
        is_first_free(used, base, k1),
        is_first_free(used, base, k2),
    ensures
        k1 == k2,
{
    if k1 < k2 {
        assert(type_ident_used(used, with_markers(base, k1)));
    }
    if k2 < k1 {
        assert(type_ident_used(used, with_markers(base, k2)));
    }
}

/// With a first-free witness, the fresh identifier is the witnessed one.
proof fn lemma_fresh_ident_from_witness(used: Seq<GenParamV>, base: Seq<u8>, k: nat)
    requires
        is_first_free(used, base, k),
    ensures
        fresh_ident(used, base) == with_markers(base, k),
{
    let kc = choose|kk: nat| is_first_free(used, base, kk);
    assert(is_first_free(used, base, kc));
    lemma_first_free_unique(used, base, k, kc);
}

/// Marker appending only lengthens.
proof fn lemma_with_markers_len(base: Seq<u8>, k: nat)
    ensures
        with_markers(base, k).len() == base.len() + k,
    decreases k,
{
    if k > 0 {
        lemma_with_markers_len(base, (k - 1) as nat);
    }
}

/// Tests whether a type-kind generic parameter has the given identifier.
fn type_ident_used_exec(used: &Vec<GenParam>, ident: &Vec<u8>) -> (r: bool)
    ensures
        r == type_ident_used(gen_params_view(used@), ident@),
{
    let count = used.len();
    let mut i: usize = 0;
    while i < count
        invariant
            count == used@.len(),
            i <= count,
            forall|j: int| 0 <= j < i ==> !(gen_params_view(used@)[j].kind == GenParamKind::Type
                && gen_params_view(used@)[j].ident == ident@),
        decreases count - i,
    {
        let p = &used[i];
        if matches!(p.kind, GenParamKind::Type) {
            if crate::node::bytes_eq(p.ident.as_slice(), ident.as_slice()) {
                proof {
                    assert(gen_params_view(used@)[i as int].kind == GenParamKind::Type);
                    assert(gen_params_view(used@)[i as int].ident == ident@);
                }
                return true;
            }
        }
        i = i + 1;
    }
    false
}

/// The longest identifier length among declared type parameters.
fn max_type_ident_len(used: &Vec<GenParam>) -> (m: usize)
    ensures
        forall|i: int| 0 <= i < used@.len() && gen_params_view(used@)[i].kind == GenParamKind::Type
            ==> #[trigger] gen_params_view(used@)[i].ident.len() <= m,
{
    let count = used.len();
    let mut m: usize = 0;
    let mut i: usize = 0;
    while i < count
        invariant
            count == used@.len(),
            i <= count,
            forall|j: int| 0 <= j < i && gen_params_view(used@)[j].kind == GenParamKind::Type
                ==> #[trigger] gen_params_view(used@)[j].ident.len() <= m,
        decreases count - i,
    {
        let p = &used[i];
        if matches!(p.kind, GenParamKind::Type) {
            if p.ident.len() > m {
                m = p.ident.len();
            }
        }
        i = i + 1;
    }
    m
}

/// Picks an identifier that collides with no declared type parameter: the
/// suggestion (or `V`), with a marker `T` appended until it is unique.
pub fn create_not_used_ident(used: &Vec<GenParam>, ident_suggestion: Option<Vec<u8>>) -> (r: Vec<
    u8,
>)
    ensures
        r@ == fresh_ident(gen_params_view(used@), match ident_suggestion {
            Some(s) => s@,
            None => seq![86u8],
        }),
{
    let mut candidate: Vec<u8> = match ident_suggestion {
        Some(s) => s,
        None => {
            let v = vec![86u8];
            proof {
                assert(v@ =~= seq![86u8]);
            }
            v
        },
    };
    let ghost base = candidate@;
    let ghost usedv = gen_params_view(used@);
    let ghost mut k: nat = 0nat;
    proof {
        assert(with_markers(base, 0) == base);
    }
    let bound = max_type_ident_len(used);
    loop
        invariant
            candidate@ == with_markers(base, k),
            forall|j: nat| j < k ==> type_ident_used(usedv, #[trigger] with_markers(base, j)),
            usedv == gen_params_view(used@),
            forall|i: int| 0 <= i < usedv.len() && usedv[i].kind == GenParamKind::Type
                ==> #[trigger] usedv[i].ident.len() <= bound,
        ensures
            candidate@ == with_markers(base, k),
            is_first_free(usedv, base, k),
        decreases bound + 1 - candidate@.len(),
    {
        if !type_ident_used_exec(used, &candidate) {
            break;
        }
        proof {
            let i = choose|i: int| 0 <= i < usedv.len() && usedv[i].kind == GenParamKind::Type
                && usedv[i].ident == candidate@;
            assert(candidate@.len() <= bound);
        }
        candidate.push(84);
        proof {
            assert(candidate@ =~= with_markers(base, k + 1));
            k = k + 1;
        }
    }
    proof {
        lemma_fresh_ident_from_witness(usedv, base, k);
        assert(candidate@ == fresh_ident(usedv, base));
    }
    candidate
}

/// The ASCII uppercase form of a byte string.
pub open spec fn ascii_upper(s: Seq<u8>) -> Seq<u8> {
    s.map_values(|b: u8| if 97 <= b <= 122 { (b - 32) as u8 } else { b })
}

/// Uppercases the ASCII letters of a byte string.
pub fn ascii_upper_exec(s: &Vec<u8>) -> (r: Vec<u8>)
    ensures
        r@ == ascii_upper(s@),
{
    let mut out: Vec<u8> = Vec::new();
    let count = s.len();
    let mut i: usize = 0;
    while i < count
        invariant
            count == s@.len(),
            i <= count,
            out@.len() == i,
            forall|j: int| 0 <= j < i ==> out@[j] == ascii_upper(s@)[j],
        decreases count - i,
    {
        let b = s[i];
        if 97 <= b && b <= 122 {
            out.push(b - 32);
        } else {
            out.push(b);
        }
        i = i + 1;
    }
    proof {
        assert(out@ =~= ascii_upper(s@));
    }
    out
}

// ---------------------------------------------------------------------------
// Type resolution: opaque capability-bounded types become fresh generics
// ---------------------------------------------------------------------------

/// The outcome of resolving one type: the rewritten type and the extended
/// generic parameter list.
pub struct ResolveOut {
    pub ty: TyV,
    pub generics: Seq<GenParamV>,
}

/// The outcome of resolving a list of types in order.
pub struct ResolveManyOut {
    pub tys: Seq<TyV>,
    pub generics: Seq<GenParamV>,
}

/// Rewrites one type: each `impl`-bounded position becomes a fresh generic
/// type parameter named from `upper` with markers appended until unique, and
/// carrying the position's bounds; compound shapes are rebuilt around their
/// rewritten elements; any other type stands as it is.
pub open spec fn resolve_ty(t: TyV, generics: Seq<GenParamV>, upper: Seq<u8>) -> ResolveOut
    decreases t, 1int,
{
    match t {
        TyV::ImplTrait { bounds } => {
            let fresh = fresh_ident(generics, upper);
            ResolveOut {
                ty: TyV::Path { src: fresh },
                generics: generics.push(GenParamV {
                    kind: GenParamKind::Type,
                    ident: fresh,
                    bounds,
                }),
            }
        },
        TyV::Array { elem, len } => {
            let r = resolve_ty(*elem, generics, upper);
            ResolveOut { ty: TyV::Array { elem: Box::new(r.ty), len }, generics: r.generics }
        },
        TyV::Paren { elem } => {
            let r = resolve_ty(*elem, generics, upper);
            ResolveOut { ty: TyV::Paren { elem: Box::new(r.ty) }, generics: r.generics }
        },
        TyV::Ptr { elem, is_const, is_mut } => {
            let r = resolve_ty(*elem, generics, upper);
            ResolveOut {
                ty: TyV::Ptr { elem: Box::new(r.ty), is_const, is_mut },
                generics: r.generics,
            }
        },
        TyV::Reference { elem, lifetime, is_mut } => {
            let r = resolve_ty(*elem, generics, upper);
            ResolveOut {
                ty: TyV::Reference { elem: Box::new(r.ty), lifetime, is_mut },
                generics: r.generics,
            }
        },
        TyV::Slice { elem } => {
            let r = resolve_ty(*elem, generics, upper);
            ResolveOut { ty: TyV::Slice { elem: Box::new(r.ty) }, generics: r.generics }
        },
        TyV::Tuple { elems } => {
            let r = resolve_tys(elems, generics, upper);
            ResolveOut { ty: TyV::Tuple { elems: r.tys }, generics: r.generics }
        },
        TyV::Path { src } => ResolveOut { ty: t, generics },
    }
}

/// Rewrites a list of types left to right, threading the generics through.
pub open spec fn resolve_tys(ts: Seq<TyV>, generics: Seq<GenParamV>, upper: Seq<u8>) -> ResolveManyOut
    decreases ts, 0int,
{
    if ts.len() == 0 {
        ResolveManyOut { tys: Seq::empty(), generics }
    } else {
        let r0 = resolve_ty(ts[0], generics, upper);
        let rr = resolve_tys(ts.drop_first(), r0.generics, upper);
        ResolveManyOut { tys: seq![r0.ty] + rr.tys, generics: rr.generics }
    }
}

/// Rewrites one type, pushing each synthesized generic parameter.
pub fn resolve_type(t: &Ty, generics: &mut Vec<GenParam>, upper: &Vec<u8>) -> (r: Ty)
    ensures
        ty_view(r) == resolve_ty(ty_view(*t), gen_params_view(old(generics)@), upper@).ty,
        gen_params_view(final(generics)@) == resolve_ty(ty_view(*t),
            gen_params_view(old(generics)@), upper@).generics,
    decreases *t, 1int,
{
    match t {
        Ty::ImplTrait { bounds } => {
            let fresh = create_not_used_ident(generics, Some(clone_bytes(upper)));
            let param = GenParam {
                kind: GenParamKind::Type,
                ident: clone_bytes(&fresh),
                bounds: clone_bytes(bounds),
            };
            let ghost oldg = generics@;
            let ghost pg = param;
            generics.push(param);
            proof {
                assert(gen_params_view(generics@) =~= gen_params_view(oldg).push(pg@));
            }
            Ty::Path { src: fresh }
        },
        Ty::Array { elem, len } => {
            let e = resolve_type(elem, generics, upper);
            Ty::Array { elem: Box::new(e), len: clone_bytes(len) }
        },
        Ty::Paren { elem } => {
            let e = resolve_type(elem, generics, upper);
            Ty::Paren { elem: Box::new(e) }
        },
        Ty::Ptr { elem, is_const, is_mut } => {
            let e = resolve_type(elem, generics, upper);
            Ty::Ptr { elem: Box::new(e), is_const: *is_const, is_mut: *is_mut }
        },
        Ty::Reference { elem, lifetime, is_mut } => {
            let e = resolve_type(elem, generics, upper);
            let lt = match lifetime {
                Some(l) => Some(clone_bytes(l)),
                None => None,
            };
            Ty::Reference { elem: Box::new(e), lifetime: lt, is_mut: *is_mut }
        },
        Ty::Slice { elem } => {
            let e = resolve_type(elem, generics, upper);
            Ty::Slice { elem: Box::new(e) }
        },
        Ty::Tuple { elems } => {
            let ghost g0 = gen_params_view(generics@);
            let ghost elems_v = tys_view(elems@);
            let mut out: Vec<Ty> = Vec::new();
            let count = elems.len();
            let mut i: usize = 0;
            proof {
                lemma_tys_view_index(elems@);
                assert(elems_v.skip(0) =~= elems_v);
            }
            #[verifier::loop_isolation(false)]
            while i < count
                invariant
                    count == elems@.len(),
                    elems_v == tys_view(elems@),
                    elems_v.len() == count,
                    forall|j: int| 0 <= j < count ==> elems_v[j] == ty_view(elems@[j]),
                    i <= count,
                    resolve_tys(elems_v, g0, upper@) == (ResolveManyOut {
                        tys: tys_view(out@) + resolve_tys(elems_v.skip(i as int),
                            gen_params_view(generics@), upper@).tys,
                        generics: resolve_tys(elems_v.skip(i as int), gen_params_view(generics@),
                            upper@).generics,
                    }),
                decreases count - i,
            {
                let ghost rest = elems_v.skip(i as int);
                let ghost gcur = gen_params_view(generics@);
                proof {
                    assert(rest[0] == elems_v[i as int]);
                    assert(rest.drop_first() =~= elems_v.skip(i + 1));
                    assert(decreases_to!(*t => *elems));
                    assert(decreases_to!(*elems => elems@));
                    assert(decreases_to!(elems@ => elems@[i as int]));
                }
                let e = resolve_type(&elems[i], generics, upper);
                let ghost eg = e;
                let ghost oldout = out@;
                out.push(e);
                proof {
                    lemma_tys_view_push(oldout, eg);
                    assert(tys_view(out@) =~= tys_view(oldout).push(ty_view(eg)));
                    assert(tys_view(oldout).push(ty_view(eg)) =~= tys_view(oldout) + seq![
                        ty_view(eg),
                    ]);
                    assert(resolve_tys(elems_v, g0, upper@).tys =~= tys_view(out@) + resolve_tys(
                        elems_v.skip(i + 1), gen_params_view(generics@), upper@).tys);
                }
                i = i + 1;
            }
            proof {
                assert(elems_v.skip(count as int) =~= Seq::<TyV>::empty());
                assert(resolve_tys(elems_v, g0, upper@).tys =~= tys_view(out@));
            }
            Ty::Tuple { elems: out }
        },
        Ty::Path { src } => Ty::Path { src: clone_bytes(src) },
    }
}

/// A types-list view indexes pointwise into the type views.
pub proof fn lemma_tys_view_index(s: Seq<Ty>)
    ensures
        tys_view(s).len() == s.len(),
        forall|i: int| 0 <= i < s.len() ==> tys_view(s)[i] == ty_view(s[i]),
    decreases s,
{
    if s.len() > 0 {
        lemma_tys_view_index(s.drop_first());
    }
}

/// View of a pushed type list.
pub proof fn lemma_tys_view_push(s: Seq<Ty>, t: Ty)
    ensures
        tys_view(s.push(t)) == tys_view(s).push(ty_view(t)),
{
    lemma_tys_view_index(s);
    lemma_tys_view_index(s.push(t));
    assert(tys_view(s.push(t)) =~= tys_view(s).push(ty_view(t)));
}

/// Synthesizes the one field of an accepted parameter: its simple name, and
/// its type with opaque positions replaced by fresh generics named from the
/// uppercased parameter name.
pub fn generate_one(pat_name: &Vec<u8>, ty: &Ty, generics: &mut Vec<GenParam>) -> (f: Field)
    ensures
        field_view(f) == (FieldV {
            name: pat_name@,
            ty: resolve_ty(ty_view(*ty), gen_params_view(old(generics)@),
                ascii_upper(pat_name@)).ty,
        }),
        gen_params_view(final(generics)@) == resolve_ty(ty_view(*ty),
            gen_params_view(old(generics)@), ascii_upper(pat_name@)).generics,
{
    let upper = ascii_upper_exec(pat_name);
    let resolved = resolve_type(ty, generics, &upper);
    Field { name: clone_bytes(pat_name), ty: resolved }
}

// ---------------------------------------------------------------------------
// The component-function lowering
// ---------------------------------------------------------------------------

/// The outcome of reading a signature's inputs.
pub struct ArgsOut {
    pub fields: Seq<FieldV>,
    pub generics: Seq<GenParamV>,
    pub diagnostics: Seq<FuncDiagnostic>,
}

/// Reads the inputs in order: a receiver or a destructuring pattern is a
/// diagnostic and the parameter is skipped; a simple-named parameter becomes
/// one field, its type resolved against the generics so far.
pub open spec fn lower_args(inputs: Seq<FnArgV>, generics: Seq<GenParamV>) -> ArgsOut
    decreases inputs,
{
    if inputs.len() == 0 {
        ArgsOut { fields: Seq::empty(), generics, diagnostics: Seq::empty() }
    } else {
        match inputs[0] {
            FnArgV::Receiver => {
                let rest = lower_args(inputs.drop_first(), generics);
                ArgsOut {
                    fields: rest.fields,
                    generics: rest.generics,
                    diagnostics: seq![FuncDiagnostic::ReceiverArgument] + rest.diagnostics,
                }
            },
            FnArgV::Typed { pat_is_ident, pat_name, pat_src, ty } => {
                if pat_is_ident {
                    let r = resolve_ty(ty, generics, ascii_upper(pat_name));
                    let rest = lower_args(inputs.drop_first(), r.generics);
                    ArgsOut {
                        fields: seq![FieldV { name: pat_name, ty: r.ty }] + rest.fields,
                        generics: rest.generics,
                        diagnostics: rest.diagnostics,
                    }
                } else {
                    let rest = lower_args(inputs.drop_first(), generics);
                    ArgsOut {
                        fields: rest.fields,
                        generics: rest.generics,
                        diagnostics: seq![FuncDiagnostic::UnsupportedPattern] + rest.diagnostics,
                    }
                }
            },
        }
    }
}

/// The qualifier diagnostics of a signature: one per disallowed qualifier.
pub open spec fn qualifier_diags(sig: SignatureV) -> Seq<FuncDiagnostic> {
    (if sig.constness {
        seq![FuncDiagnostic::ConstFunction]
    } else {
        Seq::empty()
    }) + (if sig.asyncness {
        seq![FuncDiagnostic::AsyncFunction]
    } else {
        Seq::empty()
    }) + (if sig.unsafety {
        seq![FuncDiagnostic::UnsafeFunction]
    } else {
        Seq::empty()
    }) + (if sig.abi {
        seq![FuncDiagnostic::AbiFunction]
    } else {
        Seq::empty()
    })
}

/// The generated data type and its delegation: one field per accepted
/// parameter, the signature's generics extended by the synthesized ones, and
/// the body calling the original function with the fields in order.
pub struct GeneratedComponent {
    pub diagnostics: Vec<FuncDiagnostic>,
    pub vis: Vec<u8>,
    pub ident: Vec<u8>,
    pub generics: Vec<GenParam>,
    pub fields: Vec<Field>,
    pub fn_ident: Vec<u8>,
}

/// Ghost mirror of [`GeneratedComponent`].
pub struct GeneratedComponentV {
    pub diagnostics: Seq<FuncDiagnostic>,
    pub vis: Seq<u8>,
    pub ident: Seq<u8>,
    pub generics: Seq<GenParamV>,
    pub fields: Seq<FieldV>,
    pub fn_ident: Seq<u8>,
}

impl View for GeneratedComponent {
    type V = GeneratedComponentV;

    open spec fn view(&self) -> GeneratedComponentV {
        GeneratedComponentV {
            diagnostics: self.diagnostics@,
            vis: self.vis@,
            ident: self.ident@,
            generics: gen_params_view(self.generics@),
            fields: fields_view(self.fields@),
            fn_ident: self.fn_ident@,
        }
    }
}

/// What lowering one component function yields.
pub open spec fn lower_component_fn(attr_vis: Seq<u8>, attr_name: Seq<u8>, sig: SignatureV)
    -> GeneratedComponentV {
    let args = lower_args(sig.inputs, sig.generics);
    GeneratedComponentV {
        diagnostics: qualifier_diags(sig) + args.diagnostics,
        vis: attr_vis,
        ident: attr_name,
        generics: args.generics,
        fields: args.fields,
        fn_ident: sig.ident,
    }
}

/// A fields-list view push.
pub proof fn lemma_fields_view_index(s: Seq<Field>)
    ensures
        fields_view(s).len() == s.len(),
        forall|i: int| 0 <= i < s.len() ==> fields_view(s)[i] == field_view(s[i]),
    decreases s,
{
    if s.len() > 0 {
        lemma_fields_view_index(s.drop_first());
    }
}

/// Turns a function signature into a component: rejects disallowed
/// qualifiers, synthesizes one field per accepted parameter, lowers opaque
/// parameter types to fresh generics, and delegates formatting back to the
/// function.
pub fn component(attr: ComponentAttrs, sig: Signature) -> (r: GeneratedComponent)
    ensures
        r@ == lower_component_fn(attr.vis@, attr.name@, sig@),
{
    let ghost sigv = sig@;
    let mut diagnostics: Vec<FuncDiagnostic> = Vec::new();
    if sig.constness {
        diagnostics.push(FuncDiagnostic::ConstFunction);
    }
    if sig.asyncness {
        diagnostics.push(FuncDiagnostic::AsyncFunction);
    }
    if sig.unsafety {
        diagnostics.push(FuncDiagnostic::UnsafeFunction);
    }
    if sig.abi {
        diagnostics.push(FuncDiagnostic::AbiFunction);
    }
    proof {
        assert(diagnostics@ =~= qualifier_diags(sigv));
    }
    let ghost qdiags = diagnostics@;
    let mut generics = sig.generics;
    let ghost g0 = gen_params_view(generics@);
    let mut fields: Vec<Field> = Vec::new();
    let inputs = sig.inputs;
    let count = inputs.len();
    let ghost inputsv = fn_args_view(inputs@);
    let mut i: usize = 0;
    proof {
        lemma_fn_args_view_index(inputs@);
        assert(inputsv.skip(0) =~= inputsv);
        assert(sigv.inputs == inputsv);
        assert(sigv.generics == g0);
    }
    while i < count
        invariant
            count == inputs@.len(),
            inputsv == fn_args_view(inputs@),
            inputsv.len() == count,
            forall|j: int| 0 <= j < count ==> inputsv[j] == fn_arg_view(inputs@[j]),
            i <= count,
            lower_args(inputsv, g0) == (ArgsOut {
                fields: fields_view(fields@) + lower_args(inputsv.skip(i as int),
                    gen_params_view(generics@)).fields,
                generics: lower_args(inputsv.skip(i as int), gen_params_view(generics@)).generics,
                diagnostics: diagnostics@.skip(qdiags.len() as int) + lower_args(
                    inputsv.skip(i as int), gen_params_view(generics@)).diagnostics,
            }),
            diagnostics@.subrange(0, qdiags.len() as int) == qdiags,
            diagnostics@.len() >= qdiags.len(),
        decreases count - i,
    {
        let ghost rest = inputsv.skip(i as int);
        let ghost gcur = gen_params_view(generics@);
        let ghost dcur = diagnostics@;
        let ghost fcur = fields@;
        proof {
            assert(rest[0] == inputsv[i as int]);
            assert(rest.drop_first() =~= inputsv.skip(i + 1));
        }
        match &inputs[i] {
            FnArg::Receiver => {
                diagnostics.push(FuncDiagnostic::ReceiverArgument);
                proof {
                    assert(diagnostics@.skip(qdiags.len() as int) =~= dcur.skip(
                        qdiags.len() as int) + seq![FuncDiagnostic::ReceiverArgument]);
                    assert(diagnostics@.subrange(0, qdiags.len() as int) =~= qdiags);
                }
            },
            FnArg::Typed { pat, ty } => {
                match pat {
                    Pat::Ident { name } => {
                        let f = generate_one(name, ty, &mut generics);
                        let ghost fg = f;
                        fields.push(f);
                        proof {
                            lemma_fields_view_index(fcur);
                            lemma_fields_view_index(fields@);
                            assert(fields@ =~= fcur.push(fg));
                            assert(fields_view(fields@) =~= fields_view(fcur).push(field_view(fg)));
                        }
                    },
                    Pat::Other { src } => {
                        diagnostics.push(FuncDiagnostic::UnsupportedPattern);
                        proof {
                            assert(diagnostics@.skip(qdiags.len() as int) =~= dcur.skip(
                                qdiags.len() as int) + seq![FuncDiagnostic::UnsupportedPattern]);
                            assert(diagnostics@.subrange(0, qdiags.len() as int) =~= qdiags);
                        }
                    },
                }
            },
        }
        proof {
            assert(lower_args(inputsv, g0).fields =~= fields_view(fields@) + lower_args(
                inputsv.skip(i + 1), gen_params_view(generics@)).fields);
            assert(lower_args(inputsv, g0).diagnostics =~= diagnostics@.skip(
                qdiags.len() as int) + lower_args(inputsv.skip(i + 1),
                gen_params_view(generics@)).diagnostics);
            assert(lower_args(inputsv, g0).generics == lower_args(inputsv.skip(i + 1),
                gen_params_view(generics@)).generics);
        }
        i = i + 1;
    }
    proof {
        assert(inputsv.skip(count as int) =~= Seq::<FnArgV>::empty());
        assert(lower_args(inputsv, g0).fields =~= fields_view(fields@));
        assert(lower_args(inputsv, g0).diagnostics =~= diagnostics@.skip(qdiags.len() as int));
        assert(diagnostics@ =~= qdiags + diagnostics@.skip(qdiags.len() as int));
    }
    let r = GeneratedComponent {
        diagnostics,
        vis: attr.vis,
        ident: attr.name,
        generics,
        fields,
        fn_ident: sig.ident,
    };
    proof {
        assert(r@.diagnostics =~= lower_component_fn(attr.vis@, attr.name@, sigv).diagnostics);
    }
    r
}

/// An inputs-list view indexes pointwise into the input views.
pub proof fn lemma_fn_args_view_index(s: Seq<FnArg>)
    ensures
        fn_args_view(s).len() == s.len(),
        forall|i: int| 0 <= i < s.len() ==> fn_args_view(s)[i] == fn_arg_view(s[i]),
    decreases s,
{
    if s.len() > 0 {
        lemma_fn_args_view_index(s.drop_first());
    }
}


impl FuncDiagnostic {
    /// The human-readable message of this diagnostic.
    pub fn message(&self) -> (r: String)
        ensures
            match self {
                FuncDiagnostic::ConstFunction => r@ == "component function must not be const"@,
                FuncDiagnostic::AsyncFunction => r@ == "component function must not be async"@,
                FuncDiagnostic::UnsafeFunction => r@ == "component function must not be unsafe"@,
                FuncDiagnostic::AbiFunction => r@ == "component function must not have an abi"@,
                FuncDiagnostic::ReceiverArgument => r@
                    == "component function must not have self argument"@,
                FuncDiagnostic::UnsupportedPattern => r@ == "couldn't parse function argument"@,
            },
    {
        match self {
            FuncDiagnostic::ConstFunction => <String as vstd::string::StringExecFns>::from_str(
                "component function must not be const",
            ),
            FuncDiagnostic::AsyncFunction => <String as vstd::string::StringExecFns>::from_str(
                "component function must not be async",
            ),
            FuncDiagnostic::UnsafeFunction => <String as vstd::string::StringExecFns>::from_str(
                "component function must not be unsafe",
            ),
            FuncDiagnostic::AbiFunction => <String as vstd::string::StringExecFns>::from_str(
                "component function must not have an abi",
            ),
            FuncDiagnostic::ReceiverArgument => <String as vstd::string::StringExecFns>::from_str(
                "component function must not have self argument",
            ),
            FuncDiagnostic::UnsupportedPattern => <String as vstd::string::StringExecFns>::from_str(
                "couldn't parse function argument",
            ),
        }
    }
}


} // verus!

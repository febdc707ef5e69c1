//! The compile-time data model: enum declarations, their variants, and the
//! compilation scope they live in.
//!
//! Every entity is held as plain values — identifiers are byte strings — so
//! the splicing engine can state exactly what it does to them. Each
//! executable type has a ghost mirror (`...V`) over `Seq`, reached through
//! `View`/`DeepView`.

use vstd::prelude::*;

verus! {

/// One field of a record-shaped payload: a field name and the text of its type.
#[derive(Debug, Clone, PartialEq, Eq)]
pub struct FieldSpec {
    pub name: Vec<u8>,
    pub ty: Vec<u8>,
}

pub struct FieldV {
    pub name: Seq<u8>,
    pub ty: Seq<u8>,
}

impl View for FieldSpec {
    type V = FieldV;

    open spec fn view(&self) -> FieldV {
        FieldV { name: self.name@, ty: self.ty@ }
    }
}

impl DeepView for FieldSpec {
    type V = FieldV;

    open spec fn deep_view(&self) -> FieldV {
        self@
    }
}

/// The structural payload of a variant: none, a tuple of type texts, or a
/// record of named fields.
#[derive(Debug, Clone, PartialEq, Eq)]
pub enum PayloadShape {
    Unit,
    Tuple(Vec<Vec<u8>>),
    Record(Vec<FieldSpec>),
}

pub enum PayloadV {
    Unit,
    Tuple(Seq<Seq<u8>>),
    Record(Seq<FieldV>),
}

impl View for PayloadShape {
    type V = PayloadV;

    open spec fn view(&self) -> PayloadV {
        match self {
            PayloadShape::Unit => PayloadV::Unit,
            PayloadShape::Tuple(tys) => PayloadV::Tuple(tys.deep_view()),
            PayloadShape::Record(fields) => PayloadV::Record(fields.deep_view()),
        }
    }
}

impl DeepView for PayloadShape {
    type V = PayloadV;

    open spec fn deep_view(&self) -> PayloadV {
        self@
    }
}

/// One variant of an enum declaration: a name unique within its enum, and an
/// optional structural payload.
#[derive(Debug, Clone, PartialEq, Eq)]
pub struct VariantSpec {
    pub name: Vec<u8>,
    pub payload: PayloadShape,
}

pub struct VariantV {
    pub name: Seq<u8>,
    pub payload: PayloadV,
}

impl View for VariantSpec {
    type V = VariantV;

    open spec fn view(&self) -> VariantV {
        VariantV { name: self.name@, payload: self.payload@ }
    }
}

impl DeepView for VariantSpec {
    type V = VariantV;

    open spec fn deep_view(&self) -> VariantV {
        self@
    }
}

/// An enum declaration: its name, generic parameters, derive annotations,
/// ordered variants, optionally a designated default variant, and optionally
/// the raw argument text of an `extends(...)` attribute not yet resolved.
#[derive(Debug, Clone, PartialEq, Eq)]
pub struct EnumDecl {
    pub name: Vec<u8>,
    pub generics: Vec<Vec<u8>>,
    pub derives: Vec<Vec<u8>>,
    pub variants: Vec<VariantSpec>,
    pub default_variant: Option<Vec<u8>>,
    pub extends_attr: Option<Vec<u8>>,
}

pub struct EnumV {
    pub name: Seq<u8>,
    pub generics: Seq<Seq<u8>>,
    pub derives: Seq<Seq<u8>>,
    pub variants: Seq<VariantV>,
    pub default_variant: Option<Seq<u8>>,
    pub extends_attr: Option<Seq<u8>>,
}

impl View for EnumDecl {
    type V = EnumV;

    open spec fn view(&self) -> EnumV {
        EnumV {
            name: self.name@,
            generics: self.generics.deep_view(),
            derives: self.derives.deep_view(),
            variants: self.variants.deep_view(),
            default_variant: self.default_variant.deep_view(),
            extends_attr: self.extends_attr.deep_view(),
        }
    }
}

impl DeepView for EnumDecl {
    type V = EnumV;

    open spec fn deep_view(&self) -> EnumV {
        self@
    }
}

/// A declaration in the compilation scope: an enum, or some other kind of
/// declaration that only matters by name.
#[derive(Debug, Clone, PartialEq, Eq)]
pub enum Decl {
    Enum(EnumDecl),
    Other(Vec<u8>),
}

pub enum DeclV {
    Enum(EnumV),
    Other(Seq<u8>),
}

impl View for Decl {
    type V = DeclV;

    open spec fn view(&self) -> DeclV {
        match self {
            Decl::Enum(e) => DeclV::Enum(e@),
            Decl::Other(name) => DeclV::Other(name@),
        }
    }
}

impl DeepView for Decl {
    type V = DeclV;

    open spec fn deep_view(&self) -> DeclV {
        self@
    }
}

impl DeclV {
    /// The name a declaration is resolved by.
    pub open spec fn decl_name(self) -> Seq<u8> {
        match self {
            DeclV::Enum(e) => e.name,
            DeclV::Other(name) => name,
        }
    }
}

/// A byte vector's deep view is its view.
pub broadcast proof fn lemma_bytes_deep_view(v: Vec<u8>)
    ensures
        #[trigger] v.deep_view() == v@,
{
    assert(v.deep_view() =~= v@);
}

/// Whether two variants anywhere in `vs` share one name.
pub open spec fn has_dup_names(vs: Seq<VariantV>) -> bool {
    exists|i: int, j: int| 0 <= i < j < vs.len() && vs[i].name == vs[j].name
}

/// Whether some variant in `vs` carries the given name.
pub open spec fn has_variant(vs: Seq<VariantV>, name: Seq<u8>) -> bool {
    exists|i: int| 0 <= i < vs.len() && vs[i].name == name
}

/// The first declaration in `scope` with the given name.
pub open spec fn spec_lookup(scope: Seq<DeclV>, id: Seq<u8>) -> Option<DeclV>
    decreases scope.len(),
{
    if scope.len() == 0 {
        None
    } else if scope[0].decl_name() == id {
        Some(scope[0])
    } else {
        spec_lookup(scope.drop_first(), id)
    }
}

/// Finds the first declaration named `id`, returning its index.
pub fn lookup(scope: &Vec<Decl>, id: &Vec<u8>) -> (r: Option<usize>)
    ensures
        match spec_lookup(scope.deep_view(), id@) {
            Option::None => r is None,
            Option::Some(d) => r is Some && r.unwrap() < scope.len() && scope.deep_view()[r.unwrap() as int]
                == d,
        },
{
    let ghost sv = scope.deep_view();
    proof {
        assert(sv.skip(0) =~= sv);
    }
    let mut i: usize = 0;
    while i < scope.len()
        invariant
            i <= scope.len(),
            sv == scope.deep_view(),
            sv.len() == scope.len(),
            spec_lookup(sv, id@) == spec_lookup(sv.skip(i as int), id@),
        decreases scope.len() - i,
    {
        let name_matches = match &scope[i] {
            Decl::Enum(e) => crate::text::bytes_eq(&e.name, id),
            Decl::Other(name) => crate::text::bytes_eq(name, id),
        };
        assert(sv.skip(i as int)[0] == sv[i as int]);
        if name_matches {
            assert(sv[i as int].decl_name() == id@);
            return Some(i);
        }
        assert(sv.skip(i as int).drop_first() =~= sv.skip(i + 1 as int));
        i += 1;
    }
    assert(sv.skip(scope.len() as int).len() == 0);
    None
}

/// Checks whether some variant in `vs` carries the given name.
pub fn find_variant(vs: &Vec<VariantSpec>, name: &Vec<u8>) -> (r: bool)
    ensures
        r == has_variant(vs.deep_view(), name@),
{
    let ghost dv = vs.deep_view();
    let mut i: usize = 0;
    while i < vs.len()
        invariant
            i <= vs.len(),
            dv == vs.deep_view(),
            dv.len() == vs.len(),
            forall|p: int| 0 <= p < i ==> dv[p].name != name@,
        decreases vs.len() - i,
    {
        if crate::text::bytes_eq(&vs[i].name, name) {
            assert(dv[i as int].name == name@);
            return true;
        }
        i += 1;
    }
    false
}

/// A copy of a list of byte strings.
pub fn copy_names(v: &Vec<Vec<u8>>) -> (r: Vec<Vec<u8>>)
    ensures
        r.deep_view() == v.deep_view(),
{
    let mut r: Vec<Vec<u8>> = Vec::new();
    let mut i: usize = 0;
    while i < v.len()
        invariant
            i <= v.len(),
            r.deep_view() =~~= v.deep_view().take(i as int),
        decreases v.len() - i,
    {
        let ghost prev = r.deep_view();
        r.push(crate::text::copy_bytes(&v[i]));
        proof {
            assert(r.deep_view() =~~= prev.push(v.deep_view()[i as int]));
            assert(v.deep_view().take(i + 1 as int) =~~= v.deep_view().take(i as int).push(
                v.deep_view()[i as int],
            ));
        }
        i += 1;
    }
    assert(v.deep_view().take(v.len() as int) =~~= v.deep_view());
    r
}

/// A copy of an optional byte string.
pub fn copy_opt_name(v: &Option<Vec<u8>>) -> (r: Option<Vec<u8>>)
    ensures
        r.deep_view() == v.deep_view(),
{
    match v {
        Option::None => None,
        Option::Some(n) => Some(crate::text::copy_bytes(n)),
    }
}

/// A copy of a payload shape.
pub fn copy_payload(p: &PayloadShape) -> (r: PayloadShape)
    ensures
        r@ == p@,
{
    match p {
        PayloadShape::Unit => PayloadShape::Unit,
        PayloadShape::Tuple(tys) => PayloadShape::Tuple(copy_names(tys)),
        PayloadShape::Record(fields) => {
            let mut r: Vec<FieldSpec> = Vec::new();
            let mut i: usize = 0;
            while i < fields.len()
                invariant
                    i <= fields.len(),
                    r.deep_view() =~~= fields.deep_view().take(i as int),
                decreases fields.len() - i,
            {
                let ghost prev = r.deep_view();
                r.push(
                    FieldSpec {
                        name: crate::text::copy_bytes(&fields[i].name),
                        ty: crate::text::copy_bytes(&fields[i].ty),
                    },
                );
                proof {
                    assert(r.deep_view() =~~= prev.push(fields.deep_view()[i as int]));
                    assert(fields.deep_view().take(i + 1 as int) =~~= fields.deep_view().take(
                        i as int,
                    ).push(fields.deep_view()[i as int]));
                }
                i += 1;
            }
            assert(fields.deep_view().take(fields.len() as int) =~~= fields.deep_view());
            PayloadShape::Record(r)
        },
    }
}

/// A copy of one variant.
pub fn copy_variant(v: &VariantSpec) -> (r: VariantSpec)
    ensures
        r@ == v@,
{
    VariantSpec { name: crate::text::copy_bytes(&v.name), payload: copy_payload(&v.payload) }
}

/// A copy of a variant list.
pub fn copy_variants(v: &Vec<VariantSpec>) -> (r: Vec<VariantSpec>)
    ensures
        r.deep_view() == v.deep_view(),
{
    let mut r: Vec<VariantSpec> = Vec::new();
    let mut i: usize = 0;
    while i < v.len()
        invariant
            i <= v.len(),
            r.deep_view() =~~= v.deep_view().take(i as int),
        decreases v.len() - i,
    {
        let ghost prev = r.deep_view();
        r.push(copy_variant(&v[i]));
        proof {
            assert(r.deep_view() =~~= prev.push(v.deep_view()[i as int]));
            assert(v.deep_view().take(i + 1 as int) =~~= v.deep_view().take(i as int).push(
                v.deep_view()[i as int],
            ));
        }
        i += 1;
    }
    assert(v.deep_view().take(v.len() as int) =~~= v.deep_view());
    r
}

/// A copy of an enum declaration.
pub fn copy_enum(e: &EnumDecl) -> (r: EnumDecl)
    ensures
        r@ == e@,
{
    EnumDecl {
        name: crate::text::copy_bytes(&e.name),
        generics: copy_names(&e.generics),
        derives: copy_names(&e.derives),
        variants: copy_variants(&e.variants),
        default_variant: copy_opt_name(&e.default_variant),
        extends_attr: copy_opt_name(&e.extends_attr),
    }
}

/// Checks whether two variants in `vs` share one name.
pub fn find_dup(vs: &Vec<VariantSpec>) -> (r: bool)
    ensures
        r == has_dup_names(vs.deep_view()),
{
    let ghost dv = vs.deep_view();
    let mut i: usize = 0;
    while i < vs.len()
        invariant
            i <= vs.len(),
            dv == vs.deep_view(),
            dv.len() == vs.len(),
            forall|p: int, q: int| 0 <= p < q < i ==> dv[p].name != dv[q].name,
        decreases vs.len() - i,
    {
        let mut j: usize = 0;
        while j < i
            invariant
                j <= i < vs.len(),
                dv == vs.deep_view(),
                dv.len() == vs.len(),
                forall|p: int| 0 <= p < j ==> dv[p].name != dv[i as int].name,
            decreases i - j,
        {
            if crate::text::bytes_eq(&vs[j].name, &vs[i].name) {
                assert(dv[j as int].name == dv[i as int].name);
                return true;
            }
            j += 1;
        }
        i += 1;
    }
    false
}

} // verus!

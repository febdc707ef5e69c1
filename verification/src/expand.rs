//! The declaration splicer.
//!
//! Expanding a target enum resolves the enums named by its `extends(...)`
//! attribute inside the compilation scope — resolving each of those first in
//! the same way, so chains are absorbed transitively — then unions the
//! variant lists and describes the conversion routines owed for every
//! absorbed source. The resulting variant order is: each source's variants,
//! sources in the order listed, each group in its own declared order,
//! followed by the target's own originally declared variants.

use vstd::prelude::*;

use crate::args::spec_parse_extends;
use crate::args::parse_extends;
use crate::model::Decl;
use crate::model::DeclV;
use crate::model::EnumDecl;
use crate::model::EnumV;
use crate::model::VariantSpec;
use crate::model::VariantV;

verus! {

broadcast use crate::model::lemma_bytes_deep_view;

/// Why an expansion failed. Every failure is fatal to the one declaration
/// being expanded.
#[derive(Debug, Clone, Copy, PartialEq, Eq, Structural)]
pub enum SpliceError {
    /// The extension request stands on a declaration that is not an enum.
    NotAnEnum,
    /// The attribute argument is not a parenthesized identifier list.
    InvalidExtensionArgument,
    /// A named source does not resolve to an enum declaration in scope.
    UnresolvedEnumReference,
    /// Merging would put two variants of one name into the target.
    VariantNameCollision,
    /// The target enum directly or transitively extends itself.
    CyclicExtension,
}

/// The diagnostic text for each failure.
pub open spec fn spec_message(e: SpliceError) -> Seq<char> {
    match e {
        SpliceError::NotAnEnum => "an extension request stands only on an enum declaration"@,
        SpliceError::InvalidExtensionArgument
            => "the extension argument is not a parenthesized identifier list; a single item needs a trailing comma"@,
        SpliceError::UnresolvedEnumReference
            => "a named source does not resolve to an enum declaration in this scope"@,
        SpliceError::VariantNameCollision
            => "merging would put two variants of one name into the target enum"@,
        SpliceError::CyclicExtension => "the target enum directly or transitively extends itself"@,
    }
}

impl SpliceError {
    /// The human-readable diagnostic for this failure.
    pub fn message(&self) -> (r: &'static str)
        ensures
            r@ == spec_message(*self),
    {
        match self {
            SpliceError::NotAnEnum => "an extension request stands only on an enum declaration",
            SpliceError::InvalidExtensionArgument
                => "the extension argument is not a parenthesized identifier list; a single item needs a trailing comma",
            SpliceError::UnresolvedEnumReference
                => "a named source does not resolve to an enum declaration in this scope",
            SpliceError::VariantNameCollision
                => "merging would put two variants of one name into the target enum",
            SpliceError::CyclicExtension
                => "the target enum directly or transitively extends itself",
        }
    }
}

/// The direction of a generated conversion routine.
#[derive(Debug, Clone, Copy, PartialEq, Eq, Structural)]
pub enum Direction {
    NarrowToBroad,
    BroadToNarrow,
}

/// A non-fatal diagnostic raised while generating conversion routines.
#[derive(Debug, Clone, PartialEq, Eq)]
pub enum Warning {
    /// The narrow enum designates no default variant, so the partial
    /// broad-to-narrow routine was skipped; the narrow-to-broad routine is
    /// still emitted.
    MissingDefaultForNarrowConversion { narrow: Vec<u8>, broad: Vec<u8> },
}

pub enum WarningV {
    MissingDefaultForNarrowConversion { narrow: Seq<u8>, broad: Seq<u8> },
}

impl Warning {
    /// The human-readable diagnostic for this warning.
    pub fn message(&self) -> (r: &'static str)
        ensures
            r@
                == "the narrow enum designates no default variant, so only the narrow-to-broad conversion is generated"@,
    {
        match self {
            Warning::MissingDefaultForNarrowConversion { .. }
                => "the narrow enum designates no default variant, so only the narrow-to-broad conversion is generated",
        }
    }
}

impl View for Warning {
    type V = WarningV;

    open spec fn view(&self) -> WarningV {
        match self {
            Warning::MissingDefaultForNarrowConversion { narrow, broad } =>
                WarningV::MissingDefaultForNarrowConversion { narrow: narrow@, broad: broad@ },
        }
    }
}

impl DeepView for Warning {
    type V = WarningV;

    open spec fn deep_view(&self) -> WarningV {
        self@
    }
}

/// One generated conversion routine between a narrow enum and the broad enum
/// it was absorbed into, keyed by the pair and a direction.
#[derive(Debug, Clone, PartialEq, Eq)]
pub struct ConversionRoutine {
    /// The narrow enum's name.
    pub narrow: Vec<u8>,
    /// The broad enum's name.
    pub broad: Vec<u8>,
    pub direction: Direction,
    /// The narrow enum's (fully merged) variants; each is mapped to the
    /// identically-named broad variant, payload passed through unchanged.
    pub narrow_variants: Vec<VariantSpec>,
    /// For the broad-to-narrow direction: the narrow enum's designated
    /// default variant, to which every unmatched broad variant falls back.
    pub fallback: Option<Vec<u8>>,
}

pub struct RoutineV {
    pub narrow: Seq<u8>,
    pub broad: Seq<u8>,
    pub direction: Direction,
    pub narrow_variants: Seq<VariantV>,
    pub fallback: Option<Seq<u8>>,
}

impl View for ConversionRoutine {
    type V = RoutineV;

    open spec fn view(&self) -> RoutineV {
        RoutineV {
            narrow: self.narrow@,
            broad: self.broad@,
            direction: self.direction,
            narrow_variants: self.narrow_variants.deep_view(),
            fallback: self.fallback.deep_view(),
        }
    }
}

impl DeepView for ConversionRoutine {
    type V = RoutineV;

    open spec fn deep_view(&self) -> RoutineV {
        self@
    }
}

/// Everything one expansion pass emits for one target declaration.
#[derive(Debug, Clone, PartialEq, Eq)]
pub struct Expansion {
    /// The rewritten target declaration, carrying the unioned variant list,
    /// its extension request consumed.
    pub decl: EnumDecl,
    /// The conversion routines, two per absorbed source when that source
    /// designates a default variant, one otherwise.
    pub routines: Vec<ConversionRoutine>,
    /// The non-fatal diagnostics raised while generating routines.
    pub warnings: Vec<Warning>,
}

pub struct ExpansionV {
    pub decl: EnumV,
    pub routines: Seq<RoutineV>,
    pub warnings: Seq<WarningV>,
}

impl View for Expansion {
    type V = ExpansionV;

    open spec fn view(&self) -> ExpansionV {
        ExpansionV {
            decl: self.decl@,
            routines: self.routines.deep_view(),
            warnings: self.warnings.deep_view(),
        }
    }
}

impl DeepView for Expansion {
    type V = ExpansionV;

    open spec fn deep_view(&self) -> ExpansionV {
        self@
    }
}

/// The variants of a run of (already merged) source enums, concatenated in
/// order.
pub open spec fn concat_variants(es: Seq<EnumV>) -> Seq<VariantV>
    decreases es.len(),
{
    if es.len() == 0 {
        Seq::empty()
    } else {
        concat_variants(es.drop_last()) + es.last().variants
    }
}

/// Resolves one enum: `Ok` carries its fully merged form and every enum it
/// absorbed, directly or transitively, each in fully merged form, in
/// resolution order. `fuel` bounds the resolution depth; a well-founded
/// extension chain inside `scope` never exhausts a fuel larger than the
/// number of declarations, so running out means the chain revisits an enum.
pub open spec fn spec_expand_enum(scope: Seq<DeclV>, e: EnumV, fuel: nat) -> Result<
    (EnumV, Seq<EnumV>),
    SpliceError,
>
    decreases fuel, 0int, 0int,
{
    match e.extends_attr {
        Option::None => Ok((e, Seq::empty())),
        Option::Some(text) => {
            if fuel == 0 {
                Err(SpliceError::CyclicExtension)
            } else {
                match spec_parse_extends(text) {
                    Option::None => Err(SpliceError::InvalidExtensionArgument),
                    Option::Some(ids) => match spec_expand_sources(
                        scope,
                        ids,
                        (fuel - 1) as nat,
                    ) {
                        Err(err) => Err(err),
                        Ok((direct, absorbed)) => {
                            let merged = concat_variants(direct) + e.variants;
                            if crate::model::has_dup_names(merged) {
                                Err(SpliceError::VariantNameCollision)
                            } else {
                                Ok(
                                    (
                                        EnumV {
                                            name: e.name,
                                            generics: e.generics,
                                            derives: e.derives,
                                            variants: merged,
                                            default_variant: e.default_variant,
                                            extends_attr: Option::None,
                                        },
                                        absorbed,
                                    ),
                                )
                            }
                        },
                    },
                }
            }
        },
    }
}

/// Resolves a list of named sources: `Ok` carries the merged sources in
/// listed order, and every enum absorbed through them — for each source, its
/// own absorptions first, then the source itself.
pub open spec fn spec_expand_sources(scope: Seq<DeclV>, ids: Seq<Seq<u8>>, fuel: nat) -> Result<
    (Seq<EnumV>, Seq<EnumV>),
    SpliceError,
>
    decreases fuel, 1int, ids.len(),
{
    if ids.len() == 0 {
        Ok((Seq::empty(), Seq::empty()))
    } else {
        match crate::model::spec_lookup(scope, ids[0]) {
            Option::None => Err(SpliceError::UnresolvedEnumReference),
            Option::Some(DeclV::Other(_)) => Err(SpliceError::UnresolvedEnumReference),
            Option::Some(DeclV::Enum(src)) => match spec_expand_enum(scope, src, fuel) {
                Err(err) => Err(err),
                Ok((enm, sub_absorbed)) => match spec_expand_sources(
                    scope,
                    ids.drop_first(),
                    fuel,
                ) {
                    Err(err) => Err(err),
                    Ok((direct, absorbed)) => Ok(
                        (seq![enm] + direct, sub_absorbed + seq![enm] + absorbed),
                    ),
                },
            },
        }
    }
}

/// The conversion routines owed for one absorbed source: the total
/// narrow-to-broad routine always, the partial broad-to-narrow routine only
/// when the source designates a default variant.
pub open spec fn routines_for(src: EnumV, broad: Seq<u8>) -> Seq<RoutineV> {
    let n2b = RoutineV {
        narrow: src.name,
        broad: broad,
        direction: Direction::NarrowToBroad,
        narrow_variants: src.variants,
        fallback: Option::None,
    };
    match src.default_variant {
        Option::Some(d) => seq![
            n2b,
            RoutineV {
                narrow: src.name,
                broad: broad,
                direction: Direction::BroadToNarrow,
                narrow_variants: src.variants,
                fallback: Option::Some(d),
            },
        ],
        Option::None => seq![n2b],
    }
}

/// All conversion routines for a target, one source at a time, in
/// resolution order.
pub open spec fn spec_routines(absorbed: Seq<EnumV>, broad: Seq<u8>) -> Seq<RoutineV>
    decreases absorbed.len(),
{
    if absorbed.len() == 0 {
        Seq::empty()
    } else {
        spec_routines(absorbed.drop_last(), broad) + routines_for(absorbed.last(), broad)
    }
}

/// The warnings for a target: one per absorbed source that designates no
/// default variant.
pub open spec fn spec_warnings(absorbed: Seq<EnumV>, broad: Seq<u8>) -> Seq<WarningV>
    decreases absorbed.len(),
{
    if absorbed.len() == 0 {
        Seq::empty()
    } else {
        spec_warnings(absorbed.drop_last(), broad) + (match absorbed.last().default_variant {
            Option::None => seq![
                WarningV::MissingDefaultForNarrowConversion {
                    narrow: absorbed.last().name,
                    broad: broad,
                },
            ],
            Option::Some(_) => Seq::empty(),
        })
    }
}

/// What expanding one annotated target declaration yields: the rewritten
/// declaration plus conversion routines and warnings, or the error that
/// aborts this expansion.
pub open spec fn spec_expand_target(scope: Seq<DeclV>, t: DeclV) -> Result<
    ExpansionV,
    SpliceError,
> {
    match t {
        DeclV::Other(_) => Err(SpliceError::NotAnEnum),
        DeclV::Enum(e) => match spec_expand_enum(scope, e, (scope.len() + 1) as nat) {
            Err(err) => Err(err),
            Ok((enm, absorbed)) => Ok(
                ExpansionV {
                    decl: enm,
                    routines: spec_routines(absorbed, enm.name),
                    warnings: spec_warnings(absorbed, enm.name),
                },
            ),
        },
    }
}

/// Resolves one enum, mirroring `spec_expand_enum`.
fn expand_enum(scope: &Vec<Decl>, e: &EnumDecl, fuel: usize) -> (r: Result<
    (EnumDecl, Vec<EnumDecl>),
    SpliceError,
>)
    ensures
        match (r, spec_expand_enum(scope.deep_view(), e@, fuel as nat)) {
            (Ok((enm, absorbed)), Ok((senm, sabs))) => enm@ == senm && absorbed.deep_view()
                == sabs,
            (Err(a), Err(b)) => a == b,
            _ => false,
        },
    decreases fuel, 0int, 0int,
{
    let ghost sv = scope.deep_view();
    match &e.extends_attr {
        Option::None => {
            let out: Vec<EnumDecl> = Vec::new();
            assert(out.deep_view() =~~= Seq::<EnumV>::empty());
            Ok((crate::model::copy_enum(e), out))
        },
        Option::Some(text) => {
            if fuel == 0 {
                return Err(SpliceError::CyclicExtension);
            }
            match parse_extends(text) {
                Option::None => Err(SpliceError::InvalidExtensionArgument),
                Option::Some(ids) => {
                    proof {
                        assert(ids.deep_view().skip(0) =~~= ids.deep_view());
                    }
                    match expand_sources(scope, &ids, 0, fuel - 1) {
                        Err(err) => Err(err),
                        Ok((direct, absorbed)) => {
                            let ghost ddv = direct.deep_view();
                            let mut merged: Vec<VariantSpec> = Vec::new();
                            proof {
                                assert(ddv.take(0) =~= Seq::<EnumV>::empty());
                                assert(merged.deep_view() =~~= concat_variants(ddv.take(0)));
                            }
                            let mut i: usize = 0;
                            while i < direct.len()
                                invariant
                                    i <= direct.len(),
                                    ddv == direct.deep_view(),
                                    ddv.len() == direct.len(),
                                    merged.deep_view() == concat_variants(ddv.take(i as int)),
                                decreases direct.len() - i,
                            {
                                let mut vs = crate::model::copy_variants(&direct[i].variants);
                                let ghost prev = merged.deep_view();
                                merged.append(&mut vs);
                                proof {
                                    assert(ddv[i as int] == direct@[i as int].deep_view());
                                    assert(merged.deep_view() =~~= prev + ddv[i as int].variants);
                                    assert(ddv.take(i + 1 as int).drop_last() =~= ddv.take(
                                        i as int,
                                    ));
                                    assert(ddv.take(i + 1 as int).last() == ddv[i as int]);
                                }
                                i += 1;
                            }
                            proof {
                                assert(ddv.take(direct.len() as int) =~= ddv);
                            }
                            let mut own = crate::model::copy_variants(&e.variants);
                            let ghost prev = merged.deep_view();
                            merged.append(&mut own);
                            proof {
                                assert(merged.deep_view() =~~= prev + e.variants.deep_view());
                            }
                            if crate::model::find_dup(&merged) {
                                Err(SpliceError::VariantNameCollision)
                            } else {
                                Ok(
                                    (
                                        EnumDecl {
                                            name: crate::text::copy_bytes(&e.name),
                                            generics: crate::model::copy_names(&e.generics),
                                            derives: crate::model::copy_names(&e.derives),
                                            variants: merged,
                                            default_variant: crate::model::copy_opt_name(
                                                &e.default_variant,
                                            ),
                                            extends_attr: Option::None,
                                        },
                                        absorbed,
                                    ),
                                )
                            }
                        },
                    }
                },
            }
        },
    }
}

/// Resolves the named sources from position `from` on, mirroring
/// `spec_expand_sources`.
fn expand_sources(scope: &Vec<Decl>, ids: &Vec<Vec<u8>>, from: usize, fuel: usize) -> (r: Result<
    (Vec<EnumDecl>, Vec<EnumDecl>),
    SpliceError,
>)
    requires
        from <= ids.len(),
    ensures
        match (r, spec_expand_sources(
            scope.deep_view(),
            ids.deep_view().skip(from as int),
            fuel as nat,
        )) {
            (Ok((direct, absorbed)), Ok((sd, sa))) => direct.deep_view() == sd
                && absorbed.deep_view() == sa,
            (Err(a), Err(b)) => a == b,
            _ => false,
        },
    decreases fuel, 1int, ids.len() - from,
{
    let ghost sv = scope.deep_view();
    let ghost idsv = ids.deep_view().skip(from as int);
    if from == ids.len() {
        assert(idsv.len() == 0);
        let direct: Vec<EnumDecl> = Vec::new();
        let absorbed: Vec<EnumDecl> = Vec::new();
        assert(direct.deep_view() =~~= Seq::<EnumV>::empty());
        assert(absorbed.deep_view() =~~= Seq::<EnumV>::empty());
        Ok((direct, absorbed))
    } else {
        proof {
            assert(idsv[0] == ids.deep_view()[from as int]);
            assert(ids.deep_view()[from as int] == ids@[from as int].deep_view());
        }
        match crate::model::lookup(scope, &ids[from]) {
            Option::None => Err(SpliceError::UnresolvedEnumReference),
            Option::Some(at) => {
                match &scope[at] {
                    Decl::Other(_) => {
                        assert(sv[at as int] == scope@[at as int].deep_view());
                        Err(SpliceError::UnresolvedEnumReference)
                    },
                    Decl::Enum(src) => {
                        proof {
                            assert(sv[at as int] == scope@[at as int].deep_view());
                        }
                        match expand_enum(scope, src, fuel) {
                            Err(err) => Err(err),
                            Ok((enm, mut sub_absorbed)) => {
                                proof {
                                    assert(idsv.drop_first() =~= ids.deep_view().skip(
                                        from + 1 as int,
                                    ));
                                }
                                match expand_sources(scope, ids, from + 1, fuel) {
                                    Err(err) => Err(err),
                                    Ok((mut direct, mut absorbed)) => {
                                        let enm_again = crate::model::copy_enum(&enm);
                                        let ghost direct_prev = direct.deep_view();
                                        let ghost sub_prev = sub_absorbed.deep_view();
                                        let ghost abs_prev = absorbed.deep_view();
                                        direct.insert(0, enm);
                                        sub_absorbed.push(enm_again);
                                        sub_absorbed.append(&mut absorbed);
                                        proof {
                                            assert(direct.deep_view() =~~= seq![enm_again@]
                                                + direct_prev);
                                            assert(sub_absorbed.deep_view() =~~= sub_prev + seq![
                                                enm_again@,
                                            ] + abs_prev);
                                        }
                                        Ok((direct, sub_absorbed))
                                    },
                                }
                            },
                        }
                    },
                }
            },
        }
    }
}

/// Builds the conversion routines and warnings for a target, mirroring
/// `spec_routines` and `spec_warnings`.
fn build_routines(absorbed: &Vec<EnumDecl>, broad: &Vec<u8>) -> (r: (
    Vec<ConversionRoutine>,
    Vec<Warning>,
))
    ensures
        r.0.deep_view() == spec_routines(absorbed.deep_view(), broad@),
        r.1.deep_view() == spec_warnings(absorbed.deep_view(), broad@),
{
    let ghost adv = absorbed.deep_view();
    let mut routines: Vec<ConversionRoutine> = Vec::new();
    let mut warnings: Vec<Warning> = Vec::new();
    proof {
        assert(adv.take(0) =~= Seq::<EnumV>::empty());
        assert(routines.deep_view() =~~= spec_routines(adv.take(0), broad@));
        assert(warnings.deep_view() =~~= spec_warnings(adv.take(0), broad@));
    }
    let mut i: usize = 0;
    while i < absorbed.len()
        invariant
            i <= absorbed.len(),
            adv == absorbed.deep_view(),
            adv.len() == absorbed.len(),
            routines.deep_view() == spec_routines(adv.take(i as int), broad@),
            warnings.deep_view() == spec_warnings(adv.take(i as int), broad@),
        decreases absorbed.len() - i,
    {
        let src = &absorbed[i];
        proof {
            assert(adv[i as int] == absorbed@[i as int].deep_view());
        }
        let n2b = ConversionRoutine {
            narrow: crate::text::copy_bytes(&src.name),
            broad: crate::text::copy_bytes(broad),
            direction: Direction::NarrowToBroad,
            narrow_variants: crate::model::copy_variants(&src.variants),
            fallback: Option::None,
        };
        let ghost routines_prev = routines.deep_view();
        let ghost warnings_prev = warnings.deep_view();
        match &src.default_variant {
            Option::Some(d) => {
                let b2n = ConversionRoutine {
                    narrow: crate::text::copy_bytes(&src.name),
                    broad: crate::text::copy_bytes(broad),
                    direction: Direction::BroadToNarrow,
                    narrow_variants: crate::model::copy_variants(&src.variants),
                    fallback: Option::Some(crate::text::copy_bytes(d)),
                };
                let ghost n2bv = n2b@;
                let ghost b2nv = b2n@;
                routines.push(n2b);
                routines.push(b2n);
                proof {
                    assert(routines.deep_view() =~~= routines_prev + seq![n2bv, b2nv]);
                    assert(seq![n2bv, b2nv] =~~= routines_for(adv[i as int], broad@));
                }
            },
            Option::None => {
                let ghost n2bv = n2b@;
                routines.push(n2b);
                let w = Warning::MissingDefaultForNarrowConversion {
                    narrow: crate::text::copy_bytes(&src.name),
                    broad: crate::text::copy_bytes(broad),
                };
                let ghost wv = w@;
                warnings.push(w);
                proof {
                    assert(routines.deep_view() =~~= routines_prev + seq![n2bv]);
                    assert(seq![n2bv] =~~= routines_for(adv[i as int], broad@));
                    assert(warnings.deep_view() =~~= warnings_prev + seq![wv]);
                }
            },
        }
        proof {
            assert(adv.take(i + 1 as int).drop_last() =~= adv.take(i as int));
            assert(adv.take(i + 1 as int).last() == adv[i as int]);
        }
        i += 1;
    }
    proof {
        assert(adv.take(absorbed.len() as int) =~= adv);
    }
    (routines, warnings)
}

/// Expands one annotated target declaration against a compilation scope.
///
/// The result is exactly `spec_expand_target` of the scope's and target's
/// views: the rewritten declaration with the unioned variant list and the
/// conversion routines owed for every absorbed source, or the error that
/// aborts this expansion.
pub fn expand_target(scope: &Vec<Decl>, target: &Decl) -> (r: Result<Expansion, SpliceError>)
    requires
        scope.len() < usize::MAX,
    ensures
        match (r, spec_expand_target(scope.deep_view(), target@)) {
            (Ok(x), Ok(y)) => x@ == y,
            (Err(a), Err(b)) => a == b,
            _ => false,
        },
{
    match target {
        Decl::Other(_) => Err(SpliceError::NotAnEnum),
        Decl::Enum(e) => {
            match expand_enum(scope, e, scope.len() + 1) {
                Err(err) => Err(err),
                Ok((enm, absorbed)) => {
                    let (routines, warnings) = build_routines(&absorbed, &enm.name);
                    Ok(Expansion { decl: enm, routines, warnings })
                },
            }
        },
    }
}

} // verus!

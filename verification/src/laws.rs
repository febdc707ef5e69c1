//! What holds of every expansion: absorption, transitive unions, and
//! determinism, proved over the splicer's own definitions.

use vstd::prelude::*;

use crate::args::spec_parse_extends;
use crate::convert::spec_narrow_to_broad;
use crate::expand::Direction;
use crate::expand::RoutineV;
use crate::expand::SpliceError;
use crate::expand::concat_variants;
use crate::expand::routines_for;
use crate::expand::spec_expand_enum;
use crate::expand::spec_expand_sources;
use crate::expand::spec_expand_target;
use crate::expand::spec_routines;
use crate::model::DeclV;
use crate::model::EnumV;
use crate::model::VariantV;
use crate::model::has_dup_names;
use crate::model::has_variant;
use crate::model::spec_lookup;

verus! {

/// An enum with no extension request resolves to itself, absorbing nothing.
pub proof fn lemma_expand_plain(scope: Seq<DeclV>, e: EnumV, fuel: nat)
    requires
        e.extends_attr is None,
    ensures
        spec_expand_enum(scope, e, fuel) == Ok::<(EnumV, Seq<EnumV>), SpliceError>(
            (e, Seq::empty()),
        ),
{
}

/// An enum whose request names exactly one identifier, resolving to an enum
/// that merges cleanly, resolves to itself with that source's variants
/// spliced in front of its own.
pub proof fn lemma_expand_one_source(
    scope: Seq<DeclV>,
    e: EnumV,
    text: Seq<u8>,
    id: Seq<u8>,
    src: EnumV,
    merged_src: EnumV,
    sub_abs: Seq<EnumV>,
    fuel: nat,
)
    requires
        fuel >= 1,
        e.extends_attr == Some(text),
        spec_parse_extends(text) == Some(seq![id]),
        spec_lookup(scope, id) == Some(DeclV::Enum(src)),
        spec_expand_enum(scope, src, (fuel - 1) as nat) == Ok::<(EnumV, Seq<EnumV>), SpliceError>(
            (merged_src, sub_abs),
        ),
        !has_dup_names(merged_src.variants + e.variants),
    ensures
        spec_expand_enum(scope, e, fuel) == Ok::<(EnumV, Seq<EnumV>), SpliceError>(
            (
                EnumV {
                    name: e.name,
                    generics: e.generics,
                    derives: e.derives,
                    variants: merged_src.variants + e.variants,
                    default_variant: e.default_variant,
                    extends_attr: None,
                },
                sub_abs + seq![merged_src],
            ),
        ),
{
    let ids = seq![id];
    assert(ids.drop_first() =~= Seq::<Seq<u8>>::empty());
    assert(spec_expand_sources(scope, ids.drop_first(), (fuel - 1) as nat) == Ok::<
        (Seq<EnumV>, Seq<EnumV>),
        SpliceError,
    >((Seq::empty(), Seq::empty())));
    let direct = seq![merged_src] + Seq::<EnumV>::empty();
    let absorbed = sub_abs + seq![merged_src] + Seq::<EnumV>::empty();
    assert(spec_expand_sources(scope, ids, (fuel - 1) as nat) == Ok::<
        (Seq<EnumV>, Seq<EnumV>),
        SpliceError,
    >((direct, absorbed)));
    assert(direct =~= seq![merged_src]);
    assert(absorbed =~= sub_abs + seq![merged_src]);
    assert(direct.drop_last() =~= Seq::<EnumV>::empty());
    assert(concat_variants(Seq::<EnumV>::empty()) =~= Seq::<VariantV>::empty());
    assert(concat_variants(direct) =~= merged_src.variants);
    assert(concat_variants(direct) + e.variants =~= merged_src.variants + e.variants);
}

/// Absorption: when `b` extends `a` and the merge is collision-free, every
/// variant of `a` stands in `b`'s final variant list — the list is exactly
/// `a`'s variants followed by `b`'s own — and the generated narrow-to-broad
/// routine maps each variant of `a` to the identically-named final variant.
pub proof fn lemma_extension_absorbs_narrow(a: EnumV, b: EnumV, text: Seq<u8>)
    requires
        a.extends_attr is None,
        b.extends_attr == Some(text),
        spec_parse_extends(text) == Some(seq![a.name]),
        !has_dup_names(a.variants + b.variants),
    ensures
        ({
            let scope = seq![DeclV::Enum(a), DeclV::Enum(b)];
            let r = spec_expand_target(scope, DeclV::Enum(b));
            &&& r is Ok
            &&& r->Ok_0.decl.variants == a.variants + b.variants
            &&& forall|i: int|
                0 <= i < a.variants.len() ==> r->Ok_0.decl.variants[i] == a.variants[i]
            &&& r->Ok_0.routines == routines_for(a, b.name)
            &&& r->Ok_0.routines.len() >= 1
            &&& r->Ok_0.routines[0] == (RoutineV {
                narrow: a.name,
                broad: b.name,
                direction: Direction::NarrowToBroad,
                narrow_variants: a.variants,
                fallback: None,
            })
            &&& forall|v: Seq<u8>|
                has_variant(a.variants, v) ==> spec_narrow_to_broad(r->Ok_0.routines[0], v)
                    == Some(v)
        }),
{
    let scope = seq![DeclV::Enum(a), DeclV::Enum(b)];
    assert(scope[0].decl_name() == a.name);
    assert(spec_lookup(scope, a.name) == Some(DeclV::Enum(a)));
    lemma_expand_plain(scope, a, (scope.len() - 1) as nat);
    lemma_expand_one_source(
        scope,
        b,
        text,
        a.name,
        a,
        a,
        Seq::empty(),
        (scope.len() + 1) as nat,
    );
    let absorbed = Seq::<EnumV>::empty() + seq![a];
    assert(absorbed =~= seq![a]);
    assert(absorbed.drop_last() =~= Seq::<EnumV>::empty());
    assert(spec_routines(Seq::<EnumV>::empty(), b.name) =~= Seq::<RoutineV>::empty());
    assert(spec_routines(absorbed, b.name) =~= Seq::<RoutineV>::empty() + routines_for(a, b.name));
    assert(spec_routines(absorbed, b.name)[0] == routines_for(a, b.name)[0]);
}

/// A collision-free merge of a prefix stays collision-free when the whole
/// list is.
proof fn lemma_dup_free_prefix(head: Seq<VariantV>, tail: Seq<VariantV>)
    requires
        !has_dup_names(head + tail),
    ensures
        !has_dup_names(head),
{
    if has_dup_names(head) {
        let (i, j) = choose|i: int, j: int|
            0 <= i < j < head.len() && head[i].name == head[j].name;
        assert((head + tail)[i] == head[i]);
        assert((head + tail)[j] == head[j]);
        assert(has_dup_names(head + tail));
    }
}

/// Transitive union: in a chain where `b` extends `a` and `c` extends `b`,
/// all collision-free, `c`'s final variant list is exactly the union of the
/// three original lists, without duplicates, in the order
/// [`a`'s variants][`b`'s own variants][`c`'s own variants].
pub proof fn lemma_chain_union(a: EnumV, b: EnumV, c: EnumV, text_b: Seq<u8>, text_c: Seq<u8>)
    requires
        a.extends_attr is None,
        b.extends_attr == Some(text_b),
        c.extends_attr == Some(text_c),
        spec_parse_extends(text_b) == Some(seq![a.name]),
        spec_parse_extends(text_c) == Some(seq![b.name]),
        a.name != b.name,
        !has_dup_names(a.variants + b.variants + c.variants),
    ensures
        ({
            let scope = seq![DeclV::Enum(a), DeclV::Enum(b), DeclV::Enum(c)];
            let r = spec_expand_target(scope, DeclV::Enum(c));
            &&& r is Ok
            &&& r->Ok_0.decl.name == c.name
            &&& r->Ok_0.decl.variants == a.variants + b.variants + c.variants
            &&& !has_dup_names(r->Ok_0.decl.variants)
        }),
{
    let scope = seq![DeclV::Enum(a), DeclV::Enum(b), DeclV::Enum(c)];
    let fuel = (scope.len() + 1) as nat;
    assert(scope[0].decl_name() == a.name);
    assert(spec_lookup(scope, a.name) == Some(DeclV::Enum(a)));
    assert(scope.drop_first() =~= seq![DeclV::Enum(b), DeclV::Enum(c)]);
    assert(spec_lookup(seq![DeclV::Enum(b), DeclV::Enum(c)], b.name) == Some(DeclV::Enum(b)));
    assert(spec_lookup(scope, b.name) == Some(DeclV::Enum(b)));
    lemma_expand_plain(scope, a, (fuel - 2) as nat);
    lemma_dup_free_prefix(a.variants + b.variants, c.variants);
    lemma_expand_one_source(scope, b, text_b, a.name, a, a, Seq::empty(), (fuel - 1) as nat);
    let b_merged = EnumV {
        name: b.name,
        generics: b.generics,
        derives: b.derives,
        variants: a.variants + b.variants,
        default_variant: b.default_variant,
        extends_attr: None,
    };
    assert(Seq::<EnumV>::empty() + seq![a] =~= seq![a]);
    assert((a.variants + b.variants) + c.variants =~= a.variants + b.variants + c.variants);
    lemma_expand_one_source(scope, c, text_c, b.name, b, b_merged, seq![a], fuel);
}

/// Determinism: expansion and rendering are functions of the declarations
/// alone — equal scopes and equal targets yield equal results, down to
/// byte-identical generated output.
pub proof fn lemma_expansion_deterministic(
    scope1: Seq<DeclV>,
    scope2: Seq<DeclV>,
    t1: DeclV,
    t2: DeclV,
)
    requires
        scope1 == scope2,
        t1 == t2,
    ensures
        spec_expand_target(scope1, t1) == spec_expand_target(scope2, t2),
        spec_expand_target(scope1, t1) is Ok ==> crate::emit::spec_render_expansion(
            spec_expand_target(scope1, t1)->Ok_0,
        ) == crate::emit::spec_render_expansion(spec_expand_target(scope2, t2)->Ok_0),
{
}

} // verus!

//! Rendering the expansion into source text.
//!
//! The output replaces the annotated declaration: the rewritten enum, then
//! one `From` impl per conversion routine. Rendering is a function of the
//! expansion alone, so identical declarations always yield byte-identical
//! output.

use vstd::prelude::*;

use crate::expand::Direction;
use crate::expand::Expansion;
use crate::expand::ExpansionV;
use crate::expand::ConversionRoutine;
use crate::expand::RoutineV;
use crate::model::EnumDecl;
use crate::model::EnumV;
use crate::model::FieldV;
use crate::model::PayloadV;
use crate::model::VariantSpec;
use crate::model::VariantV;
use crate::text::lit_bytes;
use crate::text::push_bytes;
use crate::text::push_lit;

verus! {

broadcast use crate::model::lemma_bytes_deep_view;

/// The decimal digits of `n`.
pub open spec fn spec_dec(n: nat) -> Seq<u8>
    decreases n,
{
    if n < 10 {
        seq![(48 + n) as u8]
    } else {
        spec_dec(n / 10).push((48 + n % 10) as u8)
    }
}

/// Appends the decimal digits of `n`.
pub fn push_dec(out: &mut Vec<u8>, n: usize)
    ensures
        final(out)@ == old(out)@ + spec_dec(n as nat),
    decreases n,
{
    if n < 10 {
        out.push((48 + n) as u8);
        assert(out@ =~= old(out)@ + spec_dec(n as nat));
    } else {
        push_dec(out, n / 10);
        out.push((48 + (n % 10)) as u8);
        assert((n / 10) as nat == n as nat / 10);
        assert(out@ =~= old(out)@ + spec_dec(n as nat));
    }
}

/// The items joined by the separator: `a`, `a, b`, `a, b, c`, ...
pub open spec fn spec_join(items: Seq<Seq<u8>>, sep: Seq<u8>) -> Seq<u8>
    decreases items.len(),
{
    if items.len() == 0 {
        Seq::empty()
    } else if items.len() == 1 {
        items[0]
    } else {
        spec_join(items.drop_last(), sep) + sep + items.last()
    }
}

/// Appends the items joined by the separator.
pub fn push_join(out: &mut Vec<u8>, items: &Vec<Vec<u8>>, sep: &str)
    ensures
        final(out)@ == old(out)@ + spec_join(items.deep_view(), lit_bytes(sep)),
{
    let ghost dv = items.deep_view();
    proof {
        assert(dv.take(0) =~= Seq::<Seq<u8>>::empty());
        assert(old(out)@ + Seq::<u8>::empty() =~= old(out)@);
    }
    let mut i: usize = 0;
    while i < items.len()
        invariant
            i <= items.len(),
            dv == items.deep_view(),
            dv.len() == items.len(),
            out@ == old(out)@ + spec_join(dv.take(i as int), lit_bytes(sep)),
        decreases items.len() - i,
    {
        if i > 0 {
            push_lit(out, sep);
        }
        push_bytes(out, &items[i]);
        proof {
            assert(dv.take(i + 1 as int).drop_last() =~= dv.take(i as int));
            assert(dv.take(i + 1 as int).last() == dv[i as int]);
            if i == 0 {
                assert(dv.take(1)[0] == dv[0]);
                assert(old(out)@ + Seq::<u8>::empty() + dv[0] =~= old(out)@ + dv.take(1)[0]);
            }
            assert(out@ =~= old(out)@ + spec_join(dv.take(i + 1 as int), lit_bytes(sep)));
        }
        i += 1;
    }
    proof {
        assert(dv.take(items.len() as int) =~= dv);
    }
}

/// The positional binder names `a0`, `a1`, ... used in generated match arms
/// for tuple payloads.
pub open spec fn spec_binders(n: nat) -> Seq<Seq<u8>>
    decreases n,
{
    if n == 0 {
        Seq::empty()
    } else {
        spec_binders((n - 1) as nat).push(lit_bytes("a") + spec_dec((n - 1) as nat))
    }
}

/// The binder names for a tuple payload of the given arity.
fn make_binders(n: usize) -> (r: Vec<Vec<u8>>)
    ensures
        r.deep_view() == spec_binders(n as nat),
{
    let mut r: Vec<Vec<u8>> = Vec::new();
    proof {
        assert(r.deep_view() =~~= spec_binders(0));
    }
    let mut i: usize = 0;
    while i < n
        invariant
            i <= n,
            r.deep_view() == spec_binders(i as nat),
        decreases n - i,
    {
        let mut b: Vec<u8> = Vec::new();
        push_lit(&mut b, "a");
        push_dec(&mut b, i);
        let ghost prev = r.deep_view();
        r.push(b);
        proof {
            assert(r.deep_view() =~~= prev.push(lit_bytes("a") + spec_dec(i as nat)));
        }
        i += 1;
    }
    r
}

/// The texts `name: ty` of a record payload's fields.
pub open spec fn spec_field_texts(fields: Seq<FieldV>) -> Seq<Seq<u8>>
    decreases fields.len(),
{
    if fields.len() == 0 {
        Seq::empty()
    } else {
        spec_field_texts(fields.drop_last()).push(
            fields.last().name + lit_bytes(": ") + fields.last().ty,
        )
    }
}

/// The names of a record payload's fields.
pub open spec fn spec_field_names(fields: Seq<FieldV>) -> Seq<Seq<u8>>
    decreases fields.len(),
{
    if fields.len() == 0 {
        Seq::empty()
    } else {
        spec_field_names(fields.drop_last()).push(fields.last().name)
    }
}

/// What a variant's payload adds to its declaration: nothing, `(T, U)`, or
/// `{ f: T, g: U }`.
pub open spec fn spec_payload_decl(p: PayloadV) -> Seq<u8> {
    match p {
        PayloadV::Unit => Seq::empty(),
        PayloadV::Tuple(tys) => lit_bytes("(") + spec_join(tys, lit_bytes(", ")) + lit_bytes(")"),
        PayloadV::Record(fields) => lit_bytes(" { ") + spec_join(
            spec_field_texts(fields),
            lit_bytes(", "),
        ) + lit_bytes(" }"),
    }
}

/// What a variant's payload adds to a match pattern and to the rebuilt
/// value: nothing, `(a0, a1)`, or `{ f, g }`.
pub open spec fn spec_payload_pat(p: PayloadV) -> Seq<u8> {
    match p {
        PayloadV::Unit => Seq::empty(),
        PayloadV::Tuple(tys) => lit_bytes("(") + spec_join(spec_binders(tys.len()), lit_bytes(", "))
            + lit_bytes(")"),
        PayloadV::Record(fields) => lit_bytes(" { ") + spec_join(
            spec_field_names(fields),
            lit_bytes(", "),
        ) + lit_bytes(" }"),
    }
}

/// One variant line of the rewritten declaration.
pub open spec fn spec_variant_line(v: VariantV) -> Seq<u8> {
    lit_bytes("    ") + v.name + spec_payload_decl(v.payload) + lit_bytes(",\n")
}

/// The variant lines of the rewritten declaration.
pub open spec fn spec_variant_lines(vs: Seq<VariantV>) -> Seq<u8>
    decreases vs.len(),
{
    if vs.len() == 0 {
        Seq::empty()
    } else {
        spec_variant_lines(vs.drop_last()) + spec_variant_line(vs.last())
    }
}

/// The `#[derive(...)]` line, when the declaration carries derives.
pub open spec fn spec_derives_part(derives: Seq<Seq<u8>>) -> Seq<u8> {
    if derives.len() == 0 {
        Seq::empty()
    } else {
        lit_bytes("#[derive(") + spec_join(derives, lit_bytes(", ")) + lit_bytes(")]\n")
    }
}

/// The `<...>` generic parameter list, when the declaration carries one.
pub open spec fn spec_generics_part(generics: Seq<Seq<u8>>) -> Seq<u8> {
    if generics.len() == 0 {
        Seq::empty()
    } else {
        lit_bytes("<") + spec_join(generics, lit_bytes(", ")) + lit_bytes(">")
    }
}

/// The rewritten enum declaration.
pub open spec fn spec_render_enum(e: EnumV) -> Seq<u8> {
    spec_derives_part(e.derives) + lit_bytes("enum ") + e.name + spec_generics_part(e.generics)
        + lit_bytes(" {\n") + spec_variant_lines(e.variants) + lit_bytes("}\n")
}

/// One match arm of a conversion routine: the variant of `from_enum` named
/// like `v` maps to the identically-named `Self` variant, payload passed
/// through unchanged.
pub open spec fn spec_arm(from_enum: Seq<u8>, v: VariantV) -> Seq<u8> {
    lit_bytes("            ") + from_enum + lit_bytes("::") + v.name + spec_payload_pat(v.payload)
        + lit_bytes(" => Self::") + v.name + spec_payload_pat(v.payload) + lit_bytes(",\n")
}

/// The match arms of a conversion routine.
pub open spec fn spec_arms(from_enum: Seq<u8>, vs: Seq<VariantV>) -> Seq<u8>
    decreases vs.len(),
{
    if vs.len() == 0 {
        Seq::empty()
    } else {
        spec_arms(from_enum, vs.drop_last()) + spec_arm(from_enum, vs.last())
    }
}

/// The fallback arm of a broad-to-narrow routine: every other broad variant
/// maps to the designated default variant.
pub open spec fn spec_fallback_arm(fallback: Option<Seq<u8>>) -> Seq<u8> {
    match fallback {
        Option::Some(d) => lit_bytes("            _ => Self::") + d + lit_bytes(",\n"),
        Option::None => Seq::empty(),
    }
}

/// One generated `From` impl.
pub open spec fn spec_render_routine(r: RoutineV) -> Seq<u8> {
    let (from_enum, to_enum) = match r.direction {
        Direction::NarrowToBroad => (r.narrow, r.broad),
        Direction::BroadToNarrow => (r.broad, r.narrow),
    };
    let body = match r.direction {
        Direction::NarrowToBroad => spec_arms(from_enum, r.narrow_variants),
        Direction::BroadToNarrow => spec_arms(from_enum, r.narrow_variants) + spec_fallback_arm(
            r.fallback,
        ),
    };
    lit_bytes("impl From<") + from_enum + lit_bytes("> for ") + to_enum + lit_bytes(
        " {\n    fn from(value: ",
    ) + from_enum + lit_bytes(") -> Self {\n        match value {\n") + body + lit_bytes(
        "        }\n    }\n}\n",
    )
}

/// The generated `From` impls, one per routine, in order.
pub open spec fn spec_render_routines(rs: Seq<RoutineV>) -> Seq<u8>
    decreases rs.len(),
{
    if rs.len() == 0 {
        Seq::empty()
    } else {
        spec_render_routines(rs.drop_last()) + spec_render_routine(rs.last())
    }
}

/// Everything one expansion emits, as source text: the rewritten
/// declaration, then the conversion routines.
pub open spec fn spec_render_expansion(x: ExpansionV) -> Seq<u8> {
    spec_render_enum(x.decl) + spec_render_routines(x.routines)
}

/// Appends a variant's payload as it stands in the declaration.
fn push_payload_decl(out: &mut Vec<u8>, p: &crate::model::PayloadShape)
    ensures
        final(out)@ == old(out)@ + spec_payload_decl(p@),
{
    match p {
        crate::model::PayloadShape::Unit => {
            assert(out@ =~= old(out)@ + Seq::<u8>::empty());
        },
        crate::model::PayloadShape::Tuple(tys) => {
            push_lit(out, "(");
            push_join(out, tys, ", ");
            push_lit(out, ")");
            assert(out@ =~= old(out)@ + spec_payload_decl(p@));
        },
        crate::model::PayloadShape::Record(fields) => {
            let mut texts: Vec<Vec<u8>> = Vec::new();
            proof {
                assert(texts.deep_view() =~~= spec_field_texts(fields.deep_view().take(0)));
            }
            let mut i: usize = 0;
            while i < fields.len()
                invariant
                    i <= fields.len(),
                    texts.deep_view() == spec_field_texts(fields.deep_view().take(i as int)),
                decreases fields.len() - i,
            {
                let ghost fdv = fields.deep_view();
                let mut t: Vec<u8> = Vec::new();
                push_bytes(&mut t, &fields[i].name);
                push_lit(&mut t, ": ");
                push_bytes(&mut t, &fields[i].ty);
                let ghost prev = texts.deep_view();
                texts.push(t);
                proof {
                    assert(fdv[i as int] == fields@[i as int].deep_view());
                    assert(fdv.take(i + 1 as int).drop_last() =~= fdv.take(i as int));
                    assert(fdv.take(i + 1 as int).last() == fdv[i as int]);
                    assert(texts.deep_view() =~~= prev.push(
                        fdv[i as int].name + lit_bytes(": ") + fdv[i as int].ty,
                    ));
                }
                i += 1;
            }
            proof {
                assert(fields.deep_view().take(fields.len() as int) =~= fields.deep_view());
            }
            push_lit(out, " { ");
            push_join(out, &texts, ", ");
            push_lit(out, " }");
            assert(out@ =~= old(out)@ + spec_payload_decl(p@));
        },
    }
}

/// Appends a variant's payload as it stands in a match pattern.
fn push_payload_pat(out: &mut Vec<u8>, p: &crate::model::PayloadShape)
    ensures
        final(out)@ == old(out)@ + spec_payload_pat(p@),
{
    match p {
        crate::model::PayloadShape::Unit => {
            assert(out@ =~= old(out)@ + Seq::<u8>::empty());
        },
        crate::model::PayloadShape::Tuple(tys) => {
            let binders = make_binders(tys.len());
            push_lit(out, "(");
            push_join(out, &binders, ", ");
            push_lit(out, ")");
            assert(out@ =~= old(out)@ + spec_payload_pat(p@));
        },
        crate::model::PayloadShape::Record(fields) => {
            let mut names: Vec<Vec<u8>> = Vec::new();
            proof {
                assert(names.deep_view() =~~= spec_field_names(fields.deep_view().take(0)));
            }
            let mut i: usize = 0;
            while i < fields.len()
                invariant
                    i <= fields.len(),
                    names.deep_view() == spec_field_names(fields.deep_view().take(i as int)),
                decreases fields.len() - i,
            {
                let ghost fdv = fields.deep_view();
                let ghost prev = names.deep_view();
                names.push(crate::text::copy_bytes(&fields[i].name));
                proof {
                    assert(fdv[i as int] == fields@[i as int].deep_view());
                    assert(fdv.take(i + 1 as int).drop_last() =~= fdv.take(i as int));
                    assert(fdv.take(i + 1 as int).last() == fdv[i as int]);
                    assert(names.deep_view() =~~= prev.push(fdv[i as int].name));
                }
                i += 1;
            }
            proof {
                assert(fields.deep_view().take(fields.len() as int) =~= fields.deep_view());
            }
            push_lit(out, " { ");
            push_join(out, &names, ", ");
            push_lit(out, " }");
            assert(out@ =~= old(out)@ + spec_payload_pat(p@));
        },
    }
}

/// Appends the `#[derive(...)]` line, when there is one.
fn push_derives_part(out: &mut Vec<u8>, derives: &Vec<Vec<u8>>)
    ensures
        final(out)@ == old(out)@ + spec_derives_part(derives.deep_view()),
{
    if derives.len() > 0 {
        push_lit(out, "#[derive(");
        push_join(out, derives, ", ");
        push_lit(out, ")]\n");
        assert(out@ =~= old(out)@ + spec_derives_part(derives.deep_view()));
    } else {
        assert(out@ =~= old(out)@ + spec_derives_part(derives.deep_view()));
    }
}

/// Appends the `<...>` generic parameter list, when there is one.
fn push_generics_part(out: &mut Vec<u8>, generics: &Vec<Vec<u8>>)
    ensures
        final(out)@ == old(out)@ + spec_generics_part(generics.deep_view()),
{
    if generics.len() > 0 {
        push_lit(out, "<");
        push_join(out, generics, ", ");
        push_lit(out, ">");
        assert(out@ =~= old(out)@ + spec_generics_part(generics.deep_view()));
    } else {
        assert(out@ =~= old(out)@ + spec_generics_part(generics.deep_view()));
    }
}

/// Appends one variant line of the rewritten declaration.
fn push_variant_line(out: &mut Vec<u8>, v: &VariantSpec)
    ensures
        final(out)@ == old(out)@ + spec_variant_line(v@),
{
    push_lit(out, "    ");
    push_bytes(out, &v.name);
    push_payload_decl(out, &v.payload);
    push_lit(out, ",\n");
    assert(out@ =~= old(out)@ + spec_variant_line(v@));
}

/// Appends the variant lines of the rewritten declaration.
fn push_variant_lines(out: &mut Vec<u8>, vs: &Vec<VariantSpec>)
    ensures
        final(out)@ == old(out)@ + spec_variant_lines(vs.deep_view()),
{
    let ghost vdv = vs.deep_view();
    proof {
        assert(out@ =~= old(out)@ + Seq::<u8>::empty());
    }
    let mut i: usize = 0;
    while i < vs.len()
        invariant
            i <= vs.len(),
            vdv == vs.deep_view(),
            vdv.len() == vs.len(),
            out@ == old(out)@ + spec_variant_lines(vdv.take(i as int)),
        decreases vs.len() - i,
    {
        push_variant_line(out, &vs[i]);
        proof {
            assert(vdv[i as int] == vs@[i as int].deep_view());
            assert(vdv.take(i + 1 as int).drop_last() =~= vdv.take(i as int));
            assert(vdv.take(i + 1 as int).last() == vdv[i as int]);
            assert(out@ =~= old(out)@ + spec_variant_lines(vdv.take(i + 1 as int)));
        }
        i += 1;
    }
    proof {
        assert(vdv.take(vs.len() as int) =~= vdv);
    }
}

/// Appends the rewritten enum declaration.
#[verifier::rlimit(50)]
pub fn render_enum(out: &mut Vec<u8>, e: &EnumDecl)
    ensures
        final(out)@ == old(out)@ + spec_render_enum(e@),
{
    push_derives_part(out, &e.derives);
    push_lit(out, "enum ");
    push_bytes(out, &e.name);
    push_generics_part(out, &e.generics);
    push_lit(out, " {\n");
    push_variant_lines(out, &e.variants);
    push_lit(out, "}\n");
    assert(out@ =~= old(out)@ + spec_render_enum(e@));
}

/// Appends one match arm mapping a variant of `from_enum` to the
/// identically-named `Self` variant.
fn push_arm(out: &mut Vec<u8>, from_enum: &Vec<u8>, v: &VariantSpec)
    ensures
        final(out)@ == old(out)@ + spec_arm(from_enum@, v@),
{
    push_lit(out, "            ");
    push_bytes(out, from_enum);
    push_lit(out, "::");
    push_bytes(out, &v.name);
    push_payload_pat(out, &v.payload);
    push_lit(out, " => Self::");
    push_bytes(out, &v.name);
    push_payload_pat(out, &v.payload);
    push_lit(out, ",\n");
    assert(out@ =~= old(out)@ + spec_arm(from_enum@, v@));
}

/// Appends the match arms mapping each variant of `from_enum` to the
/// identically-named `Self` variant.
fn push_arms(out: &mut Vec<u8>, from_enum: &Vec<u8>, vs: &Vec<VariantSpec>)
    ensures
        final(out)@ == old(out)@ + spec_arms(from_enum@, vs.deep_view()),
{
    let ghost vdv = vs.deep_view();
    proof {
        assert(out@ =~= old(out)@ + Seq::<u8>::empty());
    }
    let mut i: usize = 0;
    while i < vs.len()
        invariant
            i <= vs.len(),
            vdv == vs.deep_view(),
            vdv.len() == vs.len(),
            out@ == old(out)@ + spec_arms(from_enum@, vdv.take(i as int)),
        decreases vs.len() - i,
    {
        push_arm(out, from_enum, &vs[i]);
        proof {
            assert(vdv[i as int] == vs@[i as int].deep_view());
            assert(vdv.take(i + 1 as int).drop_last() =~= vdv.take(i as int));
            assert(vdv.take(i + 1 as int).last() == vdv[i as int]);
            assert(out@ =~= old(out)@ + spec_arms(from_enum@, vdv.take(i + 1 as int)));
        }
        i += 1;
    }
    proof {
        assert(vdv.take(vs.len() as int) =~= vdv);
    }
}

/// Appends one generated `From` impl.
#[verifier::rlimit(50)]
pub fn render_routine(out: &mut Vec<u8>, r: &ConversionRoutine)
    ensures
        final(out)@ == old(out)@ + spec_render_routine(r@),
{
    let (from_enum, to_enum) = match r.direction {
        Direction::NarrowToBroad => (&r.narrow, &r.broad),
        Direction::BroadToNarrow => (&r.broad, &r.narrow),
    };
    push_lit(out, "impl From<");
    push_bytes(out, from_enum);
    push_lit(out, "> for ");
    push_bytes(out, to_enum);
    push_lit(out, " {\n    fn from(value: ");
    push_bytes(out, from_enum);
    push_lit(out, ") -> Self {\n        match value {\n");
    push_arms(out, from_enum, &r.narrow_variants);
    let ghost mid = out@;
    match r.direction {
        Direction::NarrowToBroad => {},
        Direction::BroadToNarrow => {
            match &r.fallback {
                Option::Some(d) => {
                    push_lit(out, "            _ => Self::");
                    push_bytes(out, d);
                    push_lit(out, ",\n");
                },
                Option::None => {},
            }
            assert(out@ =~= mid + spec_fallback_arm(r@.fallback));
        },
    }
    push_lit(out, "        }\n    }\n}\n");
    assert(out@ =~= old(out)@ + spec_render_routine(r@));
}

/// Renders everything one expansion emits: the rewritten declaration, then
/// the conversion routines, in order.
pub fn render_expansion(x: &Expansion) -> (r: Vec<u8>)
    ensures
        r@ == spec_render_expansion(x@),
{
    let mut out: Vec<u8> = Vec::new();
    render_enum(&mut out, &x.decl);
    let ghost mid = out@;
    let ghost rdv = x.routines.deep_view();
    proof {
        assert(mid =~= mid + Seq::<u8>::empty());
    }
    let mut i: usize = 0;
    while i < x.routines.len()
        invariant
            i <= x.routines.len(),
            rdv == x.routines.deep_view(),
            rdv.len() == x.routines.len(),
            out@ == mid + spec_render_routines(rdv.take(i as int)),
        decreases x.routines.len() - i,
    {
        render_routine(&mut out, &x.routines[i]);
        proof {
            assert(rdv[i as int] == x.routines@[i as int].deep_view());
            assert(rdv.take(i + 1 as int).drop_last() =~= rdv.take(i as int));
            assert(rdv.take(i + 1 as int).last() == rdv[i as int]);
            assert(out@ =~= mid + spec_render_routines(rdv.take(i + 1 as int)));
        }
        i += 1;
    }
    proof {
        assert(rdv.take(x.routines.len() as int) =~= rdv);
        assert(out@ =~= spec_render_expansion(x@));
    }
    out
}

} // verus!

//! What the generated conversion routines do to runtime values.
//!
//! A runtime value of an enum is identified here by its variant's name; a
//! payload, if any, is passed through unchanged by every routine, so the
//! name determines the mapping completely.

use vstd::prelude::*;

use crate::expand::ConversionRoutine;
use crate::expand::Direction;
use crate::expand::RoutineV;
use crate::expand::routines_for;
use crate::model::EnumV;
use crate::model::has_variant;

verus! {

broadcast use crate::model::lemma_bytes_deep_view;

/// What the narrow-to-broad routine returns for the variant named `v`: the
/// identically-named broad variant. The mapping is total over the narrow
/// enum's variants; `None` stands only for a name that is no variant of the
/// narrow enum at all.
pub open spec fn spec_narrow_to_broad(r: RoutineV, v: Seq<u8>) -> Option<Seq<u8>> {
    if has_variant(r.narrow_variants, v) {
        Some(v)
    } else {
        None
    }
}

/// What the broad-to-narrow routine returns for the broad variant named `v`:
/// the identically-named narrow variant when the name came from this narrow
/// enum, the designated default variant for every other broad variant.
pub open spec fn spec_broad_to_narrow(r: RoutineV, v: Seq<u8>) -> Seq<u8>
    recommends
        r.fallback is Some,
{
    if has_variant(r.narrow_variants, v) {
        v
    } else {
        r.fallback.unwrap()
    }
}

/// Carries the narrow variant named `v` into the broad enum.
pub fn narrow_to_broad(r: &ConversionRoutine, v: &Vec<u8>) -> (res: Option<Vec<u8>>)
    ensures
        res.deep_view() == spec_narrow_to_broad(r@, v@),
{
    if crate::model::find_variant(&r.narrow_variants, v) {
        Some(crate::text::copy_bytes(v))
    } else {
        None
    }
}

/// Carries the broad variant named `v` back into the narrow enum.
pub fn broad_to_narrow(r: &ConversionRoutine, v: &Vec<u8>) -> (res: Vec<u8>)
    requires
        r@.fallback is Some,
    ensures
        res@ == spec_broad_to_narrow(r@, v@),
{
    if crate::model::find_variant(&r.narrow_variants, v) {
        crate::text::copy_bytes(v)
    } else {
        match &r.fallback {
            Option::Some(d) => crate::text::copy_bytes(d),
            Option::None => {
                assert(false);
                crate::text::copy_bytes(v)
            },
        }
    }
}

/// Round trip: a variant of the narrow enum, carried into the broad enum by
/// the generated narrow-to-broad routine and back by the generated
/// broad-to-narrow routine, returns unchanged — whenever the narrow enum
/// designates a default variant, so that the broad-to-narrow routine is
/// generated at all.
pub proof fn lemma_round_trip(src: EnumV, broad: Seq<u8>, v: Seq<u8>)
    requires
        src.default_variant is Some,
        has_variant(src.variants, v),
    ensures
        routines_for(src, broad).len() == 2,
        routines_for(src, broad)[0].direction == Direction::NarrowToBroad,
        routines_for(src, broad)[1].direction == Direction::BroadToNarrow,
        spec_narrow_to_broad(routines_for(src, broad)[0], v) == Some(v),
        spec_broad_to_narrow(routines_for(src, broad)[1], v) == v,
{
}

} // verus!

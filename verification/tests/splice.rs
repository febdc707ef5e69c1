use enum_extend::convert::{broad_to_narrow, narrow_to_broad};
use enum_extend::expand::{expand_target, Direction, SpliceError, Warning};
use enum_extend::model::{Decl, EnumDecl, PayloadShape, VariantSpec};

fn v(name: &str) -> VariantSpec {
    VariantSpec { name: name.as_bytes().to_vec(), payload: PayloadShape::Unit }
}

fn enum_decl(
    name: &str,
    variants: &[&str],
    default_variant: Option<&str>,
    extends_attr: Option<&str>,
) -> EnumDecl {
    EnumDecl {
        name: name.as_bytes().to_vec(),
        generics: vec![],
        derives: vec![],
        variants: variants.iter().map(|n| v(n)).collect(),
        default_variant: default_variant.map(|d| d.as_bytes().to_vec()),
        extends_attr: extends_attr.map(|t| t.as_bytes().to_vec()),
    }
}

fn variant_names(e: &EnumDecl) -> Vec<String> {
    e.variants.iter().map(|s| String::from_utf8(s.name.clone()).unwrap()).collect()
}

#[test]
fn extension_absorbs_narrow_variants() {
    let a = enum_decl("A", &["A1", "A2"], Some("A1"), None);
    let b = enum_decl("B", &["B1", "B2", "B3"], None, Some("(A,)"));
    let scope = vec![Decl::Enum(a), Decl::Enum(b.clone())];
    let out = expand_target(&scope, &Decl::Enum(b)).unwrap();
    assert_eq!(variant_names(&out.decl), ["A1", "A2", "B1", "B2", "B3"]);
    assert_eq!(out.decl.extends_attr, None);
    assert_eq!(out.decl.name, b"B".to_vec());
    assert_eq!(out.routines.len(), 2);
    assert_eq!(out.routines[0].direction, Direction::NarrowToBroad);
    assert_eq!(out.routines[0].narrow, b"A".to_vec());
    assert_eq!(out.routines[0].broad, b"B".to_vec());
    assert_eq!(out.routines[0].fallback, None);
    assert_eq!(out.routines[1].direction, Direction::BroadToNarrow);
    assert_eq!(out.routines[1].fallback, Some(b"A1".to_vec()));
    assert!(out.warnings.is_empty());
}

#[test]
fn chain_union_in_declared_order() {
    let a = enum_decl("A", &["A1", "A2"], None, None);
    let b = enum_decl("B", &["B1", "B2", "B3"], None, Some("(A,)"));
    let c = enum_decl("C", &["C1", "C2", "C3"], None, Some("(B,)"));
    let scope = vec![Decl::Enum(a), Decl::Enum(b), Decl::Enum(c.clone())];
    let out = expand_target(&scope, &Decl::Enum(c)).unwrap();
    assert_eq!(variant_names(&out.decl), ["A1", "A2", "B1", "B2", "B3", "C1", "C2", "C3"]);
    // absorbed sources in resolution order: A first, then the merged B
    assert_eq!(out.routines.len(), 2);
    assert_eq!(out.routines[0].narrow, b"A".to_vec());
    assert_eq!(out.routines[0].broad, b"C".to_vec());
    assert_eq!(out.routines[0].narrow_variants.len(), 2);
    assert_eq!(out.routines[1].narrow, b"B".to_vec());
    assert_eq!(out.routines[1].narrow_variants.len(), 5);
    assert_eq!(out.warnings.len(), 2);
}

#[test]
fn two_sources_in_listed_order() {
    let a = enum_decl("A", &["A1", "A2"], None, None);
    let b = enum_decl("B", &["B1"], None, None);
    let c = enum_decl("C", &["C1"], None, Some("(A, B)"));
    let scope = vec![Decl::Enum(a), Decl::Enum(b), Decl::Enum(c.clone())];
    let out = expand_target(&scope, &Decl::Enum(c)).unwrap();
    assert_eq!(variant_names(&out.decl), ["A1", "A2", "B1", "C1"]);
    assert_eq!(out.routines.len(), 2);
    assert_eq!(out.routines[0].narrow, b"A".to_vec());
    assert_eq!(out.routines[1].narrow, b"B".to_vec());
}

#[test]
fn round_trip_through_broad_enum() {
    let a = enum_decl("A", &["A1", "A2"], Some("A1"), None);
    let b = enum_decl("B", &["B1"], None, Some("(A,)"));
    let scope = vec![Decl::Enum(a), Decl::Enum(b.clone())];
    let out = expand_target(&scope, &Decl::Enum(b)).unwrap();
    let n2b = &out.routines[0];
    let b2n = &out.routines[1];
    let carried = narrow_to_broad(n2b, &b"A2".to_vec()).unwrap();
    assert_eq!(carried, b"A2".to_vec());
    assert_eq!(broad_to_narrow(b2n, &carried), b"A2".to_vec());
    // a broad variant that did not come from A falls back to the default
    assert_eq!(broad_to_narrow(b2n, &b"B1".to_vec()), b"A1".to_vec());
    // a name that is no variant of A has no narrow-to-broad image
    assert_eq!(narrow_to_broad(n2b, &b"B1".to_vec()), None);
}

#[test]
fn variant_name_collision_is_rejected() {
    let a = enum_decl("A", &["X1", "A2"], None, None);
    let b = enum_decl("B", &["X1"], None, Some("(A,)"));
    let scope = vec![Decl::Enum(a), Decl::Enum(b.clone())];
    assert_eq!(expand_target(&scope, &Decl::Enum(b)), Err(SpliceError::VariantNameCollision));
}

#[test]
fn cyclic_extension_is_rejected() {
    let a = enum_decl("A", &["A1"], None, Some("(B,)"));
    let b = enum_decl("B", &["B1"], None, Some("(A,)"));
    let scope = vec![Decl::Enum(a.clone()), Decl::Enum(b)];
    assert_eq!(expand_target(&scope, &Decl::Enum(a)), Err(SpliceError::CyclicExtension));
}

#[test]
fn self_extension_is_rejected() {
    let a = enum_decl("A", &["A1"], None, Some("(A,)"));
    let scope = vec![Decl::Enum(a.clone())];
    assert_eq!(expand_target(&scope, &Decl::Enum(a)), Err(SpliceError::CyclicExtension));
}

#[test]
fn missing_default_skips_broad_to_narrow() {
    let a = enum_decl("A", &["A1", "A2"], None, None);
    let b = enum_decl("B", &["B1"], None, Some("(A,)"));
    let scope = vec![Decl::Enum(a), Decl::Enum(b.clone())];
    let out = expand_target(&scope, &Decl::Enum(b)).unwrap();
    assert_eq!(variant_names(&out.decl), ["A1", "A2", "B1"]);
    assert_eq!(out.routines.len(), 1);
    assert_eq!(out.routines[0].direction, Direction::NarrowToBroad);
    assert_eq!(
        out.warnings,
        vec![Warning::MissingDefaultForNarrowConversion {
            narrow: b"A".to_vec(),
            broad: b"B".to_vec(),
        }]
    );
}

#[test]
fn non_enum_target_is_rejected() {
    let scope = vec![Decl::Other(b"S".to_vec())];
    assert_eq!(
        expand_target(&scope, &Decl::Other(b"S".to_vec())),
        Err(SpliceError::NotAnEnum)
    );
}

#[test]
fn unresolved_reference_is_rejected() {
    let b = enum_decl("B", &["B1"], None, Some("(Missing,)"));
    let scope = vec![Decl::Enum(b.clone())];
    assert_eq!(expand_target(&scope, &Decl::Enum(b)), Err(SpliceError::UnresolvedEnumReference));
}

#[test]
fn non_enum_source_is_rejected() {
    let b = enum_decl("B", &["B1"], None, Some("(S,)"));
    let scope = vec![Decl::Other(b"S".to_vec()), Decl::Enum(b.clone())];
    assert_eq!(expand_target(&scope, &Decl::Enum(b)), Err(SpliceError::UnresolvedEnumReference));
}

#[test]
fn malformed_argument_is_rejected() {
    let a = enum_decl("A", &["A1"], None, None);
    let b = enum_decl("B", &["B1"], None, Some("(A)"));
    let scope = vec![Decl::Enum(a), Decl::Enum(b.clone())];
    assert_eq!(
        expand_target(&scope, &Decl::Enum(b)),
        Err(SpliceError::InvalidExtensionArgument)
    );
}

#[test]
fn empty_request_leaves_the_enum_alone() {
    let b = enum_decl("B", &["B1", "B2"], None, Some("()"));
    let scope = vec![Decl::Enum(b.clone())];
    let out = expand_target(&scope, &Decl::Enum(b)).unwrap();
    assert_eq!(variant_names(&out.decl), ["B1", "B2"]);
    assert_eq!(out.decl.extends_attr, None);
    assert!(out.routines.is_empty());
    assert!(out.warnings.is_empty());
}

#[test]
fn unannotated_enum_passes_through() {
    let b = enum_decl("B", &["B1"], None, None);
    let scope = vec![Decl::Enum(b.clone())];
    let out = expand_target(&scope, &Decl::Enum(b.clone())).unwrap();
    assert_eq!(out.decl, b);
    assert!(out.routines.is_empty());
}

#[test]
fn payload_passes_through_the_merge() {
    let mut a = enum_decl("A", &[], None, None);
    a.variants.push(VariantSpec {
        name: b"V".to_vec(),
        payload: PayloadShape::Tuple(vec![b"u32".to_vec()]),
    });
    let b = enum_decl("B", &["B1"], None, Some("(A,)"));
    let scope = vec![Decl::Enum(a), Decl::Enum(b.clone())];
    let out = expand_target(&scope, &Decl::Enum(b)).unwrap();
    assert_eq!(out.decl.variants[0].payload, PayloadShape::Tuple(vec![b"u32".to_vec()]));
    assert_eq!(out.routines[0].narrow_variants[0].payload, PayloadShape::Tuple(vec![
        b"u32".to_vec()
    ]));
}

#[test]
fn warning_message_names_the_limitation() {
    let w = Warning::MissingDefaultForNarrowConversion {
        narrow: b"A".to_vec(),
        broad: b"B".to_vec(),
    };
    assert_eq!(
        w.message(),
        "the narrow enum designates no default variant, so only the narrow-to-broad conversion is generated"
    );
}

#[test]
fn error_messages_name_the_failure() {
    assert_eq!(
        SpliceError::CyclicExtension.message(),
        "the target enum directly or transitively extends itself"
    );
    assert_eq!(
        SpliceError::VariantNameCollision.message(),
        "merging would put two variants of one name into the target enum"
    );
}

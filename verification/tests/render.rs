use enum_extend::emit::render_expansion;
use enum_extend::expand::expand_target;
use enum_extend::model::{Decl, EnumDecl, FieldSpec, PayloadShape, VariantSpec};

fn v(name: &str) -> VariantSpec {
    VariantSpec { name: name.as_bytes().to_vec(), payload: PayloadShape::Unit }
}

fn enum_decl(
    name: &str,
    variants: &[&str],
    default_variant: Option<&str>,
    extends_attr: Option<&str>,
) -> EnumDecl {
    EnumDecl {
        name: name.as_bytes().to_vec(),
        generics: vec![],
        derives: vec![],
        variants: variants.iter().map(|n| v(n)).collect(),
        default_variant: default_variant.map(|d| d.as_bytes().to_vec()),
        extends_attr: extends_attr.map(|t| t.as_bytes().to_vec()),
    }
}

#[test]
fn rendered_extension_with_both_routines() {
    let a = enum_decl("A", &["A1", "A2"], Some("A1"), None);
    let mut b = enum_decl("B", &["B1"], None, Some("(A,)"));
    b.derives = vec![b"Clone".to_vec()];
    let scope = vec![Decl::Enum(a), Decl::Enum(b.clone())];
    let out = expand_target(&scope, &Decl::Enum(b)).unwrap();
    let text = String::from_utf8(render_expansion(&out)).unwrap();
    let expected = "\
#[derive(Clone)]
enum B {
    A1,
    A2,
    B1,
}
impl From<A> for B {
    fn from(value: A) -> Self {
        match value {
            A::A1 => Self::A1,
            A::A2 => Self::A2,
        }
    }
}
impl From<B> for A {
    fn from(value: B) -> Self {
        match value {
            B::A1 => Self::A1,
            B::A2 => Self::A2,
            _ => Self::A1,
        }
    }
}
";
    assert_eq!(text, expected);
}

#[test]
fn rendered_payloads_and_generics() {
    let mut a = enum_decl("A", &[], None, None);
    a.variants.push(VariantSpec {
        name: b"P".to_vec(),
        payload: PayloadShape::Tuple(vec![b"u32".to_vec(), b"String".to_vec()]),
    });
    a.variants.push(VariantSpec {
        name: b"R".to_vec(),
        payload: PayloadShape::Record(vec![FieldSpec { name: b"x".to_vec(), ty: b"u8".to_vec() }]),
    });
    let mut b = enum_decl("B", &["B1"], None, Some("(A,)"));
    b.generics = vec![b"T".to_vec()];
    let scope = vec![Decl::Enum(a), Decl::Enum(b.clone())];
    let out = expand_target(&scope, &Decl::Enum(b)).unwrap();
    let text = String::from_utf8(render_expansion(&out)).unwrap();
    let expected = "\
enum B<T> {
    P(u32, String),
    R { x: u8 },
    B1,
}
impl From<A> for B {
    fn from(value: A) -> Self {
        match value {
            A::P(a0, a1) => Self::P(a0, a1),
            A::R { x } => Self::R { x },
        }
    }
}
";
    assert_eq!(text, expected);
}

#[test]
fn rendering_is_deterministic() {
    let build = || {
        let a = enum_decl("A", &["A1", "A2"], Some("A1"), None);
        let b = enum_decl("B", &["B1", "B2"], None, Some("(A,)"));
        let scope = vec![Decl::Enum(a), Decl::Enum(b.clone())];
        render_expansion(&expand_target(&scope, &Decl::Enum(b)).unwrap())
    };
    assert_eq!(build(), build());
}

#[test]
fn rendered_plain_enum_keeps_its_shape() {
    let b = enum_decl("Status", &["Up", "Down"], None, None);
    let scope = vec![Decl::Enum(b.clone())];
    let out = expand_target(&scope, &Decl::Enum(b)).unwrap();
    let text = String::from_utf8(render_expansion(&out)).unwrap();
    assert_eq!(text, "enum Status {\n    Up,\n    Down,\n}\n");
}

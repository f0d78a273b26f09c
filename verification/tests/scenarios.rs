use dismantler::alias::TypeAlias;
use dismantler::builder::{codegen, TypeModule};
use dismantler::record::{Field, Fields, GenericParameter};

fn squeeze(text: &str) -> String {
    text.chars().filter(|c| !c.is_whitespace()).collect()
}

fn tokens(text: &str) -> String {
    squeeze(&text.parse::<proc_macro2::TokenStream>().unwrap().to_string())
}

fn list(fields: &Fields) -> &[Field] {
    match fields {
        Fields::Named(list) => list,
        Fields::Unnamed(list) => list,
        Fields::Unit => &[],
    }
}

fn generic_idents(alias: &TypeAlias) -> Vec<String> {
    match &alias.generics {
        Some(params) => params.iter().map(|param| param.ident.clone()).collect(),
        None => Vec::new(),
    }
}

#[test]
fn pair_scenario() {
    let module = TypeModule::parse("struct Pair<T> { a: i32, b: T }", Some("CODE")).unwrap();
    assert_eq!(module.ident, "Pair");
    assert_eq!(module.inner.field_decls, vec!["a".to_string(), "b".to_string()]);
    assert_eq!(module.inner.type_decls.len(), 1);
    assert_eq!(module.inner.type_decls[0].ident, "a");
    assert_eq!(module.inner.type_decls[0].ty, "i32");
    assert_eq!(module.inner.type_decls[0].generics, None);
    let contract = &module.inner.generic_decl;
    assert_eq!(contract.ident, "protocol");
    assert_eq!(contract.assoc_decls.len(), 1);
    assert_eq!(contract.assoc_decls[0].ident, "b");
    assert_eq!(contract.assoc_decls[0].ty, "T");
    assert_eq!(
        contract.assoc_decls[0].generics,
        Some(vec![GenericParameter { ident: "T".to_string(), decl: "T".to_string() }])
    );
    let kept = &module.inner.struct_decl;
    assert_eq!(kept.ident, "core");
    assert_eq!(kept.vis, "pub");
    assert_eq!(squeeze(&kept.generics.decl), "<T>");
    let fields = list(&kept.fields);
    assert!(matches!(kept.fields, Fields::Named(_)));
    assert_eq!(fields.len(), 2);
    assert_eq!(fields[0].ident, Some("a".to_string()));
    assert_eq!(fields[0].ty, "i32");
    assert_eq!(fields[1].ident, Some("b".to_string()));
    assert_eq!(fields[1].ty, "T");
}

#[test]
fn pair_scenario_text() {
    let out = codegen("struct Pair<T> { a: i32, b: T }", Some("CODE")).unwrap();
    let expected = r#"
        #[allow(non_snake_case)]
        #[doc = "The struct `Pair`, taken apart.\n\n```text\nCODE\n```"]
        mod Pair {
            #![allow(non_camel_case_types)]
            pub mod field {
                pub struct a;
                pub struct b;
            }
            #[allow(type_alias_bounds)]
            #[doc = "Type `a`: the type `i32` of the field `a`.\n\n```text\nCODE\n```"]
            pub type a = i32;
            #[doc = "The struct `Pair`, taken apart.\n\n```text\nCODE\n```"]
            pub struct core<T> {
                #[doc = "Field `a` of `Pair`, of type `i32`."]
                pub a: i32,
                #[doc = "Field `b` of `Pair`, of type `T`."]
                pub b: T,
            }
            pub trait protocol {
                type __Core: protocol<b = Self::b,>;
                #[doc = "Type `b<T>`: the type `T` of the field `b`.\n\n```text\nCODE\n```"]
                type b;
            }
            impl<T> protocol for core<T> {
                type __Core = Self;
                #[doc = "Type `b<T>`: the type `T` of the field `b`.\n\n```text\nCODE\n```"]
                type b = T;
            }
        }
    "#;
    assert_eq!(tokens(&out), tokens(expected));
}

#[test]
fn tuple_scenario() {
    let module = TypeModule::parse("struct Tuple(i32, i32);", Some("CODE")).unwrap();
    assert_eq!(module.inner.field_decls, vec!["field_0".to_string(), "field_1".to_string()]);
    assert_eq!(module.inner.type_decls.len(), 2);
    assert_eq!(module.inner.type_decls[0], TypeAlias::new("CODE", "field_0", "i32", None));
    assert_eq!(module.inner.type_decls[1], TypeAlias::new("CODE", "field_1", "i32", None));
    assert_eq!(module.inner.generic_decl.assoc_decls, Vec::<TypeAlias>::new());
    assert!(matches!(module.inner.struct_decl.fields, Fields::Unnamed(_)));
    assert!(module.inner.struct_decl.semi_colon);
}

#[test]
fn tuple_scenario_text() {
    let out = codegen("struct Tuple(i32, i32);", Some("CODE")).unwrap();
    let expected = r#"
        #[allow(non_snake_case)]
        #[doc = "The struct `Tuple`, taken apart.\n\n```text\nCODE\n```"]
        mod Tuple {
            #![allow(non_camel_case_types)]
            pub mod field {
                pub struct field_0;
                pub struct field_1;
            }
            #[allow(type_alias_bounds)]
            #[doc = "Type `field_0`: the type `i32` of the field `field_0`.\n\n```text\nCODE\n```"]
            pub type field_0 = i32;
            #[allow(type_alias_bounds)]
            #[doc = "Type `field_1`: the type `i32` of the field `field_1`.\n\n```text\nCODE\n```"]
            pub type field_1 = i32;
            #[doc = "The struct `Tuple`, taken apart.\n\n```text\nCODE\n```"]
            pub struct core(
                #[doc = "Field `field_0` of `Tuple`, of type `i32`."]
                pub i32,
                #[doc = "Field `field_1` of `Tuple`, of type `i32`."]
                pub i32,
            );
            pub trait protocol {
                type __Core: protocol;
            }
            impl protocol for core {
                type __Core = Self;
            }
        }
    "#;
    assert_eq!(tokens(&out), tokens(expected));
}

#[test]
fn empty_scenario() {
    let module = TypeModule::parse("struct Empty;", Some("CODE")).unwrap();
    assert_eq!(module.inner.field_decls, Vec::<String>::new());
    assert_eq!(module.inner.type_decls, Vec::<TypeAlias>::new());
    assert_eq!(module.inner.generic_decl.assoc_decls, Vec::<TypeAlias>::new());
    assert_eq!(module.inner.struct_decl.fields, Fields::Unit);
    assert_eq!(module.inner.struct_decl.ident, "core");
}

#[test]
fn empty_scenario_text() {
    let out = codegen("struct Empty;", Some("CODE")).unwrap();
    let expected = r#"
        #[allow(non_snake_case)]
        #[doc = "The struct `Empty`, taken apart.\n\n```text\nCODE\n```"]
        mod Empty {
            #![allow(non_camel_case_types)]
            pub mod field {}
            #[doc = "The struct `Empty`, taken apart.\n\n```text\nCODE\n```"]
            pub struct core;
            pub trait protocol {
                type __Core: protocol;
            }
            impl protocol for core {
                type __Core = Self;
            }
        }
    "#;
    assert_eq!(tokens(&out), tokens(expected));
}

#[test]
fn container_scenario() {
    let item = "struct Container<C: Clone, T = i64> { a: i32, b: Vec<i32>, c: Vec<T>, d: C, e: T }";
    let module = TypeModule::parse(item, Some("CODE")).unwrap();
    let inner = &module.inner;
    assert_eq!(
        inner.field_decls,
        vec!["a".to_string(), "b".to_string(), "c".to_string(), "d".to_string(), "e".to_string()]
    );
    let alone: Vec<String> = inner.type_decls.iter().map(|alias| alias.ident.clone()).collect();
    assert_eq!(alone, vec!["a".to_string(), "b".to_string()]);
    let bound: Vec<String> =
        inner.generic_decl.assoc_decls.iter().map(|alias| alias.ident.clone()).collect();
    assert_eq!(bound, vec!["c".to_string(), "d".to_string(), "e".to_string()]);
    assert_eq!(generic_idents(&inner.generic_decl.assoc_decls[0]), vec!["T".to_string()]);
    assert_eq!(generic_idents(&inner.generic_decl.assoc_decls[1]), vec!["C".to_string()]);
    assert_eq!(generic_idents(&inner.generic_decl.assoc_decls[2]), vec!["T".to_string()]);
    assert_eq!(squeeze(&inner.generic_decl.assoc_decls[0].generics.as_ref().unwrap()[0].decl), "T=i64");
    assert_eq!(squeeze(&inner.generic_decl.assoc_decls[1].generics.as_ref().unwrap()[0].decl), "C:Clone");
    assert_eq!(squeeze(&inner.struct_decl.generics.decl), "<C:Clone,T=i64>");
    assert_eq!(squeeze(&inner.generic_decl.generics.impl_generics), "<C:Clone,T>");
    assert_eq!(squeeze(&inner.generic_decl.generics.type_generics), "<C,T>");
}

#[test]
fn container_scenario_contract_text() {
    let item = "struct Container<C: Clone, T = i64> { a: i32, b: Vec<i32>, c: Vec<T>, d: C, e: T }";
    let module = TypeModule::parse(item, Some("")).unwrap();
    let c = "#[doc = \"Type `c<T = i64>`: the type `Vec<T>` of the field `c`.\\n\\n```text\\n\\n```\"]";
    let d = "#[doc = \"Type `d<C : Clone>`: the type `C` of the field `d`.\\n\\n```text\\n\\n```\"]";
    let e = "#[doc = \"Type `e<T = i64>`: the type `T` of the field `e`.\\n\\n```text\\n\\n```\"]";
    let expected = format!(
        "pub trait protocol {{
            type __Core: protocol<c = Self::c, d = Self::d, e = Self::e,>;
            {c} type c;
            {d} type d;
            {e} type e;
        }}
        impl<C: Clone, T> protocol for core<C, T> {{
            type __Core = Self;
            {c} type c = Vec<T>;
            {d} type d = C;
            {e} type e = T;
        }}",
        c = c,
        d = d,
        e = e
    );
    assert_eq!(tokens(&module.inner.generic_decl.tokens()), tokens(&expected));
}

#[test]
fn output_reads_as_one_module() {
    for item in [
        "struct Pair<T> { a: i32, b: T }",
        "struct Tuple(i32, i32);",
        "struct Tuple2<T>(i32, T);",
        "struct Empty;",
        "#[derive(Debug)] pub(crate) struct Container<'a, C: Clone, T = i64> { a: i32, pub b: Vec<i32>, #[x] c: Vec<T>, d: &'a C, e: T }",
        "/// Holds \"things\" and a \\ too.\npub struct Quoted { a: u8 }",
    ] {
        let out = codegen(item, Some("fn main() {\n    let s = \"a\\tb\";\n}\n")).unwrap();
        let parsed = syn::parse_str::<syn::ItemMod>(&out).unwrap();
        let (_, items) = parsed.content.unwrap();
        assert!(matches!(items[0], syn::Item::Mod(_)));
        assert!(matches!(items[items.len() - 2], syn::Item::Trait(_)));
        assert!(matches!(items[items.len() - 1], syn::Item::Impl(_)));
        assert!(matches!(items[items.len() - 3], syn::Item::Struct(_)));
    }
}

#[test]
fn module_keeps_attributes_and_visibility() {
    let out = codegen("#[derive(Debug)] pub(crate) struct S;", Some("CODE")).unwrap();
    let parsed = syn::parse_str::<syn::ItemMod>(&out).unwrap();
    assert_eq!(parsed.ident.to_string(), "S");
    assert!(matches!(parsed.vis, syn::Visibility::Restricted(_)));
    assert_eq!(parsed.attrs.len(), 4);
}

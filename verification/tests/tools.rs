use dismantler::record::{Field, GenericParameter};
use dismantler::tools::{
    create_ident, doc_attribute, doc_field, doc_struct, doc_type, generics_string,
    publicify_and_docify,
};

fn parameter(ident: &str, decl: &str) -> GenericParameter {
    GenericParameter { ident: ident.to_string(), decl: decl.to_string() }
}

#[test]
fn create_ident_numbers_from_zero() {
    assert_eq!(create_ident(0), "field_0");
    assert_eq!(create_ident(1), "field_1");
    assert_eq!(create_ident(9), "field_9");
}

#[test]
fn create_ident_writes_all_digits() {
    assert_eq!(create_ident(10), "field_10");
    assert_eq!(create_ident(123), "field_123");
    assert_eq!(create_ident(usize::MAX), format!("field_{}", usize::MAX));
}

#[test]
fn doc_struct_shows_name_and_source() {
    assert_eq!(
        doc_struct("Pair", "struct Pair<T> {\n    a: i32,\n    b: T,\n}\n"),
        "The struct `Pair`, taken apart.\n\n```text\nstruct Pair<T> {\n    a: i32,\n    b: T,\n}\n\n```"
    );
}

#[test]
fn doc_struct_of_empty_texts() {
    assert_eq!(doc_struct("", ""), "The struct ``, taken apart.\n\n```text\n\n```");
}

#[test]
fn doc_field_shows_name_type_and_parent() {
    assert_eq!(doc_field("a", "i32", "Pair"), "Field `a` of `Pair`, of type `i32`.");
    assert_eq!(doc_field("field_0", "T", "Tuple"), "Field `field_0` of `Tuple`, of type `T`.");
}

#[test]
fn doc_field_writes_the_type_without_spaces() {
    assert_eq!(
        doc_field("c", "Vec < Option < T > >", "Container"),
        "Field `c` of `Container`, of type `Vec<Option<T>>`."
    );
}

#[test]
fn doc_type_of_an_independent_field() {
    assert_eq!(
        doc_type("b", "Vec < i32 >", &None, "struct S;"),
        "Type `b`: the type `Vec<i32>` of the field `b`.\n\n```text\nstruct S;\n```"
    );
}

#[test]
fn doc_type_of_a_dependent_field() {
    let generics = Some(vec![parameter("C", "C : Clone"), parameter("T", "T = i64")]);
    assert_eq!(
        doc_type("c", "HashMap < C , T >", &generics, "CODE"),
        "Type `c<C : Clone, T = i64>`: the type `HashMap<C,T>` of the field `c`.\n\n```text\nCODE\n```"
    );
}

#[test]
fn generics_string_of_no_list() {
    assert_eq!(generics_string(&None), "");
}

#[test]
fn generics_string_of_lists() {
    assert_eq!(generics_string(&Some(Vec::new())), "<>");
    assert_eq!(generics_string(&Some(vec![parameter("T", "T")])), "<T>");
    assert_eq!(
        generics_string(&Some(vec![parameter("C", "C : Clone"), parameter("T", "T = i64")])),
        "<C : Clone, T = i64>"
    );
    assert_eq!(
        generics_string(&Some(vec![parameter("A", "A"), parameter("B", "B"), parameter("C", "C")])),
        "<A, B, C>"
    );
}

#[test]
fn doc_attribute_quotes_the_text() {
    assert_eq!(doc_attribute("plain"), "#[doc = \"plain\"]");
    assert_eq!(doc_attribute(""), "#[doc = \"\"]");
}

#[test]
fn doc_attribute_escapes_the_text() {
    assert_eq!(doc_attribute("a \"b\"\n\\c"), "#[doc = \"a \\\"b\\\"\\n\\\\c\"]");
}

#[test]
fn doc_attribute_parses_as_an_attribute_with_the_text() {
    let text = "The struct `S`, taken apart.\n\n```text\nstruct S(\"x\\y\");\n```";
    let item = format!("{} struct X;", doc_attribute(text));
    let parsed = syn::parse_str::<syn::ItemStruct>(&item).unwrap();
    assert_eq!(parsed.attrs.len(), 1);
    let meta = parsed.attrs[0].parse_meta().unwrap();
    let value = match meta {
        syn::Meta::NameValue(pair) => match pair.lit {
            syn::Lit::Str(lit) => lit.value(),
            _ => panic!("the documentation is no string"),
        },
        _ => panic!("the attribute has another form"),
    };
    assert_eq!(value, text);
}

#[test]
fn publicify_and_docify_keeps_a_given_name() {
    let mut field = Field {
        attrs: vec!["# [serde (skip)]".to_string()],
        vis: "pub (crate)".to_string(),
        ident: Some("c".to_string()),
        ty: "Vec < T >".to_string(),
    };
    let ident = publicify_and_docify(&mut field, "Container", 2);
    assert_eq!(ident, "c");
    assert_eq!(field.vis, "pub");
    assert_eq!(field.ident, Some("c".to_string()));
    assert_eq!(field.ty, "Vec < T >");
    assert_eq!(
        field.attrs,
        vec![
            "# [serde (skip)]".to_string(),
            "#[doc = \"Field `c` of `Container`, of type `Vec<T>`.\"]".to_string(),
        ]
    );
}

#[test]
fn publicify_and_docify_names_a_positional_field_by_its_place() {
    let mut field =
        Field { attrs: Vec::new(), vis: String::new(), ident: None, ty: "i32".to_string() };
    let ident = publicify_and_docify(&mut field, "Tuple", 1);
    assert_eq!(ident, "field_1");
    assert_eq!(field.vis, "pub");
    assert_eq!(field.ident, None);
    assert_eq!(field.ty, "i32");
    assert_eq!(
        field.attrs,
        vec!["#[doc = \"Field `field_1` of `Tuple`, of type `i32`.\"]".to_string()]
    );
}

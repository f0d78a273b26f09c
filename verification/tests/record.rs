use dismantler::record::{clone_parameters, Field, Fields, GenericParameter, Generics};

fn parameter(ident: &str, decl: &str) -> GenericParameter {
    GenericParameter { ident: ident.to_string(), decl: decl.to_string() }
}

fn field(ident: Option<&str>, ty: &str) -> Field {
    Field {
        attrs: vec!["#[x]".to_string()],
        vis: "pub".to_string(),
        ident: ident.map(|name| name.to_string()),
        ty: ty.to_string(),
    }
}

#[test]
fn parameter_duplicate_is_equal() {
    let given = parameter("T", "T : Clone = u8");
    assert_eq!(given.duplicate(), given);
}

#[test]
fn clone_parameters_copies_in_order() {
    let given = vec![parameter("B", "B"), parameter("A", "A : Clone"), parameter("B", "B")];
    assert_eq!(clone_parameters(&given), given);
    assert_eq!(clone_parameters(&Vec::new()), Vec::<GenericParameter>::new());
}

#[test]
fn generics_duplicate_is_equal() {
    let given = Generics {
        decl: "< T = u8 >".to_string(),
        impl_generics: "< T >".to_string(),
        type_generics: "<T>".to_string(),
        params: vec![parameter("T", "T = u8")],
    };
    assert_eq!(given.duplicate(), given);
}

#[test]
fn field_duplicate_is_equal() {
    let named = field(Some("a"), "Vec < T >");
    assert_eq!(named.duplicate(), named);
    let positional = field(None, "u8");
    assert_eq!(positional.duplicate(), positional);
}

#[test]
fn fields_len_counts_the_fields() {
    assert_eq!(Fields::Unit.len(), 0);
    assert_eq!(Fields::Named(Vec::new()).len(), 0);
    assert_eq!(Fields::Named(vec![field(Some("a"), "u8")]).len(), 1);
    assert_eq!(Fields::Unnamed(vec![field(None, "u8"), field(None, "u16")]).len(), 2);
}

#[test]
fn fields_get_finds_a_field_by_its_place() {
    let fields = Fields::Unnamed(vec![field(None, "u8"), field(None, "u16")]);
    assert_eq!(fields.get(0), Some(&field(None, "u8")));
    assert_eq!(fields.get(1), Some(&field(None, "u16")));
    assert_eq!(fields.get(2), None);
    assert_eq!(Fields::Unit.get(0), None);
    let named = Fields::Named(vec![field(Some("a"), "u8")]);
    assert_eq!(named.get(0), Some(&field(Some("a"), "u8")));
    assert_eq!(named.get(usize::MAX), None);
}

#[test]
fn fields_with_list_keeps_the_shape() {
    let list = vec![field(None, "u8")];
    assert_eq!(
        Fields::Named(Vec::new()).with_list(vec![field(Some("a"), "u8")]),
        Fields::Named(vec![field(Some("a"), "u8")])
    );
    assert_eq!(
        Fields::Unnamed(vec![field(None, "u16")]).with_list(list),
        Fields::Unnamed(vec![field(None, "u8")])
    );
    assert_eq!(Fields::Unit.with_list(vec![field(None, "u8")]), Fields::Unit);
}

//! The canonical struct: the declaration again, public, under a fixed name,
//! with the normalised fields in their declared order and shape.

use crate::record::{Field, FieldView, Fields, FieldsView, Generics, GenericsView};
use crate::text::{joined, push_joined, push_terminated, terminated};
use vstd::prelude::*;
use vstd::string::*;

verus! {

/// The canonical struct.
#[derive(Debug, PartialEq, Eq)]
pub struct TypeStructure {
    /// The attributes of the declaration, and the documentation of the struct.
    pub attrs: Vec<String>,
    /// The visibility, which is always `pub`.
    pub vis: String,
    /// The name, which is always `core`.
    pub ident: String,
    /// The generic parameters as declared.
    pub generics: Generics,
    /// The normalised fields.
    pub fields: Fields,
    /// Whether a semicolon ended the declaration.
    pub semi_colon: bool,
}

pub struct TypeStructureView {
    pub attrs: Seq<Seq<char>>,
    pub vis: Seq<char>,
    pub ident: Seq<char>,
    pub generics: GenericsView,
    pub fields: FieldsView,
    pub semi_colon: bool,
}

impl View for TypeStructure {
    type V = TypeStructureView;

    open spec fn view(&self) -> TypeStructureView {
        TypeStructureView {
            attrs: self.attrs.deep_view(),
            vis: self.vis@,
            ident: self.ident@,
            generics: self.generics@,
            fields: self.fields@,
            semi_colon: self.semi_colon,
        }
    }
}

/// The name of a field with the colon behind it; nothing for a field without
/// a name.
pub open spec fn field_name_tokens(ident: Option<Seq<char>>) -> Seq<char> {
    match ident {
        Some(name) => name + ": "@,
        None => Seq::empty(),
    }
}

/// One field as it stands in a field list, with the comma behind it.
pub open spec fn field_tokens(field: FieldView) -> Seq<char> {
    terminated(field.attrs, " "@) + field.vis + " "@ + field_name_tokens(field.ident) + field.ty
        + ", "@
}

/// The fields of a list, one text each.
pub open spec fn field_list_tokens(list: Seq<FieldView>) -> Seq<Seq<char>> {
    Seq::new(list.len(), |i: int| field_tokens(list[i]))
}

/// A field list in the delimiters of its shape; nothing for a unit struct.
pub open spec fn fields_tokens(fields: FieldsView) -> Seq<char> {
    match fields {
        FieldsView::Named(list) => "{ "@ + joined(field_list_tokens(list)) + "}"@,
        FieldsView::Unnamed(list) => "( "@ + joined(field_list_tokens(list)) + ")"@,
        FieldsView::Unit => Seq::empty(),
    }
}

/// The semicolon that ends a declaration, where it has one.
pub open spec fn semi_tokens(semi_colon: bool) -> Seq<char> {
    if semi_colon {
        ";"@
    } else {
        Seq::empty()
    }
}

impl TypeStructureView {
    /// The declaration of the canonical struct.
    pub open spec fn tokens(self) -> Seq<char> {
        terminated(self.attrs, " "@) + self.vis + " struct "@ + self.ident + self.generics.decl
            + " "@ + fields_tokens(self.fields) + semi_tokens(self.semi_colon) + " "@
    }
}

fn field_text(field: &Field) -> (r: String)
    ensures
        r@ == field_tokens(field@),
{
    let mut r = String::new();
    push_terminated(&mut r, &field.attrs, " ");
    r.append(field.vis.as_str());
    r.append(" ");
    match &field.ident {
        Some(name) => {
            r.append(name.as_str());
            r.append(": ");
        },
        None => {},
    }
    r.append(field.ty.as_str());
    r.append(", ");
    r
}

fn field_texts(list: &Vec<Field>) -> (r: Vec<String>)
    ensures
        r.deep_view() == field_list_tokens(list.deep_view()),
{
    let mut r: Vec<String> = Vec::new();
    let mut i: usize = 0;
    while i < list.len()
        invariant
            i <= list.len(),
            r.deep_view() == field_list_tokens(list.deep_view()).take(i as int),
        decreases list.len() - i,
    {
        let ghost before = r.deep_view();
        let text = field_text(&list[i]);
        r.push(text);
        assert(r.deep_view() =~= before.push(text@));
        i = i + 1;
    }
    r
}

fn fields_text(fields: &Fields) -> (r: String)
    ensures
        r@ == fields_tokens(fields@),
{
    match fields {
        Fields::Named(list) => {
            let texts = field_texts(list);
            let mut r = String::from_str("{ ");
            push_joined(&mut r, &texts);
            r.append("}");
            r
        },
        Fields::Unnamed(list) => {
            let texts = field_texts(list);
            let mut r = String::from_str("( ");
            push_joined(&mut r, &texts);
            r.append(")");
            r
        },
        Fields::Unit => String::new(),
    }
}

impl TypeStructure {
    /// The declaration of the canonical struct.
    pub fn tokens(&self) -> (r: String)
        ensures
            r@ == self@.tokens(),
    {
        let fields = fields_text(&self.fields);
        let mut r = String::new();
        push_terminated(&mut r, &self.attrs, " ");
        r.append(self.vis.as_str());
        r.append(" struct ");
        r.append(self.ident.as_str());
        r.append(self.generics.decl.as_str());
        r.append(" ");
        r.append(fields.as_str());
        if self.semi_colon {
            r.append(";");
        }
        r.append(" ");
        r
    }

    /// Appends the declaration of the canonical struct to `tokens`.
    pub fn to_tokens(&self, tokens: &mut String)
        ensures
            final(tokens)@ == old(tokens)@ + self@.tokens(),
    {
        let text = self.tokens();
        tokens.append(text.as_str());
    }
}

} // verus!

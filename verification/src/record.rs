//! A struct declaration as plain data: every syntactic piece is kept as the
//! text of its tokens, and each type has a mathematical view over `Seq<char>`.

use crate::text::clone_texts;
use vstd::prelude::*;

verus! {

/// One type parameter of the declaration.
#[derive(Debug, PartialEq, Eq)]
pub struct GenericParameter {
    /// The parameter's identifier.
    pub ident: String,
    /// The parameter as declared, with its bounds and default.
    pub decl: String,
}

pub struct GenericParameterView {
    pub ident: Seq<char>,
    pub decl: Seq<char>,
}

impl View for GenericParameter {
    type V = GenericParameterView;

    open spec fn view(&self) -> GenericParameterView {
        GenericParameterView { ident: self.ident@, decl: self.decl@ }
    }
}

impl DeepView for GenericParameter {
    type V = GenericParameterView;

    open spec fn deep_view(&self) -> GenericParameterView {
        self@
    }
}

impl GenericParameter {
    /// A copy of this parameter.
    pub fn duplicate(&self) -> (r: GenericParameter)
        ensures
            r@ == self@,
    {
        GenericParameter { ident: self.ident.clone(), decl: self.decl.clone() }
    }
}

/// A copy of a list of type parameters.
pub fn clone_parameters(params: &Vec<GenericParameter>) -> (r: Vec<GenericParameter>)
    ensures
        r.deep_view() == params.deep_view(),
{
    let mut r: Vec<GenericParameter> = Vec::new();
    let mut i: usize = 0;
    while i < params.len()
        invariant
            i <= params.len(),
            r.deep_view() == params.deep_view().take(i as int),
        decreases params.len() - i,
    {
        let ghost before = r.deep_view();
        let item = params[i].duplicate();
        r.push(item);
        assert(r.deep_view() =~= before.push(item@));
        i = i + 1;
    }
    r
}

/// The generic parameter list of the declaration, in the three forms in which
/// it is written out again, and its type parameters one by one.
#[derive(Debug, PartialEq, Eq)]
pub struct Generics {
    /// The list as declared, angle brackets included; empty without parameters.
    pub decl: String,
    /// The list as an `impl` header takes it: bounds kept, defaults left off.
    pub impl_generics: String,
    /// The list as the type's own arguments: identifiers only.
    pub type_generics: String,
    /// The type parameters, in declaration order.
    pub params: Vec<GenericParameter>,
}

pub struct GenericsView {
    pub decl: Seq<char>,
    pub impl_generics: Seq<char>,
    pub type_generics: Seq<char>,
    pub params: Seq<GenericParameterView>,
}

impl View for Generics {
    type V = GenericsView;

    open spec fn view(&self) -> GenericsView {
        GenericsView {
            decl: self.decl@,
            impl_generics: self.impl_generics@,
            type_generics: self.type_generics@,
            params: self.params.deep_view(),
        }
    }
}

impl DeepView for Generics {
    type V = GenericsView;

    open spec fn deep_view(&self) -> GenericsView {
        self@
    }
}

impl Generics {
    /// A copy of these generics.
    pub fn duplicate(&self) -> (r: Generics)
        ensures
            r@ == self@,
    {
        Generics {
            decl: self.decl.clone(),
            impl_generics: self.impl_generics.clone(),
            type_generics: self.type_generics.clone(),
            params: clone_parameters(&self.params),
        }
    }
}

/// One field of the declaration.
#[derive(Debug, PartialEq, Eq)]
pub struct Field {
    /// The field's attributes, one text each.
    pub attrs: Vec<String>,
    /// The field's visibility; empty where none is written.
    pub vis: String,
    /// The field's name; `None` in a positional list.
    pub ident: Option<String>,
    /// The field's type expression.
    pub ty: String,
}

pub struct FieldView {
    pub attrs: Seq<Seq<char>>,
    pub vis: Seq<char>,
    pub ident: Option<Seq<char>>,
    pub ty: Seq<char>,
}

impl View for Field {
    type V = FieldView;

    open spec fn view(&self) -> FieldView {
        FieldView {
            attrs: self.attrs.deep_view(),
            vis: self.vis@,
            ident: self.ident.deep_view(),
            ty: self.ty@,
        }
    }
}

impl DeepView for Field {
    type V = FieldView;

    open spec fn deep_view(&self) -> FieldView {
        self@
    }
}

impl Field {
    /// A copy of this field.
    pub fn duplicate(&self) -> (r: Field)
        ensures
            r@ == self@,
    {
        let ident = match &self.ident {
            Some(name) => Some(name.clone()),
            None => None,
        };
        Field {
            attrs: clone_texts(&self.attrs),
            vis: self.vis.clone(),
            ident,
            ty: self.ty.clone(),
        }
    }
}

/// The field list of the declaration, by its shape.
#[derive(Debug, PartialEq, Eq)]
pub enum Fields {
    /// A brace-delimited list of named fields.
    Named(Vec<Field>),
    /// A parenthesized list of positional fields.
    Unnamed(Vec<Field>),
    /// No field list.
    Unit,
}

pub enum FieldsView {
    Named(Seq<FieldView>),
    Unnamed(Seq<FieldView>),
    Unit,
}

impl FieldsView {
    /// The fields in declaration order, whatever the shape.
    pub open spec fn list(self) -> Seq<FieldView> {
        match self {
            FieldsView::Named(list) => list,
            FieldsView::Unnamed(list) => list,
            FieldsView::Unit => Seq::empty(),
        }
    }

    /// The same shape around another list of fields.
    pub open spec fn with_list(self, list: Seq<FieldView>) -> FieldsView {
        match self {
            FieldsView::Named(_) => FieldsView::Named(list),
            FieldsView::Unnamed(_) => FieldsView::Unnamed(list),
            FieldsView::Unit => FieldsView::Unit,
        }
    }

    /// Every field of a named list has a name, and no field of a positional
    /// list has one.
    pub open spec fn wf(self) -> bool {
        match self {
            FieldsView::Named(list) => forall|i: int|
                0 <= i < list.len() ==> (#[trigger] list[i]).ident is Some,
            FieldsView::Unnamed(list) => forall|i: int|
                0 <= i < list.len() ==> (#[trigger] list[i]).ident is None,
            FieldsView::Unit => true,
        }
    }
}

impl View for Fields {
    type V = FieldsView;

    open spec fn view(&self) -> FieldsView {
        match self {
            Fields::Named(list) => FieldsView::Named(list.deep_view()),
            Fields::Unnamed(list) => FieldsView::Unnamed(list.deep_view()),
            Fields::Unit => FieldsView::Unit,
        }
    }
}

impl DeepView for Fields {
    type V = FieldsView;

    open spec fn deep_view(&self) -> FieldsView {
        self@
    }
}

impl Fields {
    /// The number of fields.
    pub fn len(&self) -> (r: usize)
        ensures
            r == self@.list().len(),
    {
        match self {
            Fields::Named(list) => list.len(),
            Fields::Unnamed(list) => list.len(),
            Fields::Unit => 0,
        }
    }

    /// The same shape around another list of fields.
    pub fn with_list(&self, list: Vec<Field>) -> (r: Fields)
        ensures
            r@ == self@.with_list(list.deep_view()),
    {
        match self {
            Fields::Named(_) => Fields::Named(list),
            Fields::Unnamed(_) => Fields::Unnamed(list),
            Fields::Unit => Fields::Unit,
        }
    }

    /// The field at position `index`, if there is one.
    pub fn get(&self, index: usize) -> (r: Option<&Field>)
        ensures
            index < self@.list().len() ==> r is Some && r->0@ == self@.list()[index as int],
            index >= self@.list().len() ==> r is None,
    {
        match self {
            Fields::Named(list) => if index < list.len() {
                Some(&list[index])
            } else {
                None
            },
            Fields::Unnamed(list) => if index < list.len() {
                Some(&list[index])
            } else {
                None
            },
            Fields::Unit => None,
        }
    }
}

/// A struct declaration, piece by piece.
#[derive(Debug, PartialEq, Eq)]
pub struct RecordDeclaration {
    /// The outer attributes, one text each.
    pub attrs: Vec<String>,
    /// The visibility; empty where none is written.
    pub vis: String,
    /// The name of the struct.
    pub ident: String,
    /// The generic parameters.
    pub generics: Generics,
    /// The field list.
    pub fields: Fields,
    /// Whether a semicolon ends the declaration.
    pub semi_colon: bool,
}

pub struct RecordView {
    pub attrs: Seq<Seq<char>>,
    pub vis: Seq<char>,
    pub ident: Seq<char>,
    pub generics: GenericsView,
    pub fields: FieldsView,
    pub semi_colon: bool,
}

impl View for RecordDeclaration {
    type V = RecordView;

    open spec fn view(&self) -> RecordView {
        RecordView {
            attrs: self.attrs.deep_view(),
            vis: self.vis@,
            ident: self.ident@,
            generics: self.generics@,
            fields: self.fields@,
            semi_colon: self.semi_colon,
        }
    }
}

} // verus!

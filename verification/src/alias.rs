//! The type alias of one field: the field's canonical identifier bound to the
//! field's type, with the type parameters that the type refers to.

use crate::record::{
    clone_parameters, Field, FieldView, GenericParameter, GenericParameterView, Generics,
};
use crate::tools::{
    canonical_name, doc_attribute, doc_attribute_text, doc_type, doc_type_text, generics_string,
    generics_text, normalized_field, publicify_and_docify,
};
use crate::walker::{classification, FieldTypeGenerics};
use vstd::prelude::*;
use vstd::string::*;

verus! {

/// The name of the struct that is taken apart, and its source text as the
/// generated documentation shows it.
#[derive(Debug, PartialEq, Eq)]
pub struct Source {
    pub name: String,
    pub code: String,
}

pub struct SourceView {
    pub name: Seq<char>,
    pub code: Seq<char>,
}

impl View for Source {
    type V = SourceView;

    open spec fn view(&self) -> SourceView {
        SourceView { name: self.name@, code: self.code@ }
    }
}

/// The alias of one field.
#[derive(Debug, PartialEq, Eq)]
pub struct TypeAlias {
    /// The attribute that documents the alias.
    pub docs: String,
    /// The field's canonical identifier.
    pub ident: String,
    /// The field's type expression.
    pub ty: String,
    /// The type parameters that the type refers to, in declaration order;
    /// `None` for a field that depends on none.
    pub generics: Option<Vec<GenericParameter>>,
}

pub struct TypeAliasView {
    pub docs: Seq<char>,
    pub ident: Seq<char>,
    pub ty: Seq<char>,
    pub generics: Option<Seq<GenericParameterView>>,
}

impl View for TypeAlias {
    type V = TypeAliasView;

    open spec fn view(&self) -> TypeAliasView {
        TypeAliasView {
            docs: self.docs@,
            ident: self.ident@,
            ty: self.ty@,
            generics: self.generics.deep_view(),
        }
    }
}

impl DeepView for TypeAlias {
    type V = TypeAliasView;

    open spec fn deep_view(&self) -> TypeAliasView {
        self@
    }
}

impl TypeAliasView {
    /// A field that depends on no type parameter: its alias stands alone.
    pub open spec fn is_independent(self) -> bool {
        self.generics is None
    }

    /// A field that depends on a type parameter: its alias exists only as an
    /// associated type of the contract.
    pub open spec fn is_dependent(self) -> bool {
        self.generics is Some
    }

    /// The alias as a documented public type alias.
    pub open spec fn tokens(self) -> Seq<char> {
        "#[allow(type_alias_bounds)] "@ + self.docs + " pub type "@ + self.ident + generics_text(
            self.generics,
        ) + " = "@ + self.ty + "; "@
    }

    /// The alias as the declaration of an associated type, without a binding.
    pub open spec fn declaration(self) -> Seq<char> {
        self.docs + " type "@ + self.ident + "; "@
    }

    /// The alias as an associated type bound to the field's type.
    pub open spec fn binding(self) -> Seq<char> {
        self.docs + " type "@ + self.ident + " = "@ + self.ty + "; "@
    }

    /// The alias as a constraint that ties an associated type of another
    /// implementer to the same associated type of `Self`.
    pub open spec fn rebinding(self) -> Seq<char> {
        self.ident + " = Self::"@ + self.ident + ", "@
    }
}

/// The alias of the field `ident` of type `ty`, which depends on `generics`.
pub open spec fn alias_of(
    source_code: Seq<char>,
    ident: Seq<char>,
    ty: Seq<char>,
    generics: Option<Seq<GenericParameterView>>,
) -> TypeAliasView {
    TypeAliasView {
        docs: doc_attribute_text(doc_type_text(ident, ty, generics, source_code)),
        ident,
        ty,
        generics,
    }
}

/// The alias of the field at position `index`, whose type has the given heads.
pub open spec fn field_alias(
    field: FieldView,
    index: nat,
    heads: Set<Seq<char>>,
    params: Seq<GenericParameterView>,
    source: SourceView,
) -> TypeAliasView {
    alias_of(
        source.code,
        canonical_name(field.ident, index),
        field.ty,
        classification(params, heads),
    )
}

impl TypeAlias {
    /// The alias of the field `ident` of type `ty`, which depends on the type
    /// parameters `generics`; `source_code` goes into its documentation.
    pub fn new(
        source_code: &str,
        ident: &str,
        ty: &str,
        generics: Option<Vec<GenericParameter>>,
    ) -> (r: TypeAlias)
        ensures
            r@ == alias_of(source_code@, ident@, ty@, generics.deep_view()),
    {
        let type_doc = doc_type(ident, ty, &generics, source_code);
        TypeAlias {
            docs: doc_attribute(type_doc.as_str()),
            ident: String::from_str(ident),
            ty: String::from_str(ty),
            generics,
        }
    }

    /// Normalises the field at position `index` and makes its alias, given the
    /// heads that the walk of its type found.
    pub fn for_field(
        field: &mut Field,
        index: usize,
        heads: &FieldTypeGenerics,
        generics: &Generics,
        source: &Source,
    ) -> (r: TypeAlias)
        ensures
            r@ == field_alias(old(field)@, index as nat, heads@, generics@.params, source@),
            final(field)@ == normalized_field(old(field)@, index as nat, source@.name),
    {
        let ident = publicify_and_docify(field, source.name.as_str(), index);
        let matched = heads.classify(generics);
        TypeAlias::new(source.code.as_str(), ident.as_str(), field.ty.as_str(), matched)
    }

    /// A copy of this alias.
    pub fn duplicate(&self) -> (r: TypeAlias)
        ensures
            r@ == self@,
    {
        let generics = match &self.generics {
            Some(params) => Some(clone_parameters(params)),
            None => None,
        };
        TypeAlias {
            docs: self.docs.clone(),
            ident: self.ident.clone(),
            ty: self.ty.clone(),
            generics,
        }
    }

    /// Whether the field depends on no type parameter of the struct.
    pub fn is_independent(&self) -> (r: bool)
        ensures
            r == self@.is_independent(),
    {
        self.generics.is_none()
    }

    /// The alias as a documented public type alias.
    pub fn tokens(&self) -> (r: String)
        ensures
            r@ == self@.tokens(),
    {
        let generics = generics_string(&self.generics);
        let mut r = String::from_str("#[allow(type_alias_bounds)] ");
        r.append(self.docs.as_str());
        r.append(" pub type ");
        r.append(self.ident.as_str());
        r.append(generics.as_str());
        r.append(" = ");
        r.append(self.ty.as_str());
        r.append("; ");
        r
    }

    /// Appends the alias, as a documented public type alias, to `tokens`.
    pub fn to_tokens(&self, tokens: &mut String)
        ensures
            final(tokens)@ == old(tokens)@ + self@.tokens(),
    {
        let text = self.tokens();
        tokens.append(text.as_str());
    }

    /// The alias as the declaration of an associated type.
    pub fn declaration(&self) -> (r: String)
        ensures
            r@ == self@.declaration(),
    {
        let mut r = self.docs.clone();
        r.append(" type ");
        r.append(self.ident.as_str());
        r.append("; ");
        r
    }

    /// The alias as an associated type bound to the field's type.
    pub fn binding(&self) -> (r: String)
        ensures
            r@ == self@.binding(),
    {
        let mut r = self.docs.clone();
        r.append(" type ");
        r.append(self.ident.as_str());
        r.append(" = ");
        r.append(self.ty.as_str());
        r.append("; ");
        r
    }

    /// The alias as a constraint on the same associated type of `Self`.
    pub fn rebinding(&self) -> (r: String)
        ensures
            r@ == self@.rebinding(),
    {
        let mut r = self.ident.clone();
        r.append(" = Self::");
        r.append(self.ident.as_str());
        r.append(", ");
        r
    }
}

} // verus!

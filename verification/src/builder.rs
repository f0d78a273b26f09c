//! From a declaration to the module that replaces it: the aliases of the
//! fields, the canonical struct, the contract trait with its implementation,
//! and the text of it all.

use crate::alias::{field_alias, Source, SourceView, TypeAlias, TypeAliasView};
use crate::contract::{TypeGeneric, TypeGenericView};
use crate::error::TransformError;
use crate::parser::parsed_declaration;
use crate::record::{
    Field, FieldView, Fields, FieldsView, GenericParameterView, Generics, RecordDeclaration,
    RecordView,
};
use crate::structure::{TypeStructure, TypeStructureView};
use crate::text::{clone_texts, joined, push_joined, push_terminated, terminated};
use crate::tools::{
    doc_attribute, doc_attribute_text, doc_struct, doc_struct_text, normalized_field,
};
use crate::walker::{referenced_heads, FieldTypeGenerics};
use vstd::prelude::*;
use vstd::string::*;

verus! {

/// Every field's type can be walked: it parses as a type expression.
pub open spec fn walkable(fields: Seq<FieldView>) -> bool {
    forall|i: int| 0 <= i < fields.len() ==> referenced_heads((#[trigger] fields[i]).ty) is Some
}

/// The alias of the field at position `index`, classified by the heads of its
/// own type.
pub open spec fn type_decl(
    field: FieldView,
    index: nat,
    params: Seq<GenericParameterView>,
    source: SourceView,
) -> TypeAliasView {
    field_alias(field, index, referenced_heads(field.ty).unwrap(), params, source)
}

/// The aliases of all fields, in declaration order.
pub open spec fn type_decls(
    fields: Seq<FieldView>,
    params: Seq<GenericParameterView>,
    source: SourceView,
) -> Seq<TypeAliasView> {
    Seq::new(fields.len(), |i: int| type_decl(fields[i], i as nat, params, source))
}

/// The field list with every field normalised; shape and order stay.
pub open spec fn normalized_fields(fields: FieldsView, parent: Seq<char>) -> FieldsView {
    fields.with_list(
        Seq::new(
            fields.list().len(),
            |i: int| normalized_field(fields.list()[i], i as nat, parent),
        ),
    )
}

/// Walks the type of every field. Fails at the first type that is no type
/// expression.
fn walk_fields(fields: &Fields) -> (r: Result<Vec<FieldTypeGenerics>, TransformError>)
    ensures
        match r {
            Ok(heads) => {
                &&& walkable(fields@.list())
                &&& heads.len() == fields@.list().len()
                &&& forall|i: int|
                    0 <= i < heads.len() ==> referenced_heads(fields@.list()[i].ty) == Some(
                        (#[trigger] heads[i])@,
                    )
            },
            Err(error) => !walkable(fields@.list()) && error
                == TransformError::MalformedDeclaration,
        },
{
    let n: usize = fields.len();
    let mut heads: Vec<FieldTypeGenerics> = Vec::new();
    let mut i: usize = 0;
    while i < n
        invariant
            n == fields@.list().len(),
            i <= n,
            heads.len() == i,
            forall|j: int| 0 <= j < i ==> referenced_heads(fields@.list()[j].ty) == Some(
                (#[trigger] heads[j])@,
            ),
        decreases n - i,
    {
        let field = fields.get(i).unwrap();
        match FieldTypeGenerics::from_type(field.ty.as_str()) {
            Some(found) => {
                heads.push(found);
            },
            None => {
                return Err(TransformError::MalformedDeclaration);
            },
        }
        i = i + 1;
    }
    assert forall|j: int| 0 <= j < fields@.list().len() implies referenced_heads(
        (#[trigger] fields@.list()[j]).ty,
    ) is Some by {
        assert(referenced_heads(fields@.list()[j].ty) == Some(heads[j]@));
    }
    Ok(heads)
}

/// Normalises every field and makes the alias of each, in declaration order.
/// A field whose type is no type expression makes the declaration malformed,
/// and the fields are then left as they were.
pub fn parse_type_decls(fields: &mut Fields, generics: &Generics, source: &Source) -> (r: Result<
    Vec<TypeAlias>,
    TransformError,
>)
    ensures
        match r {
            Ok(decls) => {
                &&& walkable(old(fields)@.list())
                &&& decls.deep_view() == type_decls(
                    old(fields)@.list(),
                    generics@.params,
                    source@,
                )
                &&& final(fields)@ == normalized_fields(old(fields)@, source@.name)
            },
            Err(error) => {
                &&& !walkable(old(fields)@.list())
                &&& error == TransformError::MalformedDeclaration
                &&& final(fields)@ == old(fields)@
            },
        },
{
    let heads = match walk_fields(fields) {
        Ok(heads) => heads,
        Err(error) => {
            return Err(error);
        },
    };
    let n: usize = fields.len();
    let ghost before = fields@.list();
    let ghost wanted = type_decls(before, generics@.params, source@);
    let ghost normal = Seq::new(
        before.len(),
        |i: int| normalized_field(before[i], i as nat, source@.name),
    );
    let mut decls: Vec<TypeAlias> = Vec::new();
    let mut list: Vec<Field> = Vec::new();
    let mut i: usize = 0;
    while i < n
        invariant
            n == before.len(),
            heads.len() == n,
            i <= n,
            fields@.list() == before,
            walkable(before),
            wanted == type_decls(before, generics@.params, source@),
            normal == Seq::new(
                before.len(),
                |i: int| normalized_field(before[i], i as nat, source@.name),
            ),
            forall|j: int|
                0 <= j < n ==> referenced_heads(before[j].ty) == Some((#[trigger] heads[j])@),
            decls.deep_view() == wanted.take(i as int),
            list.deep_view() == normal.take(i as int),
        decreases n - i,
    {
        let mut field = fields.get(i).unwrap().duplicate();
        let ghost decls_before = decls.deep_view();
        let ghost list_before = list.deep_view();
        let decl = TypeAlias::for_field(&mut field, i, &heads[i], generics, source);
        decls.push(decl);
        list.push(field);
        assert(decls.deep_view() =~= decls_before.push(decl@));
        assert(list.deep_view() =~= list_before.push(field@));
        i = i + 1;
    }
    assert(normal.take(n as int) =~= normal);
    let rebuilt = fields.with_list(list);
    *fields = rebuilt;
    Ok(decls)
}

/// What the module holds: the markers, the free-standing aliases, the
/// canonical struct and the contract.
#[derive(Debug, PartialEq, Eq)]
pub struct TypeModuleInner {
    /// The canonical identifier of every field, in declaration order.
    pub field_decls: Vec<String>,
    /// The aliases of the fields that depend on no type parameter.
    pub type_decls: Vec<TypeAlias>,
    /// The contract, which holds the aliases of the other fields.
    pub generic_decl: TypeGeneric,
    /// The canonical struct.
    pub struct_decl: TypeStructure,
}

pub struct TypeModuleInnerView {
    pub field_decls: Seq<Seq<char>>,
    pub type_decls: Seq<TypeAliasView>,
    pub generic_decl: TypeGenericView,
    pub struct_decl: TypeStructureView,
}

impl View for TypeModuleInner {
    type V = TypeModuleInnerView;

    open spec fn view(&self) -> TypeModuleInnerView {
        TypeModuleInnerView {
            field_decls: self.field_decls.deep_view(),
            type_decls: self.type_decls.deep_view(),
            generic_decl: self.generic_decl@,
            struct_decl: self.struct_decl@,
        }
    }
}

/// The module that takes the place of a declaration.
#[derive(Debug, PartialEq, Eq)]
pub struct TypeModule {
    /// The attributes of the declaration, and the documentation of the struct.
    pub attrs: Vec<String>,
    /// The visibility of the declaration.
    pub vis: String,
    /// The name of the declared struct, which names the module.
    pub ident: String,
    /// What the module holds.
    pub inner: TypeModuleInner,
}

pub struct TypeModuleView {
    pub attrs: Seq<Seq<char>>,
    pub vis: Seq<char>,
    pub ident: Seq<char>,
    pub inner: TypeModuleInnerView,
}

impl View for TypeModule {
    type V = TypeModuleView;

    open spec fn view(&self) -> TypeModuleView {
        TypeModuleView {
            attrs: self.attrs.deep_view(),
            vis: self.vis@,
            ident: self.ident@,
            inner: self.inner@,
        }
    }
}

/// The predicate "the field depends on no type parameter".
pub open spec fn independent() -> spec_fn(TypeAliasView) -> bool {
    |alias: TypeAliasView| alias.is_independent()
}

/// The predicate "the field depends on a type parameter".
pub open spec fn dependent() -> spec_fn(TypeAliasView) -> bool {
    |alias: TypeAliasView| alias.is_dependent()
}

/// The identifiers of a list of aliases, in order.
pub open spec fn alias_idents(decls: Seq<TypeAliasView>) -> Seq<Seq<char>> {
    Seq::new(decls.len(), |i: int| decls[i].ident)
}

/// The marker type of one field: a unit struct named like the field.
pub open spec fn marker_tokens(ident: Seq<char>) -> Seq<char> {
    "pub struct "@ + ident + "; "@
}

/// The marker types of a list of identifiers, one text each.
pub open spec fn markers(idents: Seq<Seq<char>>) -> Seq<Seq<char>> {
    Seq::new(idents.len(), |i: int| marker_tokens(idents[i]))
}

/// The free-standing aliases of a list, one text each.
pub open spec fn alias_tokens(decls: Seq<TypeAliasView>) -> Seq<Seq<char>> {
    Seq::new(decls.len(), |i: int| decls[i].tokens())
}

/// The attributes of the module and of the canonical struct: those of the
/// declaration, then the documentation of the struct.
pub open spec fn struct_attrs(decl: RecordView, code: Seq<char>) -> Seq<Seq<char>> {
    decl.attrs.push(doc_attribute_text(doc_struct_text(decl.ident, code)))
}

/// The aliases of all fields of a declaration, in declaration order.
pub open spec fn all_decls(decl: RecordView, code: Seq<char>) -> Seq<TypeAliasView> {
    type_decls(
        decl.fields.list(),
        decl.generics.params,
        SourceView { name: decl.ident, code: code },
    )
}

/// The module that takes the place of the declaration `decl`, whose source
/// the documentation shows as `code`.
pub open spec fn module_of(decl: RecordView, code: Seq<char>) -> TypeModuleView {
    TypeModuleView {
        attrs: struct_attrs(decl, code),
        vis: decl.vis,
        ident: decl.ident,
        inner: TypeModuleInnerView {
            field_decls: alias_idents(all_decls(decl, code)),
            type_decls: all_decls(decl, code).filter(independent()),
            generic_decl: TypeGenericView {
                ident: "protocol"@,
                generics: decl.generics,
                assoc_decls: all_decls(decl, code).filter(dependent()),
                type_struct_ident: "core"@,
            },
            struct_decl: TypeStructureView {
                attrs: struct_attrs(decl, code),
                vis: "pub"@,
                ident: "core"@,
                generics: decl.generics,
                fields: normalized_fields(decl.fields, decl.ident),
                semi_colon: decl.semi_colon,
            },
        },
    }
}

/// What the transformation of the source text `item` ends in: the module, or
/// the reason why there is none. A formatter that failed goes before all
/// else; then the text has to be a declaration, and the type of each of its
/// fields a type expression.
pub open spec fn expansion(item: Seq<char>, formatted: Option<Seq<char>>) -> Result<
    TypeModuleView,
    TransformError,
> {
    match formatted {
        None => Err(TransformError::UnformattableSource),
        Some(code) => match parsed_declaration(item) {
            None => Err(TransformError::MalformedDeclaration),
            Some(decl) => if walkable(decl.fields.list()) {
                Ok(module_of(decl, code))
            } else {
                Err(TransformError::MalformedDeclaration)
            },
        },
    }
}

impl TypeModuleInnerView {
    /// The sub-module of marker types.
    pub open spec fn field_module_tokens(self) -> Seq<char> {
        "pub mod field { "@ + joined(markers(self.field_decls)) + "} "@
    }

    /// The marker sub-module, the free-standing aliases, the canonical struct
    /// and the contract, in this order.
    pub open spec fn tokens(self) -> Seq<char> {
        self.field_module_tokens() + joined(alias_tokens(self.type_decls))
            + self.struct_decl.tokens() + self.generic_decl.tokens()
    }
}

impl TypeModuleView {
    /// The module, as source text.
    pub open spec fn tokens(self) -> Seq<char> {
        "#[allow(non_snake_case)] "@ + terminated(self.attrs, " "@) + self.vis + " mod "@
            + self.ident + " { #![allow(non_camel_case_types)] "@ + self.inner.tokens() + "}"@
    }
}

fn marker_texts(idents: &Vec<String>) -> (r: Vec<String>)
    ensures
        r.deep_view() == markers(idents.deep_view()),
{
    let mut r: Vec<String> = Vec::new();
    let mut i: usize = 0;
    while i < idents.len()
        invariant
            i <= idents.len(),
            r.deep_view() == markers(idents.deep_view()).take(i as int),
        decreases idents.len() - i,
    {
        let ghost before = r.deep_view();
        let mut text = String::from_str("pub struct ");
        text.append(idents[i].as_str());
        text.append("; ");
        r.push(text);
        assert(r.deep_view() =~= before.push(text@));
        i = i + 1;
    }
    r
}

fn alias_texts(decls: &Vec<TypeAlias>) -> (r: Vec<String>)
    ensures
        r.deep_view() == alias_tokens(decls.deep_view()),
{
    let mut r: Vec<String> = Vec::new();
    let mut i: usize = 0;
    while i < decls.len()
        invariant
            i <= decls.len(),
            r.deep_view() == alias_tokens(decls.deep_view()).take(i as int),
        decreases decls.len() - i,
    {
        let ghost before = r.deep_view();
        let text = decls[i].tokens();
        r.push(text);
        assert(r.deep_view() =~= before.push(text@));
        i = i + 1;
    }
    r
}

impl TypeModuleInner {
    /// Sorts the aliases of all fields into those that stand alone and those
    /// that the contract holds, and puts the module's contents together.
    /// Every field is classified once: its alias goes to exactly one side.
    pub fn new(decls: Vec<TypeAlias>, generics: Generics, struct_decl: TypeStructure) -> (r:
        TypeModuleInner)
        ensures
            r@ == (TypeModuleInnerView {
                field_decls: alias_idents(decls.deep_view()),
                type_decls: decls.deep_view().filter(independent()),
                generic_decl: TypeGenericView {
                    ident: "protocol"@,
                    generics: generics@,
                    assoc_decls: decls.deep_view().filter(dependent()),
                    type_struct_ident: struct_decl@.ident,
                },
                struct_decl: struct_decl@,
            }),
    {
        let ghost all = decls.deep_view();
        let mut field_decls: Vec<String> = Vec::new();
        let mut type_decls: Vec<TypeAlias> = Vec::new();
        let mut assoc_decls: Vec<TypeAlias> = Vec::new();
        let mut i: usize = 0;
        proof {
            reveal(Seq::filter);
        }
        while i < decls.len()
            invariant
                i <= decls.len(),
                all == decls.deep_view(),
                field_decls.deep_view() == alias_idents(all).take(i as int),
                type_decls.deep_view() == all.take(i as int).filter(independent()),
                assoc_decls.deep_view() == all.take(i as int).filter(dependent()),
            decreases decls.len() - i,
        {
            let ghost done = all.take(i as int);
            let ghost idents_before = field_decls.deep_view();
            proof {
                assert(all.take(i as int + 1) =~= done.push(all[i as int]));
                done.lemma_filter_push(all[i as int], independent());
                done.lemma_filter_push(all[i as int], dependent());
            }
            let ident = decls[i].ident.clone();
            field_decls.push(ident);
            assert(field_decls.deep_view() =~= idents_before.push(ident@));
            let alias = decls[i].duplicate();
            if alias.is_independent() {
                type_decls.push(alias);
            } else {
                assoc_decls.push(alias);
            }
            i = i + 1;
        }
        assert(all.take(decls.len() as int) =~= all);
        assert(alias_idents(all).take(decls.len() as int) =~= alias_idents(all));
        let generic_decl = TypeGeneric {
            ident: String::from_str("protocol"),
            generics,
            assoc_decls,
            type_struct_ident: struct_decl.ident.clone(),
        };
        TypeModuleInner { field_decls, type_decls, generic_decl, struct_decl }
    }

    /// The contents of the module, as source text.
    pub fn tokens(&self) -> (r: String)
        ensures
            r@ == self@.tokens(),
    {
        let field_decls = marker_texts(&self.field_decls);
        let type_decls = alias_texts(&self.type_decls);
        let struct_decl = self.struct_decl.tokens();
        let generic_decl = self.generic_decl.tokens();
        let mut r = String::from_str("pub mod field { ");
        push_joined(&mut r, &field_decls);
        r.append("} ");
        push_joined(&mut r, &type_decls);
        r.append(struct_decl.as_str());
        r.append(generic_decl.as_str());
        r
    }

    /// Appends the contents of the module to `tokens`.
    pub fn to_tokens(&self, tokens: &mut String)
        ensures
            final(tokens)@ == old(tokens)@ + self@.tokens(),
    {
        let text = self.tokens();
        tokens.append(text.as_str());
    }
}

impl TypeModule {
    /// Builds the module that takes the place of `decl`; `code` is the source
    /// text that the documentation shows. The declaration is malformed where
    /// the type of one of its fields is no type expression.
    pub fn from_declaration(decl: RecordDeclaration, code: &str) -> (r: Result<
        TypeModule,
        TransformError,
    >)
        ensures
            match r {
                Ok(module) => walkable(decl@.fields.list()) && module@ == module_of(decl@, code@),
                Err(error) => !walkable(decl@.fields.list()) && error
                    == TransformError::MalformedDeclaration,
            },
    {
        let ghost before = decl@;
        let RecordDeclaration { attrs, vis, ident, generics, fields, semi_colon } = decl;
        let source = Source { name: ident.clone(), code: String::from_str(code) };
        let struct_doc = doc_struct(source.name.as_str(), source.code.as_str());
        let mut attrs = attrs;
        attrs.push(doc_attribute(struct_doc.as_str()));
        assert(attrs.deep_view() =~= struct_attrs(before, code@));
        let mut fields = fields;
        let decls = match parse_type_decls(&mut fields, &generics, &source) {
            Ok(decls) => decls,
            Err(error) => {
                return Err(error);
            },
        };
        let struct_decl = TypeStructure {
            attrs: clone_texts(&attrs),
            vis: String::from_str("pub"),
            ident: String::from_str("core"),
            generics: generics.duplicate(),
            fields,
            semi_colon,
        };
        let inner = TypeModuleInner::new(decls, generics, struct_decl);
        Ok(TypeModule { attrs, vis, ident, inner })
    }

    /// Parses the declaration `item` and builds the module that takes its
    /// place. `formatted` is the source text as the formatter laid it out, or
    /// `None` where the formatter failed, which ends the transformation before
    /// anything is parsed.
    pub fn parse(item: &str, formatted: Option<&str>) -> (r: Result<TypeModule, TransformError>)
        ensures
            match r {
                Ok(module) => expansion(item@, formatted.deep_view()) == Ok::<
                    TypeModuleView,
                    TransformError,
                >(module@),
                Err(error) => expansion(item@, formatted.deep_view()) == Err::<
                    TypeModuleView,
                    TransformError,
                >(error),
            },
    {
        let code = match formatted {
            Some(code) => code,
            None => {
                return Err(TransformError::UnformattableSource);
            },
        };
        let decl = match RecordDeclaration::parse(item) {
            Ok(decl) => decl,
            Err(error) => {
                return Err(error);
            },
        };
        TypeModule::from_declaration(decl, code)
    }

    /// The module, as source text.
    pub fn tokens(&self) -> (r: String)
        ensures
            r@ == self@.tokens(),
    {
        let inner = self.inner.tokens();
        let mut r = String::from_str("#[allow(non_snake_case)] ");
        push_terminated(&mut r, &self.attrs, " ");
        r.append(self.vis.as_str());
        r.append(" mod ");
        r.append(self.ident.as_str());
        r.append(" { #![allow(non_camel_case_types)] ");
        r.append(inner.as_str());
        r.append("}");
        r
    }

    /// Appends the module to `tokens`.
    pub fn to_tokens(&self, tokens: &mut String)
        ensures
            final(tokens)@ == old(tokens)@ + self@.tokens(),
    {
        let text = self.tokens();
        tokens.append(text.as_str());
    }
}

/// Builds the module that takes the place of `decl` and writes it out.
pub fn expand(decl: RecordDeclaration, code: &str) -> (r: Result<String, TransformError>)
    ensures
        match r {
            Ok(tokens) => walkable(decl@.fields.list()) && tokens@ == module_of(
                decl@,
                code@,
            ).tokens(),
            Err(error) => !walkable(decl@.fields.list()) && error
                == TransformError::MalformedDeclaration,
        },
{
    match TypeModule::from_declaration(decl, code) {
        Ok(module) => Ok(module.tokens()),
        Err(error) => Err(error),
    }
}

/// The whole transformation: from the source text of a struct declaration to
/// the source text of the module that takes its place. `formatted` is the same
/// source text as the formatter laid it out, or `None` where the formatter
/// failed.
pub fn codegen(item: &str, formatted: Option<&str>) -> (r: Result<String, TransformError>)
    ensures
        match r {
            Ok(tokens) => expansion(item@, formatted.deep_view()) matches Ok(module)
                && tokens@ == module.tokens(),
            Err(error) => expansion(item@, formatted.deep_view()) == Err::<
                TypeModuleView,
                TransformError,
            >(error),
        },
{
    match TypeModule::parse(item, formatted) {
        Ok(module) => {
            let mut tokens = String::new();
            module.to_tokens(&mut tokens);
            Ok(tokens)
        },
        Err(error) => Err(error),
    }
}

} // verus!

//! The contract of a struct: a trait with one associated type for every field
//! that depends on a type parameter, and the implementation of that trait for
//! the canonical struct. The trait also has an associated type `__Core`, which
//! is bound by the trait itself: an implementer names a type that meets the
//! same contract with the same associated types.

use crate::alias::{TypeAlias, TypeAliasView};
use crate::record::{Generics, GenericsView};
use crate::text::{joined, push_joined};
use vstd::prelude::*;
use vstd::string::*;

verus! {

/// The contract trait and its implementation for the canonical struct.
#[derive(Debug, PartialEq, Eq)]
pub struct TypeGeneric {
    /// The name of the trait.
    pub ident: String,
    /// The generic parameters of the struct, all of them.
    pub generics: Generics,
    /// The aliases of the fields that depend on a type parameter.
    pub assoc_decls: Vec<TypeAlias>,
    /// The name of the canonical struct.
    pub type_struct_ident: String,
}

pub struct TypeGenericView {
    pub ident: Seq<char>,
    pub generics: GenericsView,
    pub assoc_decls: Seq<TypeAliasView>,
    pub type_struct_ident: Seq<char>,
}

impl View for TypeGeneric {
    type V = TypeGenericView;

    open spec fn view(&self) -> TypeGenericView {
        TypeGenericView {
            ident: self.ident@,
            generics: self.generics@,
            assoc_decls: self.assoc_decls.deep_view(),
            type_struct_ident: self.type_struct_ident@,
        }
    }
}

/// The associated type declarations of the trait, one per alias.
pub open spec fn declarations(decls: Seq<TypeAliasView>) -> Seq<Seq<char>> {
    Seq::new(decls.len(), |i: int| decls[i].declaration())
}

/// The associated type bindings of the implementation, one per alias.
pub open spec fn bindings(decls: Seq<TypeAliasView>) -> Seq<Seq<char>> {
    Seq::new(decls.len(), |i: int| decls[i].binding())
}

/// The constraints on `__Core`, one per alias.
pub open spec fn rebindings(decls: Seq<TypeAliasView>) -> Seq<Seq<char>> {
    Seq::new(decls.len(), |i: int| decls[i].rebinding())
}

impl TypeGenericView {
    /// What constrains `__Core` beyond the trait itself: nothing where the
    /// trait has no associated type of a field, else every such type tied to
    /// that of `Self`.
    pub open spec fn bind_generic(self) -> Seq<char> {
        if self.assoc_decls.len() == 0 {
            Seq::empty()
        } else {
            "<"@ + joined(rebindings(self.assoc_decls)) + ">"@
        }
    }

    /// The trait.
    pub open spec fn trait_tokens(self) -> Seq<char> {
        "pub trait "@ + self.ident + " { type __Core: "@ + self.ident + self.bind_generic()
            + "; "@ + joined(declarations(self.assoc_decls)) + "} "@
    }

    /// The implementation of the trait for the canonical struct.
    pub open spec fn impl_tokens(self) -> Seq<char> {
        "impl"@ + self.generics.impl_generics + " "@ + self.ident + " for "@
            + self.type_struct_ident + self.generics.type_generics + " { type __Core = Self; "@
            + joined(bindings(self.assoc_decls)) + "} "@
    }

    /// The trait, then its implementation.
    pub open spec fn tokens(self) -> Seq<char> {
        self.trait_tokens() + self.impl_tokens()
    }
}

fn declaration_texts(decls: &Vec<TypeAlias>) -> (r: Vec<String>)
    ensures
        r.deep_view() == declarations(decls.deep_view()),
{
    let mut r: Vec<String> = Vec::new();
    let mut i: usize = 0;
    while i < decls.len()
        invariant
            i <= decls.len(),
            r.deep_view() == declarations(decls.deep_view()).take(i as int),
        decreases decls.len() - i,
    {
        let ghost before = r.deep_view();
        let text = decls[i].declaration();
        r.push(text);
        assert(r.deep_view() =~= before.push(text@));
        i = i + 1;
    }
    r
}

fn binding_texts(decls: &Vec<TypeAlias>) -> (r: Vec<String>)
    ensures
        r.deep_view() == bindings(decls.deep_view()),
{
    let mut r: Vec<String> = Vec::new();
    let mut i: usize = 0;
    while i < decls.len()
        invariant
            i <= decls.len(),
            r.deep_view() == bindings(decls.deep_view()).take(i as int),
        decreases decls.len() - i,
    {
        let ghost before = r.deep_view();
        let text = decls[i].binding();
        r.push(text);
        assert(r.deep_view() =~= before.push(text@));
        i = i + 1;
    }
    r
}

fn rebinding_texts(decls: &Vec<TypeAlias>) -> (r: Vec<String>)
    ensures
        r.deep_view() == rebindings(decls.deep_view()),
{
    let mut r: Vec<String> = Vec::new();
    let mut i: usize = 0;
    while i < decls.len()
        invariant
            i <= decls.len(),
            r.deep_view() == rebindings(decls.deep_view()).take(i as int),
        decreases decls.len() - i,
    {
        let ghost before = r.deep_view();
        let text = decls[i].rebinding();
        r.push(text);
        assert(r.deep_view() =~= before.push(text@));
        i = i + 1;
    }
    r
}

impl TypeGeneric {
    /// What constrains `__Core` beyond the trait itself.
    pub fn bind_generic(&self) -> (r: String)
        ensures
            r@ == self@.bind_generic(),
    {
        if self.assoc_decls.len() == 0 {
            String::new()
        } else {
            let binds = rebinding_texts(&self.assoc_decls);
            let mut r = String::from_str("<");
            push_joined(&mut r, &binds);
            r.append(">");
            r
        }
    }

    /// The trait, then its implementation for the canonical struct.
    pub fn tokens(&self) -> (r: String)
        ensures
            r@ == self@.tokens(),
    {
        let bind_generic = self.bind_generic();
        let assoc_decls = declaration_texts(&self.assoc_decls);
        let assoc_impl_decls = binding_texts(&self.assoc_decls);
        let mut r = String::from_str("pub trait ");
        r.append(self.ident.as_str());
        r.append(" { type __Core: ");
        r.append(self.ident.as_str());
        r.append(bind_generic.as_str());
        r.append("; ");
        push_joined(&mut r, &assoc_decls);
        r.append("} ");
        let mut body = String::from_str("impl");
        body.append(self.generics.impl_generics.as_str());
        body.append(" ");
        body.append(self.ident.as_str());
        body.append(" for ");
        body.append(self.type_struct_ident.as_str());
        body.append(self.generics.type_generics.as_str());
        body.append(" { type __Core = Self; ");
        push_joined(&mut body, &assoc_impl_decls);
        body.append("} ");
        r.append(body.as_str());
        r
    }

    /// Appends the trait and its implementation to `tokens`.
    pub fn to_tokens(&self, tokens: &mut String)
        ensures
            final(tokens)@ == old(tokens)@ + self@.tokens(),
    {
        let text = self.tokens();
        tokens.append(text.as_str());
    }
}

} // verus!

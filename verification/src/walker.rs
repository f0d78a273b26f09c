//! Which identifiers a type expression refers to, and which of the
//! declaration's type parameters a field therefore depends on.
//!
//! The traversal is syntactic: an identifier counts when it is the first
//! segment of a type path anywhere in the expression, whether or not it
//! resolves to a type parameter. A type that merely shares a parameter's name
//! is taken for the parameter.

use crate::record::{GenericParameter, GenericParameterView, Generics};
use crate::text::contains_text;
use crate::tools::{get_generic_idents, idents_of};
use vstd::prelude::*;

verus! {

#[verifier::external_type_specification]
#[verifier::external_body]
pub struct ExTypePath(syn::TypePath);

/// The identifiers that head the type paths of one type expression.
#[derive(Debug, PartialEq, Eq)]
pub struct FieldTypeGenerics(pub Vec<String>);

impl View for FieldTypeGenerics {
    type V = Set<Seq<char>>;

    open spec fn view(&self) -> Set<Seq<char>> {
        self.0.deep_view().to_set()
    }
}

/// The set of identifiers that `syn` finds at the head of a type path when it
/// parses `ty` as a type and visits every node of it; `None` where `ty` does
/// not parse as a type.
pub uninterp spec fn referenced_heads(ty: Seq<char>) -> Option<Set<Seq<char>>>;

impl<'ast> syn::visit::Visit<'ast> for FieldTypeGenerics {
    /// Called by `syn::visit` once for every type path: notes the identifier
    /// of the path's first segment, then lets `syn::visit::visit_type_path`
    /// descend into the path's generic arguments and qualified self type.
    #[verifier::external_body]
    fn visit_type_path(&mut self, node: &'ast syn::TypePath) {
        self.note(node.path.segments.first().map(|segment| segment.ident.to_string()));
        syn::visit::visit_type_path(self, node);
    }
}

/// `syn::parse_str::<syn::Type>` followed by `syn::visit::visit_type` with a
/// `FieldTypeGenerics` as the visitor: the result holds exactly the heads that
/// the visit came across, and is `None` exactly where the text is no type.
/// `proc_macro2::fallback::force` comes first: the lexer is then
/// `proc_macro2`'s own in every process, so that the text alone decides.
#[verifier::external_body]
fn walk_type(ty: &str) -> (r: Option<FieldTypeGenerics>)
    ensures
        match r {
            Some(found) => referenced_heads(ty@) == Some(found@),
            None => referenced_heads(ty@) is None,
        },
{
    proc_macro2::fallback::force();
    let parsed = syn::parse_str::<syn::Type>(ty).ok()?;
    let mut found = FieldTypeGenerics(Vec::new());
    syn::visit::visit_type(&mut found, &parsed);
    Some(found)
}

/// The predicate "this parameter's identifier is one of `heads`".
pub open spec fn named_in(heads: Set<Seq<char>>) -> spec_fn(GenericParameterView) -> bool {
    |p: GenericParameterView| heads.contains(p.ident)
}

/// The type parameters that a type with the given heads refers to: those of
/// `params` whose identifier is among `heads`, in declaration order.
pub open spec fn matched_generics(
    params: Seq<GenericParameterView>,
    heads: Set<Seq<char>>,
) -> Seq<GenericParameterView> {
    params.filter(named_in(heads))
}

/// How a field with the given heads is classified: `None` for a field that
/// depends on no type parameter, else the parameters it depends on.
pub open spec fn classification(
    params: Seq<GenericParameterView>,
    heads: Set<Seq<char>>,
) -> Option<Seq<GenericParameterView>> {
    if matched_generics(params, heads).len() == 0 {
        None
    } else {
        Some(matched_generics(params, heads))
    }
}

impl FieldTypeGenerics {
    /// Walks the type expression `ty` and collects the heads of its type
    /// paths. `None` where `ty` is not a type expression.
    pub fn from_type(ty: &str) -> (r: Option<FieldTypeGenerics>)
        ensures
            match r {
                Some(found) => referenced_heads(ty@) == Some(found@),
                None => referenced_heads(ty@) is None,
            },
    {
        walk_type(ty)
    }

    /// Adds the head of one type path, where the path has one.
    pub fn note(&mut self, head: Option<String>)
        ensures
            final(self)@ == match head {
                Some(name) => old(self)@.insert(name@),
                None => old(self)@,
            },
    {
        match head {
            Some(name) => {
                let ghost before = self.0.deep_view();
                self.0.push(name);
                assert(self.0.deep_view() =~= before.push(name@));
                assert(before.push(name@).to_set() =~= before.to_set().insert(name@)) by {
                    let after = before.push(name@);
                    assert forall|x: Seq<char>| #[trigger]
                        after.to_set().contains(x) implies before.to_set().insert(
                        name@,
                    ).contains(x) by {
                        let k = choose|k: int| 0 <= k < after.len() && after[k] == x;
                        if k < before.len() {
                        }
                    }
                    assert forall|x: Seq<char>| #[trigger]
                        before.to_set().insert(name@).contains(x) implies after.to_set().contains(
                        x,
                    ) by {
                        if x == name@ {
                            assert(after[before.len() as int] == x);
                        } else {
                            let k = choose|k: int| 0 <= k < before.len() && before[k] == x;
                            assert(after[k] == x);
                        }
                    }
                }
            },
            None => {},
        }
    }

    /// Whether `ident` heads a type path of the walked type.
    pub fn contains(&self, ident: &str) -> (r: bool)
        ensures
            r == self@.contains(ident@),
    {
        contains_text(&self.0, ident)
    }

    /// Classifies the walked type against the declared type parameters: `None`
    /// where it refers to none of them, else exactly those it refers to, in
    /// declaration order.
    pub fn classify(&self, generics: &Generics) -> (r: Option<Vec<GenericParameter>>)
        ensures
            r.deep_view() == classification(generics@.params, self@),
    {
        let declared = get_generic_idents(generics);
        let mut matched: Vec<GenericParameter> = Vec::new();
        let mut i: usize = 0;
        proof {
            reveal(Seq::filter);
            assert(declared.deep_view().len() == generics@.params.len());
        }
        while i < generics.params.len()
            invariant
                i <= generics.params.len(),
                declared.len() == generics.params.len(),
                declared.deep_view() == idents_of(generics@.params),
                matched.deep_view() == matched_generics(generics@.params.take(i as int), self@),
            decreases generics.params.len() - i,
        {
            let ghost done = generics@.params.take(i as int);
            let ghost param = generics@.params[i as int];
            proof {
                assert(generics@.params.take(i as int + 1) =~= done.push(param));
                done.lemma_filter_push(param, named_in(self@));
                assert(declared.deep_view()[i as int] == param.ident);
            }
            if self.contains(declared[i].as_str()) {
                matched.push(generics.params[i].duplicate());
            }
            i = i + 1;
        }
        assert(generics@.params.take(generics.params.len() as int) =~= generics@.params);
        if matched.len() == 0 {
            None
        } else {
            Some(matched)
        }
    }
}

} // verus!

//! What holds of every module that is built from a declaration.

use crate::alias::TypeAliasView;
use crate::builder::{all_decls, dependent, independent, markers, module_of};
use crate::contract::{bindings, declarations};
use crate::record::{FieldsView, GenericParameterView, RecordView};
use crate::text::decimal;
use crate::tools::{
    canonical_name, doc_attribute_text, doc_field_text, doc_type_text, generics_text,
};
use crate::walker::{classification, matched_generics, named_in, referenced_heads};
use vstd::prelude::*;

verus! {

/// The number of aliases before position `i` that depend on no type parameter:
/// the place of the alias at `i` among the free-standing aliases.
pub open spec fn independent_before(all: Seq<TypeAliasView>, i: int) -> int {
    all.take(i).filter(independent()).len() as int
}

/// The number of aliases before position `i` that depend on a type parameter:
/// the place of the alias at `i` among the associated types of the contract.
pub open spec fn dependent_before(all: Seq<TypeAliasView>, i: int) -> int {
    all.take(i).filter(dependent()).len() as int
}

/// An element that a filter keeps stands in the result behind exactly those
/// kept elements that stood before it.
proof fn lemma_filter_position<A>(s: Seq<A>, pred: spec_fn(A) -> bool, i: int)
    requires
        0 <= i < s.len(),
        pred(s[i]),
    ensures
        0 <= s.take(i).filter(pred).len() < s.filter(pred).len(),
        s.filter(pred)[s.take(i).filter(pred).len() as int] == s[i],
    decreases s.len(),
{
    reveal(Seq::filter);
    let rest = s.drop_last();
    if i == s.len() - 1 {
    } else {
        lemma_filter_position(rest, pred, i);
        assert(rest.take(i) =~= s.take(i));
    }
}

/// Every alias is kept by exactly one of the two filters.
proof fn lemma_partition(all: Seq<TypeAliasView>)
    ensures
        all.filter(independent()).len() + all.filter(dependent()).len() == all.len(),
    decreases all.len(),
{
    reveal(Seq::filter);
    if all.len() > 0 {
        lemma_partition(all.drop_last());
    }
}

/// A struct with N fields yields N canonical identifiers and N marker types,
/// N documented aliases and N documented fields of the canonical struct, each
/// list in the order of the declaration: entry `i` belongs to field `i`, is
/// named by the field's own name or else by the name made up from `i`, and
/// keeps the field's type.
pub proof fn law_one_identifier_per_field(decl: RecordView, code: Seq<char>)
    ensures
        ({
            let fields = decl.fields.list();
            let module = module_of(decl, code);
            let kept = module.inner.struct_decl.fields.list();
            &&& module.inner.field_decls.len() == fields.len()
            &&& markers(module.inner.field_decls).len() == fields.len()
            &&& all_decls(decl, code).len() == fields.len()
            &&& kept.len() == fields.len()
            &&& forall|i: int|
                #![trigger fields[i]]
                0 <= i < fields.len() ==> {
                    let name = canonical_name(fields[i].ident, i as nat);
                    let alias = all_decls(decl, code)[i];
                    &&& module.inner.field_decls[i] == name
                    &&& alias.ident == name
                    &&& alias.ty == fields[i].ty
                    &&& alias.docs == doc_attribute_text(
                        doc_type_text(name, fields[i].ty, alias.generics, code),
                    )
                    &&& kept[i].ident == fields[i].ident
                    &&& kept[i].ty == fields[i].ty
                    &&& kept[i].attrs == fields[i].attrs.push(
                        doc_attribute_text(doc_field_text(name, fields[i].ty, decl.ident)),
                    )
                }
        }),
{
}

/// A field whose type refers to none of the declared type parameters yields
/// an alias without parameters among the free-standing aliases, in the place
/// that its position among the fields gives it, and the contract has no
/// associated type for it.
pub proof fn law_independent_field_stands_alone(decl: RecordView, code: Seq<char>, i: int)
    requires
        0 <= i < decl.fields.list().len(),
        referenced_heads(decl.fields.list()[i].ty) matches Some(heads) && forall|k: int|
            0 <= k < decl.generics.params.len() ==> !heads.contains(
                #[trigger] decl.generics.params[k].ident,
            ),
    ensures
        ({
            let all = all_decls(decl, code);
            let module = module_of(decl, code);
            &&& all[i].generics is None
            &&& generics_text(all[i].generics) == Seq::<char>::empty()
            &&& 0 <= independent_before(all, i) < module.inner.type_decls.len()
            &&& module.inner.type_decls[independent_before(all, i)] == all[i]
            &&& !module.inner.generic_decl.assoc_decls.contains(all[i])
        }),
{
    let all = all_decls(decl, code);
    let params = decl.generics.params;
    let heads = referenced_heads(decl.fields.list()[i].ty).unwrap();
    let matched = matched_generics(params, heads);
    if matched.len() > 0 {
        params.lemma_filter_pred(named_in(heads), 0);
        params.lemma_filter_contains_rev(named_in(heads), matched[0]);
    }
    lemma_filter_position(all, independent(), i);
    let assoc = all.filter(dependent());
    if assoc.contains(all[i]) {
        let j = choose|j: int| 0 <= j < assoc.len() && assoc[j] == all[i];
        all.lemma_filter_pred(dependent(), j);
    }
}

/// A field whose type refers to at least one declared type parameter yields
/// exactly one associated type of the contract, declared once in the trait and
/// bound once in the implementation, in the place that its position among the
/// fields gives it. It yields no free-standing alias. The parameters that it
/// carries are those it refers to and no others.
pub proof fn law_dependent_field_joins_contract(
    decl: RecordView,
    code: Seq<char>,
    i: int,
    k: int,
)
    requires
        0 <= i < decl.fields.list().len(),
        0 <= k < decl.generics.params.len(),
        referenced_heads(decl.fields.list()[i].ty) matches Some(heads) && heads.contains(
            decl.generics.params[k].ident,
        ),
    ensures
        ({
            let all = all_decls(decl, code);
            let module = module_of(decl, code);
            let assoc = module.inner.generic_decl.assoc_decls;
            let heads = referenced_heads(decl.fields.list()[i].ty).unwrap();
            let place = dependent_before(all, i);
            &&& all[i].generics matches Some(carried)
            &&& carried.len() > 0
            &&& forall|p: GenericParameterView| #[trigger]
                carried.contains(p) <==> decl.generics.params.contains(p) && heads.contains(
                    p.ident,
                )
            &&& 0 <= place < assoc.len()
            &&& assoc[place] == all[i]
            &&& declarations(assoc).len() == assoc.len()
            &&& declarations(assoc)[place] == all[i].declaration()
            &&& bindings(assoc).len() == assoc.len()
            &&& bindings(assoc)[place] == all[i].binding()
            &&& !module.inner.type_decls.contains(all[i])
        }),
{
    let all = all_decls(decl, code);
    let params = decl.generics.params;
    let heads = referenced_heads(decl.fields.list()[i].ty).unwrap();
    let matched = matched_generics(params, heads);
    params.lemma_filter_contains(named_in(heads), k);
    assert forall|p: GenericParameterView| #[trigger]
        matched.contains(p) <==> params.contains(p) && heads.contains(p.ident) by {
        if matched.contains(p) {
            let j = choose|j: int| 0 <= j < matched.len() && matched[j] == p;
            params.lemma_filter_pred(named_in(heads), j);
            params.lemma_filter_contains_rev(named_in(heads), p);
        }
        if params.contains(p) && heads.contains(p.ident) {
            let j = choose|j: int| 0 <= j < params.len() && params[j] == p;
            params.lemma_filter_contains(named_in(heads), j);
        }
    }
    lemma_filter_position(all, dependent(), i);
    let alone = all.filter(independent());
    if alone.contains(all[i]) {
        let j = choose|j: int| 0 <= j < alone.len() && alone[j] == all[i];
        all.lemma_filter_pred(independent(), j);
    }
}

/// Classification is a function of the declared type parameters and of the
/// heads of the field's type: whatever is classified twice is classified
/// alike, as dependent or independent and with the same parameters.
pub proof fn law_classification_repeats(
    params: Seq<GenericParameterView>,
    heads: Set<Seq<char>>,
    first: Option<Seq<GenericParameterView>>,
    second: Option<Seq<GenericParameterView>>,
)
    requires
        first == classification(params, heads),
        second == classification(params, heads),
    ensures
        first == second,
        first is None <==> second is None,
{
}

/// The free-standing aliases and the associated types of the contract share
/// one classification: every field is found on exactly one side, on the side
/// that the classification of its type names, and the two sides together hold
/// as many aliases as the struct has fields.
pub proof fn law_classification_is_shared(decl: RecordView, code: Seq<char>)
    ensures
        ({
            let all = all_decls(decl, code);
            let module = module_of(decl, code);
            let fields = decl.fields.list();
            &&& module.inner.type_decls.len() + module.inner.generic_decl.assoc_decls.len()
                == fields.len()
            &&& forall|i: int|
                #![trigger all[i]]
                0 <= i < fields.len() ==> {
                    &&& all[i].generics == classification(
                        decl.generics.params,
                        referenced_heads(fields[i].ty).unwrap(),
                    )
                    &&& all[i].is_independent() <==> !all[i].is_dependent()
                    &&& all[i].is_independent() ==> module.inner.type_decls.contains(all[i])
                    &&& all[i].is_dependent() ==> module.inner.generic_decl.assoc_decls.contains(
                        all[i],
                    )
                }
            &&& forall|j: int|
                0 <= j < module.inner.type_decls.len() ==> (
                #[trigger] module.inner.type_decls[j]).is_independent()
            &&& forall|j: int|
                0 <= j < module.inner.generic_decl.assoc_decls.len() ==> (
                #[trigger] module.inner.generic_decl.assoc_decls[j]).is_dependent()
        }),
{
    let all = all_decls(decl, code);
    lemma_partition(all);
    assert forall|i: int| #![trigger all[i]] 0 <= i < all.len() implies (all[i].is_independent()
        ==> all.filter(independent()).contains(all[i])) && (all[i].is_dependent() ==> all.filter(
        dependent(),
    ).contains(all[i])) by {
        if all[i].is_independent() {
            all.lemma_filter_contains(independent(), i);
        }
        if all[i].is_dependent() {
            all.lemma_filter_contains(dependent(), i);
        }
    }
    assert forall|j: int| 0 <= j < all.filter(independent()).len() implies (#[trigger] all.filter(
        independent(),
    )[j]).is_independent() by {
        all.lemma_filter_pred(independent(), j);
    }
    assert forall|j: int| 0 <= j < all.filter(dependent()).len() implies (#[trigger] all.filter(
        dependent(),
    )[j]).is_dependent() by {
        all.lemma_filter_pred(dependent(), j);
    }
}

/// The fields of a positional list are named `field_0`, `field_1` and so on,
/// by their position in the declaration.
pub proof fn law_positional_fields_are_numbered(decl: RecordView, code: Seq<char>)
    requires
        decl.fields is Unnamed,
        decl.fields.wf(),
    ensures
        forall|i: int|
            #![trigger module_of(decl, code).inner.field_decls[i]]
            0 <= i < decl.fields.list().len() ==> {
                &&& module_of(decl, code).inner.field_decls[i] == "field_"@ + decimal(i as nat)
                &&& all_decls(decl, code)[i].ident == "field_"@ + decimal(i as nat)
            },
{
}

/// A unit struct yields no field, no marker type, no free-standing alias,
/// a canonical struct without a field list, and a contract whose only
/// associated type is `__Core`, bound by the bare trait.
pub proof fn law_unit_struct_is_minimal(decl: RecordView, code: Seq<char>)
    requires
        decl.fields is Unit,
    ensures
        ({
            let module = module_of(decl, code);
            &&& module.inner.field_decls == Seq::<Seq<char>>::empty()
            &&& module.inner.field_module_tokens() == "pub mod field { "@ + "} "@
            &&& module.inner.type_decls == Seq::<TypeAliasView>::empty()
            &&& module.inner.struct_decl.fields == FieldsView::Unit
            &&& module.inner.generic_decl.assoc_decls == Seq::<TypeAliasView>::empty()
            &&& module.inner.generic_decl.trait_tokens() == "pub trait "@ + "protocol"@
                + " { type __Core: "@ + "protocol"@ + "; "@ + "} "@
        }),
{
    reveal(Seq::filter);
}

} // verus!

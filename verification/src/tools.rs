//! Names and documentation: the canonical identifier of a field, the three
//! documentation texts, and the normalisation of a field.

use crate::record::{Field, FieldView, GenericParameter, GenericParameterView, Generics};
use crate::text::{decimal, decimal_text, escape, escaped, strip_spaces, without_spaces};
use vstd::prelude::*;
use vstd::string::*;

verus! {

/// The name made up for the field at position `index` of a positional list:
/// `field_` and the position in decimal, counted from zero.
pub open spec fn synthesized_name(index: nat) -> Seq<char> {
    "field_"@ + decimal(index)
}

/// The identifier under which a field is known in everything that is emitted:
/// its own name where it has one, else the name made up from its position.
pub open spec fn canonical_name(ident: Option<Seq<char>>, index: nat) -> Seq<char> {
    match ident {
        Some(name) => name,
        None => synthesized_name(index),
    }
}

/// The parameters of `params` as they stand between angle brackets: each as
/// declared, with a comma and a space between neighbours.
pub open spec fn parameter_list(params: Seq<GenericParameterView>) -> Seq<char>
    decreases params.len(),
{
    if params.len() == 0 {
        Seq::empty()
    } else if params.len() == 1 {
        params[0].decl
    } else {
        parameter_list(params.drop_last()) + ", "@ + params.last().decl
    }
}

/// The generic parameter list that an alias carries: nothing for a field that
/// depends on no parameter, else the parameters in angle brackets.
pub open spec fn generics_text(generics: Option<Seq<GenericParameterView>>) -> Seq<char> {
    match generics {
        None => Seq::empty(),
        Some(params) => "<"@ + parameter_list(params) + ">"@,
    }
}

/// The description of one field inside the canonical struct.
pub open spec fn doc_field_text(name: Seq<char>, ty: Seq<char>, parent: Seq<char>) -> Seq<char> {
    "Field `"@ + name + "` of `"@ + parent + "`, of type `"@ + without_spaces(ty) + "`."@
}

/// The description of the type alias of one field.
pub open spec fn doc_type_text(
    name: Seq<char>,
    ty: Seq<char>,
    generics: Option<Seq<GenericParameterView>>,
    source_code: Seq<char>,
) -> Seq<char> {
    "Type `"@ + name + generics_text(generics) + "`: the type `"@ + without_spaces(ty)
        + "` of the field `"@ + name + "`.\n\n```text\n"@ + source_code + "\n```"@
}

/// The description of the struct as a whole.
pub open spec fn doc_struct_text(name: Seq<char>, source_code: Seq<char>) -> Seq<char> {
    "The struct `"@ + name + "`, taken apart.\n\n```text\n"@ + source_code + "\n```"@
}

/// The attribute that attaches the documentation `doc` to an item.
pub open spec fn doc_attribute_text(doc: Seq<char>) -> Seq<char> {
    "#[doc = \""@ + escaped(doc) + "\"]"@
}

/// A field after normalisation: public, and documented by one more attribute
/// behind those it had; name and type stay.
pub open spec fn normalized_field(field: FieldView, index: nat, parent: Seq<char>) -> FieldView {
    FieldView {
        attrs: field.attrs.push(
            doc_attribute_text(
                doc_field_text(canonical_name(field.ident, index), field.ty, parent),
            ),
        ),
        vis: "pub"@,
        ident: field.ident,
        ty: field.ty,
    }
}

/// Makes up the name of the field at position `i` of a positional list.
pub fn create_ident(i: usize) -> (r: String)
    ensures
        r@ == synthesized_name(i as nat),
{
    let mut r = String::from_str("field_");
    let digits = decimal_text(i);
    r.append(digits.as_str());
    r
}

/// Writes a parameter list out, angle brackets included; nothing for `None`.
pub fn generics_string(generics: &Option<Vec<GenericParameter>>) -> (r: String)
    ensures
        r@ == generics_text(generics.deep_view()),
{
    match generics {
        None => String::new(),
        Some(params) => {
            let mut r = String::from_str("<");
            let mut i: usize = 0;
            while i < params.len()
                invariant
                    i <= params.len(),
                    r@ == "<"@ + parameter_list(params.deep_view().take(i as int)),
                decreases params.len() - i,
            {
                let ghost done = params.deep_view().take(i as int);
                let ghost next = params.deep_view().take(i as int + 1);
                proof {
                    assert(next.drop_last() =~= done);
                }
                if i > 0 {
                    r.append(", ");
                }
                r.append(params[i].decl.as_str());
                i = i + 1;
            }
            assert(params.deep_view().take(params.len() as int) =~= params.deep_view());
            r.append(">");
            r
        },
    }
}

/// Describes the type alias of the field `name` of type `ty`, which depends on
/// the parameters `generics`; `source_code` is shown below the description.
pub fn doc_type(
    name: &str,
    ty: &str,
    generics: &Option<Vec<GenericParameter>>,
    source_code: &str,
) -> (r: String)
    ensures
        r@ == doc_type_text(name@, ty@, generics.deep_view(), source_code@),
{
    let ty = strip_spaces(ty);
    let generics = generics_string(generics);
    let mut r = String::from_str("Type `");
    r.append(name);
    r.append(generics.as_str());
    r.append("`: the type `");
    r.append(ty.as_str());
    r.append("` of the field `");
    r.append(name);
    r.append("`.\n\n```text\n");
    r.append(source_code);
    r.append("\n```");
    r
}

/// Describes the field `name` of type `ty` in the struct `parent`.
pub fn doc_field(name: &str, ty: &str, parent: &str) -> (r: String)
    ensures
        r@ == doc_field_text(name@, ty@, parent@),
{
    let ty = strip_spaces(ty);
    let mut r = String::from_str("Field `");
    r.append(name);
    r.append("` of `");
    r.append(parent);
    r.append("`, of type `");
    r.append(ty.as_str());
    r.append("`.");
    r
}

/// Describes the struct `name`; `source_code` is shown below the description.
pub fn doc_struct(name: &str, source_code: &str) -> (r: String)
    ensures
        r@ == doc_struct_text(name@, source_code@),
{
    let mut r = String::from_str("The struct `");
    r.append(name);
    r.append("`, taken apart.\n\n```text\n");
    r.append(source_code);
    r.append("\n```");
    r
}

/// Writes the attribute that attaches the documentation `doc` to an item.
pub fn doc_attribute(doc: &str) -> (r: String)
    ensures
        r@ == doc_attribute_text(doc@),
{
    let body = escape(doc);
    let mut r = String::from_str("#[doc = \"");
    r.append(body.as_str());
    r.append("\"]");
    r
}

/// Normalises the field at position `i` of the struct `parent`: the field
/// becomes public and gets its description as one more attribute. Returns the
/// field's canonical identifier.
pub fn publicify_and_docify(field: &mut Field, parent: &str, i: usize) -> (r: String)
    ensures
        r@ == canonical_name(old(field)@.ident, i as nat),
        final(field)@ == normalized_field(old(field)@, i as nat, parent@),
{
    let ident = match &field.ident {
        Some(name) => name.clone(),
        None => create_ident(i),
    };
    let docu = doc_field(ident.as_str(), field.ty.as_str(), parent);
    let attr = doc_attribute(docu.as_str());
    let ghost before = field.attrs.deep_view();
    field.vis = String::from_str("pub");
    field.attrs.push(attr);
    assert(field.attrs.deep_view() =~= before.push(attr@));
    ident
}

/// The identifiers of a parameter list, in order.
pub open spec fn idents_of(params: Seq<GenericParameterView>) -> Seq<Seq<char>> {
    Seq::new(params.len(), |i: int| params[i].ident)
}

/// The identifiers of the declared type parameters, in declaration order.
pub fn get_generic_idents(generics: &Generics) -> (r: Vec<String>)
    ensures
        r.deep_view() == idents_of(generics@.params),
{
    let mut r: Vec<String> = Vec::new();
    let mut i: usize = 0;
    while i < generics.params.len()
        invariant
            i <= generics.params.len(),
            r.deep_view() == idents_of(generics@.params).take(i as int),
        decreases generics.params.len() - i,
    {
        let ghost before = r.deep_view();
        let ident = generics.params[i].ident.clone();
        r.push(ident);
        assert(r.deep_view() =~= before.push(ident@));
        i = i + 1;
    }
    r
}

} // verus!

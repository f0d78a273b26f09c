//! Reads a struct declaration from source text with `syn` and hands it on as
//! a `RecordDeclaration`.
//!
//! The grammar is: outer attributes, a visibility, the keyword `struct`, a
//! name, generic parameters, then a brace-delimited list of named fields, or a
//! parenthesized list of positional fields, or neither, and last an optional
//! semicolon. Nothing may follow.
//!
//! `syn` reads each piece at a cursor that moves through the tokens. What a
//! reading returns and where it leaves the cursor depend on the tokens that
//! are left and on nothing else, so each reading has a name over the text of
//! those tokens, and `declaration_read` puts the names together in the order
//! of the grammar.

use crate::error::TransformError;
use crate::record::{
    Field, FieldView, Fields, FieldsView, GenericParameter, Generics, GenericsView,
    RecordDeclaration, RecordView,
};
use quote::ToTokens;
use vstd::prelude::*;

verus! {

#[verifier::external_type_specification]
#[verifier::external_body]
pub struct ExSynError(syn::Error);

#[verifier::external_type_specification]
#[verifier::external_body]
pub struct ExParseBuffer<'a>(syn::parse::ParseBuffer<'a>);

/// The place up to which the tokens of a declaration have been read.
pub struct Cursor<'a> {
    input: &'a syn::parse::ParseBuffer<'a>,
}

/// The tokens that the cursor has not read yet, as text: what `Display` of
/// `syn::parse::ParseBuffer` prints.
pub uninterp spec fn left(cursor: Cursor<'_>) -> Seq<char>;

/// The tokens of the source text `item`, as `proc_macro2` lexes and prints
/// them; `None` where the text does not lex.
pub uninterp spec fn lexed(item: Seq<char>) -> Option<Seq<char>>;

/// The outer attributes that `syn::Attribute::parse_outer` reads from the
/// front of `tokens`, one text each, and the tokens behind them.
pub uninterp spec fn attributes_read(tokens: Seq<char>) -> Option<(Seq<Seq<char>>, Seq<char>)>;

/// The visibility that `syn` reads from the front of `tokens`, and the tokens
/// behind it.
pub uninterp spec fn visibility_read(tokens: Seq<char>) -> Option<(Seq<char>, Seq<char>)>;

/// The tokens behind the keyword `struct`; `None` where `tokens` do not begin
/// with it.
pub uninterp spec fn struct_token_read(tokens: Seq<char>) -> Option<Seq<char>>;

/// The identifier that `syn` reads from the front of `tokens`, and the tokens
/// behind it.
pub uninterp spec fn ident_read(tokens: Seq<char>) -> Option<(Seq<char>, Seq<char>)>;

/// The generic parameter list that `syn` reads from the front of `tokens`, and
/// the tokens behind it.
pub uninterp spec fn generics_read(tokens: Seq<char>) -> Option<(GenericsView, Seq<char>)>;

/// Whether `tokens` begin with a brace-delimited group.
pub uninterp spec fn brace_ahead(tokens: Seq<char>) -> bool;

/// Whether `tokens` begin with a parenthesized group.
pub uninterp spec fn paren_ahead(tokens: Seq<char>) -> bool;

/// Whether `tokens` begin with a semicolon.
pub uninterp spec fn semi_ahead(tokens: Seq<char>) -> bool;

/// The named fields that `syn` reads from the brace-delimited group at the
/// front of `tokens`, and the tokens behind the group.
pub uninterp spec fn named_fields_read(tokens: Seq<char>) -> Option<(Seq<FieldView>, Seq<char>)>;

/// The positional fields that `syn` reads from the parenthesized group at the
/// front of `tokens`, and the tokens behind the group.
pub uninterp spec fn unnamed_fields_read(tokens: Seq<char>) -> Option<
    (Seq<FieldView>, Seq<char>),
>;

/// The tokens behind the semicolon; `None` where `tokens` do not begin with
/// one.
pub uninterp spec fn semi_read(tokens: Seq<char>) -> Option<Seq<char>>;

/// The field list at the front of `tokens` and the tokens behind it: named
/// fields behind a brace, positional fields behind a parenthesis, and no list,
/// with nothing read, otherwise. `None` where the list behind the delimiter
/// does not parse.
pub open spec fn fields_read(tokens: Seq<char>) -> Option<(FieldsView, Seq<char>)> {
    if brace_ahead(tokens) {
        match named_fields_read(tokens) {
            Some((list, rest)) => Some((FieldsView::Named(list), rest)),
            None => None,
        }
    } else if paren_ahead(tokens) {
        match unnamed_fields_read(tokens) {
            Some((list, rest)) => Some((FieldsView::Unnamed(list), rest)),
            None => None,
        }
    } else {
        Some((FieldsView::Unit, tokens))
    }
}

/// Whether a semicolon is read from the front of `tokens`, and the tokens
/// that are left then.
pub open spec fn semicolon_read(tokens: Seq<char>) -> (bool, Seq<char>) {
    if semi_ahead(tokens) {
        match semi_read(tokens) {
            Some(rest) => (true, rest),
            None => (false, tokens),
        }
    } else {
        (false, tokens)
    }
}

/// The declaration at the front of `tokens` and the tokens behind it: the
/// pieces are read one behind the other in the order of the grammar, and the
/// first piece that does not parse leaves no declaration.
pub open spec fn declaration_read(tokens: Seq<char>) -> Option<(RecordView, Seq<char>)> {
    match attributes_read(tokens) {
        None => None,
        Some((attrs, behind_attrs)) => match visibility_read(behind_attrs) {
            None => None,
            Some((vis, behind_vis)) => match struct_token_read(behind_vis) {
                None => None,
                Some(behind_keyword) => match ident_read(behind_keyword) {
                    None => None,
                    Some((ident, behind_ident)) => match generics_read(behind_ident) {
                        None => None,
                        Some((generics, behind_generics)) => match fields_read(behind_generics) {
                            None => None,
                            Some((fields, behind_fields)) => Some(
                                (
                                    RecordView {
                                        attrs,
                                        vis,
                                        ident,
                                        generics,
                                        fields,
                                        semi_colon: semicolon_read(behind_fields).0,
                                    },
                                    semicolon_read(behind_fields).1,
                                ),
                            ),
                        },
                    },
                },
            },
        },
    }
}

/// `ParseBuffer::call` with `syn::Attribute::parse_outer`: reads the outer
/// attributes that stand at the cursor, and gives the text of each.
#[verifier::external_body]
fn read_attributes(cursor: &mut Cursor<'_>) -> (r: Result<Vec<String>, syn::Error>)
    ensures
        match r {
            Ok(attrs) => attributes_read(left(*old(cursor))) == Some(
                (attrs.deep_view(), left(*final(cursor))),
            ),
            Err(_) => attributes_read(left(*old(cursor))) is None,
        },
{
    let attrs = cursor.input.call(syn::Attribute::parse_outer)?;
    Ok(attrs.iter().map(|attr| attr.to_token_stream().to_string()).collect())
}

/// `ParseBuffer::parse::<syn::Visibility>`: reads a visibility, which may be
/// empty, and gives its text.
#[verifier::external_body]
fn read_visibility(cursor: &mut Cursor<'_>) -> (r: Result<String, syn::Error>)
    ensures
        match r {
            Ok(vis) => visibility_read(left(*old(cursor))) == Some((vis@, left(*final(cursor)))),
            Err(_) => visibility_read(left(*old(cursor))) is None,
        },
{
    Ok(cursor.input.parse::<syn::Visibility>()?.to_token_stream().to_string())
}

/// `ParseBuffer::parse::<syn::token::Struct>`: reads the keyword `struct`.
#[verifier::external_body]
fn read_struct_token(cursor: &mut Cursor<'_>) -> (r: Result<(), syn::Error>)
    ensures
        match r {
            Ok(_) => struct_token_read(left(*old(cursor))) == Some(left(*final(cursor))),
            Err(_) => struct_token_read(left(*old(cursor))) is None,
        },
{
    cursor.input.parse::<syn::token::Struct>().map(|_| ())
}

/// `ParseBuffer::parse::<syn::Ident>`: reads an identifier and gives its text.
#[verifier::external_body]
fn read_ident(cursor: &mut Cursor<'_>) -> (r: Result<String, syn::Error>)
    ensures
        match r {
            Ok(ident) => ident_read(left(*old(cursor))) == Some((ident@, left(*final(cursor)))),
            Err(_) => ident_read(left(*old(cursor))) is None,
        },
{
    Ok(cursor.input.parse::<syn::Ident>()?.to_string())
}

/// `ParseBuffer::parse::<syn::Generics>`: reads a generic parameter list, which
/// may be absent. The three texts are what `syn` prints for the list itself
/// and for the two halves of `Generics::split_for_impl`; the parameters are
/// those of `Generics::type_params`.
#[verifier::external_body]
fn read_generics(cursor: &mut Cursor<'_>) -> (r: Result<Generics, syn::Error>)
    ensures
        match r {
            Ok(generics) => generics_read(left(*old(cursor))) == Some(
                (generics@, left(*final(cursor))),
            ),
            Err(_) => generics_read(left(*old(cursor))) is None,
        },
{
    let generics = cursor.input.parse::<syn::Generics>()?;
    let (impl_generics, type_generics, _) = generics.split_for_impl();
    Ok(Generics {
        decl: generics.to_token_stream().to_string(),
        impl_generics: impl_generics.to_token_stream().to_string(),
        type_generics: type_generics.to_token_stream().to_string(),
        params: generics.type_params().map(|param| GenericParameter {
            ident: param.ident.to_string(),
            decl: param.to_token_stream().to_string(),
        }).collect(),
    })
}

/// `ParseBuffer::peek` for an opening brace; the cursor stays.
#[verifier::external_body]
fn peek_brace(cursor: &Cursor<'_>) -> (r: bool)
    ensures
        r == brace_ahead(left(*cursor)),
{
    cursor.input.peek(syn::token::Brace)
}

/// `ParseBuffer::peek` for an opening parenthesis; the cursor stays.
#[verifier::external_body]
fn peek_paren(cursor: &Cursor<'_>) -> (r: bool)
    ensures
        r == paren_ahead(left(*cursor)),
{
    cursor.input.peek(syn::token::Paren)
}

/// `ParseBuffer::peek` for a semicolon; the cursor stays.
#[verifier::external_body]
fn peek_semi(cursor: &Cursor<'_>) -> (r: bool)
    ensures
        r == semi_ahead(left(*cursor)),
{
    cursor.input.peek(syn::token::Semi)
}

/// `ParseBuffer::parse::<syn::token::Semi>`: reads a semicolon. `syn` reads a
/// punctuation token through `ParseBuffer::step`, which moves the cursor only
/// where the reading succeeds.
#[verifier::external_body]
fn read_semi(cursor: &mut Cursor<'_>) -> (r: Result<(), syn::Error>)
    ensures
        match r {
            Ok(_) => semi_read(left(*old(cursor))) == Some(left(*final(cursor))),
            Err(_) => semi_read(left(*old(cursor))) is None && left(*final(cursor)) == left(
                *old(cursor),
            ),
        },
{
    cursor.input.parse::<syn::token::Semi>().map(|_| ())
}

/// `ParseBuffer::parse::<syn::FieldsNamed>`: reads a brace-delimited field
/// list. `syn` reads each entry with `Field::parse_named`, which always sets
/// the field's identifier.
#[verifier::external_body]
fn read_named_fields(cursor: &mut Cursor<'_>) -> (r: Result<Vec<Field>, syn::Error>)
    ensures
        match r {
            Ok(list) => named_fields_read(left(*old(cursor))) == Some(
                (list.deep_view(), left(*final(cursor))),
            ) && FieldsView::Named(list.deep_view()).wf(),
            Err(_) => named_fields_read(left(*old(cursor))) is None,
        },
{
    let fields = cursor.input.parse::<syn::FieldsNamed>()?;
    Ok(fields.named.iter().map(|field| Field {
        attrs: field.attrs.iter().map(|attr| attr.to_token_stream().to_string()).collect(),
        vis: field.vis.to_token_stream().to_string(),
        ident: field.ident.as_ref().map(|ident| ident.to_string()),
        ty: field.ty.to_token_stream().to_string(),
    }).collect())
}

/// `ParseBuffer::parse::<syn::FieldsUnnamed>`: reads a parenthesized field
/// list. `syn` reads each entry with `Field::parse_unnamed`, which never sets
/// an identifier.
#[verifier::external_body]
fn read_unnamed_fields(cursor: &mut Cursor<'_>) -> (r: Result<Vec<Field>, syn::Error>)
    ensures
        match r {
            Ok(list) => unnamed_fields_read(left(*old(cursor))) == Some(
                (list.deep_view(), left(*final(cursor))),
            ) && FieldsView::Unnamed(list.deep_view()).wf(),
            Err(_) => unnamed_fields_read(left(*old(cursor))) is None,
        },
{
    let fields = cursor.input.parse::<syn::FieldsUnnamed>()?;
    Ok(fields.unnamed.iter().map(|field| Field {
        attrs: field.attrs.iter().map(|attr| attr.to_token_stream().to_string()).collect(),
        vis: field.vis.to_token_stream().to_string(),
        ident: field.ident.as_ref().map(|ident| ident.to_string()),
        ty: field.ty.to_token_stream().to_string(),
    }).collect())
}

/// Reads the field list that stands at the cursor: named fields behind a
/// brace, positional fields behind a parenthesis, and no list otherwise. The
/// reading fails exactly where the list behind the delimiter does not parse.
fn parse_fields(cursor: &mut Cursor<'_>) -> (r: Result<Fields, syn::Error>)
    ensures
        match r {
            Ok(fields) => fields_read(left(*old(cursor))) == Some(
                (fields@, left(*final(cursor))),
            ) && fields@.wf(),
            Err(_) => fields_read(left(*old(cursor))) is None,
        },
{
    if peek_brace(cursor) {
        match read_named_fields(cursor) {
            Ok(list) => Ok(Fields::Named(list)),
            Err(error) => Err(error),
        }
    } else if peek_paren(cursor) {
        match read_unnamed_fields(cursor) {
            Ok(list) => Ok(Fields::Unnamed(list)),
            Err(error) => Err(error),
        }
    } else {
        Ok(Fields::Unit)
    }
}

/// Reads one declaration from the cursor on, piece by piece in the order of
/// the grammar. The first piece that does not parse ends the reading with
/// `syn`'s error; a semicolon behind the field list is read where there is
/// one.
fn read_declaration(cursor: &mut Cursor<'_>) -> (r: Result<RecordDeclaration, syn::Error>)
    ensures
        match r {
            Ok(decl) => declaration_read(left(*old(cursor))) == Some(
                (decl@, left(*final(cursor))),
            ) && decl@.fields.wf(),
            Err(_) => declaration_read(left(*old(cursor))) is None,
        },
{
    let attrs = match read_attributes(cursor) {
        Ok(attrs) => attrs,
        Err(error) => {
            return Err(error);
        },
    };
    let vis = match read_visibility(cursor) {
        Ok(vis) => vis,
        Err(error) => {
            return Err(error);
        },
    };
    match read_struct_token(cursor) {
        Ok(()) => {},
        Err(error) => {
            return Err(error);
        },
    }
    let ident = match read_ident(cursor) {
        Ok(ident) => ident,
        Err(error) => {
            return Err(error);
        },
    };
    let generics = match read_generics(cursor) {
        Ok(generics) => generics,
        Err(error) => {
            return Err(error);
        },
    };
    let fields = match parse_fields(cursor) {
        Ok(fields) => fields,
        Err(error) => {
            return Err(error);
        },
    };
    let semi_colon = if peek_semi(cursor) {
        read_semi(cursor).is_ok()
    } else {
        false
    };
    Ok(RecordDeclaration { attrs, vis, ident, generics, fields, semi_colon })
}

/// The declaration that `syn` reads from the source text `item` by the
/// grammar of this module, each piece printed by `proc_macro2`; `None` where
/// the text does not follow the grammar.
pub uninterp spec fn parsed_declaration(item: Seq<char>) -> Option<RecordView>;

/// `syn::parse::Parser::parse_str` with `read_declaration` as the parser:
/// lexes `item`, runs the parser on the tokens and fails if a token is left
/// over. An `Ok` result is the very value that the parser returned, so it is
/// the declaration at the front of the lexed tokens, with nothing behind it.
/// `proc_macro2::fallback::force` comes first: lexing and printing are then
/// `proc_macro2`'s own in every process, so that the text alone decides.
#[verifier::external_body]
fn parse_with(item: &str) -> (r: Result<RecordDeclaration, syn::Error>)
    ensures
        match r {
            Ok(decl) => {
                &&& parsed_declaration(item@) == Some(decl@)
                &&& lexed(item@) matches Some(tokens) && declaration_read(tokens) == Some(
                    (decl@, Seq::<char>::empty()),
                )
                &&& decl@.fields.wf()
            },
            Err(_) => parsed_declaration(item@) is None,
        },
{
    proc_macro2::fallback::force();
    syn::parse::Parser::parse_str(
        |input: syn::parse::ParseStream| read_declaration(&mut Cursor { input }),
        item,
    )
}

impl RecordDeclaration {
    /// Parses the source text of one struct declaration. Text that does not
    /// follow the grammar is a `MalformedDeclaration`. A declaration that is
    /// handed back is the one at the front of the text's tokens, and no token
    /// stands behind it.
    pub fn parse(item: &str) -> (r: Result<RecordDeclaration, TransformError>)
        ensures
            match r {
                Ok(decl) => {
                    &&& parsed_declaration(item@) == Some(decl@)
                    &&& lexed(item@) matches Some(tokens) && declaration_read(tokens) == Some(
                        (decl@, Seq::<char>::empty()),
                    )
                    &&& decl@.fields.wf()
                },
                Err(error) => parsed_declaration(item@) is None && error
                    == TransformError::MalformedDeclaration,
            },
    {
        match parse_with(item) {
            Ok(decl) => Ok(decl),
            Err(_) => Err(TransformError::MalformedDeclaration),
        }
    }
}

} // verus!

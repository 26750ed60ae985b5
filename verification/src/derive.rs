//! The constructor that is derived for a struct: one parameter for each
//! field, documented with the documentation of the fields.

use crate::error::{not_a_struct, Diagnostic, DiagnosticView};
use crate::generics::{Generics, GenericsView};
use crate::item::{
    attributes_view, fields_view, Attribute, AttributeView, Data, DataView, DeriveInput,
    DeriveInputView, Field, FieldView,
};
use crate::lower::{docs_of, extract_docs, is_doc_attr};
use crate::syntax::{clone_opt_string, opt_str_view, strs_view, Type, TypeView};
use crate::text::{
    find_char, first_index_of, join, join_strings, last_index_of, lemma_first_index_of,
    lemma_last_index_of, rfind_char, str_eq, trim, trimmed,
};
use crate::utils::{get_ident, raw_ident_of, TypeExt};
use vstd::prelude::*;
use vstd::string::StrSliceExecFns;
use vstd::string::StringExecFns;

verus! {

/// A parameter of the derived constructor. It has the name, the type and
/// the documentation of a field.
#[derive(Debug, PartialEq, Eq)]
pub struct Parameter {
    pub doc: Vec<Attribute>,
    pub name: Option<String>,
    pub ty: Type,
}

pub struct ParameterView {
    pub doc: Seq<AttributeView>,
    pub name: Option<Seq<char>>,
    pub ty: TypeView,
}

impl View for Parameter {
    type V = ParameterView;

    open spec fn view(&self) -> ParameterView {
        ParameterView {
            doc: attributes_view(self.doc@),
            name: opt_str_view(self.name),
            ty: self.ty@,
        }
    }
}

/// The parameter that stands for a field.
pub open spec fn parameter_of(f: FieldView) -> ParameterView {
    ParameterView { doc: docs_of(f.attrs), name: f.ident, ty: f.ty }
}

/// The constructor `new` of the struct `target`, which takes the fields
/// as `parameters` and assembles the struct from them. It is marked as a
/// factory whose builder has the visibility `visibility`.
#[derive(Debug, PartialEq, Eq)]
pub struct DerivedConstructor {
    pub target: String,
    pub generics: Generics,
    pub doc: String,
    pub visibility: String,
    pub parameters: Vec<Parameter>,
}

pub struct DerivedConstructorView {
    pub target: Seq<char>,
    pub generics: GenericsView,
    pub doc: Seq<char>,
    pub visibility: Seq<char>,
    pub parameters: Seq<ParameterView>,
}

/// The views of a sequence of parameters.
pub open spec fn parameters_view(s: Seq<Parameter>) -> Seq<ParameterView> {
    s.map_values(|p: Parameter| p@)
}

impl View for DerivedConstructor {
    type V = DerivedConstructorView;

    open spec fn view(&self) -> DerivedConstructorView {
        DerivedConstructorView {
            target: self.target@,
            generics: self.generics@,
            doc: self.doc@,
            visibility: self.visibility@,
            parameters: parameters_view(self.parameters@),
        }
    }
}

/// The words of a piece of documentation that is written as `text`: what
/// stands between the first and the last quotation mark, without the
/// white space at its ends. A text without quotation marks counts from
/// its second character to its end. Where nothing stands between, the
/// words are none.
pub open spec fn doc_text_of(text: Seq<char>) -> Seq<char> {
    trimmed(quoted_of(text))
}

/// What stands between the first and the last quotation mark of `text`;
/// without quotation marks, what stands after its first character.
pub open spec fn quoted_of(text: Seq<char>) -> Seq<char> {
    let start = match first_index_of(text, '"') {
        Some(a) => a + 1,
        None => 1,
    };
    let end = match last_index_of(text, '"') {
        Some(b) => b,
        None => text.len() as int,
    };
    if start <= end {
        text.subrange(start, end)
    } else {
        Seq::empty()
    }
}

/// The words of each piece of documentation among `attrs`.
pub open spec fn field_docs(attrs: Seq<AttributeView>) -> Seq<Seq<char>>
    decreases attrs.len(),
{
    if attrs.len() == 0 {
        Seq::empty()
    } else {
        let rest = field_docs(attrs.drop_last());
        if is_doc_attr(attrs.last()) {
            rest.push(doc_text_of(attrs.last().text))
        } else {
            rest
        }
    }
}

/// The name of a field, or no text for a field without name.
pub open spec fn field_name(f: FieldView) -> Seq<char> {
    match f.ident {
        Some(name) => name,
        None => Seq::empty(),
    }
}

/// The line that documents a field: its name, its documentation, and a
/// note where its type is `Option`.
pub open spec fn field_line(f: FieldView) -> Seq<char> {
    "* `"@ + field_name(f) + "`: "@ + join(field_docs(f.attrs), "\n"@) + if raw_ident_of(f.ty)
        == Some("Option"@) {
        " (optional)"@
    } else {
        Seq::empty()
    }
}

/// The documentation of the constructor of `ident`: a heading, and one
/// line for each field.
pub open spec fn constructor_doc_of(ident: Seq<char>, fields: Seq<FieldView>) -> Seq<char> {
    "Create a new "@ + ident + "\n\n # Arguments\n\n"@ + join(
        fields.map_values(|f: FieldView| field_line(f)),
        "\n"@,
    )
}

/// The constructor that is derived for `input`, or the diagnostic for a
/// declaration that is no struct.
pub open spec fn derived_constructor_of(input: DeriveInputView) -> Result<
    DerivedConstructorView,
    DiagnosticView,
> {
    match input.data {
        DataView::Struct(fields) => Ok(
            DerivedConstructorView {
                target: input.ident,
                generics: input.generics,
                doc: constructor_doc_of(input.ident, fields),
                visibility: input.vis,
                parameters: fields.map_values(|f: FieldView| parameter_of(f)),
            },
        ),
        DataView::Other => Err(not_a_struct(input.span)),
    }
}

/// The view of a constructor or of the diagnostic in its place.
pub open spec fn derived_result_view(r: Result<DerivedConstructor, Diagnostic>) -> Result<
    DerivedConstructorView,
    DiagnosticView,
> {
    match r {
        Ok(c) => Ok(c@),
        Err(e) => Err(e@),
    }
}

fn doc_text(text: &str) -> (r: String)
    ensures
        r@ == doc_text_of(text@),
{
    trim(quoted(text).as_str())
}

/// What stands between the first and the last quotation mark of `text`.
pub fn quoted(text: &str) -> (r: String)
    ensures
        r@ == quoted_of(text@),
{
    let n = text.unicode_len();
    proof {
        lemma_first_index_of(text@, '"');
        lemma_last_index_of(text@, '"');
    }
    let start = match find_char(text, '"') {
        Some(a) => a + 1,
        None => 1,
    };
    let end = match rfind_char(text, '"') {
        Some(b) => b,
        None => n,
    };
    if start <= end {
        String::from_str(text.substring_char(start, end))
    } else {
        String::new()
    }
}

fn docs_of_field(attrs: &Vec<Attribute>) -> (r: Vec<String>)
    ensures
        strs_view(r@) == field_docs(attributes_view(attrs@)),
{
    let mut out: Vec<String> = Vec::new();
    let ghost av = attributes_view(attrs@);
    let mut i: usize = 0;
    assert(strs_view(out@) =~= Seq::empty());
    while i < attrs.len()
        invariant
            i <= attrs.len(),
            av == attributes_view(attrs@),
            strs_view(out@) == field_docs(av.take(i as int)),
        decreases attrs.len() - i,
    {
        assert(av.take(i + 1).drop_last() =~= av.take(i as int));
        assert(av.take(i + 1).last() == attrs@[i as int]@);
        let is_doc = match get_ident(&attrs[i].path) {
            Some(name) => str_eq(name, "doc"),
            None => false,
        };
        if is_doc {
            let ghost before = out@;
            let words = doc_text(attrs[i].text.as_str());
            out.push(words);
            assert(strs_view(out@) =~= strs_view(before).push(words@));
        }
        i += 1;
    }
    assert(av.take(i as int) =~= av);
    out
}

fn line_of_field(f: &Field) -> (r: String)
    ensures
        r@ == field_line(f@),
{
    let mut out = String::from_str("* `");
    match &f.ident {
        Some(name) => {
            out.append(name.as_str());
        },
        None => {
            assert(out@ + Seq::<char>::empty() =~= out@);
        },
    }
    out.append("`: ");
    out.append(join_strings(&docs_of_field(&f.attrs), "\n").as_str());
    let optional = match f.ty.raw_ident() {
        Some(name) => str_eq(name.as_str(), "Option"),
        None => false,
    };
    if optional {
        out.append(" (optional)");
    } else {
        assert(out@ + Seq::<char>::empty() =~= out@);
    }
    out
}

/// Derives the constructor of a struct. Fails for a declaration that is
/// no struct.
pub fn do_derive(input: &DeriveInput) -> (r: Result<DerivedConstructor, Diagnostic>)
    ensures
        derived_result_view(r) == derived_constructor_of(input@),
{
    match &input.data {
        Data::Struct(fields) => {
            let ghost fv = fields_view(fields@);
            let mut parameters: Vec<Parameter> = Vec::new();
            let mut lines: Vec<String> = Vec::new();
            let mut i: usize = 0;
            while i < fields.len()
                invariant
                    i <= fields.len(),
                    fv == fields_view(fields@),
                    parameters@.len() == i,
                    lines@.len() == i,
                    forall|k: int|
                        0 <= k < i ==> (#[trigger] parameters@[k])@ == parameter_of(fv[k]),
                    forall|k: int| 0 <= k < i ==> (#[trigger] lines@[k])@ == field_line(fv[k]),
                decreases fields.len() - i,
            {
                let f = &fields[i];
                assert(fv[i as int] == f@);
                parameters.push(
                    Parameter {
                        doc: extract_docs(&f.attrs),
                        name: clone_opt_string(&f.ident),
                        ty: f.ty.clone(),
                    },
                );
                lines.push(line_of_field(f));
                i += 1;
            }
            assert(strs_view(lines@) =~= fv.map_values(|f: FieldView| field_line(f)));
            assert(parameters_view(parameters@) =~= fv.map_values(
                |f: FieldView| parameter_of(f),
            ));
            let mut doc = String::from_str("Create a new ");
            doc.append(input.ident.as_str());
            doc.append("\n\n # Arguments\n\n");
            doc.append(join_strings(&lines, "\n").as_str());
            Ok(
                DerivedConstructor {
                    target: input.ident.clone(),
                    generics: input.generics.clone(),
                    doc,
                    visibility: input.vis.clone(),
                    parameters,
                },
            )
        },
        Data::Other => Err(Diagnostic::not_a_struct(input.span)),
    }
}

} // verus!

//! The configuration document, reduced to what credential resolution reads:
//! a top-level object, one nested section per name, and the string fields of
//! each section.

use vstd::prelude::*;

verus! {

/// A field of a nested section. Resolution only ever reads string fields, so
/// every other kind of value is reduced to `NonText`.
pub enum FieldValue {
    Text(String),
    NonText,
}

/// Mathematical model of a section field.
pub enum FieldModel {
    Text(Seq<char>),
    NonText,
}

impl View for FieldValue {
    type V = FieldModel;

    open spec fn view(&self) -> FieldModel {
        match self {
            FieldValue::Text(s) => FieldModel::Text(s@),
            FieldValue::NonText => FieldModel::NonText,
        }
    }
}

/// A value of the top-level object. Resolution only ever descends into a
/// nested object (a section); every other kind of value is `NonSection`.
pub enum TopValue {
    Section(Vec<(String, FieldValue)>),
    NonSection,
}

/// Mathematical model of a top-level value.
pub enum TopModel {
    Section(Seq<(Seq<char>, FieldModel)>),
    NonSection,
}

impl View for TopValue {
    type V = TopModel;

    open spec fn view(&self) -> TopModel {
        match self {
            TopValue::Section(fields) => TopModel::Section(entries_model(fields@)),
            TopValue::NonSection => TopModel::NonSection,
        }
    }
}

/// A whole parsed document: either a top-level object with its named values,
/// or some other well-formed value, which resolution rejects.
pub enum Document {
    Object(Vec<(String, TopValue)>),
    NonObject,
}

/// Mathematical model of a parsed document.
pub enum DocModel {
    Object(Seq<(Seq<char>, TopModel)>),
    NonObject,
}

impl View for Document {
    type V = DocModel;

    open spec fn view(&self) -> DocModel {
        match self {
            Document::Object(entries) => DocModel::Object(entries_model(entries@)),
            Document::NonObject => DocModel::NonObject,
        }
    }
}

/// The error serde_json reports for text that is not well-formed JSON.
#[verifier::external_type_specification]
#[verifier::external_body]
pub struct ExSerdeJsonError(serde_json::Error);

/// What parsing a given text yields: `Some` of the reduced document when the
/// text is well-formed JSON, `None` when it is not. The result depends on the
/// text alone.
pub uninterp spec fn parsed_document(text: Seq<char>) -> Option<DocModel>;

/// Relies on serde_json::from_str: parses UTF-8 text as JSON, returning an
/// error exactly when the text is not a well-formed document; the result
/// depends on the text alone. The parsed value is reduced, one variant arm at
/// a time, to the three levels that resolution reads.
#[verifier::external_body]
pub(crate) fn parse_document(text: &str) -> (r: Result<Document, serde_json::Error>)
    ensures
        match r {
            Ok(d) => parsed_document(text@) == Some(d@),
            Err(_) => parsed_document(text@) is None,
        },
{
    match serde_json::from_str::<serde_json::Value>(text) {
        Err(e) => Err(e),
        Ok(serde_json::Value::Object(top)) => Ok(Document::Object(
            top.into_iter().map(|(name, v)| (name, match v {
                serde_json::Value::Object(sec) => TopValue::Section(
                    sec.into_iter().map(|(n, f)| (n, match f {
                        serde_json::Value::String(s) => FieldValue::Text(s),
                        _ => FieldValue::NonText,
                    })).collect(),
                ),
                _ => TopValue::NonSection,
            })).collect(),
        )),
        Ok(_) => Ok(Document::NonObject),
    }
}

/// The model of a list of named entries: each name as its character sequence
/// beside the model of its value.
pub open spec fn entries_model<V: View>(s: Seq<(String, V)>) -> Seq<(Seq<char>, V::V)> {
    s.map_values(|p: (String, V)| (p.0@, p.1@))
}

/// The value of the first entry named `name` at or after position `i`, if any.
pub open spec fn lookup_from<V>(entries: Seq<(Seq<char>, V)>, i: int, name: Seq<char>) -> Option<V>
    decreases entries.len() - i,
{
    if i < 0 || i >= entries.len() {
        None
    } else if entries[i].0 == name {
        Some(entries[i].1)
    } else {
        lookup_from(entries, i + 1, name)
    }
}

/// The value of the first entry named `name`, if any.
pub open spec fn lookup<V>(entries: Seq<(Seq<char>, V)>, name: Seq<char>) -> Option<V> {
    lookup_from(entries, 0, name)
}

/// Finds the first entry with the given name and hands back a reference to
/// its value.
pub fn find_entry<'a, V: View>(entries: &'a Vec<(String, V)>, name: &String) -> (r: Option<
    &'a V,
>)
    ensures
        match r {
            Some(v) => lookup(entries_model(entries@), name@) == Some(v@),
            None => lookup(entries_model(entries@), name@) is None,
        },
{
    let ghost m = entries_model(entries@);
    let mut i: usize = 0;
    while i < entries.len()
        invariant
            i <= entries.len(),
            m == entries_model(entries@),
            lookup(m, name@) == lookup_from(m, i as int, name@),
        decreases entries.len() - i,
    {
        if entries[i].0 == *name {
            return Some(&entries[i].1);
        }
        i = i + 1;
    }
    None
}

} // verus!

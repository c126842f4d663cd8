//! The credential resolver: from a configuration source to a credential pair
//! or a descriptive failure.

use vstd::prelude::*;

use crate::Credentials;
use crate::CredentialsModel;
use crate::document::DocModel;
use crate::document::Document;
use crate::document::FieldModel;
use crate::document::FieldValue;
use crate::document::TopModel;
use crate::document::TopValue;
use crate::document::find_entry;
use crate::document::lookup;
use crate::document::parse_document;
use crate::document::parsed_document;
use vstd::string::StringExecFns;

verus! {

/// Why credential resolution failed.
#[derive(Debug, PartialEq, Eq)]
pub enum ResolutionError {
    /// The configuration document could not be read at all.
    SourceUnreadable,
    /// The configuration document does not hold the expected shape.
    SourceMalformed,
    /// A required environment variable, named here, is not set.
    MissingVariable(String),
}

/// Mathematical model of a resolution failure.
pub enum ErrorModel {
    SourceUnreadable,
    SourceMalformed,
    MissingVariable(Seq<char>),
}

impl View for ResolutionError {
    type V = ErrorModel;

    open spec fn view(&self) -> ErrorModel {
        match self {
            ResolutionError::SourceUnreadable => ErrorModel::SourceUnreadable,
            ResolutionError::SourceMalformed => ErrorModel::SourceMalformed,
            ResolutionError::MissingVariable(name) => ErrorModel::MissingVariable(name@),
        }
    }
}

/// One environment variable lookup, made by the caller: the variable's name
/// and the value it held, if it was set.
pub struct EnvLookup {
    pub name: String,
    pub value: Option<String>,
}

/// Mathematical model of an environment variable lookup.
pub struct EnvLookupModel {
    pub name: Seq<char>,
    pub value: Option<Seq<char>>,
}

impl View for EnvLookup {
    type V = EnvLookupModel;

    open spec fn view(&self) -> EnvLookupModel {
        EnvLookupModel {
            name: self.name@,
            value: match self.value {
                Some(v) => Some(v@),
                None => None,
            },
        }
    }
}

/// A configuration source, chosen once by the caller: the text of a
/// configuration document (`None` when it could not be read), or the two
/// environment variable lookups.
pub enum ConfigSource {
    File { text: Option<String> },
    Environment { url: EnvLookup, key: EnvLookup },
}

/// Mathematical model of a configuration source.
pub enum SourceModel {
    File { text: Option<Seq<char>> },
    Environment { url: EnvLookupModel, key: EnvLookupModel },
}

impl View for ConfigSource {
    type V = SourceModel;

    open spec fn view(&self) -> SourceModel {
        match self {
            ConfigSource::File { text } => (SourceModel::File {
                text: match text {
                    Some(t) => Some(t@),
                    None => None,
                },
            }),
            ConfigSource::Environment { url, key } => (SourceModel::Environment {
                url: url@,
                key: key@,
            }),
        }
    }
}

/// The credential pair a parsed document holds: the `url` and `key` string
/// fields of its `supabase` section, or nothing when the document is not an
/// object, lacks that section, or a field is absent or not a string.
pub open spec fn doc_credentials(doc: DocModel) -> Option<CredentialsModel> {
    match doc {
        DocModel::NonObject => None,
        DocModel::Object(top) => match lookup(top, "supabase"@) {
            Some(TopModel::Section(sec)) => match lookup(sec, "url"@) {
                Some(FieldModel::Text(url)) => match lookup(sec, "key"@) {
                    Some(FieldModel::Text(key)) => Some((CredentialsModel { url, key })),
                    _ => None,
                },
                _ => None,
            },
            _ => None,
        },
    }
}

/// Extracts the credential pair from a parsed document, exactly when the
/// document has the expected shape.
pub fn extract_credentials(doc: &Document) -> (r: Result<Credentials, ResolutionError>)
    ensures
        match r {
            Ok(c) => doc_credentials(doc@) == Some(c@),
            Err(e) => doc_credentials(doc@) is None && e@ == (ErrorModel::SourceMalformed),
        },
{
    let entries = match doc {
        Document::Object(entries) => entries,
        Document::NonObject => {
            return Err(ResolutionError::SourceMalformed);
        },
    };
    let section_name = "supabase".to_owned();
    let sec = match find_entry(entries, &section_name) {
        Some(TopValue::Section(sec)) => sec,
        _ => {
            return Err(ResolutionError::SourceMalformed);
        },
    };
    let url_name = "url".to_owned();
    let url = match find_entry(sec, &url_name) {
        Some(FieldValue::Text(url)) => url,
        _ => {
            return Err(ResolutionError::SourceMalformed);
        },
    };
    let key_name = "key".to_owned();
    let key = match find_entry(sec, &key_name) {
        Some(FieldValue::Text(key)) => key,
        _ => {
            return Err(ResolutionError::SourceMalformed);
        },
    };
    Ok(Credentials { url: url.clone(), key: key.clone() })
}

/// What resolving a configuration source yields: for a document, the pair the
/// document holds, `SourceUnreadable` when its text could not be read and
/// `SourceMalformed` when it does not parse or lacks the expected shape; for
/// the environment, the two values verbatim, or `MissingVariable` naming the
/// first variable that is not set, the URL variable before the key variable.
pub open spec fn resolution(source: SourceModel) -> Result<CredentialsModel, ErrorModel> {
    match source {
        SourceModel::File { text } => match text {
            None => Err(ErrorModel::SourceUnreadable),
            Some(t) => match parsed_document(t) {
                None => Err(ErrorModel::SourceMalformed),
                Some(doc) => match doc_credentials(doc) {
                    Some(c) => Ok(c),
                    None => Err(ErrorModel::SourceMalformed),
                },
            },
        },
        SourceModel::Environment { url, key } => match url.value {
            None => Err(ErrorModel::MissingVariable(url.name)),
            Some(u) => match key.value {
                None => Err(ErrorModel::MissingVariable(key.name)),
                Some(k) => Ok((CredentialsModel { url: u, key: k })),
            },
        },
    }
}

/// Resolves a credential pair from the given configuration source, re-reading
/// nothing and caching nothing: the result is exactly `resolution` of the
/// source as handed in.
pub fn resolve(source: &ConfigSource) -> (r: Result<Credentials, ResolutionError>)
    ensures
        match r {
            Ok(c) => resolution(source@) == Ok::<CredentialsModel, ErrorModel>(c@),
            Err(e) => resolution(source@) == Err::<CredentialsModel, ErrorModel>(e@),
        },
{
    match source {
        ConfigSource::File { text } => match text {
            None => Err(ResolutionError::SourceUnreadable),
            Some(t) => match parse_document(t.as_str()) {
                Err(_) => Err(ResolutionError::SourceMalformed),
                Ok(doc) => extract_credentials(&doc),
            },
        },
        ConfigSource::Environment { url, key } => match &url.value {
            None => Err(ResolutionError::MissingVariable(url.name.clone())),
            Some(u) => match &key.value {
                None => Err(ResolutionError::MissingVariable(key.name.clone())),
                Some(k) => Ok(Credentials { url: u.clone(), key: k.clone() }),
            },
        },
    }
}

/// The descriptive text of a resolution failure: a single human-readable
/// string, naming the missing variable where one is missing.
pub open spec fn message_model(e: ErrorModel) -> Seq<char> {
    match e {
        ErrorModel::SourceUnreadable => "Failed to read config.json"@,
        ErrorModel::SourceMalformed => "Failed to parse config.json"@,
        ErrorModel::MissingVariable(name) => "Missing environment variable: "@ + name,
    }
}

impl ResolutionError {
    /// The descriptive error string handed across the command boundary.
    pub fn message(&self) -> (r: String)
        ensures
            r@ == message_model(self@),
    {
        match self {
            ResolutionError::SourceUnreadable => "Failed to read config.json".to_owned(),
            ResolutionError::SourceMalformed => "Failed to parse config.json".to_owned(),
            ResolutionError::MissingVariable(name) => "Missing environment variable: ".to_owned()
                .concat(name.as_str()),
        }
    }
}

/// The command surface: resolves the source and hands the frontend either the
/// `(url, key)` pair or the failure's descriptive string.
pub fn get_supabase_credentials(source: &ConfigSource) -> (r: Result<(String, String), String>)
    ensures
        match r {
            Ok(p) => resolution(source@) == Ok::<CredentialsModel, ErrorModel>(
                (CredentialsModel { url: p.0@, key: p.1@ }),
            ),
            Err(m) => resolution(source@) matches Err(e) && m@ == message_model(e),
        },
{
    match resolve(source) {
        Ok(c) => Ok((c.url, c.key)),
        Err(e) => Err(e.message()),
    }
}

/// Law: with both environment variables set, resolution returns their values
/// verbatim — no trimming, casing or other change.
pub proof fn lemma_environment_both_set(
    url_name: Seq<char>,
    url_value: Seq<char>,
    key_name: Seq<char>,
    key_value: Seq<char>,
)
    ensures
        resolution(
            (SourceModel::Environment {
                url: (EnvLookupModel { name: url_name, value: Some(url_value) }),
                key: (EnvLookupModel { name: key_name, value: Some(key_value) }),
            }),
        ) == Ok::<CredentialsModel, ErrorModel>(
            (CredentialsModel { url: url_value, key: key_value }),
        ),
{
}

/// Law: with the URL variable unset, resolution fails naming the URL variable;
/// whether the key variable is set does not affect the outcome.
pub proof fn lemma_environment_url_missing(url_name: Seq<char>, key: EnvLookupModel)
    ensures
        resolution(
            (SourceModel::Environment {
                url: (EnvLookupModel { name: url_name, value: None }),
                key,
            }),
        ) == Err::<CredentialsModel, ErrorModel>(ErrorModel::MissingVariable(url_name)),
{
}

/// Law: with the URL variable set but the key variable unset, resolution fails
/// naming the key variable.
pub proof fn lemma_environment_key_missing(
    url_name: Seq<char>,
    url_value: Seq<char>,
    key_name: Seq<char>,
)
    ensures
        resolution(
            (SourceModel::Environment {
                url: (EnvLookupModel { name: url_name, value: Some(url_value) }),
                key: (EnvLookupModel { name: key_name, value: None }),
            }),
        ) == Err::<CredentialsModel, ErrorModel>(ErrorModel::MissingVariable(key_name)),
{
}

/// Law: a document that could not be read resolves to `SourceUnreadable`.
pub proof fn lemma_unreadable_source()
    ensures
        resolution((SourceModel::File { text: None })) == Err::<CredentialsModel, ErrorModel>(
            ErrorModel::SourceUnreadable,
        ),
{
}

/// Law: text that does not parse as a document resolves to `SourceMalformed`.
pub proof fn lemma_unparsable_text(t: Seq<char>)
    requires
        parsed_document(t) is None,
    ensures
        resolution((SourceModel::File { text: Some(t) })) == Err::<CredentialsModel, ErrorModel>(
            ErrorModel::SourceMalformed,
        ),
{
}

/// Law: a document that parses but lacks the nested section, or whose fields
/// are absent or not strings, resolves to `SourceMalformed` — never to a
/// partial or default pair.
pub proof fn lemma_malformed_document(t: Seq<char>, doc: DocModel)
    requires
        parsed_document(t) == Some(doc),
        doc_credentials(doc) is None,
    ensures
        resolution((SourceModel::File { text: Some(t) })) == Err::<CredentialsModel, ErrorModel>(
            ErrorModel::SourceMalformed,
        ),
{
}

/// Law: a document of the expected shape resolves to exactly the pair it
/// holds.
pub proof fn lemma_well_formed_document(t: Seq<char>, doc: DocModel, c: CredentialsModel)
    requires
        parsed_document(t) == Some(doc),
        doc_credentials(doc) == Some(c),
    ensures
        resolution((SourceModel::File { text: Some(t) })) == Ok::<CredentialsModel, ErrorModel>(c),
{
}

/// Law: resolution depends on the source value alone, with no cached state:
/// repeated resolutions of an unchanged source yield the identical result.
pub proof fn lemma_resolution_repeatable(first: SourceModel, second: SourceModel)
    requires
        first == second,
    ensures
        resolution(first) == resolution(second),
{
}

} // verus!

use credresolve::Credentials;
use credresolve::document::Document;
use credresolve::document::FieldValue;
use credresolve::document::TopValue;
use credresolve::resolver::ConfigSource;
use credresolve::resolver::EnvLookup;
use credresolve::resolver::ResolutionError;
use credresolve::resolver::extract_credentials;
use credresolve::resolver::get_supabase_credentials;
use credresolve::resolver::resolve;

fn env_source(url: Option<&str>, key: Option<&str>) -> ConfigSource {
    ConfigSource::Environment {
        url: EnvLookup { name: "SUPABASE_URL".to_owned(), value: url.map(str::to_owned) },
        key: EnvLookup { name: "SUPABASE_KEY".to_owned(), value: key.map(str::to_owned) },
    }
}

fn file_source(text: &str) -> ConfigSource {
    ConfigSource::File { text: Some(text.to_owned()) }
}

#[test]
fn env_both_set_returns_values_verbatim() {
    let src = env_source(Some("  https://Example.Org/  "), Some(" AbC123 "));
    match resolve(&src) {
        Ok(c) => {
            assert_eq!(c.url, "  https://Example.Org/  ");
            assert_eq!(c.key, " AbC123 ");
        }
        Err(e) => panic!("expected credentials, got {:?}", e),
    }
}

#[test]
fn env_url_missing_identifies_url_variable() {
    let src = env_source(None, Some("abc"));
    match resolve(&src) {
        Err(ResolutionError::MissingVariable(name)) => assert_eq!(name, "SUPABASE_URL"),
        other => panic!("expected a missing URL variable, got {:?}", other),
    }
}

#[test]
fn env_url_missing_regardless_of_key() {
    let src = env_source(None, None);
    match resolve(&src) {
        Err(ResolutionError::MissingVariable(name)) => assert_eq!(name, "SUPABASE_URL"),
        other => panic!("expected a missing URL variable, got {:?}", other),
    }
}

#[test]
fn env_key_missing_identifies_key_variable() {
    let src = env_source(Some("https://x"), None);
    match resolve(&src) {
        Err(ResolutionError::MissingVariable(name)) => assert_eq!(name, "SUPABASE_KEY"),
        other => panic!("expected a missing key variable, got {:?}", other),
    }
}

#[test]
fn file_well_formed_document() {
    let src = file_source("{\"supabase\":{\"url\":\"https://x\",\"key\":\"abc\"}}");
    assert_eq!(
        resolve(&src),
        Ok(Credentials { url: "https://x".to_owned(), key: "abc".to_owned() })
    );
}

#[test]
fn file_extra_entries_are_ignored() {
    let src = file_source(
        "{\"other\":null,\"supabase\":{\"key\":\"k\",\"url\":\"u\",\"more\":3},\"z\":[1]}",
    );
    assert_eq!(resolve(&src), Ok(Credentials { url: "u".to_owned(), key: "k".to_owned() }));
}

#[test]
fn file_missing_section_is_malformed() {
    let src = file_source("{}");
    assert_eq!(resolve(&src), Err(ResolutionError::SourceMalformed));
}

#[test]
fn file_section_not_object_is_malformed() {
    let src = file_source("{\"supabase\":5}");
    assert_eq!(resolve(&src), Err(ResolutionError::SourceMalformed));
}

#[test]
fn file_field_wrong_type_is_malformed() {
    let src = file_source("{\"supabase\":{\"url\":1,\"key\":\"abc\"}}");
    assert_eq!(resolve(&src), Err(ResolutionError::SourceMalformed));
}

#[test]
fn file_missing_field_is_malformed() {
    let src = file_source("{\"supabase\":{\"url\":\"https://x\"}}");
    assert_eq!(resolve(&src), Err(ResolutionError::SourceMalformed));
}

#[test]
fn file_unparsable_text_is_malformed() {
    let src = file_source("not a document");
    assert_eq!(resolve(&src), Err(ResolutionError::SourceMalformed));
}

#[test]
fn file_top_level_array_is_malformed() {
    let src = file_source("[1,2,3]");
    assert_eq!(resolve(&src), Err(ResolutionError::SourceMalformed));
}

#[test]
fn file_unreadable_is_reported() {
    let src = ConfigSource::File { text: None };
    assert_eq!(resolve(&src), Err(ResolutionError::SourceUnreadable));
}

#[test]
fn repeated_resolution_is_identical() {
    let src = file_source("{\"supabase\":{\"url\":\"https://x\",\"key\":\"abc\"}}");
    assert_eq!(resolve(&src), resolve(&src));
    let env = env_source(None, Some("abc"));
    assert_eq!(resolve(&env), resolve(&env));
}

#[test]
fn resolution_reads_the_source_it_is_given() {
    let before = file_source("{\"supabase\":{\"url\":\"https://x\",\"key\":\"abc\"}}");
    let after = file_source("{\"supabase\":{\"url\":\"https://y\",\"key\":\"def\"}}");
    assert_eq!(
        resolve(&before),
        Ok(Credentials { url: "https://x".to_owned(), key: "abc".to_owned() })
    );
    assert_eq!(
        resolve(&after),
        Ok(Credentials { url: "https://y".to_owned(), key: "def".to_owned() })
    );
}

#[test]
fn extraction_without_parsing() {
    let doc = Document::Object(vec![(
        "supabase".to_owned(),
        TopValue::Section(vec![
            ("url".to_owned(), FieldValue::Text("https://x".to_owned())),
            ("key".to_owned(), FieldValue::Text("abc".to_owned())),
        ]),
    )]);
    assert_eq!(
        extract_credentials(&doc),
        Ok(Credentials { url: "https://x".to_owned(), key: "abc".to_owned() })
    );
    assert_eq!(
        extract_credentials(&Document::NonObject),
        Err(ResolutionError::SourceMalformed)
    );
}

#[test]
fn extraction_takes_the_first_entry_with_a_name() {
    let doc = Document::Object(vec![(
        "supabase".to_owned(),
        TopValue::Section(vec![
            ("url".to_owned(), FieldValue::Text("first".to_owned())),
            ("url".to_owned(), FieldValue::Text("second".to_owned())),
            ("key".to_owned(), FieldValue::Text("abc".to_owned())),
        ]),
    )]);
    assert_eq!(
        extract_credentials(&doc),
        Ok(Credentials { url: "first".to_owned(), key: "abc".to_owned() })
    );
}

#[test]
fn command_returns_the_pair() {
    let src = file_source("{\"supabase\":{\"url\":\"https://x\",\"key\":\"abc\"}}");
    assert_eq!(
        get_supabase_credentials(&src),
        Ok(("https://x".to_owned(), "abc".to_owned()))
    );
}

#[test]
fn command_reports_the_missing_variable() {
    let src = env_source(None, Some("abc"));
    assert_eq!(
        get_supabase_credentials(&src),
        Err("Missing environment variable: SUPABASE_URL".to_owned())
    );
}

#[test]
fn command_reports_unreadable_and_malformed_sources() {
    let unreadable = ConfigSource::File { text: None };
    assert_eq!(
        get_supabase_credentials(&unreadable),
        Err("Failed to read config.json".to_owned())
    );
    let malformed = file_source("{\"supabase\":[]}");
    assert_eq!(
        get_supabase_credentials(&malformed),
        Err("Failed to parse config.json".to_owned())
    );
}

#[test]
fn message_names_the_variable() {
    let e = ResolutionError::MissingVariable("SUPABASE_KEY".to_owned());
    assert_eq!(e.message(), "Missing environment variable: SUPABASE_KEY");
}

use ime_sync::config::{
    apply_ime_defaults, default_lang_config, default_lang_loader, default_scope_list,
    user_lang_loader, Configuration, LanguageConfiguration, LanguageLoaderError, Loader,
};

fn language(id: &str, comment_tokens: Option<&[&str]>, scopes: &[&str]) -> LanguageConfiguration {
    LanguageConfiguration {
        language_id: id.to_string(),
        comment_tokens: comment_tokens.map(|t| t.iter().map(|s| s.to_string()).collect()),
        auto_ime_scopes: scopes.iter().map(|s| s.to_string()).collect(),
    }
}

fn sample() -> Configuration {
    Configuration {
        language: vec![
            language("rust", Some(&["//"]), &[]),
            language("markdown", None, &[]),
            language("python", Some(&["#"]), &["text"]),
            language("json", None, &["string"]),
            language("lua", Some(&[]), &[]),
        ],
    }
}

fn expected() -> Vec<LanguageConfiguration> {
    vec![
        language("rust", Some(&["//"]), &["string", "comment"]),
        language("markdown", None, &[]),
        language("python", Some(&["#"]), &["text"]),
        language("json", None, &["string"]),
        language("lua", Some(&[]), &["string", "comment"]),
    ]
}

#[test]
fn the_default_scopes_are_string_and_comment() {
    assert_eq!(default_scope_list(), vec!["string".to_string(), "comment".to_string()]);
}

#[test]
fn a_language_with_comments_and_no_scopes_gets_the_defaults() {
    let mut config = Configuration { language: vec![language("rust", Some(&["//", "///"]), &[])] };
    apply_ime_defaults(&mut config);
    assert_eq!(config.language.len(), 1);
    assert_eq!(config.language[0].auto_ime_scopes, vec!["string".to_string(), "comment".to_string()]);
    assert_eq!(config.language[0].comment_tokens, Some(vec!["//".to_string(), "///".to_string()]));
    assert_eq!(config.language[0].language_id, "rust");
}

#[test]
fn explicit_scopes_are_kept_even_with_comments() {
    let mut config = Configuration { language: vec![language("python", Some(&["#"]), &["text"])] };
    let before = config.clone();
    apply_ime_defaults(&mut config);
    assert_eq!(config, before);
}

#[test]
fn a_language_without_comments_gets_no_scopes() {
    let mut config = Configuration { language: vec![language("markdown", None, &[])] };
    apply_ime_defaults(&mut config);
    assert!(config.language[0].auto_ime_scopes.is_empty());
}

#[test]
fn every_entry_is_treated_by_itself_and_order_is_kept() {
    let mut config = sample();
    apply_ime_defaults(&mut config);
    assert_eq!(config.language, expected());
}

#[test]
fn applying_the_defaults_twice_changes_nothing_more() {
    let mut config = sample();
    apply_ime_defaults(&mut config);
    let once = config.clone();
    apply_ime_defaults(&mut config);
    assert_eq!(config, once);
}

#[test]
fn an_empty_configuration_stays_empty() {
    let mut config = Configuration { language: Vec::new() };
    apply_ime_defaults(&mut config);
    assert!(config.language.is_empty());
}

#[test]
fn the_default_configuration_has_the_defaults_applied() {
    assert_eq!(default_lang_config(sample()).language, expected());
}

#[test]
fn the_default_loader_holds_the_entries_with_defaults() {
    let loader = default_lang_loader(sample());
    assert_eq!(loader.len(), 5);
    for (i, l) in expected().iter().enumerate() {
        assert_eq!(loader.language_config(i), Some(l));
    }
    assert_eq!(loader.language_config(5), None);
}

#[test]
fn a_loader_keeps_a_configuration_as_it_is() {
    let loader = Loader::new(sample());
    assert_eq!(loader.len(), 5);
    assert_eq!(loader.language_config(0), Some(&language("rust", Some(&["//"]), &[])));
}

#[test]
fn the_user_loader_applies_the_defaults() {
    let loader = user_lang_loader(Ok(sample())).unwrap();
    assert_eq!(loader, default_lang_loader(sample()));
}

#[test]
fn the_user_loader_hands_a_parse_error_on() {
    let err = toml::from_str::<toml::Table>("language = [").unwrap_err();
    let expected = err.clone();
    match user_lang_loader(Err(err)) {
        Err(LanguageLoaderError::DeserializeError(e)) => assert_eq!(e, expected),
        other => panic!("{:?}", other),
    }
}

#[test]
fn a_parse_error_is_told_with_its_place_and_reason() {
    let err = toml::from_str::<toml::Table>("language = [").unwrap_err();
    let shown = err.to_string();
    assert!(shown.starts_with("TOML parse error at line 1"));
    let text = LanguageLoaderError::DeserializeError(err).message();
    assert_eq!(text, format!("Failed to parse language config: {}", shown));
}

#[test]
fn a_compile_error_is_told_with_its_reason() {
    let text = LanguageLoaderError::LoaderError("bad glob".to_string()).message();
    assert_eq!(text, "Failed to compile language config: bad glob");
}

#[test]
fn the_two_messages_put_their_prefix_before_the_reason() {
    assert_eq!(
        ime_sync::config::parse_failure_message("unexpected end"),
        "Failed to parse language config: unexpected end"
    );
    assert_eq!(
        ime_sync::config::compile_failure_message(""),
        "Failed to compile language config: "
    );
}

//! Language configuration defaults: which syntactic scopes switch the input
//! method on by themselves.

use vstd::prelude::*;
use vstd::string::StringExecFns;

verus! {

/// The part of a language's configuration that decides its input method scopes.
#[derive(Clone, Debug, PartialEq, Eq)]
pub struct LanguageConfiguration {
    pub language_id: String,
    /// The tokens that start a line comment, where the language declares any.
    pub comment_tokens: Option<Vec<String>>,
    /// The scopes in which the input method is switched on automatically.
    pub auto_ime_scopes: Vec<String>,
}

/// The language entries of one configuration file, in file order.
#[derive(Clone, Debug, PartialEq, Eq)]
pub struct Configuration {
    pub language: Vec<LanguageConfiguration>,
}

/// A language entry as mathematical data.
pub struct LanguageModel {
    pub language_id: Seq<char>,
    pub comment_tokens: Option<Seq<Seq<char>>>,
    pub auto_ime_scopes: Seq<Seq<char>>,
}

/// The texts of a list of strings.
pub open spec fn texts(v: Vec<String>) -> Seq<Seq<char>> {
    v@.map_values(|s: String| s@)
}

impl View for LanguageConfiguration {
    type V = LanguageModel;

    open spec fn view(&self) -> LanguageModel {
        LanguageModel {
            language_id: self.language_id@,
            comment_tokens: match self.comment_tokens {
                Some(tokens) => Some(texts(tokens)),
                None => None,
            },
            auto_ime_scopes: texts(self.auto_ime_scopes),
        }
    }
}

impl View for Configuration {
    type V = Seq<LanguageModel>;

    open spec fn view(&self) -> Seq<LanguageModel> {
        self.language@.map_values(|l: LanguageConfiguration| l@)
    }
}

/// The scopes given to a language that has comments and names no scopes.
pub open spec fn default_scopes() -> Seq<Seq<char>> {
    seq!["string"@, "comment"@]
}

/// Whether an entry gets the default scopes: it names none itself and declares
/// comment tokens.
pub open spec fn wants_default_scopes(l: LanguageModel) -> bool {
    l.auto_ime_scopes.len() == 0 && l.comment_tokens is Some
}

/// One entry after the defaults were applied.
pub open spec fn with_ime_defaults(l: LanguageModel) -> LanguageModel {
    if wants_default_scopes(l) {
        LanguageModel { auto_ime_scopes: default_scopes(), ..l }
    } else {
        l
    }
}

/// A whole configuration after the defaults were applied, entry by entry.
pub open spec fn all_with_ime_defaults(c: Seq<LanguageModel>) -> Seq<LanguageModel> {
    c.map_values(|l: LanguageModel| with_ime_defaults(l))
}

/// A fresh copy of the default scopes.
pub fn default_scope_list() -> (scopes: Vec<String>)
    ensures
        texts(scopes) == default_scopes(),
{
    let mut scopes: Vec<String> = Vec::new();
    scopes.push("string".to_owned());
    scopes.push("comment".to_owned());
    assert(texts(scopes) =~= default_scopes());
    scopes
}

/// Gives every entry that names no scopes and declares comment tokens the
/// default scopes; every other entry stays as it is.
pub fn apply_ime_defaults(config: &mut Configuration)
    ensures
        final(config)@ == all_with_ime_defaults(old(config)@),
{
    let n: usize = config.language.len();
    let mut i: usize = 0;
    while i < n
        invariant
            i <= n,
            config.language.len() == n,
            old(config).language.len() == n,
            forall|k: int| 0 <= k < i ==> (#[trigger] config.language[k])@ == with_ime_defaults(old(config).language[k]@),
            forall|k: int| i <= k < n ==> (#[trigger] config.language[k]) == old(config).language[k],
        decreases n - i,
    {
        if config.language[i].auto_ime_scopes.is_empty() && config.language[i].comment_tokens.is_some() {
            let scopes = default_scope_list();
            config.language[i].auto_ime_scopes = scopes;
        }
        i = i + 1;
    }
    assert(config@ =~= all_with_ime_defaults(old(config)@));
}

/// The built-in configuration with the defaults applied. `builtin` is the
/// built-in language file as it was read.
pub fn default_lang_config(builtin: Configuration) -> (config: Configuration)
    ensures
        config@ == all_with_ime_defaults(builtin@),
{
    let mut config = builtin;
    apply_ime_defaults(&mut config);
    config
}

/// The language entries that the editor works with, defaults applied.
#[derive(Clone, Debug, PartialEq, Eq)]
pub struct Loader {
    language_configs: Vec<LanguageConfiguration>,
}

impl View for Loader {
    type V = Seq<LanguageModel>;

    closed spec fn view(&self) -> Seq<LanguageModel> {
        self.language_configs@.map_values(|l: LanguageConfiguration| l@)
    }
}

impl Loader {
    /// A loader over the entries of a configuration, as they are.
    pub fn new(config: Configuration) -> (loader: Self)
        ensures
            loader@ == config@,
    {
        Loader { language_configs: config.language }
    }

    /// The number of language entries.
    pub fn len(&self) -> (n: usize)
        ensures
            n == self@.len(),
    {
        self.language_configs.len()
    }

    /// A language entry by its position in the file.
    pub fn language_config(&self, index: usize) -> (language: Option<&LanguageConfiguration>)
        ensures
            match language {
                Some(l) => index < self@.len() && l@ == self@[index as int],
                None => index >= self@.len(),
            },
    {
        if index < self.language_configs.len() {
            Some(&self.language_configs[index])
        } else {
            None
        }
    }
}

/// A loader over the built-in configuration with the defaults applied.
pub fn default_lang_loader(builtin: Configuration) -> (loader: Loader)
    ensures
        loader@ == all_with_ime_defaults(builtin@),
{
    Loader::new(default_lang_config(builtin))
}

/// `toml::de::Error`, the error of the TOML parser: carried through as it
/// is, never looked into.
#[verifier::external_type_specification]
#[verifier::external_body]
pub struct ExDeserializeError(toml::de::Error);

/// Why no loader could be made of the user's language file.
#[derive(Debug)]
pub enum LanguageLoaderError {
    /// The file is not a language configuration.
    DeserializeError(toml::de::Error),
    /// The editor could not compile the configuration; its reason, as text.
    LoaderError(String),
}

/// The text before the reason in the message of a file that did not parse.
pub open spec fn parse_failure_prefix() -> Seq<char> {
    "Failed to parse language config: "@
}

/// The text before the reason in the message of a configuration that did not
/// compile.
pub open spec fn compile_failure_prefix() -> Seq<char> {
    "Failed to compile language config: "@
}

/// What a `toml::de::Error` says of itself when it is written with its
/// `Display` impl: the place in the input where there is one, then the
/// parser's message. The text depends on the error alone.
pub uninterp spec fn parse_error_text(err: toml::de::Error) -> Seq<char>;

/// Calls `to_string` on a `toml::de::Error`, which writes it with its
/// `Display` impl. The contract gives the text its name and claims nothing of
/// what it holds.
#[verifier::external_body]
fn deserialize_error_text(err: &toml::de::Error) -> (text: String)
    ensures
        text@ == parse_error_text(*err),
{
    err.to_string()
}

/// The message for a language file that did not parse, from the parser's
/// own words.
pub fn parse_failure_message(reason: &str) -> (text: String)
    ensures
        text@ == parse_failure_prefix() + reason@,
{
    String::from_str("Failed to parse language config: ").concat(reason)
}

/// The message for a configuration that did not compile, from the reason.
pub fn compile_failure_message(reason: &str) -> (text: String)
    ensures
        text@ == compile_failure_prefix() + reason@,
{
    String::from_str("Failed to compile language config: ").concat(reason)
}

impl LanguageLoaderError {
    /// The error as a sentence: a prefix that tells the two kinds apart, then
    /// the reason. For a file that did not parse the reason is what the
    /// parser's error says of itself.
    pub fn message(&self) -> (text: String)
        ensures
            text@ == match *self {
                LanguageLoaderError::DeserializeError(err) => parse_failure_prefix()
                    + parse_error_text(err),
                LanguageLoaderError::LoaderError(reason) => compile_failure_prefix() + reason@,
            },
    {
        match self {
            LanguageLoaderError::DeserializeError(err) => {
                let reason = deserialize_error_text(err);
                parse_failure_message(reason.as_str())
            },
            LanguageLoaderError::LoaderError(reason) => compile_failure_message(reason.as_str()),
        }
    }
}

/// A loader over the user's configuration with the defaults applied. `parsed`
/// is the user's language file as it was read; where it could not be read as
/// a configuration, its error is handed on.
pub fn user_lang_loader(parsed: Result<Configuration, toml::de::Error>) -> (outcome: Result<
    Loader,
    LanguageLoaderError,
>)
    ensures
        match parsed {
            Ok(config) => outcome matches Ok(loader) && loader@ == all_with_ime_defaults(config@),
            Err(err) => outcome matches Err(LanguageLoaderError::DeserializeError(e)) && e == err,
        },
{
    match parsed {
        Ok(user) => {
            let mut config = user;
            apply_ime_defaults(&mut config);
            Ok(Loader::new(config))
        },
        Err(err) => Err(LanguageLoaderError::DeserializeError(err)),
    }
}

/// An entry that declares comment tokens and names no scopes ends up with
/// exactly the scopes "string" and "comment", in this order, and is otherwise
/// unchanged.
pub proof fn lemma_comment_language_gets_defaults(l: LanguageModel)
    requires
        l.comment_tokens is Some,
        l.auto_ime_scopes.len() == 0,
    ensures
        with_ime_defaults(l).auto_ime_scopes.len() == 2,
        with_ime_defaults(l).auto_ime_scopes[0] == "string"@,
        with_ime_defaults(l).auto_ime_scopes[1] == "comment"@,
        with_ime_defaults(l).auto_ime_scopes.to_set() == set!["string"@, "comment"@],
        with_ime_defaults(l).comment_tokens == l.comment_tokens,
        with_ime_defaults(l).language_id == l.language_id,
{
    let scopes = with_ime_defaults(l).auto_ime_scopes;
    assert(scopes =~= seq!["string"@, "comment"@]);
    assert forall|s: Seq<char>| scopes.to_set().contains(s) <==> set!["string"@, "comment"@].contains(s) by {
        if s == "string"@ {
            assert(scopes[0] == s);
        }
        if s == "comment"@ {
            assert(scopes[1] == s);
        }
    }
    assert(scopes.to_set() =~= set!["string"@, "comment"@]);
}

/// An entry that names scopes itself keeps them, with or without comment
/// tokens; so does one that declares no comment tokens.
pub proof fn lemma_explicit_scopes_kept(l: LanguageModel)
    requires
        l.auto_ime_scopes.len() > 0 || l.comment_tokens is None,
    ensures
        with_ime_defaults(l) == l,
{
}

/// Applying the defaults a second time changes nothing.
pub proof fn lemma_defaults_idempotent(c: Seq<LanguageModel>)
    ensures
        all_with_ime_defaults(all_with_ime_defaults(c)) == all_with_ime_defaults(c),
{
    assert(default_scopes().len() == 2);
    assert(all_with_ime_defaults(all_with_ime_defaults(c)) =~= all_with_ime_defaults(c));
}

} // verus!

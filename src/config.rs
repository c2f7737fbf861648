//! The daemon's configuration: a TOML document, or the defaults when none is
//! given. Its schema belongs to the serving side; here it is only parsed.

use vstd::prelude::*;

verus! {

#[verifier::external_type_specification]
#[verifier::external_body]
#[verifier::reject_recursive_types(K)]
#[verifier::reject_recursive_types(V)]
pub struct ExTomlMap<K, V>(toml::map::Map<K, V>);

#[verifier::external_type_specification]
#[verifier::external_body]
pub struct ExTomlValue(toml::Value);

#[verifier::external_type_specification]
#[verifier::external_body]
pub struct ExTomlError(toml::de::Error);

/// Whether `text` is a well-formed TOML document.
pub uninterp spec fn toml_document(text: Seq<char>) -> bool;

/// Relies on toml::from_str: a well-formed document parses into its top-level
/// table, and anything else is an error.
#[verifier::external_body]
fn parse_table(text: &str) -> (r: Result<toml::Table, toml::de::Error>)
    ensures
        r is Ok == toml_document(text@),
{
    toml::from_str(text)
}

/// Relies on the `Display` impl of toml::de::Error, for the message shown to the user.
#[verifier::external_body]
fn error_message(e: &toml::de::Error) -> String {
    e.to_string()
}

/// Why no configuration could be had.
#[derive(Debug, PartialEq, Eq)]
pub enum ConfigError {
    /// The configuration file could not be read.
    Unreadable { message: String },
    /// The configuration file is not a well-formed document.
    Malformed { message: String },
}

/// The validated configuration, immutable once built.
#[derive(Debug)]
pub struct Configuration {
    document: Option<toml::Table>,
}

impl Configuration {
    /// Whether this is the default configuration rather than one read from a file.
    pub closed spec fn is_default(&self) -> bool {
        self.document is None
    }

    /// The parsed document, or `None` for the defaults.
    pub fn table(&self) -> (r: Option<&toml::Table>)
        ensures
            r is None == self.is_default(),
    {
        match &self.document {
            Some(t) => Some(t),
            None => None,
        }
    }
}

impl Default for Configuration {
    fn default() -> (r: Configuration)
        ensures
            r.is_default(),
    {
        Configuration { document: None }
    }
}

/// Parses the text of a configuration file.
pub fn parse_config(text: &str) -> (r: Result<Configuration, ConfigError>)
    ensures
        r is Ok == toml_document(text@),
        r is Ok ==> !r->Ok_0.is_default(),
        r is Err ==> r->Err_0 is Malformed,
{
    match parse_table(text) {
        Ok(t) => Ok(Configuration { document: Some(t) }),
        Err(e) => Err(ConfigError::Malformed { message: error_message(&e) }),
    }
}

/// The configuration from the text of the given file, or the defaults when no
/// file was given.
pub fn load_config(text: Option<&str>) -> (r: Result<Configuration, ConfigError>)
    ensures
        text is None ==> r is Ok && r->Ok_0.is_default(),
        text is Some ==> {
            &&& r is Ok == toml_document(text->Some_0@)
            &&& r is Ok ==> !r->Ok_0.is_default()
            &&& r is Err ==> r->Err_0 is Malformed
        },
{
    match text {
        Some(t) => parse_config(t),
        None => Ok(Configuration::default()),
    }
}

} // verus!

//! Extension settings: what an extension gets when it asks for its
//! settings, and what is put on record when it has none yet.
//!
//! Settings are JSON values, read and written by the `serde_json` crate.
//! The engine carries them through without looking inside. Reading the
//! settings file and writing it is the driver's work.

use vstd::prelude::*;

verus! {

/// `serde_json::Value`, a JSON value. Opaque to the engine.
#[verifier::external_type_specification]
#[verifier::external_body]
pub struct ExJsonValue(serde_json::Value);

/// `serde_json::Error`. Opaque to the engine, which reads only its text.
#[verifier::external_type_specification]
#[verifier::external_body]
pub struct ExJsonError(serde_json::Error);

/// The value that `serde_json::from_str` reads from `text`, or `None`
/// where it reports an error.
pub uninterp spec fn json_read(text: Seq<char>) -> Option<serde_json::Value>;

/// The text that `serde_json::to_string_pretty` writes for `value`, or
/// `None` where it reports an error.
pub uninterp spec fn json_pretty(value: serde_json::Value) -> Option<Seq<char>>;

/// The text that `serde_json::Error` displays as.
pub uninterp spec fn json_error_text(err: serde_json::Error) -> Seq<char>;

/// `serde_json::from_str`, read as a JSON value. Trusted: whether the
/// text is read, and the value read from it, are functions of the text.
#[verifier::external_body]
pub(crate) fn json_from_str(text: &str) -> (r: Result<serde_json::Value, serde_json::Error>)
    ensures
        r matches Ok(value) ==> json_read(text@) == Some(value),
        r is Err ==> json_read(text@) is None,
{
    serde_json::from_str(text)
}

/// `serde_json::to_string_pretty`, for a JSON value. Trusted: whether
/// the value is written, and the text written for it, are functions of
/// the value.
#[verifier::external_body]
pub(crate) fn json_to_string_pretty(value: &serde_json::Value) -> (r: Result<
    String,
    serde_json::Error,
>)
    ensures
        r matches Ok(text) ==> json_pretty(*value) == Some(text@),
        r is Err ==> json_pretty(*value) is None,
{
    serde_json::to_string_pretty(value)
}

/// The `Display` text of a `serde_json::Error`. Trusted: the result is a
/// function of the error.
#[verifier::external_body]
pub(crate) fn json_error_to_string(err: &serde_json::Error) -> (r: String)
    ensures
        r@ == json_error_text(*err),
{
    err.to_string()
}

/// Why an extension's settings could not be resolved.
#[derive(Debug)]
pub enum ConfigError {
    /// The settings file holds no valid JSON. The text says why.
    Syntax(String),
    /// The default settings could not be written as JSON. The text says
    /// why.
    Unwritable(String),
}

/// The settings of an extension.
#[derive(Debug)]
pub enum ConfigResolution {
    /// The settings file was there: these are the settings it holds.
    Loaded(serde_json::Value),
    /// There was no settings file: the extension gets its default
    /// settings, and `text` is to be written to the settings file.
    Created { config: serde_json::Value, text: String },
}

/// The message for a settings file that holds no valid JSON.
pub open spec fn syntax_error_text(reason: Seq<char>) -> Seq<char> {
    "Config JSON syntax error: "@ + reason
}

/// Turns the answer to reading a settings file into the settings.
pub fn loaded_or_error(read: Result<serde_json::Value, serde_json::Error>) -> (r: Result<
    ConfigResolution,
    ConfigError,
>)
    ensures
        read matches Ok(config) ==> r == Ok::<ConfigResolution, ConfigError>(
            ConfigResolution::Loaded(config),
        ),
        read matches Err(err) ==> (r matches Err(ConfigError::Syntax(message)) && message@
            == syntax_error_text(json_error_text(err))),
{
    match read {
        Ok(config) => Ok(ConfigResolution::Loaded(config)),
        Err(err) => {
            let mut message = "Config JSON syntax error: ".to_owned();
            let reason = json_error_to_string(&err);
            message.append(reason.as_str());
            Err(ConfigError::Syntax(message))
        },
    }
}

/// Turns the answer to writing the default settings as text into the
/// settings.
pub fn created_or_error(
    default_config: serde_json::Value,
    written: Result<String, serde_json::Error>,
) -> (r: Result<ConfigResolution, ConfigError>)
    ensures
        written matches Ok(text) ==> r == Ok::<ConfigResolution, ConfigError>(
            ConfigResolution::Created { config: default_config, text },
        ),
        written matches Err(err) ==> (r matches Err(ConfigError::Unwritable(message)) && message@
            == json_error_text(err)),
{
    match written {
        Ok(text) => Ok(ConfigResolution::Created { config: default_config, text }),
        Err(err) => Err(ConfigError::Unwritable(json_error_to_string(&err))),
    }
}

/// Resolves the settings of an extension from its default settings and
/// from the content of its settings file, where there is one.
///
/// A file that is there decides: its settings are used, and a file that
/// holds no valid JSON is an error, whatever the default is. Where there
/// is no file the default settings are used, together with the text to
/// create the file with.
pub fn resolve_config(default_config: serde_json::Value, existing: Option<&str>) -> (r: Result<
    ConfigResolution,
    ConfigError,
>)
    ensures
        existing matches Some(content) ==> match json_read(content@) {
            Some(config) => r == Ok::<ConfigResolution, ConfigError>(
                ConfigResolution::Loaded(config),
            ),
            None => r matches Err(e) && e is Syntax,
        },
        existing is None ==> match json_pretty(default_config) {
            Some(pretty) => r matches Ok(ConfigResolution::Created { config, text }) && config
                == default_config && text@ == pretty,
            None => r matches Err(e) && e is Unwritable,
        },
{
    match existing {
        Some(content) => loaded_or_error(json_from_str(content)),
        None => {
            let written = json_to_string_pretty(&default_config);
            created_or_error(default_config, written)
        },
    }
}

} // verus!

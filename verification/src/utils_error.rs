//! The shared utility error type and its conversions from the
//! serialization libraries' errors.
//!
//! Outside error values are modeled by what this crate reads of them:
//! their display text (named, since it is a function of the error value
//! alone) and, for JSON errors, their category.

use vstd::prelude::*;

verus! {

#[verifier::external_type_specification]
#[verifier::external_body]
pub struct ExJsonError(serde_json::Error);

#[verifier::external_type_specification]
#[verifier::external_body]
pub struct ExTomlDeError(toml::de::Error);

#[verifier::external_type_specification]
#[verifier::external_body]
pub struct ExTomlSerError(toml::ser::Error);

/// The display text of a JSON error; a function of the error value alone.
pub uninterp spec fn json_err_text(e: serde_json::Error) -> Seq<char>;

/// Whether a JSON error is of the I/O category rather than a syntax, data
/// or end-of-input failure; a function of the error value alone.
pub uninterp spec fn json_err_is_io(e: serde_json::Error) -> bool;

/// The display text of a TOML deserialization error.
pub uninterp spec fn toml_de_err_text(e: toml::de::Error) -> Seq<char>;

/// The display text of a TOML serialization error.
pub uninterp spec fn toml_ser_err_text(e: toml::ser::Error) -> Seq<char>;

/// Relies on the `Display` of `serde_json::Error`, whose text depends on
/// the error value alone.
#[verifier::external_body]
pub(crate) fn json_display(e: &serde_json::Error) -> (r: String)
    ensures
        r@ == json_err_text(*e),
{
    format!("{}", e)
}

/// Relies on `serde_json::Error::classify`: the error falls in exactly one
/// of the categories `Io`, `Syntax`, `Data`, `Eof`.
#[verifier::external_body]
fn json_classify_io(e: &serde_json::Error) -> (r: bool)
    ensures
        r == json_err_is_io(*e),
{
    match e.classify() {
        serde_json::error::Category::Io => true,
        serde_json::error::Category::Syntax => false,
        serde_json::error::Category::Data => false,
        serde_json::error::Category::Eof => false,
    }
}

/// Relies on the `Display` of `toml::de::Error`.
#[verifier::external_body]
fn toml_de_display(e: &toml::de::Error) -> (r: String)
    ensures
        r@ == toml_de_err_text(*e),
{
    format!("{}", e)
}

/// Relies on the `Display` of `toml::ser::Error`.
#[verifier::external_body]
fn toml_ser_display(e: &toml::ser::Error) -> (r: String)
    ensures
        r@ == toml_ser_err_text(*e),
{
    format!("{}", e)
}

/// The error type shared by the utility layer.  An I/O failure is carried
/// as its text together with the path it concerns, where one is known.
#[derive(Debug)]
pub enum UtilsError {
    /// An input/output failure: the underlying error's text and an
    /// optional path.
    Io { source: String, path: Option<String> },
    /// A structure could not be serialized.
    Serialization(String),
    /// Text could not be deserialized into a structure.
    Deserialization(String),
    /// The application configuration is invalid.
    Config(String),
    /// A utility function received an invalid parameter.
    InvalidParameter(String),
    /// The requested operation or feature is not supported.
    NotSupported(String),
    /// An external resource was not found.
    ResourceNotFound(String),
    /// Any other utility failure.
    Generic(String),
}

impl UtilsError {
    /// The one-line text of this error.
    pub open spec fn spec_message(self) -> Seq<char> {
        match self {
            UtilsError::Io { source, path } => "I/O error: "@ + source@,
            UtilsError::Serialization(m) => "Serialization error: "@ + m@,
            UtilsError::Deserialization(m) => "Deserialization error: "@ + m@,
            UtilsError::Config(m) => "Configuration error: "@ + m@,
            UtilsError::InvalidParameter(m) => "Invalid parameter: "@ + m@,
            UtilsError::NotSupported(m) => "Operation or feature not supported: "@ + m@,
            UtilsError::ResourceNotFound(m) => "Resource not found: "@ + m@,
            UtilsError::Generic(m) => "A generic utility error occurred: "@ + m@,
        }
    }

    /// Renders the error as one line of text: a fixed prefix naming the
    /// kind, then the carried message.
    pub fn message(&self) -> (r: String)
        ensures
            r@ == self.spec_message(),
    {
        match self {
            UtilsError::Io { source, path: _ } => String::from_str("I/O error: ").concat(
                source.as_str(),
            ),
            UtilsError::Serialization(m) => String::from_str("Serialization error: ").concat(
                m.as_str(),
            ),
            UtilsError::Deserialization(m) => String::from_str("Deserialization error: ").concat(
                m.as_str(),
            ),
            UtilsError::Config(m) => String::from_str("Configuration error: ").concat(m.as_str()),
            UtilsError::InvalidParameter(m) => String::from_str("Invalid parameter: ").concat(
                m.as_str(),
            ),
            UtilsError::NotSupported(m) => String::from_str(
                "Operation or feature not supported: ",
            ).concat(m.as_str()),
            UtilsError::ResourceNotFound(m) => String::from_str("Resource not found: ").concat(
                m.as_str(),
            ),
            UtilsError::Generic(m) => String::from_str("A generic utility error occurred: ")
                .concat(m.as_str()),
        }
    }

    /// An I/O error carrying the path it concerns.
    pub fn io_with_path(source: String, path: String) -> (r: UtilsError)
        ensures
            (match r {
                UtilsError::Io { source: s, path: p } => s == source && p == Some(path),
                _ => false,
            }),
    {
        UtilsError::Io { source, path: Some(path) }
    }

    /// Classifies a JSON error: an I/O-category failure becomes [`Self::Io`]
    /// with no path and the error's text; everything else (syntax, data,
    /// end of input) is a deserialization failure whose message carries
    /// the error's text.
    pub fn from_json_error(err: serde_json::Error) -> (r: UtilsError)
        ensures
            json_err_is_io(err) ==> (match r {
                UtilsError::Io { source, path } => source@ == json_err_text(err) && path is None,
                _ => false,
            }),
            !json_err_is_io(err) ==> (match r {
                UtilsError::Deserialization(m) => m@ == "JSON error: "@ + json_err_text(err),
                _ => false,
            }),
    {
        let text = json_display(&err);
        if json_classify_io(&err) {
            UtilsError::Io { source: text, path: None }
        } else {
            UtilsError::Deserialization(String::from_str("JSON error: ").concat(text.as_str()))
        }
    }

    /// A TOML deserialization failure, carrying the error's text.
    pub fn from_toml_de_error(err: toml::de::Error) -> (r: UtilsError)
        ensures
            (match r {
                UtilsError::Deserialization(m) => m@ == "TOML deserialization error: "@
                    + toml_de_err_text(err),
                _ => false,
            }),
    {
        let text = toml_de_display(&err);
        UtilsError::Deserialization(
            String::from_str("TOML deserialization error: ").concat(text.as_str()),
        )
    }

    /// A TOML serialization failure, carrying the error's text.
    pub fn from_toml_ser_error(err: toml::ser::Error) -> (r: UtilsError)
        ensures
            (match r {
                UtilsError::Serialization(m) => m@ == "TOML serialization error: "@
                    + toml_ser_err_text(err),
                _ => false,
            }),
    {
        let text = toml_ser_display(&err);
        UtilsError::Serialization(
            String::from_str("TOML serialization error: ").concat(text.as_str()),
        )
    }
}

} // verus!

//! Errors of the model-loading layer.
//!
//! The underlying failures (file I/O, parsers, the weight reader) are
//! carried as their display text: this layer only reports them, and the
//! text is what it reads of them.

use vstd::prelude::*;

use crate::utils_error::{json_display, json_err_text};

verus! {

/// Every failure the model-loading layer returns.
#[derive(Debug)]
pub enum ModelLoaderError {
    /// A file operation failed.
    Io {
        /// The path concerned.
        path: String,
        /// The underlying error's text.
        source: String,
    },
    /// A configuration file could not be parsed.
    ConfigParsing {
        /// The path (or provenance) of the configuration.
        path: String,
        /// The underlying error's text.
        source: String,
    },
    /// A weight record could not be loaded.
    RecordLoading {
        /// The path concerned.
        path: String,
        /// The underlying error's text.
        source: String,
    },
    /// The model configuration is invalid or unsupported.
    InvalidConfig {
        /// Why the configuration was rejected.
        message: String,
    },
    /// Any other failure.
    Unexpected {
        /// What happened.
        message: String,
    },
}

impl ModelLoaderError {
    /// Wraps a JSON failure as a configuration-parsing error whose path is
    /// not yet known; the caller that knows the path should construct
    /// [`Self::ConfigParsing`] directly instead.
    pub fn from_json_error(err: serde_json::Error) -> (r: ModelLoaderError)
        ensures
            (match r {
                ModelLoaderError::ConfigParsing { path, source } => path@ == "unknown"@
                    && source@ == json_err_text(err),
                _ => false,
            }),
    {
        let text = json_display(&err);
        ModelLoaderError::ConfigParsing { path: String::from_str("unknown"), source: text }
    }
}

} // verus!

//! Configuration of the probes, read from YAML documents.

use vstd::prelude::*;
use vstd::string::StringExecFns;

pub mod ms_sql;
pub mod yaml;

verus! {

/// Why a document could not be read as a configuration.
#[derive(Debug, PartialEq, Eq)]
pub enum ConfigError {
    /// The `mssql` section has no `standard` entry.
    MissingStandard,
    /// `authentication` has no text under `username`.
    BadUsername,
    /// The authentication `type` is none of the supported ones. The error
    /// holds the word as the document gave it.
    UnsupportedAuthType(String),
    /// `tls` has no text under `ca`.
    BadCa,
    /// `tls` has no text under `client_certificate`.
    BadClientCertificate,
    /// A list of names holds something that is no text.
    BadStringList,
    /// A switch is neither a boolean nor one of the words for one.
    BadBool,
    /// The `mode` is none of the supported ones.
    UnsupportedMode,
    /// An instance has no text under `sid`.
    BadSid,
    /// `piggyback` has no text under `hostname`.
    BadPiggybackHostname,
}

/// The model of a [`ConfigError`].
pub enum ConfigErrorView {
    MissingStandard,
    BadUsername,
    UnsupportedAuthType(Seq<char>),
    BadCa,
    BadClientCertificate,
    BadStringList,
    BadBool,
    UnsupportedMode,
    BadSid,
    BadPiggybackHostname,
}

impl View for ConfigError {
    type V = ConfigErrorView;

    open spec fn view(&self) -> ConfigErrorView {
        match self {
            ConfigError::MissingStandard => ConfigErrorView::MissingStandard,
            ConfigError::BadUsername => ConfigErrorView::BadUsername,
            ConfigError::UnsupportedAuthType(word) => ConfigErrorView::UnsupportedAuthType(word@),
            ConfigError::BadCa => ConfigErrorView::BadCa,
            ConfigError::BadClientCertificate => ConfigErrorView::BadClientCertificate,
            ConfigError::BadStringList => ConfigErrorView::BadStringList,
            ConfigError::BadBool => ConfigErrorView::BadBool,
            ConfigError::UnsupportedMode => ConfigErrorView::UnsupportedMode,
            ConfigError::BadSid => ConfigErrorView::BadSid,
            ConfigError::BadPiggybackHostname => ConfigErrorView::BadPiggybackHostname,
        }
    }
}

/// What reading gave, with the error as its model.
pub open spec fn failed<T>(r: Result<T, ConfigError>) -> Result<T, ConfigErrorView> {
    match r {
        Ok(v) => Ok(v),
        Err(e) => Err(e@),
    }
}

impl ConfigErrorView {
    /// A one-line description for the operator. That of an unsupported
    /// authentication type ends with the word that was given, between
    /// back-quotes.
    pub open spec fn message(self) -> Seq<char> {
        match self {
            ConfigErrorView::MissingStandard => "standard key is absent"@,
            ConfigErrorView::BadUsername => "bad/absent username"@,
            ConfigErrorView::UnsupportedAuthType(word) => "unsupported auth type `"@ + word + "`"@,
            ConfigErrorView::BadCa => "Bad/Missing CA"@,
            ConfigErrorView::BadClientCertificate => "bad/Missing CLIENT_CERTIFICATE"@,
            ConfigErrorView::BadStringList => "bad list of names"@,
            ConfigErrorView::BadBool => "bad boolean value"@,
            ConfigErrorView::UnsupportedMode => "unsupported mode"@,
            ConfigErrorView::BadSid => "Bad/Missing sid in instance"@,
            ConfigErrorView::BadPiggybackHostname => "Bad/Missing hostname in piggyback"@,
        }
    }
}

impl Clone for ConfigError {
    fn clone(&self) -> (r: Self)
        ensures
            r@ == self@,
    {
        match self {
            ConfigError::MissingStandard => ConfigError::MissingStandard,
            ConfigError::BadUsername => ConfigError::BadUsername,
            ConfigError::UnsupportedAuthType(word) => ConfigError::UnsupportedAuthType(
                word.clone(),
            ),
            ConfigError::BadCa => ConfigError::BadCa,
            ConfigError::BadClientCertificate => ConfigError::BadClientCertificate,
            ConfigError::BadStringList => ConfigError::BadStringList,
            ConfigError::BadBool => ConfigError::BadBool,
            ConfigError::UnsupportedMode => ConfigError::UnsupportedMode,
            ConfigError::BadSid => ConfigError::BadSid,
            ConfigError::BadPiggybackHostname => ConfigError::BadPiggybackHostname,
        }
    }
}

impl ConfigError {
    /// A one-line description for the operator.
    pub fn message(&self) -> (r: String)
        ensures
            r@ == self@.message(),
    {
        match self {
            ConfigError::MissingStandard => "standard key is absent".to_owned(),
            ConfigError::BadUsername => "bad/absent username".to_owned(),
            ConfigError::UnsupportedAuthType(word) => {
                let mut text = "unsupported auth type `".to_owned();
                text.append(word.as_str());
                text.append("`");
                text
            },
            ConfigError::BadCa => "Bad/Missing CA".to_owned(),
            ConfigError::BadClientCertificate => "bad/Missing CLIENT_CERTIFICATE".to_owned(),
            ConfigError::BadStringList => "bad list of names".to_owned(),
            ConfigError::BadBool => "bad boolean value".to_owned(),
            ConfigError::UnsupportedMode => "unsupported mode".to_owned(),
            ConfigError::BadSid => "Bad/Missing sid in instance".to_owned(),
            ConfigError::BadPiggybackHostname => "Bad/Missing hostname in piggyback".to_owned(),
        }
    }
}

} // verus!

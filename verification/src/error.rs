//! The error type of the library.
use vstd::prelude::*;
use vstd::string::StringExecFns;

verus! {

/// The error of the crate `regex`, of which nothing is read.
#[verifier::external_type_specification]
#[verifier::external_body]
pub struct ExRegexError(regex::Error);

/// The error of the crate `url`, of which nothing is read.
#[verifier::external_type_specification]
#[verifier::external_body]
pub struct ExUrlParseError(url::ParseError);

/// The error of the crate `atom_syndication`, of which nothing is read.
#[verifier::external_type_specification]
#[verifier::external_body]
pub struct ExAtomError(atom_syndication::Error);

/// The error of the crate `serde_xml_rs`, of which nothing is read.
#[verifier::external_type_specification]
#[verifier::external_body]
pub struct ExXmlError(serde_xml_rs::Error);

/// Everything that can go wrong between a ticker and a filing record.
#[allow(missing_docs)]
#[derive(Debug, Clone, Copy, PartialEq, Eq, Structural)]
pub enum EDGARError {
    /// The pattern that scans a ticker dictionary did not compile.
    RegexErr,
    /// A local ticker dictionary could not be read.
    IOError,
    /// A request did not reach EDGAR, or EDGAR refused it.
    ReqwestError,
    /// The response is no Atom feed.
    AtomSyndicationError,
    /// The query is no absolute URL.
    UrlParseError,
    /// The content of a feed entry is no well-formed XML of flat fields.
    SerdeXMLError,
    /// The dictionary holds no record of the ticker.
    CIKNotFound,
    /// The text names no known filing type.
    FilingTypeNotFound,
    /// The feed entry carries no content, or a content without text.
    FilingContentNotFound,
    /// The content lacks a field of a filing.
    FilingContentValueNotFound,
    /// No identifying user agent was configured.
    UserAgentEnvVarMissing,
    /// The feed could not be fetched.
    GettingFeedFailed,
    /// The text names no owner option.
    OwnerOptionNotFound,
}

impl EDGARError {
    /// The message of each error.
    pub open spec fn message_text(self) -> Seq<char> {
        match self {
            EDGARError::RegexErr => "Regex Err"@,
            EDGARError::IOError => "IO Error"@,
            EDGARError::ReqwestError => "Reqwest Error"@,
            EDGARError::AtomSyndicationError => "Atom Syndication Error"@,
            EDGARError::UrlParseError => "Url Parse Error"@,
            EDGARError::SerdeXMLError => "Serde XML Error"@,
            EDGARError::CIKNotFound => "CIK Not Found"@,
            EDGARError::FilingTypeNotFound => "Filing Type Not Found"@,
            EDGARError::FilingContentNotFound => "Filing Content Not Found"@,
            EDGARError::FilingContentValueNotFound => "Filing Content Value Not Found"@,
            EDGARError::UserAgentEnvVarMissing => "User Agent Env Var Missing"@,
            EDGARError::GettingFeedFailed => "Getting Feed Failed"@,
            EDGARError::OwnerOptionNotFound => "Owner Option Not Found"@,
        }
    }

    /// The error as a line of text.
    pub fn message(&self) -> (m: String)
        ensures
            m@ == self.message_text(),
    {
        let text: &str = match self {
            EDGARError::RegexErr => "Regex Err",
            EDGARError::IOError => "IO Error",
            EDGARError::ReqwestError => "Reqwest Error",
            EDGARError::AtomSyndicationError => "Atom Syndication Error",
            EDGARError::UrlParseError => "Url Parse Error",
            EDGARError::SerdeXMLError => "Serde XML Error",
            EDGARError::CIKNotFound => "CIK Not Found",
            EDGARError::FilingTypeNotFound => "Filing Type Not Found",
            EDGARError::FilingContentNotFound => "Filing Content Not Found",
            EDGARError::FilingContentValueNotFound => "Filing Content Value Not Found",
            EDGARError::UserAgentEnvVarMissing => "User Agent Env Var Missing",
            EDGARError::GettingFeedFailed => "Getting Feed Failed",
            EDGARError::OwnerOptionNotFound => "Owner Option Not Found",
        };
        String::from_str(text)
    }
}

impl From<regex::Error> for EDGARError {
    /// A pattern that does not compile is a `RegexErr`.
    fn from(source: regex::Error) -> (e: EDGARError) {
        EDGARError::RegexErr
    }
}

impl vstd::std_specs::convert::FromSpecImpl<regex::Error> for EDGARError {
    open spec fn obeys_from_spec() -> bool {
        true
    }

    open spec fn from_spec(source: regex::Error) -> EDGARError {
        EDGARError::RegexErr
    }
}

impl From<url::ParseError> for EDGARError {
    /// A text that is no URL is a `UrlParseError`.
    fn from(source: url::ParseError) -> (e: EDGARError) {
        EDGARError::UrlParseError
    }
}

impl vstd::std_specs::convert::FromSpecImpl<url::ParseError> for EDGARError {
    open spec fn obeys_from_spec() -> bool {
        true
    }

    open spec fn from_spec(source: url::ParseError) -> EDGARError {
        EDGARError::UrlParseError
    }
}

impl From<atom_syndication::Error> for EDGARError {
    /// A text that is no feed is an `AtomSyndicationError`.
    fn from(source: atom_syndication::Error) -> (e: EDGARError) {
        EDGARError::AtomSyndicationError
    }
}

impl vstd::std_specs::convert::FromSpecImpl<atom_syndication::Error> for EDGARError {
    open spec fn obeys_from_spec() -> bool {
        true
    }

    open spec fn from_spec(source: atom_syndication::Error) -> EDGARError {
        EDGARError::AtomSyndicationError
    }
}

impl From<serde_xml_rs::Error> for EDGARError {
    /// A content that cannot be read is a `SerdeXMLError`.
    fn from(source: serde_xml_rs::Error) -> (e: EDGARError) {
        EDGARError::SerdeXMLError
    }
}

impl vstd::std_specs::convert::FromSpecImpl<serde_xml_rs::Error> for EDGARError {
    open spec fn obeys_from_spec() -> bool {
        true
    }

    open spec fn from_spec(source: serde_xml_rs::Error) -> EDGARError {
        EDGARError::SerdeXMLError
    }
}

} // verus!

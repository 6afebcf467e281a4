//! The failures that the layers report, each with the plain model that the
//! contracts speak of and the line of text that a caller may show.

use crate::text::{append_decimal, decimal};
use vstd::prelude::*;
use vstd::string::*;

verus! {

/// Why a register access failed.
#[derive(Clone, Copy, Debug, PartialEq, Eq, Structural)]
pub enum AccessError {
    /// The register space could not be opened.
    Open,
    /// `address` lies beyond what the register space can seek to.
    Seek { address: u64 },
    /// Fewer than two bytes could be transferred.
    Transfer,
}

/// Why a configuration lookup failed.
#[derive(Clone, Debug, PartialEq, Eq)]
pub enum ConfigError {
    /// The configuration text is malformed; `reason` is the parser's word on it.
    Load { reason: String },
    /// `section` holds no value under `key`.
    MissingKey { section: String, key: String },
    /// The value found is not a numeric literal.
    Parse,
}

/// A `ConfigError` with its texts as character sequences.
pub enum ConfigErrorView {
    Load { reason: Seq<char> },
    MissingKey { section: Seq<char>, key: Seq<char> },
    Parse,
}

impl View for ConfigError {
    type V = ConfigErrorView;

    open spec fn view(&self) -> ConfigErrorView {
        match *self {
            ConfigError::Load { reason } => ConfigErrorView::Load { reason: reason@ },
            ConfigError::MissingKey { section, key } => ConfigErrorView::MissingKey {
                section: section@,
                key: key@,
            },
            ConfigError::Parse => ConfigErrorView::Parse,
        }
    }
}

/// Why an operation of the controller failed.
#[derive(Clone, Debug, PartialEq, Eq)]
pub enum IswError {
    /// An address or an encoding could not be resolved.
    Config(ConfigError),
    /// The register access failed.
    Access(AccessError),
    /// The requested state is none that can be written.
    InvalidArgument,
    /// The requested value lies outside the accepted range.
    OutOfRange,
    /// A command-line option holds a word that names no state.
    UnrecognizedOption { option: String },
}

/// An `IswError` with its texts as character sequences.
pub enum IswErrorView {
    Config(ConfigErrorView),
    Access(AccessError),
    InvalidArgument,
    OutOfRange,
    UnrecognizedOption { option: Seq<char> },
}

impl View for IswError {
    type V = IswErrorView;

    open spec fn view(&self) -> IswErrorView {
        match *self {
            IswError::Config(e) => IswErrorView::Config(e@),
            IswError::Access(e) => IswErrorView::Access(e),
            IswError::InvalidArgument => IswErrorView::InvalidArgument,
            IswError::OutOfRange => IswErrorView::OutOfRange,
            IswError::UnrecognizedOption { option } => IswErrorView::UnrecognizedOption {
                option: option@,
            },
        }
    }
}

/// The text for a value that `y` does not hold under `x`.
pub open spec fn not_found_text(x: Seq<char>, y: Seq<char>) -> Seq<char> {
    "Could not get <"@ + y + "> of <"@ + x + ">"@
}

/// The line of text for an access failure.
pub open spec fn access_error_text(e: AccessError) -> Seq<char> {
    match e {
        AccessError::Open => "Opening the register space failed"@,
        AccessError::Seek { address } => "Seeking pos <"@ + decimal(address as nat) + "> failed"@,
        AccessError::Transfer => "Could not transfer two bytes"@,
    }
}

/// The line of text for a configuration failure.
pub open spec fn config_error_text(e: ConfigErrorView) -> Seq<char> {
    match e {
        ConfigErrorView::Load { reason } => reason,
        ConfigErrorView::MissingKey { section, key } => not_found_text(key, section),
        ConfigErrorView::Parse => "Could not parse value"@,
    }
}

/// The line of text for a failure of the controller.
pub open spec fn error_text(e: IswErrorView) -> Seq<char> {
    match e {
        IswErrorView::Config(c) => config_error_text(c),
        IswErrorView::Access(a) => access_error_text(a),
        IswErrorView::InvalidArgument => "No viable option provided"@,
        IswErrorView::OutOfRange => "No viable threshold provided"@,
        IswErrorView::UnrecognizedOption { option } => "Unrecognized option "@ + option,
    }
}

/// The text for a configuration file that could not be read or was
/// refused; `why` is the reason.
pub open spec fn read_error_text(path: Seq<char>, why: Seq<char>) -> Seq<char> {
    "couldn't read "@ + path + ": "@ + why
}

/// Composes the text for a configuration file that could not be read or
/// was refused.
pub fn format_read_error(path: &str, why: &str) -> (r: String)
    ensures
        r@ == read_error_text(path@, why@),
{
    let mut out = String::from_str("couldn't read ");
    out.append(path);
    out.append(": ");
    out.append(why);
    out
}

/// Composes the text for a value that `y` does not hold under `x`.
pub fn format_not_found_error(x: &str, y: &str) -> (r: String)
    ensures
        r@ == not_found_text(x@, y@),
{
    let mut out = String::from_str("Could not get <");
    out.append(y);
    out.append("> of <");
    out.append(x);
    out.append(">");
    out
}

impl AccessError {
    /// The line of text for this failure.
    pub fn message(&self) -> (r: String)
        ensures
            r@ == access_error_text(*self),
    {
        match *self {
            AccessError::Open => String::from_str("Opening the register space failed"),
            AccessError::Seek { address } => {
                let mut out = String::from_str("Seeking pos <");
                append_decimal(&mut out, address);
                out.append("> failed");
                out
            },
            AccessError::Transfer => String::from_str("Could not transfer two bytes"),
        }
    }
}

impl ConfigError {
    /// The line of text for this failure.
    pub fn message(&self) -> (r: String)
        ensures
            r@ == config_error_text(self@),
    {
        match self {
            ConfigError::Load { reason } => reason.clone(),
            ConfigError::MissingKey { section, key } => format_not_found_error(
                key.as_str(),
                section.as_str(),
            ),
            ConfigError::Parse => String::from_str("Could not parse value"),
        }
    }
}

impl IswError {
    /// The line of text for this failure.
    pub fn message(&self) -> (r: String)
        ensures
            r@ == error_text(self@),
    {
        match self {
            IswError::Config(e) => e.message(),
            IswError::Access(e) => e.message(),
            IswError::InvalidArgument => String::from_str("No viable option provided"),
            IswError::OutOfRange => String::from_str("No viable threshold provided"),
            IswError::UnrecognizedOption { option } => {
                let mut out = String::from_str("Unrecognized option ");
                out.append(option.as_str());
                out
            },
        }
    }
}

} // verus!

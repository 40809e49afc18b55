//! The errors of the library.

use vstd::prelude::*;
use vstd::string::*;

verus! {

/// The kind of a failure to find or read a file.
#[derive(Debug, Clone, Copy, PartialEq, Eq, Structural)]
pub enum IoFailureKind {
    NotFound,
    Other,
}

/// A failure to find or read a file, with the message for its reader.
#[derive(Debug)]
pub struct IoFailure {
    pub kind: IoFailureKind,
    pub message: String,
}

/// Why no argument string could be produced.
#[derive(Debug)]
pub enum EsbuildConfigError {
    ConfigParseError,
    ConfigPathError,
    Io(IoFailure),
}

/// Why no configuration file was found.
#[derive(Debug)]
pub enum ConfigPathError {
    Io(IoFailure),
}

/// Why a text is no configuration.
#[derive(Debug)]
pub enum ConfigParseError {
    InvalidConfigError,
    JsonError(json::Error),
}

/// The configuration has the wrong form.
#[derive(Debug)]
pub struct InvalidConfigError;

impl EsbuildConfigError {
    /// The message for the user.
    pub fn message(&self) -> (r: String)
        ensures
            r@ == "An unknown error happened."@,
    {
        String::from_str("An unknown error happened.")
    }
}

impl ConfigPathError {
    /// The message for the user.
    pub fn message(&self) -> (r: String)
        ensures
            r@ == "Couldn’t find or open the esbuild configuration file."@,
    {
        String::from_str("Couldn’t find or open the esbuild configuration file.")
    }
}

impl ConfigParseError {
    /// The message for the user.
    pub fn message(&self) -> (r: String)
        ensures
            r@ == "Invalid esbuild configuration format."@,
    {
        String::from_str("Invalid esbuild configuration format.")
    }
}

impl InvalidConfigError {
    /// The message for the user.
    pub fn message(&self) -> (r: String)
        ensures
            r@ == "Invalid esbuild configuration format."@,
    {
        String::from_str("Invalid esbuild configuration format.")
    }
}

} // verus!

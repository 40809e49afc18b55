//! Turns a JSON build configuration into the argument string of the esbuild
//! command line.

use vstd::prelude::*;
use vstd::string::*;

pub mod args;
pub mod errors;
pub mod json_value;
pub mod limits;
pub mod model;
pub mod paths;
pub mod quote;
pub mod text;
pub mod theorems;

use crate::args::{args_from_config_json_value, args_from_package_json_value};
use crate::errors::{
    ConfigParseError, ConfigPathError, EsbuildConfigError, IoFailure, IoFailureKind,
};
use crate::json_value::{parse_json, parsed_json};
use crate::limits::{check_parser_limits, within_parser_limits};
use crate::model::translated;

verus! {

/// The two forms in which a configuration comes.
#[derive(Debug, Clone, Copy, PartialEq, Eq, Structural)]
pub enum ConfigFileType {
    /// A document of its own.
    ConfigJson,
    /// The member `esbuild` of a `package.json`.
    PackageJson,
}

/// The member of the document that holds the configuration, where the
/// document is not the configuration itself.
pub open spec fn subfield_of(config_file_type: ConfigFileType) -> Option<Seq<char>> {
    match config_file_type {
        ConfigFileType::ConfigJson => None,
        ConfigFileType::PackageJson => Some("esbuild"@),
    }
}

/// The argument string that a text yields, or `None` where the text is not
/// JSON, holds a fraction too long for the parser, or the document has
/// the wrong shape.
pub open spec fn document_args(content: Seq<char>, config_file_type: ConfigFileType) -> Option<
    Seq<char>,
> {
    if within_parser_limits(content) {
        match parsed_json(content) {
            Some(root) => translated(root, subfield_of(config_file_type)),
            None => None,
        }
    } else {
        None
    }
}

/// The text of the file at `path`, where reading it gave one, and else
/// the failure to read that file. `content` is what reading gave.
pub fn read_json_content(path: &str, content: Option<String>) -> (r: Result<
    String,
    EsbuildConfigError,
>)
    ensures
        match content {
            Some(text) => r == Ok::<String, EsbuildConfigError>(text),
            None => {
                &&& r matches Err(EsbuildConfigError::Io(failure))
                &&& failure.kind == IoFailureKind::Other
                &&& failure.message@ == "Couldn’t read "@ + path@
            },
        },
{
    match content {
        Some(text) => Ok(text),
        None => {
            let mut message = String::from_str("Couldn’t read ");
            message.append(path);
            Err(EsbuildConfigError::Io(IoFailure { kind: IoFailureKind::Other, message }))
        },
    }
}

/// Parses the text of a configuration file and translates it. Every
/// failure is reported as an invalid configuration; a text that the
/// parser cannot be given is one, and is not parsed.
pub fn parse_esbuild_config(content: String, config_file_type: ConfigFileType) -> (r: Result<
    String,
    ConfigParseError,
>)
    ensures
        match document_args(content@, config_file_type) {
            Some(args) => r matches Ok(out) && out@ == args,
            None => r matches Err(e) && e is InvalidConfigError,
        },
{
    if !check_parser_limits(content.as_str()) {
        return Err(ConfigParseError::InvalidConfigError);
    }
    match parse_json(content.as_str()) {
        Ok(value) => {
            let translated = match config_file_type {
                ConfigFileType::ConfigJson => args_from_config_json_value(value),
                ConfigFileType::PackageJson => args_from_package_json_value(value),
            };
            match translated {
                Ok(out) => Ok(out),
                Err(_) => Err(ConfigParseError::InvalidConfigError),
            }
        },
        Err(_) => Err(ConfigParseError::InvalidConfigError),
    }
}

/// The argument string of the configuration that was looked for and read.
///
/// `found` is what the search for the file gave: the form of the file,
/// and with it what reading the file gave. A failed search and a failed
/// read are path errors; an invalid configuration is a parse error.
pub fn esbuild_conf(
    found: Result<(ConfigFileType, Result<String, EsbuildConfigError>), ConfigPathError>,
) -> (r: Result<String, EsbuildConfigError>)
    ensures
        match found {
            Err(_) => r matches Err(e) && e is ConfigPathError,
            Ok((_, Err(_))) => r matches Err(e) && e is ConfigPathError,
            Ok((config_file_type, Ok(text))) => match document_args(text@, config_file_type) {
                Some(args) => r matches Ok(out) && out@ == args,
                None => r matches Err(e) && e is ConfigParseError,
            },
        },
{
    match found {
        Err(_) => Err(EsbuildConfigError::ConfigPathError),
        Ok((_, Err(_))) => Err(EsbuildConfigError::ConfigPathError),
        Ok((config_file_type, Ok(text))) => match parse_esbuild_config(text, config_file_type) {
            Ok(out) => Ok(out),
            Err(_) => Err(EsbuildConfigError::ConfigParseError),
        },
    }
}

} // verus!

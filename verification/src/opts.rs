//! Options of the format-conversion and password-generation commands.

use crate::util::str_eq;
use vstd::prelude::*;

verus! {

/// The output formats of the conversion command.
#[derive(Debug, Clone, Copy, PartialEq, Eq, Structural)]
pub enum OutputFormat {
    Json,
    Yaml,
}

impl OutputFormat {
    /// The textual name of the format, as written on the command line.
    pub fn name(&self) -> (r: &'static str)
        ensures
            *self == OutputFormat::Json ==> r@ == "json"@,
            *self == OutputFormat::Yaml ==> r@ == "yaml"@,
    {
        match self {
            OutputFormat::Json => "json",
            OutputFormat::Yaml => "yaml",
        }
    }
}

/// Parses an output format name; only `json` and `yaml` are accepted.
pub fn parse_format(format: &str) -> (r: Result<OutputFormat, &'static str>)
    ensures
        format@ == "json"@ ==> r == Ok::<OutputFormat, &'static str>(OutputFormat::Json),
        format@ == "yaml"@ ==> r == Ok::<OutputFormat, &'static str>(OutputFormat::Yaml),
        r matches Err(e) ==> e@ == "Invalid format"@ && format@ != "json"@ && format@ != "yaml"@,
{
    proof {
        reveal_strlit("json");
        reveal_strlit("yaml");
        assert("json"@[0] == 'j' && "yaml"@[0] == 'y');
        assert("json"@ != "yaml"@);
    }
    if str_eq(format, "json") {
        Ok(OutputFormat::Json)
    } else if str_eq(format, "yaml") {
        Ok(OutputFormat::Yaml)
    } else {
        Err("Invalid format")
    }
}

/// Accepts an input name only when it exists on disk; never alters an
/// accepted name.
pub fn verify_input_file(filename: &str) -> (r: Result<String, &'static str>)
    ensures
        r matches Ok(f) ==> f@ == filename@,
        r matches Err(e) ==> e@ == "File does not exist"@,
{
    if crate::cli::path_exists(filename) {
        Ok(filename.to_owned())
    } else {
        Err("File does not exist")
    }
}

/// Options for converting a roster table to another format.
#[derive(Debug, Clone)]
pub struct CsvOpts {
    pub input: String,
    pub format: OutputFormat,
    pub output: Option<String>,
    pub delimiter: char,
    pub header: bool,
}

/// Options for generating a random password: its length and the character
/// classes it may draw from.
#[derive(Debug, Clone, Copy)]
pub struct GenPassOpts {
    pub length: u8,
    pub number: bool,
    pub symbols: bool,
    pub uppercase: bool,
    pub lowercase: bool,
}

} // verus!

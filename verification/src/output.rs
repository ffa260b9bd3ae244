//! Gate-keeps writing the document out: a destination must have a file-name
//! component and not be a directory, an existing destination is only
//! overwritten when output is forced, and the rendering is dispatched by the
//! chosen format. The decision is taken here; performing the write is the
//! caller's part.

use crate::document::Spdx;
use crate::key_value;
use crate::key_value::spec_key_value;
use crate::paths::file_name_of;
use crate::paths::spec_file_name;
use vstd::prelude::*;
use vstd::string::StringExecFns;

verus! {

/// The output formats a caller can choose.
#[derive(Clone, Copy, Debug, PartialEq, Eq, Structural)]
pub enum Format {
    KeyValue,
    Json,
    Yaml,
    Rdf,
}

/// The file extension conventionally carried by each format.
pub open spec fn spec_extension(f: Format) -> Seq<char> {
    match f {
        Format::KeyValue => ".spdx"@,
        Format::Json => ".json"@,
        Format::Yaml => ".yaml"@,
        Format::Rdf => ".rdf"@,
    }
}

/// The human-readable name of each format.
pub open spec fn spec_format_name(f: Format) -> Seq<char> {
    match f {
        Format::KeyValue => "Key-Value"@,
        Format::Json => "JSON"@,
        Format::Yaml => "YAML"@,
        Format::Rdf => "RDF"@,
    }
}

impl Format {
    /// The file extension for the format, with its leading dot.
    pub fn extension(&self) -> (r: &'static str)
        ensures
            r@ == spec_extension(*self),
    {
        match self {
            Format::KeyValue => ".spdx",
            Format::Json => ".json",
            Format::Yaml => ".yaml",
            Format::Rdf => ".rdf",
        }
    }

    /// The human-readable name of the format.
    pub fn name(&self) -> (r: &'static str)
        ensures
            r@ == spec_format_name(*self),
    {
        match self {
            Format::KeyValue => "Key-Value",
            Format::Json => "JSON",
            Format::Yaml => "YAML",
            Format::Rdf => "RDF",
        }
    }
}

/// Why a write was rejected before anything touched the filesystem.
#[derive(Clone, Debug)]
pub enum OutputError {
    /// The destination path has no file-name component.
    MissingFileName,
    /// The destination is an existing directory.
    IsDirectory,
    /// The destination exists and output is not being forced.
    AlreadyExists { path: String },
    /// The chosen format has no implementation.
    NotImplemented { format: Format },
}

/// The message each rejection carries.
pub open spec fn spec_error_message(e: OutputError) -> Seq<char> {
    match e {
        OutputError::MissingFileName => "missing output file name"@,
        OutputError::IsDirectory => "output can't be a directory"@,
        OutputError::AlreadyExists { path } => "output file already exists: "@ + path@,
        OutputError::NotImplemented { format } => spec_format_name(format)
            + " format not yet implemented"@,
    }
}

impl OutputError {
    /// Renders the rejection as a human-readable message.
    pub fn message(&self) -> (r: String)
        ensures
            r@ == spec_error_message(*self),
    {
        match self {
            OutputError::MissingFileName => "missing output file name".to_owned(),
            OutputError::IsDirectory => "output can't be a directory".to_owned(),
            OutputError::AlreadyExists { path } => {
                let mut m: String = "output file already exists: ".to_owned();
                m.append(path.as_str());
                m
            },
            OutputError::NotImplemented { format } => {
                let mut m: String = format.name().to_owned();
                m.append(" format not yet implemented");
                m
            },
        }
    }
}

/// What an allowed write consists of: the rendered text for the format the
/// library renders itself, or an instruction to run the document through the
/// general-purpose encoder for that format.
pub enum WriteAction {
    WriteText { content: String },
    EncodeJson,
    EncodeYaml,
}

/// Handles writing to the correct path.
#[derive(Clone, Debug)]
pub struct OutputManager {
    /// The path to be written to.
    pub to: String,
    /// The format to write the output in.
    pub format: Format,
    /// Whether output is being forced.
    pub force: bool,
}

impl OutputManager {
    /// Builds an output manager for one invocation.
    pub fn new(path: &str, force: bool, format: Format) -> (r: Self)
        ensures
            r.to@ == path@,
            r.format == format,
            r.force == force,
    {
        OutputManager { to: path.to_owned(), format, force }
    }

    /// A write may proceed: the destination has a file name, is not a
    /// directory, and either does not exist or output is being forced.
    pub open spec fn spec_write_allowed(self, dest_exists: bool, dest_is_dir: bool) -> bool {
        &&& spec_file_name(self.to@) is Some
        &&& !dest_is_dir
        &&& (self.force || !dest_exists)
    }

    /// Decides whether the document may be written and, if so, how: the
    /// rendered text for the key-value format, or the encoder to run for a
    /// structured format. Rejections name their cause exactly, and nothing
    /// here touches the filesystem.
    pub fn write_document(&self, doc: &Spdx, dest_exists: bool, dest_is_dir: bool) -> (r: Result<
        WriteAction,
        OutputError,
    >)
        ensures
            r is Ok <==> self.spec_write_allowed(dest_exists, dest_is_dir) && self.format
                != Format::Rdf,
            spec_file_name(self.to@) is None ==> (r matches Err(e) && e is MissingFileName),
            spec_file_name(self.to@) is Some && dest_is_dir ==> (r matches Err(e)
                && e is IsDirectory),
            spec_file_name(self.to@) is Some && !dest_is_dir && dest_exists && !self.force ==> (
            r matches Err(e) && e matches OutputError::AlreadyExists { path } && path@
                == self.to@),
            self.spec_write_allowed(dest_exists, dest_is_dir) && self.format == Format::Rdf ==> (
            r matches Err(e) && e matches OutputError::NotImplemented { format } && format
                == Format::Rdf),
            r matches Ok(a) ==> match self.format {
                Format::KeyValue => a matches WriteAction::WriteText { content } && content@
                    == spec_key_value(*doc),
                Format::Json => a is EncodeJson,
                Format::Yaml => a is EncodeYaml,
                Format::Rdf => false,
            },
    {
        // Check the output file has a file name and isn't a directory.
        if file_name_of(self.to.as_str()).is_none() {
            return Err(OutputError::MissingFileName);
        }
        if dest_is_dir {
            return Err(OutputError::IsDirectory);
        }
        // A little truth table making clear this conditional is the right one.
        //
        // ---------
        // | T | T | - forcing and exists - no error
        // | T | F | - forcing and doesn't exist - no error
        // | F | T | - not forcing and exists - error
        // | F | F | - not forcing and doesn't exist - no error
        // ---------
        if !self.force && dest_exists {
            return Err(OutputError::AlreadyExists { path: self.to.clone() });
        }
        // Write the document out in the requested format.
        match self.format {
            Format::KeyValue => Ok(WriteAction::WriteText { content: key_value::write(doc) }),
            Format::Json => Ok(WriteAction::EncodeJson),
            Format::Yaml => Ok(WriteAction::EncodeYaml),
            Format::Rdf => Err(OutputError::NotImplemented { format: Format::Rdf }),
        }
    }
}

} // verus!

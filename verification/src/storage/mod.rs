//! File formats: their names, options, readers and writers.

use vstd::prelude::*;
use vstd::string::*;

use crate::text::{ascii_lower, joined3, lowercase_text, same_text, to_lowercase};

pub mod effects;
pub mod error;
pub mod file_format;
pub mod stream;
pub mod utils;

use error::{Result, StorageError, StorageErrorView};
use file_format::lance::{LanceReadOptions, LanceReader, LanceWriteOptions, LanceWriter};
use file_format::parquet::{ParquetReadOptions, ParquetReader, ParquetWriter};
use file_format::vortex::{VortexReadOptions, VortexReader, VortexWriteOptions, VortexWriter};

verus! {

/// Supported file formats.
#[derive(Debug, Clone, Copy, PartialEq, Eq, Hash, Structural)]
pub enum Format {
    /// Parquet format.
    Parquet,
    /// Lance format.
    Lance,
    /// Vortex format.
    Vortex,
}

/// Format-specific read options.
#[derive(Debug)]
pub enum FormatReadOptions {
    /// Parquet reader options.
    Parquet(ParquetReadOptions),
    /// Lance reader options.
    Lance(LanceReadOptions),
    /// Vortex reader options.
    Vortex(VortexReadOptions),
}

/// Format-specific write options.
pub enum FormatWriteOptions {
    /// Parquet writer properties.
    Parquet(parquet::file::properties::WriterProperties),
    /// Lance write parameters.
    Lance(LanceWriteOptions),
    /// Vortex write options.
    Vortex(VortexWriteOptions),
}

/// A reader of one of the formats.
#[derive(Debug)]
pub enum ReaderEnum {
    /// Parquet reader.
    Parquet(ParquetReader),
    /// Lance reader.
    Lance(LanceReader),
    /// Vortex reader.
    Vortex(VortexReader),
}

/// A writer of one of the formats.
#[derive(Debug)]
pub enum WriterEnum {
    /// Parquet writer.
    Parquet(ParquetWriter),
    /// Lance writer.
    Lance(LanceWriter),
    /// Vortex writer.
    Vortex(VortexWriter),
}

/// The name of a format.
pub open spec fn format_name(format: Format) -> Seq<char> {
    match format {
        Format::Parquet => "parquet"@,
        Format::Lance => "lance"@,
        Format::Vortex => "vortex"@,
    }
}

/// The format that a text names, whatever its case.
pub open spec fn named_format(text: Seq<char>) -> Option<Format> {
    let lower = lowercase_text(text);
    if lower == "parquet"@ {
        Some(Format::Parquet)
    } else if lower == "lance"@ {
        Some(Format::Lance)
    } else if lower == "vortex"@ {
        Some(Format::Vortex)
    } else {
        None
    }
}

/// The refusal of a text that names no format.
pub open spec fn unknown_format(text: Seq<char>) -> StorageErrorView {
    StorageErrorView::Unsupported(
        "File format '"@ + text
            + "' is not supported. Supported formats: parquet, lance, vortex"@,
    )
}

impl Format {
    /// Reads a format's name.
    pub fn from_str(s: &str) -> (r: Result<Format>)
        ensures
            match r {
                Ok(format) => named_format(s@) == Some(format),
                Err(e) => named_format(s@) is None && e@ == unknown_format(s@),
            },
            s@ == "parquet"@ ==> r == Result::<Format>::Ok(Format::Parquet),
            s@ == "lance"@ ==> r == Result::<Format>::Ok(Format::Lance),
            s@ == "vortex"@ ==> r == Result::<Format>::Ok(Format::Vortex),
    {
        let lower = to_lowercase(s);
        let name = lower.as_str();
        proof {
            reveal_strlit("parquet");
            reveal_strlit("lance");
            reveal_strlit("vortex");
            if s@ == "parquet"@ || s@ == "lance"@ || s@ == "vortex"@ {
                assert(s@.map_values(|c: char| ascii_lower(c)) =~= s@);
            }
        }
        if same_text(name, "parquet") {
            Ok(Format::Parquet)
        } else if same_text(name, "lance") {
            Ok(Format::Lance)
        } else if same_text(name, "vortex") {
            Ok(Format::Vortex)
        } else {
            Err(
                StorageError::Unsupported(
                    joined3(
                        "File format '",
                        s,
                        "' is not supported. Supported formats: parquet, lance, vortex",
                    ),
                ),
            )
        }
    }

    /// The name of the format. [`Format::from_str`] reads it back.
    pub fn as_str(&self) -> (r: &'static str)
        ensures
            r@ == format_name(*self),
    {
        match self {
            Format::Parquet => "parquet",
            Format::Lance => "lance",
            Format::Vortex => "vortex",
        }
    }
}

impl ReaderEnum {
    /// The format that the reader reads.
    pub open spec fn format(&self) -> Format {
        match self {
            ReaderEnum::Parquet(_) => Format::Parquet,
            ReaderEnum::Lance(_) => Format::Lance,
            ReaderEnum::Vortex(_) => Format::Vortex,
        }
    }

    /// Create a reader for the given format.
    pub fn new(format: Format) -> (r: Self)
        ensures
            r.format() == format,
    {
        match format {
            Format::Parquet => ReaderEnum::Parquet(ParquetReader::new()),
            Format::Lance => ReaderEnum::Lance(LanceReader::new()),
            Format::Vortex => ReaderEnum::Vortex(VortexReader::new()),
        }
    }

    /// Create a reader for the format that a text names.
    pub fn from_str(format_str: &str) -> (r: Result<Self>)
        ensures
            match r {
                Ok(reader) => named_format(format_str@) == Some(reader.format()),
                Err(e) => named_format(format_str@) is None && e@ == unknown_format(format_str@),
            },
            format_str@ == "parquet"@ ==> r is Ok && r->Ok_0.format() == Format::Parquet,
            format_str@ == "lance"@ ==> r is Ok && r->Ok_0.format() == Format::Lance,
            format_str@ == "vortex"@ ==> r is Ok && r->Ok_0.format() == Format::Vortex,
    {
        match Format::from_str(format_str) {
            Ok(format) => Ok(ReaderEnum::new(format)),
            Err(e) => Err(e),
        }
    }

    /// Checks that read options are for the reader's format.
    pub fn check_options(&self, options: &FormatReadOptions) -> (r: Result<()>)
        ensures
            match r {
                Ok(_) => self.format() == options.format(),
                Err(e) => self.format() != options.format() && e@ == StorageErrorView::Unsupported(
                    "read options do not match reader format"@,
                ),
            },
    {
        match (self, options) {
            (ReaderEnum::Parquet(_), FormatReadOptions::Parquet(_)) => Ok(()),
            (ReaderEnum::Lance(_), FormatReadOptions::Lance(_)) => Ok(()),
            (ReaderEnum::Vortex(_), FormatReadOptions::Vortex(_)) => Ok(()),
            _ => Err(
                StorageError::Unsupported(
                    String::from_str("read options do not match reader format"),
                ),
            ),
        }
    }
}

impl FormatReadOptions {
    /// The format that the options are for.
    pub open spec fn format(&self) -> Format {
        match self {
            FormatReadOptions::Parquet(_) => Format::Parquet,
            FormatReadOptions::Lance(_) => Format::Lance,
            FormatReadOptions::Vortex(_) => Format::Vortex,
        }
    }
}

impl WriterEnum {
    /// The format that the writer writes.
    pub open spec fn format(&self) -> Format {
        match self {
            WriterEnum::Parquet(_) => Format::Parquet,
            WriterEnum::Lance(_) => Format::Lance,
            WriterEnum::Vortex(_) => Format::Vortex,
        }
    }

    /// Create a writer for the given format.
    pub fn new(format: Format) -> (r: Self)
        ensures
            r.format() == format,
    {
        match format {
            Format::Parquet => WriterEnum::Parquet(ParquetWriter::new()),
            Format::Lance => WriterEnum::Lance(LanceWriter::new()),
            Format::Vortex => WriterEnum::Vortex(VortexWriter::new()),
        }
    }

    /// Create a writer for the format that a text names.
    pub fn from_str(format_str: &str) -> (r: Result<Self>)
        ensures
            match r {
                Ok(writer) => named_format(format_str@) == Some(writer.format()),
                Err(e) => named_format(format_str@) is None && e@ == unknown_format(format_str@),
            },
            format_str@ == "parquet"@ ==> r is Ok && r->Ok_0.format() == Format::Parquet,
            format_str@ == "lance"@ ==> r is Ok && r->Ok_0.format() == Format::Lance,
            format_str@ == "vortex"@ ==> r is Ok && r->Ok_0.format() == Format::Vortex,
    {
        match Format::from_str(format_str) {
            Ok(format) => Ok(WriterEnum::new(format)),
            Err(e) => Err(e),
        }
    }

    /// Checks that write options are for the writer's format.
    pub fn check_options(&self, options: &FormatWriteOptions) -> (r: Result<()>)
        ensures
            match r {
                Ok(_) => self.format() == options.format(),
                Err(e) => self.format() != options.format() && e@ == StorageErrorView::Unsupported(
                    "write options do not match writer format"@,
                ),
            },
    {
        match (self, options) {
            (WriterEnum::Parquet(_), FormatWriteOptions::Parquet(_)) => Ok(()),
            (WriterEnum::Lance(_), FormatWriteOptions::Lance(_)) => Ok(()),
            (WriterEnum::Vortex(_), FormatWriteOptions::Vortex(_)) => Ok(()),
            _ => Err(
                StorageError::Unsupported(
                    String::from_str("write options do not match writer format"),
                ),
            ),
        }
    }
}

impl FormatWriteOptions {
    /// The format that the options are for.
    pub open spec fn format(&self) -> Format {
        match self {
            FormatWriteOptions::Parquet(_) => Format::Parquet,
            FormatWriteOptions::Lance(_) => Format::Lance,
            FormatWriteOptions::Vortex(_) => Format::Vortex,
        }
    }
}

} // verus!

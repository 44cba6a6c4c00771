//! File format implementations.

use vstd::prelude::*;
use vstd::string::*;

use crate::json::{json_model, JsonModel};
use crate::storage::error::{Result, StorageError, StorageErrorView};
use crate::text::{joined, lowercase_text, same_text, to_lowercase};

pub mod lance;
pub mod parquet;
pub mod vortex;

verus! {

/// What comes of checking format options.
#[verifier::ext_equal]
pub enum OptionsVerdict {
    /// The format takes them.
    Fine,
    /// The format refuses them, with the text that says why.
    Refused(Seq<char>),
    /// The format's own builder panics on them.
    Panics,
}

/// The verdict on format options.
pub open spec fn options_verdict(file_format: Seq<char>, options: JsonModel) -> OptionsVerdict {
    let format = lowercase_text(file_format);
    if format == "parquet"@ {
        match parquet::parquet_options(
            parquet::default_settings(Seq::empty()),
            Some(options),
        ) {
            parquet::ParquetOutcome::Done(_) => OptionsVerdict::Fine,
            parquet::ParquetOutcome::Refused(s) => OptionsVerdict::Refused(s),
            parquet::ParquetOutcome::Panics => OptionsVerdict::Panics,
        }
    } else if format == "lance"@ {
        match lance::lance_options(Some(options)) {
            Ok(_) => OptionsVerdict::Fine,
            Err(s) => OptionsVerdict::Refused(s),
        }
    } else if format == "vortex"@ {
        match vortex::vortex_options(Some(options)) {
            Ok(_) => OptionsVerdict::Fine,
            Err(s) => OptionsVerdict::Refused(s),
        }
    } else {
        OptionsVerdict::Refused("Unsupported file format: "@ + format)
    }
}

fn judge_format_options(file_format: &str, options: &serde_json::Value) -> (r: Option<Result<()>>)
    ensures
        match r {
            Some(Ok(_)) => options_verdict(file_format@, json_model(*options)) is Fine,
            Some(Err(e)) => options_verdict(file_format@, json_model(*options)) is Refused && e@
                == StorageErrorView::Unsupported(
                options_verdict(file_format@, json_model(*options))->Refused_0,
            ),
            None => options_verdict(file_format@, json_model(*options)) is Panics,
        },
{
    let format = to_lowercase(file_format);
    let name = format.as_str();
    if same_text(name, "parquet") {
        let r = parquet::parse_write_options_checked(Some(options));
        proof {
            if r is Some {
                let model = Some(json_model(*options));
                let created_by = choose|created_by: Seq<char>|
                    ({
                        let outcome = parquet::parquet_options(
                            #[trigger] parquet::default_settings(created_by),
                            model,
                        );
                        match r->0 {
                            Ok(p) => outcome == parquet::ParquetOutcome::Done(
                                parquet::properties_settings(p),
                            ),
                            Err(e) => outcome is Refused && e@ == StorageErrorView::Unsupported(
                                outcome->Refused_0,
                            ),
                        }
                    });
                if model->0 is Object {
                    parquet::parquet_verdict_is_fixed(
                        parquet::default_settings(created_by),
                        parquet::default_settings(Seq::empty()),
                        crate::storage::utils::ordered_entries(model->0->Object_0),
                    );
                }
            }
        }
        match r {
            Some(Ok(_)) => Some(Ok(())),
            Some(Err(e)) => Some(Err(e)),
            None => None,
        }
    } else if same_text(name, "lance") {
        match lance::parse_write_options(Some(options)) {
            Ok(_) => Some(Ok(())),
            Err(e) => Some(Err(e)),
        }
    } else if same_text(name, "vortex") {
        match vortex::parse_write_options(Some(options)) {
            Ok(_) => Some(Ok(())),
            Err(e) => Some(Err(e)),
        }
    } else {
        Some(Err(StorageError::Unsupported(joined("Unsupported file format: ", name))))
    }
}

/// Checks format options against the format that they are for.
pub fn validate_format_options(file_format: &str, options: &serde_json::Value) -> (r: Result<()>)
    requires
        !(options_verdict(file_format@, json_model(*options)) is Panics),
    ensures
        match r {
            Ok(_) => options_verdict(file_format@, json_model(*options)) is Fine,
            Err(e) => options_verdict(file_format@, json_model(*options)) is Refused && e@
                == StorageErrorView::Unsupported(
                options_verdict(file_format@, json_model(*options))->Refused_0,
            ),
        },
{
    match judge_format_options(file_format, options) {
        Some(r) => r,
        None => {
            assert(false);
            Ok(())
        },
    }
}

/// Checks format options against the format that they are for; nothing where the format's own
/// builder panics on them.
pub fn validate_format_options_checked(file_format: &str, options: &serde_json::Value) -> (r:
    Option<Result<()>>)
    ensures
        match r {
            Some(Ok(_)) => options_verdict(file_format@, json_model(*options)) is Fine,
            Some(Err(e)) => options_verdict(file_format@, json_model(*options)) is Refused && e@
                == StorageErrorView::Unsupported(
                options_verdict(file_format@, json_model(*options))->Refused_0,
            ),
            None => options_verdict(file_format@, json_model(*options)) is Panics,
        },
{
    match judge_format_options(file_format, options) {
        Some(_) => Some(validate_format_options(file_format, options)),
        None => None,
    }
}

/// Takes the text of a path; a path that is no UTF-8 text has none.
pub fn path_to_utf8(text: Option<&str>) -> (r: Result<&str>)
    ensures
        match r {
            Ok(s) => text is Some && s@ == text->0@,
            Err(e) => text is None && e@ == StorageErrorView::Io("Path contains invalid UTF-8"@),
        },
{
    match text {
        Some(s) => Ok(s),
        None => Err(StorageError::Io(String::from_str("Path contains invalid UTF-8"))),
    }
}

} // verus!

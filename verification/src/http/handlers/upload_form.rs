//! The fields of an upload form: the archive under `file`, its format under
//! `format` (OpenSCENARIO 1 unless given), and nothing else that matters.

use vstd::prelude::*;
use crate::entity::enums::ScenarioFormat;
use crate::http::handlers::upload::parse_scenario_format;
use crate::text::str_eq;

verus! {

/// How a form field is read.
#[derive(PartialEq, Eq, Structural)]
pub enum FormField {
    /// The archive, read as bytes.
    File,
    /// The format of the scenarios, read as text.
    Format,
    /// Any other field: skipped.
    Other,
}

/// The role of the field called `name`.
pub fn form_field(name: &str) -> (res: FormField)
    ensures
        name@ == "file"@ ==> res == FormField::File,
        name@ == "format"@ ==> res == FormField::Format,
        name@ != "file"@ && name@ != "format"@ ==> res == FormField::Other,
{
    proof {
        reveal_strlit("file");
        reveal_strlit("format");
        assert("file"@.len() != "format"@.len());
    }
    if str_eq(name, "file") {
        FormField::File
    } else if str_eq(name, "format") {
        FormField::Format
    } else {
        FormField::Other
    }
}

/// What the fields read so far say: the last archive sent, and the format.
pub struct UploadForm {
    pub zip_bytes: Option<Vec<u8>>,
    pub format: ScenarioFormat,
}

impl UploadForm {
    /// A form before any field: no archive, OpenSCENARIO 1.
    pub fn new() -> (res: Self)
        ensures
            res.zip_bytes is None,
            res.format == ScenarioFormat::OpenScenario1,
    {
        UploadForm { zip_bytes: None, format: ScenarioFormat::OpenScenario1 }
    }

    /// Takes the content of a `file` field; a later one replaces an earlier.
    pub fn set_file(&mut self, bytes: Vec<u8>)
        ensures
            final(self).zip_bytes == Some(bytes),
            final(self).format == old(self).format,
    {
        self.zip_bytes = Some(bytes);
    }

    /// Takes the text of a `format` field. An unknown format is refused with
    /// `Unknown format: {text}` and leaves the form as it was.
    pub fn set_format(&mut self, text: &str) -> (res: Result<(), String>)
        ensures
            final(self).zip_bytes == old(self).zip_bytes,
            match parse_format_spec(text@) {
                Some(f) => res is Ok && final(self).format == f,
                None => final(self).format == old(self).format && (res matches Err(m) && m@
                    == "Unknown format: "@ + text@),
            },
    {
        proof {
            reveal_strlit("open_scenario1");
            reveal_strlit("open_scenario2");
            reveal_strlit("carla_lb_route");
            assert("open_scenario1"@[13] != "open_scenario2"@[13]);
            assert("open_scenario1"@[0] != "carla_lb_route"@[0]);
            assert("open_scenario2"@[0] != "carla_lb_route"@[0]);
        }
        match parse_scenario_format(text) {
            Ok(f) => {
                self.format = f;
                Ok(())
            },
            Err(m) => Err(m),
        }
    }

    /// The archive and the format once every field is read; refused with
    /// `No file uploaded` when no `file` field came.
    pub fn finish(self) -> (res: Result<(Vec<u8>, ScenarioFormat), String>)
        ensures
            match self.zip_bytes {
                Some(b) => res == Ok::<(Vec<u8>, ScenarioFormat), String>((b, self.format)),
                None => res matches Err(m) && m@ == "No file uploaded"@,
            },
    {
        match self.zip_bytes {
            Some(b) => Ok((b, self.format)),
            None => Err(String::from_str("No file uploaded")),
        }
    }
}

/// The format a `format` field names, if it names one.
pub open spec fn parse_format_spec(text: Seq<char>) -> Option<ScenarioFormat> {
    if text == "open_scenario1"@ {
        Some(ScenarioFormat::OpenScenario1)
    } else if text == "open_scenario2"@ {
        Some(ScenarioFormat::OpenScenario2)
    } else if text == "carla_lb_route"@ {
        Some(ScenarioFormat::CarlaLbRoute)
    } else {
        None
    }
}

/// The formats an upload names: exactly the three names
/// `open_scenario1`, `open_scenario2` and `carla_lb_route` are accepted,
/// each mapped to its own format, and every other text is refused.
pub proof fn lemma_format_names(text: Seq<char>)
    ensures
        parse_format_spec(text) == Some(ScenarioFormat::OpenScenario1) <==> text
            == "open_scenario1"@,
        parse_format_spec(text) == Some(ScenarioFormat::OpenScenario2) <==> text
            == "open_scenario2"@,
        parse_format_spec(text) == Some(ScenarioFormat::CarlaLbRoute) <==> text
            == "carla_lb_route"@,
        parse_format_spec(text) is None <==> (text != "open_scenario1"@ && text
            != "open_scenario2"@ && text != "carla_lb_route"@),
{
    reveal_strlit("open_scenario1");
    reveal_strlit("open_scenario2");
    reveal_strlit("carla_lb_route");
    assert("open_scenario1"@[13] != "open_scenario2"@[13]);
    assert("open_scenario1"@[0] != "carla_lb_route"@[0]);
    assert("open_scenario2"@[0] != "carla_lb_route"@[0]);
}

} // verus!

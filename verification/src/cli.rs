use crate::utils::text::chars_are;
use crate::utils::text::chars_of;
use crate::utils::text::ends_with;
use crate::utils::text::spec_ends_with;
use vstd::prelude::*;
use vstd::string::StringExecFns;

verus! {

/// What stands for the standard input where code is asked for.
pub const STDIN_CODE_DEFAULT_CHAR: &'static str = "-";

/// The output that copies the snapshot to the clipboard.
pub const CLIPBOARD_OUTPUT: &'static str = "clipboard";

/// What the user asked for on the command line.
pub struct CLI {
    pub from_file: Option<String>,
    pub from_code: Option<String>,
    pub from_clipboard: bool,
    /// `clipboard`, or the file to save the snapshot in.
    pub output: String,
    pub execute: Vec<String>,
    pub skip: bool,
    pub range: Option<String>,
    pub code_font_family: Option<String>,
    pub code_theme: Option<String>,
    pub has_breadcrumbs: Option<bool>,
    pub has_line_number: bool,
    pub breadcrumbs_separator: Option<String>,
    pub breadcrumbs_font_family: Option<String>,
    pub breadcrumbs_color: Option<String>,
    pub start_line_number: Option<u32>,
    pub line_number_color: String,
    pub delete_line: Vec<String>,
    pub delete_line_color: String,
    pub add_line: Vec<String>,
    pub add_line_color: String,
    pub highlight_range: Option<String>,
    pub relative_highlight_range: bool,
    pub highlight_range_color: String,
    pub raw_highlight_lines: Option<String>,
    pub language: Option<String>,
    pub file_path: Option<String>,
    pub watermark: Option<String>,
    pub watermark_font_family: Option<String>,
    pub watermark_color: Option<String>,
    pub shadow_radius: Option<u32>,
    pub shadow_color: Option<String>,
    pub mac_window_bar: Option<bool>,
    pub has_border: bool,
    pub border_color: String,
    pub margin_x: Option<u32>,
    pub margin_y: Option<u32>,
    pub title: Option<String>,
    pub scale_factor: u8,
    pub title_font_family: Option<String>,
    pub title_color: Option<String>,
    pub background: Option<String>,
    /// `ascii` or `image`.
    pub snapshot_type: String,
    pub config: Option<String>,
}

/// The text that is chosen: the one that was asked for, else the default.
pub open spec fn chosen_text(choice: Option<String>, fallback: Seq<char>) -> Seq<char> {
    match choice {
        Some(text) => text@,
        None => fallback,
    }
}

/// The text that was asked for, else the default.
pub fn text_or(choice: &Option<String>, fallback: String) -> (text: String)
    ensures
        text@ == chosen_text(*choice, fallback@),
{
    match choice {
        Some(text) => text.clone(),
        None => fallback,
    }
}

/// The first of two texts that is there.
pub open spec fn first_text(first: Option<String>, second: Option<String>) -> Option<Seq<char>> {
    match first {
        Some(text) => Some(text@),
        None => match second {
            Some(text) => Some(text@),
            None => None,
        },
    }
}

/// The first of two texts that is there.
pub fn text_or_else(first: &Option<String>, second: Option<String>) -> (text: Option<String>)
    ensures
        match first_text(*first, second) {
            Some(expected) => text is Some && text.unwrap()@ == expected,
            None => text is None,
        },
{
    match first {
        Some(text) => Some(text.clone()),
        None => second,
    }
}

/// What to do with a snapshot.
#[derive(Clone, Copy, Debug, PartialEq, Eq, Structural)]
pub enum OutputAction {
    /// Nothing: a snapshot as text can only be copied to the clipboard.
    SkipAscii,
    /// Copy the snapshot as text to the clipboard.
    CopyAscii,
    /// Copy the snapshot as a picture to the clipboard.
    CopyImage,
    /// Save the snapshot as a PNG image.
    SavePng,
    /// Save the snapshot as a drawing.
    SaveSvg,
    /// Save the snapshot as a page.
    SaveHtml,
}

/// Why a snapshot was not put out.
#[derive(Clone, Copy, Debug, PartialEq, Eq, Structural)]
pub enum OutputError {
    /// The kind of snapshot is neither `ascii` nor `image`.
    InvalidSnapshotType,
    /// The file to save in is neither a PNG image, a drawing nor a page.
    UnsupportedFormat,
}

/// What is done with a snapshot of kind `snapshot_type` that is put out to
/// `output`.
///
/// A snapshot as text is put out to the clipboard only: for any other
/// output nothing is done. To the clipboard goes what was asked for, a text
/// or a picture. To a file always goes a picture, in the format that the
/// end of the file's name stands for.
pub open spec fn output_action(output: Seq<char>, snapshot_type: Seq<char>) -> Result<
    OutputAction,
    OutputError,
> {
    if snapshot_type == "ascii"@ && output != CLIPBOARD_OUTPUT@ {
        Ok(OutputAction::SkipAscii)
    } else if output == CLIPBOARD_OUTPUT@ {
        if snapshot_type == "ascii"@ {
            Ok(OutputAction::CopyAscii)
        } else if snapshot_type == "image"@ {
            Ok(OutputAction::CopyImage)
        } else {
            Err(OutputError::InvalidSnapshotType)
        }
    } else if spec_ends_with(output, ".png"@) {
        Ok(OutputAction::SavePng)
    } else if spec_ends_with(output, ".svg"@) {
        Ok(OutputAction::SaveSvg)
    } else if spec_ends_with(output, ".html"@) {
        Ok(OutputAction::SaveHtml)
    } else {
        Err(OutputError::UnsupportedFormat)
    }
}

/// What the user is told after the snapshot was put out.
pub open spec fn output_message(output: Seq<char>, action: OutputAction) -> Seq<char> {
    match action {
        OutputAction::SkipAscii => "ASCII snapshot only supports copying to clipboard"@,
        OutputAction::CopyAscii | OutputAction::CopyImage => "Snapshot copied to clipboard"@,
        _ => "Snapshot saved to "@ + output + " successful!"@,
    }
}

impl CLI {
    /// Decides what to do with the snapshot.
    pub fn output_snapshot(&self) -> (action: Result<OutputAction, OutputError>)
        ensures
            action == output_action(self.output@, self.snapshot_type@),
    {
        let output = chars_of(self.output.as_str());
        let snapshot_type = chars_of(self.snapshot_type.as_str());
        let to_clipboard = chars_are(&output, CLIPBOARD_OUTPUT);
        let is_ascii = chars_are(&snapshot_type, "ascii");
        if is_ascii && !to_clipboard {
            return Ok(OutputAction::SkipAscii);
        }
        if to_clipboard {
            return if is_ascii {
                Ok(OutputAction::CopyAscii)
            } else if chars_are(&snapshot_type, "image") {
                Ok(OutputAction::CopyImage)
            } else {
                Err(OutputError::InvalidSnapshotType)
            };
        }
        if ends_with(self.output.as_str(), ".png") {
            Ok(OutputAction::SavePng)
        } else if ends_with(self.output.as_str(), ".svg") {
            Ok(OutputAction::SaveSvg)
        } else if ends_with(self.output.as_str(), ".html") {
            Ok(OutputAction::SaveHtml)
        } else {
            Err(OutputError::UnsupportedFormat)
        }
    }

    /// What the user is told after the snapshot was put out.
    pub fn output_message(&self, action: OutputAction) -> (message: String)
        ensures
            message@ == output_message(self.output@, action),
    {
        match action {
            OutputAction::SkipAscii => String::from_str(
                "ASCII snapshot only supports copying to clipboard",
            ),
            OutputAction::CopyAscii | OutputAction::CopyImage => String::from_str(
                "Snapshot copied to clipboard",
            ),
            _ => String::from_str("Snapshot saved to ").concat(self.output.as_str()).concat(
                " successful!",
            ),
        }
    }
}

} // verus!

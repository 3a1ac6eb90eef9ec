use crate::utils::text::ends_with;
use crate::utils::text::spec_ends_with;
use vstd::prelude::*;

verus! {

/// The ending of the name of a PNG image.
pub const PNG_EXTENSION: &'static str = ".png";

/// Why a snapshot was not saved.
#[derive(Clone, Copy, Debug, PartialEq, Eq, Structural)]
pub enum SaveError {
    /// No file was named.
    MissingSavePath,
    /// The file that was named is no PNG image.
    NotPng,
}

impl SaveError {
    /// The text shown to the user for this error.
    pub fn message(&self) -> (text: &'static str)
        ensures
            text@ == match *self {
                SaveError::MissingSavePath => "Cannot find 'save_path' in config"@,
                SaveError::NotPng => "The save_path must ends with .png"@,
            },
    {
        match self {
            SaveError::MissingSavePath => "Cannot find 'save_path' in config",
            SaveError::NotPng => "The save_path must ends with .png",
        }
    }
}

/// The file a snapshot is saved in, where the configuration names one and
/// it is a PNG image.
pub fn save_snapshot<'a>(save_path: Option<&'a str>) -> (path: Result<&'a str, SaveError>)
    ensures
        match save_path {
            None => path == Err::<&str, SaveError>(SaveError::MissingSavePath),
            Some(named) => if spec_ends_with(named@, PNG_EXTENSION@) {
                path == Ok::<&str, SaveError>(named)
            } else {
                path == Err::<&str, SaveError>(SaveError::NotPng)
            },
        },
{
    match save_path {
        Some(path) => {
            if !ends_with(path, PNG_EXTENSION) {
                return Err(SaveError::NotPng);
            }
            Ok(path)
        },
        None => Err(SaveError::MissingSavePath),
    }
}

} // verus!

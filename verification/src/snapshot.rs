pub mod ascii_snapshot;
pub mod image_snapshot;
pub mod snapshot_data;

use crate::save::save_snapshot;
use crate::save::SaveError;
use crate::save::PNG_EXTENSION;
use crate::snapshot::snapshot_data::pixmap_data;
use crate::snapshot::snapshot_data::pixmap_height;
use crate::snapshot::snapshot_data::pixmap_width;
use crate::snapshot::snapshot_data::SnapshotData;
use crate::utils::text::spec_ends_with;
use tiny_skia::Pixmap;
use vstd::prelude::*;
use vstd::slice::slice_to_vec;

verus! {

/// A snapshot as the raster it was drawn on.
pub struct SnapShot {
    template: Pixmap,
}

impl SnapShot {
    /// The raster.
    pub closed spec fn template(&self) -> Pixmap {
        self.template
    }

    pub fn new(template: Pixmap) -> (snapshot: SnapShot)
        ensures
            snapshot.template() == template,
    {
        SnapShot { template }
    }

    /// The picture that is copied to the clipboard: the pixels of the
    /// raster as they are, red, green, blue and alpha of each.
    pub fn copy(&self) -> (picture: SnapshotData)
        ensures
            picture.is_image_of(self.template(), pixmap_data(self.template())),
    {
        SnapshotData::Image {
            width: self.template.width() as usize,
            height: self.template.height() as usize,
            data: slice_to_vec(self.template.data()),
        }
    }

    /// The file the snapshot is saved in: the one that is named, where it
    /// is a PNG image.
    pub fn save<'a>(&self, save_path: &'a str) -> (path: Result<&'a str, SaveError>)
        ensures
            path == if spec_ends_with(save_path@, PNG_EXTENSION@) {
                Ok::<&str, SaveError>(save_path)
            } else {
                Err::<&str, SaveError>(SaveError::NotPng)
            },
    {
        match save_snapshot(Some(save_path)) {
            Ok(_) => Ok(save_path),
            Err(error) => Err(error),
        }
    }
}

} // verus!

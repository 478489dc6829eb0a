//! The three stages that every texture image goes through: scanning,
//! conversion to PNG, and relocation into the textures directory.

use vstd::prelude::*;
use crate::image_processing::asset_path::AssetPath;

pub mod asset_path;
pub mod codec;
pub mod convert_to_png;
pub mod failure;
pub mod move_to_textures_dir;
pub mod protocol;
pub mod scan_dir_for_images;
pub mod text;

verus! {

/// A texture image on disk.
#[derive(Debug, PartialEq, Eq)]
pub struct Image {
    /// Where the file lies now. Every stage that moves the file updates it.
    pub path: AssetPath,
    /// The extension that the file had when it was scanned. Conversion does
    /// not refresh it: only `path` tells what the file is called afterwards.
    pub extension: String,
}

/// What an `Image` stands for.
pub struct ImageModel {
    pub path: Seq<Seq<char>>,
    pub extension: Seq<char>,
}

impl View for Image {
    type V = ImageModel;

    open spec fn view(&self) -> ImageModel {
        ImageModel { path: self.path@, extension: self.extension@ }
    }
}

impl Clone for Image {
    fn clone(&self) -> (copy: Self)
        ensures
            copy@ == self@,
    {
        Image { path: self.path.clone(), extension: self.extension.clone() }
    }
}

} // verus!

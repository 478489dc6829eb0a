//! Normalisation of the texture images of 3D models: every texture ends up
//! as a PNG file inside the `materials/textures` directory of its model.
//!
//! The library decides; it never touches the file system. Its callers read
//! directories and files, hand over what they found, and perform the file
//! operations that the library asks for.

pub mod image_processing;

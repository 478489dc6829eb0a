//! Why a stage did not finish.
//!
//! There are two tiers. After a fatal error the whole run must stop: the
//! tree may be half converted and nothing can mend it. An I/O error ends one
//! call only: the new file or directory state is safe, and the caller
//! decides how to go on.

use vstd::prelude::*;
use crate::image_processing::asset_path::AssetPath;

verus! {

/// Why the run must stop.
#[derive(Clone, Copy, Debug, PartialEq, Eq, Structural)]
pub enum FatalCause {
    /// A directory could not be read during the scan.
    UnreadableDirectory,
    /// The source file could not be opened or read.
    UnreadableSource,
    /// The file name tells of no image format.
    UnrecognizedFormat,
    /// The source is a TIFF image; those are never converted.
    TiffSource,
    /// The source does not decode as the format that its name tells of.
    Undecodable,
    /// The image could not be encoded as PNG, or the PNG not written.
    Unwritable,
    /// The file could not be copied into the textures directory.
    CopyFailed,
    /// The asset does not lie below the models root.
    NotBelowRoot,
    /// The path ends in no file name.
    NoFileName,
}

/// The file operation after whose failure a call gives up.
#[derive(Clone, Copy, Debug, PartialEq, Eq, Structural)]
pub enum IoOperation {
    /// Creating the textures directory.
    CreateDirectory,
    /// Deleting the file that a new one has replaced.
    RemoveOriginal,
}

/// An error of the pipeline, with the path that it is about.
#[derive(Debug, PartialEq, Eq)]
pub enum PipelineError {
    /// The run must stop.
    Fatal { cause: FatalCause, path: AssetPath },
    /// This call failed; the run may go on.
    Io { operation: IoOperation, path: AssetPath },
}

/// What a `PipelineError` stands for.
pub enum ErrorModel {
    Fatal { cause: FatalCause, path: Seq<Seq<char>> },
    Io { operation: IoOperation, path: Seq<Seq<char>> },
}

impl View for PipelineError {
    type V = ErrorModel;

    open spec fn view(&self) -> ErrorModel {
        match *self {
            PipelineError::Fatal { cause, path } => ErrorModel::Fatal { cause, path: path@ },
            PipelineError::Io { operation, path } => ErrorModel::Io { operation, path: path@ },
        }
    }
}

impl Clone for PipelineError {
    fn clone(&self) -> (copy: Self)
        ensures
            copy@ == self@,
    {
        match self {
            PipelineError::Fatal { cause, path } => PipelineError::Fatal {
                cause: *cause,
                path: path.clone(),
            },
            PipelineError::Io { operation, path } => PipelineError::Io {
                operation: *operation,
                path: path.clone(),
            },
        }
    }
}

impl PipelineError {
    /// Whether the run must stop.
    pub fn is_fatal(&self) -> (fatal: bool)
        ensures
            fatal == (self@ is Fatal),
    {
        match self {
            PipelineError::Fatal { .. } => true,
            PipelineError::Io { .. } => false,
        }
    }

    /// The path that the error is about.
    pub fn path(&self) -> (path: &AssetPath)
        ensures
            self@ matches ErrorModel::Fatal { path: p, .. } ==> path@ == p,
            self@ matches ErrorModel::Io { path: p, .. } ==> path@ == p,
    {
        match self {
            PipelineError::Fatal { path, .. } => path,
            PipelineError::Io { path, .. } => path,
        }
    }
}

} // verus!

//! Converts an image file to PNG, unless it is one already.
//!
//! A conversion reads the source, writes the PNG beside it under the same
//! name with the extension `png`, and deletes the source. Whatever goes wrong
//! before the PNG is written is fatal; a source that cannot be deleted
//! afterwards ends this conversion only, since the PNG exists by then.

use vstd::prelude::*;
use crate::image_processing::asset_path::{
    extension_of, file_name_of, lemma_renamed, lemma_with_extension, name_stem,
    with_extension_of, AssetPath,
};
use crate::image_processing::codec::{detection_of, transcode, transcoding_of};
use crate::image_processing::failure::{ErrorModel, FatalCause, IoOperation, PipelineError};
use crate::image_processing::protocol::{Action, ActionModel, Event, EventModel, Status, StatusModel};
use crate::image_processing::text::same_text;
use crate::image_processing::{Image, ImageModel};

verus! {

/// The extension of PNG files.
pub open spec fn png() -> Seq<char> {
    "png"@
}

/// How far the conversion of one image has come.
///
/// The three waiting states each stand for one file operation, to be
/// performed by the caller and answered through `resume`.
#[derive(Debug, PartialEq, Eq)]
pub enum Conversion {
    /// The source file must be read.
    AwaitingSource { image: Image },
    /// The PNG file must be written to `target`.
    AwaitingWrite { image: Image, target: AssetPath, encoded: Vec<u8> },
    /// The PNG is written; the source must be deleted.
    AwaitingRemoval { image: Image, target: AssetPath },
    /// Nothing is left to do. `previous` is where the source lay; it is
    /// `None` for an image that was a PNG already.
    Finished { image: Image, previous: Option<AssetPath> },
    /// The conversion was given up.
    Failed { error: PipelineError },
}

/// What a `Conversion` stands for.
pub enum ConversionModel {
    AwaitingSource { image: ImageModel },
    AwaitingWrite { image: ImageModel, target: Seq<Seq<char>>, encoded: Seq<u8> },
    AwaitingRemoval { image: ImageModel, target: Seq<Seq<char>> },
    Finished { image: ImageModel, previous: Option<Seq<Seq<char>>> },
    Failed { error: ErrorModel },
}

impl View for Conversion {
    type V = ConversionModel;

    open spec fn view(&self) -> ConversionModel {
        match *self {
            Conversion::AwaitingSource { image } => ConversionModel::AwaitingSource {
                image: image@,
            },
            Conversion::AwaitingWrite { image, target, encoded } => ConversionModel::AwaitingWrite {
                image: image@,
                target: target@,
                encoded: encoded@,
            },
            Conversion::AwaitingRemoval { image, target } => ConversionModel::AwaitingRemoval {
                image: image@,
                target: target@,
            },
            Conversion::Finished { image, previous } => ConversionModel::Finished {
                image: image@,
                previous: match previous {
                    Some(path) => Some(path@),
                    None => None,
                },
            },
            Conversion::Failed { error } => ConversionModel::Failed { error: error@ },
        }
    }
}

/// The state that follows the reading of the source: the PNG is to be
/// written beside the source, or the conversion has failed for good.
pub open spec fn after_transcoding(
    image: ImageModel,
    encoded: Result<Seq<u8>, FatalCause>,
) -> ConversionModel {
    match encoded {
        Ok(bytes) => ConversionModel::AwaitingWrite {
            image,
            target: with_extension_of(image.path, png()),
            encoded: bytes,
        },
        Err(cause) => ConversionModel::Failed {
            error: ErrorModel::Fatal { cause, path: image.path },
        },
    }
}

impl ConversionModel {
    /// The file operation that the state waits for.
    pub open spec fn action(self) -> Option<ActionModel> {
        match self {
            ConversionModel::AwaitingSource { image } => Some(
                ActionModel::ReadFile { path: image.path },
            ),
            ConversionModel::AwaitingWrite { target, encoded, .. } => Some(
                ActionModel::WriteFile { path: target, contents: encoded },
            ),
            ConversionModel::AwaitingRemoval { image, .. } => Some(
                ActionModel::RemoveFile { path: image.path },
            ),
            _ => None,
        }
    }

    /// The state after the awaited operation ended with `event`.
    pub open spec fn resumed(self, event: EventModel) -> ConversionModel {
        match self {
            ConversionModel::AwaitingSource { image } => match event {
                EventModel::Contents(source) => after_transcoding(
                    image,
                    transcoding_of(file_name_of(image.path), source),
                ),
                _ => ConversionModel::Failed {
                    error: ErrorModel::Fatal {
                        cause: FatalCause::UnreadableSource,
                        path: image.path,
                    },
                },
            },
            ConversionModel::AwaitingWrite { image, target, .. } => if event
                == EventModel::Completed {
                ConversionModel::AwaitingRemoval { image, target }
            } else {
                ConversionModel::Failed {
                    error: ErrorModel::Fatal { cause: FatalCause::Unwritable, path: image.path },
                }
            },
            ConversionModel::AwaitingRemoval { image, target } => if event
                == EventModel::Completed {
                ConversionModel::Finished {
                    image: ImageModel { path: target, extension: image.extension },
                    previous: Some(image.path),
                }
            } else {
                ConversionModel::Failed {
                    error: ErrorModel::Io {
                        operation: IoOperation::RemoveOriginal,
                        path: image.path,
                    },
                }
            },
            _ => self,
        }
    }

    /// What there is to report on entering the state.
    pub open spec fn status(self) -> Option<StatusModel> {
        match self {
            ConversionModel::AwaitingSource { image } => Some(
                StatusModel::Converting { path: image.path },
            ),
            ConversionModel::Finished { image, previous: None } => Some(
                StatusModel::AlreadyPng { path: image.path },
            ),
            ConversionModel::Finished { previous: Some(source), .. } => Some(
                StatusModel::Converted { path: source },
            ),
            _ => None,
        }
    }

    /// How the conversion ended, once it has.
    pub open spec fn outcome(self) -> Option<Result<ImageModel, ErrorModel>> {
        match self {
            ConversionModel::Finished { image, .. } => Some(Ok(image)),
            ConversionModel::Failed { error } => Some(Err(error)),
            _ => None,
        }
    }
}

/// The first state of the conversion of `image`: an image that was scanned
/// with the extension `png` is finished at once.
pub open spec fn conversion_of(image: ImageModel) -> ConversionModel {
    if image.extension == png() {
        ConversionModel::Finished { image, previous: None }
    } else {
        ConversionModel::AwaitingSource { image }
    }
}

/// A conversion that goes through leaves the image in its directory, under
/// its old name with the extension `png`. The extension that the image was
/// scanned with stays as it was.
pub proof fn lemma_conversion_yields_png(image: ImageModel, source: Seq<u8>)
    requires
        transcoding_of(file_name_of(image.path), source) is Ok,
    ensures
        ({
            let done = (ConversionModel::AwaitingSource { image }).resumed(
                EventModel::Contents(source),
            ).resumed(EventModel::Completed).resumed(EventModel::Completed);
            &&& done matches ConversionModel::Finished { image: converted, previous }
            &&& previous == Some(image.path)
            &&& converted.extension == image.extension
            &&& converted.path == with_extension_of(image.path, png())
            &&& converted.path.drop_last() == image.path.drop_last()
            &&& extension_of(converted.path) == Some(png())
            &&& name_stem(converted.path.last()) == name_stem(image.path.last())
        }),
{
    reveal_strlit("png");
    lemma_with_extension(image.path, png());
    lemma_renamed(image.path.last(), png());
}

/// A source is converted only if its name tells of a format other than
/// TIFF. Of any other source the contents do not count: once it is read the
/// conversion has failed for good, and nothing was written or deleted.
pub proof fn lemma_unsupported_source_is_fatal(image: ImageModel, source: Seq<u8>)
    requires
        file_name_of(image.path) matches Some(name) ==> !(detection_of(name) is Supported),
    ensures
        ({
            let next = (ConversionModel::AwaitingSource { image }).resumed(
                EventModel::Contents(source),
            );
            &&& next matches ConversionModel::Failed { error: ErrorModel::Fatal { cause, path } }
            &&& path == image.path
            &&& cause == FatalCause::UnrecognizedFormat || cause == FatalCause::TiffSource
            &&& next.action() is None
        }),
{
}

/// The operations of a conversion come in one order. A conversion begins,
/// if with any, with the reading of the source; the PNG is written only once
/// the source is read and converted, and the source is deleted only once the
/// PNG is confirmed to be written.
pub proof fn lemma_conversion_order(image: ImageModel, state: ConversionModel, event: EventModel)
    ensures
        conversion_of(image).action() is Some ==> conversion_of(image).action()->0 is ReadFile,
        !(state.resumed(event).action() matches Some(ActionModel::ReadFile { .. })),
        state.resumed(event).action() matches Some(ActionModel::WriteFile { .. }) ==> state
            is AwaitingSource && event is Contents,
        state.resumed(event).action() matches Some(ActionModel::RemoveFile { .. }) ==> state
            is AwaitingWrite && event == EventModel::Completed,
{
}

/// Begins the conversion of `image` to PNG.
///
/// An image whose extension is `png` is left alone: the conversion is
/// finished at once, the image unchanged, and no file operation is asked for.
/// The extension is the one that the image was scanned with; it is not read
/// off the path again.
pub fn convert_to_png(image: Image) -> (conversion: Conversion)
    ensures
        conversion@ == conversion_of(image@),
        image@.extension == png() ==> conversion@ == (ConversionModel::Finished {
            image: image@,
            previous: None,
        }) && conversion@.action() is None,
{
    if same_text(image.extension.as_str(), "png") {
        Conversion::Finished { image, previous: None }
    } else {
        convert(image)
    }
}

/// Begins the conversion of `image`, whatever its extension: the source file
/// is to be read. What is read is written anew as a PNG and then deleted,
/// also where the path of the PNG is that of the source.
pub fn convert(image: Image) -> (conversion: Conversion)
    ensures
        conversion@ == (ConversionModel::AwaitingSource { image: image@ }),
{
    Conversion::AwaitingSource { image }
}

/// The state that follows the reading of the source of `image`, `encoded`
/// being what the codec made of the source.
pub fn transcoded(image: Image, encoded: Result<Vec<u8>, FatalCause>) -> (conversion: Conversion)
    ensures
        conversion@ == after_transcoding(
            image@,
            match encoded {
                Ok(bytes) => Ok(bytes@),
                Err(cause) => Err(cause),
            },
        ),
{
    match encoded {
        Ok(bytes) => {
            let target = image.path.with_extension("png");
            Conversion::AwaitingWrite { image, target, encoded: bytes }
        },
        Err(cause) => Conversion::Failed {
            error: PipelineError::Fatal { cause, path: image.path },
        },
    }
}

impl Conversion {
    /// The file operation to perform now, if the conversion waits for one.
    pub fn action(&self) -> (action: Option<Action<'_>>)
        ensures
            match action {
                Some(wanted) => self@.action() == Some(wanted@),
                None => self@.action() is None,
            },
    {
        match self {
            Conversion::AwaitingSource { image } => Some(Action::ReadFile { path: &image.path }),
            Conversion::AwaitingWrite { target, encoded, .. } => Some(
                Action::WriteFile { path: target, contents: encoded },
            ),
            Conversion::AwaitingRemoval { image, .. } => Some(
                Action::RemoveFile { path: &image.path },
            ),
            _ => None,
        }
    }

    /// The next state, `event` telling how the awaited operation ended.
    /// Only `Event::Contents` answers the reading of the source, and only
    /// `Event::Completed` confirms another operation; any other event counts
    /// as the failure of the operation. A conversion that waits for nothing
    /// stays as it is.
    pub fn resume(self, event: Event) -> (next: Conversion)
        ensures
            next@ == self@.resumed(event@),
    {
        match self {
            Conversion::AwaitingSource { image } => {
                match event {
                    Event::Contents(source) => {
                        let encoded = transcode(image.path.file_name(), &source);
                        transcoded(image, encoded)
                    },
                    _ => Conversion::Failed {
                        error: PipelineError::Fatal {
                            cause: FatalCause::UnreadableSource,
                            path: image.path,
                        },
                    },
                }
            },
            Conversion::AwaitingWrite { image, target, .. } => {
                match event {
                    Event::Completed => Conversion::AwaitingRemoval { image, target },
                    _ => Conversion::Failed {
                        error: PipelineError::Fatal {
                            cause: FatalCause::Unwritable,
                            path: image.path,
                        },
                    },
                }
            },
            Conversion::AwaitingRemoval { image, target } => {
                match event {
                    Event::Completed => Conversion::Finished {
                        image: Image { path: target, extension: image.extension },
                        previous: Some(image.path),
                    },
                    _ => Conversion::Failed {
                        error: PipelineError::Io {
                            operation: IoOperation::RemoveOriginal,
                            path: image.path,
                        },
                    },
                }
            },
            other => other,
        }
    }

    /// What there is to report on entering this state.
    pub fn status(&self) -> (status: Option<Status<'_>>)
        ensures
            match status {
                Some(report) => self@.status() == Some(report@),
                None => self@.status() is None,
            },
    {
        match self {
            Conversion::AwaitingSource { image } => Some(Status::Converting { path: &image.path }),
            Conversion::Finished { image, previous: None } => Some(
                Status::AlreadyPng { path: &image.path },
            ),
            Conversion::Finished { previous: Some(source), .. } => Some(
                Status::Converted { path: source },
            ),
            _ => None,
        }
    }

    /// The converted image, or the error, once the conversion has ended.
    pub fn outcome(self) -> (outcome: Option<Result<Image, PipelineError>>)
        ensures
            match outcome {
                Some(Ok(image)) => self@.outcome() == Some(
                    Ok::<ImageModel, ErrorModel>(image@),
                ),
                Some(Err(error)) => self@.outcome() == Some(
                    Err::<ImageModel, ErrorModel>(error@),
                ),
                None => self@.outcome() is None,
            },
    {
        match self {
            Conversion::Finished { image, .. } => Some(Ok(image)),
            Conversion::Failed { error } => Some(Err(error)),
            _ => None,
        }
    }
}

} // verus!

//! Moves stray textures into the textures directory of their model
//! (`materials/textures`).
//!
//! The model of an asset is the directory directly below the models root
//! under which the asset lies, however deep. An asset that lies directly in
//! the models root has no such directory: the models root itself then counts
//! as its model.

use vstd::prelude::*;
use crate::image_processing::asset_path::{file_name_of, AssetPath};
use crate::image_processing::failure::{ErrorModel, FatalCause, IoOperation, PipelineError};
use crate::image_processing::protocol::{Action, ActionModel, Event, EventModel, Status, StatusModel};
use crate::image_processing::{Image, ImageModel};

verus! {

/// The directory of a model that holds its materials.
pub open spec fn materials() -> Seq<char> {
    "materials"@
}

/// The directory, below `materials`, that holds the textures.
pub open spec fn textures() -> Seq<char> {
    "textures"@
}

/// The directory of a model that holds its meshes, where older models keep
/// their textures.
pub open spec fn meshes() -> Seq<char> {
    "meshes"@
}

/// Whether a texture lies where it may stay: its path ends in
/// `materials/textures/<name>` or in `meshes/<name>`.
pub open spec fn is_settled(path: Seq<Seq<char>>) -> bool {
    match file_name_of(path) {
        Some(name) => seq![materials(), textures(), name].is_suffix_of(path) || seq![
            meshes(),
            name,
        ].is_suffix_of(path),
        None => false,
    }
}

/// The directory of the model that the asset at `path` belongs to: the entry
/// of `base` under which the asset lies, or `base` itself for an asset that
/// lies directly in it.
pub open spec fn model_root_of(path: Seq<Seq<char>>, base: Seq<Seq<char>>) -> Seq<Seq<char>> {
    if path.len() - base.len() >= 2 {
        base.push(path[base.len() as int])
    } else {
        base
    }
}

/// The textures directory for the asset at `path`, where the asset lies
/// below `base`.
pub open spec fn textures_dir_of(path: Seq<Seq<char>>, base: Seq<Seq<char>>) -> Option<
    Seq<Seq<char>>,
> {
    if base.is_prefix_of(path) && base.len() < path.len() {
        Some(model_root_of(path, base) + seq![materials(), textures()])
    } else {
        None
    }
}

/// The textures directory of the model that `image` belongs to, `base_path`
/// being the models root. It is a fatal error if the image does not lie
/// below `base_path`.
pub fn get_new_textures_path(image: &Image, base_path: &AssetPath) -> (new_textures_path: Result<
    AssetPath,
    PipelineError,
>)
    ensures
        match new_textures_path {
            Ok(directory) => textures_dir_of(image@.path, base_path@) == Some(directory@),
            Err(error) => textures_dir_of(image@.path, base_path@) is None && error@
                == (ErrorModel::Fatal { cause: FatalCause::NotBelowRoot, path: image@.path }),
        },
{
    let depth: usize = base_path.components.len();
    let length: usize = image.path.components.len();
    if length <= depth || !image.path.starts_with(base_path) {
        return Err(
            PipelineError::Fatal { cause: FatalCause::NotBelowRoot, path: image.path.clone() },
        );
    }
    let model_path = if length - depth >= 2 {
        base_path.clone().join(image.path.components[depth].as_str())
    } else {
        base_path.clone()
    };
    let new_textures_path = model_path.join("materials").join("textures");
    assert(new_textures_path@ =~= model_root_of(image@.path, base_path@) + seq![
        materials(),
        textures(),
    ]);
    Ok(new_textures_path)
}

/// How far the move of one texture has come.
///
/// The three waiting states each stand for one file operation, to be
/// performed by the caller and answered through `resume`.
#[derive(Debug, PartialEq, Eq)]
pub enum Relocation {
    /// The textures directory must be created.
    AwaitingDirectory { image: Image, directory: AssetPath, target: AssetPath },
    /// The file must be copied to `target`.
    AwaitingCopy { image: Image, directory: AssetPath, target: AssetPath },
    /// The copy is made; the file at its old place must be deleted.
    AwaitingRemoval { image: Image, target: AssetPath },
    /// Nothing is left to do. `previous` is where the file lay before it was
    /// moved; it is `None` for a file that was left where it was.
    Finished { image: Image, previous: Option<AssetPath> },
    /// The move was given up.
    Failed { error: PipelineError },
}

/// What a `Relocation` stands for.
pub enum RelocationModel {
    AwaitingDirectory { image: ImageModel, directory: Seq<Seq<char>>, target: Seq<Seq<char>> },
    AwaitingCopy { image: ImageModel, directory: Seq<Seq<char>>, target: Seq<Seq<char>> },
    AwaitingRemoval { image: ImageModel, target: Seq<Seq<char>> },
    Finished { image: ImageModel, previous: Option<Seq<Seq<char>>> },
    Failed { error: ErrorModel },
}

impl View for Relocation {
    type V = RelocationModel;

    open spec fn view(&self) -> RelocationModel {
        match *self {
            Relocation::AwaitingDirectory {
                image,
                directory,
                target,
            } => RelocationModel::AwaitingDirectory {
                image: image@,
                directory: directory@,
                target: target@,
            },
            Relocation::AwaitingCopy { image, directory, target } => RelocationModel::AwaitingCopy {
                image: image@,
                directory: directory@,
                target: target@,
            },
            Relocation::AwaitingRemoval { image, target } => RelocationModel::AwaitingRemoval {
                image: image@,
                target: target@,
            },
            Relocation::Finished { image, previous } => RelocationModel::Finished {
                image: image@,
                previous: match previous {
                    Some(path) => Some(path@),
                    None => None,
                },
            },
            Relocation::Failed { error } => RelocationModel::Failed { error: error@ },
        }
    }
}

impl RelocationModel {
    /// The file operation that the state waits for.
    pub open spec fn action(self) -> Option<ActionModel> {
        match self {
            RelocationModel::AwaitingDirectory { directory, .. } => Some(
                ActionModel::CreateDirAll { path: directory },
            ),
            RelocationModel::AwaitingCopy { image, target, .. } => Some(
                ActionModel::CopyFile { from: image.path, to: target },
            ),
            RelocationModel::AwaitingRemoval { image, .. } => Some(
                ActionModel::RemoveFile { path: image.path },
            ),
            _ => None,
        }
    }

    /// The state after the awaited operation ended with `event`. The copy is
    /// confirmed before the original is deleted; a failed copy is fatal,
    /// while a directory that cannot be created, or an original that cannot
    /// be deleted, ends this move only.
    pub open spec fn resumed(self, event: EventModel) -> RelocationModel {
        match self {
            RelocationModel::AwaitingDirectory { image, directory, target } => if event
                == EventModel::Completed {
                RelocationModel::AwaitingCopy { image, directory, target }
            } else {
                RelocationModel::Failed {
                    error: ErrorModel::Io {
                        operation: IoOperation::CreateDirectory,
                        path: directory,
                    },
                }
            },
            RelocationModel::AwaitingCopy { image, directory, target } => if event
                == EventModel::Completed {
                RelocationModel::AwaitingRemoval { image, target }
            } else {
                RelocationModel::Failed {
                    error: ErrorModel::Fatal { cause: FatalCause::CopyFailed, path: image.path },
                }
            },
            RelocationModel::AwaitingRemoval { image, target } => if event
                == EventModel::Completed {
                RelocationModel::Finished {
                    image: ImageModel { path: target, extension: image.extension },
                    previous: Some(image.path),
                }
            } else {
                RelocationModel::Failed {
                    error: ErrorModel::Io {
                        operation: IoOperation::RemoveOriginal,
                        path: image.path,
                    },
                }
            },
            _ => self,
        }
    }

    /// What there is to report on entering the state.
    pub open spec fn status(self) -> Option<StatusModel> {
        match self {
            RelocationModel::AwaitingDirectory { image, .. } => Some(
                StatusModel::Moving { path: image.path },
            ),
            RelocationModel::AwaitingCopy { directory, .. } => Some(
                StatusModel::CreatedDirectory { path: directory },
            ),
            RelocationModel::Finished { image, previous: Some(from) } => Some(
                StatusModel::Moved { from, to: image.path },
            ),
            _ => None,
        }
    }

    /// How the move ended, once it has.
    pub open spec fn outcome(self) -> Option<Result<ImageModel, ErrorModel>> {
        match self {
            RelocationModel::Finished { image, .. } => Some(Ok(image)),
            RelocationModel::Failed { error } => Some(Err(error)),
            _ => None,
        }
    }
}

/// The first state of the move of `image`, `base` being the models root.
pub open spec fn relocation_of(image: ImageModel, base: Seq<Seq<char>>) -> RelocationModel {
    match file_name_of(image.path) {
        None => RelocationModel::Failed {
            error: ErrorModel::Fatal { cause: FatalCause::NoFileName, path: image.path },
        },
        Some(name) => if is_settled(image.path) {
            RelocationModel::Finished { image, previous: None }
        } else {
            match textures_dir_of(image.path, base) {
                Some(directory) => RelocationModel::AwaitingDirectory {
                    image,
                    directory,
                    target: directory.push(name),
                },
                None => RelocationModel::Failed {
                    error: ErrorModel::Fatal { cause: FatalCause::NotBelowRoot, path: image.path },
                },
            }
        },
    }
}

/// The operations of a move come in one order. A move begins, if with any,
/// with the creation of the directory; the copy is asked for only once the
/// directory is confirmed, and the original is deleted only once the copy is
/// confirmed.
pub proof fn lemma_relocation_order(
    image: ImageModel,
    base: Seq<Seq<char>>,
    state: RelocationModel,
    event: EventModel,
)
    ensures
        relocation_of(image, base).action() is Some ==> relocation_of(image, base).action()->0
            is CreateDirAll,
        !(state.resumed(event).action() matches Some(ActionModel::CreateDirAll { .. })),
        state.resumed(event).action() matches Some(ActionModel::CopyFile { .. }) ==> state
            is AwaitingDirectory && event == EventModel::Completed,
        state.resumed(event).action() matches Some(ActionModel::RemoveFile { .. }) ==> state
            is AwaitingCopy && event == EventModel::Completed,
{
}

/// A texture that was moved lies where textures may stay, under the name it
/// had: whatever the models root of a later run, that run leaves it alone.
pub proof fn lemma_relocation_is_idempotent(
    image: ImageModel,
    base: Seq<Seq<char>>,
    later_base: Seq<Seq<char>>,
)
    requires
        relocation_of(image, base) is AwaitingDirectory,
    ensures
        ({
            let done = relocation_of(image, base).resumed(EventModel::Completed).resumed(
                EventModel::Completed,
            ).resumed(EventModel::Completed);
            &&& done matches RelocationModel::Finished { image: moved, previous }
            &&& previous == Some(image.path)
            &&& moved.extension == image.extension
            &&& file_name_of(moved.path) == file_name_of(image.path)
            &&& is_settled(moved.path)
            &&& relocation_of(moved, later_base) == (RelocationModel::Finished {
                image: moved,
                previous: None,
            })
        }),
{
    let name = file_name_of(image.path)->0;
    let directory = textures_dir_of(image.path, base)->0;
    let target = directory.push(name);
    assert(seq![materials(), textures(), name] =~= target.subrange(
        target.len() - 3,
        target.len() as int,
    ));
}

/// A stray texture that lies in some directory of a model goes to
/// `materials/textures` directly below the directory of that model, which is
/// the entry of the models root under which the texture lies.
pub proof fn lemma_relocation_target(image: ImageModel, base: Seq<Seq<char>>)
    requires
        base.is_prefix_of(image.path),
        image.path.len() >= base.len() + 2,
        file_name_of(image.path) is Some,
        !is_settled(image.path),
    ensures
        relocation_of(image, base) matches RelocationModel::AwaitingDirectory {
            image: subject,
            directory,
            target,
        } && subject == image && directory == base + seq![
            image.path[base.len() as int],
            materials(),
            textures(),
        ] && target == base + seq![
            image.path[base.len() as int],
            materials(),
            textures(),
            image.path.last(),
        ],
{
    let model = image.path[base.len() as int];
    let directory = textures_dir_of(image.path, base)->0;
    assert(directory =~= base + seq![model, materials(), textures()]);
    assert(directory.push(image.path.last()) =~= base + seq![
        model,
        materials(),
        textures(),
        image.path.last(),
    ]);
}

/// Begins the move of `image` into the textures directory of its model,
/// `base_path` being the models root.
///
/// An image that lies in `materials/textures` or in `meshes` already is left
/// alone: the move is finished at once, and no file operation is asked for.
/// Otherwise the result names the first operation, the creation of the
/// textures directory.
pub fn move_to_textures_dir(image: Image, base_path: &AssetPath) -> (relocation: Relocation)
    ensures
        relocation@ == relocation_of(image@, base_path@),
        is_settled(image@.path) ==> relocation@ == (RelocationModel::Finished {
            image: image@,
            previous: None,
        }) && relocation@.action() is None,
{
    let file_name: Option<String> = match image.path.file_name() {
        Some(name) => Some(name.clone()),
        None => None,
    };
    let file_name: String = match file_name {
        Some(name) => name,
        None => {
            return Relocation::Failed {
                error: PipelineError::Fatal { cause: FatalCause::NoFileName, path: image.path },
            };
        },
    };
    let textures_path = AssetPath::new("materials").join("textures").join(file_name.as_str());
    let meshes_path = AssetPath::new("meshes").join(file_name.as_str());
    assert(textures_path@ =~= seq![materials(), textures(), file_name@]);
    assert(meshes_path@ =~= seq![meshes(), file_name@]);

    if image.path.ends_with(&textures_path) || image.path.ends_with(&meshes_path) {
        return Relocation::Finished { image, previous: None };
    }
    match get_new_textures_path(&image, base_path) {
        Ok(directory) => {
            let target = directory.clone().join(file_name.as_str());
            Relocation::AwaitingDirectory { image, directory, target }
        },
        Err(error) => Relocation::Failed { error },
    }
}

impl Relocation {
    /// The file operation to perform now, if the move waits for one.
    pub fn action(&self) -> (action: Option<Action<'_>>)
        ensures
            match action {
                Some(wanted) => self@.action() == Some(wanted@),
                None => self@.action() is None,
            },
    {
        match self {
            Relocation::AwaitingDirectory { directory, .. } => Some(
                Action::CreateDirAll { path: directory },
            ),
            Relocation::AwaitingCopy { image, target, .. } => Some(
                Action::CopyFile { from: &image.path, to: target },
            ),
            Relocation::AwaitingRemoval { image, .. } => Some(
                Action::RemoveFile { path: &image.path },
            ),
            _ => None,
        }
    }

    /// The next state, `event` telling how the awaited operation ended.
    /// Only `Event::Completed` confirms an operation of a move; any other
    /// event counts as its failure. A move that waits for nothing stays as
    /// it is.
    pub fn resume(self, event: Event) -> (next: Relocation)
        ensures
            next@ == self@.resumed(event@),
    {
        let completed = match event {
            Event::Completed => true,
            _ => false,
        };
        match self {
            Relocation::AwaitingDirectory { image, directory, target } => {
                if completed {
                    Relocation::AwaitingCopy { image, directory, target }
                } else {
                    Relocation::Failed {
                        error: PipelineError::Io {
                            operation: IoOperation::CreateDirectory,
                            path: directory,
                        },
                    }
                }
            },
            Relocation::AwaitingCopy { image, directory, target } => {
                if completed {
                    Relocation::AwaitingRemoval { image, target }
                } else {
                    Relocation::Failed {
                        error: PipelineError::Fatal {
                            cause: FatalCause::CopyFailed,
                            path: image.path,
                        },
                    }
                }
            },
            Relocation::AwaitingRemoval { image, target } => {
                if completed {
                    Relocation::Finished {
                        image: Image { path: target, extension: image.extension },
                        previous: Some(image.path),
                    }
                } else {
                    Relocation::Failed {
                        error: PipelineError::Io {
                            operation: IoOperation::RemoveOriginal,
                            path: image.path,
                        },
                    }
                }
            },
            other => other,
        }
    }

    /// What there is to report on entering this state.
    pub fn status(&self) -> (status: Option<Status<'_>>)
        ensures
            match status {
                Some(report) => self@.status() == Some(report@),
                None => self@.status() is None,
            },
    {
        match self {
            Relocation::AwaitingDirectory { image, .. } => Some(
                Status::Moving { path: &image.path },
            ),
            Relocation::AwaitingCopy { directory, .. } => Some(
                Status::CreatedDirectory { path: directory },
            ),
            Relocation::Finished { image, previous: Some(from) } => Some(
                Status::Moved { from, to: &image.path },
            ),
            _ => None,
        }
    }

    /// The image at its final place, or the error, once the move has ended.
    pub fn outcome(self) -> (outcome: Option<Result<Image, PipelineError>>)
        ensures
            match outcome {
                Some(Ok(image)) => self@.outcome() == Some(
                    Ok::<ImageModel, ErrorModel>(image@),
                ),
                Some(Err(error)) => self@.outcome() == Some(
                    Err::<ImageModel, ErrorModel>(error@),
                ),
                None => self@.outcome() is None,
            },
    {
        match self {
            Relocation::Finished { image, .. } => Some(Ok(image)),
            Relocation::Failed { error } => Some(Err(error)),
            _ => None,
        }
    }
}

} // verus!

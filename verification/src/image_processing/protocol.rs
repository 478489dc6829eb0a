//! What passes between a stage and whoever performs its file operations.
//!
//! A stage that has to touch the file system stops and names one `Action`.
//! Its caller performs the action and answers with an `Event`; the stage
//! then says what comes next.

use vstd::prelude::*;
use crate::image_processing::asset_path::AssetPath;

verus! {

/// A file operation that a stage asks for.
#[derive(Debug, PartialEq, Eq)]
pub enum Action<'a> {
    /// Read the whole file; answer with its contents.
    ReadFile { path: &'a AssetPath },
    /// Create the file, or replace it, with these contents.
    WriteFile { path: &'a AssetPath, contents: &'a Vec<u8> },
    /// Create the directory and every missing ancestor; a directory that
    /// exists already is no failure.
    CreateDirAll { path: &'a AssetPath },
    /// Copy the file `from` to the file `to`.
    CopyFile { from: &'a AssetPath, to: &'a AssetPath },
    /// Delete the file.
    RemoveFile { path: &'a AssetPath },
}

/// What an `Action` stands for.
pub enum ActionModel {
    ReadFile { path: Seq<Seq<char>> },
    WriteFile { path: Seq<Seq<char>>, contents: Seq<u8> },
    CreateDirAll { path: Seq<Seq<char>> },
    CopyFile { from: Seq<Seq<char>>, to: Seq<Seq<char>> },
    RemoveFile { path: Seq<Seq<char>> },
}

impl<'a> View for Action<'a> {
    type V = ActionModel;

    open spec fn view(&self) -> ActionModel {
        match *self {
            Action::ReadFile { path } => ActionModel::ReadFile { path: path@ },
            Action::WriteFile { path, contents } => ActionModel::WriteFile {
                path: path@,
                contents: contents@,
            },
            Action::CreateDirAll { path } => ActionModel::CreateDirAll { path: path@ },
            Action::CopyFile { from, to } => ActionModel::CopyFile { from: from@, to: to@ },
            Action::RemoveFile { path } => ActionModel::RemoveFile { path: path@ },
        }
    }
}

/// How an action ended.
#[derive(Debug, PartialEq, Eq)]
pub enum Event {
    /// The action was performed; it had nothing to hand back.
    Completed,
    /// The action failed.
    Failed,
    /// The file was read; these are its contents.
    Contents(Vec<u8>),
}

/// What an `Event` stands for.
pub enum EventModel {
    Completed,
    Failed,
    Contents(Seq<u8>),
}

impl View for Event {
    type V = EventModel;

    open spec fn view(&self) -> EventModel {
        match *self {
            Event::Completed => EventModel::Completed,
            Event::Failed => EventModel::Failed,
            Event::Contents(bytes) => EventModel::Contents(bytes@),
        }
    }
}

/// What a stage has to tell about an asset, for whoever reports progress.
#[derive(Debug, PartialEq, Eq)]
pub enum Status<'a> {
    /// The asset is a PNG already and is not converted.
    AlreadyPng { path: &'a AssetPath },
    /// The conversion of the asset begins.
    Converting { path: &'a AssetPath },
    /// The asset that lay at `path` is converted.
    Converted { path: &'a AssetPath },
    /// The move of the asset into its textures directory begins.
    Moving { path: &'a AssetPath },
    /// The textures directory exists now.
    CreatedDirectory { path: &'a AssetPath },
    /// The asset was moved.
    Moved { from: &'a AssetPath, to: &'a AssetPath },
}

/// What a `Status` stands for.
pub enum StatusModel {
    AlreadyPng { path: Seq<Seq<char>> },
    Converting { path: Seq<Seq<char>> },
    Converted { path: Seq<Seq<char>> },
    Moving { path: Seq<Seq<char>> },
    CreatedDirectory { path: Seq<Seq<char>> },
    Moved { from: Seq<Seq<char>>, to: Seq<Seq<char>> },
}

impl<'a> View for Status<'a> {
    type V = StatusModel;

    open spec fn view(&self) -> StatusModel {
        match *self {
            Status::AlreadyPng { path } => StatusModel::AlreadyPng { path: path@ },
            Status::Converting { path } => StatusModel::Converting { path: path@ },
            Status::Converted { path } => StatusModel::Converted { path: path@ },
            Status::Moving { path } => StatusModel::Moving { path: path@ },
            Status::CreatedDirectory { path } => StatusModel::CreatedDirectory { path: path@ },
            Status::Moved { from, to } => StatusModel::Moved { from: from@, to: to@ },
        }
    }
}

} // verus!

//! Paths of assets.
//!
//! A path is the sequence of its components, from the outermost directory to
//! the entry itself, as `std::path::Path::iter` yields them: `/models/a/t.png`
//! is `/`, `models`, `a`, `t.png`. Every question that the pipeline asks of a
//! path is a question about that sequence.

use vstd::prelude::*;
use vstd::string::*;
use crate::image_processing::text::{
    find_last_dot, last_dot, lemma_last_dot, lemma_last_dot_between, same_text,
};

verus! {

broadcast use vstd::string::group_string_axioms;

/// Whether a component names an entry: it is not empty, not the root `/`,
/// and neither `.` nor `..`.
pub open spec fn is_file_name(component: Seq<char>) -> bool {
    &&& component.len() > 0
    &&& component != "/"@
    &&& component != "."@
    &&& component != ".."@
}

/// The final component of a path, where it names an entry.
pub open spec fn file_name_of(path: Seq<Seq<char>>) -> Option<Seq<char>> {
    if path.len() > 0 && is_file_name(path.last()) {
        Some(path.last())
    } else {
        None
    }
}

/// What follows the last `.` of a file name. A name without a `.`, or whose
/// only `.` is its first character, has no extension.
pub open spec fn name_extension(name: Seq<char>) -> Option<Seq<char>> {
    if last_dot(name) <= 0 {
        None
    } else {
        Some(name.skip(last_dot(name) + 1))
    }
}

/// A file name without its extension.
pub open spec fn name_stem(name: Seq<char>) -> Seq<char> {
    if last_dot(name) <= 0 {
        name
    } else {
        name.take(last_dot(name))
    }
}

/// A file name with its extension replaced, added where it had none, and
/// removed where `extension` is empty.
pub open spec fn renamed(name: Seq<char>, extension: Seq<char>) -> Seq<char> {
    if extension.len() == 0 {
        name_stem(name)
    } else {
        name_stem(name) + seq!['.'] + extension
    }
}

/// The extension of a path's file name.
pub open spec fn extension_of(path: Seq<Seq<char>>) -> Option<Seq<char>> {
    match file_name_of(path) {
        Some(name) => name_extension(name),
        None => None,
    }
}

/// The path with the extension of its file name replaced. A path without a
/// file name stays as it is.
pub open spec fn with_extension_of(path: Seq<Seq<char>>, extension: Seq<char>) -> Seq<Seq<char>> {
    match file_name_of(path) {
        Some(name) => path.drop_last().push(renamed(name, extension)),
        None => path,
    }
}

/// A file name that is given an extension without a `.` in it is a file
/// name still, has that extension, and keeps its stem.
pub proof fn lemma_renamed(name: Seq<char>, extension: Seq<char>)
    requires
        is_file_name(name),
        extension.len() > 0,
        forall|i: int| 0 <= i < extension.len() ==> extension[i] != '.',
    ensures
        is_file_name(renamed(name, extension)),
        name_extension(renamed(name, extension)) == Some(extension),
        name_stem(renamed(name, extension)) == name_stem(name),
{
    let stem = name_stem(name);
    let fresh = renamed(name, extension);
    lemma_last_dot(name);
    lemma_last_dot_between(stem, extension);
    assert(fresh.len() >= 3);
    reveal_strlit("/");
    reveal_strlit(".");
    reveal_strlit("..");
    assert(fresh.skip(stem.len() as int + 1) =~= extension);
    assert(fresh.take(stem.len() as int) =~= stem);
}

/// A path with a file name that is given an extension without a `.` in it
/// has that extension, and lies in the directory it lay in.
pub proof fn lemma_with_extension(path: Seq<Seq<char>>, extension: Seq<char>)
    requires
        file_name_of(path) is Some,
        extension.len() > 0,
        forall|i: int| 0 <= i < extension.len() ==> extension[i] != '.',
    ensures
        with_extension_of(path, extension).len() == path.len(),
        with_extension_of(path, extension).drop_last() == path.drop_last(),
        file_name_of(with_extension_of(path, extension)) == Some(
            renamed(path.last(), extension),
        ),
        extension_of(with_extension_of(path, extension)) == Some(extension),
{
    lemma_renamed(path.last(), extension);
    let fresh = with_extension_of(path, extension);
    assert(fresh.drop_last() =~= path.drop_last());
}

/// Whether `component` names an entry.
pub fn names_entry(component: &str) -> (named: bool)
    ensures
        named == is_file_name(component@),
{
    !component.is_empty() && !same_text(component, "/") && !same_text(component, ".")
        && !same_text(component, "..")
}

/// The extension of the file name `name`.
pub fn extension_in(name: &str) -> (extension: Option<String>)
    ensures
        match extension {
            Some(text) => name_extension(name@) == Some(text@),
            None => name_extension(name@) is None,
        },
{
    match find_last_dot(name) {
        Some(dot) => {
            if dot == 0 {
                None
            } else {
                let length: usize = name.unicode_len();
                Some(String::from_str(name.substring_char(dot + 1, length)))
            }
        },
        None => None,
    }
}

/// The file name `name` with `extension` in place of its own.
pub fn rename(name: &str, extension: &str) -> (fresh: String)
    ensures
        fresh@ == renamed(name@, extension@),
{
    let stem = match find_last_dot(name) {
        Some(dot) => {
            if dot == 0 {
                String::from_str(name)
            } else {
                String::from_str(name.substring_char(0, dot))
            }
        },
        None => String::from_str(name),
    };
    if extension.is_empty() {
        stem
    } else {
        proof {
            reveal_strlit(".");
            assert("."@ =~= seq!['.']);
        }
        stem.concat(".").concat(extension)
    }
}

/// Where an asset lies.
#[derive(Debug, PartialEq, Eq)]
pub struct AssetPath {
    /// The components, outermost first.
    pub components: Vec<String>,
}

impl View for AssetPath {
    type V = Seq<Seq<char>>;

    open spec fn view(&self) -> Seq<Seq<char>> {
        Seq::new(self.components@.len(), |i: int| self.components@[i]@)
    }
}

impl Clone for AssetPath {
    fn clone(&self) -> (copy: Self)
        ensures
            copy@ == self@,
    {
        let components = self.components.clone();
        let copy = AssetPath { components };
        assert(copy@ =~= self@);
        copy
    }
}

impl AssetPath {
    /// The path of one component.
    pub fn new(name: &str) -> (path: AssetPath)
        ensures
            path@ == seq![name@],
    {
        let mut components: Vec<String> = Vec::new();
        components.push(String::from_str(name));
        let path = AssetPath { components };
        assert(path@ =~= seq![name@]);
        path
    }

    /// The path of the entry `name` below this path.
    pub fn join(self, name: &str) -> (path: AssetPath)
        ensures
            path@ == self@.push(name@),
    {
        let mut components = self.components;
        components.push(String::from_str(name));
        let path = AssetPath { components };
        assert(path@ =~= self@.push(name@));
        path
    }

    /// The final component, where it names an entry.
    pub fn file_name(&self) -> (name: Option<&String>)
        ensures
            match name {
                Some(text) => file_name_of(self@) == Some(text@),
                None => file_name_of(self@) is None,
            },
    {
        let count: usize = self.components.len();
        if count == 0 {
            return None;
        }
        let last = &self.components[count - 1];
        if names_entry(last.as_str()) {
            Some(last)
        } else {
            None
        }
    }

    /// The extension of the file name.
    pub fn extension(&self) -> (extension: Option<String>)
        ensures
            match extension {
                Some(text) => extension_of(self@) == Some(text@),
                None => extension_of(self@) is None,
            },
    {
        match self.file_name() {
            Some(name) => extension_in(name.as_str()),
            None => None,
        }
    }

    /// The same path with `extension` as the extension of its file name.
    pub fn with_extension(&self, extension: &str) -> (path: AssetPath)
        ensures
            path@ == with_extension_of(self@, extension@),
    {
        let renamed_last = match self.file_name() {
            Some(name) => rename(name.as_str(), extension),
            None => {
                return self.clone();
            },
        };
        let count: usize = self.components.len();
        let mut components: Vec<String> = Vec::new();
        let mut index: usize = 0;
        while index < count - 1
            invariant
                count == self.components@.len(),
                count > 0,
                index <= count - 1,
                components@.len() == index,
                forall|i: int| 0 <= i < index ==> components@[i]@ == self.components@[i]@,
            decreases count - index,
        {
            components.push(self.components[index].clone());
            index = index + 1;
        }
        components.push(renamed_last);
        let path = AssetPath { components };
        assert(path@ =~= with_extension_of(self@, extension@));
        path
    }

    /// Whether the last components of this path are those of `suffix`.
    pub fn ends_with(&self, suffix: &AssetPath) -> (ends: bool)
        ensures
            ends == suffix@.is_suffix_of(self@),
    {
        let count: usize = self.components.len();
        let wanted: usize = suffix.components.len();
        if wanted > count {
            return false;
        }
        let start: usize = count - wanted;
        let mut index: usize = 0;
        while index < wanted
            invariant
                count == self.components@.len(),
                wanted == suffix.components@.len(),
                start == count - wanted,
                index <= wanted,
                forall|i: int| 0 <= i < index ==> self@[start + i] == suffix@[i],
            decreases wanted - index,
        {
            if self.components[start + index] != suffix.components[index] {
                assert(self@.subrange(start as int, count as int)[index as int] != suffix@[index as int]);
                return false;
            }
            index = index + 1;
        }
        assert(suffix@ =~= self@.subrange(start as int, count as int));
        true
    }

    /// Whether the first components of this path are those of `base`.
    pub fn starts_with(&self, base: &AssetPath) -> (starts: bool)
        ensures
            starts == base@.is_prefix_of(self@),
    {
        let count: usize = self.components.len();
        let wanted: usize = base.components.len();
        if wanted > count {
            return false;
        }
        let mut index: usize = 0;
        while index < wanted
            invariant
                count == self.components@.len(),
                wanted == base.components@.len(),
                wanted <= count,
                index <= wanted,
                forall|i: int| 0 <= i < index ==> self@[i] == base@[i],
            decreases wanted - index,
        {
            if self.components[index] != base.components[index] {
                assert(self@.subrange(0, wanted as int)[index as int] != base@[index as int]);
                return false;
            }
            index = index + 1;
        }
        assert(base@ =~= self@.subrange(0, wanted as int));
        true
    }
}

} // verus!

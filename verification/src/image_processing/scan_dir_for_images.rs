//! Finds the texture images below a directory.
//!
//! The caller walks the directory and hands over what it found as a
//! `DirTree`. The scan goes through the tree depth first, in the order in
//! which each directory listed its entries, keeps the files whose extension
//! is one of a texture image, and orders them by extension.

use vstd::prelude::*;
use crate::image_processing::asset_path::{extension_of, AssetPath};
use crate::image_processing::failure::{ErrorModel, FatalCause, PipelineError};
use crate::image_processing::text::{
    comes_before, lemma_not_precedes_transitive, lemma_precedes_asymmetric,
    lemma_precedes_irreflexive, precedes, same_text,
};
use crate::image_processing::{Image, ImageModel};

verus! {

/// What the walk found at one path.
#[derive(Debug, PartialEq, Eq)]
pub enum DirTree {
    /// Anything that is no directory.
    File { path: AssetPath },
    /// A directory, with its entries in the order in which it listed them.
    Directory { path: AssetPath, entries: Vec<DirTree> },
    /// A directory that could not be read, or not to its end.
    Unreadable { path: AssetPath },
}

/// Whether files with this extension are texture images. Case counts.
pub open spec fn is_texture_extension(extension: Seq<char>) -> bool {
    ||| extension == "tif"@
    ||| extension == "tga"@
    ||| extension == "tiff"@
    ||| extension == "jpeg"@
    ||| extension == "jpg"@
    ||| extension == "gif"@
    ||| extension == "png"@
}

/// The image that the file at `path` is scanned as, if it is a texture.
pub open spec fn texture_at(path: Seq<Seq<char>>) -> Option<ImageModel> {
    match extension_of(path) {
        Some(extension) => if is_texture_extension(extension) {
            Some(ImageModel { path, extension })
        } else {
            None
        },
        None => None,
    }
}

/// What the images in a vector stand for.
pub open spec fn models_of(images: Seq<Image>) -> Seq<ImageModel> {
    images.map_values(|image: Image| image@)
}

/// The images found so far, after `tree` has been gone through as well; or
/// the path of the first directory that could not be read. Only a directory
/// is gone through: a file in the place of the scanned tree adds nothing.
pub open spec fn scan_of(tree: DirTree, found: Seq<ImageModel>) -> Result<
    Seq<ImageModel>,
    Seq<Seq<char>>,
>
    decreases tree, 0nat,
{
    match tree {
        DirTree::Directory { entries, .. } => scan_of_entries(entries, entries.len() as nat, found),
        DirTree::Unreadable { path } => Err(path@),
        DirTree::File { .. } => Ok(found),
    }
}

/// The images found so far, after the first `count` of `entries` have been
/// gone through as well, each subdirectory at the place where it is listed.
pub open spec fn scan_of_entries(entries: Vec<DirTree>, count: nat, found: Seq<ImageModel>) -> Result<
    Seq<ImageModel>,
    Seq<Seq<char>>,
>
    decreases entries, count,
{
    if count == 0 || count > entries.len() {
        Ok(found)
    } else {
        match scan_of_entries(entries, (count - 1) as nat, found) {
            Ok(earlier) => match entries[count - 1] {
                DirTree::File { path } => match texture_at(path@) {
                    Some(image) => Ok(earlier.push(image)),
                    None => Ok(earlier),
                },
                subtree => scan_of(subtree, earlier),
            },
            Err(path) => Err(path),
        }
    }
}

/// Whether an image is what the scan makes of the file at its path.
pub open spec fn is_texture_image(image: ImageModel) -> bool {
    texture_at(image.path) == Some(image)
}

/// The scan of a tree keeps what was found before, and adds only files
/// whose extension is that of a texture image, each with its extension.
pub proof fn lemma_scan_finds_textures(tree: DirTree, found: Seq<ImageModel>)
    requires
        forall|i: int| 0 <= i < found.len() ==> is_texture_image(#[trigger] found[i]),
    ensures
        scan_of(tree, found) matches Ok(all) ==> found.is_prefix_of(all) && forall|i: int|
            0 <= i < all.len() ==> is_texture_image(#[trigger] all[i]),
    decreases tree, 0nat,
{
    match tree {
        DirTree::Directory { entries, .. } => {
            lemma_scan_of_entries_finds_textures(entries, entries.len() as nat, found);
        },
        _ => {},
    }
}

/// The same of the first `count` entries of a directory.
pub proof fn lemma_scan_of_entries_finds_textures(
    entries: Vec<DirTree>,
    count: nat,
    found: Seq<ImageModel>,
)
    requires
        forall|i: int| 0 <= i < found.len() ==> is_texture_image(#[trigger] found[i]),
    ensures
        scan_of_entries(entries, count, found) matches Ok(all) ==> found.is_prefix_of(all)
            && forall|i: int| 0 <= i < all.len() ==> is_texture_image(#[trigger] all[i]),
    decreases entries, count,
{
    if count != 0 && count <= entries.len() {
        lemma_scan_of_entries_finds_textures(entries, (count - 1) as nat, found);
        match scan_of_entries(entries, (count - 1) as nat, found) {
            Ok(earlier) => {
                match entries[count - 1] {
                    DirTree::File { path } => {},
                    subtree => {
                        lemma_scan_finds_textures(subtree, earlier);
                    },
                }
            },
            Err(_) => {},
        }
    }
}

/// Once an unreadable directory is met among the entries, the scan of any
/// more of them fails on that same directory.
pub proof fn lemma_scan_failure_persists(
    entries: Vec<DirTree>,
    count: nat,
    more: nat,
    found: Seq<ImageModel>,
)
    requires
        count <= more <= entries.len(),
        scan_of_entries(entries, count, found) is Err,
    ensures
        scan_of_entries(entries, more, found) == scan_of_entries(entries, count, found),
    decreases more,
{
    if count < more {
        lemma_scan_failure_persists(entries, count, (more - 1) as nat, found);
    }
}

/// Whether files with this extension are texture images.
pub fn is_texture(extension: &str) -> (texture: bool)
    ensures
        texture == is_texture_extension(extension@),
{
    same_text(extension, "tif") || same_text(extension, "tga") || same_text(extension, "tiff")
        || same_text(extension, "jpeg") || same_text(extension, "jpg") || same_text(
        extension,
        "gif",
    ) || same_text(extension, "png")
}

/// Adds to `images` the texture images below `dir`, in the order in which
/// they are met. A directory that could not be read is a fatal error, and
/// nothing of what was found is handed back then.
pub fn recursive_scan(dir: &DirTree, images: Vec<Image>) -> (scanned: Result<
    Vec<Image>,
    PipelineError,
>)
    ensures
        match scanned {
            Ok(all) => scan_of(*dir, models_of(images@)) == Ok::<
                Seq<ImageModel>,
                Seq<Seq<char>>,
            >(models_of(all@)),
            Err(error) => scan_of(*dir, models_of(images@)) matches Err(path) && error@ == (
            ErrorModel::Fatal { cause: FatalCause::UnreadableDirectory, path }),
        },
    decreases dir,
{
    match dir {
        DirTree::Directory { entries, .. } => {
            let ghost before = models_of(images@);
            let mut found = images;
            let mut index: usize = 0;
            while index < entries.len()
                invariant
                    index <= entries.len(),
                    before == models_of(images@),
                    dir matches DirTree::Directory { entries: listed, .. } && listed == entries,
                    scan_of_entries(*entries, index as nat, before) == Ok::<
                        Seq<ImageModel>,
                        Seq<Seq<char>>,
                    >(models_of(found@)),
                decreases entries.len() - index,
            {
                match &entries[index] {
                    DirTree::File { path } => {
                        match path.extension() {
                            Some(extension) => {
                                if is_texture(extension.as_str()) {
                                    let ghost earlier = models_of(found@);
                                    let image = Image { path: path.clone(), extension };
                                    found.push(image);
                                    assert(models_of(found@) =~= earlier.push(image@));
                                }
                            },
                            None => {},
                        }
                    },
                    subtree => {
                        match recursive_scan(subtree, found) {
                            Ok(more) => {
                                found = more;
                            },
                            Err(error) => {
                                proof {
                                    lemma_scan_failure_persists(
                                        *entries,
                                        (index + 1) as nat,
                                        entries.len() as nat,
                                        before,
                                    );
                                }
                                return Err(error);
                            },
                        }
                    },
                }
                index = index + 1;
            }
            Ok(found)
        },
        DirTree::Unreadable { path } => Err(
            PipelineError::Fatal { cause: FatalCause::UnreadableDirectory, path: path.clone() },
        ),
        DirTree::File { .. } => Ok(images),
    }
}

/// How many of the first images of `sorted` have an extension that comes
/// after `extension`: the place of an image with that extension, ahead of
/// every image whose extension does not come after its own.
pub open spec fn slot_for(extension: Seq<char>, sorted: Seq<ImageModel>) -> nat
    decreases sorted.len(),
{
    if sorted.len() == 0 || !precedes(extension, sorted.first().extension) {
        0
    } else {
        1 + slot_for(extension, sorted.drop_first())
    }
}

/// The images in descending order of their extensions, images of one
/// extension in the order in which they stand in `images`.
pub open spec fn sorted_by_extension(images: Seq<ImageModel>) -> Seq<ImageModel>
    decreases images.len(),
{
    if images.len() == 0 {
        images
    } else {
        let rest = sorted_by_extension(images.drop_first());
        rest.insert(slot_for(images.first().extension, rest) as int, images.first())
    }
}

/// Whether no image stands ahead of one whose extension comes after its own.
pub open spec fn descends_by_extension(images: Seq<ImageModel>) -> bool {
    forall|i: int, j: int|
        0 <= i < j < images.len() ==> !precedes(
            #[trigger] images[i].extension,
            #[trigger] images[j].extension,
        )
}

/// The images of `images` that have the extension `extension`, in order.
pub open spec fn with_extension(images: Seq<ImageModel>, extension: Seq<char>) -> Seq<ImageModel> {
    images.filter(|image: ImageModel| image.extension == extension)
}

/// The slot lies within the sequence, behind images whose extension comes
/// after `extension` and ahead of one whose extension does not.
pub proof fn lemma_slot_for(extension: Seq<char>, sorted: Seq<ImageModel>)
    ensures
        slot_for(extension, sorted) <= sorted.len(),
        forall|i: int|
            0 <= i < slot_for(extension, sorted) ==> precedes(
                extension,
                #[trigger] sorted[i].extension,
            ),
        slot_for(extension, sorted) < sorted.len() ==> !precedes(
            extension,
            sorted[slot_for(extension, sorted) as int].extension,
        ),
    decreases sorted.len(),
{
    if sorted.len() > 0 && precedes(extension, sorted.first().extension) {
        let rest = sorted.drop_first();
        lemma_slot_for(extension, rest);
        assert forall|i: int| 0 <= i < slot_for(extension, sorted) implies precedes(
            extension,
            #[trigger] sorted[i].extension,
        ) by {
            if i > 0 {
                assert(sorted[i] == rest[i - 1]);
            }
        }
        if slot_for(extension, sorted) < sorted.len() {
            assert(sorted[slot_for(extension, sorted) as int] == rest[slot_for(extension, rest) as int]);
        }
    }
}

/// The order of the scan is descending by extension.
pub proof fn lemma_sorted_descends(images: Seq<ImageModel>)
    ensures
        descends_by_extension(sorted_by_extension(images)),
    decreases images.len(),
{
    if images.len() > 0 {
        let image = images.first();
        let rest = sorted_by_extension(images.drop_first());
        let slot = slot_for(image.extension, rest) as int;
        let all = rest.insert(slot, image);
        lemma_sorted_descends(images.drop_first());
        lemma_slot_for(image.extension, rest);
        assert forall|i: int, j: int| 0 <= i < j < all.len() implies !precedes(
            #[trigger] all[i].extension,
            #[trigger] all[j].extension,
        ) by {
            if j == slot {
                assert(all[i] == rest[i]);
                lemma_precedes_asymmetric(image.extension, rest[i].extension);
            } else if i == slot {
                assert(all[j] == rest[j - 1]);
                if slot < j - 1 {
                    assert(!precedes(rest[slot].extension, rest[j - 1].extension));
                } else {
                    lemma_precedes_irreflexive(rest[slot].extension);
                }
                lemma_not_precedes_transitive(
                    image.extension,
                    rest[slot].extension,
                    rest[j - 1].extension,
                );
            } else {
                let before = if i < slot { i } else { i - 1 };
                let after = if j < slot { j } else { j - 1 };
                assert(all[i] == rest[before]);
                assert(all[j] == rest[after]);
            }
        }
    }
}

/// The order of the scan holds every image as often as it was found.
pub proof fn lemma_sorted_is_permutation(images: Seq<ImageModel>)
    ensures
        sorted_by_extension(images).to_multiset() == images.to_multiset(),
        sorted_by_extension(images).len() == images.len(),
    decreases images.len(),
{
    broadcast use vstd::seq_lib::group_to_multiset_ensures;

    if images.len() > 0 {
        let image = images.first();
        let rest = sorted_by_extension(images.drop_first());
        lemma_sorted_is_permutation(images.drop_first());
        lemma_slot_for(image.extension, rest);
        assert(images =~= images.drop_first().insert(0, image));
    }
}

/// The order of the scan is stable: images of one extension stand in the
/// order in which they were found.
pub proof fn lemma_sorted_is_stable(images: Seq<ImageModel>, extension: Seq<char>)
    ensures
        with_extension(sorted_by_extension(images), extension) == with_extension(images, extension),
    decreases images.len(),
{
    let wanted = |image: ImageModel| image.extension == extension;
    if images.len() > 0 {
        let image = images.first();
        let tail = images.drop_first();
        let rest = sorted_by_extension(tail);
        let slot = slot_for(image.extension, rest) as int;
        let ahead = rest.subrange(0, slot);
        let behind = rest.subrange(slot, rest.len() as int);
        lemma_sorted_is_stable(tail, extension);
        lemma_slot_for(image.extension, rest);
        assert(images =~= seq![image] + tail);
        assert(rest =~= ahead + behind);
        assert(rest.insert(slot, image) =~= ahead + (seq![image] + behind));
        Seq::filter_distributes_over_add(seq![image], tail, wanted);
        Seq::filter_distributes_over_add(ahead, behind, wanted);
        Seq::filter_distributes_over_add(seq![image], behind, wanted);
        Seq::filter_distributes_over_add(ahead, seq![image] + behind, wanted);
        if image.extension == extension {
            assert forall|i: int| 0 <= i < ahead.len() implies !wanted(#[trigger] ahead[i]) by {
                assert(ahead[i] == rest[i]);
                lemma_precedes_irreflexive(extension);
            }
            ahead.lemma_all_neg_filter_empty(wanted);
            assert(ahead.filter(wanted) =~= Seq::<ImageModel>::empty());
        } else {
            reveal_with_fuel(Seq::filter, 2);
            assert(seq![image].filter(wanted) =~= Seq::<ImageModel>::empty());
        }
    }
}

/// Orders the images by extension, descending, and keeps images of one
/// extension in their order.
pub fn sort_by_extension(images: Vec<Image>) -> (sorted: Vec<Image>)
    ensures
        models_of(sorted@) == sorted_by_extension(models_of(images@)),
{
    let ghost all = models_of(images@);
    let mut pending = images;
    let mut sorted: Vec<Image> = Vec::new();
    assert(all.skip(all.len() as int) =~= Seq::<ImageModel>::empty());
    while pending.len() > 0
        invariant
            pending@.len() <= all.len(),
            models_of(pending@) == all.take(pending@.len() as int),
            models_of(sorted@) == sorted_by_extension(all.skip(pending@.len() as int)),
        decreases pending@.len(),
    {
        let ghost rest = models_of(sorted@);
        let ghost remaining = pending@.len() as int;
        let ghost waiting = pending@;
        let image = pending.pop().unwrap();
        proof {
            assert(image@ == models_of(waiting)[remaining - 1]);
            assert(models_of(pending@) =~= all.take(remaining - 1));
            assert(all.skip(remaining - 1).drop_first() =~= all.skip(remaining));
            lemma_slot_for(image@.extension, rest);
            assert(rest.skip(0) =~= rest);
        }
        let mut slot: usize = 0;
        while slot < sorted.len() && comes_before(
            image.extension.as_str(),
            sorted[slot].extension.as_str(),
        )
            invariant
                slot <= sorted@.len(),
                rest == models_of(sorted@),
                slot_for(image@.extension, rest) == slot + slot_for(
                    image@.extension,
                    rest.skip(slot as int),
                ),
            decreases sorted@.len() - slot,
        {
            assert(rest.skip(slot as int).drop_first() =~= rest.skip(slot as int + 1));
            slot = slot + 1;
        }
        sorted.insert(slot, image);
        assert(models_of(sorted@) =~= rest.insert(slot as int, image@));
    }
    assert(all.skip(0) =~= all);
    sorted
}

/// The texture images below `dir`, in descending order of their extensions;
/// images of one extension in the order in which the walk met them. A
/// directory that could not be read is a fatal error.
pub fn scan_dir_for_images(dir: &DirTree) -> (images: Result<Vec<Image>, PipelineError>)
    ensures
        match images {
            Ok(found) => {
                &&& scan_of(*dir, Seq::empty()) matches Ok(met)
                &&& models_of(found@) == sorted_by_extension(met)
                &&& descends_by_extension(models_of(found@))
                &&& models_of(found@).to_multiset() == met.to_multiset()
                &&& forall|extension: Seq<char>| #[trigger]
                    with_extension(models_of(found@), extension) == with_extension(
                        met,
                        extension,
                    )
                &&& forall|i: int|
                    0 <= i < found@.len() ==> is_texture_image(#[trigger] models_of(found@)[i])
            },
            Err(error) => scan_of(*dir, Seq::empty()) matches Err(path) && error@ == (
            ErrorModel::Fatal { cause: FatalCause::UnreadableDirectory, path }),
        },
{
    assert(models_of(Seq::<Image>::empty()) =~= Seq::<ImageModel>::empty());
    match recursive_scan(dir, Vec::new()) {
        Ok(images) => {
            let ghost met = models_of(images@);
            let sorted = sort_by_extension(images);
            proof {
                lemma_sorted_descends(met);
                lemma_sorted_is_permutation(met);
                assert forall|extension: Seq<char>| #[trigger]
                    with_extension(models_of(sorted@), extension) == with_extension(
                        met,
                        extension,
                    ) by {
                    lemma_sorted_is_stable(met, extension);
                }
                lemma_scan_finds_textures(*dir, Seq::empty());
                assert forall|i: int| 0 <= i < sorted@.len() implies is_texture_image(
                    #[trigger] models_of(sorted@)[i],
                ) by {
                    broadcast use vstd::seq_lib::group_to_multiset_ensures;

                    let image = models_of(sorted@)[i];
                    assert(models_of(sorted@).to_multiset().contains(image));
                    assert(met.contains(image));
                }
            }
            Ok(sorted)
        },
        Err(error) => Err(error),
    }
}

} // verus!

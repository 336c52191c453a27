//! The bulk migration: where each file of the old tree goes, and how the
//! work on one file is judged.
//!
//! The old tree holds one directory per slug, in it one directory per
//! extension, and in that the files, named by identifier. Each file is
//! written twice, into the index and into the object store, under the key
//! that a resolution would build for it.

use crate::key::{key_text, s3_key as cache_key};
use crate::quality::{quality_of, Quality};
use crate::text::{dot_fields, lemma_fields_nonempty, split_fields};
use vstd::prelude::*;

verus! {

/// Why no key can be derived for a file.
#[derive(Clone, Copy, Debug, PartialEq, Eq, Structural)]
pub enum PlanError {
    /// The path has fewer than three components: slug, extension, file.
    PathTooShort,
    /// The two directories above the file name no variant.
    UnknownQuality,
    /// The identifier has fewer than the two characters a key begins with.
    ShortIdentifier,
}

/// The texts of a list of strings.
pub open spec fn texts(items: Seq<String>) -> Seq<Seq<char>> {
    Seq::new(items.len(), |i: int| items[i]@)
}

/// The identifier that a file is named by: its name up to the first dot.
pub open spec fn file_id_text(file_name: Seq<char>) -> Seq<char> {
    dot_fields(file_name)[0]
}

/// The variant that a file's place in the tree stands for: the slug is
/// the third component from the end, the extension the second.
pub open spec fn path_quality(components: Seq<Seq<char>>) -> Option<Quality> {
    quality_of(components[components.len() - 3], components[components.len() - 2])
}

/// The cache key of the file at a path, given by its components: the key
/// of the identifier in the file's name for the variant of its place.
pub open spec fn path_key(components: Seq<Seq<char>>) -> Result<Seq<char>, PlanError> {
    if components.len() < 3 {
        Err(PlanError::PathTooShort)
    } else {
        match path_quality(components) {
            None => Err(PlanError::UnknownQuality),
            Some(quality) => {
                let video_id = file_id_text(components.last());
                if video_id.len() < 2 {
                    Err(PlanError::ShortIdentifier)
                } else {
                    Ok(key_text(video_id, quality))
                }
            },
        }
    }
}

/// The directory of the old tree that holds the files of a variant: the
/// root, the slug and the extension, joined by slashes.
pub open spec fn tier_directory_text(root: Seq<char>, quality: Quality) -> Seq<char> {
    root + seq!['/'] + quality.slug_text() + seq!['/'] + quality.extension_text()
}

/// The directory under `root` that holds the files of `quality`.
pub fn tier_directory(root: &str, quality: &Quality) -> (directory: String)
    ensures
        directory@ == tier_directory_text(root@, *quality),
{
    let mut directory = String::from_str(root);
    directory.append("/");
    directory.append(quality.slug());
    directory.append("/");
    directory.append(quality.file_extension());
    proof {
        reveal_strlit("/");
        assert("/"@ == seq!['/']);
    }
    directory
}

/// The identifier in a file's name.
pub fn file_identifier<'a>(file_name: &'a str) -> (video_id: &'a str)
    ensures
        video_id@ == file_id_text(file_name@),
{
    proof {
        lemma_fields_nonempty(file_name@);
    }
    let parts = split_fields(file_name);
    parts[0]
}

/// Derives the cache key of the file at the path with these components.
/// It is the key that a resolution builds for the same identifier and
/// variant.
pub fn s3_key(components: &Vec<String>) -> (key: Result<String, PlanError>)
    ensures
        match key {
            Ok(text) => path_key(texts(components@)) == Ok::<Seq<char>, PlanError>(text@),
            Err(error) => path_key(texts(components@)) == Err::<Seq<char>, PlanError>(error),
        },
{
    let n = components.len();
    if n < 3 {
        return Err(PlanError::PathTooShort);
    }
    let quality = match Quality::from_parts(components[n - 3].as_str(), components[n - 2].as_str()) {
        Some(quality) => quality,
        None => {
            return Err(PlanError::UnknownQuality);
        },
    };
    let video_id = file_identifier(components[n - 1].as_str());
    if video_id.unicode_len() < 2 {
        return Err(PlanError::ShortIdentifier);
    }
    Ok(cache_key(video_id, &quality))
}

/// What is written for a file: the index maps `video_id` to `key`, and
/// the object store holds the file's bytes under `key`.
#[derive(Debug, PartialEq, Eq)]
pub struct Entry {
    pub video_id: String,
    pub key: String,
}

/// Plans the two writes for the file at the path with these components.
pub fn plan_entry(components: &Vec<String>) -> (plan: Result<Entry, PlanError>)
    ensures
        match plan {
            Ok(entry) => {
                &&& path_key(texts(components@)) == Ok::<Seq<char>, PlanError>(entry.key@)
                &&& entry.video_id@ == file_id_text(texts(components@).last())
            },
            Err(error) => path_key(texts(components@)) == Err::<Seq<char>, PlanError>(error),
        },
{
    match s3_key(components) {
        Ok(key) => {
            let name = components[components.len() - 1].as_str();
            Ok(Entry { video_id: String::from_str(file_identifier(name)), key })
        },
        Err(error) => Err(error),
    }
}

/// What went wrong with a file.
#[derive(Clone, Copy, Debug, PartialEq, Eq, Structural)]
pub enum Cause {
    /// No key could be derived for it.
    Plan(PlanError),
    /// Its bytes could not be read.
    Unreadable,
    /// The index entry could not be written; the upload went through.
    IndexWrite,
    /// The upload failed; the index entry was written.
    Upload,
    /// Neither write went through.
    BothWrites,
}

/// How the work on a file ended.
#[derive(Clone, Copy, Debug, PartialEq, Eq, Structural)]
pub enum ItemResult {
    Stored,
    Failed(Cause),
}

/// The result for a file whose two writes were attempted: it is stored
/// where both went through, and failed with the write that did not.
pub open spec fn writes_result(index_ok: bool, upload_ok: bool) -> ItemResult {
    if index_ok && upload_ok {
        ItemResult::Stored
    } else if upload_ok {
        ItemResult::Failed(Cause::IndexWrite)
    } else if index_ok {
        ItemResult::Failed(Cause::Upload)
    } else {
        ItemResult::Failed(Cause::BothWrites)
    }
}

/// Judges a file by its two writes.
pub fn judge_writes(index_ok: bool, upload_ok: bool) -> (result: ItemResult)
    ensures
        result == writes_result(index_ok, upload_ok),
{
    if index_ok && upload_ok {
        ItemResult::Stored
    } else if upload_ok {
        ItemResult::Failed(Cause::IndexWrite)
    } else if index_ok {
        ItemResult::Failed(Cause::Upload)
    } else {
        ItemResult::Failed(Cause::BothWrites)
    }
}

} // verus!

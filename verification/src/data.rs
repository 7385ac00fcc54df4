//! Data model: the mod-version descriptor, its remote files, and the
//! install record that a successful run produces. The descriptor is
//! immutable for the duration of an install; its file list order is the
//! download order.

use vstd::prelude::*;

verus! {

/// Content hashes carried with a remote file. They are part of the
/// descriptor but never verified by this pipeline.
#[derive(Clone, Debug, PartialEq, Eq)]
pub struct ModrinthHashes {
    pub sha512: String,
    pub sha1: String,
}

/// One file belonging to a mod version: where to fetch it, the name it is
/// written under (used verbatim as the destination file name), its expected
/// size (informational only) and whether it is the primary file.
#[derive(Clone, Debug, PartialEq, Eq)]
pub struct ModrinthFile {
    pub hashes: ModrinthHashes,
    pub url: String,
    pub filename: String,
    pub primary: bool,
    pub size: i64,
}

/// One version of a mod: identifiers, descriptive metadata that the
/// pipeline carries through but does not interpret, and the ordered list
/// of files to download.
#[derive(Clone, Debug, PartialEq, Eq)]
pub struct ModrinthModData {
    pub id: String,
    pub project_id: String,
    pub author_id: String,
    pub featured: bool,
    pub name: String,
    pub version_number: String,
    pub changelog: String,
    pub changelog_url: Option<String>,
    pub date_published: String,
    pub downloads: i64,
    pub version_type: String,
    pub files: Vec<ModrinthFile>,
    pub game_versions: Vec<String>,
    pub loaders: Vec<String>,
}

/// The durable record of one installed mod version: which project and
/// version it was, and the ordered names of the files that were fully
/// written before the run ended.
#[derive(Clone, Debug, PartialEq, Eq)]
pub struct SavedModEntry {
    pub project_id: String,
    pub version_id: String,
    pub filenames: Vec<String>,
}

/// The names of the given files, in list order.
pub open spec fn filenames_of(files: Seq<ModrinthFile>) -> Seq<Seq<char>> {
    files.map(|i: int, f: ModrinthFile| f.filename@)
}

/// The character sequences behind a sequence of strings.
pub open spec fn string_views(names: Seq<String>) -> Seq<Seq<char>> {
    names.map(|i: int, s: String| s@)
}

/// Appending the next file's name extends the name prefix by one.
pub proof fn lemma_filenames_of_take_push(files: Seq<ModrinthFile>, k: int)
    requires
        0 <= k < files.len(),
    ensures
        filenames_of(files.take(k)).push(files[k].filename@) =~= filenames_of(files.take(k + 1)),
{
}

/// Pushing one more string extends the sequence of views by its view.
pub proof fn lemma_string_views_push(names: Seq<String>, s: String)
    ensures
        string_views(names.push(s)) =~= string_views(names).push(s@),
{
}

} // verus!

//! A mathematical model of the filesystem effects that the pipeline's
//! actions ask for: a directory is either absent or a map from the relative
//! names of its files to their bytes. The embedding application performs
//! the real directory creation, removal and archive extraction; the laws
//! here state what the deploy directory holds afterwards.

use vstd::prelude::*;

verus! {

/// What environment initialization does to the deploy directory.
#[derive(Clone, Copy, PartialEq, Eq, Structural, Debug)]
pub enum DeployDirPlan {
    /// The directory is absent: create it empty.
    Create,
    /// The directory exists and the overwrite policy asks for a fresh one:
    /// remove it recursively, then recreate it empty.
    RemoveThenCreate,
    /// The directory exists and must be kept: leave it untouched.
    Leave,
}

/// The plan that the overwrite policy selects for a deploy directory that
/// does or does not already exist.
pub open spec fn plan_for(exists: bool, replace_if_exists: bool) -> DeployDirPlan {
    if !exists {
        DeployDirPlan::Create
    } else if replace_if_exists {
        DeployDirPlan::RemoveThenCreate
    } else {
        DeployDirPlan::Leave
    }
}

/// The plan that the overwrite policy selects; executable counterpart of
/// `plan_for`.
pub fn choose_plan(exists: bool, replace_if_exists: bool) -> (p: DeployDirPlan)
    ensures
        p == plan_for(exists, replace_if_exists),
{
    if !exists {
        DeployDirPlan::Create
    } else if replace_if_exists {
        DeployDirPlan::RemoveThenCreate
    } else {
        DeployDirPlan::Leave
    }
}

/// A directory: absent, or a map from relative file names to file bytes.
pub type DirModel = Option<Map<Seq<char>, Seq<u8>>>;

/// The deploy directory after a plan has been performed on it.
pub open spec fn apply_plan(plan: DeployDirPlan, dir: DirModel) -> DirModel {
    match plan {
        DeployDirPlan::Create => if dir is None {
            Some(Map::<Seq<char>, Seq<u8>>::empty())
        } else {
            dir
        },
        DeployDirPlan::RemoveThenCreate => Some(Map::<Seq<char>, Seq<u8>>::empty()),
        DeployDirPlan::Leave => dir,
    }
}

/// One entry of an archive: its relative path within the archive and its
/// bytes.
pub struct ArchiveEntry {
    pub name: Seq<char>,
    pub data: Seq<u8>,
}

/// A directory after an archive's entries have been expanded into it in
/// order, each entry written under its relative name; a later entry with
/// the same name overwrites an earlier one.
pub open spec fn extract_into(files: Map<Seq<char>, Seq<u8>>, entries: Seq<ArchiveEntry>) -> Map<
    Seq<char>,
    Seq<u8>,
>
    decreases entries.len(),
{
    if entries.len() == 0 {
        files
    } else {
        extract_into(files, entries.drop_last()).insert(
            entries.last().name,
            entries.last().data,
        )
    }
}

/// With the overwrite policy on and a pre-existing deploy directory,
/// initialization leaves the directory existing and empty, whatever it
/// held before.
pub proof fn lemma_overwrite_clears(files: Map<Seq<char>, Seq<u8>>)
    ensures
        apply_plan(plan_for(true, true), Some(files)) == Some(
            Map::<Seq<char>, Seq<u8>>::empty(),
        ),
{
}

/// With the overwrite policy off, initialization leaves a pre-existing
/// deploy directory exactly as it was: every file it held, it still holds.
pub proof fn lemma_no_overwrite_preserves(files: Map<Seq<char>, Seq<u8>>, name: Seq<char>)
    requires
        files.contains_key(name),
    ensures
        apply_plan(plan_for(true, false), Some(files)) == Some(files),
        apply_plan(plan_for(true, false), Some(files))->Some_0.contains_key(name),
{
}

/// After a successful extraction, every archive entry that no later entry
/// shadows is present in the deploy directory under its relative name,
/// with exactly the archive's bytes.
pub proof fn lemma_extracted_entry_present(
    files: Map<Seq<char>, Seq<u8>>,
    entries: Seq<ArchiveEntry>,
    i: int,
)
    requires
        0 <= i < entries.len(),
        forall|j: int| i < j < entries.len() ==> (#[trigger] entries[j]).name != entries[i].name,
    ensures
        extract_into(files, entries).contains_pair(entries[i].name, entries[i].data),
    decreases entries.len(),
{
    if i == entries.len() - 1 {
        assert(entries.last() == entries[i]);
    } else {
        let prefix = entries.drop_last();
        assert(prefix[i] == entries[i]);
        assert(forall|j: int|
            i < j < prefix.len() ==> (#[trigger] prefix[j]).name != prefix[i].name);
        lemma_extracted_entry_present(files, prefix, i);
        assert(entries.last() == entries[entries.len() - 1]);
        assert(entries.last().name != entries[i].name);
    }
}

} // verus!

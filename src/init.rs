//! Setting up the repository behind the data directory, including adopting a
//! directory that already holds notes by cloning beside them.
use vstd::prelude::*;
use vstd::string::*;
use crate::error::SyncError;
use crate::replay::views;
use crate::text::same_text;

verus! {

/// What creating the repository involves.
#[derive(Debug, Clone)]
pub enum RepositorySetup {
    /// `.git` is there already; nothing to do.
    AlreadyInitialized,
    /// Clone `url` into a scratch directory and merge it into the data directory.
    CloneInto { url: String },
    /// Create an empty repository.
    InitEmpty,
}

/// The steps of initialising the data directory.
#[derive(Debug, Clone)]
pub struct InitPlan {
    /// Whether the data directory must be created first.
    pub create_directory: bool,
    pub setup: RepositorySetup,
}

/// Decides how to initialise a data directory: create it when it is missing;
/// then, when it has no `.git`, clone the configured remote into it, or
/// create an empty repository when no remote is configured.
pub fn plan_initialize(path_exists: bool, git_dir_exists: bool, repository_url: &String) -> (r: InitPlan)
    ensures
        r.create_directory == !path_exists,
        git_dir_exists ==> r.setup is AlreadyInitialized,
        !git_dir_exists && repository_url@.len() > 0 ==> (r.setup matches RepositorySetup::CloneInto { url } && url
            == repository_url),
        !git_dir_exists && repository_url@.len() == 0 ==> r.setup is InitEmpty,
{
    let setup = if git_dir_exists {
        RepositorySetup::AlreadyInitialized
    } else if repository_url.as_str().unicode_len() > 0 {
        RepositorySetup::CloneInto { url: repository_url.clone() }
    } else {
        RepositorySetup::InitEmpty
    };
    InitPlan { create_directory: !path_exists, setup }
}

/// Whether a top-level entry of the scratch clone is copied into the data
/// directory: everything but `.git`, which is moved separately, and only
/// where no entry of the same name exists there.
pub open spec fn copied(name: Seq<char>, existing: Seq<Seq<char>>) -> bool {
    name != ".git"@ && !existing.contains(name)
}

/// The entries to copy, in listing order.
pub open spec fn copy_spec(scratch: Seq<Seq<char>>, existing: Seq<Seq<char>>) -> Seq<Seq<char>> {
    scratch.filter(|n: Seq<char>| copied(n, existing))
}

/// Whether `name` is among `existing`.
pub fn listed(name: &String, existing: &Vec<String>) -> (r: bool)
    ensures
        r == views(existing@).contains(name@),
{
    let mut i: usize = 0;
    while i < existing.len()
        invariant
            i <= existing@.len(),
            forall|j: int| 0 <= j < i ==> existing@[j]@ != name@,
        decreases existing@.len() - i,
    {
        if same_text(existing[i].as_str(), name.as_str()) {
            proof {
                assert(views(existing@)[i as int] == name@);
            }
            return true;
        }
        i = i + 1;
    }
    proof {
        if views(existing@).contains(name@) {
            let k = choose|k: int| 0 <= k < views(existing@).len() && views(existing@)[k] == name@;
            assert(existing@[k]@ == name@);
        }
    }
    false
}

/// The entries of the scratch clone to copy into the data directory. A clone
/// without `.git` is an error: the clone did not produce a repository.
pub fn plan_clone_merge(git_dir_cloned: bool, scratch: &Vec<String>, existing: &Vec<String>) -> (r: Result<Vec<String>, SyncError>)
    ensures
        !git_dir_cloned <==> (r matches Err(SyncError::RepositoryState { .. })),
        r matches Ok(v) ==> views(v@) == copy_spec(views(scratch@), views(existing@)),
{
    if !git_dir_cloned {
        return Err(SyncError::RepositoryState { message: String::from_str("no .git directory in the cloned repository") });
    }
    let mut out: Vec<String> = Vec::new();
    let mut i: usize = 0;
    while i < scratch.len()
        invariant
            i <= scratch@.len(),
            views(out@) == copy_spec(views(scratch@).subrange(0, i as int), views(existing@)),
        decreases scratch@.len() - i,
    {
        let name = &scratch[i];
        let ghost pre = views(scratch@).subrange(0, i as int);
        proof {
            assert(views(scratch@).subrange(0, i as int + 1) =~= pre.push(name@));
            reveal(Seq::filter);
            assert(pre.push(name@).drop_last() =~= pre);
        }
        let keep = !same_text(name.as_str(), ".git") && !listed(name, existing);
        if keep {
            let ghost before = out@;
            out.push(name.clone());
            proof {
                assert(views(out@) =~= views(before).push(name@));
            }
        }
        i = i + 1;
    }
    proof {
        assert(views(scratch@).subrange(0, scratch@.len() as int) =~= views(scratch@));
    }
    Ok(out)
}

} // verus!

//! The decisions taken while deleting a plugin bundle.
use vstd::prelude::*;

use crate::paths::path_starts_with;
use crate::plugin::{is_bundle_path, is_plugin_bundle, Plugin, PluginRoot};
use crate::roots::is_under_plugin_root;
use crate::text::{owned, push_str};

verus! {

/// `path` lies under one of the roots.
pub open spec fn under_some_root(path: Seq<char>, roots: Seq<PluginRoot>) -> bool {
    exists|i: int| 0 <= i < roots.len() && path_starts_with(path, #[trigger] roots[i].path@)
}

/// Whether a plugin may be deleted: its path must lie under a known root and
/// carry its format's extension. The error says which check refused it.
pub fn check_deletable(plugin: &Plugin, roots: &Vec<PluginRoot>) -> (r: Result<(), String>)
    ensures
        match r {
            Ok(()) => under_some_root(plugin.path@, roots@) && is_bundle_path(plugin.path@, plugin.format),
            Err(e) => if !under_some_root(plugin.path@, roots@) {
                e@ == "refusing to delete outside known audio plugin roots"@
            } else {
                !is_bundle_path(plugin.path@, plugin.format) && e@ == "refusing to delete path with unexpected extension"@
            },
        },
{
    if !is_under_plugin_root(plugin.path.as_str(), roots) {
        return Err(owned("refusing to delete outside known audio plugin roots"));
    }
    if !is_plugin_bundle(plugin.path.as_str(), plugin.format) {
        return Err(owned("refusing to delete path with unexpected extension"));
    }
    Ok(())
}

/// How a bundle is removed.
#[derive(Clone, Copy, PartialEq, Eq, Structural, Debug)]
pub enum Removal {
    /// Remove the entry itself (a file, or a link without following it).
    File,
    /// Remove the directory and everything in it.
    Directory,
}

/// How to remove a path, from its own metadata (links not followed): links and
/// files are removed as entries, directories with their contents; anything
/// else is refused.
pub fn removal_for(is_symlink: bool, is_file: bool, is_dir: bool) -> (r: Result<Removal, String>)
    ensures
        match r {
            Ok(Removal::File) => is_symlink || is_file,
            Ok(Removal::Directory) => !is_symlink && !is_file && is_dir,
            Err(e) => !is_symlink && !is_file && !is_dir && e@ == "unsupported plugin path type"@,
        },
{
    if is_symlink || is_file {
        Ok(Removal::File)
    } else if is_dir {
        Ok(Removal::Directory)
    } else {
        Err(owned("unsupported plugin path type"))
    }
}

/// The verdict once a removal returned: the path must be gone.
pub fn confirm_removed(still_present: bool) -> (r: Result<(), String>)
    ensures
        match r {
            Ok(()) => !still_present,
            Err(e) => still_present && e@ == "path still exists after delete"@,
        },
{
    if still_present {
        Err(owned("path still exists after delete"))
    } else {
        Ok(())
    }
}

/// The line that reports a failed deletion: "PATH: ERROR".
pub fn failure_line(path: &str, error: &str) -> (r: String)
    ensures
        r@ == path@ + ": "@ + error@,
{
    let mut r = owned(path);
    push_str(&mut r, ": ");
    push_str(&mut r, error);
    r
}

/// What a round of deletions came to: how many bundles went away, and one
/// "PATH: ERROR" line for each that did not, in the order they were tried.
pub struct DeleteReport {
    pub deleted: usize,
    pub failures: Vec<String>,
}

/// How many of the outcomes are successes.
pub open spec fn success_count(outcomes: Seq<Result<(), String>>) -> nat
    decreases outcomes.len(),
{
    if outcomes.len() == 0 {
        0
    } else {
        success_count(outcomes.drop_last()) + if outcomes.last() is Ok { 1nat } else { 0nat }
    }
}

/// The failure lines of the outcomes, each outcome belonging to the plugin at
/// the same place.
pub open spec fn failure_lines(plugins: Seq<Plugin>, outcomes: Seq<Result<(), String>>) -> Seq<Seq<char>>
    decreases outcomes.len(),
{
    if outcomes.len() == 0 {
        seq![]
    } else {
        let earlier = failure_lines(plugins, outcomes.drop_last());
        match outcomes.last() {
            Ok(_) => earlier,
            Err(e) => earlier.push(plugins[outcomes.len() - 1].path@ + ": "@ + e@),
        }
    }
}

proof fn lemma_success_count_bound(outcomes: Seq<Result<(), String>>)
    ensures
        success_count(outcomes) <= outcomes.len(),
    decreases outcomes.len(),
{
    if outcomes.len() > 0 {
        lemma_success_count_bound(outcomes.drop_last());
    }
}

/// Counts the deletions that succeeded and reports each that failed, where
/// `outcomes[i]` is what deleting `plugins[i]` gave.
pub fn tally_deletions(plugins: &Vec<Plugin>, outcomes: &Vec<Result<(), String>>) -> (r: DeleteReport)
    requires
        plugins@.len() == outcomes@.len(),
    ensures
        r.deleted == success_count(outcomes@),
        r.failures@.map_values(|s: String| s@) == failure_lines(plugins@, outcomes@),
{
    let mut deleted: usize = 0;
    let mut failures: Vec<String> = Vec::new();
    let mut i: usize = 0;
    while i < outcomes.len()
        invariant
            plugins@.len() == outcomes@.len(),
            i <= outcomes@.len(),
            deleted == success_count(outcomes@.take(i as int)),
            failures@.map_values(|s: String| s@) == failure_lines(plugins@, outcomes@.take(i as int)),
        decreases outcomes@.len() - i,
    {
        let ghost before = outcomes@.take(i as int);
        let ghost after = outcomes@.take(i + 1);
        assert(after.drop_last() == before);
        assert(after.last() == outcomes@[i as int]);
        proof {
            lemma_success_count_bound(after);
        }
        match &outcomes[i] {
            Ok(()) => {
                deleted = deleted + 1;
            },
            Err(e) => {
                let line = failure_line(&plugins[i].path, e);
                let ghost old_lines = failures@.map_values(|s: String| s@);
                failures.push(line);
                assert(failures@.map_values(|s: String| s@) == old_lines.push(line@));
            },
        }
        i = i + 1;
    }
    assert(outcomes@.take(outcomes@.len() as int) == outcomes@);
    DeleteReport { deleted, failures }
}

} // verus!

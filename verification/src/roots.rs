//! Where plugin bundles and the cache live.
use vstd::prelude::*;

use crate::paths::{path_starts_with, starts_with};
use crate::plugin::{opt_text, PluginFormat, PluginRoot, PluginScope};
use crate::text::{chars_of, owned, push_str};

verus! {

/// `PathBuf::join` on Unix: an absolute `rel` replaces `base`; otherwise `rel`
/// is appended, with a `/` in between unless `base` is empty or ends in one.
pub open spec fn joined(base: Seq<char>, rel: Seq<char>) -> Seq<char> {
    if rel.len() > 0 && rel[0] == '/' {
        rel
    } else if base.len() == 0 || base.last() == '/' {
        base + rel
    } else {
        base + seq!['/'] + rel
    }
}

/// `base` joined with `rel`.
pub fn join_path(base: &str, rel: &str) -> (r: String)
    ensures
        r@ == joined(base@, rel@),
{
    let b = chars_of(base);
    let x = chars_of(rel);
    if x.len() > 0 && x[0] == '/' {
        return owned(rel);
    }
    let mut r = owned(base);
    if b.len() > 0 && b[b.len() - 1] != '/' {
        r.push('/');
    }
    push_str(&mut r, rel);
    r
}

/// A root as its path text, format and scope.
pub open spec fn root_view(r: PluginRoot) -> (Seq<char>, PluginFormat, PluginScope) {
    (r.path@, r.format, r.scope)
}

/// The directories searched for plugins: the three system directories, and,
/// when a home directory is known, the same three under it.
pub open spec fn standard_roots(home: Option<Seq<char>>) -> Seq<(Seq<char>, PluginFormat, PluginScope)> {
    let system = seq![
        ("/Library/Audio/Plug-Ins/VST"@, PluginFormat::Vst2, PluginScope::System),
        ("/Library/Audio/Plug-Ins/VST3"@, PluginFormat::Vst3, PluginScope::System),
        ("/Library/Audio/Plug-Ins/Components"@, PluginFormat::AudioUnit, PluginScope::System),
    ];
    match home {
        Some(h) => system + seq![
            (joined(h, "Library/Audio/Plug-Ins/VST"@), PluginFormat::Vst2, PluginScope::User),
            (joined(h, "Library/Audio/Plug-Ins/VST3"@), PluginFormat::Vst3, PluginScope::User),
            (joined(h, "Library/Audio/Plug-Ins/Components"@), PluginFormat::AudioUnit, PluginScope::User),
        ],
        None => system,
    }
}

/// The roots for a given home directory.
pub fn plugin_roots_for_home(home: Option<String>) -> (roots: Vec<PluginRoot>)
    ensures
        roots@.map_values(|r: PluginRoot| root_view(r)) == standard_roots(opt_text(home)),
{
    let mut roots: Vec<PluginRoot> = Vec::new();
    roots.push(PluginRoot { path: owned("/Library/Audio/Plug-Ins/VST"), format: PluginFormat::Vst2, scope: PluginScope::System });
    roots.push(PluginRoot { path: owned("/Library/Audio/Plug-Ins/VST3"), format: PluginFormat::Vst3, scope: PluginScope::System });
    roots.push(PluginRoot { path: owned("/Library/Audio/Plug-Ins/Components"), format: PluginFormat::AudioUnit, scope: PluginScope::System });
    match &home {
        Some(h) => {
            roots.push(PluginRoot { path: join_path(h.as_str(), "Library/Audio/Plug-Ins/VST"), format: PluginFormat::Vst2, scope: PluginScope::User });
            roots.push(PluginRoot { path: join_path(h.as_str(), "Library/Audio/Plug-Ins/VST3"), format: PluginFormat::Vst3, scope: PluginScope::User });
            roots.push(PluginRoot { path: join_path(h.as_str(), "Library/Audio/Plug-Ins/Components"), format: PluginFormat::AudioUnit, scope: PluginScope::User });
        },
        None => {},
    }
    assert(roots@.map_values(|r: PluginRoot| root_view(r)) =~= standard_roots(opt_text(home)));
    roots
}

/// Calls `dirs::home_dir` and copies the answer into a `String` (lossily
/// when it is not UTF-8). Nothing is claimed of it: it depends on the
/// environment of the process.
#[verifier::external_body]
fn home_directory() -> Option<String> {
    dirs::home_dir().map(|p| p.to_string_lossy().into_owned())
}

/// The standard plugin directories of this user.
pub fn plugin_roots() -> (roots: Vec<PluginRoot>)
    ensures
        exists|home: Option<Seq<char>>|
            roots@.map_values(|r: PluginRoot| root_view(r)) == standard_roots(home),
{
    let home = home_directory();
    let ghost h = opt_text(home);
    let roots = plugin_roots_for_home(home);
    assert(roots@.map_values(|r: PluginRoot| root_view(r)) == standard_roots(h));
    roots
}

/// Whether `path` lies under (or is) one of the roots, whole components at a time.
pub fn is_under_plugin_root(path: &str, roots: &Vec<PluginRoot>) -> (r: bool)
    ensures
        r == exists|i: int| 0 <= i < roots@.len() && path_starts_with(path@, #[trigger] roots@[i].path@),
{
    let mut i: usize = 0;
    while i < roots.len()
        invariant
            i <= roots@.len(),
            forall|k: int| 0 <= k < i ==> !path_starts_with(path@, #[trigger] roots@[k].path@),
        decreases roots@.len() - i,
    {
        if starts_with(path, roots[i].path.as_str()) {
            return true;
        }
        i += 1;
    }
    false
}

/// The file that holds the plugin cache, inside a given user cache directory.
pub open spec fn cache_file_in(base: Seq<char>) -> Seq<char> {
    joined(joined(base, "vstui"@), "plugins.json"@)
}

/// The cache file path inside the user cache directory `base`.
pub fn cache_file_path_in(base: &str) -> (r: String)
    ensures
        r@ == cache_file_in(base@),
{
    let dir = join_path(base, "vstui");
    join_path(dir.as_str(), "plugins.json")
}

/// Calls `dirs::cache_dir` and copies the answer into a `String` (lossily
/// when it is not UTF-8). Nothing is claimed of it: it depends on the
/// environment of the process.
#[verifier::external_body]
fn cache_directory() -> Option<String> {
    dirs::cache_dir().map(|p| p.to_string_lossy().into_owned())
}

/// The cache file of this user, or the reason there is none.
pub fn cache_file_path() -> (r: Result<String, String>)
    ensures
        match r {
            Ok(p) => exists|base: Seq<char>| p@ == cache_file_in(base),
            Err(e) => e@ == "could not resolve user cache directory"@,
        },
{
    match cache_directory() {
        Some(base) => Ok(cache_file_path_in(base.as_str())),
        None => Err(owned("could not resolve user cache directory")),
    }
}

} // verus!

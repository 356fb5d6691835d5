//! Turning what was found in the plugin directories into plugins.
use vstd::prelude::*;

use crate::plugin::{
    family_of, installed_bundle, is_installed_plugin_bundle, name_for_path, normalize_family,
    opt_text, plugin_name, plugin_version, version_from_plist, BundleProbe, Plugin, PluginRoot,
    PluginView,
};

verus! {

/// What was read about one entry of a plugin directory.
pub struct EntryFacts {
    /// The entry's full path.
    pub path: String,
    /// What its metadata showed.
    pub probe: BundleProbe,
    /// Its modification time in seconds since the epoch, when known.
    pub modified: Option<u64>,
    /// The text of its `Contents/Info.plist`, when it could be read.
    pub info_plist: Option<String>,
}

/// The entries found in one plugin directory (none when it could not be listed).
pub struct RootListing {
    pub root: PluginRoot,
    pub entries: Vec<EntryFacts>,
}

/// The plugin an entry stands for, when it is an installed bundle of the root's format.
pub open spec fn entry_plugin(root: PluginRoot, e: EntryFacts) -> Option<PluginView> {
    if installed_bundle(e.path@, root.format, e.probe) {
        Some(
            PluginView {
                name: name_for_path(e.path@),
                family: family_of(name_for_path(e.path@)),
                format: root.format,
                scope: root.scope,
                path: e.path@,
                version: version_from_plist(opt_text(e.info_plist)),
                modified: e.modified,
            },
        )
    } else {
        None
    }
}

/// The plugins of one listing, in the order of its entries.
pub open spec fn listing_plugins(l: RootListing) -> Seq<PluginView> {
    l.entries@.filter_map(|e: EntryFacts| entry_plugin(l.root, e))
}

/// The plugins of all listings, root after root.
pub open spec fn scanned_plugins(ls: Seq<RootListing>) -> Seq<PluginView> {
    ls.map_values(|l: RootListing| listing_plugins(l)).flatten()
}

/// The plugin for one directory entry, when it is an installed bundle.
pub fn plugin_from_entry(root: &PluginRoot, e: &EntryFacts) -> (r: Option<Plugin>)
    ensures
        match r {
            Some(p) => entry_plugin(*root, *e) == Some(p@),
            None => entry_plugin(*root, *e) is None,
        },
{
    if !is_installed_plugin_bundle(e.path.as_str(), root.format, &e.probe) {
        return None;
    }
    let name = plugin_name(e.path.as_str());
    let family = normalize_family(name.as_str());
    let version = plugin_version(&e.info_plist);
    let p = Plugin {
        name,
        family,
        format: root.format,
        scope: root.scope,
        path: e.path.clone(),
        version,
        modified: e.modified,
    };
    Some(p)
}

/// The plugins found in the listings, root by root and entry by entry.
pub fn scan_plugins(listings: &Vec<RootListing>) -> (plugins: Vec<Plugin>)
    ensures
        plugins@.map_values(|p: Plugin| p@) == scanned_plugins(listings@),
{
    let mut plugins: Vec<Plugin> = Vec::new();
    let ghost g = |l: RootListing| listing_plugins(l);
    let mut i: usize = 0;
    while i < listings.len()
        invariant
            i <= listings@.len(),
            g == (|l: RootListing| listing_plugins(l)),
            plugins@.map_values(|p: Plugin| p@) == listings@.take(i as int).map_values(g).flatten(),
        decreases listings@.len() - i,
    {
        let listing = &listings[i];
        let ghost f = |e: EntryFacts| entry_plugin(listing.root, e);
        let ghost before = plugins@.map_values(|p: Plugin| p@);
        let mut j: usize = 0;
        while j < listing.entries.len()
            invariant
                j <= listing.entries@.len(),
                f == (|e: EntryFacts| entry_plugin(listing.root, e)),
                plugins@.map_values(|p: Plugin| p@) == before + listing.entries@.take(j as int).filter_map(f),
            decreases listing.entries@.len() - j,
        {
            proof {
                listing.entries@.lemma_filter_map_take_succ(f, j as int);
            }
            match plugin_from_entry(&listing.root, &listing.entries[j]) {
                Some(p) => {
                    let ghost pv = p@;
                    let ghost old_plugins = plugins@;
                    assert(f(listing.entries@[j as int]) == Some(pv));
                    plugins.push(p);
                    assert(plugins@.map_values(|p: Plugin| p@) =~= old_plugins.map_values(|p: Plugin| p@).push(pv));
                    assert(plugins@.map_values(|p: Plugin| p@) =~= before + listing.entries@.take(j + 1).filter_map(f));
                },
                None => {
                    assert(plugins@.map_values(|p: Plugin| p@) =~= before + listing.entries@.take(j + 1).filter_map(f));
                },
            }
            j += 1;
        }
        proof {
            assert(listing.entries@.take(listing.entries@.len() as int) == listing.entries@);
            assert(listings@.take(i + 1).map_values(g) == listings@.take(i as int).map_values(g).push(g(*listing)));
            listings@.take(i as int).map_values(g).lemma_flatten_push(g(*listing));
        }
        i += 1;
    }
    assert(listings@.take(listings@.len() as int) == listings@);
    plugins
}

} // verus!

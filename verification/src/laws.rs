//! Properties of the browser that hold across its operations.
use vstd::prelude::*;

use crate::app::{
    browse_key_effect, confirm_key_effect, Key, KeyInput, KeyOutcome,
    asked_delete_family, in_family, confirm_plugins, family_members, moved_next, moved_previous,
    same_content, scrolled_to, selected_of, selection_after_refresh, well_formed, App,
    DETAILS_SCROLL_STEP,
};
use crate::cache::{plugins_changed, roots_changed, stale, PluginCache};
use crate::paths::same_path;
use crate::plugin::{installed_bundle, plist_value, BundleProbe, Plugin};
use crate::remove::{failure_lines, success_count};
use crate::scan::{entry_plugin, listing_plugins, EntryFacts, RootListing};
use crate::screen::{details_text, plugin_details};
use crate::text::{is_white_space, trim, trim_end, trim_start};

verus! {

/// Moving down and then up again returns to the plugin one started from,
/// unless the selection was already on the last plugin.
pub proof fn lemma_next_then_previous(a: App, b: App, c: App)
    requires
        well_formed(a),
        a.selected + 1 < a.plugins@.len(),
        moved_next(a, b),
        moved_previous(b, c),
    ensures
        c.selected == a.selected,
        same_content(a, c),
{
}

/// Scrolling the details down and then up again returns to the same place,
/// unless scrolling down hit the largest scroll.
pub proof fn lemma_scroll_down_then_up(a: App, b: App, c: App)
    requires
        a.details_scroll + DETAILS_SCROLL_STEP <= usize::MAX,
        scrolled_to(a, b, a.details_scroll + DETAILS_SCROLL_STEP),
        scrolled_to(b, c, if b.details_scroll < DETAILS_SCROLL_STEP { 0 } else { b.details_scroll - DETAILS_SCROLL_STEP }),
    ensures
        c.details_scroll == a.details_scroll,
        c.selected == a.selected,
        same_content(a, c),
{
}

/// The related versions of a plugin all share its family, and a listed plugin
/// is among the related versions of every plugin of its family.
pub proof fn lemma_family_members(all: Seq<Plugin>, family: Seq<char>)
    ensures
        forall|i: int|
            0 <= i < family_members(all, family).len() ==> (#[trigger] family_members(all, family)[i]).family@
                == family,
        forall|i: int| 0 <= i < all.len() && all[i].family@ == family ==> family_members(all, family).contains(#[trigger] all[i]),
{
    let pred = in_family(family);
    assert forall|i: int| 0 <= i < family_members(all, family).len() implies (
    #[trigger] family_members(all, family)[i]).family@ == family by {
        all.lemma_filter_pred(pred, i);
    }
    assert forall|i: int| 0 <= i < all.len() && all[i].family@ == family implies family_members(all, family).contains(
        #[trigger] all[i],
    ) by {
        all.lemma_filter_contains(pred, i);
    }
}

/// The highlighted plugin is always among its own related versions.
pub proof fn lemma_selected_is_related(a: App)
    requires
        selected_of(a) is Some,
    ensures
        family_members(a.plugins@, selected_of(a).unwrap().family@).contains(selected_of(a).unwrap()),
{
    lemma_family_members(a.plugins@, selected_of(a).unwrap().family@);
    let _ = a.plugins@[a.selected as int];
}

/// "Delete related" asks to delete exactly the plugins that the details pane
/// lists under "Related versions".
pub proof fn lemma_delete_related_is_shown(a: App, b: App)
    requires
        asked_delete_family(a, b),
        selected_of(a) is Some,
    ensures
        b.confirm is Some,
        details_text(a) == plugin_details(selected_of(a).unwrap()@, confirm_plugins(b.confirm.unwrap())),
{
}

/// A cache is rebuilt when a root changed after it was made.
pub proof fn lemma_changed_root_makes_stale(
    cache: PluginCache,
    probes: Seq<BundleProbe>,
    root_modified: Seq<Option<u64>>,
    i: int,
)
    requires
        0 <= i < root_modified.len(),
        root_modified[i] matches Some(m) && m > cache.generated_at,
    ensures
        stale(cache, probes, root_modified),
{
    assert(roots_changed(root_modified, cache.generated_at));
}

/// A cache is rebuilt when one of its plugins is no longer installed, as after
/// an uninstall that leaves an empty bundle directory behind.
pub proof fn lemma_removed_plugin_makes_stale(
    cache: PluginCache,
    probes: Seq<BundleProbe>,
    root_modified: Seq<Option<u64>>,
    i: int,
)
    requires
        0 <= i < cache.plugins@.len(),
        i < probes.len(),
        !installed_bundle(cache.plugins@[i].path@, cache.plugins@[i].format, probes[i]),
    ensures
        stale(cache, probes, root_modified),
{
    assert(plugins_changed(cache.plugins@, probes));
}

/// A refresh keeps the selection on the highlighted path when that path is
/// still listed.
pub proof fn lemma_refresh_keeps_path(a: App, plugins: Seq<Plugin>, k: int)
    requires
        selected_of(a) is Some,
        0 <= k < plugins.len(),
        same_path(plugins[k].path@, selected_of(a).unwrap().path@),
    ensures
        0 <= selection_after_refresh(a, plugins) < plugins.len(),
        same_path(plugins[selection_after_refresh(a, plugins)].path@, selected_of(a).unwrap().path@),
{
    crate::app::lemma_first_with_path(plugins, selected_of(a).unwrap().path@);
}

/// A refresh that no longer lists the highlighted path keeps the selection at
/// the same index, moved up to the last plugin when the list got shorter.
pub proof fn lemma_refresh_falls_back(a: App, plugins: Seq<Plugin>)
    requires
        selected_of(a) is Some,
        forall|j: int| 0 <= j < plugins.len() ==> !same_path(#[trigger] plugins[j].path@, selected_of(a).unwrap().path@),
    ensures
        selection_after_refresh(a, plugins) == crate::app::clamped(plugins.len() as int, a.selected as int),
        plugins.len() == 0 ==> selection_after_refresh(a, plugins) == 0,
        a.selected < plugins.len() ==> selection_after_refresh(a, plugins) == a.selected,
        0 < plugins.len() <= a.selected ==> selection_after_refresh(a, plugins) == plugins.len() - 1,
{
    crate::app::lemma_first_with_path(plugins, selected_of(a).unwrap().path@);
}

proof fn lemma_trim_start_head(s: Seq<char>)
    ensures
        trim_start(s).len() > 0 ==> !is_white_space(trim_start(s)[0]),
        exists|k: int| 0 <= k <= s.len() && trim_start(s) == s.subrange(k, s.len() as int),
    decreases s.len(),
{
    if s.len() > 0 && is_white_space(s[0]) {
        lemma_trim_start_head(s.drop_first());
        let k = choose|k: int| 0 <= k <= s.drop_first().len() && trim_start(s.drop_first()) == s.drop_first().subrange(k, s.drop_first().len() as int);
        assert(s.drop_first().subrange(k, s.drop_first().len() as int) == s.subrange(k + 1, s.len() as int));
    } else {
        assert(s.subrange(0, s.len() as int) == s);
    }
}

proof fn lemma_trim_end_tail(s: Seq<char>)
    ensures
        trim_end(s).len() > 0 ==> !is_white_space(trim_end(s).last()),
        exists|k: int| 0 <= k <= s.len() && trim_end(s) == s.subrange(0, k),
    decreases s.len(),
{
    if s.len() > 0 && is_white_space(s.last()) {
        lemma_trim_end_tail(s.drop_last());
        let k = choose|k: int| 0 <= k <= s.drop_last().len() && trim_end(s.drop_last()) == s.drop_last().subrange(0, k);
        assert(s.drop_last().subrange(0, k) == s.subrange(0, k));
    } else {
        assert(s.subrange(0, s.len() as int) == s);
    }
}

/// A version read from a property list is never blank and never starts or
/// ends with white space.
pub proof fn lemma_plist_value_trimmed(contents: Seq<char>, key: Seq<char>)
    ensures
        plist_value(contents, key) matches Some(v) ==> v.len() > 0 && !is_white_space(v[0])
            && !is_white_space(v.last()),
{
    if let Some(v) = plist_value(contents, key) {
        let raw = choose|raw: Seq<char>| trim(raw) == v;
        assert(trim(raw) == v);
        lemma_trim_start_head(raw);
        let front = trim_start(raw);
        lemma_trim_end_tail(front);
        let k = choose|k: int| 0 <= k <= front.len() && trim_end(front) == front.subrange(0, k);
        assert(v[0] == front[0]);
    }
}

/// Nothing is handed over for deletion without confirmation: a key press
/// asks for a deletion only when it is `y` while a deletion waits, and then
/// exactly the plugins of that pending deletion.
pub proof fn lemma_delete_needs_confirmation(a: App, key: KeyInput, b: App, out: KeyOutcome)
    requires
        a.notice is None,
        if a.confirm is Some {
            confirm_key_effect(a, key, b, out)
        } else {
            browse_key_effect(a, key, b, out)
        },
        out is Delete,
    ensures
        key.key == Key::Char('y'),
        a.confirm matches Some(c) && out->Delete_0@ == confirm_plugins(c),
        b.confirm is None,
{
}

/// After a round of deletions every bundle tried is accounted for: it is
/// either counted as deleted or reported by one failure line.
pub proof fn lemma_every_deletion_accounted(plugins: Seq<Plugin>, outcomes: Seq<Result<(), String>>)
    ensures
        success_count(outcomes) + failure_lines(plugins, outcomes).len() == outcomes.len(),
    decreases outcomes.len(),
{
    if outcomes.len() > 0 {
        lemma_every_deletion_accounted(plugins, outcomes.drop_last());
    }
}

/// While a deletion waits for confirmation, each of `n`, Esc and `q` drops
/// it: nothing is pending afterwards, the status reads "Delete cancelled", the
/// list and the selection stay, and nothing is handed back to be done.
pub proof fn lemma_cancel_keys_drop_the_deletion(a: App, key: KeyInput, b: App, out: KeyOutcome)
    requires
        a.confirm is Some,
        confirm_key_effect(a, key, b, out),
        key.key == Key::Char('n') || key.key == Key::Esc || key.key == Key::Char('q'),
    ensures
        b.confirm is None,
        b.status@ == "Delete cancelled"@,
        out is Continue,
        b.plugins == a.plugins,
        b.selected == a.selected,
{
}

/// A plugin made from a directory entry keeps what it was found with: the
/// format and scope of the root it was listed under, the entry's path and
/// its modification time.
pub proof fn lemma_entry_plugin_keeps_root(root: crate::plugin::PluginRoot, e: EntryFacts)
    ensures
        entry_plugin(root, e) matches Some(p) ==> {
            &&& p.scope == root.scope
            &&& p.format == root.format
            &&& p.path == e.path@
            &&& p.modified == e.modified
        },
{
}

/// Every plugin scanned from a listing carries the scope and format of that
/// listing's root, and the path of one of its entries.
pub proof fn lemma_listing_plugins_keep_root(l: RootListing)
    ensures
        forall|k: int| 0 <= k < listing_plugins(l).len() ==> {
            &&& (#[trigger] listing_plugins(l)[k]).scope == l.root.scope
            &&& listing_plugins(l)[k].format == l.root.format
            &&& exists|j: int| 0 <= j < l.entries@.len() && l.entries@[j].path@ == listing_plugins(l)[k].path
        },
{
    lemma_entries_keep_root(l, l.entries@);
    assert(listing_plugins(l) == plugins_of_entries(l, l.entries@));
}

spec fn plugins_of_entries(l: RootListing, s: Seq<EntryFacts>) -> Seq<crate::plugin::PluginView> {
    s.filter_map(|e: EntryFacts| entry_plugin(l.root, e))
}

proof fn lemma_entries_keep_root(l: RootListing, s: Seq<EntryFacts>)
    ensures
        forall|k: int| 0 <= k < plugins_of_entries(l, s).len() ==> {
            &&& (#[trigger] plugins_of_entries(l, s)[k]).scope == l.root.scope
            &&& plugins_of_entries(l, s)[k].format == l.root.format
            &&& exists|j: int| 0 <= j < s.len() && s[j].path@ == plugins_of_entries(l, s)[k].path
        },
    decreases s.len(),
{
    if s.len() > 0 {
        let rest = s.drop_last();
        lemma_entries_keep_root(l, rest);
        let all = plugins_of_entries(l, s);
        let earlier = plugins_of_entries(l, rest);
        assert forall|k: int| 0 <= k < all.len() implies {
            &&& (#[trigger] all[k]).scope == l.root.scope
            &&& all[k].format == l.root.format
            &&& exists|j: int| 0 <= j < s.len() && s[j].path@ == all[k].path
        } by {
            if k < earlier.len() {
                assert(all[k] == earlier[k]);
                let j = choose|j: int| 0 <= j < rest.len() && rest[j].path@ == earlier[k].path;
                assert(s[j] == rest[j]);
            } else {
                assert(entry_plugin(l.root, s.last()) matches Some(p) && all[k] == p);
                assert(s[s.len() - 1] == s.last());
            }
        }
    }
}

} // verus!

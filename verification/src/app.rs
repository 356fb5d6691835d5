//! The browser's state and how keys and refreshes change it.
use vstd::prelude::*;

use crate::cache::{
    cached_plugins_changed, format_unix_time, plugins_changed, roots_changed, roots_changed_since,
    unix_time_text, PluginCache,
};
use crate::paths::{path_eq, same_path};
use crate::plugin::{copy_plugins, BundleProbe, Plugin, PluginRoot};
use crate::text::{decimal, owned, push_decimal, push_str};

verus! {

/// How far one press of ctrl-d or ctrl-u scrolls the details pane.
pub const DETAILS_SCROLL_STEP: usize = 8;

/// The key of a key press, as far as the browser tells keys apart.
#[derive(Clone, Copy, PartialEq, Eq, Structural, Debug)]
pub enum Key {
    Char(char),
    Esc,
    Up,
    Down,
    Other,
}

/// A key press: the key, and whether Control was the only modifier held.
#[derive(Clone, Copy, PartialEq, Eq, Structural, Debug)]
pub struct KeyInput {
    pub key: Key,
    pub control_only: bool,
}

/// A message shown over the browser until a key is pressed.
pub struct Notice {
    pub title: String,
    pub lines: Vec<String>,
}

/// A deletion waiting for the user to confirm it.
pub enum ConfirmAction {
    DeleteSelected(Plugin),
    DeleteFamily { family: String, plugins: Vec<Plugin> },
}

/// The plugins a pending deletion would remove.
pub open spec fn confirm_plugins(c: ConfirmAction) -> Seq<Plugin> {
    match c {
        ConfirmAction::DeleteSelected(p) => seq![p],
        ConfirmAction::DeleteFamily { plugins, .. } => plugins@,
    }
}

/// The question asked for a pending deletion.
pub open spec fn confirm_title(c: ConfirmAction) -> Seq<char> {
    match c {
        ConfirmAction::DeleteSelected(_) => "Delete selected plugin?"@,
        ConfirmAction::DeleteFamily { .. } => "Delete all related versions?"@,
    }
}

impl ConfirmAction {
    /// The question asked before deleting.
    pub fn title(&self) -> (r: &'static str)
        ensures
            r@ == confirm_title(*self),
    {
        match self {
            ConfirmAction::DeleteSelected(_) => "Delete selected plugin?",
            ConfirmAction::DeleteFamily { .. } => "Delete all related versions?",
        }
    }

    /// The plugins that would be deleted.
    pub fn plugins(&self) -> (r: &[Plugin])
        ensures
            r@ == confirm_plugins(*self),
    {
        match self {
            ConfirmAction::DeleteSelected(plugin) => core::slice::from_ref(plugin),
            ConfirmAction::DeleteFamily { plugins, .. } => plugins.as_slice(),
        }
    }
}

/// What the caller has to do after a key press.
pub enum KeyOutcome {
    /// Nothing more.
    Continue,
    /// Leave the browser.
    Quit,
    /// Scan the plugin directories again and `refresh` with the manual-refresh status.
    Refresh,
    /// Delete these plugin bundles, refresh after the deletion, then `finish_delete`.
    Delete(Vec<Plugin>),
}

/// The browser's state, without the terminal.
pub struct App {
    pub plugins: Vec<Plugin>,
    pub roots: Vec<PluginRoot>,
    /// Index of the highlighted plugin.
    pub selected: usize,
    /// What the list widget highlights: `Some(selected)` unless the list is empty.
    pub list_selection: Option<usize>,
    pub details_scroll: usize,
    pub status: String,
    pub confirm: Option<ConfirmAction>,
    pub notice: Option<Notice>,
    pub cache_generated_at: u64,
}

/// The selection a list of `len` plugins can hold, starting from `selected`.
pub open spec fn clamped(len: int, selected: int) -> int {
    if len == 0 {
        0
    } else if selected < len - 1 {
        selected
    } else {
        len - 1
    }
}

/// The selection and the list widget agree, and the selection is inside the list.
pub open spec fn selection_is(a: App, selected: int) -> bool {
    &&& a.selected == selected
    &&& if a.plugins@.len() == 0 {
        a.list_selection is None
    } else {
        a.list_selection == Some(a.selected)
    }
}

/// The state is well formed: the selection is valid for the list.
pub open spec fn well_formed(a: App) -> bool {
    if a.plugins@.len() == 0 {
        a.selected == 0 && a.list_selection is None
    } else {
        a.selected < a.plugins@.len() && a.list_selection == Some(a.selected)
    }
}

/// Everything but the selection, the widget selection and the scroll stays.
pub open spec fn same_content(a: App, b: App) -> bool {
    &&& b.plugins == a.plugins
    &&& b.roots == a.roots
    &&& b.status == a.status
    &&& b.confirm == a.confirm
    &&& b.notice == a.notice
    &&& b.cache_generated_at == a.cache_generated_at
}

/// Everything but the pending deletion, the status and the notice stays.
pub open spec fn same_view(a: App, b: App) -> bool {
    &&& b.plugins == a.plugins
    &&& b.roots == a.roots
    &&& b.selected == a.selected
    &&& b.list_selection == a.list_selection
    &&& b.details_scroll == a.details_scroll
    &&& b.cache_generated_at == a.cache_generated_at
}

/// `b` is `a` with the selection moved to `clamped(target)` and the details scrolled to the top.
pub open spec fn moved_to(a: App, b: App, target: int) -> bool {
    &&& same_content(a, b)
    &&& b.details_scroll == 0
    &&& selection_is(b, clamped(a.plugins@.len() as int, target))
}

/// The selection after "next": one further down, unless at the end.
pub open spec fn moved_next(a: App, b: App) -> bool {
    if a.plugins@.len() == 0 {
        b == a
    } else {
        moved_to(a, b, if a.selected + 1 < a.plugins@.len() - 1 { a.selected + 1 } else { a.plugins@.len() - 1 })
    }
}

/// The selection after "previous": one further up, unless at the top.
pub open spec fn moved_previous(a: App, b: App) -> bool {
    moved_to(a, b, if a.selected == 0 { 0 } else { a.selected - 1 })
}

/// The selection after "last".
pub open spec fn moved_last(a: App, b: App) -> bool {
    if a.plugins@.len() == 0 {
        b == a
    } else {
        moved_to(a, b, a.plugins@.len() - 1)
    }
}

/// `b` is `a` with the details scrolled to `scroll`.
pub open spec fn scrolled_to(a: App, b: App, scroll: int) -> bool {
    &&& same_content(a, b)
    &&& b.selected == a.selected
    &&& b.list_selection == a.list_selection
    &&& b.details_scroll == scroll
}

/// A plugin belongs to the family `family`.
pub open spec fn in_family(family: Seq<char>) -> spec_fn(Plugin) -> bool {
    |p: Plugin| p.family@ == family
}

/// The plugins of `all` in the family of `family`, in order.
pub open spec fn family_members(all: Seq<Plugin>, family: Seq<char>) -> Seq<Plugin> {
    all.filter(in_family(family))
}

/// The plugin under the selection, if any.
pub open spec fn selected_of(a: App) -> Option<Plugin> {
    if a.selected < a.plugins@.len() {
        Some(a.plugins@[a.selected as int])
    } else {
        None
    }
}

/// The effect of asking to delete the selected plugin.
pub open spec fn asked_delete_selected(a: App, b: App) -> bool {
    &&& same_view(a, b)
    &&& b.notice == a.notice
    &&& match selected_of(a) {
        Some(p) => b.status == a.status && b.confirm == Some(ConfirmAction::DeleteSelected(p)),
        None => b.status@ == "Nothing selected"@ && b.confirm == a.confirm,
    }
}

/// The effect of asking to delete every plugin of the selected one's family.
pub open spec fn asked_delete_family(a: App, b: App) -> bool {
    &&& same_view(a, b)
    &&& b.notice == a.notice
    &&& match selected_of(a) {
        Some(p) => b.status == a.status && (b.confirm matches Some(ConfirmAction::DeleteFamily { family, plugins })
            && family == p.family && plugins@ == family_members(a.plugins@, p.family@)),
        None => b.status@ == "Nothing selected"@ && b.confirm == a.confirm,
    }
}

/// The key quits (or dismisses): `q` or Esc.
pub open spec fn is_quit_key(k: KeyInput) -> bool {
    k.key == Key::Char('q') || k.key == Key::Esc
}

/// The effect of a key while a deletion waits for confirmation.
pub open spec fn confirm_key_effect(a: App, k: KeyInput, b: App, out: KeyOutcome) -> bool {
    if k.key == Key::Char('y') {
        &&& same_view(a, b)
        &&& b.status == a.status
        &&& b.notice == a.notice
        &&& b.confirm is None
        &&& match a.confirm {
            Some(c) => out matches KeyOutcome::Delete(v) && v@ == confirm_plugins(c),
            None => out is Continue,
        }
    } else if k.key == Key::Char('n') || k.key == Key::Esc || k.key == Key::Char('q') {
        &&& same_view(a, b)
        &&& b.notice == a.notice
        &&& b.confirm is None
        &&& b.status@ == "Delete cancelled"@
        &&& out is Continue
    } else {
        b == a && out is Continue
    }
}

/// The effect of a key when no notice and no confirmation is showing.
pub open spec fn browse_key_effect(a: App, k: KeyInput, b: App, out: KeyOutcome) -> bool {
    if is_quit_key(k) {
        b == a && out is Quit
    } else if k.key == Key::Char('j') || k.key == Key::Down {
        moved_next(a, b) && out is Continue
    } else if k.key == Key::Char('k') || k.key == Key::Up {
        moved_previous(a, b) && out is Continue
    } else if k.key == Key::Char('g') {
        moved_to(a, b, 0) && out is Continue
    } else if k.key == Key::Char('G') {
        moved_last(a, b) && out is Continue
    } else if k.control_only && k.key == Key::Char('d') {
        scrolled_to(a, b, if a.details_scroll + DETAILS_SCROLL_STEP > usize::MAX { usize::MAX as int } else { a.details_scroll + DETAILS_SCROLL_STEP }) && out is Continue
    } else if k.control_only && k.key == Key::Char('u') {
        scrolled_to(a, b, if a.details_scroll < DETAILS_SCROLL_STEP { 0 } else { a.details_scroll - DETAILS_SCROLL_STEP }) && out is Continue
    } else if k.key == Key::Char('r') {
        b == a && out is Refresh
    } else if k.key == Key::Char('d') {
        asked_delete_selected(a, b) && out is Continue
    } else if k.key == Key::Char('D') {
        asked_delete_family(a, b) && out is Continue
    } else {
        b == a && out is Continue
    }
}

/// The first index of `plugins` whose path is the same path as `path`.
pub closed spec fn first_with_path(plugins: Seq<Plugin>, path: Seq<char>) -> Option<int> {
    if exists|i: int| 0 <= i < plugins.len() && same_path(#[trigger] plugins[i].path@, path) {
        Some(choose|i: int|
            0 <= i < plugins.len() && same_path(plugins[i].path@, path) && forall|j: int|
                0 <= j < i ==> !same_path(#[trigger] plugins[j].path@, path))
    } else {
        None
    }
}

/// Where the selection lands after the list is replaced by `plugins`: on the
/// previously selected path if it is still listed, else on the same index.
pub open spec fn selection_after_refresh(a: App, plugins: Seq<Plugin>) -> int {
    let fallback = clamped(plugins.len() as int, a.selected as int);
    match selected_of(a) {
        Some(p) => match first_with_path(plugins, p.path@) {
            Some(i) => i,
            None => fallback,
        },
        None => fallback,
    }
}

/// `b` is `a` showing the new scan `cache`, with `message` in the status line.
pub open spec fn refreshed(a: App, b: App, message: Seq<char>, cache: PluginCache) -> bool {
    &&& b.plugins == cache.plugins
    &&& b.cache_generated_at == cache.generated_at
    &&& b.roots == a.roots
    &&& b.confirm == a.confirm
    &&& b.notice == a.notice
    &&& b.details_scroll == 0
    &&& b.status@ == refreshed_status(message, cache.generated_at)
    &&& selection_is(b, selection_after_refresh(a, cache.plugins@))
    &&& well_formed(b)
}

/// The status line after a refresh: the message and when the cache was made.
pub open spec fn refreshed_status(message: Seq<char>, generated_at: u64) -> Seq<char> {
    message + " at "@ + unix_time_text(generated_at)
}

/// The status message of a deletion that had no failures.
pub open spec fn deleted_status(deleted: usize) -> Seq<char> {
    "Deleted "@ + decimal(deleted as nat) + " plugin bundle(s)"@
}

/// The status message of a deletion with failures.
pub open spec fn partly_deleted_status(deleted: usize, failed: nat) -> Seq<char> {
    "Deleted "@ + decimal(deleted as nat) + "; failed "@ + decimal(failed)
}

/// The lines of the notice shown when deletions failed.
pub open spec fn failure_notice_lines(deleted: usize, failures: Seq<String>) -> Seq<Seq<char>> {
    seq![
        "Deleted "@ + decimal(deleted as nat) + " plugin bundle(s)."@,
        "Failed to delete "@ + decimal(failures.len()) + " plugin bundle(s)."@,
        ""@,
        "If this is a system plugin under /Library, run vstui with permissions that can write there."@,
        ""@,
    ] + failures.map_values(|s: String| s@)
}

impl App {
    /// A browser showing `cache`, with the first plugin selected.
    pub fn new(roots: Vec<PluginRoot>, cache: PluginCache) -> (app: App)
        ensures
            app.plugins == cache.plugins,
            app.roots == roots,
            selection_is(app, 0),
            well_formed(app),
            app.details_scroll == 0,
            app.status@ == "Loaded cache from "@ + unix_time_text(cache.generated_at),
            app.confirm is None,
            app.notice is None,
            app.cache_generated_at == cache.generated_at,
    {
        let mut status = owned("Loaded cache from ");
        let time = format_unix_time(cache.generated_at);
        push_str(&mut status, time.as_str());
        let mut app = App {
            plugins: cache.plugins,
            roots,
            selected: 0,
            list_selection: None,
            details_scroll: 0,
            status,
            confirm: None,
            notice: None,
            cache_generated_at: cache.generated_at,
        };
        app.normalize_selection();
        app
    }

    /// Keeps the selection inside the list and tells the list widget about it.
    pub fn normalize_selection(&mut self)
        ensures
            same_content(*old(self), *final(self)),
            final(self).details_scroll == old(self).details_scroll,
            selection_is(*final(self), clamped(old(self).plugins@.len() as int, old(self).selected as int)),
            well_formed(*final(self)),
    {
        if self.plugins.len() == 0 {
            self.selected = 0;
            self.list_selection = None;
        } else {
            if self.selected >= self.plugins.len() - 1 {
                self.selected = self.plugins.len() - 1;
            }
            self.list_selection = Some(self.selected);
        }
    }

    /// Moves the selection one plugin down.
    pub fn select_next(&mut self)
        ensures
            moved_next(*old(self), *final(self)),
            old(self).plugins@.len() > 0 || well_formed(*old(self)) ==> well_formed(*final(self)),
    {
        if self.plugins.len() == 0 {
            return;
        }
        let last = self.plugins.len() - 1;
        self.selected = if self.selected < last { self.selected + 1 } else { last };
        self.details_scroll = 0;
        self.normalize_selection();
    }

    /// Moves the selection one plugin up.
    pub fn select_previous(&mut self)
        ensures
            moved_previous(*old(self), *final(self)),
            well_formed(*final(self)),
    {
        self.selected = if self.selected == 0 { 0 } else { self.selected - 1 };
        self.details_scroll = 0;
        self.normalize_selection();
    }

    /// Selects the first plugin.
    pub fn select_first(&mut self)
        ensures
            moved_to(*old(self), *final(self), 0),
            well_formed(*final(self)),
    {
        self.selected = 0;
        self.details_scroll = 0;
        self.normalize_selection();
    }

    /// Selects the last plugin.
    pub fn select_last(&mut self)
        ensures
            moved_last(*old(self), *final(self)),
            old(self).plugins@.len() > 0 || well_formed(*old(self)) ==> well_formed(*final(self)),
    {
        if self.plugins.len() > 0 {
            self.selected = self.plugins.len() - 1;
            self.details_scroll = 0;
            self.normalize_selection();
        }
    }

    /// Scrolls the details pane down by one step.
    pub fn scroll_details_down(&mut self)
        ensures
            scrolled_to(*old(self), *final(self), if old(self).details_scroll + DETAILS_SCROLL_STEP > usize::MAX {
                usize::MAX as int
            } else {
                old(self).details_scroll + DETAILS_SCROLL_STEP
            }),
            well_formed(*old(self)) ==> well_formed(*final(self)),
    {
        self.details_scroll = self.details_scroll.saturating_add(DETAILS_SCROLL_STEP);
    }

    /// Scrolls the details pane up by one step.
    pub fn scroll_details_up(&mut self)
        ensures
            scrolled_to(*old(self), *final(self), if old(self).details_scroll < DETAILS_SCROLL_STEP {
                0
            } else {
                old(self).details_scroll - DETAILS_SCROLL_STEP
            }),
            well_formed(*old(self)) ==> well_formed(*final(self)),
    {
        self.details_scroll = self.details_scroll.saturating_sub(DETAILS_SCROLL_STEP);
    }

    /// The highlighted plugin.
    pub fn selected_plugin(&self) -> (r: Option<&Plugin>)
        ensures
            match r {
                Some(p) => selected_of(*self) == Some(*p),
                None => selected_of(*self) is None,
            },
    {
        if self.selected < self.plugins.len() {
            Some(&self.plugins[self.selected])
        } else {
            None
        }
    }

    /// Every listed plugin of the same family as `plugin`, in list order.
    pub fn related_plugins(&self, plugin: &Plugin) -> (r: Vec<Plugin>)
        ensures
            r@ == family_members(self.plugins@, plugin.family@),
    {
        let mut r: Vec<Plugin> = Vec::new();
        let mut i: usize = 0;
        while i < self.plugins.len()
            invariant
                i <= self.plugins@.len(),
                r@ == family_members(self.plugins@.take(i as int), plugin.family@),
            decreases self.plugins@.len() - i,
        {
            let candidate = &self.plugins[i];
            proof {
                self.plugins@.take(i as int).lemma_filter_push(*candidate, in_family(plugin.family@));
                assert(self.plugins@.take(i + 1) == self.plugins@.take(i as int).push(*candidate));
            }
            if crate::paths::same_text(&candidate.family, &plugin.family) {
                r.push(candidate.clone());
            }
            i += 1;
        }
        assert(self.plugins@.take(self.plugins@.len() as int) == self.plugins@);
        r
    }

    /// Asks to confirm deleting the highlighted plugin.
    pub fn confirm_delete_selected(&mut self)
        ensures
            asked_delete_selected(*old(self), *final(self)),
            well_formed(*old(self)) ==> well_formed(*final(self)),
    {
        let plugin = match self.selected_plugin() {
            Some(p) => p.clone(),
            None => {
                self.status = owned("Nothing selected");
                return;
            },
        };
        self.confirm = Some(ConfirmAction::DeleteSelected(plugin));
    }

    /// Asks to confirm deleting every plugin of the highlighted one's family.
    pub fn confirm_delete_family(&mut self)
        ensures
            asked_delete_family(*old(self), *final(self)),
            well_formed(*old(self)) ==> well_formed(*final(self)),
    {
        let plugin = match self.selected_plugin() {
            Some(p) => p.clone(),
            None => {
                self.status = owned("Nothing selected");
                return;
            },
        };
        let related = self.related_plugins(&plugin);
        self.confirm = Some(ConfirmAction::DeleteFamily { family: plugin.family.clone(), plugins: related });
    }

    /// Handles a key while a deletion waits for confirmation.
    pub fn handle_confirm_key(&mut self, key: KeyInput) -> (out: KeyOutcome)
        ensures
            confirm_key_effect(*old(self), key, *final(self), out),
            well_formed(*old(self)) ==> well_formed(*final(self)),
    {
        if key.key == Key::Char('y') {
            match self.confirm.take() {
                Some(action) => {
                    let ghost c = action;
                    let plugins = copy_plugins(action.plugins());
                    assert(plugins@ == confirm_plugins(c));
                    KeyOutcome::Delete(plugins)
                },
                None => KeyOutcome::Continue,
            }
        } else if key.key == Key::Char('n') || key.key == Key::Esc || key.key == Key::Char('q') {
            self.confirm = None;
            self.status = owned("Delete cancelled");
            KeyOutcome::Continue
        } else {
            KeyOutcome::Continue
        }
    }

    /// Handles a key press and says what the caller has to do next.
    pub fn handle_key(&mut self, key: KeyInput) -> (out: KeyOutcome)
        ensures
            well_formed(*old(self)) ==> well_formed(*final(self)),
            match old(self).notice {
                Some(_) => {
                    &&& same_view(*old(self), *final(self))
                    &&& final(self).status == old(self).status
                    &&& final(self).confirm == old(self).confirm
                    &&& final(self).notice is None
                    &&& if is_quit_key(key) { out is Quit } else { out is Continue }
                },
                None => if old(self).confirm is Some {
                    confirm_key_effect(*old(self), key, *final(self), out)
                } else {
                    browse_key_effect(*old(self), key, *final(self), out)
                },
            },
    {
        if self.notice.is_some() {
            self.notice = None;
            return if key.key == Key::Char('q') || key.key == Key::Esc {
                KeyOutcome::Quit
            } else {
                KeyOutcome::Continue
            };
        }
        if self.confirm.is_some() {
            return self.handle_confirm_key(key);
        }
        if key.key == Key::Char('q') || key.key == Key::Esc {
            return KeyOutcome::Quit;
        } else if key.key == Key::Char('j') || key.key == Key::Down {
            self.select_next();
        } else if key.key == Key::Char('k') || key.key == Key::Up {
            self.select_previous();
        } else if key.key == Key::Char('g') {
            self.select_first();
        } else if key.key == Key::Char('G') {
            self.select_last();
        } else if key.control_only && key.key == Key::Char('d') {
            self.scroll_details_down();
        } else if key.control_only && key.key == Key::Char('u') {
            self.scroll_details_up();
        } else if key.key == Key::Char('r') {
            return KeyOutcome::Refresh;
        } else if key.key == Key::Char('d') {
            self.confirm_delete_selected();
        } else if key.key == Key::Char('D') {
            self.confirm_delete_family();
        }
        KeyOutcome::Continue
    }

    /// Replaces the list with a new scan, keeping the highlighted path
    /// selected when it is still listed, and reports `message` in the status line.
    pub fn refresh(&mut self, message: &str, cache: PluginCache)
        ensures
            refreshed(*old(self), *final(self), message@, cache),
    {
        let ghost old_app = *self;
        let old_path: Option<String> = match self.selected_plugin() {
            Some(p) => Some(p.path.clone()),
            None => None,
        };
        self.plugins = cache.plugins;
        self.cache_generated_at = cache.generated_at;
        let len = self.plugins.len();
        let fallback = if len == 0 {
            0
        } else if self.selected < len - 1 {
            self.selected
        } else {
            len - 1
        };
        self.selected = match old_path {
            Some(path) => match position_of_path(&self.plugins, path.as_str()) {
                Some(i) => i,
                None => fallback,
            },
            None => fallback,
        };
        self.details_scroll = 0;
        let mut status = owned(message);
        push_str(&mut status, " at ");
        let time = format_unix_time(cache.generated_at);
        push_str(&mut status, time.as_str());
        self.status = status;
        self.normalize_selection();
    }

    /// Replaces the list with the scan that the user asked for.
    pub fn manual_refresh(&mut self, cache: PluginCache)
        ensures
            refreshed(*old(self), *final(self), "Manual refresh complete"@, cache),
    {
        self.refresh("Manual refresh complete", cache)
    }

    /// Replaces the list with the scan made because a plugin directory changed.
    pub fn refresh_after_root_change(&mut self, cache: PluginCache)
        ensures
            refreshed(*old(self), *final(self), "Plugin directory changed; cache refreshed"@, cache),
    {
        self.refresh("Plugin directory changed; cache refreshed", cache)
    }

    /// Replaces the list with the scan made after a deletion.
    pub fn refresh_after_delete(&mut self, cache: PluginCache)
        ensures
            refreshed(*old(self), *final(self), "Cache refreshed after delete"@, cache),
    {
        self.refresh("Cache refreshed after delete", cache)
    }

    /// Whether the list has to be refreshed: a listed plugin is gone, or a root
    /// changed after the list was made. `probes[i]` is what was seen at the
    /// path of plugin `i`, `root_modified[i]` the modification time of root `i`.
    pub fn roots_need_refresh(&self, probes: &Vec<BundleProbe>, root_modified: &Vec<Option<u64>>) -> (r: bool)
        requires
            probes@.len() == self.plugins@.len(),
        ensures
            r == (plugins_changed(self.plugins@, probes@) || roots_changed(root_modified@, self.cache_generated_at)),
    {
        cached_plugins_changed(&self.plugins, probes) || roots_changed_since(root_modified, self.cache_generated_at)
    }

    /// Reports the end of a deletion: `deleted` bundles went away, and each
    /// line of `failures` tells of one that did not.
    pub fn finish_delete(&mut self, deleted: usize, failures: Vec<String>)
        ensures
            same_view(*old(self), *final(self)),
            final(self).confirm == old(self).confirm,
            if failures@.len() == 0 {
                &&& final(self).status@ == deleted_status(deleted)
                &&& final(self).notice == old(self).notice
            } else {
                &&& final(self).status@ == partly_deleted_status(deleted, failures@.len())
                &&& final(self).notice matches Some(n) && n.title@ == "Delete failed"@
                    && n.lines@.map_values(|s: String| s@) == failure_notice_lines(deleted, failures@)
            },
    {
        let failed = failures.len();
        if failed == 0 {
            let mut status = owned("Deleted ");
            push_decimal(&mut status, deleted as u64);
            push_str(&mut status, " plugin bundle(s)");
            self.status = status;
            return;
        }
        let mut status = owned("Deleted ");
        push_decimal(&mut status, deleted as u64);
        push_str(&mut status, "; failed ");
        push_decimal(&mut status, failed as u64);
        self.status = status;

        let mut lines: Vec<String> = Vec::new();
        let mut first = owned("Deleted ");
        push_decimal(&mut first, deleted as u64);
        push_str(&mut first, " plugin bundle(s).");
        lines.push(first);
        let mut second = owned("Failed to delete ");
        push_decimal(&mut second, failed as u64);
        push_str(&mut second, " plugin bundle(s).");
        lines.push(second);
        lines.push(owned(""));
        lines.push(owned("If this is a system plugin under /Library, run vstui with permissions that can write there."));
        lines.push(owned(""));
        let ghost head = lines@.map_values(|s: String| s@);
        let mut i: usize = 0;
        while i < failures.len()
            invariant
                i <= failures@.len(),
                lines@.map_values(|s: String| s@) == head + failures@.take(i as int).map_values(|s: String| s@),
            decreases failures@.len() - i,
        {
            let ghost before = lines@;
            lines.push(failures[i].clone());
            assert(lines@.map_values(|s: String| s@) == before.map_values(|s: String| s@).push(failures@[i as int]@));
            assert(failures@.take(i + 1).map_values(|s: String| s@) == failures@.take(i as int).map_values(|s: String| s@).push(failures@[i as int]@));
            i += 1;
        }
        assert(failures@.take(failures@.len() as int) == failures@);
        assert(lines@.map_values(|s: String| s@) =~= failure_notice_lines(deleted, failures@));
        self.notice = Some(Notice { title: owned("Delete failed"), lines });
    }
}

proof fn lemma_first_with_path_at(plugins: Seq<Plugin>, path: Seq<char>, i: int)
    requires
        0 <= i < plugins.len(),
        same_path(plugins[i].path@, path),
        forall|j: int| 0 <= j < i ==> !same_path(#[trigger] plugins[j].path@, path),
    ensures
        first_with_path(plugins, path) == Some(i),
{
    let w = choose|w: int|
        0 <= w < plugins.len() && same_path(plugins[w].path@, path) && forall|j: int|
            0 <= j < w ==> !same_path(#[trigger] plugins[j].path@, path);
    if w < i {
        assert(!same_path(plugins[w].path@, path));
    } else if w > i {
        assert(!same_path(plugins[i].path@, path));
    }
}

/// What `first_with_path` is: the least index whose plugin has the same path
/// as `path`, or `None` when no plugin has.
pub proof fn lemma_first_with_path(plugins: Seq<Plugin>, path: Seq<char>)
    ensures
        match first_with_path(plugins, path) {
            Some(i) => 0 <= i < plugins.len() && same_path(plugins[i].path@, path)
                && forall|j: int| 0 <= j < i ==> !same_path(#[trigger] plugins[j].path@, path),
            None => forall|j: int| 0 <= j < plugins.len() ==> !same_path(#[trigger] plugins[j].path@, path),
        },
{
    if exists|k: int| 0 <= k < plugins.len() && same_path(#[trigger] plugins[k].path@, path) {
        let k = choose|k: int| 0 <= k < plugins.len() && same_path(#[trigger] plugins[k].path@, path);
        lemma_first_search(plugins, path, k, 0);
    }
}

proof fn lemma_first_search(plugins: Seq<Plugin>, path: Seq<char>, k: int, from: int)
    requires
        0 <= from <= k < plugins.len(),
        same_path(plugins[k].path@, path),
        forall|j: int| 0 <= j < from ==> !same_path(#[trigger] plugins[j].path@, path),
    ensures
        first_with_path(plugins, path) matches Some(i) && 0 <= i < plugins.len() && same_path(plugins[i].path@, path)
            && forall|j: int| 0 <= j < i ==> !same_path(#[trigger] plugins[j].path@, path),
    decreases k - from,
{
    if same_path(plugins[from].path@, path) {
        lemma_first_with_path_at(plugins, path, from);
    } else {
        lemma_first_search(plugins, path, k, from + 1);
    }
}

/// The first index of `plugins` whose path is `path`.
pub fn position_of_path(plugins: &Vec<Plugin>, path: &str) -> (r: Option<usize>)
    ensures
        match r {
            Some(i) => first_with_path(plugins@, path@) == Some(i as int) && i < plugins@.len(),
            None => first_with_path(plugins@, path@) is None,
        },
{
    let mut i: usize = 0;
    while i < plugins.len()
        invariant
            i <= plugins@.len(),
            forall|j: int| 0 <= j < i ==> !same_path(#[trigger] plugins@[j].path@, path@),
        decreases plugins@.len() - i,
    {
        if path_eq(plugins[i].path.as_str(), path) {
            proof {
                lemma_first_with_path_at(plugins@, path@, i as int);
            }
            return Some(i);
        }
        i += 1;
    }
    None
}

} // verus!

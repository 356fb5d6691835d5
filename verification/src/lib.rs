//! The logic of a terminal browser for macOS audio plugins (VST2, VST3 and
//! Audio Units): finding bundles in the standard plugin directories, naming
//! and grouping them, keeping a cache of them fresh, deciding what may be
//! deleted, and the state of the browser as keys are pressed.
pub mod app;
pub mod cache;
pub mod layout;
pub mod laws;
pub mod order;
pub mod paths;
pub mod plugin;
pub mod remove;
pub mod roots;
pub mod scan;
pub mod screen;
pub mod text;

pub use app::{App, ConfirmAction, Key, KeyInput, KeyOutcome, Notice};
pub use cache::{
    cache_is_stale, cached_plugins_changed, format_unix_time, load_or_refresh_cache, modified_unix,
    roots_changed_since, scan_and_store_cache, system_time_to_unix, unix_now, PluginCache,
};
pub use plugin::{
    is_installed_plugin_bundle, is_plugin_bundle, normalize_family, plugin_name, read_plist_string,
    BundleProbe, Plugin, PluginFormat, PluginRoot, PluginScope,
};
pub use roots::{is_under_plugin_root, plugin_roots};
pub use scan::{scan_plugins, EntryFacts, RootListing};

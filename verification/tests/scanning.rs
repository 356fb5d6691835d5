use vstui::cache::cached_plugins_changed;
use vstui::remove::{check_deletable, confirm_removed, removal_for, Removal};
use vstui::scan::{scan_plugins, EntryFacts, RootListing};
use vstui::{BundleProbe, Plugin, PluginFormat, PluginRoot, PluginScope};

const PLIST: &str = r#"<?xml version="1.0" encoding="UTF-8"?>
<plist version="1.0">
<dict>
  <key>CFBundleShortVersionString</key>
  <string>1.2.3</string>
</dict>
</plist>
"#;

fn user_vst3_root(path: &str) -> PluginRoot {
    PluginRoot { path: path.to_string(), format: PluginFormat::Vst3, scope: PluginScope::User }
}

fn bundle_dir(path: &str, with_plist: bool) -> EntryFacts {
    EntryFacts {
        path: path.to_string(),
        probe: BundleProbe { target_is_file: Some(false), info_plist_is_file: with_plist },
        modified: Some(10),
        info_plist: if with_plist { Some(PLIST.to_string()) } else { None },
    }
}

#[test]
fn scan_skips_empty_leftover_bundle_directories() {
    let listings = vec![RootListing {
        root: user_vst3_root("/tmp/plugins"),
        entries: vec![
            bundle_dir("/tmp/plugins/Removed.vst3", false),
            bundle_dir("/tmp/plugins/Installed.vst3", true),
        ],
    }];
    let plugins = scan_plugins(&listings);
    assert_eq!(plugins.len(), 1);
    assert_eq!(plugins[0].name, "Installed");
    assert_eq!(plugins[0].family, "installed");
    assert_eq!(plugins[0].version.as_deref(), Some("1.2.3"));
    assert_eq!(plugins[0].modified, Some(10));
}

#[test]
fn stale_cache_detects_empty_bundle_directories() {
    let plugins = vec![Plugin {
        name: "Removed".to_string(),
        family: "removed".to_string(),
        format: PluginFormat::AudioUnit,
        scope: PluginScope::User,
        path: "/tmp/cache/Removed.component".to_string(),
        version: None,
        modified: None,
    }];
    let probes = vec![BundleProbe { target_is_file: Some(false), info_plist_is_file: false }];
    assert!(cached_plugins_changed(&plugins, &probes));
}

#[test]
fn scan_skips_broken_plugin_symlinks() {
    let listings = vec![RootListing {
        root: user_vst3_root("/tmp/plugins"),
        entries: vec![EntryFacts {
            path: "/tmp/plugins/Ghost.vst3".to_string(),
            probe: BundleProbe { target_is_file: None, info_plist_is_file: false },
            modified: None,
            info_plist: None,
        }],
    }];
    let plugins = scan_plugins(&listings);
    assert!(plugins.is_empty());
}

#[test]
fn delete_plugin_bundle_removes_symlink_without_deleting_target() {
    let plugin = Plugin {
        name: "Linked".to_string(),
        family: "linked".to_string(),
        format: PluginFormat::Vst3,
        scope: PluginScope::User,
        path: "/tmp/root/Linked.vst3".to_string(),
        version: None,
        modified: None,
    };
    let roots = vec![user_vst3_root("/tmp/root")];
    assert_eq!(check_deletable(&plugin, &roots), Ok(()));
    // A link is removed as an entry of its own: the bundle it points at stays.
    assert_eq!(removal_for(true, false, true), Ok(Removal::File));
    assert_eq!(confirm_removed(false), Ok(()));
}

#[test]
fn scan_keeps_root_then_entry_order() {
    let listings = vec![
        RootListing {
            root: PluginRoot { path: "/sys/VST".to_string(), format: PluginFormat::Vst2, scope: PluginScope::System },
            entries: vec![EntryFacts {
                path: "/sys/VST/Alpha.vst".to_string(),
                probe: BundleProbe { target_is_file: Some(true), info_plist_is_file: false },
                modified: None,
                info_plist: None,
            }],
        },
        RootListing { root: user_vst3_root("/home/VST3"), entries: vec![] },
        RootListing {
            root: user_vst3_root("/home/other"),
            entries: vec![
                bundle_dir("/home/other/Zeta.vst3", true),
                bundle_dir("/home/other/Readme.txt", true),
                bundle_dir("/home/other/Beta.VST3", true),
            ],
        },
    ];
    let plugins = scan_plugins(&listings);
    let names: Vec<&str> = plugins.iter().map(|p| p.name.as_str()).collect();
    assert_eq!(names, vec!["Alpha", "Zeta", "Beta"]);
    assert_eq!(plugins[0].version, None);
    assert_eq!(plugins[0].scope, PluginScope::System);
    assert_eq!(plugins[2].format, PluginFormat::Vst3);
}

#[test]
fn deletion_is_refused_outside_roots_and_for_wrong_extensions() {
    let roots = vec![user_vst3_root("/tmp/root")];
    let mut plugin = Plugin {
        name: "X".to_string(),
        family: "x".to_string(),
        format: PluginFormat::Vst3,
        scope: PluginScope::User,
        path: "/tmp/rootless/X.vst3".to_string(),
        version: None,
        modified: None,
    };
    assert_eq!(
        check_deletable(&plugin, &roots),
        Err("refusing to delete outside known audio plugin roots".to_string())
    );
    plugin.path = "/tmp/root/X.component".to_string();
    assert_eq!(
        check_deletable(&plugin, &roots),
        Err("refusing to delete path with unexpected extension".to_string())
    );
    plugin.path = "/tmp/root/sub/X.VST3".to_string();
    assert_eq!(check_deletable(&plugin, &roots), Ok(()));
}

#[test]
fn removal_kinds_and_verification() {
    assert_eq!(removal_for(false, true, false), Ok(Removal::File));
    assert_eq!(removal_for(false, false, true), Ok(Removal::Directory));
    assert_eq!(removal_for(false, false, false), Err("unsupported plugin path type".to_string()));
    assert_eq!(confirm_removed(true), Err("path still exists after delete".to_string()));
    assert_eq!(vstui::remove::failure_line("/a/B.vst", "boom"), "/a/B.vst: boom");
}

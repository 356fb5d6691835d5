use vstui::cache::{compare_plugins, format_unix_time, sort_plugins};
use vstui::paths::{compare_paths, file_extension, file_name, file_stem, path_eq, starts_with};
use vstui::plugin::plugin_version;
use vstui::roots::{cache_file_path, cache_file_path_in, join_path, plugin_roots_for_home};
use vstui::text::decimal_string;
use vstui::{
    is_installed_plugin_bundle, is_plugin_bundle, is_under_plugin_root, normalize_family,
    plugin_name, plugin_roots, read_plist_string, BundleProbe, Plugin, PluginFormat, PluginRoot,
    PluginScope,
};

fn plugin(name: &str, format: PluginFormat, scope: PluginScope, path: &str, version: Option<&str>) -> Plugin {
    Plugin {
        name: name.to_string(),
        family: normalize_family(name),
        format,
        scope,
        path: path.to_string(),
        version: version.map(|v| v.to_string()),
        modified: None,
    }
}

#[test]
fn title_adds_the_version_when_known() {
    let p = plugin("Serum", PluginFormat::Vst3, PluginScope::User, "/u/Serum.vst3", Some("1.3"));
    assert_eq!(p.title(), "Serum 1.3");
    let q = plugin("Serum", PluginFormat::Vst3, PluginScope::User, "/u/Serum.vst3", None);
    assert_eq!(q.title(), "Serum");
}

#[test]
fn summary_names_format_scope_and_path() {
    let p = plugin("Serum", PluginFormat::AudioUnit, PluginScope::System, "/Library/Audio/Plug-Ins/Components/Serum.component", None);
    assert_eq!(p.summary(), "AU - System - /Library/Audio/Plug-Ins/Components/Serum.component");
    assert_eq!(PluginFormat::Vst2.label(), "VST2");
    assert_eq!(PluginFormat::Vst3.label(), "VST3");
    assert_eq!(PluginScope::User.label(), "User");
}

#[test]
fn family_keeps_lower_case_letters_and_digits() {
    assert_eq!(normalize_family("Pro-Q 3 (x64)"), "proq3x64");
    assert_eq!(normalize_family("FabFilter Pro-Q 3"), "fabfilterproq3");
    assert_eq!(normalize_family("Über Synth"), "bersynth");
    assert_eq!(normalize_family(""), "");
    let once = normalize_family("Valhalla VintageVerb");
    assert_eq!(normalize_family(&once), once);
}

#[test]
fn plugin_name_is_the_file_stem() {
    assert_eq!(plugin_name("/Library/Audio/Plug-Ins/VST3/Serum.vst3"), "Serum");
    assert_eq!(plugin_name("/a/b/My.Plugin.component"), "My.Plugin");
    assert_eq!(plugin_name("/a/b/.hidden"), ".hidden");
    assert_eq!(plugin_name("/a/b/Serum.vst3/"), "Serum");
    assert_eq!(plugin_name("/"), "Unknown");
    assert_eq!(plugin_name("/a/.."), "Unknown");
}

#[test]
fn file_name_stem_and_extension_follow_std() {
    assert_eq!(file_name("/a/b/c.txt"), Some("c.txt".to_string()));
    assert_eq!(file_name("a/b/./"), Some("b".to_string()));
    assert_eq!(file_stem("foo."), Some("foo".to_string()));
    assert_eq!(file_extension("foo."), Some("".to_string()));
    assert_eq!(file_extension(".hidden"), None);
    assert_eq!(file_extension("x/archive.tar.gz"), Some("gz".to_string()));
    assert_eq!(file_extension("noext"), None);
}

#[test]
fn bundles_are_recognised_by_extension_in_any_case() {
    assert!(is_plugin_bundle("/x/Foo.vst3", PluginFormat::Vst3));
    assert!(is_plugin_bundle("/x/Foo.VST3", PluginFormat::Vst3));
    assert!(!is_plugin_bundle("/x/Foo.vst3", PluginFormat::Vst2));
    assert!(is_plugin_bundle("/x/Foo.vst", PluginFormat::Vst2));
    assert!(is_plugin_bundle("/x/Foo.Component", PluginFormat::AudioUnit));
    assert!(!is_plugin_bundle("/x/vst3", PluginFormat::Vst3));
    assert!(!is_plugin_bundle("/x/Foo.vst3.bak", PluginFormat::Vst3));
}

#[test]
fn installed_bundles_need_a_file_or_an_info_plist() {
    let file = BundleProbe { target_is_file: Some(true), info_plist_is_file: false };
    let bundle = BundleProbe { target_is_file: Some(false), info_plist_is_file: true };
    let empty = BundleProbe { target_is_file: Some(false), info_plist_is_file: false };
    let missing = BundleProbe { target_is_file: None, info_plist_is_file: true };
    assert!(is_installed_plugin_bundle("/x/A.vst", PluginFormat::Vst2, &file));
    assert!(is_installed_plugin_bundle("/x/A.vst", PluginFormat::Vst2, &bundle));
    assert!(!is_installed_plugin_bundle("/x/A.vst", PluginFormat::Vst2, &empty));
    assert!(!is_installed_plugin_bundle("/x/A.vst", PluginFormat::Vst2, &missing));
    assert!(!is_installed_plugin_bundle("/x/A.txt", PluginFormat::Vst2, &file));
}

#[test]
fn plist_strings_are_found_and_trimmed() {
    let text = "<key>CFBundleVersion</key>\n  <string>  42.1 \n</string><key>Other</key><string>x</string>";
    assert_eq!(read_plist_string(text, "CFBundleVersion"), Some("42.1".to_string()));
    assert_eq!(read_plist_string(text, "Other"), Some("x".to_string()));
    assert_eq!(read_plist_string(text, "Missing"), None);
    assert_eq!(read_plist_string("<key>K</key><string> \u{a0}\t</string>", "K"), None);
    assert_eq!(read_plist_string("<key>K</key><string>open", "K"), None);
    assert_eq!(read_plist_string("<key>K</key>", "K"), None);
}

#[test]
fn plugin_version_prefers_the_short_version() {
    let both = Some("<key>CFBundleVersion</key><string>100</string><key>CFBundleShortVersionString</key><string>1.0.0</string>".to_string());
    assert_eq!(plugin_version(&both), Some("1.0.0".to_string()));
    let long_only = Some("<key>CFBundleVersion</key><string>100</string>".to_string());
    assert_eq!(plugin_version(&long_only), Some("100".to_string()));
    assert_eq!(plugin_version(&None), None);
}

#[test]
fn time_stamps_are_shown_in_seconds() {
    assert_eq!(format_unix_time(0), "0s since epoch");
    assert_eq!(format_unix_time(1725029869), "1725029869s since epoch");
    assert_eq!(decimal_string(u64::MAX), "18446744073709551615");
    assert_eq!(decimal_string(10), "10");
}

#[test]
fn paths_are_joined_like_pathbuf() {
    assert_eq!(join_path("/Users/me", "Library/Audio"), "/Users/me/Library/Audio");
    assert_eq!(join_path("/Users/me/", "Library"), "/Users/me/Library");
    assert_eq!(join_path("", "Library"), "Library");
    assert_eq!(join_path("/Users/me", "/abs"), "/abs");
    assert_eq!(cache_file_path_in("/Users/me/Library/Caches"), "/Users/me/Library/Caches/vstui/plugins.json");
}

#[test]
fn roots_include_user_directories_when_home_is_known() {
    let roots = plugin_roots_for_home(Some("/Users/me".to_string()));
    let paths: Vec<&str> = roots.iter().map(|r| r.path.as_str()).collect();
    assert_eq!(
        paths,
        vec![
            "/Library/Audio/Plug-Ins/VST",
            "/Library/Audio/Plug-Ins/VST3",
            "/Library/Audio/Plug-Ins/Components",
            "/Users/me/Library/Audio/Plug-Ins/VST",
            "/Users/me/Library/Audio/Plug-Ins/VST3",
            "/Users/me/Library/Audio/Plug-Ins/Components",
        ]
    );
    assert_eq!(roots[4].format, PluginFormat::Vst3);
    assert_eq!(roots[4].scope, PluginScope::User);
    assert_eq!(plugin_roots_for_home(None).len(), 3);
    let here = plugin_roots();
    assert!(here.len() == 3 || here.len() == 6);
    if let Ok(path) = cache_file_path() {
        assert!(path.ends_with("vstui/plugins.json"));
    }
}

#[test]
fn roots_contain_paths_by_whole_components() {
    let roots = vec![PluginRoot { path: "/a/b".to_string(), format: PluginFormat::Vst2, scope: PluginScope::System }];
    assert!(is_under_plugin_root("/a/b/X.vst", &roots));
    assert!(is_under_plugin_root("/a//b/./X.vst", &roots));
    assert!(!is_under_plugin_root("/a/bc/X.vst", &roots));
    assert!(!is_under_plugin_root("/a", &roots));
    assert!(starts_with("/a/b", "/a/b/"));
    assert!(path_eq("/a/b/", "/a//b"));
    assert!(!path_eq("/a/b", "/a/c"));
}

#[test]
fn paths_compare_by_components() {
    assert_eq!(compare_paths("/a/b", "/a-b"), -1);
    assert_eq!(compare_paths("/a-b", "/a/b"), 1);
    assert_eq!(compare_paths("/a/b/", "/a/b"), 0);
    assert_eq!(compare_paths("/a", "/a/b"), -1);
}

#[test]
fn plugins_sort_by_family_name_format_scope_and_path() {
    let list = vec![
        plugin("Zeta", PluginFormat::Vst3, PluginScope::User, "/u/Zeta.vst3", None),
        plugin("Alpha", PluginFormat::Vst3, PluginScope::User, "/u/Alpha.vst3", None),
        plugin("Alpha", PluginFormat::AudioUnit, PluginScope::User, "/u/Alpha.component", None),
        plugin("Alpha", PluginFormat::Vst2, PluginScope::User, "/u/Alpha.vst", None),
        plugin("Alpha", PluginFormat::Vst2, PluginScope::System, "/s/Alpha.vst", None),
        plugin("alpha", PluginFormat::Vst2, PluginScope::System, "/s/alpha.vst", None),
    ];
    let sorted = sort_plugins(list);
    let keys: Vec<String> = sorted.iter().map(|p| format!("{} {} {}", p.name, p.format.label(), p.scope.label())).collect();
    assert_eq!(
        keys,
        vec!["Alpha AU User", "Alpha VST2 System", "Alpha VST2 User", "Alpha VST3 User", "alpha VST2 System", "Zeta VST3 User"]
    );
    assert_eq!(compare_plugins(&sorted[0], &sorted[1]), -1);
    let again = sort_plugins(sorted.clone());
    let again_paths: Vec<&str> = again.iter().map(|p| p.path.as_str()).collect();
    let sorted_paths: Vec<&str> = sorted.iter().map(|p| p.path.as_str()).collect();
    assert_eq!(again_paths, sorted_paths);
}

#[test]
fn sorting_keeps_tied_plugins_in_order() {
    let list = vec![
        plugin("Same", PluginFormat::Vst3, PluginScope::User, "/u/Same.vst3", Some("2")),
        plugin("Other", PluginFormat::Vst3, PluginScope::User, "/u/Other.vst3", None),
        plugin("Same", PluginFormat::Vst3, PluginScope::User, "/u/Same.vst3", Some("1")),
    ];
    let sorted = sort_plugins(list);
    let versions: Vec<Option<&str>> = sorted.iter().map(|p| p.version.as_deref()).collect();
    assert_eq!(versions, vec![None, Some("2"), Some("1")]);
}

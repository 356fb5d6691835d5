use vstui::cache::{cache_from_scan, load_or_refresh_cache, PluginCache};
use vstui::layout::{centered_rect, screen_areas, Area};
use vstui::screen::{confirm_lines, notice_lines, notice_frame_title, ScreenLine, Tone};
use vstui::{
    cache_is_stale, normalize_family, roots_changed_since, App, BundleProbe, ConfirmAction, Key,
    KeyInput, KeyOutcome, Notice, Plugin, PluginFormat, PluginRoot, PluginScope,
};

fn plugin(name: &str, format: PluginFormat, path: &str) -> Plugin {
    Plugin {
        name: name.to_string(),
        family: normalize_family(name),
        format,
        scope: PluginScope::User,
        path: path.to_string(),
        version: Some("1.0".to_string()),
        modified: Some(5),
    }
}

fn sample_plugins() -> Vec<Plugin> {
    vec![
        plugin("Alpha", PluginFormat::Vst3, "/u/VST3/Alpha.vst3"),
        plugin("Alpha", PluginFormat::AudioUnit, "/u/Components/Alpha.component"),
        plugin("Beta", PluginFormat::Vst2, "/u/VST/Beta.vst"),
    ]
}

fn app_with(plugins: Vec<Plugin>) -> App {
    App::new(Vec::new(), PluginCache { version: 2, generated_at: 100, plugins })
}

fn press(c: char) -> KeyInput {
    KeyInput { key: Key::Char(c), control_only: false }
}

fn ctrl(c: char) -> KeyInput {
    KeyInput { key: Key::Char(c), control_only: true }
}

fn text(line: &ScreenLine) -> String {
    line.spans.iter().map(|s| s.text.as_str()).collect()
}

#[test]
fn a_new_app_selects_the_first_plugin() {
    let app = app_with(sample_plugins());
    assert_eq!(app.selected, 0);
    assert_eq!(app.list_selection, Some(0));
    assert_eq!(app.status, "Loaded cache from 100s since epoch");
    let empty = app_with(Vec::new());
    assert_eq!(empty.list_selection, None);
}

#[test]
fn moving_stays_inside_the_list() {
    let mut app = app_with(sample_plugins());
    assert!(matches!(app.handle_key(press('j')), KeyOutcome::Continue));
    assert_eq!(app.selected, 1);
    app.handle_key(KeyInput { key: Key::Down, control_only: false });
    app.handle_key(press('j'));
    assert_eq!(app.selected, 2);
    app.handle_key(press('k'));
    assert_eq!(app.selected, 1);
    app.handle_key(press('g'));
    assert_eq!(app.selected, 0);
    app.handle_key(KeyInput { key: Key::Up, control_only: false });
    assert_eq!(app.selected, 0);
    app.handle_key(press('G'));
    assert_eq!(app.selected, 2);
    assert_eq!(app.list_selection, Some(2));
}

#[test]
fn control_keys_scroll_the_details() {
    let mut app = app_with(sample_plugins());
    app.handle_key(ctrl('d'));
    app.handle_key(ctrl('d'));
    assert_eq!(app.details_scroll, 16);
    app.handle_key(ctrl('u'));
    assert_eq!(app.details_scroll, 8);
    app.handle_key(press('j'));
    assert_eq!(app.details_scroll, 0);
    app.handle_key(ctrl('u'));
    assert_eq!(app.details_scroll, 0);
    assert!(app.confirm.is_none());
}

#[test]
fn quitting_and_refreshing_are_left_to_the_caller() {
    let mut app = app_with(sample_plugins());
    assert!(matches!(app.handle_key(press('r')), KeyOutcome::Refresh));
    assert!(matches!(app.handle_key(press('q')), KeyOutcome::Quit));
    assert!(matches!(app.handle_key(KeyInput { key: Key::Esc, control_only: false }), KeyOutcome::Quit));
}

#[test]
fn delete_selected_asks_then_hands_over_one_plugin() {
    let mut app = app_with(sample_plugins());
    app.handle_key(press('d'));
    match &app.confirm {
        Some(ConfirmAction::DeleteSelected(p)) => assert_eq!(p.path, "/u/VST3/Alpha.vst3"),
        _ => panic!("expected a pending deletion"),
    }
    match app.handle_key(press('y')) {
        KeyOutcome::Delete(plugins) => {
            assert_eq!(plugins.len(), 1);
            assert_eq!(plugins[0].name, "Alpha");
        },
        _ => panic!("expected a deletion"),
    }
    assert!(app.confirm.is_none());
}

#[test]
fn delete_related_lists_the_whole_family() {
    let mut app = app_with(sample_plugins());
    app.handle_key(press('D'));
    match &app.confirm {
        Some(ConfirmAction::DeleteFamily { family, plugins }) => {
            assert_eq!(family, "alpha");
            assert_eq!(plugins.len(), 2);
        },
        _ => panic!("expected a family deletion"),
    }
    app.handle_key(press('x'));
    assert!(app.confirm.is_some());
    assert!(matches!(app.handle_key(press('n')), KeyOutcome::Continue));
    assert!(app.confirm.is_none());
    assert_eq!(app.status, "Delete cancelled");
}

#[test]
fn nothing_to_delete_in_an_empty_list() {
    let mut app = app_with(Vec::new());
    app.handle_key(press('d'));
    assert_eq!(app.status, "Nothing selected");
    assert!(app.confirm.is_none());
    app.handle_key(press('j'));
    assert_eq!(app.selected, 0);
}

#[test]
fn a_notice_swallows_one_key() {
    let mut app = app_with(sample_plugins());
    app.notice = Some(Notice { title: "T".to_string(), lines: vec![] });
    assert!(matches!(app.handle_key(press('j')), KeyOutcome::Continue));
    assert!(app.notice.is_none());
    assert_eq!(app.selected, 0);
    app.notice = Some(Notice { title: "T".to_string(), lines: vec![] });
    assert!(matches!(app.handle_key(press('q')), KeyOutcome::Quit));
}

#[test]
fn refresh_follows_the_selected_path() {
    let mut app = app_with(sample_plugins());
    app.handle_key(press('G'));
    let mut newer = sample_plugins();
    newer.insert(0, plugin("Aaa", PluginFormat::Vst2, "/u/VST/Aaa.vst"));
    app.refresh("Manual refresh complete", PluginCache { version: 2, generated_at: 200, plugins: newer });
    assert_eq!(app.selected, 3);
    assert_eq!(app.status, "Manual refresh complete at 200s since epoch");
    app.refresh("Manual refresh complete", PluginCache { version: 2, generated_at: 300, plugins: sample_plugins()[..1].to_vec() });
    assert_eq!(app.selected, 0);
    app.refresh("x", PluginCache { version: 2, generated_at: 300, plugins: Vec::new() });
    assert_eq!(app.selected, 0);
    assert_eq!(app.list_selection, None);
}

#[test]
fn finishing_a_delete_reports_failures() {
    let mut app = app_with(sample_plugins());
    app.finish_delete(2, Vec::new());
    assert_eq!(app.status, "Deleted 2 plugin bundle(s)");
    assert!(app.notice.is_none());
    app.finish_delete(1, vec!["/a.vst: denied".to_string()]);
    assert_eq!(app.status, "Deleted 1; failed 1");
    let notice = app.notice.as_ref().expect("a notice");
    assert_eq!(notice.title, "Delete failed");
    assert_eq!(notice.lines[0], "Deleted 1 plugin bundle(s).");
    assert_eq!(notice.lines[1], "Failed to delete 1 plugin bundle(s).");
    assert_eq!(notice.lines[5], "/a.vst: denied");
    assert_eq!(notice.lines.len(), 6);
}

#[test]
fn details_show_the_plugin_and_its_relatives() {
    let app = app_with(sample_plugins());
    let lines = app.details_lines();
    let texts: Vec<String> = lines.iter().map(text).collect();
    assert_eq!(texts[0], "Alpha 1.0");
    assert_eq!(lines[0].spans[0].tone, Tone::Strong);
    assert_eq!(texts[2], "Format: VST3");
    assert_eq!(texts[4], "Version: 1.0");
    assert_eq!(texts[5], "Modified: 5s since epoch");
    assert_eq!(texts[6], "Path: /u/VST3/Alpha.vst3");
    assert_eq!(texts[8], "Related versions");
    assert_eq!(texts[9], "- Alpha - VST3 - User - 1.0");
    assert_eq!(texts[10], "  /u/VST3/Alpha.vst3");
    assert_eq!(texts[11], "- Alpha - AU - User - 1.0");
    assert_eq!(texts.len(), 9 + 4 + 4);
    let empty = app_with(Vec::new()).details_lines();
    assert_eq!(text(&empty[0]), "No audio plugins found.");
    assert_eq!(empty.len(), 3);
}

#[test]
fn confirmation_lists_at_most_eight_plugins() {
    let many: Vec<Plugin> = (0..10).map(|i| plugin(&format!("P{i}"), PluginFormat::Vst2, &format!("/u/P{i}.vst"))).collect();
    let lines = confirm_lines(&ConfirmAction::DeleteFamily { family: "p".to_string(), plugins: many });
    let texts: Vec<String> = lines.iter().map(text).collect();
    assert_eq!(texts[0], "Delete all related versions?");
    assert_eq!(texts[2], "Family: p");
    assert_eq!(texts[4], "- P0 - VST2 - User");
    assert_eq!(texts[4 + 16], "...and 2 more");
    assert_eq!(texts.last().unwrap(), "y delete permanently, n cancel");
    assert_eq!(texts.len(), 4 + 16 + 1 + 2);
    let one = confirm_lines(&ConfirmAction::DeleteSelected(plugin("Solo", PluginFormat::Vst3, "/u/Solo.vst3")));
    assert_eq!(one.len(), 2 + 2 + 2);
    assert_eq!(text(&one[0]), "Delete selected plugin?");
}

#[test]
fn notices_end_with_how_to_dismiss() {
    let notice = Notice { title: "Delete failed".to_string(), lines: vec!["a".to_string(), "b".to_string()] };
    let lines = notice_lines(&notice);
    assert_eq!(lines.len(), 4);
    assert_eq!(text(&lines[3]), "Press any key to dismiss");
    assert_eq!(notice_frame_title(&notice), " Delete failed ");
}

#[test]
fn list_and_help_texts() {
    let app = app_with(sample_plugins());
    assert_eq!(app.plugin_list_title(), " Audio Plugins (3) ");
    let help = app.help_line();
    assert_eq!(text(&help), " j/k move   ctrl-d/ctrl-u details scroll   r refresh   d delete selected   D delete related   q quit  Loaded cache from 100s since epoch");
    let item = vstui::screen::list_item_lines(&app.plugins[2]);
    assert_eq!(text(&item[0]), "VST2 Beta 1.0");
    assert_eq!(text(&item[1]), "VST2 - User - /u/VST/Beta.vst");
}

#[test]
fn details_scroll_is_clamped_to_the_text() {
    let mut app = app_with(sample_plugins());
    app.details_scroll = 100;
    assert_eq!(app.clamp_details_scroll(17, 12), 7);
    assert_eq!(app.details_scroll, 7);
    assert_eq!(app.clamp_details_scroll(5, 12), 0);
    assert_eq!(app.details_scroll, 0);
    assert_eq!(app.clamp_details_scroll(5, 1), 5);
}

#[test]
fn staleness_follows_version_plugins_and_roots() {
    let plugins = sample_plugins();
    let fine = vec![BundleProbe { target_is_file: Some(false), info_plist_is_file: true }; 3];
    let cache = PluginCache { version: 2, generated_at: 100, plugins: plugins.clone() };
    assert!(!cache_is_stale(&cache, &fine, &vec![Some(100), None]));
    assert!(cache_is_stale(&cache, &fine, &vec![Some(101)]));
    let old = PluginCache { version: 1, generated_at: 100, plugins: plugins.clone() };
    assert!(cache_is_stale(&old, &fine, &vec![]));
    assert!(roots_changed_since(&vec![None, Some(7)], 6));
    assert!(!roots_changed_since(&vec![None, Some(7)], 7));
    let kept = load_or_refresh_cache(Some(cache), &fine, &vec![Some(50)]);
    assert_eq!(kept.map(|c| c.generated_at), Some(100));
    let stale = PluginCache { version: 2, generated_at: 100, plugins };
    assert!(load_or_refresh_cache(Some(stale), &fine, &vec![Some(500)]).is_none());
    let built = cache_from_scan(sample_plugins(), 9);
    assert_eq!(built.version, 2);
    assert_eq!(built.plugins[0].format, PluginFormat::AudioUnit);
    let now = vstui::scan_and_store_cache(sample_plugins());
    assert!(now.generated_at > 0);
    assert!(vstui::unix_now() > 1_600_000_000);
}

#[test]
fn popups_are_centred_and_panes_split() {
    let area = Area { x: 0, y: 0, width: 100, height: 100 };
    assert_eq!(centered_rect(50, 50, area), Area { x: 25, y: 25, width: 50, height: 50 });
    let screen = screen_areas(Area { x: 0, y: 0, width: 100, height: 40 });
    assert_eq!(screen.help, Area { x: 0, y: 38, width: 100, height: 2 });
    assert_eq!(screen.list, Area { x: 0, y: 0, width: 42, height: 38 });
    assert_eq!(screen.details, Area { x: 42, y: 0, width: 58, height: 38 });
}

#[test]
fn roots_listing_is_kept_with_the_app() {
    let roots = vec![PluginRoot { path: "/r".to_string(), format: PluginFormat::Vst2, scope: PluginScope::System }];
    let app = App::new(roots, PluginCache { version: 2, generated_at: 1, plugins: Vec::new() });
    assert_eq!(app.roots.len(), 1);
}

#[test]
fn y_without_a_pending_deletion_deletes_nothing() {
    let mut app = app_with(sample_plugins());
    assert!(matches!(app.handle_key(press('y')), KeyOutcome::Continue));
    app.notice = Some(Notice { title: "T".to_string(), lines: vec![] });
    app.confirm = Some(ConfirmAction::DeleteSelected(sample_plugins().remove(0)));
    assert!(matches!(app.handle_key(press('y')), KeyOutcome::Continue));
    assert!(app.confirm.is_some());
}

#[test]
fn delete_related_matches_the_related_versions_shown() {
    let mut app = app_with(sample_plugins());
    let shown = app.details_lines().iter().map(text).filter(|t| t.starts_with("- ")).count();
    app.handle_key(press('D'));
    match &app.confirm {
        Some(ConfirmAction::DeleteFamily { plugins, .. }) => assert_eq!(plugins.len(), shown),
        _ => panic!("expected a family deletion"),
    }
}

#[test]
fn distinct_times_read_differently() {
    assert_ne!(vstui::format_unix_time(12), vstui::format_unix_time(120));
    assert_ne!(vstui::format_unix_time(1), vstui::format_unix_time(11));
}

#[test]
fn clock_readings_become_whole_epoch_seconds() {
    let later = std::time::UNIX_EPOCH + std::time::Duration::from_millis(90_750);
    assert_eq!(vstui::system_time_to_unix(later), Some(90));
    let earlier = std::time::UNIX_EPOCH - std::time::Duration::from_secs(5);
    assert_eq!(vstui::system_time_to_unix(earlier), None);
    assert_eq!(vstui::system_time_to_unix(std::time::UNIX_EPOCH), Some(0));
    assert_eq!(vstui::modified_unix(Some(later)), Some(90));
    assert_eq!(vstui::modified_unix(Some(earlier)), None);
    assert_eq!(vstui::modified_unix(None), None);
}

#[test]
fn deletions_are_tallied_in_order() {
    let plugins = sample_plugins();
    let outcomes = vec![Err("permission denied".to_string()), Ok(()), Err("busy".to_string())];
    let report = vstui::remove::tally_deletions(&plugins, &outcomes);
    assert_eq!(report.deleted, 1);
    assert_eq!(
        report.failures,
        vec![
            "/u/VST3/Alpha.vst3: permission denied".to_string(),
            "/u/VST/Beta.vst: busy".to_string(),
        ]
    );
    let none = vstui::remove::tally_deletions(&Vec::new(), &Vec::new());
    assert_eq!(none.deleted, 0);
    assert!(none.failures.is_empty());
}

#[test]
fn refresh_status_names_the_reason() {
    let mut app = app_with(sample_plugins());
    app.manual_refresh(PluginCache { version: 2, generated_at: 7, plugins: sample_plugins() });
    assert_eq!(app.status, "Manual refresh complete at 7s since epoch");
    app.refresh_after_root_change(PluginCache { version: 2, generated_at: 8, plugins: sample_plugins() });
    assert_eq!(app.status, "Plugin directory changed; cache refreshed at 8s since epoch");
}

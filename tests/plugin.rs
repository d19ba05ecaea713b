use lapce_plugin::plugin_data::{
    PluginAction, PluginData, PluginNotification, PluginStatus, DOWNLOAD_FAILED, NO_DIRECTORY,
    NO_README, REMOVE_FAILED,
};
use lapce_plugin::volt::{PluginOperation, PluginsInfo, VoltInfo, VoltMetadata};
use lapce_plugin::volts_list::{PluginLoadStatus, VoltsList};

fn info(author: &str, name: &str, version: &str) -> VoltInfo {
    VoltInfo {
        name: name.to_string(),
        version: version.to_string(),
        display_name: name.to_string(),
        author: author.to_string(),
        description: String::new(),
        repository: None,
        wasm: false,
    }
}

fn meta(author: &str, name: &str, version: &str) -> VoltMetadata {
    VoltMetadata {
        name: name.to_string(),
        version: version.to_string(),
        display_name: name.to_string(),
        author: author.to_string(),
        description: String::new(),
        repository: None,
        wasm: None,
        dir: Some(format!("/plugins/{author}.{name}")),
    }
}

fn page(plugins: Vec<VoltInfo>, total: usize) -> PluginsInfo {
    PluginsInfo { plugins, total }
}

fn version_of(list: &VoltsList, id: &str) -> Option<String> {
    list.volts.get(id).map(|v| v.version.clone())
}

#[test]
fn id_joins_author_and_name() {
    assert_eq!(info("lapce", "rust", "1").id(), "lapce.rust");
    assert_eq!(meta("a", "b", "1").id(), "a.b");
}

#[test]
fn new_catalog_is_empty_and_loading() {
    let list = VoltsList::new();
    assert_eq!(list.query, "");
    assert_eq!(list.len(), 0);
    assert_eq!(list.total, 0);
    assert!(list.status == PluginLoadStatus::Loading);
    let first = list.first_page();
    assert_eq!(first.query, "");
    assert_eq!(first.offset, 0);
    assert!(first.fresh);
}

#[test]
fn update_query_twice_resets_once() {
    let mut list = VoltsList::new();
    let first = list.update_query("rust".to_string());
    let req = first.expect("a new query launches a fetch");
    assert_eq!(req.query, "rust");
    assert_eq!(req.offset, 0);
    assert!(req.fresh);
    assert!(list.update_volts(req.generation, &page(vec![info("a", "x", "1")], 3)));
    assert_eq!(list.len(), 1);
    let second = list.update_query("rust".to_string());
    assert!(second.is_none());
    assert_eq!(list.len(), 1);
    assert_eq!(list.total, 3);
    assert!(list.status == PluginLoadStatus::Success);
}

#[test]
fn update_query_resets_entries_total_and_status() {
    let mut list = VoltsList::new();
    assert!(list.update_volts(0, &page(vec![info("a", "x", "1")], 4)));
    let req = list.update_query("go".to_string()).unwrap();
    assert_eq!(list.len(), 0);
    assert_eq!(list.total, 0);
    assert!(list.status == PluginLoadStatus::Loading);
    assert_eq!(req.generation, list.generation);
    assert_ne!(req.generation, 0);
}

#[test]
fn load_more_calls_coalesce() {
    let mut list = VoltsList::new();
    assert!(list.update_volts(0, &page(vec![info("a", "x", "1")], 10)));
    let first = list.load_more();
    assert!(first.is_some());
    for _ in 0..5 {
        assert!(list.load_more().is_none());
    }
    assert!(list.loading);
}

#[test]
fn load_more_is_noop_when_all_loaded() {
    let mut list = VoltsList::new();
    assert!(list.update_volts(0, &page(vec![info("a", "x", "1")], 1)));
    assert!(list.load_more().is_none());
    assert!(!list.loading);
}

#[test]
fn merge_keeps_one_entry_per_id_last_write_wins() {
    let mut list = VoltsList::new();
    assert!(list.update_volts(
        0,
        &page(vec![info("a", "x", "1"), info("b", "y", "1"), info("a", "x", "2")], 10)
    ));
    assert_eq!(list.len(), 2);
    assert_eq!(version_of(&list, "a.x").as_deref(), Some("2"));
    assert!(list.update_volts(0, &page(vec![info("b", "y", "3"), info("c", "z", "1")], 10)));
    assert_eq!(list.len(), 3);
    assert_eq!(version_of(&list, "b.y").as_deref(), Some("3"));
    assert_eq!(version_of(&list, "a.x").as_deref(), Some("2"));
    let order: Vec<&String> = list.volts.keys().collect();
    assert_eq!(order, vec!["a.x", "b.y", "c.z"]);
}

#[test]
fn len_stays_within_total() {
    let mut list = VoltsList::new();
    assert!(list.update_volts(0, &page(vec![info("a", "x", "1"), info("b", "y", "1")], 4)));
    assert!(list.len() <= list.total);
    let req = list.load_more().unwrap();
    assert!(list.update_volts(req.generation, &page(vec![info("c", "z", "1"), info("a", "x", "2")], 4)));
    assert_eq!(list.len(), 3);
    assert!(list.len() <= list.total);
}

#[test]
fn first_page_then_load_more_at_offset_two() {
    let mut list = VoltsList::new();
    let first = list.first_page();
    assert!(list.update_volts(first.generation, &page(vec![info("a", "a", "v1"), info("b", "b", "v1")], 5)));
    assert_eq!(list.len(), 2);
    assert_eq!(list.total, 5);
    let req = list.load_more().unwrap();
    assert_eq!(req.offset, 2);
    assert_eq!(req.query, "");
    assert!(!req.fresh);
}

#[test]
fn load_more_failure_releases_guard_only() {
    let mut list = VoltsList::new();
    assert!(list.update_volts(0, &page(vec![info("a", "a", "v1"), info("b", "b", "v1")], 5)));
    let req = list.load_more().unwrap();
    assert!(list.loading);
    list.load_more_failed(req.generation);
    assert!(!list.loading);
    assert!(list.status == PluginLoadStatus::Success);
    assert_eq!(list.len(), 2);
    assert_eq!(list.total, 5);
    let retry = list.load_more().unwrap();
    assert_eq!(retry.offset, 2);
}

#[test]
fn fresh_failure_sets_failed() {
    let mut list = VoltsList::new();
    let req = list.update_query("x".to_string()).unwrap();
    list.failed(req.generation);
    assert!(list.status == PluginLoadStatus::Failed);
}

#[test]
fn stale_results_are_dropped() {
    let mut list = VoltsList::new();
    let old = list.update_query("a".to_string()).unwrap();
    let new = list.update_query("b".to_string()).unwrap();
    assert!(!list.update_volts(old.generation, &page(vec![info("a", "x", "1")], 1)));
    assert_eq!(list.len(), 0);
    list.failed(old.generation);
    assert!(list.status == PluginLoadStatus::Loading);
    assert!(list.update_volts(new.generation, &page(vec![info("b", "y", "1")], 1)));
    assert_eq!(list.len(), 1);
}

#[test]
fn disabled_wins_over_installed() {
    let mut data = PluginData::new(vec!["a.x".to_string()], vec!["a.x".to_string()]);
    data.volt_installed(meta("a", "x", "1"));
    assert!(data.volts.update_volts(0, &page(vec![info("a", "x", "1")], 1)));
    assert!(data.plugin_disabled("a.x"));
    assert!(data.plugin_status("a.x") == PluginStatus::Disabled);
}

#[test]
fn workspace_disable_alone_disables() {
    let data = PluginData::new(vec![], vec!["b.y".to_string()]);
    assert!(data.plugin_disabled("b.y"));
    assert!(!data.plugin_disabled("a.x"));
    assert!(data.plugin_status("b.y") == PluginStatus::Disabled);
}

#[test]
fn upgrade_detected_on_version_change() {
    let mut data = PluginData::new(vec![], vec![]);
    data.volt_installed(meta("a", "x", "0.1.0"));
    assert!(data.volts.update_volts(0, &page(vec![info("a", "x", "0.2.0")], 1)));
    assert!(data.plugin_status("a.x") == PluginStatus::Upgrade);
}

#[test]
fn installed_and_install_status() {
    let mut data = PluginData::new(vec![], vec![]);
    data.volt_installed(meta("a", "x", "0.1.0"));
    assert!(data.plugin_status("a.x") == PluginStatus::Installed);
    assert!(data.volts.update_volts(0, &page(vec![info("a", "x", "0.1.0"), info("b", "y", "1")], 2)));
    assert!(data.plugin_status("a.x") == PluginStatus::Installed);
    assert!(data.plugin_status("b.y") == PluginStatus::Install);
}

#[test]
fn scan_announces_packages_without_module() {
    let mut with_module = meta("a", "w", "1");
    with_module.wasm = Some("plugin.wasm".to_string());
    let found = vec![meta("a", "x", "1"), with_module, meta("b", "y", "2")];
    let announced = PluginData::load(&found);
    let ids: Vec<String> = announced.iter().map(|m| m.id()).collect();
    assert_eq!(ids, vec!["a.x".to_string(), "b.y".to_string()]);
}

#[test]
fn readme_404_gives_placeholder() {
    let text = PluginData::download_readme(404, "Not Found".to_string());
    assert_eq!(text, NO_README);
    assert_eq!(text, "Plugin doesn't have a README");
}

#[test]
fn readme_200_gives_body() {
    let text = PluginData::download_readme(200, "# Title".to_string());
    assert_eq!(text, "# Title");
}

#[test]
fn install_with_module_goes_to_backend() {
    let mut volt = info("a", "x", "1");
    volt.wasm = true;
    let actions = PluginData::install_volt(volt);
    assert_eq!(actions.len(), 2);
    match &actions[0] {
        PluginAction::Notify(PluginNotification::VoltInstalling(v, e)) => {
            assert_eq!(v.id(), "a.x");
            assert!(e.is_empty());
        }
        _ => panic!("expected an installing notification"),
    }
    assert!(matches!(&actions[1], PluginAction::BackendInstall(v) if v.id() == "a.x"));
}

#[test]
fn install_without_module_downloads() {
    let actions = PluginData::install_volt(info("a", "x", "1"));
    assert!(matches!(&actions[1], PluginAction::Download(v) if v.id() == "a.x"));
}

#[test]
fn download_failure_reports_error() {
    match PluginData::download_finished(info("a", "x", "1"), None) {
        PluginNotification::VoltInstalling(v, e) => {
            assert_eq!(v.id(), "a.x");
            assert_eq!(e, DOWNLOAD_FAILED);
            assert_eq!(e, "Could not download Plugin");
        }
        _ => panic!("expected an installing notification with an error"),
    }
}

#[test]
fn download_success_reports_installed() {
    match PluginData::download_finished(info("a", "x", "1"), Some(meta("a", "x", "1"))) {
        PluginNotification::VoltInstalled(m, module) => {
            assert_eq!(m.id(), "a.x");
            assert!(!module);
        }
        _ => panic!("expected an installed notification"),
    }
}

#[test]
fn remove_without_directory_reports_error() {
    let mut m = meta("a", "x", "1");
    m.dir = None;
    let actions = PluginData::remove_volt(m);
    assert_eq!(actions.len(), 2);
    assert!(matches!(
        &actions[0],
        PluginAction::Notify(PluginNotification::VoltRemoving(_, e)) if e.is_empty()
    ));
    match &actions[1] {
        PluginAction::Notify(PluginNotification::VoltRemoving(m, e)) => {
            assert_eq!(m.id(), "a.x");
            assert_eq!(e, NO_DIRECTORY);
        }
        _ => panic!("expected a removing notification with an error"),
    }
    assert!(!actions.iter().any(|a| matches!(a, PluginAction::RemoveDir(_, _))));
    assert!(!actions
        .iter()
        .any(|a| matches!(a, PluginAction::Notify(PluginNotification::VoltRemoved(_, _)))));
}

#[test]
fn remove_with_directory_deletes_it() {
    let actions = PluginData::remove_volt(meta("a", "x", "1"));
    assert!(matches!(&actions[1], PluginAction::RemoveDir(m, d) if m.id() == "a.x" && d == "/plugins/a.x"));
}

#[test]
fn remove_with_module_goes_to_backend() {
    let mut m = meta("a", "x", "1");
    m.wasm = Some("plugin.wasm".to_string());
    let actions = PluginData::remove_volt(m);
    assert!(matches!(&actions[1], PluginAction::BackendRemove(m) if m.id() == "a.x"));
}

#[test]
fn remove_finished_reports_outcome() {
    match PluginData::remove_finished(meta("a", "x", "1"), true) {
        PluginNotification::VoltRemoved(v, module) => {
            assert_eq!(v.id(), "a.x");
            assert!(!v.wasm);
            assert!(!module);
        }
        _ => panic!("expected a removed notification"),
    }
    match PluginData::remove_finished(meta("a", "x", "1"), false) {
        PluginNotification::VoltRemoving(_, e) => assert_eq!(e, REMOVE_FAILED),
        _ => panic!("expected a removing notification with an error"),
    }
}

#[test]
fn record_tracks_installs_and_removals() {
    let mut data = PluginData::new(vec![], vec![]);
    data.record(&PluginNotification::VoltInstalled(meta("a", "x", "1"), false));
    data.record(&PluginNotification::VoltInstalled(meta("b", "y", "1"), false));
    assert!(data.plugin_status("a.x") == PluginStatus::Installed);
    data.record(&PluginNotification::VoltInstalling(info("c", "z", "1"), String::new()));
    assert!(data.plugin_status("c.z") == PluginStatus::Install);
    data.record(&PluginNotification::VoltRemoved(info("a", "x", "1"), false));
    assert!(data.plugin_status("a.x") == PluginStatus::Install);
    assert!(data.plugin_status("b.y") == PluginStatus::Installed);
    let order: Vec<&String> = data.installed.keys().collect();
    assert_eq!(order, vec!["b.y"]);
}

#[test]
fn volt_removed_keeps_order_of_the_rest() {
    let mut data = PluginData::new(vec![], vec![]);
    data.volt_installed(meta("a", "x", "1"));
    data.volt_installed(meta("b", "y", "1"));
    data.volt_installed(meta("c", "z", "1"));
    data.volt_removed("b.y");
    data.volt_removed("missing.id");
    let order: Vec<&String> = data.installed.keys().collect();
    assert_eq!(order, vec!["a.x", "c.z"]);
}

#[test]
fn new_registry_starts_loading_with_nothing_in_progress() {
    let data = PluginData::new(vec!["a.x".to_string()], vec![]);
    assert!(data.volts.status == PluginLoadStatus::Loading);
    assert_eq!(data.volts.query, "");
    assert_eq!(data.volts.len(), 0);
    assert_eq!(data.volts.total, 0);
    assert_eq!(data.volts.generation, 0);
    assert!(data.installed.is_empty());
    assert!(data.installing.is_empty());
}

#[test]
fn record_tracks_operations_in_progress() {
    let mut data = PluginData::new(vec![], vec![]);
    data.record(&PluginNotification::VoltInstalling(info("a", "x", "1"), String::new()));
    let status = data.installing.get("a.x").unwrap();
    assert!(status.operation == PluginOperation::Install);
    assert!(status.error.is_empty());
    data.record(&PluginNotification::VoltInstalling(info("a", "x", "1"), DOWNLOAD_FAILED.to_string()));
    assert_eq!(data.installing.len(), 1);
    assert_eq!(data.installing.get("a.x").unwrap().error, DOWNLOAD_FAILED);
    data.record(&PluginNotification::VoltInstalled(meta("a", "x", "1"), false));
    assert!(data.installing.get("a.x").is_none());
    data.record(&PluginNotification::VoltRemoving(meta("a", "x", "1"), String::new()));
    assert!(data.installing.get("a.x").unwrap().operation == PluginOperation::Remove);
    data.record(&PluginNotification::VoltRemoved(info("a", "x", "1"), false));
    assert!(data.installing.is_empty());
    assert!(data.installed.is_empty());
}

#[test]
fn fetch_finished_applies_a_page() {
    let mut list = VoltsList::new();
    let first = list.first_page();
    assert!(list.fetch_finished(&first, Some(page(vec![info("a", "x", "1")], 3))));
    assert_eq!(list.len(), 1);
    assert_eq!(list.total, 3);
    assert!(list.status == PluginLoadStatus::Success);
}

#[test]
fn fetch_finished_failed_first_page_sets_failed() {
    let mut list = VoltsList::new();
    let first = list.first_page();
    assert!(!list.fetch_finished(&first, None));
    assert!(list.status == PluginLoadStatus::Failed);
}

#[test]
fn fetch_finished_failed_further_page_frees_guard() {
    let mut list = VoltsList::new();
    assert!(list.update_volts(0, &page(vec![info("a", "x", "1")], 4)));
    let more = list.load_more().unwrap();
    assert!(!list.fetch_finished(&more, None));
    assert!(!list.loading);
    assert!(list.status == PluginLoadStatus::Success);
    assert_eq!(list.len(), 1);
    assert_eq!(list.total, 4);
}

#[test]
fn fetch_finished_drops_stale_outcomes() {
    let mut list = VoltsList::new();
    let old = list.first_page();
    list.update_query("q".to_string()).unwrap();
    assert!(!list.fetch_finished(&old, Some(page(vec![info("a", "x", "1")], 1))));
    assert!(!list.fetch_finished(&old, None));
    assert_eq!(list.len(), 0);
    assert!(list.status == PluginLoadStatus::Loading);
}

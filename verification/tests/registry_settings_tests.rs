//! Tests for the source registry and the settings helpers.

use rakuyomi_core::model::SourceKind;
use rakuyomi_core::registry::{
    aix_filename, aix_relative_path, append_remote_sources, builtin_sources, mark_installed,
    resolve_source, RemoteSource,
};
use rakuyomi_core::settings::{get_default_settings, get_source_settings_path};

#[test]
fn resolve_knows_the_builtin_sources() {
    assert_eq!(resolve_source(b"en.mangapill"), Some(SourceKind::MangaPill));
    assert_eq!(
        resolve_source(b"en.weebcentral"),
        Some(SourceKind::WeebCentral)
    );
    assert_eq!(resolve_source(b"en.unknown"), None);
    assert_eq!(resolve_source(b""), None);
}

#[test]
fn builtin_catalogue_is_always_installed() {
    let sources = builtin_sources();
    assert_eq!(sources.len(), 2);
    assert_eq!(sources[0].id, b"en.mangapill".to_vec());
    assert_eq!(sources[0].name, b"MangaPill".to_vec());
    assert_eq!(sources[0].lang, b"en".to_vec());
    assert_eq!(sources[0].source_of_source, b"built-in".to_vec());
    assert!(sources[0].installed);
    assert_eq!(sources[0].version, b"1.0.0".to_vec());
    assert_eq!(sources[1].id, b"en.weebcentral".to_vec());
    assert_eq!(sources[1].name, b"WeebCentral".to_vec());
    assert!(sources[1].installed);
}

#[test]
fn remote_sources_join_the_catalogue_uninstalled() {
    let mut all = builtin_sources();
    let items = vec![RemoteSource {
        id: b"en.other".to_vec(),
        name: b"Other".to_vec(),
        lang: b"en".to_vec(),
        version: b"0.2".to_vec(),
    }];
    append_remote_sources(&mut all, items, b"lists.example");
    assert_eq!(all.len(), 3);
    assert_eq!(all[2].id, b"en.other".to_vec());
    assert_eq!(all[2].source_of_source, b"lists.example".to_vec());
    assert!(!all[2].installed);

    let marked = mark_installed(all, b"en.other");
    assert!(marked[2].installed);
    assert!(marked[0].installed);
    assert_eq!(marked[2].id, b"en.other".to_vec());
}

#[test]
fn package_paths_follow_the_layout() {
    assert_eq!(
        aix_relative_path(b"sources/en.other.aix"),
        b"sources/en.other.aix".to_vec()
    );
    assert_eq!(
        aix_relative_path(b"en.other.aix"),
        b"sources/en.other.aix".to_vec()
    );
    assert_eq!(aix_filename(b"en.other"), b"en.other.aix".to_vec());
}

#[test]
fn default_settings_are_valid_json() {
    let s = get_default_settings();
    let v: serde_json::Value = serde_json::from_str(&s).expect("valid settings document");
    assert!(v["preload_chapters"] == 0);
    assert!(v["optimize_image"] == false);
    assert!(v["source_lists"].as_array().expect("array").is_empty());
    assert!(v["storage_path"].is_null());
}

#[test]
fn source_settings_path_lives_under_the_config_dir() {
    assert_eq!(
        get_source_settings_path("/data/config", "en.mangapill"),
        "/data/config/sources/en.mangapill.settings.json"
    );
}

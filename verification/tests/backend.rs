use ion_core::engine::backend::{
    Candidate, Config, EntryPoint, Exports, Manager, Plugin, ScanPlan, Selection, State, Type,
    Verdict,
};
use ion_core::engine::{BackendConfig, BackendManager, PluginState, PluginType};
use ion_core::util::{Platform, Version};

fn exports(name: &str, backend_type: Type) -> Exports {
    Exports {
        name: Some(name.to_string()),
        author: Some("someone".to_string()),
        description: Some("a backend".to_string()),
        version: Some(Version { major: 1, minor: 2, patch: 3 }),
        backend_type: Some(backend_type),
    }
}

fn candidate(path: &str, name: &str, backend_type: Type) -> Candidate {
    Candidate { path: path.to_string(), module: Some(exports(name, backend_type)) }
}

fn scanned(candidates: Vec<Candidate>) -> Manager {
    let mut manager = Manager::new(Platform::Linux);
    manager.query_backend_dir(true, &candidates);
    manager
}

#[test]
fn scan_keeps_complete_modules_only() {
    let mut incomplete = exports("broken", Type::Window);
    incomplete.version = None;
    let candidates = vec![
        candidate("backend/good.so", "good", Type::Window),
        Candidate { path: "backend/broken.so".to_string(), module: Some(incomplete) },
    ];
    let mut manager = Manager::new(Platform::Linux);
    let report = manager.query_backend_dir(true, &candidates);
    assert_eq!(manager.backend_count(), 1);
    assert_eq!(report, vec![Verdict::Added, Verdict::Missing(EntryPoint::GetVersion)]);
    let entry = manager.backend_at(0).unwrap();
    assert_eq!(entry.name, "good");
    assert_eq!(entry.author, "someone");
    assert_eq!(entry.description, "a backend");
    assert_eq!(entry.version, Version { major: 1, minor: 2, patch: 3 });
    assert_eq!(entry.path, "backend/good.so");
    assert_eq!(entry.backend_type, Type::Window);
    assert_eq!(entry.state, State::Unloaded);
    assert!(manager.backend_at(1).is_none());
}

#[test]
fn scan_goes_on_after_a_module_that_fails_to_load() {
    let candidates = vec![
        Candidate { path: "backend/junk.so".to_string(), module: None },
        candidate("backend/a.so", "a", Type::Audio),
        candidate("backend/b.so", "b", Type::Renderer),
    ];
    let mut manager = Manager::new(Platform::Linux);
    let report = manager.query_backend_dir(true, &candidates);
    assert_eq!(report, vec![Verdict::LoadFailed, Verdict::Added, Verdict::Added]);
    assert_eq!(manager.backend_count(), 2);
    assert_eq!(manager.backend_at(0).unwrap().name, "a");
    assert_eq!(manager.backend_at(1).unwrap().name, "b");
}

#[test]
fn scan_names_the_first_missing_entry_point() {
    let mut no_name = exports("x", Type::Window);
    no_name.name = None;
    no_name.backend_type = None;
    let mut no_author = exports("x", Type::Window);
    no_author.author = None;
    let mut no_description = exports("x", Type::Window);
    no_description.description = None;
    let mut no_type = exports("x", Type::Window);
    no_type.backend_type = None;
    assert_eq!(no_name.first_missing(), Some(EntryPoint::GetName));
    assert_eq!(no_author.first_missing(), Some(EntryPoint::GetAuthor));
    assert_eq!(no_description.first_missing(), Some(EntryPoint::GetDescription));
    assert_eq!(no_type.first_missing(), Some(EntryPoint::GetType));
    assert!(!no_type.is_complete());
    assert!(exports("x", Type::Window).is_complete());
    assert_eq!(exports("x", Type::Window).first_missing(), None);
    let candidates = vec![
        Candidate { path: "1.so".to_string(), module: Some(no_name) },
        Candidate { path: "2.so".to_string(), module: Some(no_type) },
    ];
    let mut manager = Manager::new(Platform::Linux);
    let report = manager.query_backend_dir(true, &candidates);
    assert_eq!(
        report,
        vec![Verdict::Missing(EntryPoint::GetName), Verdict::Missing(EntryPoint::GetType)]
    );
    assert_eq!(manager.backend_count(), 0);
}

#[test]
fn entry_points_have_their_symbols() {
    assert_eq!(EntryPoint::GetName.symbol(), "get_name");
    assert_eq!(EntryPoint::GetAuthor.symbol(), "get_author");
    assert_eq!(EntryPoint::GetDescription.symbol(), "get_description");
    assert_eq!(EntryPoint::GetVersion.symbol(), "get_version");
    assert_eq!(EntryPoint::GetType.symbol(), "get_type");
}

#[test]
fn scan_keeps_one_entry_for_each_path() {
    let candidates = vec![
        candidate("backend/a.so", "first", Type::Window),
        candidate("backend/a.so", "second", Type::Window),
        candidate("backend/b.so", "first", Type::Window),
    ];
    let mut manager = Manager::new(Platform::Linux);
    let report = manager.query_backend_dir(true, &candidates);
    assert_eq!(report, vec![Verdict::Added, Verdict::Duplicate, Verdict::Added]);
    assert_eq!(manager.backend_count(), 2);
    assert_eq!(manager.backend_at(0).unwrap().path, "backend/a.so");
    assert_eq!(manager.backend_at(0).unwrap().name, "first");
    assert_eq!(manager.backend_at(1).unwrap().path, "backend/b.so");
}

#[test]
fn scan_discards_the_old_catalog() {
    let mut manager = scanned(vec![
        candidate("a.so", "a", Type::Window),
        candidate("b.so", "b", Type::Window),
    ]);
    manager.set_backend_state("a", State::Active);
    let report = manager.query_backend_dir(true, &vec![candidate("c.so", "c", Type::Input)]);
    assert_eq!(report, vec![Verdict::Added]);
    assert_eq!(manager.backend_count(), 1);
    assert_eq!(manager.backend_at(0).unwrap().name, "c");
    let report = manager.query_backend_dir(true, &Vec::new());
    assert!(report.is_empty());
    assert_eq!(manager.backend_count(), 0);
}

#[test]
fn absent_directory_gives_an_empty_catalog_and_the_fallback() {
    let mut manager = scanned(vec![candidate("a.so", "a", Type::Window)]);
    match manager.plan_query(false) {
        ScanPlan::CreateDirectory(dir) => assert_eq!(dir, "backend"),
        ScanPlan::Search(_) => panic!("nothing to search"),
    }
    let report = manager.query_backend_dir(false, &vec![candidate("a.so", "a", Type::Window)]);
    assert!(report.is_empty());
    assert_eq!(manager.backend_count(), 0);
    let chosen = manager.get_default_backend(Type::Window);
    assert_eq!(chosen.name, "Fallback");
    assert_eq!(chosen.state, State::Unloaded);
    assert!(chosen.is_fallback());
}

#[test]
fn search_pattern_joins_directory_and_extension() {
    let linux = Manager::new(Platform::Linux);
    match linux.plan_query(true) {
        ScanPlan::Search(pattern) => assert_eq!(pattern, "backend/*.so"),
        ScanPlan::CreateDirectory(_) => panic!("the directory exists"),
    }
    let mut windows = Manager::new(Platform::Windows);
    let mut config = Config::default();
    config.backend_dir = "bin/plugins".to_string();
    windows.load_config(config);
    match windows.plan_query(true) {
        ScanPlan::Search(pattern) => assert_eq!(pattern, "bin/plugins/*.dll"),
        ScanPlan::CreateDirectory(_) => panic!("the directory exists"),
    }
    match Manager::new(Platform::MacOs).plan_query(true) {
        ScanPlan::Search(pattern) => assert_eq!(pattern, "backend/*.dylib"),
        ScanPlan::CreateDirectory(_) => panic!("the directory exists"),
    }
}

#[test]
fn platform_extensions() {
    assert_eq!(Platform::Windows.module_extension(), ".dll");
    assert_eq!(Platform::Linux.module_extension(), ".so");
    assert_eq!(Platform::MacOs.module_extension(), ".dylib");
}

#[test]
fn resolve_without_backend_of_the_type_gives_the_fallback() {
    let manager = scanned(vec![
        candidate("a.so", "a", Type::Audio),
        candidate("r.so", "r", Type::Renderer),
    ]);
    for backend_type in [Type::Window, Type::Input] {
        let chosen = manager.get_default_backend(backend_type);
        assert_eq!(chosen.name, "Fallback");
        assert_eq!(chosen.author, "Fallback");
        assert_eq!(chosen.description, "Fallback");
        assert_eq!(chosen.path, "Fallback");
        assert_eq!(chosen.version, Version { major: 0, minor: 0, patch: 0 });
        assert_eq!(chosen.backend_type, backend_type);
        assert_eq!(chosen.state, State::Unloaded);
    }
    let empty = Manager::new(Platform::Linux);
    for backend_type in [Type::Audio, Type::Renderer, Type::Window, Type::Input] {
        assert!(empty.get_default_backend(backend_type).is_fallback());
    }
}

#[test]
fn resolve_with_unknown_configured_name_falls_back_to_the_type() {
    let mut manager = scanned(vec![
        candidate("a.so", "a", Type::Audio),
        candidate("w1.so", "w1", Type::Window),
        candidate("w2.so", "w2", Type::Window),
    ]);
    let mut config = Config::default();
    config.default_backend[Type::Window.index()] = "gone".to_string();
    config.default_backend[Type::Input.index()] = "gone".to_string();
    manager.load_config(config);
    assert_eq!(manager.get_default_backend(Type::Window).name, "w1");
    assert!(manager.get_default_backend(Type::Input).is_fallback());
}

#[test]
fn resolve_picks_the_first_backend_of_the_type_by_default() {
    let manager = scanned(vec![
        candidate("a.so", "a", Type::Audio),
        candidate("w1.so", "w1", Type::Window),
        candidate("w2.so", "w2", Type::Window),
    ]);
    assert_eq!(manager.get_default_backend(Type::Window).name, "w1");
    assert_eq!(manager.get_default_backend(Type::Audio).name, "a");
}

#[test]
fn resolve_prefers_the_configured_name() {
    let mut manager = scanned(vec![
        candidate("w1.so", "w1", Type::Window),
        candidate("w2.so", "w2", Type::Window),
        candidate("w3.so", "w3", Type::Window),
    ]);
    let mut config = Config::default();
    config.default_backend[Type::Window.index()] = "w3".to_string();
    manager.load_config(config);
    let chosen = manager.get_default_backend(Type::Window);
    assert_eq!(chosen.name, "w3");
    assert_eq!(chosen.path, "w3.so");
}

#[test]
fn resolve_takes_a_configured_name_of_another_type() {
    let mut manager = scanned(vec![candidate("w.so", "w", Type::Window)]);
    let mut config = Config::default();
    config.default_backend[Type::Audio.index()] = "w".to_string();
    manager.load_config(config);
    let chosen = manager.get_default_backend(Type::Audio);
    assert_eq!(chosen.name, "w");
    assert_eq!(chosen.backend_type, Type::Window);
}

#[test]
fn every_spelling_of_the_sentinel_selects_automatically() {
    for word in ["none", "fallback"] {
        let mut manager = scanned(vec![
            candidate("w1.so", "w1", Type::Window),
            candidate("n.so", word, Type::Window),
        ]);
        let mut config = Config::default();
        config.default_backend[Type::Window.index()] = word.to_string();
        manager.load_config(config);
        assert_eq!(manager.get_default_backend(Type::Window).name, "w1");
        assert_eq!(manager.explain_default_backend(Type::Window), (Selection::ByType, false));
    }
}

#[test]
fn other_spellings_name_a_backend() {
    for word in ["None", "Fallback", "NONE", "FALLBACK", "none ", ""] {
        let mut manager = scanned(vec![
            candidate("w1.so", "w1", Type::Window),
            candidate("n.so", word, Type::Window),
        ]);
        let mut config = Config::default();
        config.default_backend[Type::Window.index()] = word.to_string();
        manager.load_config(config);
        let chosen = manager.get_default_backend(Type::Window);
        assert_eq!(chosen.name, word);
        assert_eq!(chosen.path, "n.so");
        assert_eq!(manager.explain_default_backend(Type::Window), (Selection::ByName, false));
    }
}

#[test]
fn a_backend_named_like_the_fallback_can_be_set_as_default() {
    let mut manager = scanned(vec![
        candidate("alpha.so", "alpha", Type::Window),
        candidate("f.so", "Fallback", Type::Window),
    ]);
    assert!(manager.set_default_backend(Type::Window, "Fallback"));
    let chosen = manager.get_default_backend(Type::Window);
    assert_eq!(chosen.name, "Fallback");
    assert_eq!(chosen.path, "f.so");
    assert!(!chosen.is_fallback());
}

#[test]
fn set_default_then_resolve_gives_the_backend_that_was_set() {
    let mut manager = scanned(vec![
        candidate("w1.so", "w1", Type::Window),
        candidate("w2.so", "w2", Type::Window),
        candidate("a.so", "a", Type::Audio),
    ]);
    assert!(manager.set_default_backend(Type::Window, "w2"));
    let chosen = manager.get_default_backend(Type::Window);
    assert_eq!(chosen.name, "w2");
    assert_eq!(chosen.path, "w2.so");
    assert_eq!(manager.get_default_backend(Type::Audio).name, "a");
    let saved = manager.save_config();
    assert_eq!(saved.backend_dir, "backend");
    assert_eq!(saved.default_backend[Type::Window.index()], "w2");
    assert_eq!(saved.default_backend[Type::Audio.index()], "none");
    assert_eq!(saved.default_backend[Type::Renderer.index()], "none");
    assert_eq!(saved.default_backend[Type::Input.index()], "none");
}

#[test]
fn set_default_survives_a_new_scan_that_still_finds_the_backend() {
    let mut manager = scanned(vec![
        candidate("w1.so", "w1", Type::Window),
        candidate("w2.so", "w2", Type::Window),
    ]);
    assert!(manager.set_default_backend(Type::Window, "w2"));
    manager.query_backend_dir(
        true,
        &vec![
            candidate("w0.so", "w0", Type::Window),
            candidate("elsewhere/w2.so", "w2", Type::Window),
        ],
    );
    assert_eq!(manager.get_default_backend(Type::Window).path, "elsewhere/w2.so");
    manager.query_backend_dir(true, &vec![candidate("w0.so", "w0", Type::Window)]);
    assert_eq!(manager.get_default_backend(Type::Window).name, "w0");
}

#[test]
fn set_default_with_unknown_name_changes_nothing() {
    let mut manager = scanned(vec![candidate("w1.so", "w1", Type::Window)]);
    assert!(manager.set_default_backend(Type::Window, "w1"));
    assert!(!manager.set_default_backend(Type::Window, "nobody"));
    assert!(!manager.set_default_backend(Type::Audio, "nobody"));
    let saved = manager.save_config();
    assert_eq!(saved.default_backend[Type::Window.index()], "w1");
    assert_eq!(saved.default_backend[Type::Audio.index()], "none");
}

#[test]
fn set_default_of_a_backend_named_like_a_sentinel_selects_automatically() {
    for word in ["none", "fallback"] {
        let mut manager = scanned(vec![
            candidate("w1.so", "w1", Type::Window),
            candidate("n.so", word, Type::Window),
        ]);
        assert!(manager.set_default_backend(Type::Window, word));
        assert_eq!(manager.get_default_backend(Type::Window).name, "w1");
    }
}

#[test]
fn a_backend_named_none_with_a_capital_can_be_set_as_default() {
    let mut manager = scanned(vec![
        candidate("alpha.so", "alpha", Type::Window),
        candidate("n.so", "None", Type::Window),
    ]);
    let mut config = Config::default();
    config.default_backend[Type::Window.index()] = "None".to_string();
    manager.load_config(config);
    assert_eq!(manager.get_default_backend(Type::Window).path, "n.so");
    manager.reset();
    let again = vec![
        candidate("alpha.so", "alpha", Type::Window),
        candidate("n.so", "None", Type::Window),
    ];
    manager.query_backend_dir(true, &again);
    assert_eq!(manager.get_default_backend(Type::Window).name, "alpha");
    assert!(manager.set_default_backend(Type::Window, "None"));
    let chosen = manager.get_default_backend(Type::Window);
    assert_eq!(chosen.name, "None");
    assert_eq!(chosen.path, "n.so");
}

#[test]
fn default_configuration_reports_no_missing_backend() {
    let manager = scanned(vec![candidate("w.so", "w", Type::Window)]);
    assert_eq!(manager.explain_default_backend(Type::Window), (Selection::ByType, false));
    assert_eq!(manager.explain_default_backend(Type::Audio), (Selection::Fallback, false));
    let empty = Manager::new(Platform::Linux);
    for backend_type in [Type::Audio, Type::Renderer, Type::Window, Type::Input] {
        assert_eq!(empty.explain_default_backend(backend_type), (Selection::Fallback, false));
    }
}

#[test]
fn registration_decides_the_state_of_the_backend() {
    let mut manager = scanned(vec![
        candidate("a.so", "a", Type::Window),
        candidate("b.so", "b", Type::Window),
    ]);
    manager.mark_registered("a", true);
    manager.mark_registered("b", false);
    manager.mark_registered("nobody", true);
    assert_eq!(manager.backend_at(0).unwrap().state, State::Active);
    assert_eq!(manager.backend_at(1).unwrap().state, State::Disabled);
    assert_eq!(manager.list_backends(Type::Window), vec!["a"]);
    manager.mark_registered("b", true);
    assert_eq!(manager.list_backends(Type::Window), vec!["a", "b"]);
}

#[test]
fn list_gives_the_usable_backends_of_a_type_in_order() {
    let mut manager = scanned(vec![
        candidate("w1.so", "w1", Type::Window),
        candidate("a.so", "a", Type::Audio),
        candidate("w2.so", "w2", Type::Window),
        candidate("w3.so", "w3", Type::Window),
    ]);
    assert_eq!(manager.list_backends(Type::Window), vec!["w1", "w2", "w3"]);
    manager.set_backend_state("w2", State::Disabled);
    manager.set_backend_state("w3", State::Active);
    assert_eq!(manager.list_backends(Type::Window), vec!["w1", "w3"]);
    assert_eq!(manager.list_backends(Type::Audio), vec!["a"]);
    assert!(manager.list_backends(Type::Renderer).is_empty());
    assert!(manager.list_backends(Type::Input).is_empty());
}

#[test]
fn set_backend_state_changes_the_first_backend_of_the_name() {
    let mut manager = scanned(vec![
        candidate("1.so", "twin", Type::Window),
        candidate("2.so", "twin", Type::Window),
    ]);
    manager.set_backend_state("twin", State::Active);
    assert_eq!(manager.backend_at(0).unwrap().state, State::Active);
    assert_eq!(manager.backend_at(1).unwrap().state, State::Unloaded);
    manager.set_backend_state("nobody", State::Disabled);
    assert_eq!(manager.backend_at(0).unwrap().state, State::Active);
    assert_eq!(manager.backend_at(1).unwrap().state, State::Unloaded);
    assert_eq!(manager.backend_count(), 2);
    assert_eq!(manager.backend_at(0).unwrap().path, "1.so");
}

#[test]
fn a_disabled_backend_can_still_be_the_default() {
    let mut manager = scanned(vec![candidate("w.so", "w", Type::Window)]);
    manager.set_backend_state("w", State::Disabled);
    let chosen = manager.get_default_backend(Type::Window);
    assert_eq!(chosen.name, "w");
    assert_eq!(chosen.state, State::Disabled);
}

#[test]
fn default_config_selects_automatically() {
    let config = Config::default();
    assert_eq!(config.backend_dir, "backend");
    for slot in 0..4 {
        assert_eq!(config.default_backend[slot], "none");
    }
    assert_eq!(config.default_for(Type::Input), "none");
    let mut config = config;
    config.set_default_for(Type::Renderer, "gl".to_string());
    assert_eq!(config.default_for(Type::Renderer), "gl");
    assert_eq!(config.default_backend[1], "gl");
    assert_eq!(config.default_for(Type::Audio), "none");
}

#[test]
fn type_slots() {
    assert_eq!(Type::Audio.index(), 0);
    assert_eq!(Type::Renderer.index(), 1);
    assert_eq!(Type::Window.index(), 2);
    assert_eq!(Type::Input.index(), 3);
}

#[test]
fn fallback_descriptor() {
    let fallback = Plugin::fallback(Type::Renderer);
    assert!(fallback.is_fallback());
    assert_eq!(fallback.backend_type, Type::Renderer);
    let mut other = fallback.clone();
    assert!(other.is_fallback());
    other.path = "backend/fallback.so".to_string();
    assert!(!other.is_fallback());
}

#[test]
fn reset_empties_the_catalog_and_restores_the_defaults() {
    let mut manager = scanned(vec![candidate("w.so", "w", Type::Window)]);
    manager.set_default_backend(Type::Window, "w");
    manager.reset();
    assert_eq!(manager.backend_count(), 0);
    assert_eq!(manager.save_config().default_backend[Type::Window.index()], "none");
    match manager.plan_query(true) {
        ScanPlan::Search(pattern) => assert_eq!(pattern, "backend/*.so"),
        ScanPlan::CreateDirectory(_) => panic!("the directory exists"),
    }
}

#[test]
fn get_plugin_finds_the_first_backend_of_the_name() {
    let manager = scanned(vec![
        candidate("1.so", "twin", Type::Window),
        candidate("2.so", "twin", Type::Audio),
        candidate("3.so", "single", Type::Input),
    ]);
    assert_eq!(manager.get_plugin("twin").unwrap().path, "1.so");
    assert_eq!(manager.get_plugin("single").unwrap().backend_type, Type::Input);
    assert!(manager.get_plugin("nobody").is_err());
    assert!(manager.get_plugin("").is_err());
}

#[test]
fn backend_manager_preselects_nothing() {
    let manager = BackendManager::new();
    assert_eq!(manager.backend_config.backend_dir, "backend");
    assert_eq!(manager.backend_config.default_window_backend, "fallback");
    assert_eq!(manager.backend_config.default_rendering_backend, "fallback");
    assert_eq!(manager.backend_config.default_audio_backend, "fallback");
    assert_eq!(BackendManager::default().backend_config.default_window_backend, "fallback");
    let config = BackendConfig::default();
    assert_eq!(config.backend_dir, "backend");
    assert_eq!(config.default_for(Type::Window), "fallback");
    assert_eq!(config.default_for(Type::Input), "fallback");
}

#[test]
fn named_defaults_go_into_the_table() {
    let mut named = BackendConfig::default();
    named.backend_dir = "plugins".to_string();
    named.default_window_backend = "sdl".to_string();
    named.default_audio_backend = "al".to_string();
    assert_eq!(named.default_for(Type::Window), "sdl");
    assert_eq!(named.default_for(Type::Renderer), "fallback");
    let config = named.to_config();
    assert_eq!(config.backend_dir, "plugins");
    assert_eq!(config.default_backend[Type::Audio.index()], "al");
    assert_eq!(config.default_backend[Type::Renderer.index()], "fallback");
    assert_eq!(config.default_backend[Type::Window.index()], "sdl");
    assert_eq!(config.default_backend[Type::Input.index()], "fallback");
    let mut manager = scanned(vec![
        candidate("x.so", "x11", Type::Window),
        candidate("s.so", "sdl", Type::Window),
        candidate("g.so", "gl", Type::Renderer),
    ]);
    manager.load_config(config);
    assert_eq!(manager.get_default_backend(Type::Window).name, "sdl");
    assert_eq!(manager.get_default_backend(Type::Renderer).name, "gl");
    assert!(manager.get_default_backend(Type::Audio).is_fallback());
    assert_eq!(manager.explain_default_backend(Type::Audio), (Selection::Fallback, true));
}

#[test]
fn plugin_types_and_states_map_to_the_registry() {
    assert_eq!(PluginType::Audio.backend_type(), Type::Audio);
    assert_eq!(PluginType::Renderer.backend_type(), Type::Renderer);
    assert_eq!(PluginType::Window.backend_type(), Type::Window);
    assert_eq!(PluginType::of_backend_type(Type::Window), Some(PluginType::Window));
    assert_eq!(PluginType::of_backend_type(Type::Audio), Some(PluginType::Audio));
    assert_eq!(PluginType::of_backend_type(Type::Renderer), Some(PluginType::Renderer));
    assert_eq!(PluginType::of_backend_type(Type::Input), None);
    assert_eq!(PluginState::Unloaded.backend_state(), State::Unloaded);
    assert_eq!(PluginState::MarkedForLoad.backend_state(), State::Unloaded);
    assert_eq!(PluginState::Loaded.backend_state(), State::Active);
    assert_eq!(PluginState::Disabled.backend_state(), State::Disabled);
    assert_eq!(PluginState::of_backend_state(State::Unloaded), PluginState::Unloaded);
    assert_eq!(PluginState::of_backend_state(State::Active), PluginState::Loaded);
    assert_eq!(PluginState::of_backend_state(State::Disabled), PluginState::Disabled);
}

#[test]
fn explain_says_how_the_default_was_selected() {
    let mut manager = scanned(vec![
        candidate("w1.so", "w1", Type::Window),
        candidate("w2.so", "w2", Type::Window),
    ]);
    assert_eq!(manager.explain_default_backend(Type::Window), (Selection::ByType, false));
    assert_eq!(manager.explain_default_backend(Type::Audio), (Selection::Fallback, false));
    manager.set_default_backend(Type::Window, "w2");
    assert_eq!(manager.explain_default_backend(Type::Window), (Selection::ByName, false));
    let mut config = Config::default();
    config.default_backend[Type::Window.index()] = "gone".to_string();
    config.default_backend[Type::Input.index()] = "gone".to_string();
    config.default_backend[Type::Audio.index()] = "w1".to_string();
    manager.load_config(config);
    assert_eq!(manager.explain_default_backend(Type::Window), (Selection::ByType, true));
    assert_eq!(manager.explain_default_backend(Type::Input), (Selection::Fallback, true));
    assert_eq!(manager.explain_default_backend(Type::Audio), (Selection::ByName, false));
    assert_eq!(manager.explain_default_backend(Type::Renderer), (Selection::Fallback, false));
}

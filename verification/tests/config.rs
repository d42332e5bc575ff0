use ion_core::engine::{Config, ConfigManager};
use ion_core::resource::{
    ConfigError, ConfigLoader, ConfigOutcome, ConfigRequest, PackageEntry, Recovery,
};

fn path_of(request: &ConfigRequest) -> String {
    request.get_path()
}

#[test]
fn config_loader_builds_the_paths() {
    let loader = ConfigLoader;
    let request = loader.new_config("cfg/", "window");
    assert!(matches!(request, ConfigRequest::WriteDefault(_)));
    assert_eq!(path_of(&request), "cfg/window.cfg");
    let request = loader.load_config("/home/kay/.dev/app/config/", "backend");
    assert!(matches!(request, ConfigRequest::Read(_)));
    assert_eq!(path_of(&request), "/home/kay/.dev/app/config/backend.cfg");
    let request = loader.save_config("", "renderer");
    assert!(matches!(request, ConfigRequest::Write(_)));
    assert_eq!(path_of(&request), "renderer.cfg");
    assert_eq!(ConfigLoader::path_of("cfg/", ""), "cfg/.cfg");
}

#[test]
fn absent_and_malformed_files_are_told_apart() {
    let loader = ConfigLoader;
    assert_eq!(loader.settle(ConfigOutcome::Done), Ok(()));
    assert_eq!(loader.settle(ConfigOutcome::FileAbsent), Err(ConfigError::Absent));
    assert_eq!(loader.settle(ConfigOutcome::FileMalformed), Err(ConfigError::Malformed));
    assert_eq!(loader.settle(ConfigOutcome::WriteFailed), Err(ConfigError::NotWritten));
    assert_ne!(
        loader.settle(ConfigOutcome::FileAbsent),
        loader.settle(ConfigOutcome::FileMalformed)
    );
}

#[test]
fn failed_load_falls_back_to_the_default() {
    let loader = ConfigLoader;
    assert_eq!(loader.recover(ConfigError::Absent), Recovery::CreateDefault);
    assert_eq!(loader.recover(ConfigError::Malformed), Recovery::CreateDefault);
    assert_eq!(loader.recover(ConfigError::NotWritten), Recovery::UseDefault);
}

#[test]
fn default_config_files_are_unpacked_where_missing() {
    let entry = |name: &str, present| PackageEntry { name: name.to_string(), present };
    let entries = vec![
        entry("window.cfg", true),
        entry("backend.cfg", false),
        entry("plugins.cfg", true),
        entry("renderer.cfg", false),
    ];
    let plan = ConfigLoader.init("config/", &entries);
    assert_eq!(
        plan,
        vec![(1, "config/backend.cfg".to_string()), (3, "config/renderer.cfg".to_string())]
    );
    assert!(ConfigLoader.init("config/", &Vec::new()).is_empty());
    assert!(ConfigLoader.init("config/", &vec![entry("a", true)]).is_empty());
    assert_eq!(ConfigLoader::unpack_path("config/", "window.cfg"), "config/window.cfg");
    assert_eq!(ConfigLoader::unpack_path("", ""), "");
}

#[test]
fn a_name_that_occurs_twice_is_unpacked_once() {
    let entry = |name: &str, present| PackageEntry { name: name.to_string(), present };
    let entries = vec![
        entry("a.cfg", false),
        entry("b.cfg", false),
        entry("a.cfg", false),
        entry("c.cfg", true),
        entry("c.cfg", false),
        entry("b.cfg", false),
        entry("a.cfg", false),
    ];
    let plan = ConfigLoader.init("cfg/", &entries);
    assert_eq!(
        plan,
        vec![
            (0, "cfg/a.cfg".to_string()),
            (1, "cfg/b.cfg".to_string()),
            (4, "cfg/c.cfg".to_string()),
        ]
    );
}

#[test]
fn config_manager_knows_nothing_at_first() {
    let manager = ConfigManager::new();
    assert_eq!(manager.get_config_dir(), "config");
    assert_eq!(manager.config_count(), 0);
    assert!(!manager.config_exists("window"));
    assert_eq!(manager.search_pattern(), "config/*.json");
    assert!(matches!(manager.load_config("window"), Err(ConfigError::Absent)));
    assert!(matches!(manager.save_config("window"), Err(ConfigError::Absent)));
    assert_eq!(ConfigManager::default().config_count(), 0);
}

#[test]
fn config_can_be_loaded_once_created() {
    let mut manager = ConfigManager::new();
    let request = manager.create_config("window");
    assert!(matches!(request, ConfigRequest::WriteDefault(_)));
    assert_eq!(path_of(&request), "config/window.json");
    assert!(manager.config_exists("window"));
    assert!(!manager.config_exists("Window"));
    assert!(!manager.config_exists("backend"));
    let request = manager.load_config("window").unwrap();
    assert!(matches!(request, ConfigRequest::Read(_)));
    assert_eq!(path_of(&request), "config/window.json");
    let request = manager.save_config("window").unwrap();
    assert!(matches!(request, ConfigRequest::Write(_)));
    assert_eq!(path_of(&request), "config/window.json");
    assert!(matches!(manager.load_config("backend"), Err(ConfigError::Absent)));
}

#[test]
fn config_manager_takes_what_a_search_found() {
    let mut manager = ConfigManager::new();
    manager.create_config("old");
    let found = vec![
        "config/window.json".to_string(),
        "config/a/twin.json".to_string(),
        "config/b/twin.json".to_string(),
        "..".to_string(),
    ];
    manager.query_config_dir(&found);
    assert_eq!(manager.config_count(), 3);
    assert!(!manager.config_exists("old"));
    assert!(manager.config_exists("window"));
    assert!(!manager.config_exists("window.json"));
    assert!(!manager.config_exists("config/window.json"));
    assert_eq!(path_of(&manager.load_config("window").unwrap()), "config/window.json");
    assert_eq!(path_of(&manager.load_config("twin").unwrap()), "config/a/twin.json");
    manager.query_config_dir(&Vec::new());
    assert_eq!(manager.config_count(), 0);
    assert!(!manager.config_exists("window"));
}

#[test]
fn config_manager_takes_a_ready_list() {
    let mut manager = ConfigManager::new();
    manager.set_configs(vec![
        Config { name: "window".to_string(), path: "elsewhere/w.json".to_string() },
        Config { name: "twin".to_string(), path: "a".to_string() },
        Config { name: "twin".to_string(), path: "b".to_string() },
    ]);
    assert_eq!(manager.config_count(), 3);
    assert_eq!(path_of(&manager.load_config("window").unwrap()), "elsewhere/w.json");
    assert_eq!(path_of(&manager.save_config("twin").unwrap()), "a");
    manager.set_configs(Vec::new());
    assert_eq!(manager.config_count(), 0);
}

#[test]
fn config_name_is_the_stem_of_the_file_name() {
    let named = |path: &str| Config::from_path(path).map(|c| c.name);
    assert_eq!(named("config/window.json"), Some("window".to_string()));
    assert_eq!(named("window.json"), Some("window".to_string()));
    assert_eq!(named("/a/b.c/backend.cfg.json"), Some("backend.cfg".to_string()));
    assert_eq!(named("config/plain"), Some("plain".to_string()));
    assert_eq!(named("config/.hidden"), Some(".hidden".to_string()));
    assert_eq!(named("config/.hidden.json"), Some(".hidden".to_string()));
    assert_eq!(named(""), None);
    assert_eq!(named(".."), None);
    assert_eq!(named("config/.."), None);
    let config = Config::from_path("config/window.json").unwrap();
    assert_eq!(config.path, "config/window.json");
    assert_ne!(config.name, config.path);
}

#[test]
fn config_names_are_what_the_standard_library_finds() {
    let paths = [
        "config/window.json",
        "a/b/c.d.e",
        "x",
        ".x",
        "a/.x.y",
        "dir.d/file",
        "a/b.",
        "config/",
        "config/.",
        "..",
        "",
    ];
    for path in paths {
        let expected = std::path::Path::new(path)
            .file_stem()
            .and_then(|stem| stem.to_str())
            .map(|stem| stem.to_string());
        assert_eq!(Config::from_path(path).map(|c| c.name), expected);
    }
}

#[test]
fn config_with_a_name() {
    let config = Config::with_name(Some("window".to_string()), "config/window.json").unwrap();
    assert_eq!(config.name, "window");
    assert_eq!(config.path, "config/window.json");
    assert!(Config::with_name(None, "config/window.json").is_none());
}

#[test]
fn config_manager_moves_and_releases() {
    let mut manager = ConfigManager::new();
    manager.set_config_dir("/data/cfg");
    assert_eq!(manager.get_config_dir(), "/data/cfg");
    assert_eq!(manager.search_pattern(), "/data/cfg/*.json");
    assert_eq!(path_of(&manager.create_config("a")), "/data/cfg/a.json");
    manager.create_config("b");
    assert_eq!(manager.config_count(), 2);
    manager.release();
    assert_eq!(manager.config_count(), 0);
    assert!(!manager.config_exists("a"));
    assert_eq!(manager.get_config_dir(), "/data/cfg");
}

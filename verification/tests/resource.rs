use ion_core::engine::backend::{Plugin, State, Type};
use ion_core::renderer::RenderFactoryDefault;
use ion_core::resource::{
    ConfigRequest, DirectoryPresence, PluginConfig, PluginError, PluginInfo, PluginLoader,
    PluginProbe, ResourceManager,
};
use ion_core::util::{Platform, Version};
use ion_core::window::{WindowBackend, WindowState};

fn info(plug_type: Type) -> PluginInfo {
    PluginInfo {
        plug_name: "sdl".to_string(),
        plug_developer: "someone".to_string(),
        plug_description: "a window".to_string(),
        plug_version: Version { major: 2, minor: 0, patch: 1 },
        plug_type,
    }
}

fn probe(plug_type: Type) -> PluginProbe {
    PluginProbe { found: true, loaded: true, info: Some(info(plug_type)), has_factory: true }
}

#[test]
fn plugin_loader_builds_the_module_paths() {
    let mut loader = PluginLoader::new(Platform::Linux);
    let outcome = loader.init(None, "bin/plugins/");
    assert!(outcome.create_config);
    assert!(outcome.paths.is_empty());
    let stored = PluginConfig { plugin_list: vec!["sdl".to_string(), "gl".to_string()] };
    let outcome = loader.init(Some(stored), "bin/plugins/");
    assert!(!outcome.create_config);
    assert_eq!(outcome.paths, vec!["bin/plugins/sdl.so", "bin/plugins/gl.so"]);
    let outcome = loader.init(None, "p/");
    assert!(outcome.create_config);
    assert_eq!(outcome.paths, vec!["p/sdl.so", "p/gl.so"]);
    let mut windows = PluginLoader::new(Platform::Windows);
    let stored = PluginConfig { plugin_list: vec!["sdl".to_string()] };
    assert_eq!(windows.init(Some(stored), "").paths, vec!["sdl.dll"]);
    assert!(PluginConfig::default().plugin_list.is_empty());
}

#[test]
fn plugin_info_is_had_from_a_loaded_module() {
    let loader = PluginLoader::new(Platform::Linux);
    let got = loader.get_plugin_info(&probe(Type::Audio)).unwrap();
    assert_eq!(got.plug_name, "sdl");
    assert_eq!(got.plug_developer, "someone");
    assert_eq!(got.plug_description, "a window");
    assert_eq!(got.plug_version, Version { major: 2, minor: 0, patch: 1 });
    assert_eq!(got.plug_type, Type::Audio);
}

#[test]
fn plugin_info_errors_come_in_order() {
    let loader = PluginLoader::new(Platform::Linux);
    let mut bad = probe(Type::Window);
    bad.info = None;
    assert_eq!(loader.get_plugin_info(&bad).err(), Some(PluginError::MissingInfo));
    bad.loaded = false;
    assert_eq!(loader.get_plugin_info(&bad).err(), Some(PluginError::LoadFailed));
    bad.found = false;
    assert_eq!(loader.get_plugin_info(&bad).err(), Some(PluginError::NotFound));
    let mut unloaded = probe(Type::Window);
    unloaded.loaded = false;
    assert_eq!(loader.get_plugin_info(&unloaded).err(), Some(PluginError::LoadFailed));
}

#[test]
fn window_plugins_with_a_factory_are_registered() {
    let mut loader = PluginLoader::new(Platform::Linux);
    assert_eq!(loader.register_plugin("bin/plugins/sdl.so", &probe(Type::Window)), Ok(()));
    assert_eq!(loader.registered_count(), 1);
    assert_eq!(loader.register_plugin("bin/plugins/x11.so", &probe(Type::Window)), Ok(()));
    assert_eq!(loader.registered_count(), 2);
}

#[test]
fn other_plugins_are_not_registered() {
    let mut loader = PluginLoader::new(Platform::Linux);
    let mut no_factory = probe(Type::Window);
    no_factory.has_factory = false;
    assert_eq!(loader.register_plugin("a.so", &no_factory), Err(PluginError::MissingFactory));
    for plug_type in [Type::Audio, Type::Renderer, Type::Input] {
        let result = loader.register_plugin("a.so", &probe(plug_type));
        assert_eq!(result, Err(PluginError::Unsupported));
    }
    let mut missing = probe(Type::Window);
    missing.found = false;
    assert_eq!(loader.register_plugin("a.so", &missing), Err(PluginError::NotFound));
    let mut broken = probe(Type::Window);
    broken.loaded = false;
    assert_eq!(loader.register_plugin("a.so", &broken), Err(PluginError::LoadFailed));
    let mut mute = probe(Type::Window);
    mute.info = None;
    assert_eq!(loader.register_plugin("a.so", &mute), Err(PluginError::MissingInfo));
    assert_eq!(loader.registered_count(), 0);
}

#[test]
fn resource_manager_directories() {
    let manager = ResourceManager::new(Platform::Linux);
    assert_eq!(manager.get_config_directory(), "cfg/");
    assert_eq!(manager.get_plugin_directory(), "bin/plugins/");
    let all = DirectoryPresence { cfg_dir: true, res_dir: true, bin_dir: true, plug_dir: true };
    assert!(manager.missing_directories(&all).is_empty());
    let none =
        DirectoryPresence { cfg_dir: false, res_dir: false, bin_dir: false, plug_dir: false };
    assert_eq!(manager.missing_directories(&none), vec!["cfg/", "res/", "bin/", "bin/plugins/"]);
    let some = DirectoryPresence { cfg_dir: true, res_dir: false, bin_dir: true, plug_dir: false };
    assert_eq!(manager.missing_directories(&some), vec!["res/", "bin/plugins/"]);
}

#[test]
fn resource_manager_configs_live_in_the_config_directory() {
    let manager = ResourceManager::new(Platform::Linux);
    let request = manager.new_config("window");
    assert!(matches!(request, ConfigRequest::WriteDefault(_)));
    assert_eq!(request.get_path(), "cfg/window.cfg");
    let request = manager.load_config("plugins");
    assert!(matches!(request, ConfigRequest::Read(_)));
    assert_eq!(request.get_path(), "cfg/plugins.cfg");
    let request = manager.save_config("plugins");
    assert!(matches!(request, ConfigRequest::Write(_)));
    assert_eq!(request.get_path(), "cfg/plugins.cfg");
    assert_eq!(manager.get_config_loader().load_config("x/", "y").get_path(), "x/y.cfg");
}

#[test]
fn resource_manager_owns_the_plugin_loader() {
    let mut manager = ResourceManager::new(Platform::MacOs);
    let plugin_dir = manager.get_plugin_directory();
    let stored = PluginConfig { plugin_list: vec!["sdl".to_string()] };
    let outcome = manager.get_plugin_loader_mut().init(Some(stored), &plugin_dir);
    assert_eq!(outcome.paths, vec!["bin/plugins/sdl.dylib"]);
    assert_eq!(
        manager.get_plugin_loader_mut().register_plugin(&outcome.paths[0], &probe(Type::Window)),
        Ok(())
    );
    assert_eq!(manager.get_plugin_loader().registered_count(), 1);
    manager.set_config_directory("/home/kay/.dev/app/config/");
    assert_eq!(manager.load_config("window").get_path(), "/home/kay/.dev/app/config/window.cfg");
    assert_eq!(manager.get_plugin_directory(), "bin/plugins/");
    manager.release();
    assert_eq!(manager.get_plugin_loader().registered_count(), 0);
    assert_eq!(manager.get_config_directory(), "/home/kay/.dev/app/config/");
    let outcome = manager.get_plugin_loader_mut().init(None, &plugin_dir);
    assert_eq!(outcome.paths, vec!["bin/plugins/sdl.dylib"]);
}

#[test]
fn backends_of_the_catalog_are_registered_by_their_factory() {
    let backend = |backend_type| Plugin {
        name: "sdl".to_string(),
        author: "a".to_string(),
        description: "d".to_string(),
        version: Version::new(),
        path: "backend/sdl.so".to_string(),
        backend_type,
        state: State::Unloaded,
    };
    let mut loader = PluginLoader::new(Platform::Linux);
    let window = backend(Type::Window);
    assert_eq!(loader.register_backend(&window, false), Err(PluginError::MissingFactory));
    assert_eq!(loader.registered_count(), 0);
    for backend_type in [Type::Audio, Type::Renderer, Type::Input] {
        let other = backend(backend_type);
        assert_eq!(loader.register_backend(&other, true), Err(PluginError::Unsupported));
        assert_eq!(loader.register_backend(&other, false), Err(PluginError::Unsupported));
    }
    assert_eq!(loader.registered_count(), 0);
    assert_eq!(loader.register_backend(&window, true), Ok(()));
    assert_eq!(loader.registered_count(), 1);
}

#[test]
fn default_render_factory_makes_the_fallback() {
    let backend = RenderFactoryDefault::new().get_window_backend();
    assert!(matches!(backend, WindowBackend::Fallback(_)));
    assert_eq!(backend.get_window_state(), WindowState::Active);
    assert!(backend.get_platform_window().is_err());
    assert_eq!(RenderFactoryDefault::default(), RenderFactoryDefault::new());
}

use sw3do_browser::clock::Timestamp;
use sw3do_browser::navigation::{final_address, NavigationHistory};
use sw3do_browser::plugins::{
    install_plugin, validate_plugin_manifest, HookRegistration, ManifestError, Plugin, PluginHook,
    PluginManifest, PluginPermission, PluginSetting, PluginSettingDefinition, PluginSettingType,
};

#[test]
fn addresses_with_a_scheme_stay_as_they_are() {
    assert_eq!(final_address("sw3do://home"), "sw3do://home");
    assert_eq!(final_address("sw3do://search?q=a b"), "sw3do://search?q=a b");
    assert_eq!(final_address("http://a.test/x y"), "http://a.test/x y");
    assert_eq!(final_address("https://a.test"), "https://a.test");
    assert_eq!(final_address("https://"), "https://");
}

#[test]
fn host_names_get_the_https_scheme() {
    assert_eq!(final_address("example.com"), "https://example.com");
    assert_eq!(final_address("a.b/c?d=e"), "https://a.b/c?d=e");
    assert_eq!(final_address("."), "https://.");
    assert_eq!(final_address("ftp://files.test"), "https://ftp://files.test");
    assert_eq!(final_address("HTTP://A.TEST"), "https://HTTP://A.TEST");
}

#[test]
fn everything_else_is_a_search() {
    assert_eq!(final_address("rust verus"), "sw3do://search?q=rust%20verus");
    assert_eq!(final_address("what is 1.5 + 2"), "sw3do://search?q=what%20is%201.5%20%2B%202");
    assert_eq!(final_address("localhost"), "sw3do://search?q=localhost");
    assert_eq!(final_address(""), "sw3do://search?q=");
    assert_eq!(final_address("http:/a"), "sw3do://search?q=http%3A%2Fa");
    assert_eq!(final_address("grüße"), "sw3do://search?q=gr%C3%BC%C3%9Fe");
}

#[test]
fn history_starts_at_the_home_page() {
    let h = NavigationHistory::new();
    assert_eq!(h.entries(), vec!["sw3do://home".to_string()]);
    assert_eq!(h.get_current_url(), "sw3do://home");
    assert!(!h.can_go_back());
    assert!(!h.can_go_forward());
}

#[test]
fn navigating_appends_and_drops_what_lay_ahead() {
    let mut h = NavigationHistory::new();
    h.navigate("https://a.test".to_string());
    h.navigate("https://b.test".to_string());
    h.navigate("https://c.test".to_string());
    assert_eq!(h.get_current_url(), "https://c.test");
    assert!(h.can_go_back() && !h.can_go_forward());
    assert_eq!(h.go_back(), Some("https://b.test".to_string()));
    assert_eq!(h.go_back(), Some("https://a.test".to_string()));
    assert!(h.can_go_back() && h.can_go_forward());
    h.navigate("https://d.test".to_string());
    assert_eq!(
        h.entries(),
        vec!["sw3do://home".to_string(), "https://a.test".to_string(), "https://d.test".to_string()]
    );
    assert_eq!(h.get_current_url(), "https://d.test");
    assert!(!h.can_go_forward());
    assert_eq!(h.go_forward(), None);
}

#[test]
fn back_and_forward_stop_at_the_ends() {
    let mut h = NavigationHistory::new();
    assert_eq!(h.go_back(), None);
    assert_eq!(h.go_forward(), None);
    h.navigate("https://a.test".to_string());
    assert_eq!(h.go_back(), Some("sw3do://home".to_string()));
    assert_eq!(h.go_back(), None);
    assert_eq!(h.get_current_url(), "sw3do://home");
    assert_eq!(h.go_forward(), Some("https://a.test".to_string()));
    assert_eq!(h.go_forward(), None);
    assert_eq!(h.entries().len(), 2);
}

fn manifest(name: &str, version: &str) -> PluginManifest {
    PluginManifest {
        name: name.to_string(),
        version: version.to_string(),
        description: "Blocks more".to_string(),
        author: "A. Author".to_string(),
        main: "main.js".to_string(),
        permissions: vec![PluginPermission::NetworkAccess, PluginPermission::TabManagement],
        hooks: vec![PluginHook::BeforeRequest, PluginHook::TabCreated, PluginHook::BeforeRequest],
        settings: vec![
            PluginSettingDefinition {
                key: "level".to_string(),
                setting_type: PluginSettingType::Number,
                description: "How strict".to_string(),
                default_value: "3".to_string(),
                required: true,
            },
            PluginSettingDefinition {
                key: "label".to_string(),
                setting_type: PluginSettingType::String,
                description: "Shown name".to_string(),
                default_value: "\"x\"".to_string(),
                required: false,
            },
        ],
        min_browser_version: "1.0".to_string(),
    }
}

#[test]
fn manifest_needs_name_and_version() {
    assert_eq!(validate_plugin_manifest(&manifest("Blocker", "1.2.0")), Ok(()));
    assert_eq!(validate_plugin_manifest(&manifest("", "1.2.0")), Err(ManifestError::EmptyName));
    assert_eq!(validate_plugin_manifest(&manifest("Blocker", "")), Err(ManifestError::EmptyVersion));
    assert_eq!(validate_plugin_manifest(&manifest("", "")), Err(ManifestError::EmptyName));
    assert_eq!(validate_plugin_manifest(&manifest(" ", " ")), Ok(()));
    assert_eq!(ManifestError::EmptyName.message(), "Plugin name cannot be empty");
    assert_eq!(ManifestError::EmptyVersion.message(), "Plugin version cannot be empty");
}

#[test]
fn installing_makes_the_plugin_and_its_registrations() {
    let now = Timestamp { secs: 77, nanos: 5 };
    let (plugin, registrations) = install_plugin(
        manifest("Blocker", "1.2.0"),
        "id-1".to_string(),
        "/plugins/blocker/plugin.json".to_string(),
        now,
    );
    assert_eq!(
        plugin,
        Plugin {
            id: "id-1".to_string(),
            name: "Blocker".to_string(),
            version: "1.2.0".to_string(),
            description: "Blocks more".to_string(),
            author: "A. Author".to_string(),
            enabled: true,
            permissions: vec![PluginPermission::NetworkAccess, PluginPermission::TabManagement],
            hooks: vec![PluginHook::BeforeRequest, PluginHook::TabCreated, PluginHook::BeforeRequest],
            settings: vec![
                PluginSetting {
                    key: "level".to_string(),
                    value: "3".to_string(),
                    setting_type: PluginSettingType::Number,
                    description: "How strict".to_string(),
                    required: true,
                },
                PluginSetting {
                    key: "label".to_string(),
                    value: "\"x\"".to_string(),
                    setting_type: PluginSettingType::String,
                    description: "Shown name".to_string(),
                    required: false,
                },
            ],
            manifest_path: "/plugins/blocker/plugin.json".to_string(),
            created_at: now,
            updated_at: now,
        }
    );
    let reg = |hook| HookRegistration { hook, plugin_id: "id-1".to_string() };
    assert_eq!(
        registrations,
        vec![reg(PluginHook::BeforeRequest), reg(PluginHook::TabCreated), reg(PluginHook::BeforeRequest)]
    );
}

#[test]
fn installing_an_empty_manifest_registers_nothing() {
    let mut m = manifest("", "");
    m.hooks = vec![];
    m.settings = vec![];
    let (plugin, registrations) =
        install_plugin(m, "id-2".to_string(), "m.json".to_string(), Timestamp { secs: 0, nanos: 0 });
    assert!(plugin.enabled);
    assert!(plugin.settings.is_empty() && plugin.hooks.is_empty());
    assert!(registrations.is_empty());
}

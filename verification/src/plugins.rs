//! Plugins: what they may do, what they can listen to, and how a plugin is
//! made from its manifest.

use crate::clock::Timestamp;
use vstd::prelude::*;

verus! {

/// A permission that a plugin asks for.
#[derive(Debug, Clone, Copy, PartialEq, Eq, Structural)]
pub enum PluginPermission {
    NetworkAccess,
    FileSystemRead,
    FileSystemWrite,
    BookmarkAccess,
    HistoryAccess,
    TabManagement,
    WindowManagement,
    SettingsAccess,
    NotificationAccess,
    ClipboardAccess,
}

/// An event of the browser that a plugin can listen to.
#[derive(Debug, Clone, Copy, PartialEq, Eq, Hash, Structural)]
pub enum PluginHook {
    BeforeNavigate,
    AfterNavigate,
    BeforeRequest,
    AfterRequest,
    TabCreated,
    TabClosed,
    WindowCreated,
    WindowClosed,
    BookmarkAdded,
    BookmarkRemoved,
    HistoryAdded,
    DownloadStarted,
    DownloadCompleted,
    SettingsChanged,
}

/// The type of the value of a plugin's setting.
#[derive(Debug, Clone, Copy, PartialEq, Eq, Structural)]
pub enum PluginSettingType {
    String,
    Number,
    Boolean,
    Array,
    Object,
}

/// Whether `permission` is among `granted`.
pub fn has_permission(granted: &Vec<PluginPermission>, permission: PluginPermission) -> (b: bool)
    ensures
        b == granted@.contains(permission),
{
    let mut i: usize = 0;
    while i < granted.len()
        invariant
            i <= granted@.len(),
            forall|j: int| 0 <= j < i ==> granted@[j] != permission,
        decreases granted@.len() - i,
    {
        if granted[i] == permission {
            return true;
        }
        i += 1;
    }
    false
}

/// Whether `hook` is among `hooks`.
pub fn listens_to(hooks: &Vec<PluginHook>, hook: PluginHook) -> (b: bool)
    ensures
        b == hooks@.contains(hook),
{
    let mut i: usize = 0;
    while i < hooks.len()
        invariant
            i <= hooks@.len(),
            forall|j: int| 0 <= j < i ==> hooks@[j] != hook,
        decreases hooks@.len() - i,
    {
        if hooks[i] == hook {
            return true;
        }
        i += 1;
    }
    false
}

/// One setting that a manifest declares. The default value is kept as JSON
/// text.
#[derive(Debug, PartialEq, Eq)]
pub struct PluginSettingDefinition {
    pub key: String,
    pub setting_type: PluginSettingType,
    pub description: String,
    pub default_value: String,
    pub required: bool,
}

/// What a plugin says of itself.
#[derive(Debug, PartialEq, Eq)]
pub struct PluginManifest {
    pub name: String,
    pub version: String,
    pub description: String,
    pub author: String,
    pub main: String,
    pub permissions: Vec<PluginPermission>,
    pub hooks: Vec<PluginHook>,
    pub settings: Vec<PluginSettingDefinition>,
    pub min_browser_version: String,
}

/// One setting of an installed plugin. The value is kept as JSON text.
#[derive(Debug, PartialEq, Eq)]
pub struct PluginSetting {
    pub key: String,
    pub value: String,
    pub setting_type: PluginSettingType,
    pub description: String,
    pub required: bool,
}

/// An installed plugin.
#[derive(Debug, PartialEq, Eq)]
pub struct Plugin {
    pub id: String,
    pub name: String,
    pub version: String,
    pub description: String,
    pub author: String,
    pub enabled: bool,
    pub permissions: Vec<PluginPermission>,
    pub hooks: Vec<PluginHook>,
    /// The settings, one for each that the manifest declares, in the
    /// manifest's order. Of two with one key the later counts.
    pub settings: Vec<PluginSetting>,
    pub manifest_path: String,
    pub created_at: Timestamp,
    pub updated_at: Timestamp,
}

/// That a plugin listens to a hook.
#[derive(Debug, PartialEq, Eq)]
pub struct HookRegistration {
    pub hook: PluginHook,
    pub plugin_id: String,
}

/// Why a manifest is refused.
#[derive(Debug, Clone, Copy, PartialEq, Eq, Structural)]
pub enum ManifestError {
    EmptyName,
    EmptyVersion,
}

impl ManifestError {
    /// The message of the error.
    pub fn message(self) -> (text: &'static str)
        ensures
            text@ == match self {
                ManifestError::EmptyName => "Plugin name cannot be empty"@,
                ManifestError::EmptyVersion => "Plugin version cannot be empty"@,
            },
    {
        match self {
            ManifestError::EmptyName => "Plugin name cannot be empty",
            ManifestError::EmptyVersion => "Plugin version cannot be empty",
        }
    }
}

/// Whether a manifest can be installed: it names the plugin and gives its
/// version. The name is looked at first.
pub open spec fn manifest_check(manifest: PluginManifest) -> Result<(), ManifestError> {
    if manifest.name@.len() == 0 {
        Err(ManifestError::EmptyName)
    } else if manifest.version@.len() == 0 {
        Err(ManifestError::EmptyVersion)
    } else {
        Ok(())
    }
}

/// Checks that `manifest` names the plugin and gives its version.
pub fn validate_plugin_manifest(manifest: &PluginManifest) -> (checked: Result<(), ManifestError>)
    ensures
        checked == manifest_check(*manifest),
{
    if manifest.name.as_str().is_empty() {
        Err(ManifestError::EmptyName)
    } else if manifest.version.as_str().is_empty() {
        Err(ManifestError::EmptyVersion)
    } else {
        Ok(())
    }
}

/// The setting that a plugin starts with for a declared setting: the
/// declared default as its value.
pub open spec fn initial_setting(definition: PluginSettingDefinition) -> PluginSetting {
    PluginSetting {
        key: definition.key,
        value: definition.default_value,
        setting_type: definition.setting_type,
        description: definition.description,
        required: definition.required,
    }
}

/// The registrations of the plugin `plugin_id` for `hooks`: one for each
/// hook, in order.
pub open spec fn registrations_for(hooks: Seq<PluginHook>, plugin_id: String) -> Seq<
    HookRegistration,
> {
    hooks.map_values(|hook: PluginHook| HookRegistration { hook, plugin_id })
}

/// The plugin that installing `manifest` at `now` under the id `plugin_id`
/// gives: enabled, with the manifest's permissions and hooks and each
/// declared setting at its default.
pub open spec fn installed_matches(
    plugin: Plugin,
    manifest: PluginManifest,
    plugin_id: String,
    manifest_path: String,
    now: Timestamp,
) -> bool {
    &&& plugin.id == plugin_id
    &&& plugin.name == manifest.name
    &&& plugin.version == manifest.version
    &&& plugin.description == manifest.description
    &&& plugin.author == manifest.author
    &&& plugin.enabled
    &&& plugin.permissions == manifest.permissions
    &&& plugin.hooks == manifest.hooks
    &&& plugin.settings@ == manifest.settings@.map_values(
        |d: PluginSettingDefinition| initial_setting(d),
    )
    &&& plugin.manifest_path == manifest_path
    &&& plugin.created_at == now
    &&& plugin.updated_at == now
}

/// Installs the plugin of `manifest` at `now` under the fresh id
/// `plugin_id`: returns the plugin and its registrations, one for each hook
/// of the manifest.
pub fn install_plugin(
    manifest: PluginManifest,
    plugin_id: String,
    manifest_path: String,
    now: Timestamp,
) -> (installed: (Plugin, Vec<HookRegistration>))
    ensures
        installed_matches(installed.0, manifest, plugin_id, manifest_path, now),
        installed.1@ == registrations_for(manifest.hooks@, plugin_id),
{
    let mut settings: Vec<PluginSetting> = Vec::new();
    let mut i: usize = 0;
    while i < manifest.settings.len()
        invariant
            i <= manifest.settings@.len(),
            settings@.len() == i,
            forall|j: int| 0 <= j < i ==> settings@[j] == initial_setting(manifest.settings@[j]),
        decreases manifest.settings@.len() - i,
    {
        let definition = &manifest.settings[i];
        settings.push(
            PluginSetting {
                key: definition.key.clone(),
                value: definition.default_value.clone(),
                setting_type: definition.setting_type,
                description: definition.description.clone(),
                required: definition.required,
            },
        );
        i += 1;
    }
    let mut registrations: Vec<HookRegistration> = Vec::new();
    let mut h: usize = 0;
    while h < manifest.hooks.len()
        invariant
            h <= manifest.hooks@.len(),
            registrations@.len() == h,
            forall|j: int|
                0 <= j < h ==> registrations@[j] == (HookRegistration {
                    hook: manifest.hooks@[j],
                    plugin_id,
                }),
        decreases manifest.hooks@.len() - h,
    {
        registrations.push(
            HookRegistration { hook: manifest.hooks[h], plugin_id: plugin_id.clone() },
        );
        h += 1;
    }
    proof {
        assert(settings@ =~= manifest.settings@.map_values(
            |d: PluginSettingDefinition| initial_setting(d),
        ));
        assert(registrations@ =~= registrations_for(manifest.hooks@, plugin_id));
    }
    let plugin = Plugin {
        id: plugin_id,
        name: manifest.name,
        version: manifest.version,
        description: manifest.description,
        author: manifest.author,
        enabled: true,
        permissions: manifest.permissions,
        hooks: manifest.hooks,
        settings,
        manifest_path,
        created_at: now,
        updated_at: now,
    };
    (plugin, registrations)
}

} // verus!

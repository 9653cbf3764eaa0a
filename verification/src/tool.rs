//! What the plugin tells proto about the tool: its name and kind, where its
//! executables are, and what a shell profile needs.
use crate::outside::{exe_name, parse_version, version_accepts, version_of};
use crate::platform::HostOs;
use crate::text::views;
use proto_pdk::Version;
use vstd::prelude::*;

verus! {

/// The kinds of tool that proto manages (the variants of proto's
/// `PluginType`).
#[derive(Clone, Copy, Debug, PartialEq, Eq, Structural)]
pub enum PluginKind {
    CommandLine,
    Language,
    DependencyManager,
    VersionManager,
}

/// The plugin's registration with proto.
pub struct ToolRegistration {
    /// Human readable name of the tool.
    pub name: String,
    /// The kind of tool.
    pub plugin_type: PluginKind,
    /// The oldest proto that can run the plugin, as major, minor and patch.
    pub minimum_proto_version: (u32, u32, u32),
    /// The version of the plugin, when it parses as a version.
    pub plugin_version: Option<Version>,
}

/// Where proto finds the tool's executables.
pub struct ExecutableLayout {
    /// The name under which the primary executable is registered.
    pub name: String,
    /// The primary executable, relative to the install directory.
    pub primary_exe: String,
    /// Directories, relative to the install directory, that hold executables.
    pub exes_dirs: Vec<String>,
    /// Directories in which globally installed packages put executables.
    pub globals_lookup_dirs: Vec<String>,
}

/// What a shell profile needs for the tool.
pub struct ShellProfile {
    /// The variable that tells whether the profile is already set up.
    pub check_var: String,
    /// Variables to export, as name and value.
    pub export_vars: Vec<(String, String)>,
    /// Directories to add to `PATH`.
    pub extend_path: Vec<String>,
    /// Whether syncing the profile is skipped.
    pub skip_sync: bool,
}

/// Registers the tool: "PHP", a language, for proto 0.46.0 and later, with
/// the plugin's own version when `plugin_version` parses as one.
pub fn register_tool(plugin_version: &str) -> (r: ToolRegistration)
    ensures
        r.name@ == "PHP"@,
        r.plugin_type == PluginKind::Language,
        r.minimum_proto_version == (0u32, 46u32, 0u32),
        r.plugin_version is Some <==> version_accepts(plugin_version@),
        r.plugin_version matches Some(v) ==> v == version_of(plugin_version@),
{
    ToolRegistration {
        name: String::from_str("PHP"),
        plugin_type: PluginKind::Language,
        minimum_proto_version: (0, 46, 0),
        plugin_version: parse_version(plugin_version),
    }
}

/// The file name of the PHP executable on a host: "php.exe" on Windows,
/// "php" elsewhere.
pub open spec fn php_exe_name(os: HostOs) -> Seq<char> {
    if os == HostOs::Windows {
        "php.exe"@
    } else {
        "php"@
    }
}

/// Where the PHP executables are: `php` (`php.exe` on Windows) at the root
/// of the install directory, executables in the root and in `bin`, and the
/// Composer directories for globally installed packages.
pub fn locate_executables(os: HostOs) -> (r: ExecutableLayout)
    ensures
        r.name@ == "php"@,
        r.primary_exe@ == php_exe_name(os),
        views(r.exes_dirs@) == seq!["."@, "bin"@],
        views(r.globals_lookup_dirs@) == seq![
            "$HOME/.composer/vendor/bin"@,
            "$COMPOSER_HOME/vendor/bin"@,
        ],
{
    let primary_exe = if os == HostOs::Windows {
        proof {
            reveal_strlit("php");
            reveal_strlit("exe");
            reveal_strlit(".exe");
            reveal_strlit("php.exe");
            assert(!crate::text::has_suffix("php"@, "exe"@)) by {
                assert("php"@.skip(0)[0] != "exe"@[0]);
            }
            assert("php"@ + ".exe"@ =~= "php.exe"@);
        }
        exe_name(os, "php")
    } else {
        String::from_str("php")
    };
    let r = ExecutableLayout {
        name: String::from_str("php"),
        primary_exe,
        exes_dirs: vec![String::from_str("."), String::from_str("bin")],
        globals_lookup_dirs: vec![
            String::from_str("$HOME/.composer/vendor/bin"),
            String::from_str("$COMPOSER_HOME/vendor/bin"),
        ],
    };
    assert(views(r.exes_dirs@) =~= seq!["."@, "bin"@]);
    assert(views(r.globals_lookup_dirs@) =~= seq![
        "$HOME/.composer/vendor/bin"@,
        "$COMPOSER_HOME/vendor/bin"@,
    ]);
    r
}

/// The shell profile: checked by `PROTO_PHP_VERSION`, exporting `PHP_HOME`
/// as the active version's directory, and putting Composer's global
/// executables on `PATH`.
pub fn sync_shell_profile() -> (r: ShellProfile)
    ensures
        r.check_var@ == "PROTO_PHP_VERSION"@,
        r.export_vars@.len() == 1,
        r.export_vars@[0].0@ == "PHP_HOME"@,
        r.export_vars@[0].1@ == "$PROTO_HOME/tools/php/$PROTO_PHP_VERSION"@,
        views(r.extend_path@) == seq!["$HOME/.composer/vendor/bin"@],
        !r.skip_sync,
{
    let r = ShellProfile {
        check_var: String::from_str("PROTO_PHP_VERSION"),
        export_vars: vec![
            (String::from_str("PHP_HOME"), String::from_str("$PROTO_HOME/tools/php/$PROTO_PHP_VERSION")),
        ],
        extend_path: vec![String::from_str("$HOME/.composer/vendor/bin")],
        skip_sync: false,
    };
    assert(views(r.extend_path@) =~= seq!["$HOME/.composer/vendor/bin"@]);
    r
}

} // verus!

//! The plugin's configuration, read from `[tools.php]` in `.prototools`.
use vstd::prelude::*;

verus! {

/// Configuration for the PHP proto plugin.
/// Users can override these in `.prototools` under `[tools.php]`.
#[derive(Debug)]
pub struct PhpPluginConfig {
    /// Use static-php-cli prebuilt binaries (default: true).
    /// Set to false to build from source.
    pub prebuilt: bool,
    /// SAPI type for prebuilt binaries and static-php-cli builds:
    /// "cli", "fpm", or "micro" (default: "cli").
    pub sapi: String,
    /// Download URL template for prebuilt binaries.
    /// Supports placeholders: {version}, {sapi}, {os}, {arch}, {file}
    pub dist_url: String,
    /// Extra flags passed to `./configure` when building from source.
    /// Setting them selects the php.net configure/make build.
    pub configure_opts: Option<Vec<String>>,
    /// Extensions for static-php-cli source builds; when unset, the
    /// extensions that the prebuilt binaries ship with.
    pub extensions: Option<Vec<String>>,
}

/// The default download URL template for prebuilt binaries.
pub open spec fn default_dist_url() -> Seq<char> {
    "https://dl.static-php.dev/static-php-cli/common/php-{version}-{sapi}-{os}-{arch}.tar.gz"@
}

/// The SAPI types that static-php-cli provides: "cli", "fpm" and "micro".
pub open spec fn is_known_sapi(sapi: Seq<char>) -> bool {
    sapi == "cli"@ || sapi == "fpm"@ || sapi == "micro"@
}

impl Default for PhpPluginConfig {
    /// Prebuilt "cli" binaries from static-php-cli, no extra configure
    /// flags, the default extension set.
    fn default() -> (r: Self)
        ensures
            r.prebuilt,
            r.sapi@ == "cli"@,
            r.dist_url@ == default_dist_url(),
            r.configure_opts is None,
            r.extensions is None,
    {
        PhpPluginConfig {
            prebuilt: true,
            sapi: String::from_str("cli"),
            dist_url: String::from_str(
                "https://dl.static-php.dev/static-php-cli/common/php-{version}-{sapi}-{os}-{arch}.tar.gz",
            ),
            configure_opts: None,
            extensions: None,
        }
    }
}

/// Whether `sapi` is one of the SAPI types that static-php-cli provides.
pub fn is_valid_sapi(sapi: &str) -> (r: bool)
    ensures
        r == is_known_sapi(sapi@),
{
    crate::text::same_text(sapi, "cli") || crate::text::same_text(sapi, "fpm")
        || crate::text::same_text(sapi, "micro")
}

} // verus!

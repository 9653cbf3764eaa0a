//! How PHP is built from source: static-php-cli for PHP 8 without custom
//! configure flags, php.net's configure/make otherwise.
use crate::config::PhpPluginConfig;
use crate::platform::{arch_label, map_arch, map_os, os_label, HostArch, HostOs};
use crate::text::{has_prefix, join, join_text, same_text, starts_with, views};
use vstd::prelude::*;

verus! {

/// A system package manager that proto can install dependencies with.
#[derive(Clone, Copy, Debug, PartialEq, Eq, Structural)]
pub enum PackageManager {
    Apt,
    Brew,
    Dnf,
}

/// Packages to install with one package manager.
pub struct SystemPackages {
    pub manager: PackageManager,
    pub packages: Vec<String>,
}

/// Something the host must provide before the build starts.
pub enum Prerequisite {
    XcodeCommandLineTools,
    CommandOnPath(String),
}

/// One step of the build. Paths are relative to the build directory.
pub enum BuildStep {
    /// Run `exe` with `args`.
    RunCommand { exe: String, args: Vec<String> },
    /// Make a file executable.
    MakeExecutable(String),
    /// Move a file from the first path to the second.
    MoveFile(String, String),
}

/// A source archive and the directory inside it that holds the sources.
pub struct SourceArchive {
    pub url: String,
    pub prefix: String,
}

/// The instructions for building PHP from source.
pub struct BuildPlan {
    pub help_url: String,
    pub source: Option<SourceArchive>,
    pub system_dependencies: Vec<SystemPackages>,
    pub requirements: Vec<Prerequisite>,
    pub instructions: Vec<BuildStep>,
}

/// Why no build plan is given. `E` is the error of reading the plugin's
/// configuration.
pub enum BuildError<E> {
    /// Building from source is not supported on Windows.
    WindowsUnsupported,
    /// The configuration could not be read.
    Config(E),
}

/// The mathematical value of a prerequisite.
pub enum PrerequisiteModel {
    XcodeCommandLineTools,
    CommandOnPath(Seq<char>),
}

/// The mathematical value of a build step.
pub enum StepModel {
    RunCommand(Seq<char>, Seq<Seq<char>>),
    MakeExecutable(Seq<char>),
    MoveFile(Seq<char>, Seq<char>),
}

/// The mathematical value of a build plan.
pub struct PlanModel {
    pub help_url: Seq<char>,
    pub source: Option<(Seq<char>, Seq<char>)>,
    pub system_dependencies: Seq<(PackageManager, Seq<Seq<char>>)>,
    pub requirements: Seq<PrerequisiteModel>,
    pub instructions: Seq<StepModel>,
}

impl View for SystemPackages {
    type V = (PackageManager, Seq<Seq<char>>);

    open spec fn view(&self) -> Self::V {
        (self.manager, views(self.packages@))
    }
}

impl View for Prerequisite {
    type V = PrerequisiteModel;

    open spec fn view(&self) -> PrerequisiteModel {
        match self {
            Prerequisite::XcodeCommandLineTools => PrerequisiteModel::XcodeCommandLineTools,
            Prerequisite::CommandOnPath(c) => PrerequisiteModel::CommandOnPath(c@),
        }
    }
}

impl View for BuildStep {
    type V = StepModel;

    open spec fn view(&self) -> StepModel {
        match self {
            BuildStep::RunCommand { exe, args } => StepModel::RunCommand(exe@, views(args@)),
            BuildStep::MakeExecutable(p) => StepModel::MakeExecutable(p@),
            BuildStep::MoveFile(a, b) => StepModel::MoveFile(a@, b@),
        }
    }
}

impl View for BuildPlan {
    type V = PlanModel;

    open spec fn view(&self) -> PlanModel {
        PlanModel {
            help_url: self.help_url@,
            source: match self.source {
                Some(s) => Some((s.url@, s.prefix@)),
                None => None,
            },
            system_dependencies: self.system_dependencies@.map_values(|p: SystemPackages| p@),
            requirements: self.requirements@.map_values(|p: Prerequisite| p@),
            instructions: self.instructions@.map_values(|s: BuildStep| s@),
        }
    }
}

// ---------------------------------------------------------------------------
// The plans
// ---------------------------------------------------------------------------

/// static-php-cli builds PHP 8 when no custom configure flags are set;
/// php.net's configure/make builds everything else.
pub open spec fn uses_static_php_cli(version: Seq<char>, config: PhpPluginConfig) -> bool {
    has_prefix(version, "8."@) && config.configure_opts is None
}

/// The configure flags that the user added.
pub open spec fn extra_configure_opts(config: PhpPluginConfig) -> Seq<Seq<char>> {
    match config.configure_opts {
        Some(opts) => views(opts@),
        None => seq![],
    }
}

/// The extensions that static-php-cli's prebuilt binaries ship with.
pub open spec fn default_extensions() -> Seq<Seq<char>> {
    seq![
        "bcmath"@, "bz2"@, "calendar"@, "ctype"@, "curl"@, "dom"@, "exif"@, "fileinfo"@,
        "filter"@, "ftp"@, "gd"@, "gmp"@, "iconv"@, "mbregex"@, "mbstring"@, "mysqlnd"@,
        "openssl"@, "pcntl"@, "pdo"@, "pdo_mysql"@, "pdo_pgsql"@, "pdo_sqlite"@, "pgsql"@,
        "phar"@, "posix"@, "redis"@, "session"@, "simplexml"@, "soap"@, "sockets"@,
        "sqlite3"@, "tokenizer"@, "xml"@, "xmlreader"@, "xmlwriter"@, "zip"@, "zlib"@,
    ]
}

/// The extensions of a static-php-cli build: the configured ones, or the
/// default set.
pub open spec fn build_extensions(config: PhpPluginConfig) -> Seq<Seq<char>> {
    match config.extensions {
        Some(e) => views(e@),
        None => default_extensions(),
    }
}

/// The binary that static-php-cli builds for a SAPI.
pub open spec fn sapi_binary(sapi: Seq<char>) -> Seq<char> {
    if sapi == "fpm"@ {
        "php-fpm"@
    } else if sapi == "micro"@ {
        "micro.sfx"@
    } else {
        "php"@
    }
}

/// Where the static-php-cli tool for the host is downloaded from.
pub open spec fn spc_download_url(os: HostOs, arch: HostArch) -> Seq<char> {
    "https://dl.static-php.dev/static-php-cli/spc-bin/nightly/spc-"@ + os_label(os) + "-"@
        + arch_label(arch)
}

/// The plan of a static-php-cli build.
pub open spec fn spc_plan(
    os: HostOs,
    arch: HostArch,
    version: Seq<char>,
    install_dir: Seq<char>,
    sapi: Seq<char>,
    extensions: Seq<Seq<char>>,
) -> PlanModel {
    let exts = join(extensions, ","@);
    let binary = sapi_binary(sapi);
    let target = install_dir + "/bin/"@ + binary;
    PlanModel {
        help_url: "https://static-php.dev/en/guide/troubleshooting.html"@,
        source: None,
        system_dependencies: seq![
            (PackageManager::Apt, seq!["build-essential"@, "cmake"@, "pkg-config"@]),
            (PackageManager::Brew, seq!["cmake"@, "pkg-config"@]),
            (PackageManager::Dnf, seq!["gcc"@, "gcc-c++"@, "make"@, "cmake"@, "pkgconf"@]),
        ],
        requirements: seq![
            PrerequisiteModel::XcodeCommandLineTools,
            PrerequisiteModel::CommandOnPath("curl"@),
        ],
        instructions: seq![
            StepModel::RunCommand(
                "curl"@,
                seq!["-fsSL"@, "-o"@, "spc"@, spc_download_url(os, arch)],
            ),
            StepModel::MakeExecutable("spc"@),
            StepModel::RunCommand(
                "./spc"@,
                seq![
                    "download"@,
                    "--with-php="@ + version,
                    "--for-extensions="@ + exts,
                    "--prefer-pre-built"@,
                ],
            ),
            StepModel::RunCommand("./spc"@, seq!["doctor"@, "--auto-fix"@]),
            StepModel::RunCommand("./spc"@, seq!["build"@, exts, "--build-"@ + sapi]),
            StepModel::MoveFile("buildroot/bin/"@ + binary, target),
            StepModel::MakeExecutable(target),
        ],
    }
}

/// The arguments of `./configure` in a php.net build: the install prefix,
/// the default extensions, then the user's flags.
pub open spec fn configure_args(install_dir: Seq<char>, extra: Seq<Seq<char>>) -> Seq<Seq<char>> {
    seq![
        "--prefix="@ + install_dir,
        "--enable-mbstring"@,
        "--enable-bcmath"@,
        "--enable-pcntl"@,
        "--with-openssl"@,
        "--with-curl"@,
        "--with-zlib"@,
        "--with-pdo-sqlite"@,
    ] + extra
}

/// The Debian/Ubuntu packages of a php.net build.
pub open spec fn phpnet_apt_packages() -> Seq<Seq<char>> {
    seq![
        "build-essential"@, "autoconf"@, "bison"@, "re2c"@, "pkg-config"@, "libxml2-dev"@,
        "libsqlite3-dev"@, "libssl-dev"@, "libcurl4-openssl-dev"@, "libonig-dev"@,
        "libreadline-dev"@, "libzip-dev"@, "zlib1g-dev"@, "libicu-dev"@,
    ]
}

/// The Homebrew packages of a php.net build.
pub open spec fn phpnet_brew_packages() -> Seq<Seq<char>> {
    seq![
        "autoconf"@, "bison"@, "re2c"@, "pkg-config"@, "libxml2"@, "openssl@3"@, "curl"@,
        "oniguruma"@, "readline"@, "libzip"@, "zlib"@, "icu4c"@,
    ]
}

/// The Fedora/RHEL packages of a php.net build.
pub open spec fn phpnet_dnf_packages() -> Seq<Seq<char>> {
    seq![
        "gcc"@, "gcc-c++"@, "make"@, "autoconf"@, "bison"@, "re2c"@, "pkgconf"@,
        "libxml2-devel"@, "sqlite-devel"@, "openssl-devel"@, "libcurl-devel"@,
        "oniguruma-devel"@, "readline-devel"@, "libzip-devel"@, "zlib-devel"@,
        "libicu-devel"@,
    ]
}

/// The plan of a php.net configure/make build.
pub open spec fn phpnet_plan(version: Seq<char>, install_dir: Seq<char>, extra: Seq<Seq<char>>) -> PlanModel {
    PlanModel {
        help_url: "https://www.php.net/manual/en/install.unix.php"@,
        source: Some(
            (
                "https://www.php.net/distributions/php-"@ + version + ".tar.xz"@,
                "php-"@ + version,
            ),
        ),
        system_dependencies: seq![
            (PackageManager::Apt, phpnet_apt_packages()),
            (PackageManager::Brew, phpnet_brew_packages()),
            (PackageManager::Dnf, phpnet_dnf_packages()),
        ],
        requirements: seq![
            PrerequisiteModel::XcodeCommandLineTools,
            PrerequisiteModel::CommandOnPath("make"@),
            PrerequisiteModel::CommandOnPath("autoconf"@),
        ],
        instructions: seq![
            StepModel::RunCommand("./configure"@, configure_args(install_dir, extra)),
            StepModel::RunCommand("make"@, seq!["-j4"@]),
            StepModel::RunCommand("make"@, seq!["install"@]),
        ],
    }
}

/// The plan for a host, a version and a configuration.
pub open spec fn plan_for(
    os: HostOs,
    arch: HostArch,
    version: Seq<char>,
    install_dir: Seq<char>,
    config: PhpPluginConfig,
) -> PlanModel {
    if uses_static_php_cli(version, config) {
        spc_plan(os, arch, version, install_dir, config.sapi@, build_extensions(config))
    } else {
        phpnet_plan(version, install_dir, extra_configure_opts(config))
    }
}

// ---------------------------------------------------------------------------
// Building the plans
// ---------------------------------------------------------------------------

fn owned(s: &str) -> (r: String)
    ensures
        r@ == s@,
{
    String::from_str(s)
}

fn joined(a: &str, b: &str) -> (r: String)
    ensures
        r@ == a@ + b@,
{
    let mut r = String::from_str(a);
    r.append(b);
    r
}

/// The message for a build requested on Windows.
pub fn windows_build_message() -> (r: String)
    ensures
        r@ == "Building PHP from source is not supported on Windows. Use prebuilt binaries."@,
{
    owned("Building PHP from source is not supported on Windows. Use prebuilt binaries.")
}

/// The extensions of a static-php-cli build.
fn extensions_of(config: &PhpPluginConfig) -> (r: Vec<String>)
    ensures
        views(r@) == build_extensions(*config),
{
    match &config.extensions {
        Some(e) => {
            let mut out: Vec<String> = Vec::new();
            let mut i: usize = 0;
            while i < e.len()
                invariant
                    i <= e.len(),
                    out@.len() == i,
                    forall|k: int| 0 <= k < i ==> #[trigger] out@[k]@ == e@[k]@,
                decreases e.len() - i,
            {
                let c = e[i].clone();
                out.push(c);
                i = i + 1;
            }
            assert(views(out@) =~= views(e@));
            out
        },
        None => {
            let out = vec![
                owned("bcmath"), owned("bz2"), owned("calendar"), owned("ctype"), owned("curl"),
                owned("dom"), owned("exif"), owned("fileinfo"), owned("filter"), owned("ftp"),
                owned("gd"), owned("gmp"), owned("iconv"), owned("mbregex"), owned("mbstring"),
                owned("mysqlnd"), owned("openssl"), owned("pcntl"), owned("pdo"),
                owned("pdo_mysql"), owned("pdo_pgsql"), owned("pdo_sqlite"), owned("pgsql"),
                owned("phar"), owned("posix"), owned("redis"), owned("session"),
                owned("simplexml"), owned("soap"), owned("sockets"), owned("sqlite3"),
                owned("tokenizer"), owned("xml"), owned("xmlreader"), owned("xmlwriter"),
                owned("zip"), owned("zlib"),
            ];
            assert(views(out@) =~= default_extensions());
            out
        },
    }
}

/// The binary that static-php-cli builds for a SAPI.
fn binary_for_sapi(sapi: &str) -> (r: &'static str)
    ensures
        r@ == sapi_binary(sapi@),
{
    if same_text(sapi, "fpm") {
        "php-fpm"
    } else if same_text(sapi, "micro") {
        "micro.sfx"
    } else {
        "php"
    }
}

#[verifier::rlimit(50)]
fn spc_build_plan(
    os: HostOs,
    arch: HostArch,
    version: &str,
    install_dir: &str,
    sapi: &str,
    extensions: &Vec<String>,
) -> (r: BuildPlan)
    ensures
        r@ == spc_plan(os, arch, version@, install_dir@, sapi@, views(extensions@)),
{
    let exts = join_text(extensions, ",");
    let binary = binary_for_sapi(sapi);
    let mut target = joined(install_dir, "/bin/");
    target.append(binary);
    let mut spc_url = joined(
        "https://dl.static-php.dev/static-php-cli/spc-bin/nightly/spc-",
        map_os(os),
    );
    spc_url.append("-");
    spc_url.append(map_arch(arch));

    let apt = SystemPackages {
        manager: PackageManager::Apt,
        packages: vec![owned("build-essential"), owned("cmake"), owned("pkg-config")],
    };
    let brew = SystemPackages {
        manager: PackageManager::Brew,
        packages: vec![owned("cmake"), owned("pkg-config")],
    };
    let dnf = SystemPackages {
        manager: PackageManager::Dnf,
        packages: vec![owned("gcc"), owned("gcc-c++"), owned("make"), owned("cmake"), owned("pkgconf")],
    };
    assert(apt@ == (PackageManager::Apt, seq!["build-essential"@, "cmake"@, "pkg-config"@])) by {
        assert(views(apt.packages@) =~= seq!["build-essential"@, "cmake"@, "pkg-config"@]);
    }
    assert(brew@ == (PackageManager::Brew, seq!["cmake"@, "pkg-config"@])) by {
        assert(views(brew.packages@) =~= seq!["cmake"@, "pkg-config"@]);
    }
    assert(dnf@ == (PackageManager::Dnf, seq!["gcc"@, "gcc-c++"@, "make"@, "cmake"@, "pkgconf"@])) by {
        assert(views(dnf.packages@) =~= seq!["gcc"@, "gcc-c++"@, "make"@, "cmake"@, "pkgconf"@]);
    }
    let system_dependencies = vec![apt, brew, dnf];

    let requirements = vec![
        Prerequisite::XcodeCommandLineTools,
        Prerequisite::CommandOnPath(owned("curl")),
    ];

    let curl_args = vec![owned("-fsSL"), owned("-o"), owned("spc"), spc_url];
    let download_args = vec![
        owned("download"),
        joined("--with-php=", version),
        joined("--for-extensions=", exts.as_str()),
        owned("--prefer-pre-built"),
    ];
    let doctor_args = vec![owned("doctor"), owned("--auto-fix")];
    let build_args = vec![owned("build"), exts, joined("--build-", sapi)];
    let ghost exts_v = join(views(extensions@), ","@);
    let ghost target_v = install_dir@ + "/bin/"@ + sapi_binary(sapi@);
    assert(views(curl_args@) =~= seq!["-fsSL"@, "-o"@, "spc"@, spc_download_url(os, arch)]);
    assert(views(download_args@) =~= seq![
        "download"@,
        "--with-php="@ + version@,
        "--for-extensions="@ + exts_v,
        "--prefer-pre-built"@,
    ]);
    assert(views(doctor_args@) =~= seq!["doctor"@, "--auto-fix"@]);
    assert(views(build_args@) =~= seq!["build"@, exts_v, "--build-"@ + sapi@]);
    let moved_from = joined("buildroot/bin/", binary);
    let instructions = vec![
        BuildStep::RunCommand { exe: owned("curl"), args: curl_args },
        BuildStep::MakeExecutable(owned("spc")),
        BuildStep::RunCommand { exe: owned("./spc"), args: download_args },
        BuildStep::RunCommand { exe: owned("./spc"), args: doctor_args },
        BuildStep::RunCommand { exe: owned("./spc"), args: build_args },
        BuildStep::MoveFile(moved_from, target.clone()),
        BuildStep::MakeExecutable(target),
    ];
    let r = BuildPlan {
        help_url: owned("https://static-php.dev/en/guide/troubleshooting.html"),
        source: None,
        system_dependencies,
        requirements,
        instructions,
    };
    let ghost expected = spc_plan(os, arch, version@, install_dir@, sapi@, views(extensions@));
    assert(r@.system_dependencies =~= expected.system_dependencies);
    assert(r@.requirements =~= expected.requirements);
    assert(r@.instructions =~= expected.instructions);
    r
}

#[verifier::rlimit(50)]
fn phpnet_build_plan(version: &str, install_dir: &str, extra: &Vec<String>) -> (r: BuildPlan)
    ensures
        r@ == phpnet_plan(version@, install_dir@, views(extra@)),
{
    let mut args = vec![
        joined("--prefix=", install_dir),
        owned("--enable-mbstring"),
        owned("--enable-bcmath"),
        owned("--enable-pcntl"),
        owned("--with-openssl"),
        owned("--with-curl"),
        owned("--with-zlib"),
        owned("--with-pdo-sqlite"),
    ];
    let ghost base = views(args@);
    assert(base =~= configure_args(install_dir@, seq![]));
    let ghost n0 = args@.len();
    let mut i: usize = 0;
    while i < extra.len()
        invariant
            i <= extra.len(),
            n0 == base.len(),
            args@.len() == n0 + i,
            forall|k: int| 0 <= k < n0 ==> #[trigger] args@[k]@ == base[k],
            forall|k: int| 0 <= k < i ==> #[trigger] args@[n0 + k]@ == extra@[k]@,
        decreases extra.len() - i,
    {
        let c = extra[i].clone();
        args.push(c);
        i = i + 1;
    }
    assert(views(args@) =~= base + views(extra@)) by {
        assert forall|k: int| 0 <= k < args@.len() implies views(args@)[k] == (base + views(extra@))[k] by {
            if k >= n0 {
                assert(args@[n0 + (k - n0)]@ == extra@[k - n0]@);
            }
        }
    }
    assert(views(args@) =~= configure_args(install_dir@, views(extra@)));

    let apt = SystemPackages {
        manager: PackageManager::Apt,
        packages: vec![
            owned("build-essential"), owned("autoconf"), owned("bison"), owned("re2c"),
            owned("pkg-config"), owned("libxml2-dev"), owned("libsqlite3-dev"),
            owned("libssl-dev"), owned("libcurl4-openssl-dev"), owned("libonig-dev"),
            owned("libreadline-dev"), owned("libzip-dev"), owned("zlib1g-dev"),
            owned("libicu-dev"),
        ],
    };
    let brew = SystemPackages {
        manager: PackageManager::Brew,
        packages: vec![
            owned("autoconf"), owned("bison"), owned("re2c"), owned("pkg-config"),
            owned("libxml2"), owned("openssl@3"), owned("curl"), owned("oniguruma"),
            owned("readline"), owned("libzip"), owned("zlib"), owned("icu4c"),
        ],
    };
    let dnf = SystemPackages {
        manager: PackageManager::Dnf,
        packages: vec![
            owned("gcc"), owned("gcc-c++"), owned("make"), owned("autoconf"), owned("bison"),
            owned("re2c"), owned("pkgconf"), owned("libxml2-devel"), owned("sqlite-devel"),
            owned("openssl-devel"), owned("libcurl-devel"), owned("oniguruma-devel"),
            owned("readline-devel"), owned("libzip-devel"), owned("zlib-devel"),
            owned("libicu-devel"),
        ],
    };
    assert(views(apt.packages@) =~= phpnet_apt_packages());
    assert(views(brew.packages@) =~= phpnet_brew_packages());
    assert(views(dnf.packages@) =~= phpnet_dnf_packages());
    let system_dependencies = vec![apt, brew, dnf];
    let requirements = vec![
        Prerequisite::XcodeCommandLineTools,
        Prerequisite::CommandOnPath(owned("make")),
        Prerequisite::CommandOnPath(owned("autoconf")),
    ];
    let make_args = vec![owned("-j4")];
    let install_args = vec![owned("install")];
    assert(views(make_args@) =~= seq!["-j4"@]);
    assert(views(install_args@) =~= seq!["install"@]);
    let instructions = vec![
        BuildStep::RunCommand { exe: owned("./configure"), args },
        BuildStep::RunCommand { exe: owned("make"), args: make_args },
        BuildStep::RunCommand { exe: owned("make"), args: install_args },
    ];
    let mut url = joined("https://www.php.net/distributions/php-", version);
    url.append(".tar.xz");
    let r = BuildPlan {
        help_url: owned("https://www.php.net/manual/en/install.unix.php"),
        source: Some(SourceArchive { url, prefix: joined("php-", version) }),
        system_dependencies,
        requirements,
        instructions,
    };
    let ghost expected = phpnet_plan(version@, install_dir@, views(extra@));
    assert(r@.system_dependencies =~= expected.system_dependencies);
    assert(r@.requirements =~= expected.requirements);
    assert(r@.instructions =~= expected.instructions);
    r
}

/// The instructions for building PHP from source on the host.
///
/// Windows is refused before the configuration is looked at. PHP 8 without
/// custom configure flags is built with static-php-cli, with the configured
/// SAPI and extensions; everything else is built with php.net's
/// configure/make, the user's configure flags after the defaults.
///
/// `version` is the version as proto writes it; `install_dir` is the
/// directory that the build installs into.
pub fn build_instructions<E>(
    os: HostOs,
    arch: HostArch,
    version: &str,
    install_dir: &str,
    config: Result<PhpPluginConfig, E>,
) -> (r: Result<BuildPlan, BuildError<E>>)
    ensures
        os == HostOs::Windows ==> r matches Err(BuildError::WindowsUnsupported),
        os != HostOs::Windows && config is Err ==> r == Err::<BuildPlan, BuildError<E>>(
            BuildError::Config(config->Err_0),
        ),
        os != HostOs::Windows && config is Ok ==> (r matches Ok(plan) && plan@ == plan_for(
            os,
            arch,
            version@,
            install_dir@,
            config->Ok_0,
        )),
{
    if os == HostOs::Windows {
        return Err(BuildError::WindowsUnsupported);
    }
    let config = match config {
        Ok(c) => c,
        Err(e) => return Err(BuildError::Config(e)),
    };
    match &config.configure_opts {
        Some(opts) => Ok(phpnet_build_plan(version, install_dir, opts)),
        None => if starts_with(version, "8.") {
            let exts = extensions_of(&config);
            Ok(spc_build_plan(os, arch, version, install_dir, config.sapi.as_str(), &exts))
        } else {
            let none: Vec<String> = Vec::new();
            assert(views(none@) =~= seq![]);
            Ok(phpnet_build_plan(version, install_dir, &none))
        },
    }
}

// ---------------------------------------------------------------------------
// Laws
// ---------------------------------------------------------------------------

/// Setting configure flags selects php.net's configure/make build, for PHP 8
/// too, and the flags are passed after the default ones.
pub proof fn law_configure_opts_select_phpnet(
    os: HostOs,
    arch: HostArch,
    version: Seq<char>,
    install_dir: Seq<char>,
    config: PhpPluginConfig,
)
    requires
        config.configure_opts is Some,
    ensures
        plan_for(os, arch, version, install_dir, config) == phpnet_plan(
            version,
            install_dir,
            views(config.configure_opts->0@),
        ),
        plan_for(os, arch, version, install_dir, config).instructions[0] == StepModel::RunCommand(
            "./configure"@,
            configure_args(install_dir, seq![]) + views(config.configure_opts->0@),
        ),
{
    assert(configure_args(install_dir, seq![]) + views(config.configure_opts->0@) =~= configure_args(
        install_dir,
        views(config.configure_opts->0@),
    ));
}

/// Versions other than PHP 8 are built with php.net's configure/make.
pub proof fn law_other_versions_build_with_phpnet(
    os: HostOs,
    arch: HostArch,
    version: Seq<char>,
    install_dir: Seq<char>,
    config: PhpPluginConfig,
)
    requires
        !has_prefix(version, "8."@),
    ensures
        plan_for(os, arch, version, install_dir, config) == phpnet_plan(
            version,
            install_dir,
            extra_configure_opts(config),
        ),
{
}

/// A static-php-cli build builds the configured SAPI, and downloads no
/// source archive.
pub proof fn law_static_php_cli_builds_configured_sapi(
    os: HostOs,
    arch: HostArch,
    version: Seq<char>,
    install_dir: Seq<char>,
    config: PhpPluginConfig,
)
    requires
        uses_static_php_cli(version, config),
    ensures
        plan_for(os, arch, version, install_dir, config).source is None,
        plan_for(os, arch, version, install_dir, config).instructions[4] == StepModel::RunCommand(
            "./spc"@,
            seq!["build"@, join(build_extensions(config), ","@), "--build-"@ + config.sapi@],
        ),
{
}

/// php.net's configure/make build does not depend on the SAPI: two
/// configurations that differ in nothing the plan reads but the SAPI give
/// the same plan.
pub proof fn law_phpnet_build_ignores_sapi(
    os: HostOs,
    arch: HostArch,
    version: Seq<char>,
    install_dir: Seq<char>,
    c1: PhpPluginConfig,
    c2: PhpPluginConfig,
)
    requires
        !uses_static_php_cli(version, c1),
        c1.configure_opts == c2.configure_opts,
    ensures
        plan_for(os, arch, version, install_dir, c1) == plan_for(os, arch, version, install_dir, c2),
{
}

} // verus!

//! What the plugin promises, stated with the literal texts of PHP's release
//! conventions, the README and the plugin's documentation, and proved of the
//! specifications that the library's contracts use.
use crate::build_plan::{plan_for, PackageManager, PrerequisiteModel, StepModel};
use crate::config::PhpPluginConfig;
use crate::download::{
    concat_pieces, fill_dist_url, is_template_piece, lemma_fill_pieces, no_open_brace,
    placeholders, prebuilt_file_name, prebuilt_refusal, prebuilt_url, DownloadError,
};
use crate::outside::json_document_strings;
use crate::version_files::composer_php_requirement;
use crate::versions::is_stable_alias;
use crate::platform::{arch_label, os_label, HostArch, HostOs};
use crate::text::{has_infix_ignoring_ascii_case, has_prefix, join, views};
use crate::tool::php_exe_name;
use crate::versions::{
    decimal_value, is_ascii_digit, lemma_leading_digit_count, major_version, release_of_tag,
    releases_of_tags,
};
use vstd::prelude::*;

verus! {

// ---------------------------------------------------------------------------
// Windows downloads
// ---------------------------------------------------------------------------

/// php.net's Windows builds: PHP 7 is built with vc15, PHP 8.0 to 8.3 with
/// vs16, later versions with vs17; the file is the non-thread-safe x64 zip,
/// published under windows.php.net's releases directory. Neither the SAPI
/// nor the URL template matters.
pub proof fn law_windows_download_names(arch: HostArch, version: Seq<char>, config: PhpPluginConfig)
    ensures
        has_prefix(version, "7."@) ==> prebuilt_file_name(HostOs::Windows, arch, version, config.sapi@)
            == "php-"@ + version + "-nts-Win32-vc15-x64.zip"@,
        has_prefix(version, "8.0."@) || has_prefix(version, "8.1."@) || has_prefix(version, "8.2."@)
            || has_prefix(version, "8.3."@) ==> prebuilt_file_name(
            HostOs::Windows,
            arch,
            version,
            config.sapi@,
        ) == "php-"@ + version + "-nts-Win32-vs16-x64.zip"@,
        !has_prefix(version, "7."@) && !has_prefix(version, "8.0."@) && !has_prefix(version, "8.1."@)
            && !has_prefix(version, "8.2."@) && !has_prefix(version, "8.3."@) ==> prebuilt_file_name(
            HostOs::Windows,
            arch,
            version,
            config.sapi@,
        ) == "php-"@ + version + "-nts-Win32-vs17-x64.zip"@,
        prebuilt_url(HostOs::Windows, arch, version, config) == "https://windows.php.net/downloads/releases/"@
            + prebuilt_file_name(HostOs::Windows, arch, version, config.sapi@),
{
    reveal_strlit("-nts-Win32-");
    reveal_strlit("-x64.zip");
    reveal_strlit("vc15");
    reveal_strlit("vs16");
    reveal_strlit("vs17");
    reveal_strlit("-nts-Win32-vc15-x64.zip");
    reveal_strlit("-nts-Win32-vs16-x64.zip");
    reveal_strlit("-nts-Win32-vs17-x64.zip");
    reveal_strlit("7.");
    reveal_strlit("8.0.");
    reveal_strlit("8.1.");
    reveal_strlit("8.2.");
    reveal_strlit("8.3.");
    if has_prefix(version, "8.0."@) || has_prefix(version, "8.1."@) || has_prefix(version, "8.2."@)
        || has_prefix(version, "8.3."@) {
        assert(version[0] == version.take(4)[0]);
        assert(version[0] == '8');
        if has_prefix(version, "7."@) {
            assert(version[0] == version.take(2)[0]);
        }
    }
    let php = "php-"@;
    assert(php + version + "-nts-Win32-"@ + "vc15"@ + "-x64.zip"@ =~= php + version
        + "-nts-Win32-vc15-x64.zip"@);
    assert(php + version + "-nts-Win32-"@ + "vs16"@ + "-x64.zip"@ =~= php + version
        + "-nts-Win32-vs16-x64.zip"@);
    assert(php + version + "-nts-Win32-"@ + "vs17"@ + "-x64.zip"@ =~= php + version
        + "-nts-Win32-vs17-x64.zip"@);
}

// ---------------------------------------------------------------------------
// Builds from source
// ---------------------------------------------------------------------------

/// A php.net build downloads `php-<version>.tar.xz` from php.net's
/// distributions directory, and the archive unpacks to `php-<version>`: the
/// file is named after the directory it holds. This is the build for any
/// version other than PHP 8, and for every version once configure flags
/// are set.
pub proof fn law_phpnet_source_archive(
    os: HostOs,
    arch: HostArch,
    version: Seq<char>,
    install_dir: Seq<char>,
    config: PhpPluginConfig,
)
    requires
        config.configure_opts is Some || !has_prefix(version, "8."@),
    ensures
        plan_for(os, arch, version, install_dir, config).source == Some(
            (
                "https://www.php.net/distributions/php-"@ + version + ".tar.xz"@,
                "php-"@ + version,
            ),
        ),
        plan_for(os, arch, version, install_dir, config).source matches Some((url, prefix))
            && url == "https://www.php.net/distributions/"@ + prefix + ".tar.xz"@,
{
    reveal_strlit("https://www.php.net/distributions/php-");
    reveal_strlit("https://www.php.net/distributions/");
    reveal_strlit("php-");
    assert("https://www.php.net/distributions/php-"@ + version =~= "https://www.php.net/distributions/"@
        + ("php-"@ + version));
}

/// The `./configure` flags of a php.net build, as the README lists them:
/// the install prefix, the default extensions, then the user's flags; then
/// `make -j4` and `make install`.
pub proof fn law_phpnet_commands(
    os: HostOs,
    arch: HostArch,
    version: Seq<char>,
    install_dir: Seq<char>,
    config: PhpPluginConfig,
)
    requires
        config.configure_opts is Some || !has_prefix(version, "8."@),
    ensures
        plan_for(os, arch, version, install_dir, config).instructions == seq![
            StepModel::RunCommand(
                "./configure"@,
                seq![
                    "--prefix="@ + install_dir,
                    "--enable-mbstring"@,
                    "--enable-bcmath"@,
                    "--enable-pcntl"@,
                    "--with-openssl"@,
                    "--with-curl"@,
                    "--with-zlib"@,
                    "--with-pdo-sqlite"@,
                ] + match config.configure_opts {
                    Some(o) => views(o@),
                    None => Seq::<Seq<char>>::empty(),
                },
            ),
            StepModel::RunCommand("make"@, seq!["-j4"@]),
            StepModel::RunCommand("make"@, seq!["install"@]),
        ],
{
}

/// The system packages of a php.net build, as the README lists them for
/// apt, brew and dnf.
pub proof fn law_phpnet_system_dependencies(
    os: HostOs,
    arch: HostArch,
    version: Seq<char>,
    install_dir: Seq<char>,
    config: PhpPluginConfig,
)
    requires
        config.configure_opts is Some || !has_prefix(version, "8."@),
    ensures
        plan_for(os, arch, version, install_dir, config).system_dependencies == seq![
            (
                PackageManager::Apt,
                seq![
                    "build-essential"@, "autoconf"@, "bison"@, "re2c"@, "pkg-config"@,
                    "libxml2-dev"@, "libsqlite3-dev"@, "libssl-dev"@, "libcurl4-openssl-dev"@,
                    "libonig-dev"@, "libreadline-dev"@, "libzip-dev"@, "zlib1g-dev"@,
                    "libicu-dev"@,
                ],
            ),
            (
                PackageManager::Brew,
                seq![
                    "autoconf"@, "bison"@, "re2c"@, "pkg-config"@, "libxml2"@, "openssl@3"@,
                    "curl"@, "oniguruma"@, "readline"@, "libzip"@, "zlib"@, "icu4c"@,
                ],
            ),
            (
                PackageManager::Dnf,
                seq![
                    "gcc"@, "gcc-c++"@, "make"@, "autoconf"@, "bison"@, "re2c"@, "pkgconf"@,
                    "libxml2-devel"@, "sqlite-devel"@, "openssl-devel"@, "libcurl-devel"@,
                    "oniguruma-devel"@, "readline-devel"@, "libzip-devel"@, "zlib-devel"@,
                    "libicu-devel"@,
                ],
            ),
        ],
{
}

/// The extensions that static-php-cli's prebuilt binaries ship with, as the
/// README lists them.
pub open spec fn readme_prebuilt_extensions() -> Seq<Seq<char>> {
    seq![
        "bcmath"@, "bz2"@, "calendar"@, "ctype"@, "curl"@, "dom"@, "exif"@, "fileinfo"@,
        "filter"@, "ftp"@, "gd"@, "gmp"@, "iconv"@, "mbregex"@, "mbstring"@, "mysqlnd"@,
        "openssl"@, "pcntl"@, "pdo"@, "pdo_mysql"@, "pdo_pgsql"@, "pdo_sqlite"@, "pgsql"@,
        "phar"@, "posix"@, "redis"@, "session"@, "simplexml"@, "soap"@, "sockets"@,
        "sqlite3"@, "tokenizer"@, "xml"@, "xmlreader"@, "xmlwriter"@, "zip"@, "zlib"@,
    ]
}

/// A static-php-cli build of PHP 8 without configured extensions downloads
/// and builds the extensions of the prebuilt binaries, comma-separated, as
/// the README gives the commands: `./spc download --with-php={version}
/// --for-extensions={exts} --prefer-pre-built` and `./spc build {exts}
/// --build-{sapi}`, after fetching spc for the host with curl.
pub proof fn law_spc_commands(
    os: HostOs,
    arch: HostArch,
    version: Seq<char>,
    install_dir: Seq<char>,
    config: PhpPluginConfig,
)
    requires
        has_prefix(version, "8."@),
        config.configure_opts is None,
        config.extensions is None,
    ensures
        plan_for(os, arch, version, install_dir, config).source is None,
        plan_for(os, arch, version, install_dir, config).instructions[0] == StepModel::RunCommand(
            "curl"@,
            seq![
                "-fsSL"@,
                "-o"@,
                "spc"@,
                "https://dl.static-php.dev/static-php-cli/spc-bin/nightly/spc-"@ + os_label(os)
                    + "-"@ + arch_label(arch),
            ],
        ),
        plan_for(os, arch, version, install_dir, config).instructions[2] == StepModel::RunCommand(
            "./spc"@,
            seq![
                "download"@,
                "--with-php="@ + version,
                "--for-extensions="@ + join(readme_prebuilt_extensions(), ","@),
                "--prefer-pre-built"@,
            ],
        ),
        plan_for(os, arch, version, install_dir, config).instructions[4] == StepModel::RunCommand(
            "./spc"@,
            seq!["build"@, join(readme_prebuilt_extensions(), ","@), "--build-"@ + config.sapi@],
        ),
        forall|i: int|
            0 <= i < readme_prebuilt_extensions().len() ==> crate::build_plan::build_extensions(
                config,
            ).contains(#[trigger] readme_prebuilt_extensions()[i]),
{
    let d = crate::build_plan::default_extensions();
    assert(d =~= readme_prebuilt_extensions());
    assert forall|i: int| 0 <= i < readme_prebuilt_extensions().len() implies crate::build_plan::build_extensions(
        config,
    ).contains(#[trigger] readme_prebuilt_extensions()[i]) by {
        assert(d[i] == readme_prebuilt_extensions()[i]);
    }
}

/// The system packages of a static-php-cli build, as the README lists them.
pub proof fn law_spc_system_dependencies(
    os: HostOs,
    arch: HostArch,
    version: Seq<char>,
    install_dir: Seq<char>,
    config: PhpPluginConfig,
)
    requires
        has_prefix(version, "8."@),
        config.configure_opts is None,
    ensures
        plan_for(os, arch, version, install_dir, config).system_dependencies == seq![
            (PackageManager::Apt, seq!["build-essential"@, "cmake"@, "pkg-config"@]),
            (PackageManager::Brew, seq!["cmake"@, "pkg-config"@]),
            (PackageManager::Dnf, seq!["gcc"@, "gcc-c++"@, "make"@, "cmake"@, "pkgconf"@]),
        ],
        plan_for(os, arch, version, install_dir, config).requirements.contains(
            PrerequisiteModel::CommandOnPath("curl"@),
        ),
{
    assert(plan_for(os, arch, version, install_dir, config).requirements[1]
        == PrerequisiteModel::CommandOnPath("curl"@));
}

// ---------------------------------------------------------------------------
// Platforms and executables
// ---------------------------------------------------------------------------

/// The names that download files and static-php-cli use for the host:
/// linux, macos, windows; x86_64 for x64 and aarch64 for arm64.
pub proof fn law_platform_labels()
    ensures
        os_label(HostOs::Linux) == "linux"@,
        os_label(HostOs::MacOS) == "macos"@,
        os_label(HostOs::Windows) == "windows"@,
        arch_label(HostArch::X64) == "x86_64"@,
        arch_label(HostArch::Arm64) == "aarch64"@,
{
}

/// The primary executable is `php.exe` on Windows and `php` on every other
/// host: prebuilt archives hold it at their root, on macOS as on Linux.
pub proof fn law_primary_executable(os1: HostOs, os2: HostOs)
    ensures
        php_exe_name(HostOs::Windows) == "php.exe"@,
        os1 != HostOs::Windows ==> php_exe_name(os1) == "php"@,
        os1 != HostOs::Windows && os2 != HostOs::Windows ==> php_exe_name(os1) == php_exe_name(os2),
{
}

// ---------------------------------------------------------------------------
// Releases
// ---------------------------------------------------------------------------

/// `v` mentions none of "rc", "alpha", "beta", in any case.
pub open spec fn names_no_prerelease(v: Seq<char>) -> bool {
    &&& !has_infix_ignoring_ascii_case(v, "rc"@)
    &&& !has_infix_ignoring_ascii_case(v, "alpha"@)
    &&& !has_infix_ignoring_ascii_case(v, "beta"@)
}

/// A version of the form `<digit 7 to 9>.…` (PHP 7, 8 or 9) or
/// `<digit 1 to 9><digit>.…` (PHP 10 to 99).
pub open spec fn has_release_major(v: Seq<char>) -> bool {
    ||| v.len() >= 2 && '7' <= v[0] && v[0] <= '9' && v[1] == '.'
    ||| v.len() >= 3 && '1' <= v[0] && v[0] <= '9' && '0' <= v[1] && v[1] <= '9' && v[2] == '.'
}

proof fn lemma_release_major(v: Seq<char>)
    requires
        has_release_major(v),
    ensures
        major_version(v) >= 7,
{
    reveal_with_fuel(decimal_value, 3);
    if v.len() >= 2 && '7' <= v[0] && v[0] <= '9' && v[1] == '.' {
        assert(is_ascii_digit(v[0]));
        lemma_leading_digit_count(v, 1);
        assert(v.take(1).drop_last() =~= Seq::<char>::empty());
        assert(v.take(1).last() == v[0]);
    } else {
        assert(is_ascii_digit(v[0]) && is_ascii_digit(v[1]));
        lemma_leading_digit_count(v, 2);
        assert(v.take(2).drop_last() =~= v.take(1));
        assert(v.take(1).drop_last() =~= Seq::<char>::empty());
        assert(v.take(2).last() == v[1]);
        assert(v.take(1).last() == v[0]);
    }
}

/// A php-src tag `php-<v>` names a release `v` when `v` is PHP 7 or later
/// and no pre-release.
proof fn lemma_release_of_php_tag(v: Seq<char>)
    requires
        has_release_major(v),
        names_no_prerelease(v),
    ensures
        release_of_tag("php-"@ + v) == Some(v),
{
    reveal_strlit("php-");
    lemma_release_major(v);
    let t = "php-"@ + v;
    assert(t.take(4) =~= "php-"@);
    assert(t.skip(4) =~= v);
    assert(is_ascii_digit(v[0]));
    assert(crate::versions::leading_digit_count(v) > 0);
}

/// Every tag `php-<v>` of a PHP 7 or later release (PHP 7, 8 and 9, and
/// two-digit majors from PHP 10 on) that is no RC, alpha or beta, in any
/// case, is offered: `v` is among the releases. So `php-8.0.30` gives
/// `8.0.30`, and `php-10.0.0` gives `10.0.0`.
pub proof fn law_releases_keep_stable_php_tags(tags: Seq<Seq<char>>, j: int, v: Seq<char>)
    requires
        0 <= j < tags.len(),
        tags[j] == "php-"@ + v,
        has_release_major(v),
        names_no_prerelease(v),
    ensures
        releases_of_tags(tags).contains(v),
    decreases tags.len(),
{
    lemma_release_of_php_tag(v);
    let rest = tags.drop_last();
    if j == tags.len() - 1 {
        assert(releases_of_tags(tags) == releases_of_tags(rest).push(v));
        assert(releases_of_tags(tags)[releases_of_tags(rest).len() as int] == v);
    } else {
        assert(rest[j] == tags[j]);
        law_releases_keep_stable_php_tags(rest, j, v);
        let k = choose|k: int| 0 <= k < releases_of_tags(rest).len() && releases_of_tags(rest)[k] == v;
        match release_of_tag(tags.last()) {
            Some(w) => {
                assert(releases_of_tags(tags)[k] == v);
            },
            None => {},
        }
    }
}

// ---------------------------------------------------------------------------
// Prebuilt downloads on Linux and macOS
// ---------------------------------------------------------------------------

/// static-php-cli's prebuilt files are named
/// `php-<version>-<sapi>-<os>-<arch>.tar.gz`, with linux/macos and
/// x86_64/aarch64.
pub proof fn law_static_download_names(version: Seq<char>, sapi: Seq<char>)
    ensures
        prebuilt_file_name(HostOs::Linux, HostArch::X64, version, sapi) == "php-"@ + version + "-"@
            + sapi + "-linux-x86_64.tar.gz"@,
        prebuilt_file_name(HostOs::Linux, HostArch::Arm64, version, sapi) == "php-"@ + version
            + "-"@ + sapi + "-linux-aarch64.tar.gz"@,
        prebuilt_file_name(HostOs::MacOS, HostArch::X64, version, sapi) == "php-"@ + version + "-"@
            + sapi + "-macos-x86_64.tar.gz"@,
        prebuilt_file_name(HostOs::MacOS, HostArch::Arm64, version, sapi) == "php-"@ + version
            + "-"@ + sapi + "-macos-aarch64.tar.gz"@,
{
    reveal_strlit("-");
    reveal_strlit(".tar.gz");
    reveal_strlit("linux");
    reveal_strlit("macos");
    reveal_strlit("x86_64");
    reveal_strlit("aarch64");
    reveal_strlit("-linux-x86_64.tar.gz");
    reveal_strlit("-linux-aarch64.tar.gz");
    reveal_strlit("-macos-x86_64.tar.gz");
    reveal_strlit("-macos-aarch64.tar.gz");
    let p = "php-"@ + version + "-"@ + sapi;
    assert(p + "-"@ + "linux"@ + "-"@ + "x86_64"@ + ".tar.gz"@ =~= p + "-linux-x86_64.tar.gz"@);
    assert(p + "-"@ + "linux"@ + "-"@ + "aarch64"@ + ".tar.gz"@ =~= p + "-linux-aarch64.tar.gz"@);
    assert(p + "-"@ + "macos"@ + "-"@ + "x86_64"@ + ".tar.gz"@ =~= p + "-macos-x86_64.tar.gz"@);
    assert(p + "-"@ + "macos"@ + "-"@ + "aarch64"@ + ".tar.gz"@ =~= p + "-macos-aarch64.tar.gz"@);
}

/// In a download URL template, `{version}` is filled in with the version,
/// `{sapi}` with the SAPI, `{os}` and `{arch}` with the host's names, and
/// `{file}` with the file name, wherever they stand.
pub proof fn law_template_placeholders(version: Seq<char>, sapi: Seq<char>, os: HostOs, arch: HostArch)
    requires
        no_open_brace(version),
        no_open_brace(sapi),
    ensures
        fill_dist_url("{file}|{arch}|{os}|{sapi}|{version}"@, version, sapi, os, arch) == prebuilt_file_name(
            os,
            arch,
            version,
            sapi,
        ) + "|"@ + arch_label(arch) + "|"@ + os_label(os) + "|"@ + sapi + "|"@ + version || os
            == HostOs::Windows,
{
    reveal_strlit("{file}|{arch}|{os}|{sapi}|{version}");
    reveal_strlit("{version}");
    reveal_strlit("{sapi}");
    reveal_strlit("{os}");
    reveal_strlit("{arch}");
    reveal_strlit("{file}");
    reveal_strlit("|");
    let bar = "|"@;
    let ps = seq!["{file}"@, bar, "{arch}"@, bar, "{os}"@, bar, "{sapi}"@, bar, "{version}"@];
    reveal_with_fuel(concat_pieces, 10);
    assert("{file}|{arch}|{os}|{sapi}|{version}"@ =~= concat_pieces(ps));
    assert(placeholders()[0] == "{version}"@ && placeholders()[1] == "{sapi}"@ && placeholders()[2]
        == "{os}"@ && placeholders()[3] == "{arch}"@ && placeholders()[4] == "{file}"@);
    assert forall|i: int| 0 <= i < ps.len() implies is_template_piece(#[trigger] ps[i]) by {
        if i == 0 {
            assert(placeholders()[4] == ps[i]);
        } else if i == 2 {
            assert(placeholders()[3] == ps[i]);
        } else if i == 4 {
            assert(placeholders()[2] == ps[i]);
        } else if i == 6 {
            assert(placeholders()[1] == ps[i]);
        } else if i == 8 {
            assert(placeholders()[0] == ps[i]);
        }
    }
    lemma_fill_pieces(ps, version, sapi, os, arch);
    let fs = crate::download::fill_pieces(ps, version, sapi, os, arch);
    assert(bar != "{version}"@ && bar != "{sapi}"@ && bar != "{os}"@ && bar != "{arch}"@ && bar
        != "{file}"@);
    assert("{file}"@ != "{version}"@ && "{file}"@ != "{sapi}"@ && "{file}"@ != "{os}"@
        && "{file}"@ != "{arch}"@) by {
        assert("{file}"@[1] != "{version}"@[1] && "{file}"@[1] != "{sapi}"@[1] && "{file}"@[1]
            != "{os}"@[1] && "{file}"@[1] != "{arch}"@[1]);
    }
    assert("{arch}"@ != "{version}"@ && "{arch}"@ != "{sapi}"@ && "{arch}"@ != "{os}"@) by {
        assert("{arch}"@[1] != "{version}"@[1] && "{arch}"@[1] != "{sapi}"@[1] && "{arch}"@[1]
            != "{os}"@[1]);
    }
    assert("{os}"@ != "{version}"@ && "{os}"@ != "{sapi}"@) by {
        assert("{os}"@[1] != "{version}"@[1] && "{os}"@[1] != "{sapi}"@[1]);
    }
    assert("{sapi}"@ != "{version}"@) by {
        assert("{sapi}"@[1] != "{version}"@[1]);
    }
    assert(concat_pieces(fs) =~= prebuilt_file_name(os, arch, version, sapi) + bar + arch_label(arch)
        + bar + os_label(os) + bar + sapi + bar + version || os == HostOs::Windows);
}

/// A prebuilt binary is offered exactly when the version is not "canary",
/// the configuration was read, its SAPI is "cli", "fpm" or "micro",
/// prebuilt binaries are enabled, and the host is Linux or macOS on x64 or
/// arm64, or Windows on x64.
pub proof fn law_prebuilt_offered<E>(
    os: HostOs,
    arch: HostArch,
    version: Seq<char>,
    config: Result<PhpPluginConfig, E>,
)
    ensures
        prebuilt_refusal(os, arch, version, config) is None <==> {
            &&& version != "canary"@
            &&& config matches Ok(c) && c.prebuilt && (c.sapi@ == "cli"@ || c.sapi@ == "fpm"@
                || c.sapi@ == "micro"@)
            &&& ((os == HostOs::Linux || os == HostOs::MacOS) && (arch == HostArch::X64 || arch
                == HostArch::Arm64) || os == HostOs::Windows && arch == HostArch::X64)
        },
        version == "canary"@ ==> prebuilt_refusal(os, arch, version, config) == Some(
            DownloadError::<E>::UnsupportedCanary,
        ),
{
    if os == HostOs::Windows {
        assert(seq![HostArch::X64][0] == HostArch::X64);
        if arch != HostArch::X64 {
            assert(!seq![HostArch::X64].contains(arch));
        }
    } else if os == HostOs::Linux || os == HostOs::MacOS {
        let archs = seq![HostArch::X64, HostArch::Arm64];
        assert(archs[0] == HostArch::X64 && archs[1] == HostArch::Arm64);
        if archs.contains(arch) {
            let i = choose|i: int| 0 <= i < archs.len() && archs[i] == arch;
            assert(i == 0 || i == 1);
        }
    }
}

// ---------------------------------------------------------------------------
// Version files and aliases
// ---------------------------------------------------------------------------

/// composer.json states the PHP requirement as the string at
/// `require` → `php`.
pub proof fn law_composer_requirement_path(content: Seq<char>)
    ensures
        composer_php_requirement(content) == match json_document_strings(content) {
            Some(m) => if m.contains_key(seq!["require"@, "php"@]) {
                Some(m[seq!["require"@, "php"@]])
            } else {
                None
            },
            None => None,
        },
{
}

/// The aliases that resolve to the newest release are "lts" and "stable",
/// and no other.
pub proof fn law_stable_aliases(alias: Option<&str>)
    ensures
        is_stable_alias(alias) <==> (alias matches Some(a) && (a@ == "lts"@ || a@ == "stable"@)),
{
}

/// Every release offered comes from a tag `php-<release>` of the list, and
/// mentions no "rc", "alpha" or "beta", in any case.
pub proof fn law_releases_are_stable_php_tags(tags: Seq<Seq<char>>)
    ensures
        forall|k: int|
            0 <= k < releases_of_tags(tags).len() ==> tags.contains(
                "php-"@ + #[trigger] releases_of_tags(tags)[k],
            ) && names_no_prerelease(releases_of_tags(tags)[k]),
{
    crate::versions::lemma_releases_come_from_tags(tags);
    reveal_strlit("php-");
    assert forall|k: int| 0 <= k < releases_of_tags(tags).len() implies tags.contains(
        "php-"@ + #[trigger] releases_of_tags(tags)[k],
    ) && names_no_prerelease(releases_of_tags(tags)[k]) by {
        let v = releases_of_tags(tags)[k];
        let j = choose|j: int| 0 <= j < tags.len() && release_of_tag(tags[j]) == Some(
            #[trigger] releases_of_tags(tags)[k],
        );
        let t = tags[j];
        assert(t =~= t.take(4) + t.skip(4));
        assert(t.take(4) =~= "php-"@);
        assert(t == "php-"@ + v);
    }
}

} // verus!

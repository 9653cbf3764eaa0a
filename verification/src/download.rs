//! Where the prebuilt PHP binaries for a host are downloaded from.
use crate::config::{default_dist_url, is_known_sapi, is_valid_sapi, PhpPluginConfig};
use crate::platform::{
    arch_label, check_supported_os_and_arch, map_arch, map_os, os_label, platform_check, HostArch,
    HostOs, PlatformError,
};
use crate::text::{
    closed_prefix, has_infix, has_prefix, lemma_closed_prefix_extend_free,
    lemma_closed_prefix_extend_piece, lemma_closed_prefix_without_first, lemma_replace_all_absent,
    lemma_replace_all_closed_prefix, occurs_at, replace_all, replace_text, same_text, starts_with,
};
use vstd::prelude::*;

verus! {

/// The name of the tool, as proto shows it.
pub fn tool_name() -> (r: &'static str)
    ensures
        r@ == "PHP"@,
{
    "PHP"
}

/// Where a prebuilt binary is downloaded from, and the name of the file.
pub struct PrebuiltDownload {
    pub download_url: String,
    pub download_name: String,
}

/// Why no prebuilt binary is offered. `E` is the error of reading the
/// plugin's configuration.
pub enum DownloadError<E> {
    /// Canary builds of PHP are not offered.
    UnsupportedCanary,
    /// The configuration could not be read.
    Config(E),
    /// The configured SAPI is not one that static-php-cli provides.
    InvalidSapi(String),
    /// Prebuilt binaries are disabled in the configuration.
    PrebuiltDisabled,
    /// No prebuilt binary exists for the host platform.
    Platform(PlatformError),
}

/// The Visual Studio toolset that php.net's Windows builds of a version are
/// made with: vc15 for PHP 7, vs16 for PHP 8.0 to 8.3, vs17 after.
pub open spec fn windows_toolset(version: Seq<char>) -> Seq<char> {
    if has_prefix(version, "7."@) {
        "vc15"@
    } else if has_prefix(version, "8.0."@) || has_prefix(version, "8.1."@) || has_prefix(
        version,
        "8.2."@,
    ) || has_prefix(version, "8.3."@) {
        "vs16"@
    } else {
        "vs17"@
    }
}

/// The file name of php.net's Windows build (non-thread-safe, x64).
pub open spec fn windows_file_name(version: Seq<char>) -> Seq<char> {
    "php-"@ + version + "-nts-Win32-"@ + windows_toolset(version) + "-x64.zip"@
}

/// Where php.net publishes its Windows builds.
pub open spec fn windows_release_base() -> Seq<char> {
    "https://windows.php.net/downloads/releases/"@
}

/// The file name of a static-php-cli build.
pub open spec fn static_file_name(version: Seq<char>, sapi: Seq<char>, os: HostOs, arch: HostArch) -> Seq<char> {
    "php-"@ + version + "-"@ + sapi + "-"@ + os_label(os) + "-"@ + arch_label(arch) + ".tar.gz"@
}

/// The download URL template with its placeholders filled in: `{version}`,
/// `{sapi}`, `{os}`, `{arch}` and `{file}`, in that order.
pub open spec fn fill_dist_url(
    template: Seq<char>,
    version: Seq<char>,
    sapi: Seq<char>,
    os: HostOs,
    arch: HostArch,
) -> Seq<char> {
    let a = replace_all(template, "{version}"@, version);
    let b = replace_all(a, "{sapi}"@, sapi);
    let c = replace_all(b, "{os}"@, os_label(os));
    let d = replace_all(c, "{arch}"@, arch_label(arch));
    replace_all(d, "{file}"@, static_file_name(version, sapi, os, arch))
}

/// The file name of the prebuilt binary for the host.
pub open spec fn prebuilt_file_name(os: HostOs, arch: HostArch, version: Seq<char>, sapi: Seq<char>) -> Seq<char> {
    if os == HostOs::Windows {
        windows_file_name(version)
    } else {
        static_file_name(version, sapi, os, arch)
    }
}

/// The download URL of the prebuilt binary for the host.
pub open spec fn prebuilt_url(
    os: HostOs,
    arch: HostArch,
    version: Seq<char>,
    config: PhpPluginConfig,
) -> Seq<char> {
    if os == HostOs::Windows {
        windows_release_base() + windows_file_name(version)
    } else {
        fill_dist_url(config.dist_url@, version, config.sapi@, os, arch)
    }
}

/// Why no prebuilt binary is offered, checked in this order: a canary
/// version, a configuration that could not be read, an unknown SAPI,
/// prebuilt binaries disabled, an unsupported platform. `None` when one is
/// offered.
pub open spec fn prebuilt_refusal<E>(
    os: HostOs,
    arch: HostArch,
    version: Seq<char>,
    config: Result<PhpPluginConfig, E>,
) -> Option<DownloadError<E>> {
    if version == "canary"@ {
        Some(DownloadError::UnsupportedCanary)
    } else {
        match config {
            Err(e) => Some(DownloadError::Config(e)),
            Ok(c) => if !is_known_sapi(c.sapi@) {
                Some(DownloadError::InvalidSapi(c.sapi))
            } else if !c.prebuilt {
                Some(DownloadError::PrebuiltDisabled)
            } else {
                match platform_check(os, arch) {
                    Err(p) => Some(DownloadError::Platform(p)),
                    Ok(_) => None,
                }
            },
        }
    }
}

/// The Visual Studio toolset of php.net's Windows builds of `version`.
pub fn windows_toolset_for(version: &str) -> (r: &'static str)
    ensures
        r@ == windows_toolset(version@),
{
    if starts_with(version, "7.") {
        "vc15"
    } else if starts_with(version, "8.0.") || starts_with(version, "8.1.") || starts_with(
        version,
        "8.2.",
    ) || starts_with(version, "8.3.") {
        "vs16"
    } else {
        "vs17"
    }
}

/// The message for a SAPI that static-php-cli does not provide.
pub fn invalid_sapi_message(sapi: &str) -> (r: String)
    ensures
        r@ == "Invalid sapi '"@ + sapi@ + "'. Must be one of: cli, fpm, micro"@,
{
    let mut m = String::from_str("Invalid sapi '");
    m.append(sapi);
    m.append("'. Must be one of: cli, fpm, micro");
    m
}

/// The message for prebuilt binaries disabled in the configuration.
pub fn prebuilt_disabled_message() -> (r: String)
    ensures
        r@ == "Prebuilt binaries disabled via config. Will build from source."@,
{
    String::from_str("Prebuilt binaries disabled via config. Will build from source.")
}

/// The prebuilt binary for the host: on Windows, php.net's official
/// non-thread-safe build; on Linux and macOS, static-php-cli's build of the
/// configured SAPI, at the configured URL template.
///
/// `version` is the resolved version as proto writes it ("canary" for a
/// canary build); `config` is the plugin's configuration, or the error of
/// reading it.
pub fn download_prebuilt<E>(
    os: HostOs,
    arch: HostArch,
    version: &str,
    config: Result<PhpPluginConfig, E>,
) -> (r: Result<PrebuiltDownload, DownloadError<E>>)
    ensures
        r is Err <==> prebuilt_refusal(os, arch, version@, config) is Some,
        r matches Err(e) ==> prebuilt_refusal(os, arch, version@, config) == Some(e),
        r matches Ok(d) ==> config matches Ok(c) && d.download_name@ == prebuilt_file_name(
            os,
            arch,
            version@,
            c.sapi@,
        ) && d.download_url@ == prebuilt_url(os, arch, version@, c),
{
    if same_text(version, "canary") {
        return Err(DownloadError::UnsupportedCanary);
    }
    let config = match config {
        Ok(c) => c,
        Err(e) => return Err(DownloadError::Config(e)),
    };
    if !is_valid_sapi(config.sapi.as_str()) {
        return Err(DownloadError::InvalidSapi(config.sapi));
    }
    if !config.prebuilt {
        return Err(DownloadError::PrebuiltDisabled);
    }
    match check_supported_os_and_arch(os, arch) {
        Err(p) => return Err(DownloadError::Platform(p)),
        Ok(()) => {},
    }
    let os_name = map_os(os);
    let arch_name = map_arch(arch);
    if os == HostOs::Windows {
        let vs = windows_toolset_for(version);
        let mut filename = String::from_str("php-");
        filename.append(version);
        filename.append("-nts-Win32-");
        filename.append(vs);
        filename.append("-x64.zip");
        let mut download_url = String::from_str("https://windows.php.net/downloads/releases/");
        download_url.append(filename.as_str());
        return Ok(PrebuiltDownload { download_url, download_name: filename });
    }
    let sapi = config.sapi.as_str();
    let mut filename = String::from_str("php-");
    filename.append(version);
    filename.append("-");
    filename.append(sapi);
    filename.append("-");
    filename.append(os_name);
    filename.append("-");
    filename.append(arch_name);
    filename.append(".tar.gz");
    proof {
        reveal_strlit("{version}");
        reveal_strlit("{sapi}");
        reveal_strlit("{os}");
        reveal_strlit("{arch}");
        reveal_strlit("{file}");
    }
    let a = replace_text(config.dist_url.as_str(), "{version}", version);
    let b = replace_text(a.as_str(), "{sapi}", sapi);
    let c = replace_text(b.as_str(), "{os}", os_name);
    let d = replace_text(c.as_str(), "{arch}", arch_name);
    let download_url = replace_text(d.as_str(), "{file}", filename.as_str());
    Ok(PrebuiltDownload { download_url, download_name: filename })
}

// ---------------------------------------------------------------------------
// Laws
// ---------------------------------------------------------------------------

/// The placeholders of the download URL template, in the order they are
/// filled in.
pub open spec fn placeholders() -> Seq<Seq<char>> {
    seq!["{version}"@, "{sapi}"@, "{os}"@, "{arch}"@, "{file}"@]
}

/// `s` holds none of the placeholders from the `k`-th on.
pub open spec fn free_of_placeholders_from(s: Seq<char>, k: int) -> bool {
    forall|j: int| k <= j < 5 ==> !has_infix(s, #[trigger] placeholders()[j])
}

proof fn lemma_no_open_brace_in_labels(os: HostOs, arch: HostArch)
    ensures
        forall|i: int| 0 <= i < os_label(os).len() ==> os_label(os)[i] != '{',
        forall|i: int| 0 <= i < arch_label(arch).len() ==> arch_label(arch)[i] != '{',
{
    reveal_strlit("linux");
    reveal_strlit("macos");
    reveal_strlit("windows");
    reveal_strlit("unknown");
    reveal_strlit("x86_64");
    reveal_strlit("aarch64");
}

/// `from` does not occur in `s` when each of `s`'s characters that equals
/// `from`'s first is followed by one other than `from`'s second.
proof fn lemma_absent_by_second_char(s: Seq<char>, from: Seq<char>)
    requires
        from.len() >= 2,
        forall|i: int| 0 <= i < s.len() - 1 && #[trigger] s[i] == from[0] ==> s[i + 1] != from[1],
        s.len() == 0 || s[s.len() - 1] != from[0],
    ensures
        !has_infix(s, from),
{
    assert forall|i: int| !occurs_at(s, from, i) by {
        if occurs_at(s, from, i) {
            assert(s.subrange(i, i + from.len())[0] == from[0]);
            assert(s.subrange(i, i + from.len())[1] == from[1]);
        }
    }
}

/// With the default template, a static-php-cli build is downloaded from
/// static-php-cli's `common` directory, under its file name. It holds unless
/// the version holds a placeholder that is filled in after it ({sapi}, {os},
/// {arch}, {file}), or the SAPI one filled in after it ({os}, {arch},
/// {file}): those would be filled in too.
#[verifier::spinoff_prover]
#[verifier::rlimit(50)]
pub proof fn law_default_download_url(version: Seq<char>, sapi: Seq<char>, os: HostOs, arch: HostArch)
    requires
        free_of_placeholders_from(version, 1),
        free_of_placeholders_from(sapi, 2),
    ensures
        fill_dist_url(default_dist_url(), version, sapi, os, arch) == "https://dl.static-php.dev/static-php-cli/common/"@
            + static_file_name(version, sapi, os, arch),
{
    let b = "https://dl.static-php.dev/static-php-cli/common/php-"@;
    let p1 = "{version}"@;
    let p2 = "{sapi}"@;
    let p3 = "{os}"@;
    let p4 = "{arch}"@;
    let p5 = "{file}"@;
    let dash = "-"@;
    let ext = ".tar.gz"@;
    let a = os_label(os);
    let c = arch_label(arch);
    reveal_strlit("https://dl.static-php.dev/static-php-cli/common/php-");
    reveal_strlit("https://dl.static-php.dev/static-php-cli/common/");
    reveal_strlit("https://dl.static-php.dev/static-php-cli/common/php-{version}-{sapi}-{os}-{arch}.tar.gz");
    reveal_strlit("{version}");
    reveal_strlit("{sapi}");
    reveal_strlit("{os}");
    reveal_strlit("{arch}");
    reveal_strlit("{file}");
    reveal_strlit("-");
    reveal_strlit(".tar.gz");
    reveal_strlit("php-");
    lemma_no_open_brace_in_labels(os, arch);
    assert(!has_infix(version, p2) && !has_infix(version, p3) && !has_infix(version, p4)
        && !has_infix(version, p5)) by {
        assert(placeholders()[1] == p2);
        assert(placeholders()[2] == p3);
        assert(placeholders()[3] == p4);
        assert(placeholders()[4] == p5);
    }
    assert(!has_infix(sapi, p3) && !has_infix(sapi, p4) && !has_infix(sapi, p5)) by {
        assert(placeholders()[2] == p3);
        assert(placeholders()[3] == p4);
        assert(placeholders()[4] == p5);
    }
    assert(!p2.contains('-') && !p3.contains('-') && !p4.contains('-') && !p5.contains('-'));
    assert(dash =~= seq!['-']);
    let t1 = dash + p2 + dash + p3 + dash + p4 + ext;
    let t2 = dash + p3 + dash + p4 + ext;
    let t3 = dash + p4 + ext;
    assert(default_dist_url() =~= b + (p1 + t1));
    lemma_absent_by_second_char(t1, p1);
    lemma_absent_by_second_char(t2, p2);
    lemma_absent_by_second_char(t3, p3);
    lemma_absent_by_second_char(ext, p4);
    lemma_replace_all_absent(t1, p1, version);
    lemma_replace_all_absent(t2, p2, sapi);
    lemma_replace_all_absent(t3, p3, a);
    lemma_replace_all_absent(ext, p4, c);
    assert(forall|i: int| 0 <= i < b.len() ==> b[i] != '{');
    // {version}
    lemma_closed_prefix_without_first(b, p1);
    lemma_replace_all_closed_prefix(b, p1 + t1, p1, version);
    assert((p1 + t1).take(p1.len() as int) =~= p1);
    assert((p1 + t1).skip(p1.len() as int) =~= t1);
    let s1 = b + version + t1;
    assert(replace_all(default_dist_url(), p1, version) =~= s1);
    // {sapi}
    let x2 = b + version + seq!['-'];
    lemma_closed_prefix_without_first(b, p2);
    lemma_closed_prefix_extend_piece(b, version, '-', p2);
    assert(s1 =~= x2 + (p2 + t2));
    lemma_replace_all_closed_prefix(x2, p2 + t2, p2, sapi);
    assert((p2 + t2).take(p2.len() as int) =~= p2);
    assert((p2 + t2).skip(p2.len() as int) =~= t2);
    let s2 = x2 + sapi + t2;
    assert(replace_all(s1, p2, sapi) =~= s2);
    // {os}
    let x3 = x2 + sapi + seq!['-'];
    lemma_closed_prefix_without_first(b, p3);
    lemma_closed_prefix_extend_piece(b, version, '-', p3);
    lemma_closed_prefix_extend_piece(x2, sapi, '-', p3);
    assert(s2 =~= x3 + (p3 + t3));
    lemma_replace_all_closed_prefix(x3, p3 + t3, p3, a);
    assert((p3 + t3).take(p3.len() as int) =~= p3);
    assert((p3 + t3).skip(p3.len() as int) =~= t3);
    let s3 = x3 + a + t3;
    assert(replace_all(s2, p3, a) =~= s3);
    // {arch}
    let x4 = x3 + a + seq!['-'];
    lemma_closed_prefix_without_first(b, p4);
    lemma_closed_prefix_extend_piece(b, version, '-', p4);
    lemma_closed_prefix_extend_piece(x2, sapi, '-', p4);
    lemma_closed_prefix_extend_free(x3, a, p4);
    assert(!has_infix(Seq::<char>::empty(), p4));
    lemma_closed_prefix_extend_piece(x3 + a, Seq::empty(), '-', p4);
    assert(x3 + a + Seq::empty() + seq!['-'] =~= x4);
    assert(s3 =~= x4 + (p4 + ext));
    lemma_replace_all_closed_prefix(x4, p4 + ext, p4, c);
    assert((p4 + ext).take(p4.len() as int) =~= p4);
    assert((p4 + ext).skip(p4.len() as int) =~= ext);
    let s4 = x4 + c + ext;
    assert(replace_all(s3, p4, c) =~= s4);
    // {file}
    lemma_closed_prefix_without_first(b, p5);
    lemma_closed_prefix_extend_piece(b, version, '-', p5);
    lemma_closed_prefix_extend_piece(x2, sapi, '-', p5);
    lemma_closed_prefix_extend_free(x3, a, p5);
    assert(!has_infix(Seq::<char>::empty(), p5));
    lemma_closed_prefix_extend_piece(x3 + a, Seq::empty(), '-', p5);
    assert(forall|i: int| 0 <= i < (c + ext).len() ==> (c + ext)[i] != '{');
    lemma_closed_prefix_extend_free(x4, c + ext, p5);
    assert(x4 + (c + ext) =~= s4);
    lemma_replace_all_closed_prefix(s4, Seq::empty(), p5, static_file_name(version, sapi, os, arch));
    assert(s4 + Seq::<char>::empty() =~= s4);
    assert(s4 + replace_all(Seq::<char>::empty(), p5, static_file_name(version, sapi, os, arch))
        =~= s4);
    assert(s4 =~= "https://dl.static-php.dev/static-php-cli/common/"@ + static_file_name(
        version,
        sapi,
        os,
        arch,
    ));
}

/// A template that holds none of the placeholders is the download URL as it
/// stands.
pub proof fn law_template_without_placeholders(
    template: Seq<char>,
    version: Seq<char>,
    sapi: Seq<char>,
    os: HostOs,
    arch: HostArch,
)
    requires
        free_of_placeholders_from(template, 0),
    ensures
        fill_dist_url(template, version, sapi, os, arch) == template,
{
    reveal_strlit("{version}");
    reveal_strlit("{sapi}");
    reveal_strlit("{os}");
    reveal_strlit("{arch}");
    reveal_strlit("{file}");
    assert(!has_infix(template, placeholders()[0]));
    assert(!has_infix(template, placeholders()[1]));
    assert(!has_infix(template, placeholders()[2]));
    assert(!has_infix(template, placeholders()[3]));
    assert(!has_infix(template, placeholders()[4]));
    lemma_replace_all_absent(template, "{version}"@, version);
    lemma_replace_all_absent(template, "{sapi}"@, sapi);
    lemma_replace_all_absent(template, "{os}"@, os_label(os));
    lemma_replace_all_absent(template, "{arch}"@, arch_label(arch));
    lemma_replace_all_absent(template, "{file}"@, static_file_name(version, sapi, os, arch));
}

/// php.net's Windows builds do not depend on the configured SAPI or URL
/// template: the download is the same for any two configurations.
pub proof fn law_windows_ignores_sapi_and_template(
    arch: HostArch,
    version: Seq<char>,
    c1: PhpPluginConfig,
    c2: PhpPluginConfig,
)
    ensures
        prebuilt_file_name(HostOs::Windows, arch, version, c1.sapi@) == prebuilt_file_name(
            HostOs::Windows,
            arch,
            version,
            c2.sapi@,
        ),
        prebuilt_url(HostOs::Windows, arch, version, c1) == prebuilt_url(
            HostOs::Windows,
            arch,
            version,
            c2,
        ),
{
}

/// A prebuilt binary is offered only for Linux and macOS on x64 and arm64,
/// and for Windows on x64, only for a SAPI that static-php-cli provides,
/// only when prebuilt binaries are enabled, and never for canary.
pub proof fn law_prebuilt_only_where_offered<E>(
    os: HostOs,
    arch: HostArch,
    version: Seq<char>,
    config: Result<PhpPluginConfig, E>,
)
    requires
        prebuilt_refusal(os, arch, version, config) is None,
    ensures
        (os == HostOs::Linux || os == HostOs::MacOS) && (arch == HostArch::X64 || arch
            == HostArch::Arm64) || os == HostOs::Windows && arch == HostArch::X64,
        version != "canary"@,
        config matches Ok(c) && c.prebuilt && is_known_sapi(c.sapi@),
{
    if os == HostOs::Windows {
        assert(seq![HostArch::X64][0] == HostArch::X64);
        if arch != HostArch::X64 {
            assert(!seq![HostArch::X64].contains(arch));
        }
    } else if os == HostOs::Linux || os == HostOs::MacOS {
        let archs = seq![HostArch::X64, HostArch::Arm64];
        if archs.contains(arch) {
            let i = choose|i: int| 0 <= i < archs.len() && archs[i] == arch;
            assert(i == 0 || i == 1);
        }
    }
}

/// Two texts framed by the same prefix and suffix are equal when the framed
/// texts are.
proof fn lemma_framed_equal(p: Seq<char>, a: Seq<char>, b: Seq<char>, q1: Seq<char>, q2: Seq<char>)
    requires
        p + a + q1 == p + b + q2,
        a.len() == b.len(),
    ensures
        a == b,
{
    assert((p + a + q1).subrange(p.len() as int, (p.len() + a.len()) as int) =~= a);
    assert((p + b + q2).subrange(p.len() as int, (p.len() + b.len()) as int) =~= b);
}

/// No character of `s` is '{'.
pub open spec fn no_open_brace(s: Seq<char>) -> bool {
    forall|i: int| 0 <= i < s.len() ==> s[i] != '{'
}

/// A piece of a URL template: text without '{', or one of the placeholders.
pub open spec fn is_template_piece(p: Seq<char>) -> bool {
    no_open_brace(p) || placeholders().contains(p)
}

/// The pieces written one after another.
pub open spec fn concat_pieces(ps: Seq<Seq<char>>) -> Seq<char>
    decreases ps.len(),
{
    if ps.len() == 0 {
        seq![]
    } else {
        ps[0] + concat_pieces(ps.drop_first())
    }
}

/// A piece with `from` replaced by `to` when it is `from`.
pub open spec fn substitute(p: Seq<char>, from: Seq<char>, to: Seq<char>) -> Seq<char> {
    if p == from {
        to
    } else {
        p
    }
}

/// Every piece with `from` replaced by `to` where it is `from`.
pub open spec fn substitute_all(ps: Seq<Seq<char>>, from: Seq<char>, to: Seq<char>) -> Seq<Seq<char>> {
    ps.map_values(|p: Seq<char>| substitute(p, from, to))
}

/// A template piece with its placeholder filled in.
pub open spec fn fill_piece(p: Seq<char>, version: Seq<char>, sapi: Seq<char>, os: HostOs, arch: HostArch) -> Seq<char> {
    if p == "{version}"@ {
        version
    } else if p == "{sapi}"@ {
        sapi
    } else if p == "{os}"@ {
        os_label(os)
    } else if p == "{arch}"@ {
        arch_label(arch)
    } else if p == "{file}"@ {
        static_file_name(version, sapi, os, arch)
    } else {
        p
    }
}

/// The pieces of a template with their placeholders filled in.
pub open spec fn fill_pieces(
    ps: Seq<Seq<char>>,
    version: Seq<char>,
    sapi: Seq<char>,
    os: HostOs,
    arch: HostArch,
) -> Seq<Seq<char>> {
    ps.map_values(|p: Seq<char>| fill_piece(p, version, sapi, os, arch))
}

/// The placeholders start with '{', hold no other '{', and differ in their
/// second character.
proof fn lemma_placeholder_shape()
    ensures
        forall|j: int|
            0 <= j < 5 ==> {
                let p = #[trigger] placeholders()[j];
                &&& p.len() >= 2
                &&& p[0] == '{'
                &&& forall|i: int| 1 <= i < p.len() ==> p[i] != '{'
            },
        forall|j: int, k: int|
            0 <= j < 5 && 0 <= k < 5 && j != k ==> (#[trigger] placeholders()[j])[1]
                != (#[trigger] placeholders()[k])[1],
{
    reveal_strlit("{version}");
    reveal_strlit("{sapi}");
    reveal_strlit("{os}");
    reveal_strlit("{arch}");
    reveal_strlit("{file}");
    assert(placeholders().len() == 5);
    assert forall|j: int| 0 <= j < 5 implies {
        let p = #[trigger] placeholders()[j];
        &&& p.len() >= 2
        &&& p[0] == '{'
        &&& forall|i: int| 1 <= i < p.len() ==> p[i] != '{'
    } by {
        if j == 0 {
        } else if j == 1 {
        } else if j == 2 {
        } else if j == 3 {
        } else {
        }
    }
}

/// A template piece other than `from` is a closed prefix for `from`.
proof fn lemma_piece_closed(p: Seq<char>, from: Seq<char>)
    requires
        is_template_piece(p),
        placeholders().contains(from),
        p != from,
    ensures
        closed_prefix(p, from),
{
    lemma_placeholder_shape();
    let k = choose|k: int| 0 <= k < placeholders().len() && placeholders()[k] == from;
    if no_open_brace(p) {
        lemma_closed_prefix_without_first(p, from);
    } else {
        let j = choose|j: int| 0 <= j < placeholders().len() && placeholders()[j] == p;
        assert(placeholders()[j] == p && placeholders()[k] == from);
        assert forall|y: Seq<char>, i: int| 0 <= i < p.len() implies !#[trigger] occurs_at(
            p + y,
            from,
            i,
        ) by {
            if occurs_at(p + y, from, i) {
                assert((p + y).subrange(i, i + from.len())[0] == from[0]);
                if i == 0 {
                    assert((p + y).subrange(i, i + from.len())[1] == from[1]);
                    assert(j != k);
                } else {
                    assert((p + y)[i] == p[i]);
                }
            }
        }
    }
}

/// Replacing a placeholder in a template made of pieces replaces the pieces
/// that are that placeholder.
proof fn lemma_replace_all_pieces(ps: Seq<Seq<char>>, from: Seq<char>, to: Seq<char>)
    requires
        placeholders().contains(from),
        forall|i: int| 0 <= i < ps.len() ==> is_template_piece(#[trigger] ps[i]),
    ensures
        replace_all(concat_pieces(ps), from, to) == concat_pieces(substitute_all(ps, from, to)),
    decreases ps.len(),
{
    lemma_placeholder_shape();
    let k = choose|k: int| 0 <= k < placeholders().len() && placeholders()[k] == from;
    assert(from.len() >= 2 && from == placeholders()[k]);
    if ps.len() == 0 {
        assert(substitute_all(ps, from, to) =~= Seq::<Seq<char>>::empty());
    } else {
        let p = ps[0];
        let rest = ps.drop_first();
        assert forall|i: int| 0 <= i < rest.len() implies is_template_piece(#[trigger] rest[i]) by {
            assert(rest[i] == ps[i + 1]);
        }
        lemma_replace_all_pieces(rest, from, to);
        assert(substitute_all(ps, from, to).drop_first() =~= substitute_all(rest, from, to));
        assert(substitute_all(ps, from, to)[0] == substitute(p, from, to));
        if p == from {
            assert((from + concat_pieces(rest)).take(from.len() as int) =~= from);
            assert((from + concat_pieces(rest)).skip(from.len() as int) =~= concat_pieces(rest));
        } else {
            lemma_piece_closed(p, from);
            lemma_replace_all_closed_prefix(p, concat_pieces(rest), from, to);
        }
    }
}

/// Replacing a placeholder by text without '{' keeps every piece a template
/// piece.
proof fn lemma_substitute_keeps_pieces(ps: Seq<Seq<char>>, from: Seq<char>, to: Seq<char>)
    requires
        no_open_brace(to),
        forall|i: int| 0 <= i < ps.len() ==> is_template_piece(#[trigger] ps[i]),
    ensures
        forall|i: int|
            0 <= i < ps.len() ==> is_template_piece(#[trigger] substitute_all(ps, from, to)[i]),
{
}

/// Filling in a template made of pieces fills in each piece, when the
/// version and the SAPI hold no '{'.
pub proof fn lemma_fill_pieces(
    ps: Seq<Seq<char>>,
    version: Seq<char>,
    sapi: Seq<char>,
    os: HostOs,
    arch: HostArch,
)
    requires
        forall|i: int| 0 <= i < ps.len() ==> is_template_piece(#[trigger] ps[i]),
        no_open_brace(version),
        no_open_brace(sapi),
    ensures
        fill_dist_url(concat_pieces(ps), version, sapi, os, arch) == concat_pieces(
            fill_pieces(ps, version, sapi, os, arch),
        ),
{
    lemma_placeholder_shape();
    lemma_no_open_brace_in_labels(os, arch);
    reveal_strlit("php-");
    reveal_strlit("-");
    reveal_strlit(".tar.gz");
    let a = os_label(os);
    let b = arch_label(arch);
    let f = static_file_name(version, sapi, os, arch);
    assert(no_open_brace(f));
    let p1 = placeholders()[0];
    let p2 = placeholders()[1];
    let p3 = placeholders()[2];
    let p4 = placeholders()[3];
    let p5 = placeholders()[4];
    assert(p1 == "{version}"@ && p2 == "{sapi}"@ && p3 == "{os}"@ && p4 == "{arch}"@ && p5
        == "{file}"@);
    let s1 = substitute_all(ps, p1, version);
    let s2 = substitute_all(s1, p2, sapi);
    let s3 = substitute_all(s2, p3, a);
    let s4 = substitute_all(s3, p4, b);
    let s5 = substitute_all(s4, p5, f);
    lemma_replace_all_pieces(ps, p1, version);
    lemma_substitute_keeps_pieces(ps, p1, version);
    lemma_replace_all_pieces(s1, p2, sapi);
    lemma_substitute_keeps_pieces(s1, p2, sapi);
    lemma_replace_all_pieces(s2, p3, a);
    lemma_substitute_keeps_pieces(s2, p3, a);
    lemma_replace_all_pieces(s3, p4, b);
    lemma_substitute_keeps_pieces(s3, p4, b);
    lemma_replace_all_pieces(s4, p5, f);
    assert forall|i: int| 0 <= i < ps.len() implies s5[i] == fill_pieces(
        ps,
        version,
        sapi,
        os,
        arch,
    )[i] by {
        let p = ps[i];
        // Filled-in text holds no '{', so it is none of the placeholders.
        lemma_brace_free_not_placeholder(version);
        lemma_brace_free_not_placeholder(sapi);
        lemma_brace_free_not_placeholder(a);
        lemma_brace_free_not_placeholder(b);
        assert(version != p2 && version != p3 && version != p4 && version != p5);
        assert(sapi != p3 && sapi != p4 && sapi != p5);
        assert(a != p4 && a != p5 && b != p5);
    }
    assert(s5 =~= fill_pieces(ps, version, sapi, os, arch));
}

/// The placeholders are pairwise different.
proof fn lemma_placeholders_distinct()
    ensures
        "{version}"@ != "{sapi}"@,
        "{version}"@ != "{os}"@,
        "{version}"@ != "{arch}"@,
        "{version}"@ != "{file}"@,
        "{sapi}"@ != "{os}"@,
        "{sapi}"@ != "{arch}"@,
        "{sapi}"@ != "{file}"@,
        "{os}"@ != "{arch}"@,
        "{os}"@ != "{file}"@,
        "{arch}"@ != "{file}"@,
{
    lemma_placeholder_shape();
    let ps = placeholders();
    assert(ps[0][1] != ps[1][1] && ps[0][1] != ps[2][1] && ps[0][1] != ps[3][1] && ps[0][1] != ps[4][1]);
    assert(ps[1][1] != ps[2][1] && ps[1][1] != ps[3][1] && ps[1][1] != ps[4][1]);
    assert(ps[2][1] != ps[3][1] && ps[2][1] != ps[4][1] && ps[3][1] != ps[4][1]);
}

/// Text without '{' is none of the placeholders.
proof fn lemma_brace_free_not_placeholder(t: Seq<char>)
    requires
        no_open_brace(t),
    ensures
        forall|j: int| 0 <= j < 5 ==> t != #[trigger] placeholders()[j],
{
    lemma_placeholder_shape();
    assert forall|j: int| 0 <= j < 5 implies t != #[trigger] placeholders()[j] by {
        if t == placeholders()[j] {
            assert(t[0] == '{');
        }
    }
}

/// Filled-in pieces are at least as long with a version at least as long,
/// and longer with a longer version when a piece is {version} or {file}.
proof fn lemma_filled_length(
    ps: Seq<Seq<char>>,
    v1: Seq<char>,
    v2: Seq<char>,
    sapi: Seq<char>,
    os: HostOs,
    arch: HostArch,
)
    requires
        v1.len() <= v2.len(),
    ensures
        concat_pieces(fill_pieces(ps, v1, sapi, os, arch)).len() <= concat_pieces(
            fill_pieces(ps, v2, sapi, os, arch),
        ).len(),
        v1.len() < v2.len() && (ps.contains("{version}"@) || ps.contains("{file}"@))
            ==> concat_pieces(fill_pieces(ps, v1, sapi, os, arch)).len() < concat_pieces(
            fill_pieces(ps, v2, sapi, os, arch),
        ).len(),
    decreases ps.len(),
{
    reveal_strlit("{version}");
    reveal_strlit("{sapi}");
    reveal_strlit("{os}");
    reveal_strlit("{arch}");
    reveal_strlit("{file}");
    lemma_placeholders_distinct();
    if ps.len() > 0 {
        let rest = ps.drop_first();
        lemma_filled_length(rest, v1, v2, sapi, os, arch);
        let r1 = fill_piece(ps[0], v1, sapi, os, arch);
        let r2 = fill_piece(ps[0], v2, sapi, os, arch);
        assert(static_file_name(v1, sapi, os, arch).len() + v2.len() == static_file_name(v2, sapi, os, arch).len() + v1.len());
        assert(r1.len() <= r2.len());
        assert((ps[0] == "{version}"@ || ps[0] == "{file}"@) && v1.len() < v2.len() ==> r1.len() < r2.len());
        assert(fill_pieces(ps, v1, sapi, os, arch).drop_first() =~= fill_pieces(rest, v1, sapi, os, arch));
        assert(fill_pieces(ps, v2, sapi, os, arch).drop_first() =~= fill_pieces(rest, v2, sapi, os, arch));
        if ps.contains("{version}"@) || ps.contains("{file}"@) {
            if !(ps[0] == "{version}"@ || ps[0] == "{file}"@) {
                if ps.contains("{version}"@) {
                    let i = choose|i: int| 0 <= i < ps.len() && ps[i] == "{version}"@;
                    assert(rest[i - 1] == "{version}"@);
                } else {
                    let i = choose|i: int| 0 <= i < ps.len() && ps[i] == "{file}"@;
                    assert(rest[i - 1] == "{file}"@);
                }
            }
        }
    }
}

/// Filled-in pieces with versions of one length are the same only for the
/// same version, when a piece is {version} or {file}.
proof fn lemma_filled_injective(
    ps: Seq<Seq<char>>,
    v1: Seq<char>,
    v2: Seq<char>,
    sapi: Seq<char>,
    os: HostOs,
    arch: HostArch,
)
    requires
        v1.len() == v2.len(),
        ps.contains("{version}"@) || ps.contains("{file}"@),
        concat_pieces(fill_pieces(ps, v1, sapi, os, arch)) == concat_pieces(
            fill_pieces(ps, v2, sapi, os, arch),
        ),
    ensures
        v1 == v2,
    decreases ps.len(),
{
    reveal_strlit("{version}");
    reveal_strlit("{sapi}");
    reveal_strlit("{os}");
    reveal_strlit("{arch}");
    reveal_strlit("{file}");
    lemma_placeholders_distinct();
    let rest = ps.drop_first();
    let r1 = fill_piece(ps[0], v1, sapi, os, arch);
    let r2 = fill_piece(ps[0], v2, sapi, os, arch);
    let t1 = concat_pieces(fill_pieces(rest, v1, sapi, os, arch));
    let t2 = concat_pieces(fill_pieces(rest, v2, sapi, os, arch));
    assert(fill_pieces(ps, v1, sapi, os, arch).drop_first() =~= fill_pieces(rest, v1, sapi, os, arch));
    assert(fill_pieces(ps, v2, sapi, os, arch).drop_first() =~= fill_pieces(rest, v2, sapi, os, arch));
    assert(r1 + t1 == r2 + t2);
    assert(r1.len() == r2.len());
    assert(r1 =~= (r1 + t1).take(r1.len() as int));
    assert(r2 =~= (r2 + t2).take(r2.len() as int));
    assert(t1 =~= (r1 + t1).skip(r1.len() as int));
    assert(t2 =~= (r2 + t2).skip(r2.len() as int));
    if ps[0] == "{version}"@ {
    } else if ps[0] == "{file}"@ {
        let php = "php-"@;
        let q = "-"@ + sapi + "-"@ + os_label(os) + "-"@ + arch_label(arch) + ".tar.gz"@;
        assert(r1 =~= php + v1 + q);
        assert(r2 =~= php + v2 + q);
        lemma_framed_equal(php, v1, v2, q, q);
    } else {
        if ps.contains("{version}"@) {
            let i = choose|i: int| 0 <= i < ps.len() && ps[i] == "{version}"@;
            assert(rest[i - 1] == "{version}"@);
        } else {
            let i = choose|i: int| 0 <= i < ps.len() && ps[i] == "{file}"@;
            assert(rest[i - 1] == "{file}"@);
        }
        lemma_filled_injective(rest, v1, v2, sapi, os, arch);
    }
}

/// Different versions get different downloads, so that versions installed
/// side by side do not share a file: php.net's Windows builds always, and on
/// other hosts when the URL template holds {version} or {file}.
///
/// A template here is one made of pieces (`pieces`, written one after
/// another): text without '{', or a placeholder. The versions and the SAPI
/// hold no '{'; the default template is such a template.
pub proof fn law_distinct_versions_distinct_downloads(
    os: HostOs,
    arch: HostArch,
    v1: Seq<char>,
    v2: Seq<char>,
    config: PhpPluginConfig,
    pieces: Seq<Seq<char>>,
)
    requires
        v1 != v2,
        os == HostOs::Windows || ({
            &&& config.dist_url@ == concat_pieces(pieces)
            &&& forall|i: int| 0 <= i < pieces.len() ==> is_template_piece(#[trigger] pieces[i])
            &&& pieces.contains("{version}"@) || pieces.contains("{file}"@)
            &&& no_open_brace(v1)
            &&& no_open_brace(v2)
            &&& no_open_brace(config.sapi@)
        }),
    ensures
        prebuilt_file_name(os, arch, v1, config.sapi@) != prebuilt_file_name(
            os,
            arch,
            v2,
            config.sapi@,
        ),
        prebuilt_url(os, arch, v1, config) != prebuilt_url(os, arch, v2, config),
{
    let n1 = prebuilt_file_name(os, arch, v1, config.sapi@);
    let n2 = prebuilt_file_name(os, arch, v2, config.sapi@);
    let php = "php-"@;
    if os == HostOs::Windows {
        reveal_strlit("vc15");
        reveal_strlit("vs16");
        reveal_strlit("vs17");
        let mid = "-nts-Win32-"@;
        let end = "-x64.zip"@;
        assert(windows_toolset(v1).len() == 4 && windows_toolset(v2).len() == 4);
        let q1 = mid + windows_toolset(v1) + end;
        let q2 = mid + windows_toolset(v2) + end;
        assert(n1 =~= php + v1 + q1);
        assert(n2 =~= php + v2 + q2);
        if n1 == n2 {
            assert(v1.len() == v2.len());
            lemma_framed_equal(php, v1, v2, q1, q2);
        }
        let base = windows_release_base();
        if prebuilt_url(os, arch, v1, config) == prebuilt_url(os, arch, v2, config) {
            assert(n1 =~= (base + n1).skip(base.len() as int));
            assert(n2 =~= (base + n2).skip(base.len() as int));
        }
    } else {
        let sapi = config.sapi@;
        let q = "-"@ + sapi + "-"@ + os_label(os) + "-"@ + arch_label(arch) + ".tar.gz"@;
        assert(n1 =~= php + v1 + q);
        assert(n2 =~= php + v2 + q);
        if n1 == n2 {
            assert(v1.len() == v2.len());
            lemma_framed_equal(php, v1, v2, q, q);
        }
        lemma_fill_pieces(pieces, v1, sapi, os, arch);
        lemma_fill_pieces(pieces, v2, sapi, os, arch);
        let u1 = concat_pieces(fill_pieces(pieces, v1, sapi, os, arch));
        let u2 = concat_pieces(fill_pieces(pieces, v2, sapi, os, arch));
        assert(prebuilt_url(os, arch, v1, config) == u1);
        assert(prebuilt_url(os, arch, v2, config) == u2);
        if v1.len() == v2.len() {
            if u1 == u2 {
                lemma_filled_injective(pieces, v1, v2, sapi, os, arch);
            }
        } else if v1.len() < v2.len() {
            lemma_filled_length(pieces, v1, v2, sapi, os, arch);
        } else {
            lemma_filled_length(pieces, v2, v1, sapi, os, arch);
        }
    }
}

/// The default template is made of pieces, and holds {version} and {file}.
pub proof fn lemma_default_template_pieces()
    ensures
        default_dist_url() == concat_pieces(default_template_pieces()),
        forall|i: int|
            0 <= i < default_template_pieces().len() ==> is_template_piece(
                #[trigger] default_template_pieces()[i],
            ),
        default_template_pieces().contains("{version}"@),
{
    reveal_strlit("https://dl.static-php.dev/static-php-cli/common/php-");
    reveal_strlit("https://dl.static-php.dev/static-php-cli/common/php-{version}-{sapi}-{os}-{arch}.tar.gz");
    reveal_strlit("{version}");
    reveal_strlit("{sapi}");
    reveal_strlit("{os}");
    reveal_strlit("{arch}");
    reveal_strlit("-");
    reveal_strlit(".tar.gz");
    let ps = default_template_pieces();
    reveal_with_fuel(concat_pieces, 10);
    assert(default_dist_url() =~= concat_pieces(ps));
    assert(ps[1] == "{version}"@);
    assert forall|i: int| 0 <= i < ps.len() implies is_template_piece(#[trigger] ps[i]) by {
        if i == 1 {
            assert(placeholders()[0] == ps[i]);
        } else if i == 3 {
            assert(placeholders()[1] == ps[i]);
        } else if i == 5 {
            assert(placeholders()[2] == ps[i]);
        } else if i == 7 {
            assert(placeholders()[3] == ps[i]);
        }
    }
}

/// The pieces of the default template.
pub open spec fn default_template_pieces() -> Seq<Seq<char>> {
    seq![
        "https://dl.static-php.dev/static-php-cli/common/php-"@,
        "{version}"@,
        "-"@,
        "{sapi}"@,
        "-"@,
        "{os}"@,
        "-"@,
        "{arch}"@,
        ".tar.gz"@,
    ]
}

} // verus!

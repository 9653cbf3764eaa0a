use proto_pdk::UnresolvedVersionSpec;
use proto_php_plugin::platform::{check_supported_os_and_arch, map_arch, map_os};
use proto_php_plugin::text::{contains_ignoring_ascii_case, replace_text, trim_text};
use proto_php_plugin::version_files::composer_php_constraint;
use proto_php_plugin::versions::releases_from_tags;
use proto_php_plugin::build_plan::{BuildError, BuildPlan, BuildStep, PackageManager, Prerequisite};
use proto_php_plugin::download::{DownloadError, PrebuiltDownload};
use proto_php_plugin::platform::{HostArch, HostOs, PlatformError};
use proto_php_plugin::tool::PluginKind;
use proto_php_plugin::{
    build_instructions, detect_version_files, download_prebuilt, load_versions, locate_executables,
    parse_version_file, register_tool, resolve_version, sync_shell_profile, PhpPluginConfig,
};

fn prebuilt(os: HostOs, arch: HostArch, version: &str, config: PhpPluginConfig) -> PrebuiltDownload {
    match download_prebuilt::<String>(os, arch, version, Ok(config)) {
        Ok(d) => d,
        Err(_) => panic!("expected a prebuilt download"),
    }
}

fn plan(os: HostOs, version: &str, config: PhpPluginConfig) -> BuildPlan {
    match build_instructions::<String>(os, HostArch::X64, version, "/install", Ok(config)) {
        Ok(p) => p,
        Err(_) => panic!("expected a build plan"),
    }
}

fn fpm_config() -> PhpPluginConfig {
    PhpPluginConfig { sapi: "fpm".into(), ..PhpPluginConfig::default() }
}

fn run_commands(plan: &BuildPlan) -> Vec<(&str, &Vec<String>)> {
    plan.instructions
        .iter()
        .filter_map(|i| match i {
            BuildStep::RunCommand { exe, args } => Some((exe.as_str(), args)),
            _ => None,
        })
        .collect()
}

#[test]
fn registers_tool_metadata() {
    let output = register_tool("0.1.0");
    assert_eq!(output.name, "PHP");
    assert_eq!(output.plugin_type, PluginKind::Language);
    assert_eq!(output.minimum_proto_version, (0, 46, 0));
    assert!(output.plugin_version.is_some());
}

#[test]
fn locates_executables_unix() {
    let output = locate_executables(HostOs::Linux);
    assert_eq!(output.name, "php");
    assert_eq!(output.primary_exe, "php");
}

#[test]
fn detects_version_files() {
    let output = detect_version_files();
    assert_eq!(output.files, vec![".php-version", "composer.json"]);
    assert_eq!(output.ignore, vec!["vendor"]);
}

#[test]
fn parses_php_version_file() {
    let output = parse_version_file(".php-version", "8.4.3\n").unwrap();
    assert_eq!(output, Some(UnresolvedVersionSpec::parse("8.4.3").unwrap()));
}

#[test]
fn parses_composer_json_gte() {
    let output = parse_version_file("composer.json", r#"{"require":{"php":">=8.2"}}"#).unwrap();
    assert!(output.is_some());
}

#[test]
fn parses_composer_json_caret() {
    let output = parse_version_file("composer.json", r#"{"require":{"php":"^8.2"}}"#).unwrap();
    assert!(output.is_some());
}

#[test]
fn parses_composer_json_or_constraint() {
    let output =
        parse_version_file("composer.json", r#"{"require":{"php":">=8.1 || >=8.2"}}"#).unwrap();
    assert!(output.is_some());
}

#[test]
fn ignores_composer_json_without_php() {
    let output = parse_version_file("composer.json", r#"{"require":{"ext-json":"*"}}"#).unwrap();
    assert!(output.is_none());
}

#[test]
fn download_url_linux_x64() {
    let output = prebuilt(HostOs::Linux, HostArch::X64, "8.4.18", PhpPluginConfig::default());
    assert!(output.download_url.contains("linux"));
    assert!(output.download_url.contains("x86_64"));
    assert!(output.download_url.contains("8.4.18"));
}

#[test]
fn download_url_macos_arm64() {
    let output = prebuilt(HostOs::MacOS, HostArch::Arm64, "8.4.18", PhpPluginConfig::default());
    assert!(output.download_url.contains("macos"));
    assert!(output.download_url.contains("aarch64"));
}

#[test]
fn download_url_windows_vs17() {
    let output = prebuilt(HostOs::Windows, HostArch::X64, "8.4.3", PhpPluginConfig::default());
    assert!(output.download_url.contains("windows.php.net"));
    assert!(output.download_url.contains("vs17-x64.zip"));
}

#[test]
fn build_instructions_spc_for_php8() {
    let output = plan(HostOs::Linux, "8.4.3", PhpPluginConfig::default());

    // spc manages its own downloads: no source archive
    assert!(output.source.is_none());
    assert_eq!(output.help_url, "https://static-php.dev/en/guide/troubleshooting.html");
    assert!(!output.system_dependencies.is_empty());

    // curl, chmod, spc download, spc doctor, spc build, move, chmod
    assert_eq!(output.instructions.len(), 7);

    let commands = run_commands(&output);
    assert!(commands.iter().any(|(exe, _)| *exe == "curl"), "should download spc via curl");
    assert!(
        commands
            .iter()
            .any(|(exe, args)| *exe == "./spc" && args.first().map(|a| a.as_str()) == Some("build")),
        "should have spc build command"
    );
}

#[test]
fn build_instructions_phpnet_for_php7() {
    let output = plan(HostOs::Linux, "7.4.33", PhpPluginConfig::default());

    let source = output.source.as_ref().expect("source should be set");
    assert!(source.url.contains("php.net/distributions"));
    assert!(source.url.contains("7.4.33"));
    assert!(source.url.ends_with(".tar.xz"));
    assert_eq!(source.prefix, "php-7.4.33");

    assert_eq!(output.instructions.len(), 3);
    assert_eq!(output.help_url, "https://www.php.net/manual/en/install.unix.php");
}

#[test]
fn build_instructions_phpnet_when_configure_opts_set() {
    let config = PhpPluginConfig {
        configure_opts: Some(vec!["--enable-intl".into()]),
        ..PhpPluginConfig::default()
    };
    let output = plan(HostOs::Linux, "8.4.3", config);

    let source = output.source.as_ref().expect("source should be set for phpnet path");
    assert!(source.url.contains("php.net/distributions"));
    assert!(source.url.contains("8.4.3"));
    assert_eq!(output.instructions.len(), 3);
}

#[test]
fn build_instructions_spc_fpm_sapi() {
    let output = plan(HostOs::Linux, "8.4.3", fpm_config());
    assert!(output.source.is_none());
    let commands = run_commands(&output);
    assert!(
        commands.iter().any(|(exe, args)| *exe == "./spc" && args.iter().any(|a| a == "--build-fpm")),
        "should have --build-fpm arg"
    );
}

#[test]
fn download_url_sapi_fpm() {
    let output = prebuilt(HostOs::Linux, HostArch::X64, "8.4.18", fpm_config());
    assert!(output.download_url.contains("-fpm-"));
    assert!(!output.download_url.contains("-cli-"));
}

#[test]
fn download_url_windows_vs16() {
    let output = prebuilt(HostOs::Windows, HostArch::X64, "8.2.10", PhpPluginConfig::default());
    assert!(output.download_url.contains("vs16-x64.zip"));
}

// ---------------------------------------------------------------------------
// Further scenarios and edge cases
// ---------------------------------------------------------------------------

#[test]
fn default_config_values() {
    let config = PhpPluginConfig::default();
    assert!(config.prebuilt);
    assert_eq!(config.sapi, "cli");
    assert_eq!(
        config.dist_url,
        "https://dl.static-php.dev/static-php-cli/common/php-{version}-{sapi}-{os}-{arch}.tar.gz"
    );
    assert!(config.configure_opts.is_none());
    assert!(config.extensions.is_none());
}

#[test]
fn default_download_url_is_static_php_common() {
    let output = prebuilt(HostOs::Linux, HostArch::X64, "8.4.18", PhpPluginConfig::default());
    assert_eq!(output.download_name, "php-8.4.18-cli-linux-x86_64.tar.gz");
    assert_eq!(
        output.download_url,
        "https://dl.static-php.dev/static-php-cli/common/php-8.4.18-cli-linux-x86_64.tar.gz"
    );
}

#[test]
fn custom_dist_url_template() {
    let config = PhpPluginConfig {
        dist_url: "https://example.com/{os}/{arch}/{sapi}/{version}/{file}?v={version}".into(),
        sapi: "micro".into(),
        ..PhpPluginConfig::default()
    };
    let output = prebuilt(HostOs::MacOS, HostArch::X64, "8.3.20", config);
    assert_eq!(output.download_name, "php-8.3.20-micro-macos-x86_64.tar.gz");
    assert_eq!(
        output.download_url,
        "https://example.com/macos/x86_64/micro/8.3.20/php-8.3.20-micro-macos-x86_64.tar.gz?v=8.3.20"
    );
}

#[test]
fn template_without_placeholders_is_kept() {
    let config = PhpPluginConfig {
        dist_url: "https://mirror.example.com/php.tar.gz".into(),
        ..PhpPluginConfig::default()
    };
    let output = prebuilt(HostOs::Linux, HostArch::Arm64, "8.4.1", config);
    assert_eq!(output.download_url, "https://mirror.example.com/php.tar.gz");
}

#[test]
fn windows_download_exact() {
    let output = prebuilt(HostOs::Windows, HostArch::X64, "7.4.33", PhpPluginConfig::default());
    assert_eq!(output.download_name, "php-7.4.33-nts-Win32-vc15-x64.zip");
    assert_eq!(
        output.download_url,
        "https://windows.php.net/downloads/releases/php-7.4.33-nts-Win32-vc15-x64.zip"
    );
    let output = prebuilt(HostOs::Windows, HostArch::X64, "8.0.30", PhpPluginConfig::default());
    assert!(output.download_url.ends_with("-vs16-x64.zip"));
    let output = prebuilt(HostOs::Windows, HostArch::X64, "8.10.1", PhpPluginConfig::default());
    assert!(output.download_url.ends_with("-vs17-x64.zip"));
}

#[test]
fn windows_ignores_sapi() {
    let output = prebuilt(HostOs::Windows, HostArch::X64, "8.4.3", fpm_config());
    assert_eq!(output.download_name, "php-8.4.3-nts-Win32-vs17-x64.zip");
}

#[test]
fn download_refuses_canary() {
    let r = download_prebuilt::<String>(HostOs::Linux, HostArch::X64, "canary", Err("no config".into()));
    assert!(matches!(r, Err(DownloadError::UnsupportedCanary)));
}

#[test]
fn download_passes_config_error() {
    let r = download_prebuilt::<String>(HostOs::Linux, HostArch::X64, "8.4.3", Err("bad".into()));
    assert!(matches!(r, Err(DownloadError::Config(e)) if e == "bad"));
}

#[test]
fn download_refuses_unknown_sapi() {
    let config = PhpPluginConfig { sapi: "cgi".into(), ..PhpPluginConfig::default() };
    let r = download_prebuilt::<String>(HostOs::Linux, HostArch::X64, "8.4.3", Ok(config));
    match r {
        Err(DownloadError::InvalidSapi(s)) => {
            assert_eq!(s, "cgi");
            assert_eq!(
                proto_php_plugin::download::invalid_sapi_message(&s),
                "Invalid sapi 'cgi'. Must be one of: cli, fpm, micro"
            );
        }
        _ => panic!("expected an invalid sapi"),
    }
}

#[test]
fn download_refuses_when_prebuilt_disabled() {
    let config = PhpPluginConfig { prebuilt: false, ..PhpPluginConfig::default() };
    let r = download_prebuilt::<String>(HostOs::Linux, HostArch::X64, "8.4.3", Ok(config));
    assert!(matches!(r, Err(DownloadError::PrebuiltDisabled)));
    assert_eq!(
        proto_php_plugin::download::prebuilt_disabled_message(),
        "Prebuilt binaries disabled via config. Will build from source."
    );
}

#[test]
fn download_refuses_unsupported_platforms() {
    let r = download_prebuilt::<String>(HostOs::FreeBSD, HostArch::X64, "8.4.3", Ok(PhpPluginConfig::default()));
    assert!(matches!(
        r,
        Err(DownloadError::Platform(PlatformError::UnsupportedOs { os: HostOs::FreeBSD }))
    ));
    let r = download_prebuilt::<String>(HostOs::Windows, HostArch::Arm64, "8.4.3", Ok(PhpPluginConfig::default()));
    assert!(matches!(
        r,
        Err(DownloadError::Platform(PlatformError::UnsupportedTarget {
            os: HostOs::Windows,
            arch: HostArch::Arm64
        }))
    ));
    let r = download_prebuilt::<String>(HostOs::Linux, HostArch::X86, "8.4.3", Ok(PhpPluginConfig::default()));
    assert!(matches!(
        r,
        Err(DownloadError::Platform(PlatformError::UnsupportedTarget { .. }))
    ));
}

#[test]
fn platform_names() {
    assert_eq!(map_os(HostOs::Linux), "linux");
    assert_eq!(map_os(HostOs::MacOS), "macos");
    assert_eq!(map_os(HostOs::Windows), "windows");
    assert_eq!(map_os(HostOs::Solaris), "unknown");
    assert_eq!(map_arch(HostArch::X64), "x86_64");
    assert_eq!(map_arch(HostArch::Arm64), "aarch64");
    assert_eq!(map_arch(HostArch::Riscv64), "unknown");
    assert!(check_supported_os_and_arch(HostOs::MacOS, HostArch::Arm64).is_ok());
    assert!(check_supported_os_and_arch(HostOs::Linux, HostArch::X64).is_ok());
}

#[test]
fn php_version_file_edge_cases() {
    assert_eq!(parse_version_file(".php-version", "  \n\t ").unwrap(), None);
    assert_eq!(parse_version_file(".php-version", "").unwrap(), None);
    assert_eq!(
        parse_version_file(".php-version", "\u{a0} 8.3 \r\n").unwrap(),
        Some(UnresolvedVersionSpec::parse("8.3").unwrap())
    );
    assert!(parse_version_file(".php-version", "!!!").is_err());
}

#[test]
fn other_files_pin_nothing() {
    assert_eq!(parse_version_file(".nvmrc", "8.4.3").unwrap(), None);
    assert_eq!(parse_version_file("composer.lock", r#"{"require":{"php":"8.4"}}"#).unwrap(), None);
}

#[test]
fn composer_json_edge_cases() {
    // not JSON
    assert_eq!(parse_version_file("composer.json", "{").unwrap(), None);
    // `php` is not a string
    assert_eq!(parse_version_file("composer.json", r#"{"require":{"php":8}}"#).unwrap(), None);
    // `require` is not an object
    assert_eq!(parse_version_file("composer.json", r#"{"require":["php"]}"#).unwrap(), None);
    // the root is an array
    assert_eq!(parse_version_file("composer.json", r#"[{"require":{"php":"8.2"}}]"#).unwrap(), None);
    // a requirement that is not a version specification pins nothing
    assert_eq!(parse_version_file("composer.json", r#"{"require":{"php":"!!!"}}"#).unwrap(), None);
    assert_eq!(
        parse_version_file("composer.json", r#"{"name":"x/y","require":{"php":"^8.2","ext-json":"*"}}"#)
            .unwrap(),
        Some(UnresolvedVersionSpec::parse("^8.2").unwrap())
    );
}

#[test]
fn composer_constraint_lookup() {
    assert_eq!(
        composer_php_constraint(r#"{"require":{"php":">=8.1 || >=8.2"}}"#).as_deref(),
        Some(">=8.1 || >=8.2")
    );
    assert_eq!(composer_php_constraint(r#"{"require-dev":{"php":"8.1"}}"#), None);
    assert_eq!(composer_php_constraint(r#""8.1""#), None);
}

#[test]
fn releases_from_git_tags() {
    let tags: Vec<String> = vec![
        "php-8.4.3", "php-8.4.3RC1", "php-8.4.3alpha1", "php-8.4.0BETA2", "php-8.3.20",
        "php-5.6.40", "php-7.0.0", "v8.4.3", "php-", "PHP-8.4.1", "php-8.4.0Rc3", "php-10.0.0",
        "php-1.0", "php-abc", "php-11.2.0beta1",
    ]
    .into_iter()
    .map(String::from)
    .collect();
    let releases = releases_from_tags(&tags);
    assert_eq!(releases, vec!["8.4.3", "8.3.20", "7.0.0", "10.0.0"]);
}

#[test]
fn releases_of_concatenated_tags() {
    let a: Vec<String> = vec!["php-8.1.0".into(), "php-8.1.0RC1".into()];
    let b: Vec<String> = vec!["php-6.0.0".into(), "php-8.2.0".into()];
    let ab: Vec<String> = a.iter().chain(b.iter()).cloned().collect();
    let mut expected = releases_from_tags(&a);
    expected.extend(releases_from_tags(&b));
    assert_eq!(releases_from_tags(&ab), expected);
}

#[test]
fn loads_versions_from_tags() {
    let tags: Vec<String> = vec!["php-8.4.3".into(), "php-8.3.20".into(), "php-8.4.3RC1".into()];
    let output = load_versions(tags).unwrap();
    let versions: Vec<String> = output.versions.iter().map(|v| v.to_string()).collect();
    assert_eq!(versions, vec!["8.4.3", "8.3.20"]);
    assert_eq!(output.latest.map(|v| v.to_string()), Some("8.4.3".to_string()));
}

#[test]
fn resolves_stable_aliases() {
    let latest = UnresolvedVersionSpec::parse("latest").unwrap();
    assert_eq!(resolve_version(Some("lts")).unwrap(), Some(latest.clone()));
    assert_eq!(resolve_version(Some("stable")).unwrap(), Some(latest));
    assert_eq!(resolve_version(Some("latest")).unwrap(), None);
    assert_eq!(resolve_version(Some("LTS")).unwrap(), None);
    assert_eq!(resolve_version(None).unwrap(), None);
}

#[test]
fn build_refused_on_windows() {
    let r = build_instructions::<String>(HostOs::Windows, HostArch::X64, "8.4.3", "/i", Err("bad".into()));
    assert!(matches!(r, Err(BuildError::WindowsUnsupported)));
    assert_eq!(
        proto_php_plugin::build_plan::windows_build_message(),
        "Building PHP from source is not supported on Windows. Use prebuilt binaries."
    );
    let r = build_instructions::<String>(HostOs::Linux, HostArch::X64, "8.4.3", "/i", Err("bad".into()));
    assert!(matches!(r, Err(BuildError::Config(e)) if e == "bad"));
}

#[test]
fn phpnet_configure_arguments() {
    let config = PhpPluginConfig {
        configure_opts: Some(vec!["--enable-intl".into(), "--enable-soap".into()]),
        ..PhpPluginConfig::default()
    };
    let output = plan(HostOs::MacOS, "8.4.3", config);
    let commands = run_commands(&output);
    assert_eq!(commands[0].0, "./configure");
    assert_eq!(
        commands[0].1,
        &vec![
            "--prefix=/install", "--enable-mbstring", "--enable-bcmath", "--enable-pcntl",
            "--with-openssl", "--with-curl", "--with-zlib", "--with-pdo-sqlite", "--enable-intl",
            "--enable-soap",
        ]
    );
    assert_eq!(commands[1], ("make", &vec!["-j4".to_string()]));
    assert_eq!(commands[2], ("make", &vec!["install".to_string()]));
    assert_eq!(output.system_dependencies.len(), 3);
    assert_eq!(output.system_dependencies[0].manager, PackageManager::Apt);
    assert_eq!(output.system_dependencies[0].packages.len(), 14);
    assert_eq!(output.system_dependencies[1].packages.len(), 12);
    assert_eq!(output.system_dependencies[2].packages.len(), 16);
    assert!(matches!(output.requirements[0], Prerequisite::XcodeCommandLineTools));
}

#[test]
fn spc_plan_steps() {
    let config = PhpPluginConfig {
        extensions: Some(vec!["bcmath".into(), "curl".into()]),
        ..PhpPluginConfig::default()
    };
    let output = match build_instructions::<String>(HostOs::MacOS, HostArch::Arm64, "8.4.3", "/i", Ok(config)) {
        Ok(p) => p,
        Err(_) => panic!("expected a plan"),
    };
    let steps = &output.instructions;
    match &steps[0] {
        BuildStep::RunCommand { exe, args } => {
            assert_eq!(exe, "curl");
            assert_eq!(
                args,
                &vec![
                    "-fsSL",
                    "-o",
                    "spc",
                    "https://dl.static-php.dev/static-php-cli/spc-bin/nightly/spc-macos-aarch64"
                ]
            );
        }
        _ => panic!("expected curl"),
    }
    assert!(matches!(&steps[1], BuildStep::MakeExecutable(p) if p == "spc"));
    match &steps[2] {
        BuildStep::RunCommand { exe, args } => {
            assert_eq!(exe, "./spc");
            assert_eq!(
                args,
                &vec!["download", "--with-php=8.4.3", "--for-extensions=bcmath,curl", "--prefer-pre-built"]
            );
        }
        _ => panic!("expected spc download"),
    }
    match &steps[4] {
        BuildStep::RunCommand { args, .. } => assert_eq!(args, &vec!["build", "bcmath,curl", "--build-cli"]),
        _ => panic!("expected spc build"),
    }
    assert!(matches!(&steps[5], BuildStep::MoveFile(a, b) if a == "buildroot/bin/php" && b == "/i/bin/php"));
    assert!(matches!(&steps[6], BuildStep::MakeExecutable(p) if p == "/i/bin/php"));
}

#[test]
fn spc_default_extensions() {
    let output = plan(HostOs::Linux, "8.3.1", PhpPluginConfig::default());
    let commands = run_commands(&output);
    let build = commands.iter().find(|(exe, args)| *exe == "./spc" && args[0] == "build").unwrap();
    assert_eq!(build.1[1].split(',').count(), 37);
    assert!(build.1[1].starts_with("bcmath,bz2,calendar,"));
    assert!(build.1[1].ends_with(",zip,zlib"));
}

#[test]
fn locates_executables_windows() {
    let output = locate_executables(HostOs::Windows);
    assert_eq!(output.primary_exe, "php.exe");
    assert_eq!(output.exes_dirs, vec![".", "bin"]);
    assert_eq!(
        output.globals_lookup_dirs,
        vec!["$HOME/.composer/vendor/bin", "$COMPOSER_HOME/vendor/bin"]
    );
}

#[test]
fn shell_profile() {
    let output = sync_shell_profile();
    assert_eq!(output.check_var, "PROTO_PHP_VERSION");
    assert_eq!(
        output.export_vars,
        vec![("PHP_HOME".to_string(), "$PROTO_HOME/tools/php/$PROTO_PHP_VERSION".to_string())]
    );
    assert_eq!(output.extend_path, vec!["$HOME/.composer/vendor/bin"]);
    assert!(!output.skip_sync);
}

#[test]
fn text_helpers() {
    assert_eq!(trim_text("\u{3000} a b \u{2028}"), "a b");
    assert_eq!(replace_text("aaaa", "aa", "b"), "bb");
    assert_eq!(replace_text("{x}{x}", "{x}", ""), "");
    assert!(contains_ignoring_ascii_case("8.4.0RC1", "rc"));
    assert!(!contains_ignoring_ascii_case("8.4.0", "rc"));
}

#[test]
fn plugin_version_must_parse() {
    assert!(register_tool("not a version!").plugin_version.is_none());
    assert!(register_tool("1.2.3").plugin_version.is_some());
}

#[test]
fn trimmed_reading_ignores_surrounding_white_space() {
    let a = parse_version_file(".php-version", " \t8.2.1\n\n").unwrap();
    let b = parse_version_file(".php-version", "8.2.1").unwrap();
    assert_eq!(a, b);
    assert_eq!(trim_text(trim_text("  x  ")), trim_text("  x  "));
}

#[test]
fn distinct_versions_get_distinct_downloads() {
    for os in [HostOs::Linux, HostOs::Windows] {
        let a = prebuilt(os, HostArch::X64, "8.4.12", PhpPluginConfig::default());
        let b = prebuilt(os, HostArch::X64, "8.3.20", PhpPluginConfig::default());
        assert_ne!(a.download_url, b.download_url);
        assert_ne!(a.download_name, b.download_name);
    }
}

#[test]
fn distinct_versions_distinct_downloads_custom_template() {
    let config = || PhpPluginConfig {
        dist_url: "https://mirror.example.com/{os}/{file}".into(),
        ..PhpPluginConfig::default()
    };
    let a = prebuilt(HostOs::Linux, HostArch::Arm64, "10.0.0", config());
    let b = prebuilt(HostOs::Linux, HostArch::Arm64, "10.0.1", config());
    assert_eq!(a.download_url, "https://mirror.example.com/linux/php-10.0.0-cli-linux-aarch64.tar.gz");
    assert_ne!(a.download_url, b.download_url);
}

#[test]
fn loads_php_ten_and_later() {
    let tags: Vec<String> = vec!["php-10.0.0".into(), "php-7.4.33".into(), "php-6.0.0".into()];
    let output = load_versions(tags).unwrap();
    let versions: Vec<String> = output.versions.iter().map(|v| v.to_string()).collect();
    assert_eq!(versions, vec!["10.0.0", "7.4.33"]);
}

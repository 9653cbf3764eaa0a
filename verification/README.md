# proto_php_plugin

The logic of a proto plugin for PHP, verified with Verus.

- `src/` is the library: which files pin a PHP version and how the version
  is read from them (`version_files`), which php-src tags are installable
  releases and how aliases resolve (`versions`), where prebuilt binaries are
  downloaded from (`download`), how PHP is built from source (`build_plan`),
  the tool's registration and executables (`tool`), the configuration
  (`config`), the host platform (`platform`) and string helpers (`text`).
  `outside` holds the trusted declarations of what the library calls in
  proto's plugin kit and in serde_json.
- `app/` is the WASM plugin itself: each plugin function reads what proto's
  host hands it (host environment, tool configuration, git tags), calls the
  library and answers in proto's types.
- `tests/` runs the library on concrete inputs.

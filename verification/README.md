# proto_installer

Verified decision logic of the proto toolchain installer and of its plugin
test harness, written in Verus.

- `src/` holds the verified library:
  - `triple.rs`: the release target triple of a host;
  - `release.rs`: release archive names and addresses, and `DownloadResult`;
  - `progress.rs`: the HTTP status decision and the capped byte count of a
    download;
  - `install.rs`: the install walk, a step machine that asks the caller to
    look for binaries and to copy or replace them, with its laws
    (termination bound; an install is reported exactly when a binary was
    found);
  - `plugin.rs`: the table of plugin functions (export name, context
    preparation, output use, virtualised path fields) and the choice of
    context directories.
- Trusted items (contracts that Verus believes without proof):
  - `triple.rs` `host_libc_is_musl`, the call of
    `system_env::SystemLibc::is_musl` (nothing is stated of its answer);
  - `plugin.rs` `path_component_count` and its name
    `spec_path_component_count`, the count of `std::path::Path::components`;
  - `release.rs` `ExPathBuf`, the declaration of `std::path::PathBuf`.
- `app/` runs those decisions: the HTTP download stream, unpacking, file
  copies and renames, and the last-used timestamp.

What `app/` leaves out:

- the plugin calls of the test harness, and turning context directories
  into the plugin's virtual paths: both go through `proto_core` /
  `proto_pdk_api`, which belong to the proto workspace and are not
  dependencies here, so `WasmTestWrapper::prepare_context` returns host
  paths and nothing in this crate converts them;
- the platform-specific replacement of a running binary is written in
  `app/lib.rs` as `self_replace` (move aside, copy, set permissions).

use proto_installer::plugin::{
    choose_context_dir, ContextDirs, ContextPreparation, OutputHandling, PluginFunction, ToolDirs,
    UnresolvedContextDirs, WasmTestWrapper,
};

fn harness() -> WasmTestWrapper {
    WasmTestWrapper {
        tool: ToolDirs {
            product_dir: "/home/u/.proto/tools/node/20.0.0".to_string(),
            temp_dir: "/home/u/.proto/temp/node".to_string(),
        },
    }
}

#[test]
fn export_names_match_plugin_functions() {
    assert_eq!(PluginFunction::DetectVersionFiles.export_name(), "detect_version_files");
    assert_eq!(PluginFunction::DownloadPrebuilt.export_name(), "download_prebuilt");
    assert_eq!(PluginFunction::LoadVersions.export_name(), "load_versions");
    assert_eq!(PluginFunction::LocateExecutables.export_name(), "locate_executables");
    assert_eq!(PluginFunction::NativeInstall.export_name(), "native_install");
    assert_eq!(PluginFunction::NativeUninstall.export_name(), "native_uninstall");
    assert_eq!(PluginFunction::ParseVersionFile.export_name(), "parse_version_file");
    assert_eq!(PluginFunction::PreInstall.export_name(), "pre_install");
    assert_eq!(PluginFunction::PreRun.export_name(), "pre_run");
    assert_eq!(PluginFunction::PostInstall.export_name(), "post_install");
    assert_eq!(PluginFunction::RegisterBackend.export_name(), "register_backend");
    assert_eq!(PluginFunction::RegisterTool.export_name(), "register_tool");
    assert_eq!(PluginFunction::ResolveVersion.export_name(), "resolve_version");
    assert_eq!(PluginFunction::SyncManifest.export_name(), "sync_manifest");
    assert_eq!(PluginFunction::SyncShellProfile.export_name(), "sync_shell_profile");
    assert_eq!(PluginFunction::UnpackArchive.export_name(), "unpack_archive");
    assert_eq!(PluginFunction::VerifyChecksum.export_name(), "verify_checksum");
}

#[test]
fn context_preparation_per_function() {
    assert_eq!(PluginFunction::DownloadPrebuilt.context_preparation(), ContextPreparation::Resolved);
    assert_eq!(PluginFunction::PreRun.context_preparation(), ContextPreparation::Resolved);
    assert_eq!(PluginFunction::LoadVersions.context_preparation(), ContextPreparation::Unresolved);
    assert_eq!(PluginFunction::ParseVersionFile.context_preparation(), ContextPreparation::Unresolved);
    assert_eq!(PluginFunction::RegisterTool.context_preparation(), ContextPreparation::Untouched);
    assert_eq!(PluginFunction::VerifyChecksum.context_preparation(), ContextPreparation::Untouched);
}

#[test]
fn output_handling_per_function() {
    assert_eq!(PluginFunction::PreInstall.output_handling(), OutputHandling::NotExpected);
    assert_eq!(PluginFunction::PostInstall.output_handling(), OutputHandling::NotExpected);
    assert_eq!(PluginFunction::UnpackArchive.output_handling(), OutputHandling::Discarded);
    assert_eq!(PluginFunction::ResolveVersion.output_handling(), OutputHandling::Returned);
}

#[test]
fn virtualized_fields_per_function() {
    assert_eq!(PluginFunction::ParseVersionFile.virtualized_fields(), vec!["path"]);
    assert_eq!(PluginFunction::UnpackArchive.virtualized_fields(), vec!["input_file", "output_dir"]);
    assert_eq!(
        PluginFunction::VerifyChecksum.virtualized_fields(),
        vec!["checksum_file", "download_file"]
    );
    assert!(PluginFunction::SyncManifest.virtualized_fields().is_empty());
}

#[test]
fn blank_context_dirs_fall_back_to_tool_dirs() {
    let r = harness().prepare_context(
        ContextDirs { temp_dir: String::new(), tool_dir: String::new() },
    );
    assert_eq!(r.temp_dir, "/home/u/.proto/temp/node");
    assert_eq!(r.tool_dir, "/home/u/.proto/tools/node/20.0.0");
}

#[test]
fn given_context_dirs_are_kept() {
    let r = harness().prepare_context(
        ContextDirs { temp_dir: "/tmp/t".to_string(), tool_dir: "/opt/node".to_string() },
    );
    assert_eq!(r.temp_dir, "/tmp/t");
    assert_eq!(r.tool_dir, "/opt/node");
}

#[test]
fn unresolved_context_temp_dir() {
    let h = harness();
    let blank = h.prepare_unresolved_context(UnresolvedContextDirs { temp_dir: String::new() });
    assert_eq!(blank.temp_dir, "/home/u/.proto/temp/node");
    let given =
        h.prepare_unresolved_context(UnresolvedContextDirs { temp_dir: "rel/tmp".to_string() });
    assert_eq!(given.temp_dir, "rel/tmp");
}

#[test]
fn preparing_twice_changes_nothing() {
    let once = harness().prepare_context(
        ContextDirs { temp_dir: String::new(), tool_dir: "/opt/node".to_string() },
    );
    let twice = harness().prepare_context(
        ContextDirs { temp_dir: once.temp_dir.clone(), tool_dir: once.tool_dir.clone() },
    );
    assert_eq!(once.temp_dir, twice.temp_dir);
    assert_eq!(once.tool_dir, twice.tool_dir);
}

#[test]
fn export_names_are_distinct() {
    let all = [
        PluginFunction::DetectVersionFiles,
        PluginFunction::DownloadPrebuilt,
        PluginFunction::LoadVersions,
        PluginFunction::LocateExecutables,
        PluginFunction::NativeInstall,
        PluginFunction::NativeUninstall,
        PluginFunction::ParseVersionFile,
        PluginFunction::PreInstall,
        PluginFunction::PreRun,
        PluginFunction::PostInstall,
        PluginFunction::RegisterBackend,
        PluginFunction::RegisterTool,
        PluginFunction::ResolveVersion,
        PluginFunction::SyncManifest,
        PluginFunction::SyncShellProfile,
        PluginFunction::UnpackArchive,
        PluginFunction::VerifyChecksum,
    ];
    let names: std::collections::HashSet<&str> = all.iter().map(|f| f.export_name()).collect();
    assert_eq!(names.len(), all.len());
}

#[test]
fn choose_context_dir_by_component_count() {
    let fallback = "/home/u/.proto/temp/node".to_string();
    assert_eq!(choose_context_dir(0, String::new(), &fallback), fallback);
    assert_eq!(choose_context_dir(0, "x".to_string(), &fallback), fallback);
    assert_eq!(choose_context_dir(2, "/tmp".to_string(), &fallback), "/tmp");
}

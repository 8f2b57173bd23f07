use vstd::prelude::*;

verus! {

/// A function that a tool plugin exports and the test harness calls.
#[derive(Clone, Copy, Debug, PartialEq, Eq, Structural)]
pub enum PluginFunction {
    DetectVersionFiles,
    DownloadPrebuilt,
    LoadVersions,
    LocateExecutables,
    NativeInstall,
    NativeUninstall,
    ParseVersionFile,
    PreInstall,
    PreRun,
    PostInstall,
    RegisterBackend,
    RegisterTool,
    ResolveVersion,
    SyncManifest,
    SyncShellProfile,
    UnpackArchive,
    VerifyChecksum,
}

/// How the harness fills in the tool context of a request before the call.
#[derive(Clone, Copy, Debug, PartialEq, Eq, Structural)]
pub enum ContextPreparation {
    /// The resolved context: temporary and tool directories.
    Resolved,
    /// The unresolved context: the temporary directory only.
    Unresolved,
    /// The request carries no context.
    Untouched,
}

/// What the harness does with the plugin's answer.
#[derive(Clone, Copy, Debug, PartialEq, Eq, Structural)]
pub enum OutputHandling {
    /// The answer is decoded and handed back to the test.
    Returned,
    /// An empty answer is decoded and dropped.
    Discarded,
    /// No answer is expected.
    NotExpected,
}

/// The name under which the plugin exports `f`.
pub open spec fn spec_export_name(f: PluginFunction) -> Seq<char> {
    match f {
        PluginFunction::DetectVersionFiles => "detect_version_files"@,
        PluginFunction::DownloadPrebuilt => "download_prebuilt"@,
        PluginFunction::LoadVersions => "load_versions"@,
        PluginFunction::LocateExecutables => "locate_executables"@,
        PluginFunction::NativeInstall => "native_install"@,
        PluginFunction::NativeUninstall => "native_uninstall"@,
        PluginFunction::ParseVersionFile => "parse_version_file"@,
        PluginFunction::PreInstall => "pre_install"@,
        PluginFunction::PreRun => "pre_run"@,
        PluginFunction::PostInstall => "post_install"@,
        PluginFunction::RegisterBackend => "register_backend"@,
        PluginFunction::RegisterTool => "register_tool"@,
        PluginFunction::ResolveVersion => "resolve_version"@,
        PluginFunction::SyncManifest => "sync_manifest"@,
        PluginFunction::SyncShellProfile => "sync_shell_profile"@,
        PluginFunction::UnpackArchive => "unpack_archive"@,
        PluginFunction::VerifyChecksum => "verify_checksum"@,
    }
}

/// Which context the harness prepares for a call of `f`.
pub open spec fn spec_context_preparation(f: PluginFunction) -> ContextPreparation {
    match f {
        PluginFunction::DownloadPrebuilt | PluginFunction::LocateExecutables
        | PluginFunction::NativeInstall | PluginFunction::NativeUninstall
        | PluginFunction::PreInstall | PluginFunction::PreRun | PluginFunction::PostInstall
        | PluginFunction::SyncManifest | PluginFunction::SyncShellProfile => ContextPreparation::Resolved,
        PluginFunction::DetectVersionFiles | PluginFunction::LoadVersions
        | PluginFunction::ParseVersionFile | PluginFunction::RegisterBackend
        | PluginFunction::ResolveVersion => ContextPreparation::Unresolved,
        PluginFunction::RegisterTool | PluginFunction::UnpackArchive
        | PluginFunction::VerifyChecksum => ContextPreparation::Untouched,
    }
}

/// What the harness does with the answer to `f`.
pub open spec fn spec_output_handling(f: PluginFunction) -> OutputHandling {
    match f {
        PluginFunction::PreInstall | PluginFunction::PostInstall => OutputHandling::NotExpected,
        PluginFunction::UnpackArchive => OutputHandling::Discarded,
        _ => OutputHandling::Returned,
    }
}

/// The host paths in the input of `f` that the harness turns into the
/// plugin's virtual paths before the call, by field name.
pub open spec fn spec_virtualized_fields(f: PluginFunction) -> Seq<Seq<char>> {
    match f {
        PluginFunction::ParseVersionFile => seq!["path"@],
        PluginFunction::UnpackArchive => seq!["input_file"@, "output_dir"@],
        PluginFunction::VerifyChecksum => seq!["checksum_file"@, "download_file"@],
        _ => seq![],
    }
}

impl PluginFunction {
    /// The name under which the plugin exports this function.
    pub fn export_name(&self) -> (r: &'static str)
        ensures
            r@ == spec_export_name(*self),
    {
        match self {
            PluginFunction::DetectVersionFiles => "detect_version_files",
            PluginFunction::DownloadPrebuilt => "download_prebuilt",
            PluginFunction::LoadVersions => "load_versions",
            PluginFunction::LocateExecutables => "locate_executables",
            PluginFunction::NativeInstall => "native_install",
            PluginFunction::NativeUninstall => "native_uninstall",
            PluginFunction::ParseVersionFile => "parse_version_file",
            PluginFunction::PreInstall => "pre_install",
            PluginFunction::PreRun => "pre_run",
            PluginFunction::PostInstall => "post_install",
            PluginFunction::RegisterBackend => "register_backend",
            PluginFunction::RegisterTool => "register_tool",
            PluginFunction::ResolveVersion => "resolve_version",
            PluginFunction::SyncManifest => "sync_manifest",
            PluginFunction::SyncShellProfile => "sync_shell_profile",
            PluginFunction::UnpackArchive => "unpack_archive",
            PluginFunction::VerifyChecksum => "verify_checksum",
        }
    }

    /// Which context the harness prepares before calling this function.
    pub fn context_preparation(&self) -> (r: ContextPreparation)
        ensures
            r == spec_context_preparation(*self),
            (r == ContextPreparation::Untouched) <==> (*self == PluginFunction::RegisterTool
                || *self == PluginFunction::UnpackArchive || *self
                == PluginFunction::VerifyChecksum),
            (r == ContextPreparation::Unresolved) <==> (*self == PluginFunction::DetectVersionFiles
                || *self == PluginFunction::LoadVersions || *self
                == PluginFunction::ParseVersionFile || *self == PluginFunction::RegisterBackend
                || *self == PluginFunction::ResolveVersion),
    {
        match self {
            PluginFunction::DownloadPrebuilt | PluginFunction::LocateExecutables
            | PluginFunction::NativeInstall | PluginFunction::NativeUninstall
            | PluginFunction::PreInstall | PluginFunction::PreRun | PluginFunction::PostInstall
            | PluginFunction::SyncManifest | PluginFunction::SyncShellProfile => ContextPreparation::Resolved,
            PluginFunction::DetectVersionFiles | PluginFunction::LoadVersions
            | PluginFunction::ParseVersionFile | PluginFunction::RegisterBackend
            | PluginFunction::ResolveVersion => ContextPreparation::Unresolved,
            PluginFunction::RegisterTool | PluginFunction::UnpackArchive
            | PluginFunction::VerifyChecksum => ContextPreparation::Untouched,
        }
    }

    /// What the harness does with this function's answer.
    pub fn output_handling(&self) -> (r: OutputHandling)
        ensures
            r == spec_output_handling(*self),
            (r == OutputHandling::NotExpected) <==> (*self == PluginFunction::PreInstall || *self
                == PluginFunction::PostInstall),
            (r == OutputHandling::Discarded) <==> (*self == PluginFunction::UnpackArchive),
    {
        match self {
            PluginFunction::PreInstall | PluginFunction::PostInstall => OutputHandling::NotExpected,
            PluginFunction::UnpackArchive => OutputHandling::Discarded,
            _ => OutputHandling::Returned,
        }
    }

    /// The input fields holding host paths that are made virtual before the
    /// call, in the order the harness converts them.
    pub fn virtualized_fields(&self) -> (r: Vec<&'static str>)
        ensures
            r@.map_values(|s: &'static str| s@) == spec_virtualized_fields(*self),
    {
        let mut r: Vec<&'static str> = Vec::new();
        match self {
            PluginFunction::ParseVersionFile => {
                r.push("path");
            },
            PluginFunction::UnpackArchive => {
                r.push("input_file");
                r.push("output_dir");
            },
            PluginFunction::VerifyChecksum => {
                r.push("checksum_file");
                r.push("download_file");
            },
            _ => {},
        }
        proof {
            assert(r@.map_values(|s: &'static str| s@) =~= spec_virtualized_fields(*self));
        }
        r
    }
}

/// Only the three requests that carry no tool context (registering the
/// tool, unpacking an archive, verifying a checksum) are sent unprepared;
/// the five requests made before a version is resolved (detecting version
/// files, loading versions, parsing a version file, registering a backend,
/// resolving a version) get the unresolved context; every other request gets
/// the resolved one.
pub proof fn lemma_context_preparation_table(f: PluginFunction)
    ensures
        (spec_context_preparation(f) == ContextPreparation::Untouched) <==> (f
            == PluginFunction::RegisterTool || f == PluginFunction::UnpackArchive || f
            == PluginFunction::VerifyChecksum),
        (spec_context_preparation(f) == ContextPreparation::Unresolved) <==> (f
            == PluginFunction::DetectVersionFiles || f == PluginFunction::LoadVersions || f
            == PluginFunction::ParseVersionFile || f == PluginFunction::RegisterBackend || f
            == PluginFunction::ResolveVersion),
        (spec_context_preparation(f) == ContextPreparation::Resolved) <==> (f
            == PluginFunction::DownloadPrebuilt || f == PluginFunction::LocateExecutables || f
            == PluginFunction::NativeInstall || f == PluginFunction::NativeUninstall || f
            == PluginFunction::PreInstall || f == PluginFunction::PreRun || f
            == PluginFunction::PostInstall || f == PluginFunction::SyncManifest || f
            == PluginFunction::SyncShellProfile),
{
}

/// Only the install hooks (before and after installing) expect no answer;
/// unpacking an archive gets an empty answer that is dropped; every other
/// function, the run hook included, hands its answer back.
pub proof fn lemma_output_handling_table(f: PluginFunction)
    ensures
        (spec_output_handling(f) == OutputHandling::NotExpected) <==> (f
            == PluginFunction::PreInstall || f == PluginFunction::PostInstall),
        (spec_output_handling(f) == OutputHandling::Discarded) <==> (f
            == PluginFunction::UnpackArchive),
        (spec_output_handling(f) == OutputHandling::Returned) <==> !(f == PluginFunction::PreInstall
            || f == PluginFunction::PostInstall || f == PluginFunction::UnpackArchive),
        spec_output_handling(PluginFunction::PreRun) == OutputHandling::Returned,
{
}

/// Only parsing a version file, unpacking an archive and verifying a
/// checksum carry host paths that are made virtual before the call.
pub proof fn lemma_virtualized_fields_table(f: PluginFunction)
    ensures
        spec_virtualized_fields(f).len() > 0 <==> (f == PluginFunction::ParseVersionFile || f
            == PluginFunction::UnpackArchive || f == PluginFunction::VerifyChecksum),
{
}

/// Different plugin functions are exported under different names.
pub proof fn lemma_export_names_distinct(f: PluginFunction, g: PluginFunction)
    requires
        f != g,
    ensures
        spec_export_name(f) != spec_export_name(g),
{
    reveal_strlit("detect_version_files");
    reveal_strlit("download_prebuilt");
    reveal_strlit("load_versions");
    reveal_strlit("locate_executables");
    reveal_strlit("native_install");
    reveal_strlit("native_uninstall");
    reveal_strlit("parse_version_file");
    reveal_strlit("pre_install");
    reveal_strlit("pre_run");
    reveal_strlit("post_install");
    reveal_strlit("register_backend");
    reveal_strlit("register_tool");
    reveal_strlit("resolve_version");
    reveal_strlit("sync_manifest");
    reveal_strlit("sync_shell_profile");
    reveal_strlit("unpack_archive");
    reveal_strlit("verify_checksum");
    let a = spec_export_name(f);
    let b = spec_export_name(g);
    if a.len() == b.len() {
        assert(a[0] != b[0] || a[4] != b[4]);
    }
}

/// The number of components that `std::path::Path::components` yields for
/// `path`, with the path syntax of the platform the crate is built for.
pub uninterp spec fn spec_path_component_count(path: Seq<char>) -> nat;

/// Calls `std::path::Path::components` on `path` and counts the components.
/// The count is named, not stated.
#[verifier::external_body]
fn path_component_count(path: &str) -> (r: usize)
    ensures
        r == spec_path_component_count(path@),
{
    std::path::Path::new(path).components().count()
}

/// The directory a context ends up with: the one it names, or `fallback`
/// when it names a path without components (a blank path).
pub open spec fn spec_context_dir(given: Seq<char>, fallback: Seq<char>) -> Seq<char> {
    if spec_path_component_count(given) == 0 {
        fallback
    } else {
        given
    }
}

/// The directory a context ends up with, given the number of components of
/// the directory it names: that directory when it has components, else
/// `fallback`.
pub fn choose_context_dir(component_count: usize, given: String, fallback: &String) -> (r: String)
    ensures
        r@ == (if component_count == 0 { fallback@ } else { given@ }),
{
    if component_count == 0 {
        fallback.clone()
    } else {
        given
    }
}

fn context_dir(given: String, fallback: &String) -> (r: String)
    ensures
        r@ == spec_context_dir(given@, fallback@),
{
    let count = path_component_count(given.as_str());
    choose_context_dir(count, given, fallback)
}

/// The host directories that a tool provides for plugin calls.
#[derive(Debug)]
pub struct ToolDirs {
    /// Where the tool's current version is installed.
    pub product_dir: String,
    /// The tool's scratch directory.
    pub temp_dir: String,
}

/// The directories of a resolved tool context, as host paths.
#[derive(Debug)]
pub struct ContextDirs {
    pub temp_dir: String,
    pub tool_dir: String,
}

/// The directories of an unresolved tool context, as host paths.
#[derive(Debug)]
pub struct UnresolvedContextDirs {
    pub temp_dir: String,
}

/// The test harness around a tool plugin: it knows the tool's directories
/// and fills them into the contexts of the requests it sends.
#[derive(Debug)]
pub struct WasmTestWrapper {
    pub tool: ToolDirs,
}

impl WasmTestWrapper {
    /// Fills in a resolved context before a call: a blank temporary
    /// directory becomes the tool's scratch directory and a blank tool
    /// directory the tool's product directory; directories that are given
    /// are kept. The result is in host paths: this crate does not turn them
    /// into the plugin's virtual paths (that conversion belongs to the tool,
    /// which is not part of this crate).
    pub fn prepare_context(&self, context: ContextDirs) -> (r: ContextDirs)
        ensures
            r.temp_dir@ == spec_context_dir(context.temp_dir@, self.tool.temp_dir@),
            r.tool_dir@ == spec_context_dir(context.tool_dir@, self.tool.product_dir@),
    {
        let tool_dir = context_dir(context.tool_dir, &self.tool.product_dir);
        let temp_dir = context_dir(context.temp_dir, &self.tool.temp_dir);
        ContextDirs { temp_dir, tool_dir }
    }

    /// Fills in an unresolved context before a call: a blank temporary
    /// directory becomes the tool's scratch directory; one that is given is
    /// kept. The result is in host paths, not the plugin's virtual paths.
    pub fn prepare_unresolved_context(&self, context: UnresolvedContextDirs) -> (r:
        UnresolvedContextDirs)
        ensures
            r.temp_dir@ == spec_context_dir(context.temp_dir@, self.tool.temp_dir@),
    {
        UnresolvedContextDirs { temp_dir: context_dir(context.temp_dir, &self.tool.temp_dir) }
    }
}

/// Preparing a context twice gives what preparing it once gave.
pub proof fn lemma_context_dir_idempotent(given: Seq<char>, fallback: Seq<char>)
    ensures
        spec_context_dir(spec_context_dir(given, fallback), fallback) == spec_context_dir(
            given,
            fallback,
        ),
{
}

} // verus!

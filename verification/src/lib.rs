//! Release selection, download accounting and install planning for the proto
//! toolchain installer, together with the request table of the plugin test
//! harness.
//!
//! Everything here is decision logic over plain values; the caller performs
//! the network, archive and file-system work that each decision asks for and
//! reports back what it observed.

pub mod error;
pub mod install;
pub mod plugin;
pub mod progress;
pub mod release;
pub mod triple;

pub use error::ProtoInstallerError;
pub use install::{binary_names, output_dirs, InstallAction, InstallEvent, InstallWalk};
pub use plugin::{ContextDirs, PluginFunction, ToolDirs, UnresolvedContextDirs, WasmTestWrapper};
pub use progress::DownloadProgress;
pub use release::{release_asset, DownloadResult, ReleaseAsset};
pub use triple::{determine_triple, triple_for};

use proto_installer::error::ProtoInstallerError;
use proto_installer::install::{
    binary_names, output_dirs, should_record_last_used, InputDir, InstallAction, InstallEvent,
    InstallWalk, OutputDir,
};
use proto_installer::progress::{status_is_success, DownloadProgress};
use proto_installer::release::{release_asset, DownloadResult};
use proto_installer::triple::{determine_triple, triple_for};
use std::path::PathBuf;

#[test]
fn triple_for_linux_gnu_and_musl() {
    assert_eq!(triple_for("linux", "x86_64", false).unwrap(), "x86_64-unknown-linux-gnu");
    assert_eq!(triple_for("linux", "aarch64", true).unwrap(), "aarch64-unknown-linux-musl");
}

#[test]
fn triple_for_macos_and_windows() {
    assert_eq!(triple_for("macos", "aarch64", false).unwrap(), "aarch64-apple-darwin");
    assert_eq!(triple_for("macos", "x86_64", true).unwrap(), "x86_64-apple-darwin");
    assert_eq!(triple_for("windows", "x86_64", false).unwrap(), "x86_64-pc-windows-msvc");
}

#[test]
fn triple_for_rejects_unknown_platforms() {
    match triple_for("windows", "aarch64", false) {
        Err(ProtoInstallerError::InvalidPlatform { arch, os }) => {
            assert_eq!(arch, "aarch64");
            assert_eq!(os, "windows");
        }
        other => panic!("unexpected {:?}", other),
    }
    match triple_for("freebsd", "x86_64", true) {
        Err(ProtoInstallerError::InvalidPlatform { arch, os }) => {
            assert_eq!(arch, "x86_64");
            assert_eq!(os, "freebsd");
        }
        other => panic!("unexpected {:?}", other),
    }
}

#[test]
fn determine_triple_without_libc_probe() {
    assert_eq!(determine_triple("macos", "x86_64").unwrap(), "x86_64-apple-darwin");
    assert_eq!(determine_triple("windows", "x86_64").unwrap(), "x86_64-pc-windows-msvc");
    assert!(matches!(
        determine_triple("solaris", "sparc"),
        Err(ProtoInstallerError::InvalidPlatform { .. })
    ));
}

#[test]
fn determine_triple_on_linux_picks_a_libc_build() {
    let t = determine_triple("linux", "x86_64").unwrap();
    assert!(t == "x86_64-unknown-linux-gnu" || t == "x86_64-unknown-linux-musl");
}

#[test]
fn release_asset_unix_names() {
    let a = release_asset("x86_64-unknown-linux-gnu", "0.40.1", false);
    assert_eq!(a.file_stem, "proto_cli-x86_64-unknown-linux-gnu");
    assert_eq!(a.file, "proto_cli-x86_64-unknown-linux-gnu.tar.xz");
    assert_eq!(
        a.url,
        "https://github.com/moonrepo/proto/releases/download/v0.40.1/proto_cli-x86_64-unknown-linux-gnu.tar.xz"
    );
}

#[test]
fn release_asset_windows_names() {
    let a = release_asset("x86_64-pc-windows-msvc", "1.2.3", true);
    assert_eq!(a.file_stem, "proto_cli-x86_64-pc-windows-msvc");
    assert_eq!(a.file, "proto_cli-x86_64-pc-windows-msvc.zip");
    assert_eq!(
        a.url,
        "https://github.com/moonrepo/proto/releases/download/v1.2.3/proto_cli-x86_64-pc-windows-msvc.zip"
    );
    assert!(a.url.ends_with(&a.file));
    assert!(a.file.starts_with(&a.file_stem));
}

#[test]
fn download_result_keeps_its_parts() {
    let a = release_asset("aarch64-apple-darwin", "0.1.0", false);
    let r = DownloadResult::new(PathBuf::from("/tmp/x/proto_cli-aarch64-apple-darwin.tar.xz"), a);
    assert_eq!(r.archive_file, PathBuf::from("/tmp/x/proto_cli-aarch64-apple-darwin.tar.xz"));
    assert_eq!(r.file, "proto_cli-aarch64-apple-darwin.tar.xz");
    assert_eq!(r.file_stem, "proto_cli-aarch64-apple-darwin");
    assert!(r.url.ends_with("/v0.1.0/proto_cli-aarch64-apple-darwin.tar.xz"));
}

#[test]
fn status_success_range() {
    assert!(!status_is_success(199));
    assert!(status_is_success(200));
    assert!(status_is_success(204));
    assert!(status_is_success(299));
    assert!(!status_is_success(300));
    assert!(!status_is_success(404));
}

#[test]
fn download_refused_status_reports_version_and_status() {
    match DownloadProgress::start("0.9.0", 404, Some(10)) {
        Err(ProtoInstallerError::DownloadNotAvailable { version, status }) => {
            assert_eq!(version, "0.9.0");
            assert_eq!(status, 404);
        }
        other => panic!("unexpected {:?}", other.is_ok()),
    }
}

#[test]
fn download_progress_caps_at_total() {
    let mut p = DownloadProgress::start("1.0.0", 200, Some(10)).unwrap();
    assert_eq!((p.downloaded(), p.total()), (0, 10));
    assert_eq!(p.record_chunk(3), (3, 10));
    assert_eq!(p.record_chunk(4), (7, 10));
    assert_eq!(p.record_chunk(5), (10, 10));
    assert_eq!(p.record_chunk(u64::MAX), (10, 10));
}

#[test]
fn download_progress_without_length_stays_zero() {
    let mut p = DownloadProgress::start("1.0.0", 200, None).unwrap();
    assert_eq!(p.total(), 0);
    assert_eq!(p.record_chunk(4096), (0, 0));
}

#[test]
fn download_progress_equals_capped_sum() {
    let lens = [100u64, 250, 7, 1000, 3];
    let total = 1200u64;
    let mut p = DownloadProgress::start("2.0.0", 200, Some(total)).unwrap();
    let mut sum = 0u64;
    for len in lens {
        sum += len;
        let (done, t) = p.record_chunk(len);
        assert_eq!(t, total);
        assert_eq!(done, sum.min(total));
    }
}

#[test]
fn binary_names_by_platform() {
    assert_eq!(binary_names(false), vec!["proto".to_string(), "proto-shim".to_string()]);
    assert_eq!(binary_names(true), vec!["proto.exe".to_string(), "proto-shim.exe".to_string()]);
}

#[test]
fn output_dirs_choice() {
    assert_eq!(output_dirs(false, Some(true)), vec![OutputDir::Install]);
    assert_eq!(output_dirs(true, None), vec![OutputDir::Install]);
    assert_eq!(output_dirs(true, Some(false)), vec![OutputDir::Install]);
    assert_eq!(output_dirs(true, Some(true)), vec![OutputDir::Install, OutputDir::CurrentExe]);
}

#[test]
fn last_used_recorded_only_after_install() {
    assert!(should_record_last_used(true, true));
    assert!(!should_record_last_used(true, false));
    assert!(!should_record_last_used(false, true));
    assert!(!should_record_last_used(false, false));
}

/// Runs a walk against a pretend file system: `inputs` lists the
/// (binary, input directory) pairs that exist, `outputs` the (binary, output
/// directory) pairs that exist before the install. Returns the placements
/// made and the reported outcome.
fn run_walk(
    walk: &mut InstallWalk,
    inputs: &[(&str, InputDir)],
    outputs: &mut Vec<(String, OutputDir)>,
) -> (Vec<(String, InputDir, OutputDir, bool)>, bool) {
    let mut placed = Vec::new();
    for _ in 0..100 {
        match walk.pending() {
            InstallAction::CheckInput { bin, input } => {
                let exists = inputs.iter().any(|(b, i)| *b == bin && *i == input);
                walk.step(InstallEvent::InputChecked { exists });
            }
            InstallAction::CheckOutput { bin, output, .. } => {
                let exists = outputs.iter().any(|(b, o)| *b == bin && *o == output);
                walk.step(InstallEvent::OutputChecked { exists });
            }
            InstallAction::Replace { bin, input, output } => {
                placed.push((bin, input, output, true));
                walk.step(InstallEvent::Placed);
            }
            InstallAction::Copy { bin, input, output } => {
                outputs.push((bin.clone(), output));
                placed.push((bin, input, output, false));
                walk.step(InstallEvent::Placed);
            }
            InstallAction::Finish { installed } => return (placed, installed),
        }
    }
    panic!("the walk did not finish");
}

#[test]
fn install_walk_places_each_found_binary() {
    let mut walk = InstallWalk::new(
        binary_names(false),
        vec![OutputDir::Install, OutputDir::CurrentExe],
    );
    let mut outputs = vec![("proto".to_string(), OutputDir::CurrentExe)];
    let (placed, installed) = run_walk(
        &mut walk,
        &[("proto", InputDir::Nested), ("proto-shim", InputDir::Unpacked)],
        &mut outputs,
    );
    assert!(installed);
    assert_eq!(
        placed,
        vec![
            ("proto".to_string(), InputDir::Nested, OutputDir::Install, false),
            ("proto".to_string(), InputDir::Nested, OutputDir::CurrentExe, true),
            ("proto-shim".to_string(), InputDir::Unpacked, OutputDir::Install, false),
            ("proto-shim".to_string(), InputDir::Unpacked, OutputDir::CurrentExe, false),
        ]
    );
}

#[test]
fn install_walk_second_input_replaces_first_copy() {
    let mut walk = InstallWalk::new(vec!["proto".to_string()], vec![OutputDir::Install]);
    let mut outputs = Vec::new();
    let (placed, installed) = run_walk(
        &mut walk,
        &[("proto", InputDir::Nested), ("proto", InputDir::Unpacked)],
        &mut outputs,
    );
    assert!(installed);
    assert_eq!(
        placed,
        vec![
            ("proto".to_string(), InputDir::Nested, OutputDir::Install, false),
            ("proto".to_string(), InputDir::Unpacked, OutputDir::Install, true),
        ]
    );
}

#[test]
fn install_walk_with_nothing_found_installs_nothing() {
    let mut walk = InstallWalk::new(binary_names(true), vec![OutputDir::Install]);
    let mut outputs = Vec::new();
    let (placed, installed) = run_walk(&mut walk, &[], &mut outputs);
    assert!(placed.is_empty());
    assert!(!installed);
    assert!(!walk.installed());
}

#[test]
fn install_walk_without_binaries_finishes_at_once() {
    let walk = InstallWalk::new(Vec::new(), vec![OutputDir::Install]);
    assert!(matches!(walk.pending(), InstallAction::Finish { installed: false }));
}

#[test]
fn install_walk_ignores_unexpected_reports() {
    let mut walk = InstallWalk::new(vec!["proto".to_string()], vec![OutputDir::Install]);
    walk.step(InstallEvent::Placed);
    walk.step(InstallEvent::OutputChecked { exists: true });
    match walk.pending() {
        InstallAction::CheckInput { bin, input } => {
            assert_eq!(bin, "proto");
            assert_eq!(input, InputDir::Nested);
        }
        other => panic!("unexpected {:?}", other),
    }
    assert!(!walk.installed());
}

#[test]
fn release_urls_differ_by_triple_and_version() {
    let a = release_asset("x86_64-apple-darwin", "0.1.0", false);
    let b = release_asset("x86_64-apple-darwin", "0.1.1", false);
    let c = release_asset("aarch64-apple-darwin", "0.1.0", false);
    assert_ne!(a.url, b.url);
    assert_ne!(a.url, c.url);
}

#[test]
fn triples_begin_with_arch() {
    for (os, arch) in [("linux", "aarch64"), ("macos", "x86_64"), ("windows", "x86_64")] {
        for musl in [false, true] {
            assert!(triple_for(os, arch, musl).unwrap().starts_with(arch));
        }
    }
}

#[test]
fn finished_walk_ignores_reports() {
    let mut walk = InstallWalk::new(vec!["proto".to_string()], vec![OutputDir::Install]);
    walk.step(InstallEvent::InputChecked { exists: false });
    walk.step(InstallEvent::InputChecked { exists: false });
    assert!(matches!(walk.pending(), InstallAction::Finish { installed: false }));
    walk.step(InstallEvent::InputChecked { exists: true });
    walk.step(InstallEvent::Placed);
    assert!(matches!(walk.pending(), InstallAction::Finish { installed: false }));
}

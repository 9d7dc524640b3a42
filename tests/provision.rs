use mcphub::error::CoreError;
use mcphub::handlers::{NpmHandler, ResourceHandler, UVHandler};
use mcphub::install::{install_plan, ArchiveFormat, InstallStep};
use mcphub::runtime::{
    check_download_status, detect_step, dir_name, download_url, extract_dir, finish_detect,
    probe_command, runtime_dir, store_keys, version, Arch, DetectStep, Os, Platform, RuntimeKind,
    RuntimeRecord, RuntimeSource,
};

const MAC_ARM: Platform = Platform { os: Os::Posix, arch: Arch::Aarch64 };
const MAC_X64: Platform = Platform { os: Os::Posix, arch: Arch::X86_64 };
const WIN_X64: Platform = Platform { os: Os::Windows, arch: Arch::X86_64 };
const WIN_X86: Platform = Platform { os: Os::Windows, arch: Arch::X86 };

#[test]
fn pinned_versions() {
    assert_eq!(version(RuntimeKind::Node), "v22.11.0");
    assert_eq!(version(RuntimeKind::PythonPackager), "0.5.5");
}

#[test]
fn node_download_urls() {
    assert_eq!(
        download_url(RuntimeKind::Node, MAC_ARM),
        "https://nodejs.org/dist/v22.11.0/node-v22.11.0-darwin-arm64.tar.gz"
    );
    assert_eq!(
        download_url(RuntimeKind::Node, MAC_X64),
        "https://nodejs.org/dist/v22.11.0/node-v22.11.0-darwin-x64.tar.gz"
    );
    assert_eq!(
        download_url(RuntimeKind::Node, WIN_X64),
        "https://nodejs.org/dist/v22.11.0/node-v22.11.0-win-x64.zip"
    );
    assert_eq!(
        download_url(RuntimeKind::Node, WIN_X86),
        "https://nodejs.org/dist/v22.11.0/node-v22.11.0-win-x86.zip"
    );
}

#[test]
fn uv_download_urls() {
    assert_eq!(
        download_url(RuntimeKind::PythonPackager, MAC_ARM),
        "https://github.com/astral-sh/uv/releases/download/0.5.5/uv-aarch64-apple-darwin.tar.gz"
    );
    assert_eq!(
        download_url(RuntimeKind::PythonPackager, WIN_X64),
        "https://github.com/astral-sh/uv/releases/download/0.5.5/uv-x86_64-pc-windows-msvc.zip"
    );
    assert_eq!(
        download_url(RuntimeKind::PythonPackager, WIN_X86),
        "https://github.com/astral-sh/uv/releases/download/0.5.5/uv-i686-pc-windows-msvc.zip"
    );
}

#[test]
fn directories_under_home() {
    assert_eq!(dir_name(RuntimeKind::Node, MAC_ARM), "node-v22.11.0-darwin-arm64");
    assert_eq!(dir_name(RuntimeKind::PythonPackager, MAC_ARM), "uv-0.5.5-aarch64-apple-darwin");
    assert_eq!(extract_dir(RuntimeKind::Node, MAC_ARM, "/home/u"), "/home/u/.node");
    assert_eq!(runtime_dir(RuntimeKind::Node, MAC_ARM, "/home/u"), "/home/u/.node/node-v22.11.0-darwin-arm64");
    assert_eq!(
        runtime_dir(RuntimeKind::PythonPackager, MAC_ARM, "/home/u"),
        "/home/u/.uv/uv-0.5.5-aarch64-apple-darwin"
    );
    assert_eq!(extract_dir(RuntimeKind::Node, WIN_X64, "C:\\Users\\u"), "C:\\Users\\u\\AppData\\Local\\node");
    assert_eq!(
        runtime_dir(RuntimeKind::Node, WIN_X64, "C:\\Users\\u"),
        "C:\\Users\\u\\AppData\\Local\\node\\node-v22.11.0-win-x64"
    );
    assert_eq!(runtime_dir(RuntimeKind::PythonPackager, WIN_X64, "C:\\Users\\u"), "C:\\Users\\u\\AppData\\Local\\uv");
}

#[test]
fn posix_install_plan() {
    let plan = NpmHandler::install(MAC_ARM, "/home/u");
    assert_eq!(plan.kind, RuntimeKind::Node);
    assert_eq!(plan.archive, ArchiveFormat::TarGz);
    assert_eq!(plan.extract_dir, "/home/u/.node");
    assert_eq!(
        plan.links,
        vec![
            (
                "/home/u/.node/node-v22.11.0-darwin-arm64/node".to_string(),
                "/home/u/.node/node-v22.11.0-darwin-arm64/bin/node".to_string()
            ),
            (
                "/home/u/.node/node-v22.11.0-darwin-arm64/npm".to_string(),
                "/home/u/.node/node-v22.11.0-darwin-arm64/bin/npm".to_string()
            ),
            (
                "/home/u/.node/node-v22.11.0-darwin-arm64/npx".to_string(),
                "/home/u/.node/node-v22.11.0-darwin-arm64/bin/npx".to_string()
            ),
        ]
    );
    assert_eq!(
        plan.export_line.as_deref(),
        Some("export PATH=\"/home/u/.node/node-v22.11.0-darwin-arm64:$PATH\"")
    );
    assert_eq!(
        plan.steps(),
        vec![
            InstallStep::CreateDir,
            InstallStep::Download,
            InstallStep::Extract,
            InstallStep::LinkExecutables,
            InstallStep::PatchShellProfile,
            InstallStep::Commit
        ]
    );
    let uv = UVHandler::install(MAC_ARM, "/home/u");
    assert_eq!(
        uv.links[1],
        (
            "/home/u/.uv/uv-0.5.5-aarch64-apple-darwin/uvx".to_string(),
            "/home/u/.uv/uv-0.5.5-aarch64-apple-darwin/uv-aarch64-apple-darwin/uvx".to_string()
        )
    );
}

#[test]
fn windows_install_plan() {
    let plan = install_plan(RuntimeKind::PythonPackager, WIN_X64, "C:\\Users\\u");
    assert_eq!(plan.archive, ArchiveFormat::Zip);
    assert!(plan.links.is_empty());
    assert!(plan.export_line.is_none());
    assert_eq!(
        plan.steps(),
        vec![
            InstallStep::CreateDir,
            InstallStep::Download,
            InstallStep::Extract,
            InstallStep::ExtendUserPath,
            InstallStep::Commit
        ]
    );
    let record = plan.record();
    assert_eq!(record.path, "C:\\Users\\u\\AppData\\Local\\uv");
    assert_eq!(record.source, RuntimeSource::Managed);
}

#[test]
fn installed_runtime_detected_without_probe() {
    for kind in [RuntimeKind::Node, RuntimeKind::PythonPackager] {
        for p in [MAC_ARM, MAC_X64, WIN_X64, WIN_X86] {
            let record = install_plan(kind, p, "/home/u").record();
            assert_eq!(detect_step(&record, true), DetectStep::Available);
        }
    }
}

#[test]
fn detect_probes_without_usable_record() {
    let empty = RuntimeRecord::from_store(None, None);
    assert_eq!(empty.path, "");
    assert_eq!(empty.source, RuntimeSource::Unknown);
    assert_eq!(NpmHandler::detect(&empty, true), DetectStep::Probe);
    let stale = RuntimeRecord { path: "/gone".to_string(), source: RuntimeSource::Managed };
    assert_eq!(UVHandler::detect(&stale, false), DetectStep::Probe);
    assert_eq!(UVHandler::detect(&stale, true), DetectStep::Available);
}

#[test]
fn probe_commands() {
    assert_eq!(
        probe_command(RuntimeKind::Node, Os::Posix, "/bin/zsh"),
        vec!["/bin/zsh".to_string(), "-ic".to_string(), "which node".to_string()]
    );
    assert_eq!(
        probe_command(RuntimeKind::PythonPackager, Os::Windows, "cmd"),
        vec!["where.exe".to_string(), "uv".to_string()]
    );
}

#[test]
fn finish_detect_found_and_not_found() {
    let found = finish_detect(RuntimeKind::Node, "/usr/local/bin/node");
    assert!(found.available);
    assert!(found.found);
    assert_eq!(found.record.path, "/usr/local/bin/node");
    assert_eq!(found.record.source, RuntimeSource::System);
    let missing = finish_detect(RuntimeKind::PythonPackager, "");
    assert!(missing.available);
    assert!(!missing.found);
    assert_eq!(missing.record.path, "");
    assert_eq!(missing.record.source, RuntimeSource::System);
    let other = finish_detect(RuntimeKind::Node, "zsh: command not found");
    assert!(!other.found);
    assert_eq!(other.record.path, "");
}

#[test]
fn store_encoding() {
    assert_eq!(store_keys(RuntimeKind::Node), ("node_path", "use_system_node"));
    assert_eq!(store_keys(RuntimeKind::PythonPackager), ("uv_path", "use_system_uv"));
    let system = RuntimeRecord::from_store(Some("/usr/bin".to_string()), Some(true));
    assert_eq!(system.source, RuntimeSource::System);
    assert_eq!(system.system_flag(), Some(true));
    let managed = RuntimeRecord::from_store(Some("/home/u/.node".to_string()), Some(false));
    assert_eq!(managed.source, RuntimeSource::Managed);
    assert_eq!(managed.system_flag(), Some(false));
    assert_eq!(RuntimeRecord::from_store(None, None).system_flag(), None);
}

#[test]
fn download_status_check() {
    assert!(check_download_status(200).is_ok());
    assert!(check_download_status(299).is_ok());
    assert!(matches!(check_download_status(404), Err(CoreError::Network(_))));
    assert!(matches!(check_download_status(199), Err(CoreError::Network(_))));
    assert!(matches!(check_download_status(302), Err(CoreError::Network(_))));
}

#[test]
fn catalog_resource() {
    assert_eq!(ResourceHandler::catalog_url(), "https://app.mcphub.net/server-configuration/servers.json");
    assert_eq!(ResourceHandler::store_key(), "servers");
    assert!(ResourceHandler::detect(false));
    assert!(!ResourceHandler::detect(true));
}

#[test]
fn error_messages() {
    let e = CoreError::NotFound("server-q".to_string());
    assert_eq!(e.message(), "server-q");
    let e = check_download_status(500).unwrap_err();
    assert_eq!(e.message(), "the download answered with a non-success status");
}

#[test]
fn records_by_kind() {
    let records = mcphub::runtime::RuntimeRecords {
        node: RuntimeRecord { path: "/n".to_string(), source: RuntimeSource::Managed },
        python_packager: RuntimeRecord { path: "/u".to_string(), source: RuntimeSource::System },
    };
    assert_eq!(records.get(RuntimeKind::Node).path, "/n");
    assert_eq!(records.get(RuntimeKind::PythonPackager).source, RuntimeSource::System);
}

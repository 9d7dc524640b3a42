//! Runtime kinds, target platforms and the per-kind descriptor that fixes
//! versions, download locations and install directories.
use crate::error::CoreError;
use crate::text::{chars_of, contains_chars, contains_text, strings_view};
use vstd::prelude::*;

verus! {

/// Which managed runtime an operation concerns.
#[derive(Clone, Copy, Debug, PartialEq, Eq, Structural)]
pub enum RuntimeKind {
    /// The JavaScript runtime, which provides `npx`.
    Node,
    /// The Python packaging tool, which provides `uvx`.
    PythonPackager,
}

/// The operating-system family the host runs.
#[derive(Clone, Copy, Debug, PartialEq, Eq, Structural)]
pub enum Os {
    /// A POSIX desktop with a login shell and tar.gz archives.
    Posix,
    /// Windows, with zip archives and `cmd`.
    Windows,
}

/// The processor architecture of the host.
#[derive(Clone, Copy, Debug, PartialEq, Eq, Structural)]
pub enum Arch {
    Aarch64,
    X86_64,
    X86,
}

/// An operating-system family together with a processor architecture.
#[derive(Clone, Copy, Debug, PartialEq, Eq, Structural)]
pub struct Platform {
    pub os: Os,
    pub arch: Arch,
}

/// Where a runtime that the host can use came from.
#[derive(Clone, Copy, Debug, PartialEq, Eq, Structural)]
pub enum RuntimeSource {
    /// Found on the host by the discovery probe.
    System,
    /// Installed and owned by this library under the user's home.
    Managed,
    /// Not checked yet.
    Unknown,
}

/// The persisted fact about one runtime: where it is and who owns it.
#[derive(Debug)]
pub struct RuntimeRecord {
    /// The resolved directory; empty where nothing was found.
    pub path: String,
    pub source: RuntimeSource,
}

/// The records of both runtime kinds.
#[derive(Debug)]
pub struct RuntimeRecords {
    pub node: RuntimeRecord,
    pub python_packager: RuntimeRecord,
}

impl RuntimeRecords {
    /// The record of `kind`.
    pub open spec fn spec_get(&self, kind: RuntimeKind) -> RuntimeRecord {
        match kind {
            RuntimeKind::Node => self.node,
            RuntimeKind::PythonPackager => self.python_packager,
        }
    }

    /// The record of `kind`.
    pub fn get(&self, kind: RuntimeKind) -> (r: &RuntimeRecord)
        ensures
            *r == self.spec_get(kind),
    {
        match kind {
            RuntimeKind::Node => &self.node,
            RuntimeKind::PythonPackager => &self.python_packager,
        }
    }
}

/// The pinned version of each runtime.
pub open spec fn version_of(kind: RuntimeKind) -> Seq<char> {
    match kind {
        RuntimeKind::Node => "v22.11.0"@,
        RuntimeKind::PythonPackager => "0.5.5"@,
    }
}

/// The architecture label that a runtime's release archives carry.
pub open spec fn arch_label_of(kind: RuntimeKind, p: Platform) -> Seq<char> {
    match (kind, p.os) {
        (RuntimeKind::Node, Os::Posix) => if p.arch == Arch::Aarch64 {
            "darwin-arm64"@
        } else {
            "darwin-x64"@
        },
        (RuntimeKind::Node, Os::Windows) => if p.arch == Arch::X86_64 {
            "win-x64"@
        } else {
            "win-x86"@
        },
        (RuntimeKind::PythonPackager, Os::Posix) => if p.arch == Arch::Aarch64 {
            "aarch64-apple-darwin"@
        } else {
            "x86_64_apple-darwin"@
        },
        (RuntimeKind::PythonPackager, Os::Windows) => if p.arch == Arch::X86_64 {
            "x86_64"@
        } else {
            "i686"@
        },
    }
}

/// The pinned version of `kind`.
pub fn version(kind: RuntimeKind) -> (r: &'static str)
    ensures
        r@ == version_of(kind),
{
    match kind {
        RuntimeKind::Node => "v22.11.0",
        RuntimeKind::PythonPackager => "0.5.5",
    }
}

/// The file-name prefix of each runtime's release archives.
pub open spec fn name_prefix_of(kind: RuntimeKind) -> Seq<char> {
    match kind {
        RuntimeKind::Node => "node-"@,
        RuntimeKind::PythonPackager => "uv-"@,
    }
}

/// The versioned directory name of a runtime on a platform.
pub open spec fn dir_name_of(kind: RuntimeKind, p: Platform) -> Seq<char> {
    name_prefix_of(kind) + version_of(kind) + "-"@ + arch_label_of(kind, p)
}

/// Where a runtime's release archive for a platform is downloaded from.
pub open spec fn download_url_of(kind: RuntimeKind, p: Platform) -> Seq<char> {
    let v = version_of(kind);
    let a = arch_label_of(kind, p);
    match kind {
        RuntimeKind::Node => "https://nodejs.org/dist/"@ + v + "/node-"@ + v + "-"@ + a + match p.os {
            Os::Posix => ".tar.gz"@,
            Os::Windows => ".zip"@,
        },
        RuntimeKind::PythonPackager => "https://github.com/astral-sh/uv/releases/download/"@ + v + "/uv-"@ + a
            + match p.os {
            Os::Posix => ".tar.gz"@,
            Os::Windows => "-pc-windows-msvc.zip"@,
        },
    }
}

/// The directory under `home` that a runtime's archive is unpacked into.
pub open spec fn extract_dir_of(kind: RuntimeKind, p: Platform, home: Seq<char>) -> Seq<char> {
    match (kind, p.os) {
        (RuntimeKind::Node, Os::Posix) => home + "/.node"@,
        (RuntimeKind::Node, Os::Windows) => home + "\\AppData\\Local\\node"@,
        (RuntimeKind::PythonPackager, Os::Posix) => home + "/.uv/"@ + dir_name_of(kind, p),
        (RuntimeKind::PythonPackager, Os::Windows) => home + "\\AppData\\Local\\uv"@,
    }
}

/// The directory that holds a managed runtime's executables, which the
/// runtime's record names.
pub open spec fn runtime_dir_of(kind: RuntimeKind, p: Platform, home: Seq<char>) -> Seq<char> {
    match (kind, p.os) {
        (RuntimeKind::Node, Os::Posix) => extract_dir_of(kind, p, home) + "/"@ + dir_name_of(kind, p),
        (RuntimeKind::Node, Os::Windows) => extract_dir_of(kind, p, home) + "\\"@ + dir_name_of(kind, p),
        (RuntimeKind::PythonPackager, _) => extract_dir_of(kind, p, home),
    }
}

/// The architecture label that `kind`'s release archives carry on `p`.
pub fn arch_label(kind: RuntimeKind, p: Platform) -> (r: &'static str)
    ensures
        r@ == arch_label_of(kind, p),
{
    match (kind, p.os) {
        (RuntimeKind::Node, Os::Posix) => if p.arch == Arch::Aarch64 {
            "darwin-arm64"
        } else {
            "darwin-x64"
        },
        (RuntimeKind::Node, Os::Windows) => if p.arch == Arch::X86_64 {
            "win-x64"
        } else {
            "win-x86"
        },
        (RuntimeKind::PythonPackager, Os::Posix) => if p.arch == Arch::Aarch64 {
            "aarch64-apple-darwin"
        } else {
            "x86_64_apple-darwin"
        },
        (RuntimeKind::PythonPackager, Os::Windows) => if p.arch == Arch::X86_64 {
            "x86_64"
        } else {
            "i686"
        },
    }
}

/// The versioned directory name of `kind` on `p`.
pub fn dir_name(kind: RuntimeKind, p: Platform) -> (r: String)
    ensures
        r@ == dir_name_of(kind, p),
{
    let mut r = match kind {
        RuntimeKind::Node => String::from_str("node-"),
        RuntimeKind::PythonPackager => String::from_str("uv-"),
    };
    r.append(version(kind));
    r.append("-");
    r.append(arch_label(kind, p));
    r
}

/// The download location of `kind`'s release archive for `p`.
pub fn download_url(kind: RuntimeKind, p: Platform) -> (r: String)
    ensures
        r@ == download_url_of(kind, p),
{
    let v = version(kind);
    let a = arch_label(kind, p);
    match kind {
        RuntimeKind::Node => {
            let mut r = String::from_str("https://nodejs.org/dist/");
            r.append(v);
            r.append("/node-");
            r.append(v);
            r.append("-");
            r.append(a);
            match p.os {
                Os::Posix => r.append(".tar.gz"),
                Os::Windows => r.append(".zip"),
            }
            r
        },
        RuntimeKind::PythonPackager => {
            let mut r = String::from_str("https://github.com/astral-sh/uv/releases/download/");
            r.append(v);
            r.append("/uv-");
            r.append(a);
            match p.os {
                Os::Posix => r.append(".tar.gz"),
                Os::Windows => r.append("-pc-windows-msvc.zip"),
            }
            r
        },
    }
}

/// The directory under `home` that `kind`'s archive is unpacked into.
pub fn extract_dir(kind: RuntimeKind, p: Platform, home: &str) -> (r: String)
    ensures
        r@ == extract_dir_of(kind, p, home@),
{
    let mut r = String::from_str(home);
    match (kind, p.os) {
        (RuntimeKind::Node, Os::Posix) => r.append("/.node"),
        (RuntimeKind::Node, Os::Windows) => r.append("\\AppData\\Local\\node"),
        (RuntimeKind::PythonPackager, Os::Posix) => {
            r.append("/.uv/");
            let d = dir_name(kind, p);
            r.append(d.as_str());
        },
        (RuntimeKind::PythonPackager, Os::Windows) => r.append("\\AppData\\Local\\uv"),
    }
    r
}

/// The directory that holds `kind`'s managed executables under `home`.
pub fn runtime_dir(kind: RuntimeKind, p: Platform, home: &str) -> (r: String)
    ensures
        r@ == runtime_dir_of(kind, p, home@),
{
    let mut r = extract_dir(kind, p, home);
    match (kind, p.os) {
        (RuntimeKind::Node, Os::Posix) => {
            r.append("/");
            let d = dir_name(kind, p);
            r.append(d.as_str());
        },
        (RuntimeKind::Node, Os::Windows) => {
            r.append("\\");
            let d = dir_name(kind, p);
            r.append(d.as_str());
        },
        (RuntimeKind::PythonPackager, _) => {},
    }
    r
}

/// The store key of a runtime's resolved path.
pub open spec fn path_key_of(kind: RuntimeKind) -> Seq<char> {
    match kind {
        RuntimeKind::Node => "node_path"@,
        RuntimeKind::PythonPackager => "uv_path"@,
    }
}

/// The store key of a runtime's "use the system's copy" flag.
pub open spec fn flag_key_of(kind: RuntimeKind) -> Seq<char> {
    match kind {
        RuntimeKind::Node => "use_system_node"@,
        RuntimeKind::PythonPackager => "use_system_uv"@,
    }
}

/// The source that a persisted flag stands for; no flag means not checked.
pub open spec fn source_of_flag(flag: Option<bool>) -> RuntimeSource {
    match flag {
        Some(true) => RuntimeSource::System,
        Some(false) => RuntimeSource::Managed,
        None => RuntimeSource::Unknown,
    }
}

/// The flag that persists a source.
pub open spec fn flag_of_source(source: RuntimeSource) -> Option<bool> {
    match source {
        RuntimeSource::System => Some(true),
        RuntimeSource::Managed => Some(false),
        RuntimeSource::Unknown => None,
    }
}

/// The store keys of `kind`'s record: its path and its system flag.
pub fn store_keys(kind: RuntimeKind) -> (r: (&'static str, &'static str))
    ensures
        r.0@ == path_key_of(kind),
        r.1@ == flag_key_of(kind),
{
    match kind {
        RuntimeKind::Node => ("node_path", "use_system_node"),
        RuntimeKind::PythonPackager => ("uv_path", "use_system_uv"),
    }
}

impl RuntimeRecord {
    /// The record that persisted values describe: an absent path reads as
    /// empty and an absent flag as not checked yet.
    pub fn from_store(path: Option<String>, use_system: Option<bool>) -> (r: Self)
        ensures
            r.path@ == match path {
                Some(p) => p@,
                None => Seq::<char>::empty(),
            },
            r.source == source_of_flag(use_system),
    {
        let path = match path {
            Some(p) => p,
            None => String::new(),
        };
        let source = match use_system {
            Some(true) => RuntimeSource::System,
            Some(false) => RuntimeSource::Managed,
            None => RuntimeSource::Unknown,
        };
        RuntimeRecord { path, source }
    }

    /// The flag under which this record's source is persisted.
    pub fn system_flag(&self) -> (r: Option<bool>)
        ensures
            r == flag_of_source(self.source),
            source_of_flag(r) == self.source,
    {
        match self.source {
            RuntimeSource::System => Some(true),
            RuntimeSource::Managed => Some(false),
            RuntimeSource::Unknown => None,
        }
    }
}

/// The executable whose presence the discovery probe looks for.
pub open spec fn binary_name_of(kind: RuntimeKind) -> Seq<char> {
    match kind {
        RuntimeKind::Node => "node"@,
        RuntimeKind::PythonPackager => "uv"@,
    }
}

fn binary_name(kind: RuntimeKind) -> (r: &'static str)
    ensures
        r@ == binary_name_of(kind),
{
    match kind {
        RuntimeKind::Node => "node",
        RuntimeKind::PythonPackager => "uv",
    }
}

/// Whether a record lets detection answer at once: it names a path and
/// that path still exists as a directory or a symbolic link.
pub open spec fn fast_path(path: Seq<char>, path_exists: bool) -> bool {
    path.len() > 0 && path_exists
}

/// What detection does next.
#[derive(Clone, Copy, Debug, PartialEq, Eq, Structural)]
pub enum DetectStep {
    /// The recorded path is usable: the runtime is available.
    Available,
    /// The discovery probe has to run.
    Probe,
}

/// Decides between the fast path and the discovery probe; `path_exists`
/// tells whether the recorded path exists as a directory or symbolic link.
pub fn detect_step(record: &RuntimeRecord, path_exists: bool) -> (r: DetectStep)
    ensures
        (r == DetectStep::Available) == fast_path(record.path@, path_exists),
{
    if record.path.as_str().unicode_len() > 0 && path_exists {
        DetectStep::Available
    } else {
        DetectStep::Probe
    }
}

/// The discovery probe: the user's interactive shell asked for `which` on
/// POSIX, the path search utility on Windows.
pub open spec fn probe_command_of(kind: RuntimeKind, os: Os, shell: Seq<char>) -> Seq<Seq<char>> {
    match os {
        Os::Posix => seq![shell, "-ic"@, "which "@ + binary_name_of(kind)],
        Os::Windows => seq!["where.exe"@, binary_name_of(kind)],
    }
}

/// The program and arguments of the discovery probe.
pub fn probe_command(kind: RuntimeKind, os: Os, shell: &str) -> (r: Vec<String>)
    ensures
        strings_view(r@) == probe_command_of(kind, os, shell@),
{
    let mut r: Vec<String> = Vec::new();
    match os {
        Os::Posix => {
            r.push(String::from_str(shell));
            r.push(String::from_str("-ic"));
            let mut q = String::from_str("which ");
            q.append(binary_name(kind));
            r.push(q);
        },
        Os::Windows => {
            r.push(String::from_str("where.exe"));
            r.push(String::from_str(binary_name(kind)));
        },
    }
    assert(strings_view(r@) =~= probe_command_of(kind, os, shell@));
    r
}

/// The result of a detection that ran the discovery probe.
#[derive(Debug)]
pub struct DetectOutcome {
    /// What detection reports. A checked runtime is taken to resolve through
    /// the system from then on, so this holds whether or not the probe found
    /// anything; `found` tells the two apart.
    pub available: bool,
    /// Whether the probe printed a path naming the runtime's executable.
    pub found: bool,
    /// The record to persist.
    pub record: RuntimeRecord,
}

/// Interprets the probe's output: any non-empty output that names the
/// executable is a discovery. The record is a system record either way.
pub fn finish_detect(kind: RuntimeKind, output: &str) -> (r: DetectOutcome)
    ensures
        r.available,
        r.found == (output@.len() > 0 && contains_text(output@, binary_name_of(kind))),
        r.record.source == RuntimeSource::System,
        r.record.path@ == if r.found {
            output@
        } else {
            Seq::<char>::empty()
        },
{
    let hay = chars_of(output);
    let needle = chars_of(binary_name(kind));
    let found = hay.len() > 0 && contains_chars(&hay, &needle);
    let path = if found {
        String::from_str(output)
    } else {
        String::new()
    };
    DetectOutcome { available: true, found, record: RuntimeRecord { path, source: RuntimeSource::System } }
}

/// Whether the two runtimes are available, as the host reports them.
#[derive(Clone, Copy, Debug, PartialEq, Eq, Structural)]
pub struct DependencyStatus {
    pub uv: bool,
    pub node: bool,
}

/// Fails unless an HTTP status is a success status.
pub fn check_download_status(status: u16) -> (r: Result<(), CoreError>)
    ensures
        r is Ok <==> 200 <= status < 300,
        r is Err ==> r matches Err(CoreError::Network(_)),
{
    if 200 <= status && status < 300 {
        Ok(())
    } else {
        Err(CoreError::Network(String::from_str("the download answered with a non-success status")))
    }
}

} // verus!

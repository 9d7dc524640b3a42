//! Planning the installation of a managed runtime: what is downloaded, where
//! it goes, which links and PATH entries make it reachable, and in which
//! order the steps run.
use crate::runtime::{
    arch_label, arch_label_of, download_url, download_url_of, extract_dir, extract_dir_of, fast_path,
    runtime_dir, runtime_dir_of, Os, Platform, RuntimeKind, RuntimeRecord, RuntimeSource,
};
use crate::text::pairs_view;
use vstd::prelude::*;

verus! {

/// The archive format of the release downloads.
#[derive(Clone, Copy, Debug, PartialEq, Eq, Structural)]
pub enum ArchiveFormat {
    TarGz,
    Zip,
}

/// One step of an installation.
#[derive(Clone, Copy, Debug, PartialEq, Eq, Structural)]
pub enum InstallStep {
    /// Create the directory that the archive is unpacked into.
    CreateDir,
    /// Download the release archive into memory.
    Download,
    /// Unpack the archive.
    Extract,
    /// Create or repair the links to the runtime's executables.
    LinkExecutables,
    /// Append the PATH export line to the shell's startup file.
    PatchShellProfile,
    /// Append the runtime directory to the user's persistent PATH.
    ExtendUserPath,
    /// Persist the managed record.
    Commit,
}

/// The archive format that a platform's downloads use.
pub open spec fn archive_of(os: Os) -> ArchiveFormat {
    match os {
        Os::Posix => ArchiveFormat::TarGz,
        Os::Windows => ArchiveFormat::Zip,
    }
}

/// The steps of an installation, in order. The record is persisted last, so
/// a step that fails leaves no record behind.
pub open spec fn steps_of(os: Os) -> Seq<InstallStep> {
    match os {
        Os::Posix => seq![
            InstallStep::CreateDir,
            InstallStep::Download,
            InstallStep::Extract,
            InstallStep::LinkExecutables,
            InstallStep::PatchShellProfile,
            InstallStep::Commit,
        ],
        Os::Windows => seq![
            InstallStep::CreateDir,
            InstallStep::Download,
            InstallStep::Extract,
            InstallStep::ExtendUserPath,
            InstallStep::Commit,
        ],
    }
}

/// The executables of a runtime that the runtime directory links to.
pub open spec fn executables_of(kind: RuntimeKind) -> Seq<Seq<char>> {
    match kind {
        RuntimeKind::Node => seq!["node"@, "npm"@, "npx"@],
        RuntimeKind::PythonPackager => seq!["uv"@, "uvx"@],
    }
}

/// Where the unpacked archive keeps a runtime's executables on POSIX.
pub open spec fn unpacked_bin_dir_of(kind: RuntimeKind, p: Platform, home: Seq<char>) -> Seq<char> {
    match kind {
        RuntimeKind::Node => runtime_dir_of(kind, p, home) + "/bin"@,
        RuntimeKind::PythonPackager => runtime_dir_of(kind, p, home) + "/uv-"@ + arch_label_of(kind, p),
    }
}

/// The links, as (link, target) pairs, that put a runtime's executables
/// directly in its runtime directory; POSIX only.
pub open spec fn links_of(kind: RuntimeKind, p: Platform, home: Seq<char>) -> Seq<(Seq<char>, Seq<char>)> {
    match p.os {
        Os::Posix => executables_of(kind).map_values(
            |e: Seq<char>|
                (runtime_dir_of(kind, p, home) + "/"@ + e, unpacked_bin_dir_of(kind, p, home) + "/"@ + e),
        ),
        Os::Windows => Seq::empty(),
    }
}

/// The shell line that puts `dir` in front of `PATH`.
pub open spec fn export_line_of(dir: Seq<char>) -> Seq<char> {
    "export PATH=\""@ + dir + ":$PATH\""@
}

/// Everything an installation of one runtime on one platform needs.
#[derive(Debug)]
pub struct InstallPlan {
    pub kind: RuntimeKind,
    pub platform: Platform,
    pub download_url: String,
    pub archive: ArchiveFormat,
    /// The directory that the archive is unpacked into.
    pub extract_dir: String,
    /// The directory the record names and PATH entries point to.
    pub runtime_dir: String,
    /// The links to create, as (link, target) pairs.
    pub links: Vec<(String, String)>,
    /// The line for the shell's startup file, on POSIX.
    pub export_line: Option<String>,
}

/// Whether `plan` is the plan for `kind` on `p` under `home`.
pub open spec fn is_plan_for(plan: InstallPlan, kind: RuntimeKind, p: Platform, home: Seq<char>) -> bool {
    &&& plan.kind == kind
    &&& plan.platform == p
    &&& plan.download_url@ == download_url_of(kind, p)
    &&& plan.archive == archive_of(p.os)
    &&& plan.extract_dir@ == extract_dir_of(kind, p, home)
    &&& plan.runtime_dir@ == runtime_dir_of(kind, p, home)
    &&& pairs_view(plan.links@) == links_of(kind, p, home)
    &&& match p.os {
        Os::Posix => plan.export_line matches Some(l) && l@ == export_line_of(runtime_dir_of(kind, p, home)),
        Os::Windows => plan.export_line is None,
    }
}

fn executables(kind: RuntimeKind) -> (r: Vec<&'static str>)
    ensures
        r@.map_values(|s: &'static str| s@) == executables_of(kind),
{
    let mut r: Vec<&'static str> = Vec::new();
    match kind {
        RuntimeKind::Node => {
            r.push("node");
            r.push("npm");
            r.push("npx");
        },
        RuntimeKind::PythonPackager => {
            r.push("uv");
            r.push("uvx");
        },
    }
    assert(r@.map_values(|s: &'static str| s@) =~= executables_of(kind));
    r
}

fn unpacked_bin_dir(kind: RuntimeKind, p: Platform, home: &str) -> (r: String)
    ensures
        r@ == unpacked_bin_dir_of(kind, p, home@),
{
    let mut r = runtime_dir(kind, p, home);
    match kind {
        RuntimeKind::Node => r.append("/bin"),
        RuntimeKind::PythonPackager => {
            r.append("/uv-");
            r.append(arch_label(kind, p));
        },
    }
    r
}

fn executable_links(kind: RuntimeKind, p: Platform, home: &str) -> (r: Vec<(String, String)>)
    ensures
        pairs_view(r@) == links_of(kind, p, home@),
{
    let mut r: Vec<(String, String)> = Vec::new();
    if p.os == Os::Windows {
        assert(pairs_view(r@) =~= links_of(kind, p, home@));
        return r;
    }
    let names = executables(kind);
    let dir = runtime_dir(kind, p, home);
    let bin = unpacked_bin_dir(kind, p, home);
    let ghost want = links_of(kind, p, home@);
    let mut i: usize = 0;
    while i < names.len()
        invariant
            p.os == Os::Posix,
            i <= names@.len(),
            names@.map_values(|s: &'static str| s@) == executables_of(kind),
            dir@ == runtime_dir_of(kind, p, home@),
            bin@ == unpacked_bin_dir_of(kind, p, home@),
            want == links_of(kind, p, home@),
            want.len() == names@.len(),
            pairs_view(r@) == want.subrange(0, i as int),
        decreases names@.len() - i,
    {
        let name = names[i];
        assert(names@.map_values(|s: &'static str| s@)[i as int] == name@);
        let mut link = dir.clone();
        link.append("/");
        link.append(name);
        let mut target = bin.clone();
        target.append("/");
        target.append(name);
        proof {
            assert(executables_of(kind)[i as int] == name@);
            assert(want[i as int] == (link@, target@));
        }
        let ghost before = r@;
        r.push((link, target));
        proof {
            assert(pairs_view(r@) =~= pairs_view(before).push(want[i as int]));
            assert(want.subrange(0, i + 1) =~= want.subrange(0, i as int).push(want[i as int]));
        }
        i = i + 1;
    }
    assert(want.subrange(0, i as int) =~= want);
    r
}

/// The plan for installing `kind` on `p` under the home directory `home`.
pub fn install_plan(kind: RuntimeKind, p: Platform, home: &str) -> (r: InstallPlan)
    ensures
        is_plan_for(r, kind, p, home@),
{
    let runtime = runtime_dir(kind, p, home);
    let export_line = match p.os {
        Os::Posix => {
            let mut l = String::from_str("export PATH=\"");
            l.append(runtime.as_str());
            l.append(":$PATH\"");
            Some(l)
        },
        Os::Windows => None,
    };
    let archive = match p.os {
        Os::Posix => ArchiveFormat::TarGz,
        Os::Windows => ArchiveFormat::Zip,
    };
    InstallPlan {
        kind,
        platform: p,
        download_url: download_url(kind, p),
        archive,
        extract_dir: extract_dir(kind, p, home),
        runtime_dir: runtime,
        links: executable_links(kind, p, home),
        export_line,
    }
}

impl InstallPlan {
    /// The steps to run, in order; the record is persisted last.
    pub fn steps(&self) -> (r: Vec<InstallStep>)
        ensures
            r@ == steps_of(self.platform.os),
    {
        let mut r: Vec<InstallStep> = Vec::new();
        r.push(InstallStep::CreateDir);
        r.push(InstallStep::Download);
        r.push(InstallStep::Extract);
        match self.platform.os {
            Os::Posix => {
                r.push(InstallStep::LinkExecutables);
                r.push(InstallStep::PatchShellProfile);
            },
            Os::Windows => {
                r.push(InstallStep::ExtendUserPath);
            },
        }
        r.push(InstallStep::Commit);
        assert(r@ =~= steps_of(self.platform.os));
        r
    }

    /// The record that a successful installation persists.
    pub fn record(&self) -> (r: RuntimeRecord)
        ensures
            r.path@ == self.runtime_dir@,
            r.source == RuntimeSource::Managed,
    {
        RuntimeRecord { path: self.runtime_dir.clone(), source: RuntimeSource::Managed }
    }
}

/// Once an installation has succeeded, its runtime directory exists, and the
/// record it persisted lets detection answer at once, without the probe.
pub proof fn law_installed_runtime_detected_without_probe(kind: RuntimeKind, p: Platform, home: Seq<char>)
    ensures
        fast_path(runtime_dir_of(kind, p, home), true),
{
    reveal_strlit("/.node");
    reveal_strlit("/.uv/");
    reveal_strlit("\\AppData\\Local\\node");
    reveal_strlit("\\AppData\\Local\\uv");
    assert(runtime_dir_of(kind, p, home).len() > 0);
}

} // verus!

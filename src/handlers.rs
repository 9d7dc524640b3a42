//! The per-runtime entry points and the catalog resource.
use crate::install::{install_plan, is_plan_for, InstallPlan};
use crate::runtime::{detect_step, fast_path, DetectStep, Platform, RuntimeKind, RuntimeRecord};
use vstd::prelude::*;

verus! {

/// Detection and installation of the JavaScript runtime.
pub struct NpmHandler;

/// Detection and installation of the Python packaging tool.
pub struct UVHandler;

/// The catalog of installable servers.
pub struct ResourceHandler;

impl NpmHandler {
    /// Detection's next step for the JavaScript runtime.
    pub fn detect(record: &RuntimeRecord, path_exists: bool) -> (r: DetectStep)
        ensures
            (r == DetectStep::Available) == fast_path(record.path@, path_exists),
    {
        detect_step(record, path_exists)
    }

    /// The installation plan of the JavaScript runtime.
    pub fn install(p: Platform, home: &str) -> (r: InstallPlan)
        ensures
            is_plan_for(r, RuntimeKind::Node, p, home@),
    {
        install_plan(RuntimeKind::Node, p, home)
    }
}

impl UVHandler {
    /// Detection's next step for the Python packaging tool.
    pub fn detect(record: &RuntimeRecord, path_exists: bool) -> (r: DetectStep)
        ensures
            (r == DetectStep::Available) == fast_path(record.path@, path_exists),
    {
        detect_step(record, path_exists)
    }

    /// The installation plan of the Python packaging tool.
    pub fn install(p: Platform, home: &str) -> (r: InstallPlan)
        ensures
            is_plan_for(r, RuntimeKind::PythonPackager, p, home@),
    {
        install_plan(RuntimeKind::PythonPackager, p, home)
    }
}

impl ResourceHandler {
    /// Where the catalog is downloaded from.
    pub fn catalog_url() -> (r: &'static str)
        ensures
            r@ == "https://app.mcphub.net/server-configuration/servers.json"@,
    {
        "https://app.mcphub.net/server-configuration/servers.json"
    }

    /// The store key under which the downloaded catalog is kept.
    pub fn store_key() -> (r: &'static str)
        ensures
            r@ == "servers"@,
    {
        "servers"
    }

    /// Whether the catalog has to be downloaded: only when the store does
    /// not hold it yet.
    pub fn detect(cached: bool) -> (r: bool)
        ensures
            r == !cached,
    {
        !cached
    }
}

} // verus!

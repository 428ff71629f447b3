//! What the command line selects: where to look for resources, how to
//! print what was found, and which platform version to judge them by.

use vstd::prelude::*;

verus! {

/// The platform version that a scan targets when none is given.
pub const DEFAULT_TARGET_VERSION: &'static str = "1.16";

/// The heading of the first column when a cluster is scanned.
pub const NAMESPACE_COLUMN: &'static str = "Namespace";

/// The heading of the first column when manifest files are scanned.
pub const FILENAME_COLUMN: &'static str = "Filename";

/// The log filter of an ordinary run.
pub const LOG_FILTER: &'static str = "info,kube=info";

/// The log filter of a run with one `--debug`.
pub const LOG_FILTER_DEBUG: &'static str = "info,kube=debug";

/// How the report is printed.
#[derive(Clone, Copy, Debug, PartialEq, Eq, Structural)]
pub enum Output {
    Table,
    Junit,
    Csv,
}

/// Where a scan looks for resources, each with the heading of the first
/// column of its report.
#[derive(Clone, Debug, PartialEq, Eq)]
pub enum Scrape {
    /// The live cluster.
    Cluster(&'static str),
    /// The manifest files under a directory.
    Dir(String, &'static str),
}

/// The options of the command line.
#[derive(Clone, Debug, PartialEq, Eq)]
pub struct Sunset {
    /// The platform version to judge resources by.
    pub target_version: Option<String>,
    /// How to print the report.
    pub output: Output,
    /// The kubeconfig to connect with.
    pub kubeconfig: Option<String>,
    /// A directory of manifest files to scan in place of the cluster.
    pub file: Option<String>,
    /// How often `--debug` was given.
    pub debug: usize,
}

impl Sunset {
    /// Where to look for resources: under the directory given with
    /// `--file`, or else in the cluster.
    pub fn check_scrape_type(&self) -> (scrape: Scrape)
        ensures
            match self.file {
                Some(directory) => scrape matches Scrape::Dir(location, column) && location@
                    == directory@ && column@ == FILENAME_COLUMN@,
                None => scrape matches Scrape::Cluster(column) && column@ == NAMESPACE_COLUMN@,
            },
    {
        match &self.file {
            Some(directory) => Scrape::Dir(directory.clone(), FILENAME_COLUMN),
            None => Scrape::Cluster(NAMESPACE_COLUMN),
        }
    }

    /// The platform version to judge resources by: the one given, or else
    /// the default.
    pub fn version(&self) -> (version: String)
        ensures
            version@ == match self.target_version {
                Some(given) => given@,
                None => DEFAULT_TARGET_VERSION@,
            },
    {
        match &self.target_version {
            Some(given) => given.clone(),
            None => DEFAULT_TARGET_VERSION.to_owned(),
        }
    }

    /// The log filter of the run: that of a debug run for exactly one
    /// `--debug`, and else the ordinary one.
    pub fn log_filter(&self) -> (filter: &'static str)
        ensures
            filter@ == if self.debug == 1 {
                LOG_FILTER_DEBUG@
            } else {
                LOG_FILTER@
            },
    {
        if self.debug == 1 {
            LOG_FILTER_DEBUG
        } else {
            LOG_FILTER
        }
    }
}

} // verus!
